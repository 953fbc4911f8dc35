//! A persistent key-value store of byte values, one `redb` table in the
//! file `datas/{name}.redb`.
use crate::app::storage::{
    abort, begin_read, begin_write, commit, create_database, create_in_memory, create_table,
    entries, insert_entry, lists_exactly, lookup, pending, pending_table_exists, remove_entry,
    snapshot, store_path, stored, table_exists, write_target, writing, EntriesError, Store,
    TableReadError, TableWriteError,
};
use vstd::prelude::*;

verus! {

/// The directory that holds the database files.
pub const DIR: &'static str = "datas";

pub const CREATE_DATABASE_FAILED: &'static str = "Création de la base de données.";

pub const BEGIN_WRITE_FAILED: &'static str = "Ouverture d'une transaction en écriture.";

pub const CREATE_TABLE_FAILED: &'static str = "Création de la table.";

pub const COMMIT_FAILED: &'static str = "Commit de la transaction.";

pub const OPEN_TABLE_FAILED: &'static str = "Ouverture de la table.";

pub const INSERT_FAILED: &'static str = "Insertion de la valeur.";

pub const BEGIN_READ_FAILED: &'static str = "Ouverture d'une transaction en lecture.";

pub const READ_VALUE_FAILED: &'static str = "Lecture d'une valeur.";

pub const READ_VALUES_FAILED: &'static str = "Lecture des valeurs.";

pub const READ_ENTRY_FAILED: &'static str = "Lecture d'une entrée.";

pub const REMOVE_FAILED: &'static str = "Suppression de la valeur.";

/// The file of the database named `name`: `datas/{name}.redb`.
pub open spec fn location_of(name: Seq<char>) -> Seq<char> {
    DIR@ + "/"@ + name + ".redb"@
}

/// The value of `key` in `contents`, or `None` if the key is missing.
pub open spec fn value_of(contents: Map<Seq<char>, Seq<u8>>, key: Seq<char>) -> Option<Seq<u8>> {
    if contents.contains_key(key) {
        Some(contents[key])
    } else {
        None
    }
}

/// `message` is what a failed write (whose own step fails with `step`)
/// reports: a failed commit leaves the contents unknown, any other failure
/// leaves them as they were.
pub open spec fn failed_write(
    message: &'static str,
    step: &'static str,
    before: Map<Seq<char>, Seq<u8>>,
    after: Map<Seq<char>, Seq<u8>>,
) -> bool {
    message == COMMIT_FAILED || ((message == BEGIN_WRITE_FAILED || message == OPEN_TABLE_FAILED
        || message == step) && after == before)
}

/// `message` is what a failed lookup reports.
pub open spec fn failed_lookup(message: &'static str) -> bool {
    message == BEGIN_READ_FAILED || message == OPEN_TABLE_FAILED || message == READ_VALUE_FAILED
}

/// `message` is what a failed listing reports.
pub open spec fn failed_listing(message: &'static str) -> bool {
    message == BEGIN_READ_FAILED || message == OPEN_TABLE_FAILED || message == READ_VALUES_FAILED
        || message == READ_ENTRY_FAILED
}

/// A found value taken by its bytes.
pub open spec fn bytes_of(found: Option<Vec<u8>>) -> Option<Seq<u8>> {
    match found {
        Some(value) => Some(value@),
        None => None,
    }
}

/// A persistent key-value store: string keys, byte values.
pub struct Database {
    name: &'static str,
    db: Store,
    location: String,
    /// The store as it was when the database was opened.
    opened: Ghost<Store>,
}

impl View for Database {
    type V = Map<Seq<char>, Seq<u8>>;

    /// What the database holds.
    closed spec fn view(&self) -> Map<Seq<char>, Seq<u8>> {
        stored(self.db)
    }
}

/// The message for a failed operation on the table within a write
/// transaction: opening the table, or the write itself (`write_failed`).
pub fn table_write_message(failure: &TableWriteError, write_failed: &'static str) -> (r:
    &'static str)
    ensures
        r == match failure {
            TableWriteError::OpenTable(_) => OPEN_TABLE_FAILED,
            TableWriteError::Write(_) => write_failed,
        },
{
    match failure {
        TableWriteError::OpenTable(_) => OPEN_TABLE_FAILED,
        TableWriteError::Write(_) => write_failed,
    }
}

/// The message for a failed lookup within a read transaction.
pub fn lookup_message(failure: &TableReadError) -> (r: &'static str)
    ensures
        r == match failure {
            TableReadError::OpenTable(_) => OPEN_TABLE_FAILED,
            TableReadError::Read(_) => READ_VALUE_FAILED,
        },
{
    match failure {
        TableReadError::OpenTable(_) => OPEN_TABLE_FAILED,
        TableReadError::Read(_) => READ_VALUE_FAILED,
    }
}

/// The message for a failed listing within a read transaction.
pub fn listing_message(failure: &EntriesError) -> (r: &'static str)
    ensures
        r == match failure {
            EntriesError::OpenTable(_) => OPEN_TABLE_FAILED,
            EntriesError::Range(_) => READ_VALUES_FAILED,
            EntriesError::Entry(_) => READ_ENTRY_FAILED,
        },
{
    match failure {
        EntriesError::OpenTable(_) => OPEN_TABLE_FAILED,
        EntriesError::Range(_) => READ_VALUES_FAILED,
        EntriesError::Entry(_) => READ_ENTRY_FAILED,
    }
}

/// Opens the database file at `path`; the failure is reported as
/// `CREATE_DATABASE_FAILED`.
pub fn open_file(path: &str) -> (r: Result<Store, &'static str>)
    ensures
        match r {
            Ok(store) => store_path(store) == path@ && !writing(store),
            Err(message) => message == CREATE_DATABASE_FAILED,
        },
{
    match create_database(path) {
        Ok(store) => Ok(store),
        Err(_) => Err(CREATE_DATABASE_FAILED),
    }
}

/// Begins a write transaction on `store`; the failure is reported as
/// `BEGIN_WRITE_FAILED` and leaves the store as it was.
pub fn start_write(store: &mut Store) -> (r: Result<redb::WriteTransaction, &'static str>)
    requires
        !writing(*old(store)),
    ensures
        match r {
            Ok(txn) => {
                &&& writing(*final(store))
                &&& write_target(txn) == *final(store)
                &&& pending(txn) == stored(*old(store))
                &&& pending_table_exists(txn) == table_exists(*old(store))
                &&& stored(*final(store)) == stored(*old(store))
                &&& store_path(*final(store)) == store_path(*old(store))
                &&& table_exists(*final(store)) == table_exists(*old(store))
            },
            Err(message) => message == BEGIN_WRITE_FAILED && *final(store) == *old(store),
        },
{
    match begin_write(store) {
        Ok(txn) => Ok(txn),
        Err(_) => Err(BEGIN_WRITE_FAILED),
    }
}

/// What a step within a write transaction leaves when it fails: the
/// transaction aborted, the store as it was committed, no write under way.
pub open spec fn aborted(before: Store, after: Store) -> bool {
    &&& !writing(after)
    &&& stored(after) == stored(before)
    &&& store_path(after) == store_path(before)
    &&& table_exists(after) == table_exists(before)
}

/// Creates the table within `txn`; on failure aborts the transaction and
/// reports `CREATE_TABLE_FAILED`.
pub fn create_table_or_abort(store: &mut Store, txn: redb::WriteTransaction) -> (r: Result<
    redb::WriteTransaction,
    &'static str,
>)
    requires
        write_target(txn) == *old(store),
    ensures
        match r {
            Ok(next) => {
                &&& *final(store) == *old(store)
                &&& write_target(next) == *old(store)
                &&& pending(next) == pending(txn)
                &&& pending_table_exists(next)
            },
            Err(message) => message == CREATE_TABLE_FAILED && aborted(*old(store), *final(store)),
        },
{
    let mut txn = txn;
    match create_table(&mut txn) {
        Ok(()) => Ok(txn),
        Err(_) => {
            let _ = abort(store, txn);
            Err(CREATE_TABLE_FAILED)
        },
    }
}

/// Maps `key` to `value` within `txn`; on failure aborts the transaction and
/// reports the message of the failing step (`OPEN_TABLE_FAILED` or
/// `INSERT_FAILED`).
pub fn insert_or_abort(
    store: &mut Store,
    txn: redb::WriteTransaction,
    key: &str,
    value: &[u8],
) -> (r: Result<redb::WriteTransaction, &'static str>)
    requires
        write_target(txn) == *old(store),
    ensures
        match r {
            Ok(next) => {
                &&& *final(store) == *old(store)
                &&& write_target(next) == *old(store)
                &&& pending(next) == pending(txn).insert(key@, value@)
                &&& pending_table_exists(next)
            },
            Err(message) => (message == OPEN_TABLE_FAILED || message == INSERT_FAILED) && aborted(
                *old(store),
                *final(store),
            ),
        },
{
    let mut txn = txn;
    match insert_entry(&mut txn, key, value) {
        Ok(()) => Ok(txn),
        Err(failure) => {
            let message = table_write_message(&failure, INSERT_FAILED);
            let _ = abort(store, txn);
            Err(message)
        },
    }
}

/// Removes `key` within `txn`; on failure aborts the transaction and
/// reports the message of the failing step (`OPEN_TABLE_FAILED` or
/// `REMOVE_FAILED`).
pub fn remove_or_abort(store: &mut Store, txn: redb::WriteTransaction, key: &str) -> (r: Result<
    redb::WriteTransaction,
    &'static str,
>)
    requires
        write_target(txn) == *old(store),
    ensures
        match r {
            Ok(next) => {
                &&& *final(store) == *old(store)
                &&& write_target(next) == *old(store)
                &&& pending(next) == pending(txn).remove(key@)
                &&& pending_table_exists(next)
            },
            Err(message) => (message == OPEN_TABLE_FAILED || message == REMOVE_FAILED) && aborted(
                *old(store),
                *final(store),
            ),
        },
{
    let mut txn = txn;
    match remove_entry(&mut txn, key) {
        Ok(()) => Ok(txn),
        Err(failure) => {
            let message = table_write_message(&failure, REMOVE_FAILED);
            let _ = abort(store, txn);
            Err(message)
        },
    }
}

/// Commits `txn`; the failure is reported as `COMMIT_FAILED`, after which
/// nothing is claimed of what the store holds.
pub fn finish_write(store: &mut Store, txn: redb::WriteTransaction) -> (r: Result<
    (),
    &'static str,
>)
    requires
        write_target(txn) == *old(store),
    ensures
        !writing(*final(store)),
        store_path(*final(store)) == store_path(*old(store)),
        match r {
            Ok(()) => stored(*final(store)) == pending(txn) && table_exists(*final(store))
                == pending_table_exists(txn),
            Err(message) => message == COMMIT_FAILED,
        },
{
    match commit(store, txn) {
        Ok(()) => Ok(()),
        Err(_) => Err(COMMIT_FAILED),
    }
}

/// Begins a read transaction on `store`; the failure is reported as
/// `BEGIN_READ_FAILED`.
pub fn start_read(store: &Store) -> (r: Result<redb::ReadTransaction, &'static str>)
    ensures
        match r {
            Ok(txn) => snapshot(txn) == stored(*store),
            Err(message) => message == BEGIN_READ_FAILED,
        },
{
    match begin_read(store) {
        Ok(txn) => Ok(txn),
        Err(_) => Err(BEGIN_READ_FAILED),
    }
}

impl Database {
    pub closed spec fn spec_name(&self) -> &'static str {
        self.name
    }

    /// The path that `location` gives.
    pub closed spec fn spec_location(&self) -> Seq<char> {
        self.location@
    }

    /// The path of the file that the database reads and writes; empty for a
    /// database kept in memory.
    pub closed spec fn spec_file(&self) -> Seq<char> {
        store_path(self.db)
    }

    /// What the database held when it was opened: for a file, what the file
    /// held then.
    pub closed spec fn contents_when_opened(&self) -> Map<Seq<char>, Seq<u8>> {
        stored(self.opened@)
    }

    /// The path of the file as it was opened.
    pub closed spec fn opened_file(&self) -> Seq<char> {
        store_path(self.opened@)
    }

    /// Whether the table exists in the database.
    pub closed spec fn has_table(&self) -> bool {
        table_exists(self.db)
    }

    /// The database is at rest: no write transaction of it is live.
    pub closed spec fn wf(&self) -> bool {
        !writing(self.db)
    }

    /// Whether `self` and `other` are the same database: same name, same
    /// location, same file opened.
    pub open spec fn same_file(&self, other: &Database) -> bool {
        &&& self.spec_name() == other.spec_name()
        &&& self.spec_location() == other.spec_location()
        &&& self.spec_file() == other.spec_file()
        &&& self.opened_file() == other.opened_file()
        &&& self.contents_when_opened() == other.contents_when_opened()
    }

    /// The name the database was loaded with.
    pub fn name(&self) -> (r: &'static str)
        ensures
            r == self.spec_name(),
    {
        self.name
    }

    /// The path of the database file.
    pub fn location(&self) -> (r: &str)
        ensures
            r@ == self.spec_location(),
    {
        self.location.as_str()
    }

    /// Opens the file `datas/{name}.redb`, creating it if it is missing, and
    /// creates its table if it does not exist yet. The directory `datas`
    /// must exist. What the file held is kept as it was: the database holds
    /// exactly what the file held when it was opened.
    pub fn load(name: &'static str) -> (r: Result<Database, &'static str>)
        ensures
            match r {
                Ok(database) => {
                    &&& database.spec_name() == name
                    &&& database.spec_location() == location_of(name@)
                    &&& database.spec_file() == location_of(name@)
                    &&& database.opened_file() == location_of(name@)
                    &&& database@ == database.contents_when_opened()
                    &&& database.has_table()
                    &&& database.wf()
                },
                Err(message) => message == CREATE_DATABASE_FAILED || message == BEGIN_WRITE_FAILED
                    || message == CREATE_TABLE_FAILED || message == COMMIT_FAILED,
            },
    {
        let mut location = String::from_str(DIR);
        location.append("/");
        location.append(name);
        location.append(".redb");
        let db = match open_file(location.as_str()) {
            Ok(db) => db,
            Err(message) => return Err(message),
        };
        Database::open(name, location, db)
    }

    /// A new, empty database named `name`, kept in memory rather than in a
    /// file: it has no location and is gone when dropped.
    pub fn in_memory(name: &'static str) -> (r: Result<Database, &'static str>)
        ensures
            match r {
                Ok(database) => {
                    &&& database.spec_name() == name
                    &&& database.spec_location() == Seq::<char>::empty()
                    &&& database.spec_file() == Seq::<char>::empty()
                    &&& database@ == Map::<Seq<char>, Seq<u8>>::empty()
                    &&& database.contents_when_opened() == Map::<Seq<char>, Seq<u8>>::empty()
                    &&& database.has_table()
                    &&& database.wf()
                },
                Err(message) => message == CREATE_DATABASE_FAILED || message == BEGIN_WRITE_FAILED
                    || message == CREATE_TABLE_FAILED || message == COMMIT_FAILED,
            },
    {
        let db = match create_in_memory() {
            Ok(db) => db,
            Err(_) => return Err(CREATE_DATABASE_FAILED),
        };
        Database::open(name, String::new(), db)
    }

    /// Creates the table in the just opened `db` if it does not exist yet.
    fn open(name: &'static str, location: String, db: Store) -> (r: Result<Database, &'static str>)
        requires
            !writing(db),
        ensures
            match r {
                Ok(database) => {
                    &&& database.spec_name() == name
                    &&& database.spec_location() == location@
                    &&& database.spec_file() == store_path(db)
                    &&& database@ == stored(db)
                    &&& database.contents_when_opened() == stored(db)
                    &&& database.opened_file() == store_path(db)
                    &&& database.has_table()
                    &&& database.wf()
                },
                Err(message) => message == BEGIN_WRITE_FAILED || message == CREATE_TABLE_FAILED
                    || message == COMMIT_FAILED,
            },
    {
        let ghost initial = db;
        let mut db = db;
        let txn = match start_write(&mut db) {
            Ok(txn) => txn,
            Err(message) => return Err(message),
        };
        let txn = match create_table_or_abort(&mut db, txn) {
            Ok(txn) => txn,
            Err(message) => return Err(message),
        };
        match finish_write(&mut db, txn) {
            Ok(()) => Ok(Database { name, db, location, opened: Ghost(initial) }),
            Err(message) => Err(message),
        }
    }

    /// Maps `key` to `value`, replacing any earlier value, and returns the
    /// key. If the commit fails, nothing is promised of what the database
    /// then holds; after any other failure it is unchanged.
    pub fn upsert(&mut self, key: &str, value: &[u8]) -> (r: Result<String, &'static str>)
        requires
            old(self).wf(),
        ensures
            final(self).wf(),
            final(self).same_file(old(self)),
            match r {
                Ok(k) => k@ == key@ && final(self)@ == old(self)@.insert(key@, value@)
                    && final(self)@ == after_changes(old(self)@, seq![Change::Write(key@, value@)])
                    && final(self).has_table(),
                Err(message) => failed_write(message, INSERT_FAILED, old(self)@, final(self)@),
            },
    {
        let txn = match start_write(&mut self.db) {
            Ok(txn) => txn,
            Err(message) => return Err(message),
        };
        let txn = match insert_or_abort(&mut self.db, txn, key, value) {
            Ok(txn) => txn,
            Err(message) => return Err(message),
        };
        proof {
            lemma_one_change(stored(self.db), Change::Write(key@, value@));
        }
        match finish_write(&mut self.db, txn) {
            Ok(()) => Ok(String::from_str(key)),
            Err(message) => Err(message),
        }
    }

    /// The value of `key`, or `None` if the key is missing.
    pub fn get(&self, key: &str) -> (r: Result<Option<Vec<u8>>, &'static str>)
        ensures
            match r {
                Ok(found) => bytes_of(found) == value_of(self@, key@),
                Err(message) => failed_lookup(message),
            },
    {
        let txn = match start_read(&self.db) {
            Ok(txn) => txn,
            Err(message) => return Err(message),
        };
        match lookup(&txn, key) {
            Ok(found) => Ok(found),
            Err(failure) => Err(lookup_message(&failure)),
        }
    }

    /// Whether `key` is present.
    pub fn contains(&self, key: &str) -> (r: Result<bool, &'static str>)
        ensures
            match r {
                Ok(present) => present == self@.contains_key(key@),
                Err(message) => failed_lookup(message),
            },
    {
        let txn = match start_read(&self.db) {
            Ok(txn) => txn,
            Err(message) => return Err(message),
        };
        match lookup(&txn, key) {
            Ok(found) => Ok(found.is_some()),
            Err(failure) => Err(lookup_message(&failure)),
        }
    }

    /// Every entry, each key once. All or nothing: if one entry cannot be
    /// read, the whole call fails.
    pub fn get_all(&self) -> (r: Result<Vec<(String, Vec<u8>)>, &'static str>)
        ensures
            match r {
                Ok(all) => lists_exactly(all@, self@),
                Err(message) => failed_listing(message),
            },
    {
        let txn = match start_read(&self.db) {
            Ok(txn) => txn,
            Err(message) => return Err(message),
        };
        match entries(&txn) {
            Ok(all) => Ok(all),
            Err(failure) => Err(listing_message(&failure)),
        }
    }

    /// Removes `key`; a missing key is no error. If the commit fails,
    /// nothing is promised of what the database then holds; after any other
    /// failure it is unchanged.
    pub fn remove(&mut self, key: &str) -> (r: Result<(), &'static str>)
        requires
            old(self).wf(),
        ensures
            final(self).wf(),
            final(self).same_file(old(self)),
            match r {
                Ok(()) => final(self)@ == old(self)@.remove(key@) && final(self)@ == after_changes(
                    old(self)@,
                    seq![Change::Remove(key@)],
                ) && final(self).has_table(),
                Err(message) => failed_write(message, REMOVE_FAILED, old(self)@, final(self)@),
            },
    {
        let txn = match start_write(&mut self.db) {
            Ok(txn) => txn,
            Err(message) => return Err(message),
        };
        let txn = match remove_or_abort(&mut self.db, txn, key) {
            Ok(txn) => txn,
            Err(message) => return Err(message),
        };
        proof {
            lemma_one_change(stored(self.db), Change::Remove(key@));
        }
        match finish_write(&mut self.db, txn) {
            Ok(()) => Ok(()),
            Err(message) => Err(message),
        }
    }
}

/// A read gives back what the last write wrote: once `key` is written with
/// `value`, reading `key` gives `value`, and every other key reads as
/// before.
pub proof fn lemma_read_after_write(
    contents: Map<Seq<char>, Seq<u8>>,
    key: Seq<char>,
    value: Seq<u8>,
    other: Seq<char>,
)
    ensures
        value_of(contents.insert(key, value), key) == Some(value),
        other != key ==> value_of(contents.insert(key, value), other) == value_of(contents, other),
{
}

/// A change that a successful write makes to the contents: `upsert` of a
/// key and a value, or `remove` of a key.
pub enum Change {
    Write(Seq<char>, Seq<u8>),
    Remove(Seq<char>),
}

/// The key that `change` is about.
pub open spec fn changed_key(change: Change) -> Seq<char> {
    match change {
        Change::Write(key, _) => key,
        Change::Remove(key) => key,
    }
}

/// The contents after the changes `changes`, one after the other.
pub open spec fn after_changes(contents: Map<Seq<char>, Seq<u8>>, changes: Seq<Change>) -> Map<
    Seq<char>,
    Seq<u8>,
>
    decreases changes.len(),
{
    if changes.len() == 0 {
        contents
    } else {
        let before = after_changes(contents, changes.drop_last());
        match changes.last() {
            Change::Write(key, value) => before.insert(key, value),
            Change::Remove(key) => before.remove(key),
        }
    }
}

/// One change applies as `upsert` and `remove` state it.
pub proof fn lemma_one_change(contents: Map<Seq<char>, Seq<u8>>, change: Change)
    ensures
        after_changes(contents, seq![change]) == match change {
            Change::Write(key, value) => contents.insert(key, value),
            Change::Remove(key) => contents.remove(key),
        },
{
    let changes = seq![change];
    assert(changes.drop_last() =~= Seq::<Change>::empty());
    assert(after_changes(contents, changes.drop_last()) == contents);
    assert(changes.last() == change);
}

/// Changes made one call after another compose: the contents after the
/// changes `first`, then after `then`, are the contents after `first + then`.
pub proof fn lemma_changes_compose(
    contents: Map<Seq<char>, Seq<u8>>,
    first: Seq<Change>,
    then: Seq<Change>,
)
    ensures
        after_changes(after_changes(contents, first), then) == after_changes(contents, first + then),
    decreases then.len(),
{
    if then.len() == 0 {
        assert(first + then =~= first);
    } else {
        lemma_changes_compose(contents, first, then.drop_last());
        assert((first + then).drop_last() =~= first + then.drop_last());
        assert((first + then).last() == then.last());
    }
}

/// A read gives back the last write of its key, whatever was written to or
/// removed from the other keys since.
pub proof fn lemma_read_after_writes_elsewhere(
    contents: Map<Seq<char>, Seq<u8>>,
    key: Seq<char>,
    value: Seq<u8>,
    changes: Seq<Change>,
)
    requires
        forall|i: int| 0 <= i < changes.len() ==> changed_key(#[trigger] changes[i]) != key,
    ensures
        value_of(after_changes(contents.insert(key, value), changes), key) == Some(value),
    decreases changes.len(),
{
    if changes.len() > 0 {
        let init = changes.drop_last();
        assert forall|i: int| 0 <= i < init.len() implies changed_key(#[trigger] init[i]) != key by {
            assert(init[i] == changes[i]);
        }
        lemma_read_after_writes_elsewhere(contents, key, value, init);
        assert(changed_key(changes[changes.len() - 1]) != key);
    }
}

/// A read after a write and a run of other successful writes and removals
/// (none of the same key) gives back the value written.
pub proof fn lemma_read_after_write_then_changes(
    contents: Map<Seq<char>, Seq<u8>>,
    key: Seq<char>,
    value: Seq<u8>,
    changes: Seq<Change>,
)
    requires
        forall|i: int| 0 <= i < changes.len() ==> changed_key(#[trigger] changes[i]) != key,
    ensures
        value_of(after_changes(contents, seq![Change::Write(key, value)] + changes), key) == Some(
            value,
        ),
{
    lemma_one_change(contents, Change::Write(key, value));
    lemma_changes_compose(contents, seq![Change::Write(key, value)], changes);
    lemma_read_after_writes_elsewhere(contents, key, value, changes);
}

/// A second write to a key replaces the first.
pub proof fn lemma_write_replaces(
    contents: Map<Seq<char>, Seq<u8>>,
    key: Seq<char>,
    first: Seq<u8>,
    second: Seq<u8>,
)
    ensures
        contents.insert(key, first).insert(key, second) == contents.insert(key, second),
{
    assert(contents.insert(key, first).insert(key, second) =~= contents.insert(key, second));
}

/// After a removal the key reads as missing and every other key reads as
/// before; removing a missing key changes nothing.
pub proof fn lemma_read_after_remove(
    contents: Map<Seq<char>, Seq<u8>>,
    key: Seq<char>,
    other: Seq<char>,
)
    ensures
        value_of(contents.remove(key), key) is None,
        other != key ==> value_of(contents.remove(key), other) == value_of(contents, other),
        !contents.contains_key(key) ==> contents.remove(key) == contents,
{
    assert(!contents.contains_key(key) ==> contents.remove(key) =~= contents);
}

/// A listing holds one entry per key: as many entries as keys, and none for
/// an empty store.
pub proof fn lemma_listing_size(entries: Seq<(String, Vec<u8>)>, contents: Map<Seq<char>, Seq<u8>>)
    requires
        lists_exactly(entries, contents),
    ensures
        contents.dom().finite(),
        entries.len() == contents.len(),
        contents.len() == 0 <==> entries.len() == 0,
{
    let keys = entries.map_values(|e: (String, Vec<u8>)| e.0@);
    assert(keys.no_duplicates()) by {
        assert forall|i: int, j: int|
            0 <= i < keys.len() && 0 <= j < keys.len() && i != j implies keys[i] != keys[j] by {
            if i < j {
                assert(entries[i].0@ != entries[j].0@);
            } else {
                assert(entries[j].0@ != entries[i].0@);
            }
        }
    }
    assert(keys.to_set() =~= contents.dom()) by {
        assert forall|k: Seq<char>| contents.dom().contains(k) implies keys.to_set().contains(k) by {
            assert(contents.contains_key(k));
            let i = choose|i: int| 0 <= i < entries.len() && entries[i].0@ == k;
            assert(keys[i] == k);
        }
        assert forall|k: Seq<char>| keys.to_set().contains(k) implies contents.dom().contains(k) by {
            let i = choose|i: int| 0 <= i < keys.len() && keys[i] == k;
            assert(contents.contains_key(entries[i].0@));
        }
    }
    keys.unique_seq_to_set();
    vstd::seq_lib::seq_to_set_is_finite(keys);
    if contents.len() == 0 && entries.len() > 0 {
        assert(contents.contains_key(entries[0].0@));
    }
}

} // verus!
