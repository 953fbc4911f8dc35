//! The calls into `redb` that the database makes, with what the library
//! relies on of each.
//!
//! The store is one `redb` table of string keys and byte values. Its
//! contents are named as maps from a key (its characters) to a value (its
//! bytes): `stored` for what a database has committed, `pending` for what a
//! write transaction would commit, `snapshot` for what a read transaction
//! sees. A table that does not exist yet holds nothing.
use redb::{ReadableDatabase, TableDefinition};
use vstd::prelude::*;

verus! {

/// The name of the one table of a database.
pub const TABLE_NAME: &'static str = "default";

/// An open `redb::Database`. Verus does not see inside it; what it holds is
/// named by `stored`.
#[verifier::external_body]
pub struct Store {
    db: redb::Database,
}

#[verifier::external_type_specification]
#[verifier::external_body]
pub struct ExWriteTransaction(redb::WriteTransaction);

#[verifier::external_type_specification]
#[verifier::external_body]
pub struct ExReadTransaction(redb::ReadTransaction);

#[verifier::external_type_specification]
#[verifier::external_body]
pub struct ExDatabaseError(redb::DatabaseError);

#[verifier::external_type_specification]
#[verifier::external_body]
pub struct ExTransactionError(redb::TransactionError);

#[verifier::external_type_specification]
#[verifier::external_body]
pub struct ExTableError(redb::TableError);

#[verifier::external_type_specification]
#[verifier::external_body]
pub struct ExStorageError(redb::StorageError);

#[verifier::external_type_specification]
#[verifier::external_body]
pub struct ExCommitError(redb::CommitError);

/// What the table of `store` holds, as last committed.
pub uninterp spec fn stored(store: Store) -> Map<Seq<char>, Seq<u8>>;

/// What the table of `txn` holds with the transaction's own writes: what a
/// commit of `txn` makes the database hold.
pub uninterp spec fn pending(txn: redb::WriteTransaction) -> Map<Seq<char>, Seq<u8>>;

/// What the table of `txn` holds as the read transaction sees it.
pub uninterp spec fn snapshot(txn: redb::ReadTransaction) -> Map<Seq<char>, Seq<u8>>;

/// The database that `txn` writes to.
pub uninterp spec fn write_target(txn: redb::WriteTransaction) -> Store;

/// The path of the file that `store` was opened from; empty for a store kept
/// in memory.
pub uninterp spec fn store_path(store: Store) -> Seq<char>;

/// Whether a write transaction on `store` is live. redb runs one write
/// transaction at a time: beginning another one waits for it to end.
pub uninterp spec fn writing(store: Store) -> bool;

/// Whether the table exists in what `store` has committed.
pub uninterp spec fn table_exists(store: Store) -> bool;

/// Whether the table exists within `txn`, its own changes included.
pub uninterp spec fn pending_table_exists(txn: redb::WriteTransaction) -> bool;

/// A table with no entries.
pub open spec fn no_entries() -> Map<Seq<char>, Seq<u8>> {
    Map::empty()
}

/// `entries` lists each key of `m` exactly once, with its value.
pub open spec fn lists_exactly(entries: Seq<(String, Vec<u8>)>, m: Map<Seq<char>, Seq<u8>>) -> bool {
    &&& forall|i: int, j: int|
        0 <= i < j < entries.len() ==> #[trigger] entries[i].0@ != #[trigger] entries[j].0@
    &&& forall|i: int|
        0 <= i < entries.len() ==> m.contains_key(#[trigger] entries[i].0@) && m[entries[i].0@]
            == entries[i].1@
    &&& forall|k: Seq<char>|
        #[trigger] m.contains_key(k) ==> exists|i: int| 0 <= i < entries.len() && entries[i].0@ == k
}

/// A failure of an operation on the table within a write transaction.
pub enum TableWriteError {
    /// `WriteTransaction::open_table` failed.
    OpenTable(redb::TableError),
    /// The write itself (`Table::insert` or `Table::remove`) failed.
    Write(redb::StorageError),
}

/// A failure of a lookup within a read transaction.
pub enum TableReadError {
    /// `ReadTransaction::open_table` failed.
    OpenTable(redb::TableError),
    /// `ReadOnlyTable::get` failed.
    Read(redb::StorageError),
}

/// A failure of listing the table within a read transaction.
pub enum EntriesError {
    /// `ReadTransaction::open_table` failed.
    OpenTable(redb::TableError),
    /// `ReadableTable::iter` failed.
    Range(redb::StorageError),
    /// Reading one entry of the listing failed.
    Entry(redb::StorageError),
}

/// `redb::Database::create`: opens the database file at `path`, creating it
/// if it is missing. Nothing is claimed of what an existing file holds, nor
/// of whether it holds the table.
#[verifier::external_body]
pub(crate) fn create_database(path: &str) -> (r: Result<Store, redb::DatabaseError>)
    ensures
        r matches Ok(store) ==> store_path(store) == path@ && !writing(store),
{
    redb::Database::create(path).map(|db| Store { db })
}

/// `redb::Builder::create_with_backend` with a new
/// `redb::backends::InMemoryBackend` (on `redb::Builder::new()`): a database
/// kept in memory, which starts empty and without the table.
#[verifier::external_body]
pub(crate) fn create_in_memory() -> (r: Result<Store, redb::DatabaseError>)
    ensures
        r matches Ok(store) ==> stored(store) == no_entries() && store_path(store)
            == Seq::<char>::empty() && !writing(store) && !table_exists(store),
{
    let backend = redb::backends::InMemoryBackend::new();
    redb::Builder::new().create_with_backend(backend).map(|db| Store { db })
}

/// `redb::Database::begin_write`: a write transaction on `store`, which
/// starts from what `store` has committed. redb lets one write transaction
/// run at a time and `begin_write` waits for a live one to end, so no write
/// transaction may be live on `store`; the store is taken mutably to record
/// that one now is, until `commit` or `abort` ends it.
#[verifier::external_body]
pub(crate) fn begin_write(store: &mut Store) -> (r: Result<
    redb::WriteTransaction,
    redb::TransactionError,
>)
    requires
        !writing(*old(store)),
    ensures
        stored(*final(store)) == stored(*old(store)),
        store_path(*final(store)) == store_path(*old(store)),
        table_exists(*final(store)) == table_exists(*old(store)),
        match r {
            Ok(txn) => {
                &&& writing(*final(store))
                &&& write_target(txn) == *final(store)
                &&& pending(txn) == stored(*old(store))
                &&& pending_table_exists(txn) == table_exists(*old(store))
            },
            Err(_) => *final(store) == *old(store),
        },
{
    store.db.begin_write()
}

/// `redb::WriteTransaction::open_table`, with the handle dropped at once:
/// creates the table within `txn` if it does not exist. The entries do not
/// change. (The table handle borrows the transaction through a shared
/// reference; this item takes the transaction mutably so that its contract
/// can speak of it.)
#[verifier::external_body]
pub(crate) fn create_table(txn: &mut redb::WriteTransaction) -> (r: Result<(), redb::TableError>)
    ensures
        pending(*final(txn)) == pending(*old(txn)),
        write_target(*final(txn)) == write_target(*old(txn)),
        pending_table_exists(*old(txn)) ==> pending_table_exists(*final(txn)),
        r is Ok ==> pending_table_exists(*final(txn)),
{
    let opened = txn.open_table(TableDefinition::<&str, &[u8]>::new(TABLE_NAME));
    opened.map(|_table| ())
}

/// `redb::WriteTransaction::open_table` then `redb::Table::insert`: maps
/// `key` to `value` within `txn`, replacing any earlier value. The table
/// handle borrows the transaction and redb updates the transaction through
/// it, which Verus cannot follow; so the table is opened and used here, and
/// the transaction is taken mutably. After a failure nothing is claimed of
/// the transaction's entries.
#[verifier::external_body]
pub(crate) fn insert_entry(txn: &mut redb::WriteTransaction, key: &str, value: &[u8]) -> (r: Result<
    (),
    TableWriteError,
>)
    ensures
        write_target(*final(txn)) == write_target(*old(txn)),
        pending_table_exists(*old(txn)) ==> pending_table_exists(*final(txn)),
        r is Ok ==> pending(*final(txn)) == pending(*old(txn)).insert(key@, value@) && pending_table_exists(
            *final(txn),
        ),
{
    let mut table = txn.open_table(TableDefinition::<&str, &[u8]>::new(TABLE_NAME)).map_err(
        TableWriteError::OpenTable,
    )?;
    let inserted = table.insert(key, value).map(|_previous| ()).map_err(TableWriteError::Write);
    inserted
}

/// `redb::WriteTransaction::open_table` then `redb::Table::remove`: removes
/// `key` within `txn`; a missing key is no error. As for `insert_entry`, the
/// table is opened here, and nothing is claimed of the entries after a
/// failure.
#[verifier::external_body]
pub(crate) fn remove_entry(txn: &mut redb::WriteTransaction, key: &str) -> (r: Result<
    (),
    TableWriteError,
>)
    ensures
        write_target(*final(txn)) == write_target(*old(txn)),
        pending_table_exists(*old(txn)) ==> pending_table_exists(*final(txn)),
        r is Ok ==> pending(*final(txn)) == pending(*old(txn)).remove(key@) && pending_table_exists(
            *final(txn),
        ),
{
    let mut table = txn.open_table(TableDefinition::<&str, &[u8]>::new(TABLE_NAME)).map_err(
        TableWriteError::OpenTable,
    )?;
    let removed = table.remove(key).map(|_previous| ()).map_err(TableWriteError::Write);
    removed
}

/// `redb::WriteTransaction::commit`: on success the database holds what the
/// transaction held. `store` is the database that `txn` writes to; it is
/// taken mutably (redb changes it through the transaction) so that the
/// contract can speak of it. Either way the transaction has ended. After a
/// failure nothing is claimed of what the database holds.
#[verifier::external_body]
pub(crate) fn commit(store: &mut Store, txn: redb::WriteTransaction) -> (r: Result<
    (),
    redb::CommitError,
>)
    requires
        write_target(txn) == *old(store),
    ensures
        !writing(*final(store)),
        store_path(*final(store)) == store_path(*old(store)),
        r is Ok ==> stored(*final(store)) == pending(txn) && table_exists(*final(store))
            == pending_table_exists(txn),
{
    txn.commit()
}

/// `redb::WriteTransaction::abort`: drops the transaction's changes and ends
/// it; what the database has committed stays as it was, whether or not the
/// abort reports an error.
#[verifier::external_body]
pub(crate) fn abort(store: &mut Store, txn: redb::WriteTransaction) -> (r: Result<
    (),
    redb::StorageError,
>)
    requires
        write_target(txn) == *old(store),
    ensures
        !writing(*final(store)),
        stored(*final(store)) == stored(*old(store)),
        store_path(*final(store)) == store_path(*old(store)),
        table_exists(*final(store)) == table_exists(*old(store)),
{
    txn.abort()
}

/// `redb::ReadableDatabase::begin_read`: a read transaction that sees what
/// `store` has committed.
#[verifier::external_body]
pub(crate) fn begin_read(store: &Store) -> (r: Result<redb::ReadTransaction, redb::TransactionError>)
    ensures
        r matches Ok(txn) ==> snapshot(txn) == stored(*store),
{
    store.db.begin_read()
}

/// `redb::ReadTransaction::open_table` then `redb::ReadOnlyTable::get`, with
/// the value copied out: the value of `key` as `txn` sees it, or `None` if
/// the key is missing. (The table type `redb::ReadOnlyTable` cannot be
/// declared to Verus, whose declaration does not accept the bounds of its
/// parameters; so the table is opened and read here.)
#[verifier::external_body]
pub(crate) fn lookup(txn: &redb::ReadTransaction, key: &str) -> (r: Result<
    Option<Vec<u8>>,
    TableReadError,
>)
    ensures
        r matches Ok(found) ==> match found {
            Some(value) => snapshot(*txn).contains_key(key@) && value@ == snapshot(*txn)[key@],
            None => !snapshot(*txn).contains_key(key@),
        },
{
    let table = txn.open_table(TableDefinition::<&str, &[u8]>::new(TABLE_NAME)).map_err(
        TableReadError::OpenTable,
    )?;
    let found = table.get(key).map_err(TableReadError::Read)?;
    Ok(found.map(|guard| guard.value().to_vec()))
}

/// `redb::ReadTransaction::open_table`, `redb::ReadableTable::iter`, then
/// the iterator's `next` up to its end, each entry copied out: every entry
/// as `txn` sees it, each key once. (The table is opened here for the
/// reason given at `lookup`.)
#[verifier::external_body]
pub(crate) fn entries(txn: &redb::ReadTransaction) -> (r: Result<Vec<(String, Vec<u8>)>, EntriesError>)
    ensures
        r matches Ok(all) ==> lists_exactly(all@, snapshot(*txn)),
{
    let table = txn.open_table(TableDefinition::<&str, &[u8]>::new(TABLE_NAME)).map_err(
        EntriesError::OpenTable,
    )?;
    let range = redb::ReadableTable::iter(&table).map_err(EntriesError::Range)?;
    let mut all = Vec::new();
    for entry in range {
        let (key, value) = entry.map_err(EntriesError::Entry)?;
        all.push((key.value().to_string(), value.value().to_vec()));
    }
    Ok(all)
}

} // verus!
