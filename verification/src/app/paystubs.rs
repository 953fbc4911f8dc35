use crate::app::database::{
    bytes_of, failed_lookup, failed_listing, failed_write, location_of, value_of, Database,
    BEGIN_WRITE_FAILED, COMMIT_FAILED, CREATE_DATABASE_FAILED, CREATE_TABLE_FAILED, INSERT_FAILED,
    REMOVE_FAILED,
};
use crate::app::storage::lists_exactly;
use std::collections::HashMap;
use vstd::prelude::*;

verus! {

/// Time as the paystubs record it: milliseconds since the Unix epoch.
pub type DateTime = i64;

pub const PENDING: &'static str = "Pending";

pub const PROCESSING: &'static str = "Processing";

pub const PROCESSING_ERROR: &'static str = "ProcessingError";

pub const COMPLETED: &'static str = "Completed";

/// What can go wrong with a `Paystub` or with its store.
#[derive(Debug)]
pub enum PaystubError {
    /// The requested change of state is not allowed from the current state.
    Transition { from: &'static str, to: &'static str },
    /// Reading or writing the underlying `Database` failed; holds the
    /// message that the `Database` gave.
    Database(&'static str),
}

/// The state of a paystub being processed.
///
/// Each variant carries what belongs to that state. The variants change
/// only through the `to_*` methods; a new paystub starts as `Pending`.
/// `since` is when the paystub entered its state.
pub enum Paystub {
    /// The file was found and waits to be processed.
    Pending { file: String, since: DateTime },
    /// The file is being processed.
    Processing { file: String, since: DateTime },
    /// Processing failed; `retry` counts the failed attempts.
    ProcessingError { file: String, since: DateTime, error: String, retry: u8 },
    /// Processing succeeded; `datas` maps each extracted field to its value,
    /// a 32-bit float held as its IEEE 754 bit pattern.
    Completed { file: String, since: DateTime, datas: HashMap<String, u32> },
}

/// A paystub with its strings taken by their characters.
pub enum PaystubModel {
    Pending { file: Seq<char>, since: DateTime },
    Processing { file: Seq<char>, since: DateTime },
    ProcessingError { file: Seq<char>, since: DateTime, error: Seq<char>, retry: u8 },
    Completed { file: Seq<char>, since: DateTime, datas: HashMap<String, u32> },
}

impl View for Paystub {
    type V = PaystubModel;

    open spec fn view(&self) -> PaystubModel {
        match self {
            Paystub::Pending { file, since } => PaystubModel::Pending { file: file@, since: *since },
            Paystub::Processing { file, since } => PaystubModel::Processing {
                file: file@,
                since: *since,
            },
            Paystub::ProcessingError { file, since, error, retry } =>
                PaystubModel::ProcessingError {
                file: file@,
                since: *since,
                error: error@,
                retry: *retry,
            },
            Paystub::Completed { file, since, datas } => PaystubModel::Completed {
                file: file@,
                since: *since,
                datas: *datas,
            },
        }
    }
}

/// A transition's outcome, with the paystub taken by its view.
pub open spec fn outcome(r: Result<Paystub, PaystubError>) -> Result<PaystubModel, PaystubError> {
    match r {
        Ok(p) => Ok(p@),
        Err(e) => Err(e),
    }
}

impl PaystubModel {
    /// The file that the paystub was read from.
    pub open spec fn file(self) -> Seq<char> {
        match self {
            PaystubModel::Pending { file, .. } => file,
            PaystubModel::Processing { file, .. } => file,
            PaystubModel::ProcessingError { file, .. } => file,
            PaystubModel::Completed { file, .. } => file,
        }
    }

    /// When the paystub entered its current state.
    pub open spec fn since(self) -> DateTime {
        match self {
            PaystubModel::Pending { since, .. } => since,
            PaystubModel::Processing { since, .. } => since,
            PaystubModel::ProcessingError { since, .. } => since,
            PaystubModel::Completed { since, .. } => since,
        }
    }

    /// The name of the current state, as transition errors give it.
    pub open spec fn state_name(self) -> &'static str {
        match self {
            PaystubModel::Pending { .. } => PENDING,
            PaystubModel::Processing { .. } => PROCESSING,
            PaystubModel::ProcessingError { .. } => PROCESSING_ERROR,
            PaystubModel::Completed { .. } => COMPLETED,
        }
    }

    /// Start of processing: allowed from `Pending` only.
    pub open spec fn processing(self, now: DateTime) -> Result<PaystubModel, PaystubError> {
        match self {
            PaystubModel::Pending { file, .. } => Ok(PaystubModel::Processing { file, since: now }),
            _ => Err(PaystubError::Transition { from: self.state_name(), to: PROCESSING }),
        }
    }

    /// A failed attempt: from `Processing` it is the first (`retry` 1), from
    /// `ProcessingError` one more (`retry` + 1).
    pub open spec fn processing_error(self, error: Seq<char>, now: DateTime) -> Result<
        PaystubModel,
        PaystubError,
    > {
        match self {
            PaystubModel::Processing { file, .. } => Ok(
                PaystubModel::ProcessingError { file, since: now, error, retry: 1 },
            ),
            PaystubModel::ProcessingError { file, retry, .. } => Ok(
                PaystubModel::ProcessingError { file, since: now, error, retry: (retry + 1) as u8 },
            ),
            _ => Err(PaystubError::Transition { from: self.state_name(), to: PROCESSING_ERROR }),
        }
    }

    /// Success: allowed from `Processing` and from `ProcessingError` (a retry
    /// that succeeds).
    pub open spec fn completed(self, datas: HashMap<String, u32>, now: DateTime) -> Result<
        PaystubModel,
        PaystubError,
    > {
        match self {
            PaystubModel::Processing { file, .. } => Ok(
                PaystubModel::Completed { file, since: now, datas },
            ),
            PaystubModel::ProcessingError { file, .. } => Ok(
                PaystubModel::Completed { file, since: now, datas },
            ),
            _ => Err(PaystubError::Transition { from: self.state_name(), to: COMPLETED }),
        }
    }

    /// Whether one more failed attempt can be counted without overflowing
    /// `retry`.
    pub open spec fn can_count_failure(self) -> bool {
        match self {
            PaystubModel::ProcessingError { retry, .. } => retry < u8::MAX,
            _ => true,
        }
    }
}

/// The present time. Calls `time::Timestamp::now` and reads the result with
/// `Timestamp::as_milliseconds`: milliseconds since the Unix epoch. Nothing
/// is claimed of the value, which depends on the clock.
#[verifier::external_body]
fn current_millis() -> DateTime {
    time::Timestamp::now().as_milliseconds()
}

impl Paystub {
    /// A new paystub for `file`, `Pending` since `since`.
    pub fn pending_at(file: String, since: DateTime) -> (r: Paystub)
        ensures
            r@ == (PaystubModel::Pending { file: file@, since }),
    {
        Paystub::Pending { file, since }
    }

    /// A new paystub for `file`, `Pending` since now.
    pub fn pending(file: String) -> (r: Paystub)
        ensures
            r@ matches PaystubModel::Pending { file: f, .. } && f == file@,
    {
        Paystub::pending_at(file, current_millis())
    }

    fn state_name(&self) -> (r: &'static str)
        ensures
            r == self@.state_name(),
    {
        match self {
            Paystub::Pending { .. } => PENDING,
            Paystub::Processing { .. } => PROCESSING,
            Paystub::ProcessingError { .. } => PROCESSING_ERROR,
            Paystub::Completed { .. } => COMPLETED,
        }
    }

    /// Moves the paystub to `Processing` at time `now`; only a `Pending`
    /// paystub may.
    pub fn to_processing_at(&self, now: DateTime) -> (r: Result<Paystub, PaystubError>)
        ensures
            outcome(r) == self@.processing(now),
    {
        match self {
            Paystub::Pending { file, .. } => Ok(Paystub::Processing { file: file.clone(), since: now }),
            _ => Err(PaystubError::Transition { from: self.state_name(), to: PROCESSING }),
        }
    }

    /// Moves the paystub to `Processing` now; only a `Pending` paystub may.
    pub fn to_processing(&self) -> (r: Result<Paystub, PaystubError>)
        ensures
            exists|now: DateTime| outcome(r) == self@.processing(now),
    {
        self.to_processing_at(current_millis())
    }

    /// Records a failed attempt with message `error` at time `now`: allowed
    /// from `Processing` (first failure, `retry` 1) and from
    /// `ProcessingError` (`retry` one more).
    pub fn to_processing_error_at(&self, error: &str, now: DateTime) -> (r: Result<
        Paystub,
        PaystubError,
    >)
        requires
            self@.can_count_failure(),
        ensures
            outcome(r) == self@.processing_error(error@, now),
    {
        match self {
            Paystub::Processing { file, .. } => Ok(
                Paystub::ProcessingError {
                    file: file.clone(),
                    since: now,
                    error: String::from_str(error),
                    retry: 1,
                },
            ),
            Paystub::ProcessingError { file, retry, .. } => Ok(
                Paystub::ProcessingError {
                    file: file.clone(),
                    since: now,
                    error: String::from_str(error),
                    retry: *retry + 1,
                },
            ),
            _ => Err(PaystubError::Transition { from: self.state_name(), to: PROCESSING_ERROR }),
        }
    }

    /// Records a failed attempt with message `error`, now.
    pub fn to_processing_error(&self, error: &str) -> (r: Result<Paystub, PaystubError>)
        requires
            self@.can_count_failure(),
        ensures
            exists|now: DateTime| outcome(r) == self@.processing_error(error@, now),
    {
        self.to_processing_error_at(error, current_millis())
    }

    /// Moves the paystub to `Completed` with the extracted `datas` at time
    /// `now`: allowed from `Processing` and from `ProcessingError`.
    pub fn to_completed_at(&self, datas: HashMap<String, u32>, now: DateTime) -> (r: Result<
        Paystub,
        PaystubError,
    >)
        ensures
            outcome(r) == self@.completed(datas, now),
    {
        match self {
            Paystub::Processing { file, .. } => Ok(
                Paystub::Completed { file: file.clone(), since: now, datas },
            ),
            Paystub::ProcessingError { file, .. } => Ok(
                Paystub::Completed { file: file.clone(), since: now, datas },
            ),
            _ => Err(PaystubError::Transition { from: self.state_name(), to: COMPLETED }),
        }
    }

    /// Moves the paystub to `Completed` with the extracted `datas`, now.
    pub fn to_completed(&self, datas: HashMap<String, u32>) -> (r: Result<Paystub, PaystubError>)
        ensures
            exists|now: DateTime| outcome(r) == self@.completed(datas, now),
    {
        self.to_completed_at(datas, current_millis())
    }
}

/// The name of the database that holds the paystubs.
pub const PAYSTUBS: &'static str = "paystubs";

/// `c` is a lowercase hexadecimal digit.
pub open spec fn is_lower_hex(c: char) -> bool {
    ('0' <= c && c <= '9') || ('a' <= c && c <= 'f')
}

/// `s` is a version 4 (random) UUID in hyphenated lowercase form: 32
/// hexadecimal digits in groups of 8, 4, 4, 4 and 12, the version digit `4`,
/// and the variant digit one of `8`, `9`, `a`, `b`.
pub open spec fn is_uuid_v4_text(s: Seq<char>) -> bool {
    &&& s.len() == 36
    &&& forall|i: int|
        0 <= i < 36 ==> if i == 8 || i == 13 || i == 18 || i == 23 {
            s[i] == '-'
        } else {
            is_lower_hex(#[trigger] s[i])
        }
    &&& s[14] == '4'
    &&& (s[19] == '8' || s[19] == '9' || s[19] == 'a' || s[19] == 'b')
}

/// A new identifier. Calls `uuid::Uuid::new_v4`, which takes random bits and
/// sets the version (4) and variant (RFC 4122) bits, and formats it with
/// `to_string`, which writes the hyphenated lowercase form. The random part
/// is not claimed.
#[verifier::external_body]
fn new_id() -> (r: String)
    ensures
        is_uuid_v4_text(r@),
{
    uuid::Uuid::new_v4().to_string()
}

/// The persistent store of paystubs, each under an identifier made when it
/// is added. Paystubs are kept encoded: the repository stores and returns
/// their bytes.
pub struct PaystubRepository {
    database: Database,
}

impl View for PaystubRepository {
    type V = Map<Seq<char>, Seq<u8>>;

    /// The encoded paystubs, by identifier.
    closed spec fn view(&self) -> Map<Seq<char>, Seq<u8>> {
        self.database@
    }
}

impl PaystubRepository {
    pub closed spec fn spec_location(&self) -> Seq<char> {
        self.database.spec_location()
    }

    /// The path of the file that holds the paystubs; empty when they are
    /// kept in memory.
    pub closed spec fn spec_file(&self) -> Seq<char> {
        self.database.spec_file()
    }

    /// What the repository's file held when it was opened.
    pub closed spec fn contents_when_opened(&self) -> Map<Seq<char>, Seq<u8>> {
        self.database.contents_when_opened()
    }

    /// The repository is at rest: no write on its database is under way.
    pub closed spec fn wf(&self) -> bool {
        self.database.wf()
    }

    /// The path of the file that holds the paystubs.
    pub fn location(&self) -> (r: &str)
        ensures
            r@ == self.spec_location(),
    {
        self.database.location()
    }

    /// Opens (or creates) the database `paystubs`.
    pub fn load() -> (r: Result<PaystubRepository, PaystubError>)
        ensures
            match r {
                Ok(repository) => repository.spec_location() == location_of(PAYSTUBS@)
                    && repository.spec_file() == location_of(PAYSTUBS@) && repository@
                    == repository.contents_when_opened() && repository.wf(),
                Err(PaystubError::Database(message)) => message == CREATE_DATABASE_FAILED
                    || message == BEGIN_WRITE_FAILED || message == CREATE_TABLE_FAILED || message
                    == COMMIT_FAILED,
                Err(PaystubError::Transition { .. }) => false,
            },
    {
        match Database::load(PAYSTUBS) {
            Ok(database) => Ok(PaystubRepository { database }),
            Err(error) => Err(PaystubError::Database(error)),
        }
    }

    /// A new, empty repository kept in memory rather than in a file.
    pub fn in_memory() -> (r: Result<PaystubRepository, PaystubError>)
        ensures
            match r {
                Ok(repository) => repository.spec_location() == Seq::<char>::empty()
                    && repository.spec_file() == Seq::<char>::empty() && repository@ == Map::<
                    Seq<char>,
                    Seq<u8>,
                >::empty() && repository.wf(),
                Err(PaystubError::Database(message)) => message == CREATE_DATABASE_FAILED
                    || message == BEGIN_WRITE_FAILED || message == CREATE_TABLE_FAILED || message
                    == COMMIT_FAILED,
                Err(PaystubError::Transition { .. }) => false,
            },
    {
        match Database::in_memory(PAYSTUBS) {
            Ok(database) => Ok(PaystubRepository { database }),
            Err(error) => Err(PaystubError::Database(error)),
        }
    }

    /// Stores the encoded `paystub` under a new identifier and returns it.
    pub fn add(&mut self, paystub: &[u8]) -> (r: Result<String, PaystubError>)
        requires
            old(self).wf(),
        ensures
            final(self).wf(),
            final(self).spec_file() == old(self).spec_file(),
            final(self).spec_location() == old(self).spec_location(),
            match r {
                Ok(id) => is_uuid_v4_text(id@) && final(self)@ == old(self)@.insert(id@, paystub@),
                Err(PaystubError::Database(message)) => failed_write(
                    message,
                    INSERT_FAILED,
                    old(self)@,
                    final(self)@,
                ),
                Err(PaystubError::Transition { .. }) => false,
            },
    {
        let id = new_id();
        match self.database.upsert(id.as_str(), paystub) {
            Ok(key) => Ok(key),
            Err(error) => Err(PaystubError::Database(error)),
        }
    }

    /// The encoded paystub stored under `id`, or `None` if `id` is unknown.
    pub fn get(&mut self, id: &str) -> (r: Result<Option<Vec<u8>>, PaystubError>)
        ensures
            *final(self) == *old(self),
            match r {
                Ok(found) => bytes_of(found) == value_of(old(self)@, id@),
                Err(PaystubError::Database(message)) => failed_lookup(message),
                Err(PaystubError::Transition { .. }) => false,
            },
    {
        match self.database.get(id) {
            Ok(found) => Ok(found),
            Err(error) => Err(PaystubError::Database(error)),
        }
    }

    /// Every stored paystub with its identifier, each once.
    pub fn get_all(&mut self) -> (r: Result<Vec<(String, Vec<u8>)>, PaystubError>)
        ensures
            *final(self) == *old(self),
            match r {
                Ok(all) => lists_exactly(all@, old(self)@),
                Err(PaystubError::Database(message)) => failed_listing(message),
                Err(PaystubError::Transition { .. }) => false,
            },
    {
        match self.database.get_all() {
            Ok(all) => Ok(all),
            Err(error) => Err(PaystubError::Database(error)),
        }
    }

    /// Removes the paystub stored under `id` and returns it, or `None` if
    /// `id` is unknown.
    pub fn delete(&mut self, id: &str) -> (r: Result<Option<Vec<u8>>, PaystubError>)
        requires
            old(self).wf(),
        ensures
            final(self).wf(),
            final(self).spec_file() == old(self).spec_file(),
            final(self).spec_location() == old(self).spec_location(),
            match r {
                Ok(found) => bytes_of(found) == value_of(old(self)@, id@) && final(self)@
                    == old(self)@.remove(id@),
                Err(PaystubError::Database(message)) => (failed_lookup(message) && final(self)@
                    == old(self)@) || failed_write(message, REMOVE_FAILED, old(self)@, final(self)@),
                Err(PaystubError::Transition { .. }) => false,
            },
    {
        let found = match self.get(id) {
            Ok(found) => found,
            Err(error) => return Err(error),
        };
        match self.database.remove(id) {
            Ok(()) => Ok(found),
            Err(error) => Err(PaystubError::Database(error)),
        }
    }

    /// Replaces the paystub stored under `id` and returns `id`; if `id` is
    /// unknown, returns `None` and changes nothing.
    pub fn update(&mut self, id: &str, paystub: &[u8]) -> (r: Result<Option<String>, PaystubError>)
        requires
            old(self).wf(),
        ensures
            final(self).wf(),
            final(self).spec_file() == old(self).spec_file(),
            final(self).spec_location() == old(self).spec_location(),
            match r {
                Ok(None) => !old(self)@.contains_key(id@) && final(self)@ == old(self)@,
                Ok(Some(key)) => old(self)@.contains_key(id@) && key@ == id@ && final(self)@
                    == old(self)@.insert(id@, paystub@),
                Err(PaystubError::Database(message)) => (failed_lookup(message) && final(self)@
                    == old(self)@) || failed_write(message, INSERT_FAILED, old(self)@, final(self)@),
                Err(PaystubError::Transition { .. }) => false,
            },
    {
        match self.database.contains(id) {
            Ok(true) => {},
            Ok(false) => return Ok(None),
            Err(error) => return Err(PaystubError::Database(error)),
        }
        match self.database.upsert(id, paystub) {
            Ok(key) => Ok(Some(key)),
            Err(error) => Err(PaystubError::Database(error)),
        }
    }
}

/// The paystub after the failed attempts `attempts` (each a message and a
/// time), one after the other; the first refused attempt stops the sequence.
pub open spec fn after_failures(m: PaystubModel, attempts: Seq<(Seq<char>, DateTime)>) -> Result<
    PaystubModel,
    PaystubError,
>
    decreases attempts.len(),
{
    if attempts.len() == 0 {
        Ok(m)
    } else {
        match after_failures(m, attempts.drop_last()) {
            Ok(p) => p.processing_error(attempts.last().0, attempts.last().1),
            Err(e) => Err(e),
        }
    }
}

/// Every allowed transition keeps the file and stamps the new state with the
/// time of the transition.
pub proof fn lemma_transitions_keep_file(
    m: PaystubModel,
    error: Seq<char>,
    datas: HashMap<String, u32>,
    now: DateTime,
)
    ensures
        m.processing(now) matches Ok(p) ==> p.file() == m.file() && p.since() == now,
        m.processing_error(error, now) matches Ok(p) ==> p.file() == m.file() && p.since() == now,
        m.completed(datas, now) matches Ok(p) ==> p.file() == m.file() && p.since() == now,
{
}

/// Whether a transition is allowed depends on the current state alone, not
/// on the message, the extracted data or the time; and an allowed one from
/// `Processing` or `ProcessingError` carries exactly what it was given.
pub proof fn lemma_transitions_depend_on_state_only(
    m: PaystubModel,
    error: Seq<char>,
    other_error: Seq<char>,
    datas: HashMap<String, u32>,
    other_datas: HashMap<String, u32>,
    now: DateTime,
    later: DateTime,
)
    ensures
        (m.processing(now) is Ok) == (m.processing(later) is Ok),
        (m.processing(now) is Ok) == (m is Pending),
        (m.processing_error(error, now) is Ok) == (m.processing_error(other_error, later) is Ok),
        (m.processing_error(error, now) is Ok) == (m is Processing || m is ProcessingError),
        (m.completed(datas, now) is Ok) == (m.completed(other_datas, later) is Ok),
        (m.completed(datas, now) is Ok) == (m is Processing || m is ProcessingError),
        (m is Processing || m is ProcessingError) ==> m.completed(datas, now) == Ok::<
            PaystubModel,
            PaystubError,
        >(PaystubModel::Completed { file: m.file(), since: now, datas }),
        m is Pending ==> m.processing(now) == Ok::<PaystubModel, PaystubError>(
            PaystubModel::Processing { file: m.file(), since: now },
        ),
        m is Processing ==> m.processing_error(error, now) == Ok::<PaystubModel, PaystubError>(
            PaystubModel::ProcessingError { file: m.file(), since: now, error, retry: 1 },
        ),
{
}

/// No transition leads back to `Pending`: a paystub is `Pending` only when
/// it is created.
pub proof fn lemma_no_transition_to_pending(
    m: PaystubModel,
    error: Seq<char>,
    datas: HashMap<String, u32>,
    now: DateTime,
)
    ensures
        m.processing(now) matches Ok(p) ==> !(p is Pending),
        m.processing_error(error, now) matches Ok(p) ==> !(p is Pending),
        m.completed(datas, now) matches Ok(p) ==> !(p is Pending),
{
}

/// `Completed` is final: every transition out of it is refused, and the
/// error names the two states.
pub proof fn lemma_completed_is_final(
    m: PaystubModel,
    error: Seq<char>,
    datas: HashMap<String, u32>,
    now: DateTime,
)
    requires
        m is Completed,
    ensures
        m.processing(now) == Err::<PaystubModel, PaystubError>(
            PaystubError::Transition { from: COMPLETED, to: PROCESSING },
        ),
        m.processing_error(error, now) == Err::<PaystubModel, PaystubError>(
            PaystubError::Transition { from: COMPLETED, to: PROCESSING_ERROR },
        ),
        m.completed(datas, now) == Err::<PaystubModel, PaystubError>(
            PaystubError::Transition { from: COMPLETED, to: COMPLETED },
        ),
{
}

/// `retry` counts the failed attempts: after `n` failures in a row from
/// `Processing` (at most 255), the paystub is in `ProcessingError` with
/// `retry == n`, the last message and the last time.
pub proof fn lemma_retry_counts_failures(m: PaystubModel, attempts: Seq<(Seq<char>, DateTime)>)
    requires
        m is Processing,
        1 <= attempts.len() <= u8::MAX,
    ensures
        after_failures(m, attempts) matches Ok(p) && p matches PaystubModel::ProcessingError {
            file,
            since,
            error,
            retry,
        } && retry == attempts.len() && file == m.file() && error == attempts.last().0 && since
            == attempts.last().1,
    decreases attempts.len(),
{
    let prev = attempts.drop_last();
    if attempts.len() > 1 {
        lemma_retry_counts_failures(m, prev);
    } else {
        assert(after_failures(m, prev) == Ok::<PaystubModel, PaystubError>(m));
    }
}

} // verus!
