//! The check orchestrator: one session lifecycle and the fetch loop.
//!
//! A check run drives one authenticated session through its one-directional
//! lifecycle — credential, connect, authenticate, select folder, search,
//! fetch each unseen message, logout — and accounts for what happened. The
//! caller performs the network work and reports each outcome; this module
//! decides what follows and keeps the run's invariants: every listed
//! identifier is attempted exactly once, a per-message failure never stops
//! the batch, and the reported count is the number of unseen identifiers
//! listed, independent of per-message failures.

use vstd::prelude::*;
use crate::storage::{MessageStore, rel_path_chars, store_map, store_message};

verus! {

/// A failure that ends the whole run. Deliberately fieldless: no error
/// carries the credential or any other session data.
#[derive(Debug, PartialEq, Eq, Structural, Clone, Copy)]
pub enum CheckError {
    /// The credential could not be retrieved.
    Credential,
    /// The connection to the mail server could not be opened.
    Connection,
    /// The server rejected the login.
    Auth,
    /// The server reports no such mailbox.
    FolderNotFound,
}

/// The phase a check run is in. The session lifecycle is one-directional:
/// the phases before `Fetching` correspond to the session states
/// disconnected (`NeedCredential`, `NeedConnect`), connected (`NeedAuth`),
/// authenticated (`NeedSelect`) and folder-selected (`NeedSearch` onward);
/// `Done` is a closed session, and `Failed` an abandoned one.
#[derive(Debug, PartialEq, Eq, Structural, Clone, Copy)]
pub enum Phase {
    /// The credential has not been retrieved yet.
    NeedCredential,
    /// The connection has not been opened yet.
    NeedConnect,
    /// The session has not authenticated yet.
    NeedAuth,
    /// The mailbox has not been selected yet.
    NeedSelect,
    /// The unseen messages have not been listed yet.
    NeedSearch,
    /// Listed identifiers are being fetched one by one.
    Fetching,
    /// Every identifier was attempted; the session awaits logout.
    NeedLogout,
    /// The run is over and the session closed.
    Done,
    /// The run ended early with an unrecoverable error.
    Failed,
}

/// The diagnostic for an unrecoverable failure: a fixed text per error, a
/// function of nothing else.
pub open spec fn check_error_text(e: CheckError) -> Seq<char> {
    match e {
        CheckError::Credential => "could not retrieve the account credential"@,
        CheckError::Connection => "could not connect to the mail server"@,
        CheckError::Auth => "the server rejected the login"@,
        CheckError::FolderNotFound => "the server reports no such mailbox"@,
    }
}

impl CheckError {
    /// The one-line diagnostic for this failure.
    pub fn describe(&self) -> (r: String)
        ensures
            r@ == check_error_text(*self),
    {
        match self {
            CheckError::Credential => "could not retrieve the account credential".to_owned(),
            CheckError::Connection => "could not connect to the mail server".to_owned(),
            CheckError::Auth => "the server rejected the login".to_owned(),
            CheckError::FolderNotFound => "the server reports no such mailbox".to_owned(),
        }
    }
}

/// Whether `needle` occurs contiguously inside `hay`.
pub open spec fn seq_contains_sub(hay: Seq<char>, needle: Seq<char>) -> bool {
    exists|k: int|
        0 <= k && k + needle.len() <= hay.len() && #[trigger] hay.subrange(k, k + needle.len())
            == needle
}

/// Law (credential isolation): the diagnostic for a rejected login is a
/// fixed text that takes no part of the session's data, so a credential
/// longer than that text cannot occur in it. (A short credential that
/// happens to spell a piece of the fixed text is the one exception; the
/// text still carries no information about it, since it is the same for
/// every credential.)
pub proof fn lemma_credential_isolation(credential: Seq<char>)
    requires
        credential.len() > check_error_text(CheckError::Auth).len(),
    ensures
        !seq_contains_sub(check_error_text(CheckError::Auth), credential),
{
    let hay = check_error_text(CheckError::Auth);
    if seq_contains_sub(hay, credential) {
        let k = choose|k: int|
            0 <= k && k + credential.len() <= hay.len() && #[trigger] hay.subrange(
                k,
                k + credential.len(),
            ) == credential;
        assert(false);
    }
}

/// The folder a check effectively works on: the override if one was given,
/// else the account's default folder, else `inbox`.
pub open spec fn effective_folder_chars(
    folder_override: Option<String>,
    default_folder: Option<String>,
) -> Seq<char> {
    match folder_override {
        Some(f) => f@,
        None => match default_folder {
            Some(d) => d@,
            None => "inbox"@,
        },
    }
}

/// One check run: the state the orchestrator carries between the caller's
/// session operations.
pub struct CheckRun {
    /// Where the run stands in the session lifecycle.
    pub phase: Phase,
    /// The folder being checked.
    pub folder: String,
    /// The unseen identifiers the server listed.
    pub uids: Vec<u32>,
    /// How many listed identifiers were attempted so far.
    pub idx: usize,
    /// The identifiers whose fetch failed; recorded, never fatal.
    pub fetch_failures: Vec<u32>,
    /// The unrecoverable failure, if the run ended early.
    pub failure: Option<CheckError>,
}

/// The ghost abstraction of a run's fetch loop together with its store.
#[verifier::ext_equal]
pub struct BatchModel {
    /// The listed identifiers.
    pub uids: Seq<u32>,
    /// How many were attempted so far.
    pub idx: int,
    /// The identifiers whose fetch failed.
    pub fetch_failures: Seq<u32>,
    /// The stored files, by path.
    pub files: Map<Seq<char>, Seq<u8>>,
}

/// The abstraction of a concrete run and store.
pub open spec fn check_abs(run: CheckRun, store: MessageStore) -> BatchModel {
    BatchModel {
        uids: run.uids@,
        idx: run.idx as int,
        fetch_failures: run.fetch_failures@,
        files: store.as_map(),
    }
}

/// One successfully fetched message: its bytes are stored under the
/// content-addressed path, deduplicated, and the loop advances.
pub open spec fn store_step(
    m: BatchModel,
    email: Seq<char>,
    folder: Seq<char>,
    body: Seq<u8>,
) -> BatchModel {
    BatchModel {
        idx: m.idx + 1,
        files: store_map(m.files, rel_path_chars(email, folder, m.uids[m.idx]), body),
        ..m
    }
}

/// One failed fetch: the identifier is recorded and the loop advances;
/// nothing is stored.
pub open spec fn skip_step(m: BatchModel) -> BatchModel {
    BatchModel { idx: m.idx + 1, fetch_failures: m.fetch_failures.push(m.uids[m.idx]), ..m }
}

/// One attempted identifier, by its fetch outcome.
pub open spec fn batch_step(
    m: BatchModel,
    email: Seq<char>,
    folder: Seq<char>,
    outcome: Option<Seq<u8>>,
) -> BatchModel {
    match outcome {
        Some(body) => store_step(m, email, folder, body),
        None => skip_step(m),
    }
}

/// The fetch loop over a sequence of per-identifier outcomes.
pub open spec fn batch_run(
    m: BatchModel,
    email: Seq<char>,
    folder: Seq<char>,
    outcomes: Seq<Option<Seq<u8>>>,
) -> BatchModel
    decreases outcomes.len(),
{
    if outcomes.len() == 0 {
        m
    } else {
        batch_run(batch_step(m, email, folder, outcomes.first()), email, folder, outcomes.drop_first())
    }
}

/// Law (batch resilience): however the per-identifier fetches turn out, the
/// loop attempts every outcome handed to it, never changes the list of
/// identifiers — so the reported count, the list's length, is independent of
/// per-item failures — never loses a stored file, and stores a file for
/// every identifier whose fetch succeeded.
pub proof fn lemma_batch_resilience(
    m: BatchModel,
    email: Seq<char>,
    folder: Seq<char>,
    outcomes: Seq<Option<Seq<u8>>>,
)
    ensures
        batch_run(m, email, folder, outcomes).uids == m.uids,
        batch_run(m, email, folder, outcomes).idx == m.idx + outcomes.len(),
        forall|p: Seq<char>|
            m.files.contains_key(p) ==> batch_run(m, email, folder, outcomes).files.contains_key(p),
        forall|i: int|
            0 <= i < outcomes.len() && outcomes[i] is Some ==> batch_run(
                m,
                email,
                folder,
                outcomes,
            ).files.contains_key(rel_path_chars(email, folder, m.uids[m.idx + i])),
    decreases outcomes.len(),
{
    if outcomes.len() > 0 {
        let m1 = batch_step(m, email, folder, outcomes.first());
        lemma_batch_resilience(m1, email, folder, outcomes.drop_first());
        assert forall|p: Seq<char>|
            m.files.contains_key(p) implies m1.files.contains_key(p) by {};
        assert forall|i: int|
            0 <= i < outcomes.len() && outcomes[i] is Some implies batch_run(
            m,
            email,
            folder,
            outcomes,
        ).files.contains_key(rel_path_chars(email, folder, m.uids[m.idx + i])) by {
            if i == 0 {
                assert(m1.files.contains_key(rel_path_chars(email, folder, m.uids[m.idx])));
            } else {
                assert(outcomes.drop_first()[i - 1] == outcomes[i]);
                assert(m1.uids == m.uids && m1.idx == m.idx + 1);
            }
        };
    }
}

/// Law (count independence): two fetch loops over the same listed
/// identifiers report the same count, whatever each one's per-identifier
/// outcomes were.
pub proof fn lemma_count_independent(
    m: BatchModel,
    email: Seq<char>,
    folder: Seq<char>,
    outcomes_a: Seq<Option<Seq<u8>>>,
    outcomes_b: Seq<Option<Seq<u8>>>,
)
    ensures
        batch_run(m, email, folder, outcomes_a).uids == batch_run(
            m,
            email,
            folder,
            outcomes_b,
        ).uids,
{
    lemma_batch_resilience(m, email, folder, outcomes_a);
    lemma_batch_resilience(m, email, folder, outcomes_b);
}

impl CheckRun {
    /// A run is well-formed: it never attempted more identifiers than were
    /// listed, and it holds a failure exactly when it failed.
    pub open spec fn wf(&self) -> bool {
        self.idx <= self.uids@.len() && (self.phase is Failed <==> self.failure is Some)
    }

    /// This run with another phase.
    pub open spec fn with_phase(self, phase: Phase) -> CheckRun {
        CheckRun { phase, ..self }
    }

    /// This run, failed with `e`.
    pub open spec fn with_failure(self, e: CheckError) -> CheckRun {
        CheckRun { phase: Phase::Failed, failure: Some(e), ..self }
    }

    /// This run with the next attempt index.
    pub open spec fn with_idx(self, idx: int) -> CheckRun {
        CheckRun { idx: idx as usize, ..self }
    }

    /// Begins a check run: resolves the effective folder — the override if
    /// one was given, else the account's default, else `inbox` — and awaits
    /// the credential.
    pub fn new(folder_override: Option<String>, default_folder: Option<String>) -> (r: CheckRun)
        ensures
            r.wf(),
            r.phase is NeedCredential,
            r.folder@ == effective_folder_chars(folder_override, default_folder),
            r.uids@.len() == 0,
            r.idx == 0,
            r.fetch_failures@.len() == 0,
            r.failure is None,
    {
        let folder = match folder_override {
            Some(f) => f,
            None => match default_folder {
                Some(d) => d,
                None => "inbox".to_owned(),
            },
        };
        CheckRun {
            phase: Phase::NeedCredential,
            folder,
            uids: Vec::new(),
            idx: 0,
            fetch_failures: Vec::new(),
            failure: None,
        }
    }

    /// Records whether the credential was retrieved. Failure here ends the
    /// run: without a credential there is nothing to authenticate with.
    pub fn on_credential(&mut self, ok: bool)
        requires
            old(self).wf(),
            old(self).phase is NeedCredential,
        ensures
            final(self).wf(),
            ok ==> *final(self) == (*old(self)).with_phase(Phase::NeedConnect),
            !ok ==> *final(self) == (*old(self)).with_failure(CheckError::Credential),
    {
        if ok {
            self.phase = Phase::NeedConnect;
        } else {
            self.phase = Phase::Failed;
            self.failure = Some(CheckError::Credential);
        }
    }

    /// Records whether the connection was opened (session: disconnected to
    /// connected). Failure ends the run.
    pub fn on_connect(&mut self, ok: bool)
        requires
            old(self).wf(),
            old(self).phase is NeedConnect,
        ensures
            final(self).wf(),
            ok ==> *final(self) == (*old(self)).with_phase(Phase::NeedAuth),
            !ok ==> *final(self) == (*old(self)).with_failure(CheckError::Connection),
    {
        if ok {
            self.phase = Phase::NeedAuth;
        } else {
            self.phase = Phase::Failed;
            self.failure = Some(CheckError::Connection);
        }
    }

    /// Records whether the server accepted the login (session: connected to
    /// authenticated). Failure ends the run. The credential itself never
    /// enters the run's state: only this yes-or-no outcome does.
    pub fn on_auth(&mut self, ok: bool)
        requires
            old(self).wf(),
            old(self).phase is NeedAuth,
        ensures
            final(self).wf(),
            ok ==> *final(self) == (*old(self)).with_phase(Phase::NeedSelect),
            !ok ==> *final(self) == (*old(self)).with_failure(CheckError::Auth),
    {
        if ok {
            self.phase = Phase::NeedSelect;
        } else {
            self.phase = Phase::Failed;
            self.failure = Some(CheckError::Auth);
        }
    }

    /// Records whether the folder was selected (session: authenticated to
    /// folder-selected). Failure ends the run.
    pub fn on_select(&mut self, ok: bool)
        requires
            old(self).wf(),
            old(self).phase is NeedSelect,
        ensures
            final(self).wf(),
            ok ==> *final(self) == (*old(self)).with_phase(Phase::NeedSearch),
            !ok ==> *final(self) == (*old(self)).with_failure(CheckError::FolderNotFound),
    {
        if ok {
            self.phase = Phase::NeedSearch;
        } else {
            self.phase = Phase::Failed;
            self.failure = Some(CheckError::FolderNotFound);
        }
    }

    /// Records the unseen identifiers the server listed — possibly none,
    /// which is not an error — and enters the fetch loop.
    pub fn on_unseen(&mut self, uids: Vec<u32>)
        requires
            old(self).wf(),
            old(self).phase is NeedSearch,
        ensures
            final(self).wf(),
            final(self).phase is Fetching,
            final(self).uids == uids,
            final(self).idx == 0,
            final(self).folder == old(self).folder,
            final(self).fetch_failures == old(self).fetch_failures,
            final(self).failure == old(self).failure,
    {
        self.uids = uids;
        self.idx = 0;
        self.phase = Phase::Fetching;
    }

    /// The next identifier to fetch, if any is left.
    pub fn next_uid(&self) -> (r: Option<u32>)
        requires
            self.wf(),
            self.phase is Fetching,
        ensures
            r == (if self.idx < self.uids@.len() {
                Some(self.uids@[self.idx as int])
            } else {
                None::<u32>
            }),
    {
        if self.idx < self.uids.len() {
            Some(self.uids[self.idx])
        } else {
            None
        }
    }

    /// Records one successfully fetched message: stores its bytes under the
    /// content-addressed path — skipping the write if that path is already
    /// occupied — and advances to the next identifier. Returns the path and
    /// whether a write took place, for the caller to mirror on disk.
    pub fn on_fetch_ok(&mut self, store: &mut MessageStore, email: &str, body: &Vec<u8>) -> (r: (
        String,
        bool,
    ))
        requires
            old(self).wf(),
            old(self).phase is Fetching,
            old(self).idx < old(self).uids@.len(),
            old(store).wf(),
        ensures
            final(self).wf(),
            final(store).wf(),
            *final(self) == (*old(self)).with_idx(old(self).idx + 1),
            r.0@ == rel_path_chars(email@, old(self).folder@, old(self).uids@[old(self).idx as int]),
            r.1 == !old(store).as_map().contains_key(r.0@),
            check_abs(*final(self), *final(store)) == store_step(
                check_abs(*old(self), *old(store)),
                email@,
                old(self).folder@,
                body@,
            ),
    {
        let n = self.uids.len();
        let uid = self.uids[self.idx];
        let r = store_message(store, email, self.folder.as_str(), uid, body);
        assert(self.idx < n);
        self.idx = self.idx + 1;
        proof {
            assert(check_abs(*self, *store) =~= store_step(
                check_abs(*old(self), *old(store)),
                email@,
                old(self).folder@,
                body@,
            ));
        }
        r
    }

    /// Records one failed fetch: the identifier is noted and the loop moves
    /// on — a missing message is reported, never fatal to the batch. The
    /// store is untouched.
    pub fn on_fetch_failed(&mut self, store: &mut MessageStore)
        requires
            old(self).wf(),
            old(self).phase is Fetching,
            old(self).idx < old(self).uids@.len(),
        ensures
            final(self).wf(),
            *final(store) == *old(store),
            final(self).phase is Fetching,
            final(self).folder == old(self).folder,
            final(self).uids == old(self).uids,
            final(self).idx == old(self).idx + 1,
            final(self).failure == old(self).failure,
            check_abs(*final(self), *final(store)) == skip_step(check_abs(*old(self), *old(store))),
    {
        let n = self.uids.len();
        let uid = self.uids[self.idx];
        self.fetch_failures.push(uid);
        assert(self.idx < n);
        self.idx = self.idx + 1;
        proof {
            assert(check_abs(*self, *store) =~= skip_step(check_abs(*old(self), *old(store))));
        }
    }

    /// Leaves the fetch loop once every listed identifier was attempted; the
    /// session awaits its logout.
    pub fn finish_fetch(&mut self)
        requires
            old(self).wf(),
            old(self).phase is Fetching,
            old(self).idx == old(self).uids@.len(),
        ensures
            final(self).wf(),
            *final(self) == (*old(self)).with_phase(Phase::NeedLogout),
    {
        self.phase = Phase::NeedLogout;
    }

    /// Records the logout, closing the session. A failed logout is
    /// swallowed: by this point every fetched message is already stored, so
    /// the run ends the same way either way.
    pub fn on_logout(&mut self, ok: bool)
        requires
            old(self).wf(),
            old(self).phase is NeedLogout,
        ensures
            final(self).wf(),
            *final(self) == (*old(self)).with_phase(Phase::Done),
    {
        let _ = ok;
        self.phase = Phase::Done;
    }

    /// The count the check reports: how many unseen identifiers the server
    /// listed — all of them observed, whether or not each was stored.
    pub fn count(&self) -> (n: usize)
        ensures
            n == self.uids@.len(),
    {
        self.uids.len()
    }
}

} // verus!
