//! The provisioning engine. One task per configured entry validates the
//! destination path, prepares the parent directory, fetches the secret value,
//! and writes the bytes to the destination, reporting one outcome per entry;
//! no entry's failure touches another entry.
//!
//! Every decision is made here. The caller performs each outside operation
//! (directory creation, the remote fetch, the file write) and reports its
//! result back as a plain value; `spec_run` states what outcome that exchange
//! produces for any entry and any answers from the environment.

use vstd::prelude::*;
use vstd::utf8::encode_utf8;
use crate::paths::{spec_is_absolute, spec_parent, is_absolute_path, parent_dir};

verus! {

/// One configured file: the destination path and the secret reference whose
/// value the file receives.
pub struct ProvisionEntry {
    pub destination_path: String,
    pub secret_reference: String,
}

/// The mathematical image of an entry.
pub ghost struct EntryView {
    pub destination_path: Seq<char>,
    pub secret_reference: Seq<char>,
}

impl View for ProvisionEntry {
    type V = EntryView;

    open spec fn view(&self) -> EntryView {
        EntryView {
            destination_path: self.destination_path@,
            secret_reference: self.secret_reference@,
        }
    }
}

/// Why one entry failed to provision.
pub enum Error {
    /// The destination is not an absolute path; nothing was attempted for it.
    InvalidPath { path: String },
    /// Creating the destination's parent directories failed; `cause` is the
    /// filesystem error as reported.
    DirectoryCreationFailed { cause: String },
    /// The secret store returned an error for `reference`.
    SecretFetchFailed { reference: String, cause: String },
    /// Opening, writing or flushing the destination file failed.
    WriteFailed { cause: String },
}

/// The mathematical image of an [`Error`].
pub ghost enum ErrorView {
    InvalidPath { path: Seq<char> },
    DirectoryCreationFailed { cause: Seq<char> },
    SecretFetchFailed { reference: Seq<char>, cause: Seq<char> },
    WriteFailed { cause: Seq<char> },
}

impl View for Error {
    type V = ErrorView;

    open spec fn view(&self) -> ErrorView {
        match self {
            Error::InvalidPath { path } => ErrorView::InvalidPath { path: path@ },
            Error::DirectoryCreationFailed { cause } => ErrorView::DirectoryCreationFailed {
                cause: cause@,
            },
            Error::SecretFetchFailed { reference, cause } => ErrorView::SecretFetchFailed {
                reference: reference@,
                cause: cause@,
            },
            Error::WriteFailed { cause } => ErrorView::WriteFailed { cause: cause@ },
        }
    }
}

/// The per-entry report: the destination and either success or the failure's
/// reason. One is produced for every entry; the coordinator only logs them.
pub struct ProvisionOutcome {
    pub destination_path: String,
    pub result: Result<(), Error>,
}

/// The mathematical image of a [`ProvisionOutcome`].
pub ghost struct OutcomeView {
    pub destination_path: Seq<char>,
    pub result: Result<(), ErrorView>,
}

impl View for ProvisionOutcome {
    type V = OutcomeView;

    open spec fn view(&self) -> OutcomeView {
        OutcomeView {
            destination_path: self.destination_path@,
            result: match self.result {
                Ok(u) => Ok(u),
                Err(e) => Err(e@),
            },
        }
    }
}

/// What the secret store hands back for one reference: an optional binary
/// blob and an optional text value; either or both may be missing.
pub struct SecretPayload {
    pub binary: Option<Vec<u8>>,
    pub text: Option<String>,
}

/// The mathematical image of a [`SecretPayload`].
pub ghost struct PayloadView {
    pub binary: Option<Seq<u8>>,
    pub text: Option<Seq<char>>,
}

impl View for SecretPayload {
    type V = PayloadView;

    open spec fn view(&self) -> PayloadView {
        PayloadView {
            binary: match self.binary {
                Some(b) => Some(b@),
                None => None,
            },
            text: match self.text {
                Some(t) => Some(t@),
                None => None,
            },
        }
    }
}

/// The bytes a payload provides: the binary form when present, else the UTF-8
/// encoding of the text form, else the empty sequence.
pub open spec fn spec_normalize(p: PayloadView) -> Seq<u8> {
    match p.binary {
        Some(b) => b,
        None => match p.text {
            Some(t) => encode_utf8(t),
            None => Seq::empty(),
        },
    }
}

impl SecretPayload {
    /// Normalizes the payload into the byte sequence to write.
    pub fn normalize(self) -> (data: Vec<u8>)
        ensures
            data@ == spec_normalize(self@),
    {
        match self.binary {
            Some(b) => b,
            None => match self.text {
                Some(t) => t.as_str().as_bytes_vec(),
                None => Vec::new(),
            },
        }
    }
}

/// The plan for the final write: the exact bytes to put at the destination,
/// and whether the payload was empty — which the caller reports as a warning,
/// never as a failure.
pub struct WritePlan {
    pub data: Vec<u8>,
    pub empty_payload: bool,
}

/// The mathematical image of a [`WritePlan`].
pub ghost struct WritePlanView {
    pub data: Seq<u8>,
    pub empty_payload: bool,
}

impl View for WritePlan {
    type V = WritePlanView;

    open spec fn view(&self) -> WritePlanView {
        WritePlanView { data: self.data@, empty_payload: self.empty_payload }
    }
}

/// The first decision for an entry: reject a relative destination outright,
/// otherwise prepare the parent directory when there is one, otherwise go
/// straight to the fetch.
pub enum Start {
    /// Create this directory and any missing ancestors, then report back
    /// through [`ProvisionEntry::after_dir_creation`].
    CreateParentDir { dir: String },
    /// The destination has no parent directory to prepare: fetch the secret
    /// next and report back through [`ProvisionEntry::after_fetch`].
    FetchSecret,
    /// The destination was rejected; the outcome is final and no filesystem
    /// or network operation runs for this entry.
    Fail { outcome: ProvisionOutcome },
}

/// The mathematical image of a [`Start`].
pub ghost enum StartView {
    CreateParentDir { dir: Seq<char> },
    FetchSecret,
    Fail { outcome: OutcomeView },
}

impl View for Start {
    type V = StartView;

    open spec fn view(&self) -> StartView {
        match self {
            Start::CreateParentDir { dir } => StartView::CreateParentDir { dir: dir@ },
            Start::FetchSecret => StartView::FetchSecret,
            Start::Fail { outcome } => StartView::Fail { outcome: outcome@ },
        }
    }
}

/// The rejection outcome for a relative destination.
pub open spec fn spec_invalid_path_outcome(e: EntryView) -> OutcomeView {
    OutcomeView {
        destination_path: e.destination_path,
        result: Err(ErrorView::InvalidPath { path: e.destination_path }),
    }
}

/// The first decision, as [`ProvisionEntry::start`] makes it.
pub open spec fn spec_start(e: EntryView) -> StartView {
    if !spec_is_absolute(e.destination_path) {
        StartView::Fail { outcome: spec_invalid_path_outcome(e) }
    } else {
        match spec_parent(e.destination_path) {
            Some(dir) => StartView::CreateParentDir { dir },
            None => StartView::FetchSecret,
        }
    }
}

/// The decision after the parent-directory step, as
/// [`ProvisionEntry::after_dir_creation`] makes it: proceed to the fetch on
/// success, fail the entry on a filesystem error.
pub open spec fn spec_after_dirs(e: EntryView, result: Result<(), Seq<char>>) -> Result<
    (),
    OutcomeView,
> {
    match result {
        Ok(u) => Ok(u),
        Err(cause) => Err(
            OutcomeView {
                destination_path: e.destination_path,
                result: Err(ErrorView::DirectoryCreationFailed { cause }),
            },
        ),
    }
}

/// The decision after the fetch, as [`ProvisionEntry::after_fetch`] makes it:
/// a failure becomes the final outcome, naming the reference; a payload is
/// normalized into the write plan, with the empty payload marked for a
/// warning rather than treated as an error.
pub open spec fn spec_after_fetch(e: EntryView, result: Result<PayloadView, Seq<char>>) -> Result<
    WritePlanView,
    OutcomeView,
> {
    match result {
        Ok(p) => Ok(
            WritePlanView { data: spec_normalize(p), empty_payload: spec_normalize(p).len() == 0 },
        ),
        Err(cause) => Err(
            OutcomeView {
                destination_path: e.destination_path,
                result: Err(
                    ErrorView::SecretFetchFailed { reference: e.secret_reference, cause },
                ),
            },
        ),
    }
}

/// The final outcome after the write step, as [`ProvisionEntry::after_write`]
/// makes it.
pub open spec fn spec_after_write(e: EntryView, result: Result<(), Seq<char>>) -> OutcomeView {
    OutcomeView {
        destination_path: e.destination_path,
        result: match result {
            Ok(u) => Ok(u),
            Err(cause) => Err(ErrorView::WriteFailed { cause }),
        },
    }
}

/// An outside step's result, viewed: the error text becomes its character
/// sequence.
pub open spec fn spec_io_result(r: Result<(), String>) -> Result<(), Seq<char>> {
    match r {
        Ok(u) => Ok(u),
        Err(cause) => Err(cause@),
    }
}

/// The fetch's result, viewed.
pub open spec fn spec_fetch_result(r: Result<SecretPayload, String>) -> Result<
    PayloadView,
    Seq<char>,
> {
    match r {
        Ok(p) => Ok(p@),
        Err(cause) => Err(cause@),
    }
}

/// A continue-or-conclude step's result, viewed.
pub open spec fn spec_outcome_result(r: Result<(), ProvisionOutcome>) -> Result<(), OutcomeView> {
    match r {
        Ok(u) => Ok(u),
        Err(outcome) => Err(outcome@),
    }
}

/// The fetch step's exec result, viewed.
pub open spec fn spec_plan_result(r: Result<WritePlan, ProvisionOutcome>) -> Result<
    WritePlanView,
    OutcomeView,
> {
    match r {
        Ok(plan) => Ok(plan@),
        Err(outcome) => Err(outcome@),
    }
}

/// Everything the environment answers during one entry's run: the results of
/// the directory creation, of the secret fetch, and of the file write. A
/// run consults an answer only when it reaches that step.
pub ghost struct TaskEnv {
    pub dir_result: Result<(), Seq<char>>,
    pub fetch_result: Result<PayloadView, Seq<char>>,
    pub write_result: Result<(), Seq<char>>,
}

/// The tail of a run from the fetch step on.
pub open spec fn spec_run_from_fetch(e: EntryView, env: TaskEnv) -> OutcomeView {
    match spec_after_fetch(e, env.fetch_result) {
        Err(outcome) => outcome,
        Ok(_) => spec_after_write(e, env.write_result),
    }
}

/// One entry's whole run against the environment's answers `env`: the
/// composition of the per-step decisions exactly as [`ProvisionEntry::start`],
/// [`ProvisionEntry::after_dir_creation`], [`ProvisionEntry::after_fetch`]
/// and [`ProvisionEntry::after_write`] make them.
pub open spec fn spec_run(e: EntryView, env: TaskEnv) -> OutcomeView {
    match spec_start(e) {
        StartView::Fail { outcome } => outcome,
        StartView::CreateParentDir { dir: _ } => match spec_after_dirs(e, env.dir_result) {
            Err(outcome) => outcome,
            Ok(_) => spec_run_from_fetch(e, env),
        },
        StartView::FetchSecret => spec_run_from_fetch(e, env),
    }
}

/// Whether the run for `e` performs any filesystem or network operation:
/// exactly the entries with an absolute destination do.
pub open spec fn spec_performs_io(e: EntryView) -> bool {
    !(spec_start(e) is Fail)
}

/// Whether the run reaches the secret fetch: the destination was accepted and
/// the directory step, where there was one, succeeded.
pub open spec fn spec_reaches_fetch(e: EntryView, env: TaskEnv) -> bool {
    match spec_start(e) {
        StartView::Fail { .. } => false,
        StartView::CreateParentDir { .. } => env.dir_result is Ok,
        StartView::FetchSecret => true,
    }
}

/// The bytes the run hands to the write step, when it reaches one.
pub open spec fn spec_written(e: EntryView, env: TaskEnv) -> Option<Seq<u8>> {
    if spec_reaches_fetch(e, env) && env.fetch_result is Ok {
        Some(spec_normalize(env.fetch_result->Ok_0))
    } else {
        None
    }
}

/// Whether the run records the empty-payload warning.
pub open spec fn spec_warns(e: EntryView, env: TaskEnv) -> bool {
    spec_written(e, env) == Some(Seq::<u8>::empty())
}

/// The outcomes of a whole provisioning run: entry `i` runs against the
/// environment's answers `envs[i]`. The coordinator runs the entries
/// concurrently; since no entry's run reads another's answers, the outcomes
/// are those of the entries' independent runs, in whatever order they finish.
pub open spec fn spec_run_all(entries: Seq<EntryView>, envs: Seq<TaskEnv>) -> Seq<OutcomeView>
    recommends
        envs.len() == entries.len(),
{
    Seq::new(entries.len(), |i: int| spec_run(entries[i], envs[i]))
}

/// How many of `outcomes` report success.
pub open spec fn spec_success_count(outcomes: Seq<OutcomeView>) -> nat
    decreases outcomes.len(),
{
    if outcomes.len() == 0 {
        0nat
    } else {
        spec_success_count(outcomes.drop_last()) + (if outcomes.last().result is Ok {
            1nat
        } else {
            0nat
        })
    }
}

/// Counting: over outcomes that all succeed, the successes are all of them.
pub proof fn lemma_count_all_ok(outcomes: Seq<OutcomeView>)
    requires
        forall|i: int| 0 <= i < outcomes.len() ==> (#[trigger] outcomes[i]).result is Ok,
    ensures
        spec_success_count(outcomes) == outcomes.len(),
    decreases outcomes.len(),
{
    if outcomes.len() > 0 {
        lemma_count_all_ok(outcomes.drop_last());
    }
}

/// Counting: over outcomes where exactly the one at `k` fails, the successes
/// are all but one.
pub proof fn lemma_count_all_but_one_ok(outcomes: Seq<OutcomeView>, k: int)
    requires
        0 <= k < outcomes.len(),
        forall|i: int|
            0 <= i < outcomes.len() && i != k ==> (#[trigger] outcomes[i]).result is Ok,
        outcomes[k].result is Err,
    ensures
        spec_success_count(outcomes) == outcomes.len() - 1,
    decreases outcomes.len(),
{
    if k == outcomes.len() - 1 {
        lemma_count_all_ok(outcomes.drop_last());
    } else {
        lemma_count_all_but_one_ok(outcomes.drop_last(), k);
    }
}

/// A relative destination always yields the `InvalidPath` failure: the
/// outcome does not depend on the environment at all, and the run performs no
/// filesystem or network operation and writes nothing.
pub proof fn lemma_relative_path_rejected(e: EntryView, env: TaskEnv)
    requires
        !spec_is_absolute(e.destination_path),
    ensures
        spec_run(e, env) == spec_invalid_path_outcome(e),
        !spec_performs_io(e),
        spec_written(e, env) is None,
{
}

/// A run that reaches a successful fetch plans to write exactly the fetched
/// bytes: the binary form when present, else the UTF-8 encoding of the text
/// form, else nothing; and when the write succeeds, the entry's outcome is
/// success, under its own destination path.
pub proof fn lemma_written_bytes_are_fetched_bytes(e: EntryView, env: TaskEnv, p: PayloadView)
    requires
        spec_reaches_fetch(e, env),
        env.fetch_result == Ok::<PayloadView, Seq<char>>(p),
    ensures
        spec_written(e, env) == Some(spec_normalize(p)),
        p.binary is Some ==> spec_written(e, env) == Some(p.binary->Some_0),
        p.binary is None && p.text is Some ==> spec_written(e, env) == Some(
            encode_utf8(p.text->Some_0),
        ),
        p.binary is None && p.text is None ==> spec_written(e, env) == Some(Seq::<u8>::empty()),
        env.write_result is Ok ==> spec_run(e, env) == (OutcomeView {
            destination_path: e.destination_path,
            result: Ok(()),
        }),
{
}

/// An empty secret payload is not a failure: the run still writes (the empty
/// file), records the warning, and — the write succeeding — the entry
/// completes as a success.
pub proof fn lemma_empty_payload_succeeds(e: EntryView, env: TaskEnv, p: PayloadView)
    requires
        spec_reaches_fetch(e, env),
        env.fetch_result == Ok::<PayloadView, Seq<char>>(p),
        spec_normalize(p).len() == 0,
        env.write_result is Ok,
    ensures
        spec_run(e, env).result is Ok,
        spec_warns(e, env),
        spec_written(e, env) == Some(Seq::<u8>::empty()),
{
    assert(spec_normalize(p) =~= Seq::<u8>::empty());
}

/// Failure isolation: over any entries with absolute destinations, when
/// exactly entry `k`'s fetch fails and every other answered step succeeds,
/// entry `k` alone fails — with a fetch failure naming its own reference and
/// the store's cause — and each of the other entries succeeds. Each entry's
/// outcome depends only on its own answers, so this holds in whatever order
/// the concurrent runs complete.
pub proof fn lemma_failure_isolation(entries: Seq<EntryView>, envs: Seq<TaskEnv>, k: int)
    requires
        envs.len() == entries.len(),
        0 <= k < entries.len(),
        forall|i: int|
            0 <= i < entries.len() ==> spec_is_absolute(#[trigger] entries[i].destination_path),
        forall|i: int|
            0 <= i < entries.len() && i != k ==> (#[trigger] envs[i]).dir_result is Ok
                && envs[i].fetch_result is Ok && envs[i].write_result is Ok,
        envs[k].dir_result is Ok,
        envs[k].fetch_result is Err,
    ensures
        forall|i: int|
            0 <= i < entries.len() && i != k ==> (#[trigger] spec_run(
                entries[i],
                envs[i],
            )).result is Ok,
        spec_run(entries[k], envs[k]).result == Err::<(), ErrorView>(
            ErrorView::SecretFetchFailed {
                reference: entries[k].secret_reference,
                cause: envs[k].fetch_result->Err_0,
            },
        ),
        spec_success_count(spec_run_all(entries, envs)) == entries.len() - 1,
{
    lemma_count_all_but_one_ok(spec_run_all(entries, envs), k);
}

/// Idempotence of content: two runs of the same entry that reach the fetch
/// and receive the same secret value plan exactly the same bytes — in
/// particular, a second run over an already provisioned destination rewrites
/// the file with identical content.
pub proof fn lemma_rerun_writes_same_bytes(e: EntryView, first: TaskEnv, second: TaskEnv)
    requires
        first.fetch_result == second.fetch_result,
        spec_reaches_fetch(e, first),
        spec_reaches_fetch(e, second),
    ensures
        spec_written(e, first) == spec_written(e, second),
{
}

impl ProvisionEntry {
    /// Validates the destination and names the entry's first operation. A
    /// relative destination is rejected here, before any filesystem or
    /// network operation.
    pub fn start(&self) -> (s: Start)
        ensures
            s@ == spec_start(self@),
    {
        if !is_absolute_path(self.destination_path.as_str()) {
            Start::Fail {
                outcome: ProvisionOutcome {
                    destination_path: self.destination_path.clone(),
                    result: Err(Error::InvalidPath { path: self.destination_path.clone() }),
                },
            }
        } else {
            match parent_dir(self.destination_path.as_str()) {
                Some(dir) => Start::CreateParentDir { dir },
                None => Start::FetchSecret,
            }
        }
    }

    /// Digests the result of creating the parent directory: `Ok` to proceed
    /// to the fetch, or the entry's final outcome when the step failed.
    pub fn after_dir_creation(&self, result: Result<(), String>) -> (r: Result<
        (),
        ProvisionOutcome,
    >)
        requires
            spec_is_absolute(self@.destination_path),
        ensures
            spec_outcome_result(r) == spec_after_dirs(self@, spec_io_result(result)),
    {
        match result {
            Ok(u) => Ok(u),
            Err(cause) => Err(
                ProvisionOutcome {
                    destination_path: self.destination_path.clone(),
                    result: Err(Error::DirectoryCreationFailed { cause }),
                },
            ),
        }
    }

    /// Digests the fetch's result: a failure becomes the entry's final
    /// outcome, naming the reference; a payload is normalized into the write
    /// plan, an empty one marked for a warning.
    pub fn after_fetch(&self, result: Result<SecretPayload, String>) -> (r: Result<
        WritePlan,
        ProvisionOutcome,
    >)
        requires
            spec_is_absolute(self@.destination_path),
        ensures
            spec_plan_result(r) == spec_after_fetch(self@, spec_fetch_result(result)),
    {
        match result {
            Ok(payload) => {
                let data = payload.normalize();
                let empty_payload = data.len() == 0;
                Ok(WritePlan { data, empty_payload })
            },
            Err(cause) => Err(
                ProvisionOutcome {
                    destination_path: self.destination_path.clone(),
                    result: Err(
                        Error::SecretFetchFailed {
                            reference: self.secret_reference.clone(),
                            cause,
                        },
                    ),
                },
            ),
        }
    }

    /// Turns the write's result into the entry's final outcome.
    pub fn after_write(&self, result: Result<(), String>) -> (o: ProvisionOutcome)
        requires
            spec_is_absolute(self@.destination_path),
        ensures
            o@ == spec_after_write(self@, spec_io_result(result)),
    {
        ProvisionOutcome {
            destination_path: self.destination_path.clone(),
            result: match result {
                Ok(u) => Ok(u),
                Err(cause) => Err(Error::WriteFailed { cause }),
            },
        }
    }
}

} // verus!
