//! Atomic file fetcher: one item's fetch as a state machine.
//!
//! The surrounding program performs the file and network operations and
//! reports each result back as a [`FetchEvent`]; the machine takes every
//! decision of the protocol: skip an item whose final file already stands,
//! refuse a directory in its place, begin the transfer only for a URL that
//! parses, rename the fully written temporary file into place, set the
//! modification time, and remove the temporary file on any failure. The
//! machine also tracks the model of the disk it owns: whether its temporary
//! file exists and whether the final path was created by its rename.

use vstd::prelude::*;

use crate::outcome::{ErrorKind, FsProbe, Outcome};

verus! {

/// Whether a string parses as an absolute URL. The verdict of
/// `reqwest::Url::parse`, which depends on the characters alone.
pub uninterp spec fn url_parse_ok(s: Seq<char>) -> bool;

#[verifier::external_type_specification]
#[verifier::external_body]
pub struct ExUrl(reqwest::Url);

#[verifier::external_type_specification]
#[verifier::external_body]
pub struct ExParseError(url::ParseError);

/// Relies on `reqwest::Url::parse` (the url crate's `Url::parse`): parses an
/// absolute URL from a string; success depends on the input characters alone.
#[verifier::external_body]
fn parse_url(s: &str) -> (r: Result<reqwest::Url, url::ParseError>)
    ensures
        r is Ok <==> url_parse_ok(s@),
{
    reqwest::Url::parse(s)
}

/// Checks an item's source URL, turning a parse failure into the pipeline's
/// own cause.
pub fn check_url(s: &str) -> (r: Result<reqwest::Url, ErrorKind>)
    ensures
        r is Ok <==> url_parse_ok(s@),
        r is Err ==> r->Err_0 == ErrorKind::UrlInvalid,
{
    match parse_url(s) {
        Ok(u) => Ok(u),
        Err(_) => Err(ErrorKind::UrlInvalid),
    }
}

/// Where one fetch stands.
#[derive(Clone, Copy, Debug, PartialEq, Eq, Structural)]
pub enum FetchPhase {
    /// Awaiting the metadata probe of the final path.
    Probing,
    /// The temporary file is open and the transfer runs; awaiting chunks.
    Streaming,
    /// The stream ended completely; awaiting the rename of the temporary
    /// file to the final path.
    Renaming,
    /// The rename took place; awaiting the modification-time update.
    SettingMtime,
    /// The fetch failed; awaiting the best-effort removal of the temporary
    /// file.
    CleaningUp,
    /// The fetch ended; the outcome stands.
    Finished,
}

/// What the surrounding program reports back to the machine.
#[derive(Clone, Copy, Debug, PartialEq, Eq, Structural)]
pub enum FetchEvent {
    /// The metadata probe of the final path came back.
    Probed(FsProbe),
    /// A chunk of this many bytes was received and written.
    Chunk(u64),
    /// The stream ended completely.
    StreamEnded,
    /// The connection or the stream failed.
    NetFailed,
    /// Creating or writing the temporary file failed.
    WriteFailed,
    /// The rename to the final path took place.
    Renamed,
    /// The rename to the final path failed.
    RenameFailed,
    /// The modification time was set.
    MtimeSet,
    /// Setting the modification time failed.
    MtimeFailed,
    /// The removal of the temporary file was attempted; `true` when it was
    /// in fact removed.
    Removed(bool),
}

/// The state of one item's fetch.
#[derive(Clone, Copy, Debug)]
pub struct FetchMachine {
    /// Where the fetch stands.
    pub phase: FetchPhase,
    /// Bytes written so far: the per-item progress counter. It only grows.
    pub written: u64,
    /// Model of the disk: the temporary file this fetch owns is on disk.
    pub temp_exists: bool,
    /// Model of the disk: the final path was created, by rename alone.
    pub renamed: bool,
    /// The recorded cause while the temporary file is being removed.
    pub failure: Option<ErrorKind>,
    /// The item's outcome, produced exactly once, when the fetch ends.
    pub outcome: Option<Outcome>,
}

/// Addition on the progress counter, capped instead of wrapping.
pub open spec fn sat_add64(a: u64, b: u64) -> u64 {
    if a + b <= u64::MAX {
        (a + b) as u64
    } else {
        u64::MAX
    }
}

impl FetchMachine {
    /// A fetch that has not observed anything yet.
    pub open spec fn init_spec() -> FetchMachine {
        FetchMachine {
            phase: FetchPhase::Probing,
            written: 0,
            temp_exists: false,
            renamed: false,
            failure: None,
            outcome: None,
        }
    }

    /// The machine is consistent: an outcome stands exactly once the fetch
    /// ended, and a pending cause exactly while the temporary file is being
    /// removed.
    pub open spec fn wf(self) -> bool {
        &&& (self.outcome is Some <==> self.phase is Finished)
        &&& (self.failure is Some <==> self.phase is CleaningUp)
    }

    /// The fetch has ended.
    pub open spec fn done(self) -> bool {
        self.phase is Finished
    }

    pub fn new() -> (m: FetchMachine)
        ensures
            m == FetchMachine::init_spec(),
    {
        FetchMachine {
            phase: FetchPhase::Probing,
            written: 0,
            temp_exists: false,
            renamed: false,
            failure: None,
            outcome: None,
        }
    }
}

/// A fetch that ended with the given outcome.
pub open spec fn finished_with(m: FetchMachine, o: Outcome) -> FetchMachine {
    FetchMachine { phase: FetchPhase::Finished, failure: None, outcome: Some(o), ..m }
}

/// A fetch that failed with the given cause and now removes its temporary
/// file.
pub open spec fn cleaning_with(m: FetchMachine, cause: ErrorKind) -> FetchMachine {
    FetchMachine { phase: FetchPhase::CleaningUp, failure: Some(cause), outcome: None, ..m }
}

/// The transition table of one fetch. An event that does not belong to the
/// current phase changes nothing.
pub open spec fn step_spec(m: FetchMachine, e: FetchEvent, url_ok: bool) -> FetchMachine {
    match (m.phase, e) {
        (FetchPhase::Probing, FetchEvent::Probed(p)) => match p {
            FsProbe::IsFile => finished_with(m, Outcome::Skipped),
            FsProbe::IsDir => finished_with(
                m,
                Outcome::Failed(ErrorKind::DestinationIsDirectory),
            ),
            FsProbe::PermissionDenied => finished_with(
                m,
                Outcome::Failed(ErrorKind::MetadataUnavailable { permission_denied: true }),
            ),
            FsProbe::OtherError => finished_with(
                m,
                Outcome::Failed(ErrorKind::MetadataUnavailable { permission_denied: false }),
            ),
            FsProbe::Missing => if url_ok {
                FetchMachine { phase: FetchPhase::Streaming, temp_exists: true, ..m }
            } else {
                finished_with(m, Outcome::Failed(ErrorKind::UrlInvalid))
            },
        },
        (FetchPhase::Streaming, FetchEvent::Chunk(len)) => FetchMachine {
            written: sat_add64(m.written, len),
            ..m
        },
        (FetchPhase::Streaming, FetchEvent::StreamEnded) => FetchMachine {
            phase: FetchPhase::Renaming,
            ..m
        },
        (FetchPhase::Streaming, FetchEvent::NetFailed) => cleaning_with(
            m,
            ErrorKind::NetworkFailure,
        ),
        (FetchPhase::Streaming, FetchEvent::WriteFailed) => cleaning_with(m, ErrorKind::IoFailure),
        (FetchPhase::Renaming, FetchEvent::Renamed) => FetchMachine {
            phase: FetchPhase::SettingMtime,
            temp_exists: false,
            renamed: true,
            ..m
        },
        (FetchPhase::Renaming, FetchEvent::RenameFailed) => cleaning_with(m, ErrorKind::IoFailure),
        (FetchPhase::SettingMtime, FetchEvent::MtimeSet) => finished_with(m, Outcome::Succeeded),
        (FetchPhase::SettingMtime, FetchEvent::MtimeFailed) => cleaning_with(
            m,
            ErrorKind::IoFailure,
        ),
        (FetchPhase::CleaningUp, FetchEvent::Removed(removed)) => FetchMachine {
            phase: FetchPhase::Finished,
            temp_exists: m.temp_exists && !removed,
            failure: None,
            outcome: Some(
                Outcome::Failed(
                    match m.failure {
                        Some(cause) => cause,
                        None => ErrorKind::IoFailure,
                    },
                ),
            ),
            ..m
        },
        _ => m,
    }
}

/// The step at which the machine orders the transfer to begin: the final
/// path is missing and the URL parses. This is the only step that touches
/// the network.
pub open spec fn starts_transfer(m: FetchMachine, e: FetchEvent, url_ok: bool) -> bool {
    &&& m.phase is Probing
    &&& e matches FetchEvent::Probed(p) && p is Missing
    &&& url_ok
}

impl FetchMachine {
    /// Feeds one event to the machine. The returned URL, present exactly
    /// when this step begins the transfer, is what the surrounding program
    /// must fetch into the temporary file.
    pub fn step(&mut self, event: &FetchEvent, url: &str) -> (start: Option<reqwest::Url>)
        ensures
            *final(self) == step_spec(*old(self), *event, url_parse_ok(url@)),
            start is Some <==> starts_transfer(*old(self), *event, url_parse_ok(url@)),
            final(self).written >= old(self).written,
            old(self).wf() ==> final(self).wf(),
    {
        match (self.phase, *event) {
            (FetchPhase::Probing, FetchEvent::Probed(p)) => match p {
                FsProbe::IsFile => {
                    self.finish(Outcome::Skipped);
                    None
                },
                FsProbe::IsDir => {
                    self.finish(Outcome::Failed(ErrorKind::DestinationIsDirectory));
                    None
                },
                FsProbe::PermissionDenied => {
                    self.finish(
                        Outcome::Failed(ErrorKind::MetadataUnavailable { permission_denied: true }),
                    );
                    None
                },
                FsProbe::OtherError => {
                    self.finish(
                        Outcome::Failed(
                            ErrorKind::MetadataUnavailable { permission_denied: false },
                        ),
                    );
                    None
                },
                FsProbe::Missing => {
                    match check_url(url) {
                        Ok(u) => {
                            self.phase = FetchPhase::Streaming;
                            self.temp_exists = true;
                            Some(u)
                        },
                        Err(cause) => {
                            self.finish(Outcome::Failed(cause));
                            None
                        },
                    }
                },
            },
            (FetchPhase::Streaming, FetchEvent::Chunk(len)) => {
                if len <= u64::MAX - self.written {
                    self.written = self.written + len;
                } else {
                    self.written = u64::MAX;
                }
                None
            },
            (FetchPhase::Streaming, FetchEvent::StreamEnded) => {
                self.phase = FetchPhase::Renaming;
                None
            },
            (FetchPhase::Streaming, FetchEvent::NetFailed) => {
                self.fail(ErrorKind::NetworkFailure);
                None
            },
            (FetchPhase::Streaming, FetchEvent::WriteFailed) => {
                self.fail(ErrorKind::IoFailure);
                None
            },
            (FetchPhase::Renaming, FetchEvent::Renamed) => {
                self.phase = FetchPhase::SettingMtime;
                self.temp_exists = false;
                self.renamed = true;
                None
            },
            (FetchPhase::Renaming, FetchEvent::RenameFailed) => {
                self.fail(ErrorKind::IoFailure);
                None
            },
            (FetchPhase::SettingMtime, FetchEvent::MtimeSet) => {
                self.finish(Outcome::Succeeded);
                None
            },
            (FetchPhase::SettingMtime, FetchEvent::MtimeFailed) => {
                self.fail(ErrorKind::IoFailure);
                None
            },
            (FetchPhase::CleaningUp, FetchEvent::Removed(removed)) => {
                let cause = match self.failure {
                    Some(cause) => cause,
                    None => ErrorKind::IoFailure,
                };
                self.phase = FetchPhase::Finished;
                self.temp_exists = self.temp_exists && !removed;
                self.failure = None;
                self.outcome = Some(Outcome::Failed(cause));
                None
            },
            _ => None,
        }
    }

    /// Ends the fetch with the given outcome.
    fn finish(&mut self, o: Outcome)
        ensures
            *final(self) == finished_with(*old(self), o),
    {
        self.phase = FetchPhase::Finished;
        self.failure = None;
        self.outcome = Some(o);
    }

    /// Records the cause and turns to removing the temporary file.
    fn fail(&mut self, cause: ErrorKind)
        ensures
            *final(self) == cleaning_with(*old(self), cause),
    {
        self.phase = FetchPhase::CleaningUp;
        self.failure = Some(cause);
        self.outcome = None;
    }
}

/// Where a fetch stands after it has seen the given events, in order.
pub open spec fn run_spec(m: FetchMachine, events: Seq<FetchEvent>, url_ok: bool) -> FetchMachine
    decreases events.len(),
{
    if events.len() == 0 {
        m
    } else {
        run_spec(step_spec(m, events[0], url_ok), events.skip(1), url_ok)
    }
}

/// Whether any step of the run begins the transfer, that is, touches the
/// network.
pub open spec fn run_starts_transfer(
    m: FetchMachine,
    events: Seq<FetchEvent>,
    url_ok: bool,
) -> bool
    decreases events.len(),
{
    if events.len() == 0 {
        false
    } else {
        starts_transfer(m, events[0], url_ok) || run_starts_transfer(
            step_spec(m, events[0], url_ok),
            events.skip(1),
            url_ok,
        )
    }
}

/// A run over an appended event equals a step after the run over the prefix.
pub proof fn lemma_run_snoc(m: FetchMachine, events: Seq<FetchEvent>, e: FetchEvent, url_ok: bool)
    ensures
        run_spec(m, events.push(e), url_ok) == step_spec(run_spec(m, events, url_ok), e, url_ok),
    decreases events.len(),
{
    reveal_with_fuel(run_spec, 3);
    if events.len() == 0 {
        assert(events.push(e)[0] == e);
        assert(events.push(e).skip(1) =~= Seq::<FetchEvent>::empty());
    } else {
        assert(events.push(e)[0] == events[0]);
        assert(events.push(e).skip(1) =~= events.skip(1).push(e));
        lemma_run_snoc(step_spec(m, events[0], url_ok), events.skip(1), e, url_ok);
    }
}

/// A run over concatenated events is the run over the first part continued
/// over the second.
pub proof fn lemma_run_app(
    m: FetchMachine,
    a: Seq<FetchEvent>,
    b: Seq<FetchEvent>,
    url_ok: bool,
)
    ensures
        run_spec(m, a + b, url_ok) == run_spec(run_spec(m, a, url_ok), b, url_ok),
    decreases a.len(),
{
    if a.len() == 0 {
        assert(a + b =~= b);
    } else {
        assert((a + b)[0] == a[0]);
        assert((a + b).skip(1) =~= a.skip(1) + b);
        lemma_run_app(step_spec(m, a[0], url_ok), a.skip(1), b, url_ok);
    }
}

/// An ended fetch is final: further events change nothing, and in particular
/// none of them begins a transfer.
pub proof fn lemma_finished_stays(m: FetchMachine, events: Seq<FetchEvent>, url_ok: bool)
    requires
        m.phase is Finished,
    ensures
        run_spec(m, events, url_ok) == m,
        !run_starts_transfer(m, events, url_ok),
    decreases events.len(),
{
    if events.len() > 0 {
        assert(step_spec(m, events[0], url_ok) == m);
        lemma_finished_stays(m, events.skip(1), url_ok);
    }
}

/// An item whose final path already holds a regular file is skipped: the
/// probe alone ends the fetch as `Skipped`, no step of the whole run begins
/// a transfer — zero network calls — no temporary file is created, and
/// nothing is renamed, whatever events may still arrive.
pub proof fn lemma_existing_file_skipped(rest: Seq<FetchEvent>, url_ok: bool)
    ensures
        ({
            let events = seq![FetchEvent::Probed(FsProbe::IsFile)] + rest;
            let m = run_spec(FetchMachine::init_spec(), events, url_ok);
            &&& m.done()
            &&& m.outcome == Some(Outcome::Skipped)
            &&& !m.temp_exists
            &&& !m.renamed
            &&& !run_starts_transfer(FetchMachine::init_spec(), events, url_ok)
        }),
{
    let events = seq![FetchEvent::Probed(FsProbe::IsFile)] + rest;
    assert(events[0] == FetchEvent::Probed(FsProbe::IsFile));
    assert(events.skip(1) =~= rest);
    let m1 = step_spec(FetchMachine::init_spec(), events[0], url_ok);
    lemma_finished_stays(m1, rest, url_ok);
}

/// An item whose final path is a directory fails as `DestinationIsDirectory`
/// and the directory is left untouched: no transfer is begun, no temporary
/// file is created, nothing is renamed, whatever events may still arrive.
pub proof fn lemma_existing_directory_refused(rest: Seq<FetchEvent>, url_ok: bool)
    ensures
        ({
            let events = seq![FetchEvent::Probed(FsProbe::IsDir)] + rest;
            let m = run_spec(FetchMachine::init_spec(), events, url_ok);
            &&& m.done()
            &&& m.outcome == Some(Outcome::Failed(ErrorKind::DestinationIsDirectory))
            &&& !m.temp_exists
            &&& !m.renamed
            &&& !run_starts_transfer(FetchMachine::init_spec(), events, url_ok)
        }),
{
    let events = seq![FetchEvent::Probed(FsProbe::IsDir)] + rest;
    assert(events[0] == FetchEvent::Probed(FsProbe::IsDir));
    assert(events.skip(1) =~= rest);
    let m1 = step_spec(FetchMachine::init_spec(), events[0], url_ok);
    lemma_finished_stays(m1, rest, url_ok);
}

/// While only chunks arrive, the fetch keeps streaming: the temporary file,
/// the final path and the pending state are untouched; only the progress
/// counter moves.
pub proof fn lemma_chunks_keep_streaming(
    m: FetchMachine,
    chunks: Seq<FetchEvent>,
    url_ok: bool,
)
    requires
        m.phase is Streaming,
        forall|i: int| 0 <= i < chunks.len() ==> chunks[i] is Chunk,
    ensures
        ({
            let m2 = run_spec(m, chunks, url_ok);
            &&& m2.phase is Streaming
            &&& m2.temp_exists == m.temp_exists
            &&& m2.renamed == m.renamed
            &&& m2.failure == m.failure
            &&& m2.outcome == m.outcome
            &&& m2.written >= m.written
        }),
    decreases chunks.len(),
{
    if chunks.len() > 0 {
        assert(chunks[0] is Chunk);
        lemma_chunks_keep_streaming(step_spec(m, chunks[0], url_ok), chunks.skip(1), url_ok);
    }
}

/// A transfer interrupted mid-stream leaves nothing behind: after any number
/// of received chunks, a network failure followed by a successful removal of
/// the temporary file ends the fetch as `Failed(NetworkFailure)`, with no
/// temporary file left on disk and the final path never created.
pub proof fn lemma_interrupted_stream_leaves_nothing(chunks: Seq<FetchEvent>, url_ok: bool)
    requires
        url_ok,
        forall|i: int| 0 <= i < chunks.len() ==> chunks[i] is Chunk,
    ensures
        ({
            let events = seq![FetchEvent::Probed(FsProbe::Missing)] + chunks + seq![
                FetchEvent::NetFailed,
                FetchEvent::Removed(true),
            ];
            let m = run_spec(FetchMachine::init_spec(), events, url_ok);
            &&& m.done()
            &&& m.outcome == Some(Outcome::Failed(ErrorKind::NetworkFailure))
            &&& !m.temp_exists
            &&& !m.renamed
        }),
{
    let probe = seq![FetchEvent::Probed(FsProbe::Missing)];
    let tail = seq![FetchEvent::NetFailed, FetchEvent::Removed(true)];
    let events = probe + chunks + tail;
    let m0 = FetchMachine::init_spec();

    reveal_with_fuel(run_spec, 4);
    lemma_run_app(m0, probe + chunks, tail, url_ok);
    lemma_run_app(m0, probe, chunks, url_ok);
    assert(probe[0] == FetchEvent::Probed(FsProbe::Missing));
    assert(probe.skip(1) =~= Seq::<FetchEvent>::empty());
    let m1 = step_spec(m0, FetchEvent::Probed(FsProbe::Missing), url_ok);
    assert(run_spec(m0, probe, url_ok) == m1);
    assert(m1.phase is Streaming && m1.temp_exists && !m1.renamed);
    lemma_chunks_keep_streaming(m1, chunks, url_ok);
    let m2 = run_spec(m1, chunks, url_ok);
    let m3 = step_spec(m2, FetchEvent::NetFailed, url_ok);
    let m4 = step_spec(m3, FetchEvent::Removed(true), url_ok);
    assert(tail[0] == FetchEvent::NetFailed);
    assert(tail.skip(1) =~= seq![FetchEvent::Removed(true)]);
    assert(seq![FetchEvent::Removed(true)][0] == FetchEvent::Removed(true));
    assert(seq![FetchEvent::Removed(true)].skip(1) =~= Seq::<FetchEvent>::empty());
    assert(run_spec(m2, tail, url_ok) == m4);
}

} // verus!
