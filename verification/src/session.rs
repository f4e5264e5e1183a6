use vstd::prelude::*;

use crate::batch::DownloadTarget;
use crate::errors::DownloadError;
use crate::progress::clamped_add;
use crate::resolver::filename_of;
use crate::resolver::joined;
use crate::resolver::join_path;
use crate::resolver::resolve;
use crate::resolver::valid_target;

verus! {

// One download, as a state machine.  The session holds every decision of
// a single transfer — the skip-if-exists rule, refusing a response with
// no declared size, the write-then-advance order, and the clamped
// progress count — while the unverified runner around it performs the
// probes, the request, the file writes, and hands each outcome back as
// an event.

/// Where a single download stands.
#[derive(Debug)]
pub enum Phase {
    /// The destination is to be probed: a file already there means the
    /// whole transfer is skipped.
    Checking,
    /// The request is to be sent.
    Requesting,
    /// The response declared `total` bytes; the destination file is to be
    /// created (and the progress indicator shown).
    Opening { total: u64 },
    /// The body is streaming: `downloaded` of `total` bytes are written
    /// so far and the next chunk is awaited.
    Streaming { total: u64, downloaded: u64 },
    /// The chunk `pending` — byte for byte what the server sent — is to
    /// be written in full before the count advances.
    Writing { total: u64, downloaded: u64, pending: Vec<u8> },
    /// The transfer is over: complete, or skipped because the file was
    /// already there.
    Finished { skipped: bool },
    /// The transfer failed; the error is fatal to the whole batch.
    Failed(DownloadError),
}

/// What the runner observed, handed back to the session.
pub enum Event {
    /// Whether a file already sits at the destination path.
    Exists(bool),
    /// The request could not be sent; carries the underlying cause.
    SendFailed(String),
    /// The response arrived, with the total size it declared, if any.
    Response(Option<u64>),
    /// The destination file could not be created.
    OpenFailed,
    /// The destination file is ready.
    Opened,
    /// A body chunk arrived.
    Chunk(Vec<u8>),
    /// The body stream broke; carries the underlying cause.
    ChunkFailed(String),
    /// The pending chunk was written in full.
    Written,
    /// The pending chunk could not be written in full.
    WriteFailed,
    /// The body stream ended.
    End,
}

/// One download in flight: the target's optional display name, its URL,
/// the destination path derived from the URL, and where it stands.
pub struct Session {
    pub name: Option<String>,
    pub url: String,
    pub dest: String,
    pub phase: Phase,
}

/// A phase from which no event moves the session any further.
pub open spec fn terminal(p: Phase) -> bool {
    match p {
        Phase::Finished { .. } => true,
        Phase::Failed(_) => true,
        _ => false,
    }
}

/// Which events a session in a given phase can take.
pub open spec fn legal(s: Session, e: Event) -> bool {
    match (s.phase, e) {
        (Phase::Checking, Event::Exists(_)) => true,
        (Phase::Requesting, Event::SendFailed(_)) => true,
        (Phase::Requesting, Event::Response(_)) => true,
        (Phase::Opening { .. }, Event::OpenFailed) => true,
        (Phase::Opening { .. }, Event::Opened) => true,
        (Phase::Streaming { .. }, Event::Chunk(_)) => true,
        (Phase::Streaming { .. }, Event::ChunkFailed(_)) => true,
        (Phase::Streaming { .. }, Event::End) => true,
        (Phase::Writing { .. }, Event::Written) => true,
        (Phase::Writing { .. }, Event::WriteFailed) => true,
        _ => false,
    }
}

/// The session after taking event `e`: the one place that fixes every
/// transition of a transfer.
pub open spec fn spec_step(s: Session, e: Event) -> Session
    recommends
        legal(s, e),
{
    let phase = match (s.phase, e) {
        (Phase::Checking, Event::Exists(ex)) => if ex {
            Phase::Finished { skipped: true }
        } else {
            Phase::Requesting
        },
        (Phase::Requesting, Event::SendFailed(cause)) => Phase::Failed(
            DownloadError::NetworkError(s.url, cause),
        ),
        (Phase::Requesting, Event::Response(content_length)) => match content_length {
            Some(total) => Phase::Opening { total },
            None => Phase::Failed(DownloadError::MissingContentLength(s.url)),
        },
        (Phase::Opening { .. }, Event::OpenFailed) => Phase::Failed(
            DownloadError::FileCreateError(s.dest),
        ),
        (Phase::Opening { total }, Event::Opened) => Phase::Streaming { total, downloaded: 0 },
        (Phase::Streaming { total, downloaded }, Event::Chunk(bytes)) => Phase::Writing {
            total,
            downloaded,
            pending: bytes,
        },
        (Phase::Streaming { .. }, Event::ChunkFailed(cause)) => Phase::Failed(
            DownloadError::NetworkError(s.url, cause),
        ),
        (Phase::Streaming { .. }, Event::End) => Phase::Finished { skipped: false },
        (Phase::Writing { total, downloaded, pending }, Event::Written) => Phase::Streaming {
            total,
            downloaded: clamped_add(downloaded, pending@.len() as u64, total),
        },
        (Phase::Writing { .. }, Event::WriteFailed) => Phase::Failed(
            DownloadError::WriteError(s.dest),
        ),
        _ => s.phase,
    };
    Session { phase, ..s }
}

impl Session {
    /// The session's invariant: the downloaded count never passes the
    /// declared total.
    pub open spec fn wf(&self) -> bool {
        match self.phase {
            Phase::Streaming { total, downloaded } => downloaded <= total,
            Phase::Writing { total, downloaded, .. } => downloaded <= total,
            _ => true,
        }
    }

    /// Opens a session for one target: derives the file name from the
    /// URL and the destination path from it and `dir`.  A URL that is no
    /// valid target is refused here, before any network or file work.
    pub fn start(name: Option<String>, url: String, dir: &str) -> (r: Result<
        Session,
        DownloadError,
    >)
        ensures
            valid_target(url@) ==> (r matches Ok(s) && s.wf() && s.phase == Phase::Checking
                && s.name == name && s.url == url && s.dest@ == joined(
                dir@,
                filename_of(url@),
            )),
            !valid_target(url@) ==> (r matches Err(e) && (e matches DownloadError::InvalidTarget(
                u,
            ) && u@ == url@)),
    {
        match resolve(url.as_str()) {
            Ok(filename) => {
                let dest: String = join_path(dir, filename.as_str());
                Ok(Session { name, url, dest, phase: Phase::Checking })
            },
            Err(e) => Err(e),
        }
    }

    /// Opens a session that downloads `url` to the fixed path `dest`,
    /// bypassing file-name derivation: the helper-script fetch goes to a
    /// fixed place of its own and is not an ISO.  Everything else — the
    /// skip rule included — runs as for any other transfer.
    pub fn start_at(name: Option<String>, url: String, dest: String) -> (r: Session)
        ensures
            r.wf(),
            r.phase == Phase::Checking,
            r.name == name,
            r.url == url,
            r.dest == dest,
    {
        Session { name, url, dest, phase: Phase::Checking }
    }

    /// Opens a session for one configured target, under its name.
    pub fn start_for(target: &DownloadTarget, dir: &str) -> (r: Result<Session, DownloadError>)
        ensures
            valid_target(target.url@) ==> (r matches Ok(s) && s.wf() && s.phase == Phase::Checking
                && s.name == Some(target.name) && s.url == target.url && s.dest@ == joined(
                dir@,
                filename_of(target.url@),
            )),
            !valid_target(target.url@) ==> (r matches Err(e) && (
            e matches DownloadError::InvalidTarget(u) && u@ == target.url@)),
    {
        Session::start(Some(target.name.clone()), target.url.clone(), dir)
    }

    /// Takes one event: the session moves exactly as `spec_step` says,
    /// and its target (name, URL, destination) never changes.
    pub fn step(&mut self, e: Event)
        requires
            old(self).wf(),
            legal(*old(self), e),
        ensures
            final(self).wf(),
            *final(self) == spec_step(*old(self), e),
    {
        let mut total: u64 = 0;
        let mut downloaded: u64 = 0;
        let mut pending_len: u64 = 0;
        match &self.phase {
            Phase::Opening { total: t } => {
                total = *t;
            },
            Phase::Streaming { total: t, downloaded: d } => {
                total = *t;
                downloaded = *d;
            },
            Phase::Writing { total: t, downloaded: d, pending: p } => {
                total = *t;
                downloaded = *d;
                pending_len = p.len() as u64;
            },
            _ => {},
        }
        match e {
            Event::Exists(ex) => {
                if ex {
                    self.phase = Phase::Finished { skipped: true };
                } else {
                    self.phase = Phase::Requesting;
                }
            },
            Event::SendFailed(cause) => {
                self.phase = Phase::Failed(
                    DownloadError::NetworkError(self.url.clone(), cause),
                );
            },
            Event::Response(content_length) => {
                match content_length {
                    Some(t) => {
                        self.phase = Phase::Opening { total: t };
                    },
                    None => {
                        self.phase = Phase::Failed(
                            DownloadError::MissingContentLength(self.url.clone()),
                        );
                    },
                }
            },
            Event::OpenFailed => {
                self.phase = Phase::Failed(DownloadError::FileCreateError(self.dest.clone()));
            },
            Event::Opened => {
                self.phase = Phase::Streaming { total, downloaded: 0 };
            },
            Event::Chunk(bytes) => {
                self.phase = Phase::Writing { total, downloaded, pending: bytes };
            },
            Event::ChunkFailed(cause) => {
                self.phase = Phase::Failed(
                    DownloadError::NetworkError(self.url.clone(), cause),
                );
            },
            Event::Written => {
                let new_downloaded: u64 = if pending_len >= total - downloaded {
                    total
                } else {
                    downloaded + pending_len
                };
                self.phase = Phase::Streaming { total, downloaded: new_downloaded };
            },
            Event::WriteFailed => {
                self.phase = Phase::Failed(DownloadError::WriteError(self.dest.clone()));
            },
            Event::End => {
                self.phase = Phase::Finished { skipped: false };
            },
        }
    }

    /// Whether the session is over, completed, skipped or failed.
    pub fn is_terminal(&self) -> (r: bool)
        ensures
            r == terminal(self.phase),
    {
        match &self.phase {
            Phase::Finished { .. } => true,
            Phase::Failed(_) => true,
            _ => false,
        }
    }
}

/// The downloaded count a session reports, where it reports one.
pub open spec fn position_of(s: Session) -> Option<u64> {
    match s.phase {
        Phase::Streaming { downloaded, .. } => Some(downloaded),
        Phase::Writing { downloaded, .. } => Some(downloaded),
        _ => None,
    }
}

/// Progress monotonicity: across any step of any session, the reported
/// downloaded count never decreases, and never passes the declared total
/// (the step preserves the invariant), even when the chunks add up past
/// the total.
pub proof fn lemma_progress_monotone(s: Session, e: Event)
    requires
        s.wf(),
        legal(s, e),
    ensures
        spec_step(s, e).wf(),
        (match (position_of(s), position_of(spec_step(s, e))) {
            (Some(a), Some(b)) => a <= b,
            _ => true,
        }),
{
}

/// The skip rule: a session whose destination file already exists
/// finishes at once, skipped, and no event — in particular no sending of
/// a request — can move it any further.  Re-running a batch therefore
/// costs no network work for the targets already downloaded.
pub proof fn lemma_skip_existing(s: Session)
    requires
        s.wf(),
        s.phase == Phase::Checking,
    ensures
        spec_step(s, Event::Exists(true)).phase == (Phase::Finished { skipped: true }),
        forall|e: Event| !legal(spec_step(s, Event::Exists(true)), e),
{
}

/// The session after a whole run of events, first event first.
pub open spec fn run_session(s: Session, evs: Seq<Event>) -> Session
    decreases evs.len(),
{
    if evs.len() == 0 {
        s
    } else {
        spec_step(run_session(s, evs.drop_last()), evs.last())
    }
}

/// Whether a run of events can actually happen against the session's
/// interface: each event is legal in the phase it meets.
pub open spec fn legal_session_run(s: Session, evs: Seq<Event>) -> bool
    decreases evs.len(),
{
    if evs.len() == 0 {
        true
    } else {
        legal_session_run(s, evs.drop_last()) && legal(run_session(s, evs.drop_last()), evs.last())
    }
}

/// The bytes a run of events delivers: every chunk the server sent, in
/// order.
pub open spec fn delivered(evs: Seq<Event>) -> Seq<u8>
    decreases evs.len(),
{
    if evs.len() == 0 {
        Seq::empty()
    } else {
        match evs.last() {
            Event::Chunk(b) => delivered(evs.drop_last()) + b@,
            _ => delivered(evs.drop_last()),
        }
    }
}

/// The bytes a run of events writes to the destination: every pending
/// chunk whose write was confirmed, in order.
pub open spec fn written(s: Session, evs: Seq<Event>) -> Seq<u8>
    decreases evs.len(),
{
    if evs.len() == 0 {
        Seq::empty()
    } else {
        match (run_session(s, evs.drop_last()).phase, evs.last()) {
            (Phase::Writing { pending, .. }, Event::Written) => written(s, evs.drop_last())
                + pending@,
            _ => written(s, evs.drop_last()),
        }
    }
}

/// Byte-for-byte transfer: across any legal run of a session, the bytes
/// written to the destination are exactly the bytes the server
/// delivered, short of at most the one chunk still pending.  In
/// particular a transfer that completed (finished, not skipped) has
/// written precisely what was delivered, in order.
pub proof fn lemma_written_is_delivered(s: Session, evs: Seq<Event>)
    requires
        s.phase == Phase::Checking,
        legal_session_run(s, evs),
    ensures
        (match run_session(s, evs).phase {
            Phase::Checking => delivered(evs) == Seq::<u8>::empty() && written(s, evs)
                == Seq::<u8>::empty(),
            Phase::Requesting => delivered(evs) == Seq::<u8>::empty() && written(s, evs)
                == Seq::<u8>::empty(),
            Phase::Opening { .. } => delivered(evs) == Seq::<u8>::empty() && written(s, evs)
                == Seq::<u8>::empty(),
            Phase::Writing { pending, .. } => delivered(evs) == written(s, evs) + pending@,
            Phase::Streaming { .. } => delivered(evs) == written(s, evs),
            Phase::Finished { skipped } => skipped || delivered(evs) == written(s, evs),
            Phase::Failed(_) => true,
        }),
    decreases evs.len(),
{
    if evs.len() > 0 {
        lemma_written_is_delivered(s, evs.drop_last());
        let prev = run_session(s, evs.drop_last());
        match (prev.phase, evs.last()) {
            (Phase::Streaming { .. }, Event::Chunk(b)) => {
                assert(delivered(evs) == delivered(evs.drop_last()) + b@);
            },
            (Phase::Writing { pending, .. }, Event::Written) => {
                assert(written(s, evs) == written(s, evs.drop_last()) + pending@);
            },
            _ => {
            },
        }
    }
}

/// A terminal session takes no event at all.
pub proof fn lemma_terminal_takes_nothing(s: Session, e: Event)
    requires
        terminal(s.phase),
    ensures
        !legal(s, e),
{
}

} // verus!
