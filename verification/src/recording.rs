//! The single debug recording owned by a development server.
//!
//! A dev server owns exactly one recording session and one fixed output
//! file. Starting while a session is active reuses that session; stopping,
//! completing or failing twice is harmless. The store below holds the
//! session's state and makes every decision; the file system and the native
//! encoder are driven by its caller, which reports each outcome back.

use crate::hotkeys::{all_digits, digits_value, lemma_decimal_digits};
use crate::text::{decimal, has_prefix, push_decimal, starts_with_str, str_eq};
use vstd::prelude::*;
use vstd::string::*;

verus! {

/// Recordings stop on their own after this many seconds unless asked otherwise.
pub const DEFAULT_RECORDING_MAX_DURATION_SECONDS: u64 = 300;

/// No recording may be asked to run longer than this many seconds.
pub const MAX_RECORDING_MAX_DURATION_SECONDS: u64 = 3600;

/// Lifecycle of the development recording.
#[derive(Debug, Clone, Copy, PartialEq, Eq, Structural)]
pub enum RecordingStatus {
    Idle,
    Recording,
    StopRequested,
    Finalizing,
    Completed,
    Failed,
}

impl RecordingStatus {
    /// The name used in JSON responses.
    pub fn as_str(&self) -> (r: &'static str)
        ensures
            r@ == status_name(*self),
    {
        match self {
            RecordingStatus::Idle => "idle",
            RecordingStatus::Recording => "recording",
            RecordingStatus::StopRequested => "stop_requested",
            RecordingStatus::Finalizing => "finalizing",
            RecordingStatus::Completed => "completed",
            RecordingStatus::Failed => "failed",
        }
    }
}

pub open spec fn status_name(s: RecordingStatus) -> Seq<char> {
    match s {
        RecordingStatus::Idle => "idle"@,
        RecordingStatus::Recording => "recording"@,
        RecordingStatus::StopRequested => "stop_requested"@,
        RecordingStatus::Finalizing => "finalizing"@,
        RecordingStatus::Completed => "completed"@,
        RecordingStatus::Failed => "failed"@,
    }
}

/// A session is running: capturing, asked to stop, or being finalized.
pub open spec fn is_active(s: RecordingStatus) -> bool {
    s == RecordingStatus::Recording || s == RecordingStatus::StopRequested || s
        == RecordingStatus::Finalizing
}

/// The browser may still deliver metadata and media chunks.
pub open spec fn accepts_browser_media(s: RecordingStatus) -> bool {
    s == RecordingStatus::Recording || s == RecordingStatus::StopRequested
}

/// The fixed files of the recording.
#[derive(Debug, Clone)]
pub struct RecordingPaths {
    /// The output path without its extension.
    pub output_stem: String,
    /// Where browser chunks are appended while recording.
    pub partial: String,
    /// Where the native encoder writes while recording.
    pub native_partial: String,
    /// The finished recording when it is MP4.
    pub final_mp4: String,
    /// The finished recording otherwise.
    pub final_webm: String,
}

/// A stable snapshot returned to agents.
#[derive(Debug, Clone)]
pub struct RecordingSnapshot {
    pub status: RecordingStatus,
    pub session_id: Option<String>,
    pub path: String,
    pub download_url: String,
    pub mime_type: Option<String>,
    /// The server captures the desktop itself; otherwise the browser records.
    pub native: bool,
    pub bytes: u64,
    pub error: Option<String>,
    pub started_at: Option<String>,
    pub finished_at: Option<String>,
}

/// Why a recording request was refused.
#[derive(Debug, Clone, Copy, PartialEq, Eq, Structural)]
pub enum RecordingError {
    /// The request names a session other than the current one.
    SessionMismatch,
    /// Native capture takes no MIME type from the browser.
    NativeRejectsMetadata,
    /// Native capture takes no media chunks from the browser.
    NativeRejectsChunks,
    /// Native capture is finalized by the stop operation.
    NativeFinalizedByStop,
    /// The session no longer accepts browser metadata.
    NotAcceptingMetadata,
    /// The session no longer accepts media chunks.
    NotAcceptingChunks,
}

impl RecordingError {
    pub fn message(&self) -> (r: &'static str)
        ensures
            r@ == error_message(*self),
    {
        match self {
            RecordingError::SessionMismatch => "recording session does not match the active session",
            RecordingError::NativeRejectsMetadata => "native recording does not accept browser metadata",
            RecordingError::NativeRejectsChunks => "native recording does not accept browser media chunks",
            RecordingError::NativeFinalizedByStop => "native recording is finalized by the server stop operation",
            RecordingError::NotAcceptingMetadata => "recording is not accepting browser metadata",
            RecordingError::NotAcceptingChunks => "recording is not accepting media chunks",
        }
    }
}

pub open spec fn error_message(e: RecordingError) -> Seq<char> {
    match e {
        RecordingError::SessionMismatch => "recording session does not match the active session"@,
        RecordingError::NativeRejectsMetadata => "native recording does not accept browser metadata"@,
        RecordingError::NativeRejectsChunks => "native recording does not accept browser media chunks"@,
        RecordingError::NativeFinalizedByStop => "native recording is finalized by the server stop operation"@,
        RecordingError::NotAcceptingMetadata => "recording is not accepting browser metadata"@,
        RecordingError::NotAcceptingChunks => "recording is not accepting media chunks"@,
    }
}

// ---------------------------------------------------------------------------
// The model
// ---------------------------------------------------------------------------

/// The abstract state of a recording store.
pub struct RecordingModel {
    pub status: RecordingStatus,
    pub session_id: Option<Seq<char>>,
    pub mime_type: Option<Seq<char>>,
    pub bytes: u64,
    pub error: Option<Seq<char>>,
    pub started_at: Option<Seq<char>>,
    pub finished_at: Option<Seq<char>>,
    pub native: bool,
    pub next_id: u64,
    pub output_stem: Seq<char>,
    pub partial: Seq<char>,
    pub native_partial: Seq<char>,
    pub final_mp4: Seq<char>,
    pub final_webm: Seq<char>,
}

pub open spec fn opt_str(o: Option<String>) -> Option<Seq<char>> {
    match o {
        Some(s) => Some(s@),
        None => None,
    }
}

/// The session identifier: start time in milliseconds, a dash, and a counter.
pub open spec fn session_id_text(millis: u64, id: u64) -> Seq<char> {
    decimal(millis as nat) + seq!['-'] + decimal(id as nat)
}

pub open spec fn next_counter(id: u64) -> u64 {
    if id == u64::MAX {
        0
    } else {
        (id + 1) as u64
    }
}

/// The MIME type names an MP4 container.
pub open spec fn is_mp4(mime: Option<Seq<char>>) -> bool {
    match mime {
        Some(m) => has_prefix(m, "video/mp4"@),
        None => false,
    }
}

/// Where the finished recording lives for a given MIME type.
pub open spec fn final_path_spec(m: RecordingModel, mime: Option<Seq<char>>) -> Seq<char> {
    if is_mp4(mime) {
        m.final_mp4
    } else {
        m.final_webm
    }
}

pub open spec fn download_url() -> Seq<char> {
    "/__rdesktop__/agent/recording/file"@
}

/// The snapshot describes the model exactly.
pub open spec fn snapshot_of(s: RecordingSnapshot, m: RecordingModel) -> bool {
    &&& s.status == m.status
    &&& opt_str(s.session_id) == m.session_id
    &&& s.path@ == final_path_spec(m, m.mime_type)
    &&& s.download_url@ == download_url()
    &&& opt_str(s.mime_type) == m.mime_type
    &&& s.native == m.native
    &&& s.bytes == m.bytes
    &&& opt_str(s.error) == m.error
    &&& opt_str(s.started_at) == m.started_at
    &&& opt_str(s.finished_at) == m.finished_at
}

/// The request carries no session guard, or names the current session.
pub open spec fn guard_ok(m: RecordingModel, expected: Option<Seq<char>>) -> bool {
    match expected {
        Some(e) => m.session_id == Some(e),
        None => true,
    }
}

/// A store before its first session.
pub open spec fn fresh_spec(paths: RecordingPaths, native: bool) -> RecordingModel {
    RecordingModel {
        status: RecordingStatus::Idle,
        session_id: None,
        mime_type: None,
        bytes: 0,
        error: None,
        started_at: None,
        finished_at: None,
        native,
        next_id: 1,
        output_stem: paths.output_stem@,
        partial: paths.partial@,
        native_partial: paths.native_partial@,
        final_mp4: paths.final_mp4@,
        final_webm: paths.final_webm@,
    }
}

/// A new session begins.
pub open spec fn begin_spec(m: RecordingModel, millis: u64, started_at: Seq<char>) -> RecordingModel {
    RecordingModel {
        status: RecordingStatus::Recording,
        session_id: Some(session_id_text(millis, m.next_id)),
        mime_type: if m.native {
            Some("video/mp4"@)
        } else {
            None
        },
        bytes: 0,
        error: None,
        started_at: Some(started_at),
        finished_at: None,
        next_id: next_counter(m.next_id),
        ..m
    }
}

/// The session ended in failure.
pub open spec fn fail_spec(m: RecordingModel, error: Seq<char>, finished_at: Seq<char>) -> RecordingModel {
    RecordingModel {
        status: RecordingStatus::Failed,
        error: Some(error),
        finished_at: Some(finished_at),
        ..m
    }
}

/// A browser recording is asked to stop.
pub open spec fn request_stop_spec(m: RecordingModel) -> RecordingModel {
    if m.status == RecordingStatus::Recording {
        RecordingModel { status: RecordingStatus::StopRequested, ..m }
    } else {
        m
    }
}

/// A native stop has nothing left to do in this state.
pub open spec fn native_stop_settled(s: RecordingStatus) -> bool {
    s == RecordingStatus::Idle || s == RecordingStatus::Completed || s == RecordingStatus::Failed
        || s == RecordingStatus::Finalizing
}

/// The state after `stop_begin` accepted the request.
pub open spec fn stop_begin_spec(m: RecordingModel) -> RecordingModel {
    if !m.native {
        request_stop_spec(m)
    } else if native_stop_settled(m.status) {
        m
    } else {
        RecordingModel { status: RecordingStatus::Finalizing, ..m }
    }
}

/// `stop_begin` hands the native encoder to its caller to finalize.
pub open spec fn stop_needs_finalize(m: RecordingModel) -> bool {
    m.native && !native_stop_settled(m.status)
}

/// The native encoder finished: the byte count of the file, or an error.
pub open spec fn stop_finish_spec(
    m: RecordingModel,
    outcome: Result<u64, Seq<char>>,
    finished_at: Seq<char>,
) -> RecordingModel {
    match outcome {
        Ok(bytes) => RecordingModel {
            status: RecordingStatus::Completed,
            bytes,
            error: None,
            finished_at: Some(finished_at),
            ..m
        },
        Err(e) => RecordingModel {
            status: RecordingStatus::Failed,
            error: Some(e),
            finished_at: Some(finished_at),
            ..m
        },
    }
}

/// The browser reported its MIME type.
pub open spec fn mark_started_result(m: RecordingModel, session: Seq<char>) -> Result<(), RecordingError> {
    if m.native {
        Err(RecordingError::NativeRejectsMetadata)
    } else if m.session_id != Some(session) {
        Err(RecordingError::SessionMismatch)
    } else if accepts_browser_media(m.status) {
        Ok(())
    } else {
        Err(RecordingError::NotAcceptingMetadata)
    }
}

/// Whether a browser chunk is accepted.
pub open spec fn chunk_check(m: RecordingModel, session: Seq<char>) -> Result<(), RecordingError> {
    if m.native {
        Err(RecordingError::NativeRejectsChunks)
    } else if m.session_id != Some(session) {
        Err(RecordingError::SessionMismatch)
    } else if accepts_browser_media(m.status) {
        Ok(())
    } else {
        Err(RecordingError::NotAcceptingChunks)
    }
}

pub open spec fn saturating_add_u64(a: u64, b: u64) -> u64 {
    if a + b > u64::MAX {
        u64::MAX
    } else {
        (a + b) as u64
    }
}

/// Whether `complete` is accepted, and what it does first.
pub open spec fn complete_check(m: RecordingModel, session: Seq<char>) -> Result<(), RecordingError> {
    if m.native {
        Err(RecordingError::NativeFinalizedByStop)
    } else if m.session_id != Some(session) {
        Err(RecordingError::SessionMismatch)
    } else {
        Ok(())
    }
}

/// `complete` has nothing left to do in this state.
pub open spec fn complete_settled(s: RecordingStatus) -> bool {
    s == RecordingStatus::Completed || s == RecordingStatus::Finalizing
}

/// The state after an accepted `complete` that still has work to do.
pub open spec fn complete_begin_spec(m: RecordingModel, mime: Option<Seq<char>>) -> RecordingModel {
    RecordingModel {
        status: RecordingStatus::Finalizing,
        mime_type: match mime {
            Some(t) => Some(t),
            None => m.mime_type,
        },
        ..m
    }
}

/// The browser file was moved into place, or the move failed.
pub open spec fn complete_finish_spec(
    m: RecordingModel,
    outcome: Result<(), Seq<char>>,
    finished_at: Seq<char>,
) -> RecordingModel {
    match outcome {
        Ok(()) => RecordingModel {
            status: RecordingStatus::Completed,
            error: None,
            finished_at: Some(finished_at),
            ..m
        },
        Err(e) => fail_spec(m, e, finished_at),
    }
}

/// `fail` has nothing left to do in this state.
pub open spec fn fail_settled(s: RecordingStatus) -> bool {
    s == RecordingStatus::Completed || s == RecordingStatus::Failed
}

// ---------------------------------------------------------------------------
// The store
// ---------------------------------------------------------------------------

/// Owns the single recording and its state.
pub struct RecordingStore {
    paths: RecordingPaths,
    native: bool,
    next_id: u64,
    status: RecordingStatus,
    session_id: Option<String>,
    mime_type: Option<String>,
    bytes: u64,
    error: Option<String>,
    started_at: Option<String>,
    finished_at: Option<String>,
}

impl View for RecordingStore {
    type V = RecordingModel;

    closed spec fn view(&self) -> RecordingModel {
        RecordingModel {
            status: self.status,
            session_id: opt_str(self.session_id),
            mime_type: opt_str(self.mime_type),
            bytes: self.bytes,
            error: opt_str(self.error),
            started_at: opt_str(self.started_at),
            finished_at: opt_str(self.finished_at),
            native: self.native,
            next_id: self.next_id,
            output_stem: self.paths.output_stem@,
            partial: self.paths.partial@,
            native_partial: self.paths.native_partial@,
            final_mp4: self.paths.final_mp4@,
            final_webm: self.paths.final_webm@,
        }
    }
}

fn clone_opt(o: &Option<String>) -> (r: Option<String>)
    ensures
        opt_str(r) == opt_str(*o),
{
    match o {
        Some(s) => Some(s.clone()),
        None => None,
    }
}

fn opt_is(o: &Option<String>, s: &str) -> (r: bool)
    ensures
        r == (opt_str(*o) == Some(s@)),
{
    match o {
        Some(v) => str_eq(v.as_str(), s),
        None => false,
    }
}

fn opt_guard(o: &Option<String>, expected: Option<&str>) -> (r: bool)
    ensures
        r == guard_ok_raw(opt_str(*o), expected),
{
    match expected {
        Some(e) => opt_is(o, e),
        None => true,
    }
}

pub open spec fn opt_ref_str(o: Option<&str>) -> Option<Seq<char>> {
    match o {
        Some(s) => Some(s@),
        None => None,
    }
}

pub open spec fn guard_ok_raw(current: Option<Seq<char>>, expected: Option<&str>) -> bool {
    match expected {
        Some(e) => current == Some(e@),
        None => true,
    }
}

impl RecordingStore {
    /// A store with no session yet. `native` selects desktop capture by the
    /// server; otherwise the browser records and uploads chunks.
    pub fn with_native(paths: RecordingPaths, native: bool) -> (r: Self)
        ensures
            r@ == fresh_spec(paths, native),
    {
        RecordingStore {
            paths,
            native,
            next_id: 1,
            status: RecordingStatus::Idle,
            session_id: None,
            mime_type: None,
            bytes: 0,
            error: None,
            started_at: None,
            finished_at: None,
        }
    }

    /// A store whose browser bridge records.
    pub fn new(paths: RecordingPaths) -> (r: Self)
        ensures
            r@ == fresh_spec(paths, false),
    {
        Self::with_native(paths, false)
    }

    /// A store that captures the desktop natively.
    pub fn new_native(paths: RecordingPaths) -> (r: Self)
        ensures
            r@ == fresh_spec(paths, true),
    {
        Self::with_native(paths, true)
    }

    /// The files this store works with.
    pub fn paths(&self) -> (r: &RecordingPaths)
        ensures
            r.output_stem@ == self@.output_stem,
            r.partial@ == self@.partial,
            r.native_partial@ == self@.native_partial,
            r.final_mp4@ == self@.final_mp4,
            r.final_webm@ == self@.final_webm,
    {
        &self.paths
    }

    pub fn is_native(&self) -> (r: bool)
        ensures
            r == self@.native,
    {
        self.native
    }

    /// The fixed output file for a MIME type: MP4 when it starts with
    /// `video/mp4`, WebM otherwise.
    pub fn final_path(&self, mime_type: Option<&str>) -> (r: String)
        ensures
            r@ == final_path_spec(self@, opt_ref_str(mime_type)),
    {
        let mp4 = match mime_type {
            Some(m) => starts_with_str(m, "video/mp4"),
            None => false,
        };
        if mp4 {
            self.paths.final_mp4.clone()
        } else {
            self.paths.final_webm.clone()
        }
    }

    /// The current state, as agents see it.
    pub fn snapshot(&self) -> (r: RecordingSnapshot)
        ensures
            snapshot_of(r, self@),
    {
        let path = match &self.mime_type {
            Some(m) => self.final_path(Some(m.as_str())),
            None => self.final_path(None),
        };
        RecordingSnapshot {
            status: self.status,
            session_id: clone_opt(&self.session_id),
            path,
            download_url: String::from_str("/__rdesktop__/agent/recording/file"),
            mime_type: clone_opt(&self.mime_type),
            native: self.native,
            bytes: self.bytes,
            error: clone_opt(&self.error),
            started_at: clone_opt(&self.started_at),
            finished_at: clone_opt(&self.finished_at),
        }
    }

    /// Whether a start request reuses the running session.
    pub fn start_reuses(&self) -> (r: bool)
        ensures
            r == is_active(self@.status),
    {
        match self.status {
            RecordingStatus::Recording | RecordingStatus::StopRequested
            | RecordingStatus::Finalizing => true,
            _ => false,
        }
    }

    /// Begin a new session at `millis` (milliseconds since the Unix epoch),
    /// stamped `started_at`. The caller has prepared the directory and
    /// removed stale files; next it starts the native encoder or opens the
    /// partial file. The new session's snapshot is returned.
    pub fn begin(&mut self, millis: u64, started_at: String) -> (r: RecordingSnapshot)
        ensures
            final(self)@ == begin_spec(old(self)@, millis, started_at@),
            snapshot_of(r, final(self)@),
    {
        let mut id = String::new();
        push_decimal(&mut id, millis);
        id.push('-');
        push_decimal(&mut id, self.next_id);
        self.next_id = self.next_id.wrapping_add(1);
        self.status = RecordingStatus::Recording;
        self.session_id = Some(id);
        self.mime_type = if self.native {
            Some(String::from_str("video/mp4"))
        } else {
            None
        };
        self.bytes = 0;
        self.error = None;
        self.started_at = Some(started_at);
        self.finished_at = None;
        proof {
            assert(self@.session_id == Some(session_id_text(millis, old(self)@.next_id)));
            assert(self@ == begin_spec(old(self)@, millis, started_at@));
        }
        self.snapshot()
    }

    /// The native encoder could not start.
    pub fn start_failed(&mut self, error: String, finished_at: String) -> (r: RecordingSnapshot)
        ensures
            final(self)@ == fail_spec(old(self)@, error@, finished_at@),
            snapshot_of(r, final(self)@),
    {
        self.status = RecordingStatus::Failed;
        self.error = Some(error);
        self.finished_at = Some(finished_at);
        self.snapshot()
    }

    /// Ask a browser recording to stop. With a session guard that does not
    /// name the current session, nothing changes and the request is refused.
    pub fn request_stop(&mut self, session_id: Option<&str>) -> (r: Result<RecordingSnapshot, RecordingError>)
        ensures
            guard_ok(old(self)@, opt_ref_str(session_id)) ==> {
                &&& final(self)@ == request_stop_spec(old(self)@)
                &&& r matches Ok(s) && snapshot_of(s, final(self)@)
            },
            !guard_ok(old(self)@, opt_ref_str(session_id)) ==> {
                &&& final(self)@ == old(self)@
                &&& r == Err::<RecordingSnapshot, RecordingError>(RecordingError::SessionMismatch)
            },
    {
        if !opt_guard(&self.session_id, session_id) {
            return Err(RecordingError::SessionMismatch);
        }
        if self.status == RecordingStatus::Recording {
            self.status = RecordingStatus::StopRequested;
        }
        Ok(self.snapshot())
    }

    /// Stop the recording. A browser recording is asked to stop; a native one
    /// is marked finalizing, and `Ok(None)` tells the caller to finalize the
    /// encoder and report back through [`RecordingStore::stop_finish`].
    /// `Ok(Some(snapshot))` means there is nothing more to do.
    pub fn stop_begin(&mut self, session_id: Option<&str>) -> (r: Result<Option<RecordingSnapshot>, RecordingError>)
        ensures
            guard_ok(old(self)@, opt_ref_str(session_id)) ==> {
                &&& final(self)@ == stop_begin_spec(old(self)@)
                &&& r matches Ok(o) && (o is None <==> stop_needs_finalize(old(self)@))
                &&& r matches Ok(Some(s)) ==> snapshot_of(s, final(self)@)
            },
            !guard_ok(old(self)@, opt_ref_str(session_id)) ==> {
                &&& final(self)@ == old(self)@
                &&& r == Err::<Option<RecordingSnapshot>, RecordingError>(RecordingError::SessionMismatch)
            },
    {
        if !self.native {
            return match self.request_stop(session_id) {
                Ok(s) => Ok(Some(s)),
                Err(e) => Err(e),
            };
        }
        if !opt_guard(&self.session_id, session_id) {
            return Err(RecordingError::SessionMismatch);
        }
        match self.status {
            RecordingStatus::Idle | RecordingStatus::Completed | RecordingStatus::Failed
            | RecordingStatus::Finalizing => Ok(Some(self.snapshot())),
            _ => {
                self.status = RecordingStatus::Finalizing;
                Ok(None)
            },
        }
    }

    /// The native encoder was finalized: `Ok` with the size of the finished
    /// file, or the error that stopped it.
    pub fn stop_finish(&mut self, outcome: Result<u64, String>, finished_at: String) -> (r: RecordingSnapshot)
        ensures
            final(self)@ == stop_finish_spec(
                old(self)@,
                match outcome {
                    Ok(b) => Ok(b),
                    Err(e) => Err(e@),
                },
                finished_at@,
            ),
            snapshot_of(r, final(self)@),
    {
        match outcome {
            Ok(bytes) => {
                self.status = RecordingStatus::Completed;
                self.bytes = bytes;
                self.error = None;
            },
            Err(e) => {
                self.status = RecordingStatus::Failed;
                self.error = Some(e);
            },
        }
        self.finished_at = Some(finished_at);
        self.snapshot()
    }

    /// The browser reports the MIME type its recorder chose.
    pub fn mark_started(&mut self, session_id: &str, mime_type: &str) -> (r: Result<(), RecordingError>)
        ensures
            r == mark_started_result(old(self)@, session_id@),
            r is Ok ==> final(self)@ == (RecordingModel { mime_type: Some(mime_type@), ..old(self)@ }),
            r is Err ==> final(self)@ == old(self)@,
    {
        if self.native {
            return Err(RecordingError::NativeRejectsMetadata);
        }
        if !opt_is(&self.session_id, session_id) {
            return Err(RecordingError::SessionMismatch);
        }
        match self.status {
            RecordingStatus::Recording | RecordingStatus::StopRequested => {
                self.mime_type = Some(String::from_str(mime_type));
                Ok(())
            },
            _ => Err(RecordingError::NotAcceptingMetadata),
        }
    }

    /// Whether a media chunk for `session_id` may be written now.
    pub fn check_chunk(&self, session_id: &str) -> (r: Result<(), RecordingError>)
        ensures
            r == chunk_check(self@, session_id@),
    {
        if self.native {
            return Err(RecordingError::NativeRejectsChunks);
        }
        if !opt_is(&self.session_id, session_id) {
            return Err(RecordingError::SessionMismatch);
        }
        match self.status {
            RecordingStatus::Recording | RecordingStatus::StopRequested => Ok(()),
            _ => Err(RecordingError::NotAcceptingChunks),
        }
    }

    /// A chunk of `len` bytes was written; returns the new total, which
    /// saturates at `u64::MAX`.
    pub fn add_bytes(&mut self, len: u64) -> (r: u64)
        ensures
            final(self)@ == (RecordingModel { bytes: saturating_add_u64(old(self)@.bytes, len), ..old(self)@ }),
            r == final(self)@.bytes,
    {
        self.bytes = self.bytes.saturating_add(len);
        self.bytes
    }

    /// The browser finished its upload. `Ok(None)` means the session is now
    /// finalizing and the caller should move the partial file to `final_path`
    /// of the returned MIME type and report through
    /// [`RecordingStore::complete_finish`]; `Ok(Some(snapshot))` means it was
    /// already finalizing or complete.
    pub fn complete_begin(&mut self, session_id: &str, mime_type: Option<&str>) -> (r: Result<Option<RecordingSnapshot>, RecordingError>)
        ensures
            complete_check(old(self)@, session_id@) is Err ==> {
                &&& final(self)@ == old(self)@
                &&& r == Err::<Option<RecordingSnapshot>, RecordingError>(
                    complete_check(old(self)@, session_id@)->Err_0,
                )
            },
            complete_check(old(self)@, session_id@) is Ok && complete_settled(old(self)@.status) ==> {
                &&& final(self)@ == old(self)@
                &&& r matches Ok(Some(s)) && snapshot_of(s, final(self)@)
            },
            complete_check(old(self)@, session_id@) is Ok && !complete_settled(old(self)@.status) ==> {
                &&& final(self)@ == complete_begin_spec(old(self)@, opt_ref_str(mime_type))
                &&& r == Ok::<Option<RecordingSnapshot>, RecordingError>(None)
            },
    {
        if self.native {
            return Err(RecordingError::NativeFinalizedByStop);
        }
        if !opt_is(&self.session_id, session_id) {
            return Err(RecordingError::SessionMismatch);
        }
        match self.status {
            RecordingStatus::Completed | RecordingStatus::Finalizing => {
                return Ok(Some(self.snapshot()));
            },
            _ => {},
        }
        match mime_type {
            Some(m) => {
                self.mime_type = Some(String::from_str(m));
            },
            None => {},
        }
        self.status = RecordingStatus::Finalizing;
        Ok(None)
    }

    /// The MIME type the finished browser file is stored under; empty when
    /// the browser never reported one.
    pub fn mime_type_or_empty(&self) -> (r: String)
        ensures
            r@ == match self@.mime_type {
                Some(m) => m,
                None => Seq::empty(),
            },
    {
        match &self.mime_type {
            Some(m) => m.clone(),
            None => String::new(),
        }
    }

    /// The partial browser file was moved to its final place, or not.
    pub fn complete_finish(&mut self, outcome: Result<(), String>, finished_at: String) -> (r: RecordingSnapshot)
        ensures
            final(self)@ == complete_finish_spec(
                old(self)@,
                match outcome {
                    Ok(()) => Ok(()),
                    Err(e) => Err(e@),
                },
                finished_at@,
            ),
            snapshot_of(r, final(self)@),
    {
        match outcome {
            Ok(()) => {
                self.status = RecordingStatus::Completed;
                self.error = None;
            },
            Err(e) => {
                self.status = RecordingStatus::Failed;
                self.error = Some(e);
            },
        }
        self.finished_at = Some(finished_at);
        self.snapshot()
    }

    /// The browser reports a failure. A finished session keeps its outcome.
    /// `Ok((snapshot, true))` means the session just failed and the caller
    /// should remove the partial and final files.
    pub fn fail(&mut self, session_id: &str, error: String, finished_at: String) -> (r: Result<(RecordingSnapshot, bool), RecordingError>)
        ensures
            old(self)@.session_id != Some(session_id@) ==> {
                &&& final(self)@ == old(self)@
                &&& r == Err::<(RecordingSnapshot, bool), RecordingError>(RecordingError::SessionMismatch)
            },
            old(self)@.session_id == Some(session_id@) && fail_settled(old(self)@.status) ==> {
                &&& final(self)@ == old(self)@
                &&& r matches Ok((s, removed)) && !removed && snapshot_of(s, final(self)@)
            },
            old(self)@.session_id == Some(session_id@) && !fail_settled(old(self)@.status) ==> {
                &&& final(self)@ == fail_spec(old(self)@, error@, finished_at@)
                &&& r matches Ok((s, removed)) && removed && snapshot_of(s, final(self)@)
            },
    {
        if !opt_is(&self.session_id, session_id) {
            return Err(RecordingError::SessionMismatch);
        }
        match self.status {
            RecordingStatus::Completed | RecordingStatus::Failed => {
                return Ok((self.snapshot(), false));
            },
            _ => {},
        }
        self.status = RecordingStatus::Failed;
        self.error = Some(error);
        self.finished_at = Some(finished_at);
        Ok((self.snapshot(), true))
    }
}

// ---------------------------------------------------------------------------
// Laws
// ---------------------------------------------------------------------------

/// Starting is a singleton: once a session has begun, every further start
/// request reuses it, until the session stops or fails.
pub proof fn lemma_started_session_is_reused(m: RecordingModel, millis: u64, started_at: Seq<char>)
    ensures
        is_active(begin_spec(m, millis, started_at).status),
        begin_spec(m, millis, started_at).session_id is Some,
{
}

/// Each session gets an identifier of its own: identifiers made from two
/// different counter values differ, whatever the clock said.
pub proof fn lemma_session_ids_are_unique(t1: u64, a: u64, t2: u64, b: u64)
    requires
        a != b,
    ensures
        session_id_text(t1, a) != session_id_text(t2, b),
{
    let d1 = decimal(t1 as nat);
    let e1 = decimal(a as nat);
    let d2 = decimal(t2 as nat);
    let e2 = decimal(b as nat);
    lemma_decimal_digits(t1 as nat);
    lemma_decimal_digits(a as nat);
    lemma_decimal_digits(t2 as nat);
    lemma_decimal_digits(b as nat);
    let s1 = session_id_text(t1, a);
    let s2 = session_id_text(t2, b);
    if s1 == s2 {
        let n = s1.len();
        assert(s1 == d1 + seq!['-'] + e1);
        assert(s2 == d2 + seq!['-'] + e2);
        if e1.len() == e2.len() {
            assert(e1 =~= s1.skip(n - e1.len()));
            assert(e2 =~= s2.skip(n - e2.len()));
            assert(digits_value(e1) == digits_value(e2));
        } else if e1.len() < e2.len() {
            let k = n - e1.len() - 1;
            assert(s1[k] == '-');
            assert(s2[k] == e2[k - d2.len() - 1]);
        } else {
            let k = n - e2.len() - 1;
            assert(s2[k] == '-');
            assert(s1[k] == e1[k - d1.len() - 1]);
        }
    }
}

/// The counter moves on with every session, so consecutive sessions never
/// share an identifier.
pub proof fn lemma_consecutive_sessions_differ(
    m: RecordingModel,
    t1: u64,
    s1: Seq<char>,
    t2: u64,
    s2: Seq<char>,
)
    ensures
        begin_spec(begin_spec(m, t1, s1), t2, s2).session_id != begin_spec(m, t1, s1).session_id,
{
    lemma_session_ids_are_unique(t1, m.next_id, t2, next_counter(m.next_id));
}

/// Stopping twice is the same as stopping once: the second request changes
/// nothing and asks for no further finalization.
pub proof fn lemma_stop_is_idempotent(m: RecordingModel, expected: Option<Seq<char>>)
    requires
        guard_ok(m, expected),
    ensures
        guard_ok(stop_begin_spec(m), expected),
        stop_begin_spec(stop_begin_spec(m)) == stop_begin_spec(m),
        !stop_needs_finalize(stop_begin_spec(m)),
{
}

/// Once a native recording is finalized, with success or not, a stop
/// request finds nothing to do.
pub proof fn lemma_stop_after_finish_is_settled(
    m: RecordingModel,
    outcome: Result<u64, Seq<char>>,
    finished_at: Seq<char>,
)
    ensures
        stop_begin_spec(stop_finish_spec(m, outcome, finished_at)) == stop_finish_spec(
            m,
            outcome,
            finished_at,
        ),
        !stop_needs_finalize(stop_finish_spec(m, outcome, finished_at)),
{
}

/// Completing a completed session changes nothing, so a repeated `complete`
/// reports the same session, status and file.
pub proof fn lemma_complete_is_idempotent(
    m: RecordingModel,
    mime: Option<Seq<char>>,
    finished_at: Seq<char>,
)
    ensures
        complete_settled(
            complete_finish_spec(complete_begin_spec(m, mime), Ok(()), finished_at).status,
        ),
        complete_finish_spec(complete_begin_spec(m, mime), Ok(()), finished_at).status
            == RecordingStatus::Completed,
        complete_finish_spec(complete_begin_spec(m, mime), Ok(()), finished_at).session_id
            == m.session_id,
{
}

/// A recording completed from the browser lands in the MP4 file exactly
/// when the browser's MIME type says MP4.
pub proof fn lemma_completed_file_follows_mime(
    m: RecordingModel,
    mime: Seq<char>,
    finished_at: Seq<char>,
)
    ensures
        ({
            let done = complete_finish_spec(complete_begin_spec(m, Some(mime)), Ok(()), finished_at);
            &&& done.mime_type == Some(mime)
            &&& final_path_spec(done, done.mime_type) == if has_prefix(mime, "video/mp4"@) {
                m.final_mp4
            } else {
                m.final_webm
            }
        }),
{
}

/// No transition but `begin` touches the session counter or the files.
pub proof fn lemma_only_begin_advances_counter(
    m: RecordingModel,
    e: Seq<char>,
    t: Seq<char>,
    bytes: u64,
    mime: Option<Seq<char>>,
)
    ensures
        fail_spec(m, e, t).next_id == m.next_id,
        request_stop_spec(m).next_id == m.next_id,
        stop_begin_spec(m).next_id == m.next_id,
        stop_finish_spec(m, Ok(bytes), t).next_id == m.next_id,
        stop_finish_spec(m, Err(e), t).next_id == m.next_id,
        complete_begin_spec(m, mime).next_id == m.next_id,
        complete_finish_spec(m, Ok(()), t).next_id == m.next_id,
        complete_finish_spec(m, Err(e), t).next_id == m.next_id,
        stop_begin_spec(m).final_mp4 == m.final_mp4,
        stop_begin_spec(m).final_webm == m.final_webm,
        stop_begin_spec(m).native == m.native,
{
}

/// The byte count never goes down while chunks arrive.
pub proof fn lemma_bytes_grow(total: u64, len: u64)
    ensures
        saturating_add_u64(total, len) >= total,
        total + len <= u64::MAX ==> saturating_add_u64(total, len) == total + len,
{
}

/// The frame rate handed to the native encoder: at least one frame per
/// second.
pub fn native_start_fps(fps: u32) -> (r: u32)
    ensures
        r == if fps < 1 {
            1
        } else {
            fps
        },
{
    if fps < 1 {
        1
    } else {
        fps
    }
}

} // verus!
