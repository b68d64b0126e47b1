//! One download attempt as a state machine. The driver performs the action that
//! it is told, and reports what came of it as the next event.
use crate::downloader::{
    ensure_downloaded_size_matches, ensure_success_status, resolve_total_size, DownloadRequest,
    DownloaderView, Downloads,
};
use crate::text::{clone_text, parse_number};
use vstd::prelude::*;

verus! {

/// What an attempt waits for.
#[derive(Clone, Copy, Debug, PartialEq, Eq, Structural)]
pub enum DownloadStage {
    CreatingClient,
    AwaitingHead,
    AwaitingResponse,
    OpeningFile,
    Reading,
    /// A chunk of this size is being written to the file.
    Writing(u64),
    /// The file is being flushed, after all data or after a cancel request.
    Flushing(bool),
    CheckingCancel,
    Handling,
    Stopped,
}

/// What happened to an attempt.
#[derive(Debug)]
pub enum DownloadEvent {
    /// A cancel request came while waiting for the network, or the entry of the
    /// attempt is gone.
    CancelSignal,
    ClientReady,
    /// The server answered the size request with success and, maybe, a length.
    HeadReply { content_length: Option<String> },
    HeadFailed,
    Response { status: u16 },
    /// The client could not be made, or the request not be sent.
    RequestFailed { error: String },
    RequestTimeout,
    /// The file operation that was asked for succeeded.
    FileReady,
    FileFailed { error: String },
    Chunk { bytes: Vec<u8> },
    StreamEnd,
    StreamFailed { error: String },
    StreamTimeout,
    /// Whether a cancel request is waiting.
    CancelChecked { requested: bool },
    HandlerDone { path: String },
    HandlerFailed { error: String },
}

/// What the driver does next.
#[derive(Debug)]
pub enum DownloadAction {
    CreateClient,
    SendHead,
    SendGet,
    OpenFile,
    ReadChunk,
    /// Write and flush the chunk of the event.
    WriteChunk,
    FlushFile,
    CheckCancel,
    RunHandler,
    /// The attempt is over. A file that is named is deleted; where a time is
    /// given, the entry is removed after it.
    Stop { remove_file: Option<String>, remove_entry_after: Option<u64> },
}

/// An action as a value.
pub enum ActionView {
    CreateClient,
    SendHead,
    SendGet,
    OpenFile,
    ReadChunk,
    WriteChunk,
    FlushFile,
    CheckCancel,
    RunHandler,
    Stop { remove_file: Option<Seq<char>>, remove_entry_after: Option<u64> },
}

impl View for DownloadAction {
    type V = ActionView;

    open spec fn view(&self) -> ActionView {
        match self {
            DownloadAction::CreateClient => ActionView::CreateClient,
            DownloadAction::SendHead => ActionView::SendHead,
            DownloadAction::SendGet => ActionView::SendGet,
            DownloadAction::OpenFile => ActionView::OpenFile,
            DownloadAction::ReadChunk => ActionView::ReadChunk,
            DownloadAction::WriteChunk => ActionView::WriteChunk,
            DownloadAction::FlushFile => ActionView::FlushFile,
            DownloadAction::CheckCancel => ActionView::CheckCancel,
            DownloadAction::RunHandler => ActionView::RunHandler,
            DownloadAction::Stop { remove_file, remove_entry_after } => ActionView::Stop {
                remove_file: crate::text::text_view(*remove_file),
                remove_entry_after: *remove_entry_after,
            },
        }
    }
}

/// A download attempt.
#[derive(Debug)]
pub struct DownloadJob {
    pub id: String,
    pub token: u64,
    pub path: Option<String>,
    pub signed_size: Option<u64>,
    pub auto_del_dur: Option<u64>,
    pub has_finish_handler: bool,
    pub total_size: Option<u64>,
    pub downloaded_size: u64,
    pub stage: DownloadStage,
}

/// An attempt as a value.
pub struct JobView {
    pub id: Seq<char>,
    pub token: u64,
    pub path: Option<Seq<char>>,
    pub signed_size: Option<u64>,
    pub auto_del_dur: Option<u64>,
    pub has_finish_handler: bool,
    pub total_size: Option<u64>,
    pub downloaded_size: u64,
    pub stage: DownloadStage,
}

impl View for DownloadJob {
    type V = JobView;

    open spec fn view(&self) -> JobView {
        JobView {
            id: self.id@,
            token: self.token,
            path: crate::text::text_view(self.path),
            signed_size: self.signed_size,
            auto_del_dur: self.auto_del_dur,
            has_finish_handler: self.has_finish_handler,
            total_size: self.total_size,
            downloaded_size: self.downloaded_size,
            stage: self.stage,
        }
    }
}

/// The attempt, the registry and the action after an event.
pub struct Step {
    pub job: JobView,
    pub downloads: Map<Seq<char>, DownloaderView>,
    pub action: ActionView,
}


/// Waiting for something else, with another action.
pub open spec fn go_on(
    job: JobView,
    m: Map<Seq<char>, DownloaderView>,
    stage: DownloadStage,
    action: ActionView,
) -> Step {
    Step { job: JobView { stage, ..job }, downloads: m, action }
}

/// The end of a failed attempt: the entry keeps the error, the file goes.
pub open spec fn stop_failed(
    job: JobView,
    m: Map<Seq<char>, DownloaderView>,
    error: Seq<char>,
) -> Step {
    let mine = crate::downloader::current(m, job.id, job.token);
    Step {
        job: JobView { stage: DownloadStage::Stopped, ..job },
        downloads: if mine {
            m.insert(job.id, crate::downloader::failed(m[job.id], error))
        } else {
            m
        },
        action: ActionView::Stop {
            remove_file: if mine {
                m[job.id].path
            } else {
                None
            },
            remove_entry_after: None,
        },
    }
}

/// The end of a cancelled attempt: entry and file go.
pub open spec fn stop_cancelled(job: JobView, m: Map<Seq<char>, DownloaderView>) -> Step {
    let mine = crate::downloader::current(m, job.id, job.token);
    Step {
        job: JobView { stage: DownloadStage::Stopped, ..job },
        downloads: if mine {
            m.remove(job.id)
        } else {
            m
        },
        action: ActionView::Stop {
            remove_file: if mine {
                m[job.id].path
            } else {
                None
            },
            remove_entry_after: None,
        },
    }
}

/// The end of a complete attempt.
pub open spec fn stop_complete(
    job: JobView,
    m: Map<Seq<char>, DownloaderView>,
    final_path: Option<Seq<char>>,
) -> Step {
    let mine = crate::downloader::current(m, job.id, job.token);
    Step {
        job: JobView { stage: DownloadStage::Stopped, ..job },
        downloads: if mine {
            m.insert(job.id, crate::downloader::finished(m[job.id], final_path))
        } else {
            m
        },
        action: ActionView::Stop {
            remove_file: None,
            remove_entry_after: if mine {
                job.auto_del_dur
            } else {
                None
            },
        },
    }
}

/// The size of the server is known, or could not be had.
pub open spec fn after_head(
    job: JobView,
    m: Map<Seq<char>, DownloaderView>,
    content_length: Option<u64>,
) -> Step {
    let total = crate::downloader::resolved_size(job.signed_size, content_length);
    let noted = if content_length is Some && job.signed_size is None && crate::downloader::current(
        m,
        job.id,
        job.token,
    ) {
        m.insert(job.id, DownloaderView { total_size: content_length, ..m[job.id] })
    } else {
        m
    };
    if total is None && job.path is None {
        stop_failed(
            job,
            noted,
            "Refusing in-memory download without a known size for "@ + job.id,
        )
    } else {
        go_on(
            JobView { total_size: total, ..job },
            noted,
            DownloadStage::AwaitingResponse,
            ActionView::SendGet,
        )
    }
}

/// Data arrived.
pub open spec fn after_chunk(
    job: JobView,
    m: Map<Seq<char>, DownloaderView>,
    bytes: Seq<u8>,
) -> Step {
    let next = job.downloaded_size + bytes.len();
    if next > u64::MAX {
        stop_failed(job, m, "Downloaded size overflow for "@ + job.id)
    } else if job.total_size matches Some(total) && next > total {
        stop_failed(job, m, crate::downloader::size_mismatch_text(job.id, job.total_size->0, next as u64))
    } else {
        let counted = JobView { downloaded_size: next as u64, ..job };
        if job.path is Some {
            go_on(
                counted,
                m,
                DownloadStage::Writing(bytes.len() as u64),
                ActionView::WriteChunk,
            )
        } else {
            go_on(
                counted,
                if crate::downloader::current(m, job.id, job.token) {
                    m.insert(job.id, crate::downloader::appended(m[job.id], bytes))
                } else {
                    m
                },
                DownloadStage::Reading,
                ActionView::ReadChunk,
            )
        }
    }
}

/// All data is stored.
pub open spec fn after_data(job: JobView, m: Map<Seq<char>, DownloaderView>) -> Step {
    if job.total_size matches Some(total) && total != job.downloaded_size {
        stop_failed(job, m, crate::downloader::size_mismatch_text(job.id, job.total_size->0, job.downloaded_size))
    } else {
        go_on(job, m, DownloadStage::CheckingCancel, ActionView::CheckCancel)
    }
}

/// No cancel request came in time: the data is put in place.
pub open spec fn after_check(job: JobView, m: Map<Seq<char>, DownloaderView>) -> Step {
    if !crate::downloader::current(m, job.id, job.token) {
        stop_cancelled(job, m)
    } else {
        let noted = m.insert(job.id, DownloaderView { finalizing: true, ..m[job.id] });
        if job.has_finish_handler {
            if job.path is Some {
                go_on(job, noted, DownloadStage::Handling, ActionView::RunHandler)
            } else {
                stop_failed(job, noted, "Download finish handler requires a file path"@)
            }
        } else {
            stop_complete(job, noted, None)
        }
    }
}

/// The events that a stage can meet.
pub open spec fn accepts(stage: DownloadStage, event: DownloadEvent) -> bool {
    match stage {
        DownloadStage::CreatingClient => event is CancelSignal || event is ClientReady
            || event is RequestFailed,
        DownloadStage::AwaitingHead => event is CancelSignal || event is HeadReply
            || event is HeadFailed,
        DownloadStage::AwaitingResponse => event is CancelSignal || (event matches
            DownloadEvent::Response { status } && 100 <= status <= 999) || event is RequestFailed
            || event is RequestTimeout,
        DownloadStage::OpeningFile => event is FileReady || event is FileFailed,
        DownloadStage::Reading => event is CancelSignal || event is Chunk || event is StreamEnd
            || event is StreamFailed || event is StreamTimeout,
        DownloadStage::Writing(_) => event is FileReady || event is FileFailed,
        DownloadStage::Flushing(_) => event is FileReady || event is FileFailed,
        DownloadStage::CheckingCancel => event is CancelChecked,
        DownloadStage::Handling => event is HandlerDone || event is HandlerFailed,
        DownloadStage::Stopped => false,
    }
}

/// What an event leads to.
pub open spec fn advanced(
    job: JobView,
    m: Map<Seq<char>, DownloaderView>,
    event: DownloadEvent,
) -> Step {
    match event {
        DownloadEvent::CancelSignal => if job.stage == DownloadStage::Reading && job.path is Some {
            go_on(job, m, DownloadStage::Flushing(false), ActionView::FlushFile)
        } else {
            stop_cancelled(job, m)
        },
        DownloadEvent::ClientReady => go_on(
            job,
            m,
            DownloadStage::AwaitingHead,
            ActionView::SendHead,
        ),
        DownloadEvent::HeadReply { content_length } => after_head(
            job,
            m,
            announced(crate::text::text_view(content_length)),
        ),
        DownloadEvent::HeadFailed => after_head(job, m, None),
        DownloadEvent::Response { status } => if 200 <= status < 300 {
            if job.path is Some {
                go_on(job, m, DownloadStage::OpeningFile, ActionView::OpenFile)
            } else {
                go_on(job, m, DownloadStage::Reading, ActionView::ReadChunk)
            }
        } else {
            stop_failed(job, m, "Failed to start download"@ + ": "@ + crate::downloader::status_text(status))
        },
        DownloadEvent::RequestFailed { error } => stop_failed(job, m, error@),
        DownloadEvent::RequestTimeout => stop_failed(job, m, "Timed out while starting download"@),
        DownloadEvent::FileReady => match job.stage {
            DownloadStage::Writing(size) => go_on(
                job,
                if crate::downloader::current(m, job.id, job.token) {
                    m.insert(job.id, crate::downloader::grown(m[job.id], size as int))
                } else {
                    m
                },
                DownloadStage::Reading,
                ActionView::ReadChunk,
            ),
            DownloadStage::Flushing(complete) => if complete {
                after_data(job, m)
            } else {
                stop_cancelled(job, m)
            },
            _ => go_on(job, m, DownloadStage::Reading, ActionView::ReadChunk),
        },
        DownloadEvent::FileFailed { error } => stop_failed(job, m, error@),
        DownloadEvent::Chunk { bytes } => after_chunk(job, m, bytes@),
        DownloadEvent::StreamEnd => if job.path is Some {
            go_on(job, m, DownloadStage::Flushing(true), ActionView::FlushFile)
        } else {
            after_data(job, m)
        },
        DownloadEvent::StreamFailed { error } => stop_failed(job, m, error@),
        DownloadEvent::StreamTimeout => stop_failed(
            job,
            m,
            "Timed out while reading download data"@,
        ),
        DownloadEvent::CancelChecked { requested } => if requested {
            stop_cancelled(job, m)
        } else {
            after_check(job, m)
        },
        DownloadEvent::HandlerDone { path } => stop_complete(job, m, Some(path@)),
        DownloadEvent::HandlerFailed { error } => stop_failed(job, m, error@),
    }
}

/// The length that a server announced, where it is a number.
pub open spec fn announced(content_length: Option<Seq<char>>) -> Option<u64> {
    match content_length {
        Some(text) => match crate::text::bounded_number(text, u64::MAX as nat) {
            Some(n) => Some(n as u64),
            None => None,
        },
        None => None,
    }
}

/// How much of what the attempt has counted its entry has not.
pub open spec fn pending(stage: DownloadStage) -> int {
    match stage {
        DownloadStage::Writing(size) => size as int,
        _ => 0,
    }
}

/// The attempt never takes more than the known size, and is past reading only
/// with exactly that size.
pub open spec fn sound(job: JobView) -> bool {
    &&& job.total_size matches Some(total) ==> job.downloaded_size <= total
    &&& job.stage is CheckingCancel || job.stage is Handling ==> (job.total_size matches Some(total)
        ==> job.downloaded_size == total)
    &&& pending(job.stage) <= job.downloaded_size
    &&& job.stage is CreatingClient || job.stage is AwaitingHead ==> job.downloaded_size == 0
}

/// The entry of a current attempt agrees with the attempt.
pub open spec fn in_step(job: JobView, m: Map<Seq<char>, DownloaderView>) -> bool {
    crate::downloader::current(m, job.id, job.token) && !(job.stage is Stopped) ==> {
        let d = m[job.id];
        &&& d.downloaded_size == job.downloaded_size - pending(job.stage)
        &&& d.path == job.path
        &&& !d.finished
        &&& d.error is None
        &&& job.path is None ==> d.data.len() == job.downloaded_size
    }
}

impl DownloadJob {
    /// The attempt for a request that was entered with this token.
    pub fn new(request: &DownloadRequest, token: u64) -> (r: (DownloadJob, DownloadAction))
        ensures
            r.0@ == (JobView {
                id: request.url@,
                token,
                path: crate::text::text_view(request.path),
                signed_size: request.signed_size,
                auto_del_dur: request.auto_del_dur,
                has_finish_handler: request.has_finish_handler,
                total_size: request.signed_size,
                downloaded_size: 0,
                stage: DownloadStage::CreatingClient,
            }),
            r.1@ == ActionView::CreateClient,
            sound(r.0@),
    {
        let job = DownloadJob {
            id: request.url.clone(),
            token,
            path: clone_text(&request.path),
            signed_size: request.signed_size,
            auto_del_dur: request.auto_del_dur,
            has_finish_handler: request.has_finish_handler,
            total_size: request.signed_size,
            downloaded_size: 0,
            stage: DownloadStage::CreatingClient,
        };
        (job, DownloadAction::CreateClient)
    }

    fn stop_failed(&mut self, downloads: &mut Downloads, error: String) -> (r: DownloadAction)
        ensures
            (Step { job: final(self)@, downloads: final(downloads)@, action: r@ }) == stop_failed(
                old(self)@,
                old(downloads)@,
                error@,
            ),
            final(downloads).next() == old(downloads).next(),
    {
        self.stage = DownloadStage::Stopped;
        let outcome = downloads.fail_download(self.id.as_str(), self.token, error);
        DownloadAction::Stop { remove_file: outcome.remove_file, remove_entry_after: None }
    }

    fn stop_cancelled(&mut self, downloads: &mut Downloads) -> (r: DownloadAction)
        ensures
            (Step { job: final(self)@, downloads: final(downloads)@, action: r@ })
                == stop_cancelled(old(self)@, old(downloads)@),
            final(downloads).next() == old(downloads).next(),
    {
        self.stage = DownloadStage::Stopped;
        match downloads.take_downloader_if_token_matches(self.id.as_str(), self.token) {
            Some(d) => DownloadAction::Stop { remove_file: d.path, remove_entry_after: None },
            None => DownloadAction::Stop { remove_file: None, remove_entry_after: None },
        }
    }

    fn stop_complete(&mut self, downloads: &mut Downloads, final_path: Option<String>) -> (r:
        DownloadAction)
        ensures
            (Step { job: final(self)@, downloads: final(downloads)@, action: r@ })
                == stop_complete(old(self)@, old(downloads)@, crate::text::text_view(final_path)),
            final(downloads).next() == old(downloads).next(),
    {
        self.stage = DownloadStage::Stopped;
        let entered = downloads.finish_download(self.id.as_str(), self.token, final_path);
        let remove_entry_after = if entered {
            self.auto_del_dur
        } else {
            None
        };
        DownloadAction::Stop { remove_file: None, remove_entry_after }
    }

    fn after_head(&mut self, downloads: &mut Downloads, content_length: Option<u64>) -> (r:
        DownloadAction)
        ensures
            (Step { job: final(self)@, downloads: final(downloads)@, action: r@ }) == after_head(
                old(self)@,
                old(downloads)@,
                content_length,
            ),
            final(downloads).next() == old(downloads).next(),
    {
        if let Some(length) = content_length {
            if self.signed_size.is_none() {
                let _ = downloads.set_total_size(self.id.as_str(), self.token, length);
            }
        }
        match resolve_total_size(
            self.signed_size,
            content_length,
            &self.path,
            self.id.as_str(),
        ) {
            Ok(total) => {
                self.total_size = total;
                self.stage = DownloadStage::AwaitingResponse;
                DownloadAction::SendGet
            },
            Err(e) => self.stop_failed(downloads, e),
        }
    }

    fn after_chunk(&mut self, downloads: &mut Downloads, bytes: &Vec<u8>) -> (r: DownloadAction)
        requires
            old(self).stage is Reading,
            in_step(old(self)@, old(downloads)@),
        ensures
            (Step { job: final(self)@, downloads: final(downloads)@, action: r@ }) == after_chunk(
                old(self)@,
                old(downloads)@,
                bytes@,
            ),
            final(downloads).next() == old(downloads).next(),
    {
        let size: u64 = bytes.len() as u64;
        match self.downloaded_size.checked_add(size) {
            None => {
                let mut text: String = "Downloaded size overflow for ".to_owned();
                text.append(self.id.as_str());
                self.stop_failed(downloads, text)
            },
            Some(next) => {
                if let Some(total) = self.total_size {
                    if next > total {
                        if let Err(e) = ensure_downloaded_size_matches(
                            next,
                            total,
                            self.id.as_str(),
                        ) {
                            return self.stop_failed(downloads, e);
                        }
                    }
                }
                if self.path.is_some() {
                    self.downloaded_size = next;
                    self.stage = DownloadStage::Writing(size);
                    DownloadAction::WriteChunk
                } else {
                    let _ = downloads.append_data(self.id.as_str(), self.token, bytes);
                    self.downloaded_size = next;
                    self.stage = DownloadStage::Reading;
                    DownloadAction::ReadChunk
                }
            },
        }
    }

    fn after_data(&mut self, downloads: &mut Downloads) -> (r: DownloadAction)
        ensures
            (Step { job: final(self)@, downloads: final(downloads)@, action: r@ }) == after_data(
                old(self)@,
                old(downloads)@,
            ),
            final(downloads).next() == old(downloads).next(),
    {
        if let Some(total) = self.total_size {
            if let Err(e) = ensure_downloaded_size_matches(
                self.downloaded_size,
                total,
                self.id.as_str(),
            ) {
                return self.stop_failed(downloads, e);
            }
        }
        self.stage = DownloadStage::CheckingCancel;
        DownloadAction::CheckCancel
    }

    fn after_check(&mut self, downloads: &mut Downloads) -> (r: DownloadAction)
        ensures
            (Step { job: final(self)@, downloads: final(downloads)@, action: r@ }) == after_check(
                old(self)@,
                old(downloads)@,
            ),
            final(downloads).next() == old(downloads).next(),
    {
        if !downloads.set_download_finalizing(self.id.as_str(), self.token) {
            return self.stop_cancelled(downloads);
        }
        if self.has_finish_handler {
            if self.path.is_none() {
                return self.stop_failed(
                    downloads,
                    "Download finish handler requires a file path".to_owned(),
                );
            }
            self.stage = DownloadStage::Handling;
            DownloadAction::RunHandler
        } else {
            self.stop_complete(downloads, None)
        }
    }

    /// Takes an event and says what to do next.
    pub fn advance(&mut self, downloads: &mut Downloads, event: &DownloadEvent) -> (r:
        DownloadAction)
        requires
            accepts(old(self).stage, *event),
            in_step(old(self)@, old(downloads)@),
        ensures
            (Step { job: final(self)@, downloads: final(downloads)@, action: r@ }) == advanced(
                old(self)@,
                old(downloads)@,
                *event,
            ),
            final(downloads).next() == old(downloads).next(),
    {
        match event {
            DownloadEvent::CancelSignal => {
                if self.stage == DownloadStage::Reading && self.path.is_some() {
                    self.stage = DownloadStage::Flushing(false);
                    DownloadAction::FlushFile
                } else {
                    self.stop_cancelled(downloads)
                }
            },
            DownloadEvent::ClientReady => {
                self.stage = DownloadStage::AwaitingHead;
                DownloadAction::SendHead
            },
            DownloadEvent::HeadReply { content_length } => {
                let length: Option<u64> = match content_length {
                    Some(text) => parse_number(text.as_str(), u64::MAX),
                    None => None,
                };
                self.after_head(downloads, length)
            },
            DownloadEvent::HeadFailed => self.after_head(downloads, None),
            DownloadEvent::Response { status } => {
                match ensure_success_status(*status, "Failed to start download") {
                    Ok(()) => {
                        if self.path.is_some() {
                            self.stage = DownloadStage::OpeningFile;
                            DownloadAction::OpenFile
                        } else {
                            self.stage = DownloadStage::Reading;
                            DownloadAction::ReadChunk
                        }
                    },
                    Err(e) => self.stop_failed(downloads, e),
                }
            },
            DownloadEvent::RequestFailed { error } => self.stop_failed(downloads, error.clone()),
            DownloadEvent::RequestTimeout => self.stop_failed(
                downloads,
                "Timed out while starting download".to_owned(),
            ),
            DownloadEvent::FileReady => {
                match self.stage {
                    DownloadStage::Writing(size) => {
                        let _ = downloads.count_written(self.id.as_str(), self.token, size);
                        self.stage = DownloadStage::Reading;
                        DownloadAction::ReadChunk
                    },
                    DownloadStage::Flushing(complete) => {
                        if complete {
                            self.after_data(downloads)
                        } else {
                            self.stop_cancelled(downloads)
                        }
                    },
                    _ => {
                        self.stage = DownloadStage::Reading;
                        DownloadAction::ReadChunk
                    },
                }
            },
            DownloadEvent::FileFailed { error } => self.stop_failed(downloads, error.clone()),
            DownloadEvent::Chunk { bytes } => self.after_chunk(downloads, bytes),
            DownloadEvent::StreamEnd => {
                if self.path.is_some() {
                    self.stage = DownloadStage::Flushing(true);
                    DownloadAction::FlushFile
                } else {
                    self.after_data(downloads)
                }
            },
            DownloadEvent::StreamFailed { error } => self.stop_failed(downloads, error.clone()),
            DownloadEvent::StreamTimeout => self.stop_failed(
                downloads,
                "Timed out while reading download data".to_owned(),
            ),
            DownloadEvent::CancelChecked { requested } => {
                if *requested {
                    self.stop_cancelled(downloads)
                } else {
                    self.after_check(downloads)
                }
            },
            DownloadEvent::HandlerDone { path } => self.stop_complete(
                downloads,
                Some(path.clone()),
            ),
            DownloadEvent::HandlerFailed { error } => self.stop_failed(downloads, error.clone()),
        }
    }
}

/// A new attempt agrees with the entry that was made for it.
pub proof fn law_new_attempt_is_in_step(
    m: Map<Seq<char>, DownloaderView>,
    request: DownloadRequest,
    token: u64,
    job: JobView,
)
    requires
        job.id == request.url@,
        job.token == token,
        job.path == crate::text::text_view(request.path),
        job.downloaded_size == 0,
        job.stage == DownloadStage::CreatingClient,
    ensures
        in_step(job, m.insert(request.url@, crate::downloader::new_attempt(request, token))),
{
}

/// Each step keeps an attempt within the known size and in agreement with its
/// entry.
pub proof fn law_steps_keep_agreement(
    job: JobView,
    m: Map<Seq<char>, DownloaderView>,
    event: DownloadEvent,
)
    requires
        accepts(job.stage, event),
        sound(job),
        in_step(job, m),
    ensures
        sound(advanced(job, m, event).job),
        in_step(advanced(job, m, event).job, advanced(job, m, event).downloads),
{
}

/// A step of an attempt that lost its entry changes nothing in the registry,
/// and no step touches the entry of another download.
pub proof fn law_stale_attempts_change_nothing(
    job: JobView,
    m: Map<Seq<char>, DownloaderView>,
    event: DownloadEvent,
)
    requires
        accepts(job.stage, event),
    ensures
        !crate::downloader::current(m, job.id, job.token) ==> advanced(job, m, event).downloads == m,
        advanced(job, m, event).downloads.remove(job.id) == m.remove(job.id),
{
    assert(advanced(job, m, event).downloads.remove(job.id) =~= m.remove(job.id));
}

/// A step makes a download finished only when as much was downloaded as the
/// known size says.
pub proof fn law_finished_downloads_are_complete(
    job: JobView,
    m: Map<Seq<char>, DownloaderView>,
    event: DownloadEvent,
)
    requires
        accepts(job.stage, event),
        sound(job),
        in_step(job, m),
        crate::downloader::current(m, job.id, job.token),
        crate::downloader::current(advanced(job, m, event).downloads, job.id, job.token),
        advanced(job, m, event).downloads[job.id].finished,
    ensures
        job.total_size matches Some(total) ==> job.downloaded_size == total
            && advanced(job, m, event).downloads[job.id].downloaded_size == total,
{
}

/// An attempt that stops has one of three ends: its entry is gone and its file is to
/// be deleted, its entry keeps an error and its file is to be deleted, or its entry is
/// finished and its file stays.
pub proof fn law_three_ends(
    job: JobView,
    m: Map<Seq<char>, DownloaderView>,
    event: DownloadEvent,
)
    requires
        accepts(job.stage, event),
        in_step(job, m),
        crate::downloader::current(m, job.id, job.token),
        advanced(job, m, event).action is Stop,
    ensures
        ({
            let step = advanced(job, m, event);
            let gone = step.action->remove_file == job.path && step.action->remove_entry_after is None;
            ||| !step.downloads.contains_key(job.id) && gone
            ||| crate::downloader::current(step.downloads, job.id, job.token)
                && step.downloads[job.id].error is Some && !step.downloads[job.id].finished && gone
            ||| crate::downloader::current(step.downloads, job.id, job.token)
                && step.downloads[job.id].error is None && step.downloads[job.id].finished
                && step.action->remove_file is None && step.action->remove_entry_after
                == job.auto_del_dur
        }),
        event is CancelSignal ==> !advanced(job, m, event).downloads.contains_key(job.id),
{
}

/// What other callers do to the registry keeps an attempt in agreement: an entry
/// with a token of its own, or the removal of any entry.
pub proof fn law_other_callers_keep_agreement(
    job: JobView,
    m: Map<Seq<char>, DownloaderView>,
    id: Seq<char>,
    other: DownloaderView,
)
    requires
        in_step(job, m),
        other.token != job.token,
    ensures
        in_step(job, m.insert(id, other)),
        in_step(job, m.remove(id)),
{
}

/// A reported failure of a current attempt ends it: its entry keeps the reported text
/// and all that is known of it, is not finished, and its file is named for deletion.
pub proof fn law_reported_failures_are_kept(
    job: JobView,
    m: Map<Seq<char>, DownloaderView>,
    event: DownloadEvent,
    error: String,
)
    requires
        crate::downloader::current(m, job.id, job.token),
        event == (DownloadEvent::RequestFailed { error }) || event == (
        DownloadEvent::StreamFailed { error }) || event == (DownloadEvent::FileFailed { error })
            || event == (DownloadEvent::HandlerFailed { error }),
    ensures
        ({
            let step = advanced(job, m, event);
            let entry = step.downloads[job.id];
            &&& step.action == (ActionView::Stop {
                remove_file: m[job.id].path,
                remove_entry_after: None,
            })
            &&& step.job == (JobView { stage: DownloadStage::Stopped, ..job })
            &&& step.downloads.contains_key(job.id)
            &&& entry.error == Some(error@) && !entry.finished && !entry.finalizing
            &&& entry == (DownloaderView {
                error: Some(error@),
                finished: false,
                finalizing: false,
                ..m[job.id]
            })
        }),
{
}

/// Running out of time ends a current attempt as a failure does.
pub proof fn law_timeouts_are_failures(
    job: JobView,
    m: Map<Seq<char>, DownloaderView>,
    event: DownloadEvent,
)
    requires
        crate::downloader::current(m, job.id, job.token),
        event is RequestTimeout || event is StreamTimeout,
    ensures
        ({
            let step = advanced(job, m, event);
            &&& step.action == (ActionView::Stop {
                remove_file: m[job.id].path,
                remove_entry_after: None,
            })
            &&& step.job.stage == DownloadStage::Stopped
            &&& step.downloads[job.id].error == Some(
                if event is RequestTimeout {
                    "Timed out while starting download"@
                } else {
                    "Timed out while reading download data"@
                },
            )
            &&& !step.downloads[job.id].finished
        }),
{
}

/// An entry becomes finished only when the finish handler is done, or when no cancel
/// request came and there is no handler; and then it does.
pub proof fn law_what_finishes_a_download(
    job: JobView,
    m: Map<Seq<char>, DownloaderView>,
    event: DownloadEvent,
)
    requires
        accepts(job.stage, event),
        crate::downloader::current(m, job.id, job.token),
        !m[job.id].finished,
    ensures
        ({
            let step = advanced(job, m, event);
            let entry = step.downloads[job.id];
            let done = event is HandlerDone || (event == (DownloadEvent::CancelChecked {
                requested: false,
            }) && !job.has_finish_handler);
            &&& step.downloads.contains_key(job.id) && entry.finished <==> done
            &&& done ==> step.action == (ActionView::Stop {
                remove_file: None,
                remove_entry_after: job.auto_del_dur,
            }) && entry.data == m[job.id].data && entry.downloaded_size
                == m[job.id].downloaded_size && entry.total_size == m[job.id].total_size
                && entry.error == m[job.id].error && !entry.finalizing
            &&& event matches DownloadEvent::HandlerDone { path } ==> entry.path == Some(path@)
            &&& done && !(event is HandlerDone) ==> entry.path == m[job.id].path
        }),
{
}

/// A cancel request that comes in time takes the entry away and names its file for
/// deletion; one that comes while a file is read has the file flushed first.
pub proof fn law_cancelled_downloads_leave_nothing(
    job: JobView,
    m: Map<Seq<char>, DownloaderView>,
    event: DownloadEvent,
)
    requires
        accepts(job.stage, event),
        crate::downloader::current(m, job.id, job.token),
        event is CancelSignal || event == (DownloadEvent::CancelChecked { requested: true }) || (
        event is FileReady && job.stage == DownloadStage::Flushing(false)),
    ensures
        ({
            let step = advanced(job, m, event);
            if event is CancelSignal && job.stage == DownloadStage::Reading && job.path is Some {
                &&& step.downloads == m
                &&& step.action is FlushFile
                &&& step.job.stage == DownloadStage::Flushing(false)
            } else {
                &&& !step.downloads.contains_key(job.id)
                &&& step.action == (ActionView::Stop {
                    remove_file: m[job.id].path,
                    remove_entry_after: None,
                })
                &&& step.job.stage == DownloadStage::Stopped
            }
        }),
{
}

/// Data that fits is taken: in memory it is appended to what is there and counted at
/// once; for a file it is written first and counted when that is done.
pub proof fn law_data_is_stored_in_order(
    job: JobView,
    m: Map<Seq<char>, DownloaderView>,
    bytes: Vec<u8>,
)
    requires
        job.stage == DownloadStage::Reading,
        crate::downloader::current(m, job.id, job.token),
        in_step(job, m),
        job.downloaded_size + bytes@.len() <= u64::MAX,
        job.total_size matches Some(total) ==> job.downloaded_size + bytes@.len() <= total,
    ensures
        ({
            let step = advanced(job, m, DownloadEvent::Chunk { bytes });
            let entry = step.downloads[job.id];
            let size = (job.downloaded_size + bytes@.len()) as u64;
            let stored = advanced(step.job, step.downloads, DownloadEvent::FileReady);
            &&& step.job.downloaded_size == size
            &&& job.path is None ==> step.action is ReadChunk && step.job.stage
                == DownloadStage::Reading && entry.data == m[job.id].data + bytes@
                && entry.downloaded_size == size
            &&& job.path is Some ==> step.action is WriteChunk && step.downloads == m
                && stored.action is ReadChunk && stored.job.stage == DownloadStage::Reading
                && stored.downloads[job.id].downloaded_size == size && stored.downloads[job.id].data
                == m[job.id].data
        }),
{
}

/// More data than the known size, or less at the end, ends the attempt with an error
/// that tells both sizes.
pub proof fn law_wrong_sizes_are_refused(
    job: JobView,
    m: Map<Seq<char>, DownloaderView>,
    event: DownloadEvent,
    total: u64,
    got: u64,
)
    requires
        crate::downloader::current(m, job.id, job.token),
        accepts(job.stage, event),
        job.total_size == Some(total),
        match event {
            DownloadEvent::Chunk { bytes } => got == job.downloaded_size + bytes@.len() && got
                > total,
            DownloadEvent::StreamEnd => job.path is None && got == job.downloaded_size && got
                != total,
            DownloadEvent::FileReady => job.stage == DownloadStage::Flushing(true) && got
                == job.downloaded_size && got != total,
            _ => false,
        },
    ensures
        ({
            let step = advanced(job, m, event);
            &&& step.job.stage == DownloadStage::Stopped
            &&& step.downloads[job.id].error == Some(
                "Downloaded size mismatch for "@ + job.id + ": expected "@ + crate::text::decimal(
                    total as nat,
                ) + ", got "@ + crate::text::decimal(got as nat),
            )
            &&& !step.downloads[job.id].finished
            &&& step.action->remove_file == m[job.id].path
        }),
{
}

/// Once all data is there and has the known size, a cancel request is looked for
/// before anything else; a file is flushed before that.
pub proof fn law_complete_data_is_checked_for_cancelling(
    job: JobView,
    m: Map<Seq<char>, DownloaderView>,
)
    requires
        job.total_size matches Some(total) ==> job.downloaded_size == total,
    ensures
        ({
            let ended = advanced(job, m, DownloadEvent::StreamEnd);
            let flushed = advanced(ended.job, m, DownloadEvent::FileReady);
            &&& ended.downloads == m && ended.job.downloaded_size == job.downloaded_size
            &&& job.path is None ==> ended.action is CheckCancel && ended.job.stage
                == DownloadStage::CheckingCancel
            &&& job.path is Some ==> ended.action is FlushFile && flushed.action is CheckCancel
                && flushed.downloads == m && flushed.job.stage == DownloadStage::CheckingCancel
        }),
{
}

/// With a finish handler, data that was not cancelled is handed to it, and the entry
/// says so; without a file there is nothing to hand over, and the attempt fails.
pub proof fn law_handler_gets_complete_data(job: JobView, m: Map<Seq<char>, DownloaderView>)
    requires
        crate::downloader::current(m, job.id, job.token),
        job.has_finish_handler,
    ensures
        ({
            let step = advanced(job, m, DownloadEvent::CancelChecked { requested: false });
            let entry = step.downloads[job.id];
            &&& job.path is Some ==> step.action is RunHandler && step.job.stage
                == DownloadStage::Handling && entry == (DownloaderView {
                finalizing: true,
                ..m[job.id]
            })
            &&& job.path is None ==> step.action is Stop && !entry.finished && entry.error == Some(
                "Download finish handler requires a file path"@,
            )
        }),
{
}

/// The way of an attempt to its data: the size is asked for first, then the data; a
/// file is opened before it is read into.
pub proof fn law_requests_come_in_order(
    job: JobView,
    m: Map<Seq<char>, DownloaderView>,
    status: u16,
)
    requires
        crate::downloader::current(m, job.id, job.token),
    ensures
        ({
            let ready = advanced(job, m, DownloadEvent::ClientReady);
            &&& ready.action is SendHead && ready.job.stage == DownloadStage::AwaitingHead
                && ready.downloads == m
        }),
        ({
            let step = advanced(job, m, DownloadEvent::Response { status });
            let good = 200 <= status <= 299;
            &&& good && job.path is Some ==> step.action is OpenFile && step.job.stage
                == DownloadStage::OpeningFile && step.downloads == m
            &&& good && job.path is None ==> step.action is ReadChunk && step.job.stage
                == DownloadStage::Reading && step.downloads == m
            &&& !good ==> step.action is Stop && !step.downloads[job.id].finished
                && step.downloads[job.id].error == Some(
                "Failed to start download: "@ + crate::downloader::status_text(status),
            )
        }),
        job.stage == DownloadStage::OpeningFile ==> ({
            let step = advanced(job, m, DownloadEvent::FileReady);
            &&& step.action is ReadChunk && step.job.stage == DownloadStage::Reading
                && step.downloads == m
        }),
{
    reveal_strlit("Failed to start download");
    reveal_strlit(": ");
    reveal_strlit("Failed to start download: ");
    assert("Failed to start download"@ + ": "@ =~= "Failed to start download: "@);
}

/// A signed size holds whatever the server announces; without one, the announced size
/// holds and is noted. Without either, only a download into a file goes on.
pub proof fn law_signed_size_comes_before_the_announced(
    job: JobView,
    m: Map<Seq<char>, DownloaderView>,
    event: DownloadEvent,
)
    requires
        crate::downloader::current(m, job.id, job.token),
        event is HeadReply || event is HeadFailed,
    ensures
        ({
            let step = advanced(job, m, event);
            let told = match event {
                DownloadEvent::HeadReply { content_length } => announced(
                    crate::text::text_view(content_length),
                ),
                _ => None,
            };
            &&& job.signed_size is Some ==> step.action is SendGet && step.job.total_size
                == job.signed_size && step.downloads == m
            &&& job.signed_size is None && told is Some ==> step.action is SendGet
                && step.job.total_size == told && step.downloads[job.id] == (DownloaderView {
                total_size: told,
                ..m[job.id]
            })
            &&& job.signed_size is None && told is None && job.path is Some ==> step.action
                is SendGet && step.job.total_size is None && step.downloads == m
            &&& job.signed_size is None && told is None && job.path is None ==> step.action is Stop
                && !step.downloads[job.id].finished && step.downloads[job.id].error == Some(
                "Refusing in-memory download without a known size for "@ + job.id,
            )
        }),
{
}

/// A length that a server announces is read as it is written in decimal digits; a
/// missing one is none.
pub proof fn law_announced_length_is_read(n: u64)
    ensures
        announced(Some(crate::text::decimal(n as nat))) == Some(n),
        announced(None) is None,
{
    crate::text::law_decimal_round_trip(n as nat);
}

/// A download into memory that finishes is handed out, with exactly the data that was
/// stored.
pub proof fn law_finished_data_is_handed_out(job: JobView, m: Map<Seq<char>, DownloaderView>)
    requires
        crate::downloader::current(m, job.id, job.token),
        job.stage == DownloadStage::CheckingCancel,
        sound(job),
        in_step(job, m),
        job.path is None,
        !job.has_finish_handler,
        m[job.id].total_size == job.total_size,
    ensures
        ({
            let entry = advanced(
                job,
                m,
                DownloadEvent::CancelChecked { requested: false },
            ).downloads[job.id];
            &&& crate::downloader::hands_out_data(entry)
            &&& entry.data == m[job.id].data && entry.data.len() == job.downloaded_size
        }),
{
}

/// Where each event can be met: a cancellation wherever something is awaited from the
/// server, an answer only where it is awaited, and a result of the file only where the
/// file is at work. A download that has stopped meets nothing.
pub proof fn law_where_events_are_met(stage: DownloadStage, event: DownloadEvent)
    ensures
        accepts(stage, event) <==> match event {
            DownloadEvent::CancelSignal => stage == DownloadStage::CreatingClient || stage
                == DownloadStage::AwaitingHead || stage == DownloadStage::AwaitingResponse || stage
                == DownloadStage::Reading,
            DownloadEvent::ClientReady => stage == DownloadStage::CreatingClient,
            DownloadEvent::HeadReply { .. } => stage == DownloadStage::AwaitingHead,
            DownloadEvent::HeadFailed => stage == DownloadStage::AwaitingHead,
            DownloadEvent::Response { status } => stage == DownloadStage::AwaitingResponse && 100
                <= status && status < 1000,
            DownloadEvent::RequestFailed { .. } => stage == DownloadStage::CreatingClient || stage
                == DownloadStage::AwaitingResponse,
            DownloadEvent::RequestTimeout => stage == DownloadStage::AwaitingResponse,
            DownloadEvent::FileReady => stage == DownloadStage::OpeningFile || stage is Writing
                || stage is Flushing,
            DownloadEvent::FileFailed { .. } => stage == DownloadStage::OpeningFile || stage is Writing
                || stage is Flushing,
            DownloadEvent::CancelChecked { .. } => stage == DownloadStage::CheckingCancel,
            DownloadEvent::HandlerDone { .. } => stage == DownloadStage::Handling,
            DownloadEvent::HandlerFailed { .. } => stage == DownloadStage::Handling,
            _ => stage == DownloadStage::Reading,
        },
{
}

} // verus!
