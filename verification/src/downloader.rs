//! The registry of downloads. Downloads are identified by their URL, which may be
//! reused after a cancelled or failed attempt; a token tells the attempts apart,
//! so that a worker that was left behind cannot change a later one.
//!
//! Paths are compared name by name; durations are in milliseconds.
use crate::file_path::same_optional_path;
use crate::text::{clone_text, decimal_text};
use crate::text_map::TextMap;
use vstd::prelude::*;

verus! {

/// One download.
#[derive(Debug)]
pub struct Downloader {
    pub token: u64,
    pub data: Vec<u8>,
    pub path: Option<String>,
    /// The size, where it is known; a file may be empty.
    pub total_size: Option<u64>,
    pub signed_size: Option<u64>,
    pub auto_del_dur: Option<u64>,
    pub has_finish_handler: bool,
    pub downloaded_size: u64,
    pub error: Option<String>,
    pub finished: bool,
    pub finalizing: bool,
}

/// What a download is, as a value.
#[verifier::ext_equal]
pub struct DownloaderView {
    pub token: u64,
    pub data: Seq<u8>,
    pub path: Option<Seq<char>>,
    pub total_size: Option<u64>,
    pub signed_size: Option<u64>,
    pub auto_del_dur: Option<u64>,
    pub has_finish_handler: bool,
    pub downloaded_size: u64,
    pub error: Option<Seq<char>>,
    pub finished: bool,
    pub finalizing: bool,
}

impl View for Downloader {
    type V = DownloaderView;

    open spec fn view(&self) -> DownloaderView {
        DownloaderView {
            token: self.token,
            data: self.data@,
            path: crate::text::text_view(self.path),
            total_size: self.total_size,
            signed_size: self.signed_size,
            auto_del_dur: self.auto_del_dur,
            has_finish_handler: self.has_finish_handler,
            downloaded_size: self.downloaded_size,
            error: crate::text::text_view(self.error),
            finished: self.finished,
            finalizing: self.finalizing,
        }
    }
}

/// All downloads, by their id.
pub struct Downloads {
    entries: TextMap<Downloader>,
    next_token: u64,
}

impl View for Downloads {
    type V = Map<Seq<char>, DownloaderView>;

    closed spec fn view(&self) -> Map<Seq<char>, DownloaderView> {
        self.entries@.map_values(|d: Downloader| d@)
    }
}

/// The entry of `id` belongs to the attempt with this token.
pub open spec fn current(m: Map<Seq<char>, DownloaderView>, id: Seq<char>, token: u64) -> bool {
    m.contains_key(id) && m[id].token == token
}

impl Downloads {
    #[verifier::type_invariant]
    spec fn wf(self) -> bool {
        forall|id: Seq<char>| #[trigger]
            self.entries@.contains_key(id) ==> self.entries@[id].token < self.next_token
    }

    /// The token that the next attempt gets.
    pub closed spec fn next(&self) -> u64 {
        self.next_token
    }

    /// A registry without downloads.
    pub fn new() -> (r: Self)
        ensures
            r@ == Map::<Seq<char>, DownloaderView>::empty(),
            r.next() == 1,
    {
        let r = Downloads { entries: TextMap::new(), next_token: 1 };
        assert(r@ =~= Map::<Seq<char>, DownloaderView>::empty());
        r
    }

    /// Gives out a token that no attempt had before.
    pub fn next_downloader_token(&mut self) -> (r: u64)
        requires
            old(self).next() < u64::MAX,
        ensures
            r == old(self).next(),
            final(self).next() == r + 1,
            final(self)@ == old(self)@,
            forall|id: Seq<char>| #[trigger]
                old(self)@.contains_key(id) ==> old(self)@[id].token < r,
    {
        proof {
            use_type_invariant(&*self);
        }
        let token: u64 = self.next_token;
        self.next_token = token + 1;
        token
    }

    /// The download of `id`.
    pub fn get(&self, id: &str) -> (r: Option<&Downloader>)
        ensures
            match r {
                Some(d) => self@.contains_key(id@) && d@ == self@[id@],
                None => !self@.contains_key(id@),
            },
    {
        self.entries.get(id)
    }

    /// Puts a download in place of whatever `id` had.
    pub fn insert(&mut self, id: &str, downloader: Downloader)
        requires
            downloader.token < old(self).next(),
        ensures
            final(self)@ == old(self)@.insert(id@, downloader@),
            final(self).next() == old(self).next(),
    {
        proof {
            use_type_invariant(&*self);
        }
        let mut entries: TextMap<Downloader> = TextMap::new();
        std::mem::swap(&mut entries, &mut self.entries);
        entries.insert(id, downloader);
        self.entries = entries;
        assert(self@ =~= old(self)@.insert(id@, downloader@));
    }

    /// Takes a download out.
    pub fn take(&mut self, id: &str) -> (r: Option<Downloader>)
        ensures
            final(self)@ == old(self)@.remove(id@),
            final(self).next() == old(self).next(),
            match r {
                Some(d) => old(self)@.contains_key(id@) && d@ == old(self)@[id@] && d.token
                    < old(self).next(),
                None => !old(self)@.contains_key(id@),
            },
    {
        proof {
            use_type_invariant(&*self);
        }
        let mut entries: TextMap<Downloader> = TextMap::new();
        std::mem::swap(&mut entries, &mut self.entries);
        let taken = entries.remove(id);
        self.entries = entries;
        assert(self@ =~= old(self)@.remove(id@));
        taken
    }

    /// Takes the download out if it belongs to the attempt with this token.
    pub fn take_downloader_if_token_matches(&mut self, id: &str, token: u64) -> (r: Option<
        Downloader,
    >)
        ensures
            final(self).next() == old(self).next(),
            match r {
                Some(d) => current(old(self)@, id@, token) && d@ == old(self)@[id@]
                    && final(self)@ == old(self)@.remove(id@) && d.token < old(self).next(),
                None => !current(old(self)@, id@, token) && final(self)@ == old(self)@,
            },
    {
        let matching = match self.get(id) {
            Some(d) => d.token == token,
            None => false,
        };
        if !matching {
            return None;
        }
        self.take(id)
    }

    /// Removes the download if it belongs to the attempt with this token.
    pub fn remove_downloader_if_token_matches(&mut self, id: &str, token: u64)
        ensures
            final(self).next() == old(self).next(),
            final(self)@ == (if current(old(self)@, id@, token) {
                old(self)@.remove(id@)
            } else {
                old(self)@
            }),
    {
        let _ = self.take_downloader_if_token_matches(id, token);
    }

    /// Notes that the data of a download is complete and being put in place.
    pub fn set_download_finalizing(&mut self, id: &str, token: u64) -> (r: bool)
        ensures
            final(self).next() == old(self).next(),
            r == current(old(self)@, id@, token),
            final(self)@ == (if r {
                old(self)@.insert(
                    id@,
                    (DownloaderView { finalizing: true, ..old(self)@[id@] }),
                )
            } else {
                old(self)@
            }),
    {
        match self.take_downloader_if_token_matches(id, token) {
            Some(mut d) => {
                d.finalizing = true;
                self.insert(id, d);
                assert(self@ =~= old(self)@.insert(
                    id@,
                    (DownloaderView { finalizing: true, ..old(self)@[id@] }),
                ));
                true
            },
            None => false,
        }
    }

    /// Notes that a download is in place, under another path if one is given.
    pub fn finish_download(&mut self, id: &str, token: u64, final_path: Option<String>) -> (r: bool)
        ensures
            final(self).next() == old(self).next(),
            r == current(old(self)@, id@, token),
            final(self)@ == (if r {
                old(self)@.insert(id@, finished(old(self)@[id@], crate::text::text_view(final_path)))
            } else {
                old(self)@
            }),
    {
        match self.take_downloader_if_token_matches(id, token) {
            Some(mut d) => {
                if final_path.is_some() {
                    d.path = final_path;
                }
                d.finalizing = false;
                d.finished = true;
                self.insert(id, d);
                assert(self@ =~= old(self)@.insert(
                    id@,
                    finished(old(self)@[id@], crate::text::text_view(final_path)),
                ));
                true
            },
            None => false,
        }
    }

    /// Notes that a download failed. The caller deletes the file that is named.
    pub fn fail_download(&mut self, id: &str, token: u64, error: String) -> (r: FailedDownload)
        ensures
            final(self).next() == old(self).next(),
            r.recorded == current(old(self)@, id@, token),
            crate::text::text_view(r.remove_file) == (if r.recorded {
                old(self)@[id@].path
            } else {
                None
            }),
            final(self)@ == (if r.recorded {
                old(self)@.insert(id@, failed(old(self)@[id@], error@))
            } else {
                old(self)@
            }),
    {
        match self.take_downloader_if_token_matches(id, token) {
            Some(mut d) => {
                let remove_file = clone_text(&d.path);
                d.finalizing = false;
                d.finished = false;
                d.error = Some(error);
                self.insert(id, d);
                assert(self@ =~= old(self)@.insert(id@, failed(old(self)@[id@], error@)));
                FailedDownload { recorded: true, remove_file }
            },
            None => FailedDownload { recorded: false, remove_file: None },
        }
    }

    /// Notes the size that the server announced.
    pub fn set_total_size(&mut self, id: &str, token: u64, total_size: u64) -> (r: bool)
        ensures
            final(self).next() == old(self).next(),
            r == current(old(self)@, id@, token),
            final(self)@ == (if r {
                old(self)@.insert(
                    id@,
                    (DownloaderView { total_size: Some(total_size), ..old(self)@[id@] }),
                )
            } else {
                old(self)@
            }),
    {
        match self.take_downloader_if_token_matches(id, token) {
            Some(mut d) => {
                d.total_size = Some(total_size);
                self.insert(id, d);
                assert(self@ =~= old(self)@.insert(
                    id@,
                    (DownloaderView { total_size: Some(total_size), ..old(self)@[id@] }),
                ));
                true
            },
            None => false,
        }
    }

    /// Counts data that was written to a file.
    pub fn count_written(&mut self, id: &str, token: u64, size: u64) -> (r: bool)
        requires
            current(old(self)@, id@, token) ==> old(self)@[id@].downloaded_size + size <= u64::MAX,
        ensures
            final(self).next() == old(self).next(),
            r == current(old(self)@, id@, token),
            final(self)@ == (if r {
                old(self)@.insert(id@, grown(old(self)@[id@], size as int))
            } else {
                old(self)@
            }),
    {
        match self.take_downloader_if_token_matches(id, token) {
            Some(mut d) => {
                d.downloaded_size = d.downloaded_size + size;
                self.insert(id, d);
                assert(self@ =~= old(self)@.insert(id@, grown(old(self)@[id@], size as int)));
                true
            },
            None => false,
        }
    }

    /// Keeps data of a download that stays in memory.
    pub fn append_data(&mut self, id: &str, token: u64, chunk: &Vec<u8>) -> (r: bool)
        requires
            current(old(self)@, id@, token) ==> old(self)@[id@].downloaded_size + chunk@.len()
                <= u64::MAX,
        ensures
            final(self).next() == old(self).next(),
            r == current(old(self)@, id@, token),
            final(self)@ == (if r {
                old(self)@.insert(id@, appended(old(self)@[id@], chunk@))
            } else {
                old(self)@
            }),
    {
        match self.take_downloader_if_token_matches(id, token) {
            Some(mut d) => {
                let ghost before = d@;
                d.downloaded_size = d.downloaded_size + chunk.len() as u64;
                d.data.extend_from_slice(chunk.as_slice());
                assert(d.data@ =~= before.data + chunk@);
                self.insert(id, d);
                assert(self@ =~= old(self)@.insert(id@, appended(old(self)@[id@], chunk@)));
                true
            },
            None => false,
        }
    }
}

/// A finished download.
pub open spec fn finished(d: DownloaderView, final_path: Option<Seq<char>>) -> DownloaderView {
    DownloaderView {
        path: if final_path is Some {
            final_path
        } else {
            d.path
        },
        finalizing: false,
        finished: true,
        ..d
    }
}

/// A failed download.
pub open spec fn failed(d: DownloaderView, error: Seq<char>) -> DownloaderView {
    DownloaderView { finalizing: false, finished: false, error: Some(error), ..d }
}

/// A download of which more is stored.
pub open spec fn grown(d: DownloaderView, size: int) -> DownloaderView {
    DownloaderView { downloaded_size: (d.downloaded_size + size) as u64, ..d }
}

/// A download of which more is in memory.
pub open spec fn appended(d: DownloaderView, chunk: Seq<u8>) -> DownloaderView {
    DownloaderView { data: d.data + chunk, ..grown(d, chunk.len() as int) }
}

/// What to do about a failed download.
#[derive(Debug)]
pub struct FailedDownload {
    /// Whether the attempt was still the current one.
    pub recorded: bool,
    /// The partial file to delete.
    pub remove_file: Option<String>,
}

/// What `reqwest::StatusCode` prints.
pub uninterp spec fn status_text(code: u16) -> Seq<char>;

/// `reqwest::StatusCode` prints the code, a space and the reason phrase. The
/// phrase is only named.
#[verifier::external_body]
fn status_display(code: u16) -> (r: String)
    requires
        100 <= code <= 999,
    ensures
        r@ == status_text(code),
        (crate::text::decimal(code as nat) + " "@).is_prefix_of(r@),
{
    match reqwest::StatusCode::from_u16(code) {
        Ok(status) => status.to_string(),
        Err(error) => error.to_string(),
    }
}

/// Accepts the success statuses.
pub fn ensure_success_status(status: u16, context: &str) -> (r: Result<(), String>)
    requires
        100 <= status <= 999,
    ensures
        r is Ok <==> 200 <= status < 300,
        r matches Err(e) ==> e@ == context@ + ": "@ + status_text(status),
{
    if 200 <= status && status < 300 {
        return Ok(());
    }
    let mut text: String = context.to_owned();
    text.append(": ");
    let shown = status_display(status);
    text.append(shown.as_str());
    Err(text)
}

/// The complaint about a wrong size.
pub open spec fn size_mismatch_text(url: Seq<char>, expected: u64, got: u64) -> Seq<char> {
    "Downloaded size mismatch for "@ + url + ": expected "@ + crate::text::decimal(expected as nat) + ", got "@
        + crate::text::decimal(got as nat)
}

/// Accepts a download of exactly the expected size.
pub fn ensure_downloaded_size_matches(downloaded_size: u64, total_size: u64, url: &str) -> (r:
    Result<(), String>)
    ensures
        r is Ok <==> downloaded_size == total_size,
        r matches Err(e) ==> e@ == size_mismatch_text(url@, total_size, downloaded_size),
{
    if downloaded_size == total_size {
        return Ok(());
    }
    let mut text: String = "Downloaded size mismatch for ".to_owned();
    text.append(url);
    text.append(": expected ");
    let expected = decimal_text(total_size);
    text.append(expected.as_str());
    text.append(", got ");
    let got = decimal_text(downloaded_size);
    text.append(got.as_str());
    Err(text)
}

/// The size to hold a download to: the signed one, else the announced one. A
/// download into memory needs one of them.
pub fn resolve_total_size(
    signed_size: Option<u64>,
    content_length: Option<u64>,
    path: &Option<String>,
    url: &str,
) -> (r: Result<Option<u64>, String>)
    ensures
        match r {
            Ok(total) => total == resolved_size(signed_size, content_length) && (total is Some
                || path is Some),
            Err(e) => signed_size is None && content_length is None && path is None && e@
                == "Refusing in-memory download without a known size for "@ + url@,
        },
{
    let total_size = if signed_size.is_some() {
        signed_size
    } else {
        content_length
    };
    if total_size.is_none() && path.is_none() {
        let mut text: String = "Refusing in-memory download without a known size for ".to_owned();
        text.append(url);
        return Err(text);
    }
    Ok(total_size)
}

/// The signed size where there is one, else the announced one.
pub open spec fn resolved_size(signed_size: Option<u64>, content_length: Option<u64>) -> Option<
    u64,
> {
    if signed_size is Some {
        signed_size
    } else {
        content_length
    }
}

/// A wish for a download.
#[derive(Debug)]
pub struct DownloadRequest {
    pub url: String,
    pub path: Option<String>,
    pub auto_del_dur: Option<u64>,
    pub signed_size: Option<u64>,
    pub has_finish_handler: bool,
}

/// A download may be shared by a request: both are without finish handler and
/// ask for the same.
pub open spec fn shareable(d: DownloaderView, request: DownloadRequest) -> bool {
    &&& !d.has_finish_handler
    &&& !request.has_finish_handler
    &&& crate::file_path::same_place(d.path, crate::text::text_view(request.path))
    &&& d.signed_size == request.signed_size
    &&& d.auto_del_dur == request.auto_del_dur
}

/// Why a running download cannot be shared.
pub open spec fn not_shareable_text(d: DownloaderView, request: DownloadRequest) -> Seq<char> {
    if d.has_finish_handler || request.has_finish_handler {
        "Existing downloader for "@ + request.url@ + " cannot be reused with a finish handler"@
    } else {
        "Existing downloader for "@ + request.url@ + " has different options"@
    }
}

/// Accepts a running download that asks for the same as the request.
pub fn ensure_downloader_contract_matches(
    downloader: &Downloader,
    request: &DownloadRequest,
) -> (r: Result<(), String>)
    ensures
        r is Ok <==> shareable(downloader@, *request),
        r matches Err(e) ==> e@ == not_shareable_text(downloader@, *request),
{
    if downloader.has_finish_handler || request.has_finish_handler {
        let mut text: String = "Existing downloader for ".to_owned();
        text.append(request.url.as_str());
        text.append(" cannot be reused with a finish handler");
        return Err(text);
    }
    if same_optional_path(&downloader.path, &request.path) && downloader.signed_size
        == request.signed_size && downloader.auto_del_dur == request.auto_del_dur {
        return Ok(());
    }
    let mut text: String = "Existing downloader for ".to_owned();
    text.append(request.url.as_str());
    text.append(" has different options");
    Err(text)
}

/// How a request goes on.
#[derive(Debug)]
pub enum DownloadStart {
    /// A running download serves the request.
    Shared,
    /// The caller deletes the file of the failed attempt, if one is named.
    Fresh { stale_path: Option<String> },
}

/// An attempt that failed stands in the way of a request and is dropped by it.
pub open spec fn superseded(
    m: Map<Seq<char>, DownloaderView>,
    id: Seq<char>,
) -> bool {
    m.contains_key(id) && m[id].error is Some
}

/// What a request finds in the registry, and what it leaves there: an attempt
/// without error is shared or refuses the request, a failed one is dropped.
fn share_or_supersede(downloads: &mut Downloads, request: &DownloadRequest) -> (r: Result<
    DownloadStart,
    String,
>)
    ensures
        final(downloads).next() == old(downloads).next(),
        final(downloads)@ == (if superseded(old(downloads)@, request.url@) {
            old(downloads)@.remove(request.url@)
        } else {
            old(downloads)@
        }),
        request_outcome(old(downloads)@, *request, r),
{
    let id = request.url.as_str();
    match downloads.get(id) {
        Some(existing) => {
            if existing.error.is_none() {
                return match ensure_downloader_contract_matches(existing, request) {
                    Ok(()) => Ok(DownloadStart::Shared),
                    Err(e) => Err(e),
                };
            }
        },
        None => {
            return Ok(DownloadStart::Fresh { stale_path: None });
        },
    }
    match downloads.take(id) {
        Some(stale) => Ok(DownloadStart::Fresh { stale_path: stale.path }),
        None => Ok(DownloadStart::Fresh { stale_path: None }),
    }
}

/// The answer to a request, given what the registry holds.
pub open spec fn request_outcome(
    m: Map<Seq<char>, DownloaderView>,
    request: DownloadRequest,
    r: Result<DownloadStart, String>,
) -> bool {
    let id = request.url@;
    if m.contains_key(id) && m[id].error is None {
        if shareable(m[id], request) {
            r == Ok::<DownloadStart, String>(DownloadStart::Shared)
        } else {
            r matches Err(e) && e@ == not_shareable_text(m[id], request)
        }
    } else {
        r matches Ok(DownloadStart::Fresh { stale_path }) && crate::text::text_view(stale_path) == (
        if m.contains_key(id) {
            m[id].path
        } else {
            None
        })
    }
}

/// The first half of a request, before the file system is looked at. A finish
/// handler needs a file. A running download without error is shared if it asks
/// for the same, and refuses the request otherwise. A failed one is dropped.
pub fn download_file_(downloads: &mut Downloads, request: &DownloadRequest) -> (r: Result<
    DownloadStart,
    String,
>)
    ensures
        final(downloads).next() == old(downloads).next(),
        request.has_finish_handler && request.path is None ==> final(downloads)@
            == old(downloads)@ && (r matches Err(e) && e@
            == "Download finish handler requires a file path"@),
        !(request.has_finish_handler && request.path is None) ==> request_outcome(
            old(downloads)@,
            *request,
            r,
        ) && final(downloads)@ == (if superseded(old(downloads)@, request.url@) {
            old(downloads)@.remove(request.url@)
        } else {
            old(downloads)@
        }),
{
    if request.has_finish_handler && request.path.is_none() {
        return Err("Download finish handler requires a file path".to_owned());
    }
    share_or_supersede(downloads, request)
}

/// Asks for a download without finish handler.
pub fn download_file(
    downloads: &mut Downloads,
    url: String,
    path: Option<String>,
    auto_del_dur: Option<u64>,
    signed_size: Option<u64>,
) -> (r: (DownloadRequest, Result<DownloadStart, String>))
    ensures
        r.0.url == url && r.0.path == path && r.0.auto_del_dur == auto_del_dur && r.0.signed_size
            == signed_size && !r.0.has_finish_handler,
        final(downloads).next() == old(downloads).next(),
        request_outcome(old(downloads)@, r.0, r.1),
        final(downloads)@ == (if superseded(old(downloads)@, url@) {
            old(downloads)@.remove(url@)
        } else {
            old(downloads)@
        }),
{
    let request = DownloadRequest {
        url,
        path,
        auto_del_dur,
        signed_size,
        has_finish_handler: false,
    };
    let start = download_file_(downloads, &request);
    (request, start)
}

/// Asks for a download that a finish handler puts in place.
pub fn download_file_with_finish_handler(
    downloads: &mut Downloads,
    url: String,
    path: Option<String>,
    auto_del_dur: Option<u64>,
    signed_size: Option<u64>,
) -> (r: (DownloadRequest, Result<DownloadStart, String>))
    ensures
        r.0.url == url && r.0.path == path && r.0.auto_del_dur == auto_del_dur && r.0.signed_size
            == signed_size && r.0.has_finish_handler,
        final(downloads).next() == old(downloads).next(),
        path is None ==> final(downloads)@ == old(downloads)@ && (r.1 matches Err(e) && e@
            == "Download finish handler requires a file path"@),
        path is Some ==> request_outcome(old(downloads)@, r.0, r.1) && final(downloads)@ == (
        if superseded(old(downloads)@, url@) {
            old(downloads)@.remove(url@)
        } else {
            old(downloads)@
        }),
{
    let request = DownloadRequest {
        url,
        path,
        auto_del_dur,
        signed_size,
        has_finish_handler: true,
    };
    let start = download_file_(downloads, &request);
    (request, start)
}

/// Refuses to overwrite a file.
pub fn ensure_destination_is_free(path: &Option<String>, taken: bool) -> (r: Result<(), String>)
    ensures
        match r {
            Ok(()) => path is None || !taken,
            Err(e) => taken && path is Some && e@ == "File "@ + path->0@ + " already exists"@,
        },
{
    match path {
        Some(p) => {
            if taken {
                let mut text: String = "File ".to_owned();
                text.append(p.as_str());
                text.append(" already exists");
                return Err(text);
            }
            Ok(())
        },
        None => Ok(()),
    }
}

/// A new attempt.
pub open spec fn new_attempt(request: DownloadRequest, token: u64) -> DownloaderView {
    DownloaderView {
        token,
        data: Seq::empty(),
        path: crate::text::text_view(request.path),
        total_size: request.signed_size,
        signed_size: request.signed_size,
        auto_del_dur: request.auto_del_dur,
        has_finish_handler: request.has_finish_handler,
        downloaded_size: 0,
        error: None,
        finished: false,
        finalizing: false,
    }
}

/// The second half of a request: another caller may have been faster, so the
/// registry is asked again before the new attempt is entered with its token.
pub fn register_download(downloads: &mut Downloads, request: &DownloadRequest, token: u64) -> (r:
    Result<DownloadStart, String>)
    requires
        token < old(downloads).next(),
    ensures
        final(downloads).next() == old(downloads).next(),
        request_outcome(old(downloads)@, *request, r),
        final(downloads)@ == (if r is Ok && r->Ok_0 is Fresh {
            old(downloads)@.insert(request.url@, new_attempt(*request, token))
        } else {
            old(downloads)@
        }),
{
    match share_or_supersede(downloads, request) {
        Ok(DownloadStart::Fresh { stale_path }) => {
            let downloader = Downloader {
                token,
                data: Vec::new(),
                path: clone_text(&request.path),
                total_size: request.signed_size,
                signed_size: request.signed_size,
                auto_del_dur: request.auto_del_dur,
                has_finish_handler: request.has_finish_handler,
                downloaded_size: 0,
                error: None,
                finished: false,
                finalizing: false,
            };
            proof {
                assert(downloader@ =~= new_attempt(*request, token));
            }
            downloads.insert(request.url.as_str(), downloader);
            assert(downloads@ =~= old(downloads)@.insert(
                request.url@,
                new_attempt(*request, token),
            ));
            Ok(DownloadStart::Fresh { stale_path })
        },
        other => other,
    }
}

/// What is found at a path.
#[derive(Clone, Copy, Debug, PartialEq, Eq, Structural)]
pub struct FoundFile {
    pub is_file: bool,
    pub len: u64,
}

/// How a finished file was entered.
#[derive(Debug)]
pub enum ExistingFile {
    /// It was there already.
    Known,
    /// It is new. The caller deletes the file of the failed attempt before it, if
    /// one is named, and removes the entry again after the time of the request.
    Entered { token: u64, stale_path: Option<String> },
}

/// A finished download of a file that is there.
pub open spec fn existing_attempt(
    path: Seq<char>,
    total_size: u64,
    auto_del_dur: Option<u64>,
    token: u64,
) -> DownloaderView {
    DownloaderView {
        token,
        data: Seq::empty(),
        path: Some(path),
        total_size: Some(total_size),
        signed_size: Some(total_size),
        auto_del_dur,
        has_finish_handler: false,
        downloaded_size: total_size,
        error: None,
        finished: true,
        finalizing: false,
    }
}

/// A download is the finished one that is asked for.
pub open spec fn is_complete_as(
    d: DownloaderView,
    path: Seq<char>,
    total_size: u64,
    auto_del_dur: Option<u64>,
) -> bool {
    d.finished && crate::file_path::same_place(d.path, Some(path)) && d.total_size == Some(total_size) && d.auto_del_dur
        == auto_del_dur
}

/// Enters a file that is already there as a finished download. It must be a
/// regular file of the expected size; a download without error under the same id
/// must be that finished one.
pub fn complete_existing_file(
    downloads: &mut Downloads,
    id: &str,
    path: &str,
    file: FoundFile,
    total_size: u64,
    auto_del_dur: Option<u64>,
) -> (r: Result<ExistingFile, String>)
    requires
        old(downloads).next() < u64::MAX,
    ensures
        final(downloads).next() == old(downloads).next() + (if file.is_file && file.len
            == total_size {
            1int
        } else {
            0int
        }),
        match r {
            Ok(ExistingFile::Known) => file.is_file && file.len == total_size
                && old(downloads)@.contains_key(id@) && old(downloads)@[id@].error is None
                && is_complete_as(old(downloads)@[id@], path@, total_size, auto_del_dur)
                && final(downloads)@ == old(downloads)@,
            Ok(ExistingFile::Entered { token, stale_path }) => file.is_file && file.len
                == total_size && !(old(downloads)@.contains_key(id@) && old(downloads)@[id@].error is None) && token == old(downloads).next() && final(downloads)@ == old(downloads)@.insert(id@, existing_attempt(path@, total_size, auto_del_dur, token)) && crate::text::text_view(
                stale_path,
            ) == (if superseded(old(downloads)@, id@) && !crate::file_path::same_place(old(downloads)@[id@].path, Some(path@)) {
                old(downloads)@[id@].path
            } else {
                None
            }),
            Err(e) => final(downloads)@ == old(downloads)@ && ({
                ||| !file.is_file && e@ == "Download path is not a file: "@ + path@
                ||| file.is_file && file.len != total_size && e@ == size_mismatch_text(
                    id@,
                    total_size,
                    file.len,
                )
                ||| file.is_file && file.len == total_size && old(downloads)@.contains_key(id@)
                    && old(downloads)@[id@].error is None && !is_complete_as(
                    old(downloads)@[id@],
                    path@,
                    total_size,
                    auto_del_dur,
                ) && e@ == "Existing downloader for "@ + id@ + " is not complete"@
            }),
        },
{
    if !file.is_file {
        let mut text: String = "Download path is not a file: ".to_owned();
        text.append(path);
        return Err(text);
    }
    if let Err(e) = ensure_downloaded_size_matches(file.len, total_size, id) {
        return Err(e);
    }
    let token: u64 = downloads.next_downloader_token();
    let wanted: Option<String> = Some(path.to_owned());
    let mut stale_path: Option<String> = None;
    if let Some(existing) = downloads.get(id) {
        if existing.error.is_none() {
            if !existing.finished || !same_optional_path(&existing.path, &wanted) || existing.total_size
                != Some(total_size) || existing.auto_del_dur != auto_del_dur {
                let mut text: String = "Existing downloader for ".to_owned();
                text.append(id);
                text.append(" is not complete");
                return Err(text);
            }
            return Ok(ExistingFile::Known);
        }
        if !same_optional_path(&existing.path, &wanted) {
            stale_path = clone_text(&existing.path);
        }
    }
    let downloader = Downloader {
        token,
        data: Vec::new(),
        path: wanted,
        total_size: Some(total_size),
        signed_size: Some(total_size),
        auto_del_dur,
        has_finish_handler: false,
        downloaded_size: total_size,
        error: None,
        finished: true,
        finalizing: false,
    };
    assert(downloader@ =~= existing_attempt(path@, total_size, auto_del_dur, token));
    downloads.insert(id, downloader);
    Ok(ExistingFile::Entered { token, stale_path })
}

/// What a caller learns of a download. The data is there only once the download
/// is complete, and only if it has no file.
#[derive(Debug)]
pub struct DownloadData {
    pub data: Vec<u8>,
    pub path: Option<String>,
    pub total_size: Option<u64>,
    pub downloaded_size: u64,
    pub finished: bool,
    pub finalizing: bool,
    pub error: Option<String>,
}

/// Whether a flag is off, and so left out when a report is written.
pub fn is_false(value: &bool) -> (r: bool)
    ensures
        r == !*value,
{
    !*value
}

/// The data of a download is handed out.
pub open spec fn hands_out_data(d: DownloaderView) -> bool {
    d.finished && d.path is None && (d.total_size matches Some(total) ==> total
        == d.downloaded_size)
}

/// Reports on a download.
pub fn get_download_data(downloads: &Downloads, id: &str) -> (r: Result<DownloadData, String>)
    ensures
        match r {
            Ok(report) => {
                let d = downloads@[id@];
                &&& downloads@.contains_key(id@)
                &&& report.data@ == if hands_out_data(d) {
                    d.data
                } else {
                    Seq::empty()
                }
                &&& crate::text::text_view(report.path) == d.path
                &&& report.total_size == d.total_size
                &&& report.downloaded_size == d.downloaded_size
                &&& report.finished == d.finished
                &&& report.finalizing == d.finalizing
                &&& crate::text::text_view(report.error) == d.error
            },
            Err(e) => !downloads@.contains_key(id@) && e@ == "Downloader not found"@,
        },
{
    match downloads.get(id) {
        Some(d) => {
            let complete = match d.total_size {
                Some(total) => total == d.downloaded_size,
                None => true,
            };
            let data: Vec<u8> = if d.finished && complete && d.path.is_none() {
                let copy: Vec<u8> = d.data.clone();
                assert(copy@ =~= d.data@);
                copy
            } else {
                Vec::new()
            };
            Ok(
                DownloadData {
                    data,
                    path: clone_text(&d.path),
                    total_size: d.total_size,
                    downloaded_size: d.downloaded_size,
                    finished: d.finished,
                    finalizing: d.finalizing,
                    error: clone_text(&d.error),
                },
            )
        },
        None => Err("Downloader not found".to_owned()),
    }
}

/// The attempt that a cancel request is sent to: the one of `id`, unless it is
/// finished or being put in place. The entry stays until the worker is done.
pub fn cancel(downloads: &Downloads, id: &str) -> (r: Option<u64>)
    ensures
        match r {
            Some(token) => current(downloads@, id@, token) && !downloads@[id@].finished
                && !downloads@[id@].finalizing,
            None => !downloads@.contains_key(id@) || downloads@[id@].finished
                || downloads@[id@].finalizing,
        },
{
    match downloads.get(id) {
        Some(d) => {
            if d.finished || d.finalizing {
                None
            } else {
                Some(d.token)
            }
        },
        None => None,
    }
}

/// Forgets a download. The attempt that is named has lost its entry.
pub fn remove(downloads: &mut Downloads, id: &str) -> (r: Option<u64>)
    ensures
        final(downloads)@ == old(downloads)@.remove(id@),
        final(downloads).next() == old(downloads).next(),
        match r {
            Some(token) => current(old(downloads)@, id@, token),
            None => !old(downloads)@.contains_key(id@),
        },
{
    match downloads.take(id) {
        Some(d) => Some(d.token),
        None => None,
    }
}

/// A running download serves a later request only where neither has a finish handler
/// and both ask for the same place, the same signed size and the same time.
pub proof fn law_only_equal_requests_share(
    first: DownloadRequest,
    second: DownloadRequest,
    token: u64,
)
    ensures
        shareable(new_attempt(first, token), second) <==> {
            &&& !first.has_finish_handler && !second.has_finish_handler
            &&& crate::file_path::same_place(
                crate::text::text_view(first.path),
                crate::text::text_view(second.path),
            )
            &&& first.signed_size == second.signed_size
            &&& first.auto_del_dur == second.auto_del_dur
        },
{
}

/// A download that goes on or is finished is never replaced by a request, a failed one
/// never serves one, and where there is none the request begins afresh.
pub proof fn law_requests_respect_running_downloads(
    m: Map<Seq<char>, DownloaderView>,
    request: DownloadRequest,
    r: Result<DownloadStart, String>,
)
    requires
        request_outcome(m, request, r),
    ensures
        ({
            let id = request.url@;
            let there = m.contains_key(id);
            &&& there && m[id].error is None ==> !(r is Ok && r->Ok_0 is Fresh) && (r is Ok
                <==> shareable(m[id], request))
            &&& !(there && m[id].error is None) ==> (r matches Ok(DownloadStart::Fresh {
                stale_path,
            }) && crate::text::text_view(stale_path) == (if there {
                m[id].path
            } else {
                None
            }))
            &&& superseded(m, id) <==> there && m[id].error is Some
        }),
        r matches Err(e) ==> e@ == "Existing downloader for "@ + request.url@ + (
        if m[request.url@].has_finish_handler || request.has_finish_handler {
            " cannot be reused with a finish handler"@
        } else {
            " has different options"@
        }),
{
}

/// An attempt begins without data, error or end, with the options of its request; a
/// signed size is known from the start.
pub proof fn law_attempts_begin_empty(request: DownloadRequest, token: u64)
    ensures
        ({
            let d = new_attempt(request, token);
            &&& d.token == token && d.data.len() == 0 && d.downloaded_size == 0
            &&& d.error is None && !d.finished && !d.finalizing
            &&& d.path == crate::text::text_view(request.path)
            &&& d.total_size == request.signed_size && d.signed_size == request.signed_size
            &&& d.auto_del_dur == request.auto_del_dur
            &&& d.has_finish_handler == request.has_finish_handler
            &&& !hands_out_data(d)
        }),
{
}

/// The end of a download, good or bad, changes nothing about its data and sizes; only
/// a good end can move it to another path.
pub proof fn law_ends_keep_the_data(
    d: DownloaderView,
    path: Seq<char>,
    error: Seq<char>,
)
    ensures
        finished(d, None) == (DownloaderView { finished: true, finalizing: false, ..d }),
        finished(d, Some(path)) == (DownloaderView {
            finished: true,
            finalizing: false,
            path: Some(path),
            ..d
        }),
        failed(d, error) == (DownloaderView {
            finished: false,
            finalizing: false,
            error: Some(error),
            ..d
        }),
        !hands_out_data(failed(d, error)),
{
}

/// Data is handed out only once the download is finished with all of it, and only
/// where it has no file.
pub proof fn law_only_complete_data_is_handed_out(d: DownloaderView)
    ensures
        !d.finished || d.path is Some ==> !hands_out_data(d),
        d.total_size matches Some(total) && total != d.downloaded_size ==> !hands_out_data(d),
        d.finished && d.path is None && (d.total_size is None || d.total_size == Some(
            d.downloaded_size,
        )) ==> hands_out_data(d),
{
}

/// Chunks add up: storing one after the other is storing both at once, in their order.
pub proof fn law_chunks_add_up(d: DownloaderView, first: Seq<u8>, second: Seq<u8>)
    requires
        d.downloaded_size + first.len() + second.len() <= u64::MAX,
    ensures
        appended(appended(d, first), second).data == d.data + first + second,
        appended(appended(d, first), second).downloaded_size == d.downloaded_size + first.len()
            + second.len(),
        appended(d, first) == (DownloaderView {
            data: d.data + first,
            downloaded_size: (d.downloaded_size + first.len()) as u64,
            ..d
        }),
        grown(d, first.len() as int) == (DownloaderView {
            downloaded_size: (d.downloaded_size + first.len()) as u64,
            ..d
        }),
{
}

/// A file that is entered as a download is finished at its place with its whole size,
/// and is what a second request for it finds; one for another place, size or time does
/// not.
pub proof fn law_entered_files_are_found_again(
    path: Seq<char>,
    other: Seq<char>,
    size: u64,
    other_size: u64,
    time: Option<u64>,
    other_time: Option<u64>,
    token: u64,
)
    ensures
        ({
            let d = existing_attempt(path, size, time, token);
            &&& d.finished && !d.finalizing && d.error is None && d.path == Some(path)
            &&& d.total_size == Some(size) && d.signed_size == Some(size) && d.downloaded_size
                == size
            &&& d.data.len() == 0 && d.token == token && d.auto_del_dur == time
                && !d.has_finish_handler
            &&& is_complete_as(d, other, other_size, other_time)
                <==> crate::file_path::same_path_names(path, other) && size == other_size && time
                == other_time
        }),
        forall|d: DownloaderView| !d.finished ==> !#[trigger] is_complete_as(d, path, size, time),
{
}

/// A signed size holds whatever was announced.
pub proof fn law_signed_size_holds(signed: u64, announced: Option<u64>)
    ensures
        resolved_size(Some(signed), announced) == Some(signed),
        resolved_size(None, announced) == announced,
{
}

/// An attempt holds the entry that bears its own token, and loses it with the entry or
/// to another attempt; entries of other downloads do not matter.
pub proof fn law_an_entry_belongs_to_one_attempt(
    m: Map<Seq<char>, DownloaderView>,
    id: Seq<char>,
    other: Seq<char>,
    entry: DownloaderView,
    token: u64,
)
    ensures
        current(m.insert(id, entry), id, token) <==> entry.token == token,
        !current(m.remove(id), id, token),
        other != id ==> current(m.insert(other, entry), id, token) == current(m, id, token)
            && current(m.remove(other), id, token) == current(m, id, token),
        !current(Map::empty(), id, token),
{
}

} // verus!
