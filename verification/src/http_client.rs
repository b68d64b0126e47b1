//! Finding out how to reach a web server: which implementation of TLS to use, and
//! whether to accept certificates that are not valid.
use crate::ipc::data::Socks5Server;
use crate::text::{same_text, starts_with};
use vstd::prelude::*;

verus! {

/// The time for one attempt of a strict probe, in seconds.
pub const STRICT_HTTP_PROBE_ATTEMPT_TIMEOUT_SECS: u64 = 30;

/// An implementation of TLS.
#[derive(Clone, Copy, Debug, PartialEq, Eq, Structural)]
pub enum TlsType {
    Plain,
    NativeTls,
    Rustls,
}

/// How a server is tried.
#[derive(Clone, Copy, Debug, PartialEq, Eq, Structural)]
pub struct HttpClientProbeOptions {
    pub tls_type: TlsType,
    pub is_tls_type_cached: bool,
    pub danger_accept_invalid_cert: Option<bool>,
    pub original_danger_accept_invalid_cert: Option<bool>,
    pub attempt_timeout_secs: Option<u64>,
}

/// How a server is tried next.
#[derive(Clone, Copy, Debug, PartialEq, Eq, Structural)]
pub enum HttpClientProbeRetry {
    AcceptInvalidCert(HttpClientProbeOptions),
    NativeTls(HttpClientProbeOptions),
}

impl HttpClientProbeRetry {
    /// The options of the next attempt.
    pub open spec fn spec_options(self) -> HttpClientProbeOptions {
        match self {
            HttpClientProbeRetry::AcceptInvalidCert(options) => options,
            HttpClientProbeRetry::NativeTls(options) => options,
        }
    }

    /// The options of the next attempt.
    pub fn options(self) -> (r: HttpClientProbeOptions)
        ensures
            r == self.spec_options(),
    {
        match self {
            HttpClientProbeRetry::AcceptInvalidCert(options) => options,
            HttpClientProbeRetry::NativeTls(options) => options,
        }
    }
}

/// What is tried after a failed attempt: invalid certificates, where nothing is
/// known of them; then the system's TLS, where no implementation is known to work.
pub open spec fn next_probe(options: HttpClientProbeOptions) -> Option<HttpClientProbeRetry> {
    if options.tls_type == TlsType::Plain {
        None
    } else if options.danger_accept_invalid_cert is None {
        Some(
            HttpClientProbeRetry::AcceptInvalidCert(
                HttpClientProbeOptions { danger_accept_invalid_cert: Some(true), ..options },
            ),
        )
    } else if options.tls_type == TlsType::Rustls && !options.is_tls_type_cached {
        Some(
            HttpClientProbeRetry::NativeTls(
                HttpClientProbeOptions {
                    tls_type: TlsType::NativeTls,
                    danger_accept_invalid_cert: options.original_danger_accept_invalid_cert,
                    ..options
                },
            ),
        )
    } else {
        None
    }
}

/// What is tried after a failed attempt.
pub fn next_http_client_probe(options: HttpClientProbeOptions) -> (r: Option<HttpClientProbeRetry>)
    ensures
        r == next_probe(options),
{
    match (options.tls_type, options.is_tls_type_cached, options.danger_accept_invalid_cert) {
        (TlsType::Plain, _, _) => None,
        (_, _, None) => Some(
            HttpClientProbeRetry::AcceptInvalidCert(
                HttpClientProbeOptions { danger_accept_invalid_cert: Some(true), ..options },
            ),
        ),
        (TlsType::Rustls, false, Some(_)) => Some(
            HttpClientProbeRetry::NativeTls(
                HttpClientProbeOptions {
                    tls_type: TlsType::NativeTls,
                    danger_accept_invalid_cert: options.original_danger_accept_invalid_cert,
                    ..options
                },
            ),
        ),
        _ => None,
    }
}

/// What came of an attempt.
#[derive(Clone, Copy, Debug, PartialEq, Eq, Structural)]
pub enum ProbeOutcome {
    Reached,
    /// The request could not be sent.
    RequestError,
    /// Something else went wrong.
    OtherError,
}

/// What is done after an attempt.
#[derive(Clone, Copy, Debug, PartialEq, Eq, Structural)]
pub enum ProbeStep {
    /// The way is remembered and used.
    Remember { tls_type: TlsType, accept_invalid_cert: bool },
    /// The way is used all the same.
    Use,
    Retry(HttpClientProbeRetry),
}

/// Whether a server has to be tried, or is known already.
pub fn needs_probe(options: &HttpClientProbeOptions) -> (r: bool)
    ensures
        r == !(options.is_tls_type_cached && options.original_danger_accept_invalid_cert is Some),
{
    !(options.is_tls_type_cached && options.original_danger_accept_invalid_cert.is_some())
}

/// Whether an attempt accepts invalid certificates.
pub open spec fn accepts_invalid(options: HttpClientProbeOptions) -> bool {
    options.danger_accept_invalid_cert == Some(true)
}

/// Whether an attempt accepts invalid certificates.
pub fn accepts_invalid_cert(options: &HttpClientProbeOptions) -> (r: bool)
    ensures
        r == accepts_invalid(*options),
{
    match options.danger_accept_invalid_cert {
        Some(accept) => accept,
        None => false,
    }
}

/// What is done after an attempt.
pub open spec fn probe_step(
    options: HttpClientProbeOptions,
    outcome: ProbeOutcome,
    blocking: bool,
) -> ProbeStep {
    match outcome {
        ProbeOutcome::Reached => ProbeStep::Remember {
            tls_type: options.tls_type,
            accept_invalid_cert: accepts_invalid(options),
        },
        _ => match next_probe(options) {
            Some(retry) => if blocking && outcome == ProbeOutcome::OtherError {
                ProbeStep::Use
            } else {
                ProbeStep::Retry(retry)
            },
            None => ProbeStep::Use,
        },
    }
}

/// What is done after an attempt. A blocking client gives up on errors that are
/// not about sending the request; an asynchronous one tries on after any error.
pub fn after_probe(options: HttpClientProbeOptions, outcome: ProbeOutcome, blocking: bool) -> (r:
    ProbeStep)
    ensures
        r == probe_step(options, outcome, blocking),
        outcome == ProbeOutcome::Reached ==> r == (ProbeStep::Remember {
            tls_type: options.tls_type,
            accept_invalid_cert: accepts_invalid(options),
        }),
        outcome != ProbeOutcome::Reached ==> r == (if blocking && outcome
            == ProbeOutcome::OtherError {
            ProbeStep::Use
        } else {
            match next_probe(options) {
                Some(retry) => ProbeStep::Retry(retry),
                None => ProbeStep::Use,
            }
        }),
{
    if outcome == ProbeOutcome::Reached {
        return ProbeStep::Remember {
            tls_type: options.tls_type,
            accept_invalid_cert: accepts_invalid_cert(&options),
        };
    }
    if blocking && outcome == ProbeOutcome::OtherError {
        return ProbeStep::Use;
    }
    match next_http_client_probe(options) {
        Some(retry) => ProbeStep::Retry(retry),
        None => ProbeStep::Use,
    }
}

/// How a server is tried first, given what is known of it.
pub open spec fn first_options(
    cached_tls_type: Option<TlsType>,
    cached_accept_invalid: Option<bool>,
) -> HttpClientProbeOptions {
    HttpClientProbeOptions {
        tls_type: if cached_tls_type is Some {
            cached_tls_type->0
        } else {
            TlsType::Rustls
        },
        is_tls_type_cached: cached_tls_type is Some,
        danger_accept_invalid_cert: cached_accept_invalid,
        original_danger_accept_invalid_cert: cached_accept_invalid,
        attempt_timeout_secs: None,
    }
}

/// How a server is tried first, given what is known of it.
pub fn first_probe(cached_tls_type: Option<TlsType>, cached_accept_invalid: Option<bool>) -> (r:
    HttpClientProbeOptions)
    ensures
        r == first_options(cached_tls_type, cached_accept_invalid),
        r == (HttpClientProbeOptions {
            tls_type: (match cached_tls_type {
                Some(tls_type) => tls_type,
                None => TlsType::Rustls,
            }),
            is_tls_type_cached: cached_tls_type is Some,
            danger_accept_invalid_cert: cached_accept_invalid,
            original_danger_accept_invalid_cert: cached_accept_invalid,
            attempt_timeout_secs: None,
        }),
{
    let tls_type = match cached_tls_type {
        Some(tls_type) => tls_type,
        None => TlsType::Rustls,
    };
    HttpClientProbeOptions {
        tls_type,
        is_tls_type_cached: cached_tls_type.is_some(),
        danger_accept_invalid_cert: cached_accept_invalid,
        original_danger_accept_invalid_cert: cached_accept_invalid,
        attempt_timeout_secs: None,
    }
}

/// The scheme that `url::Url::parse` finds in a text, or its complaint.
pub uninterp spec fn parsed_scheme(url: Seq<char>) -> Result<Seq<char>, Seq<char>>;

/// A result with its texts as values.
pub open spec fn texts_of(r: Result<String, String>) -> Result<Seq<char>, Seq<char>> {
    match r {
        Ok(s) => Ok(s@),
        Err(e) => Err(e@),
    }
}

/// `url::Url::parse` reads a URL, and `url::Url::scheme` gives its scheme. Which
/// texts are URLs, and what is said of others, is only named.
#[verifier::external_body]
fn scheme_of(url: &str) -> (r: Result<String, String>)
    ensures
        texts_of(r) == parsed_scheme(url@),
{
    match url::Url::parse(url) {
        Ok(parsed) => Ok(parsed.scheme().to_owned()),
        Err(error) => Err(error.to_string()),
    }
}

/// The first attempt of a strict probe of a server whose URL has that scheme: it
/// must be HTTPS, and only what is known with valid certificates is reused.
pub fn strict_probe_of_scheme(
    url: &str,
    scheme: &str,
    cached_tls_type: Option<TlsType>,
    cached_accept_invalid: Option<bool>,
) -> (r: Result<HttpClientProbeOptions, String>)
    ensures
        strict_outcome(url@, scheme@, cached_tls_type, cached_accept_invalid, r),
{
    if !same_text(scheme, "https") {
        let mut text: String = "Strict HTTP client requires HTTPS: ".to_owned();
        text.append(url);
        return Err(text);
    }
    let reuse = cached_tls_type.is_some() && (match cached_accept_invalid {
        Some(accept) => !accept,
        None => false,
    });
    let tls_type = match cached_tls_type {
        Some(tls_type) => {
            if reuse {
                tls_type
            } else {
                TlsType::Rustls
            }
        },
        None => TlsType::Rustls,
    };
    Ok(
        HttpClientProbeOptions {
            tls_type,
            is_tls_type_cached: reuse,
            danger_accept_invalid_cert: Some(false),
            original_danger_accept_invalid_cert: Some(false),
            attempt_timeout_secs: Some(STRICT_HTTP_PROBE_ATTEMPT_TIMEOUT_SECS),
        },
    )
}

/// What a strict probe starts with.
pub open spec fn strict_outcome(
    url: Seq<char>,
    scheme: Seq<char>,
    cached_tls_type: Option<TlsType>,
    cached_accept_invalid: Option<bool>,
    r: Result<HttpClientProbeOptions, String>,
) -> bool {
    let reuse = cached_tls_type is Some && cached_accept_invalid == Some(false);
    if scheme == "https"@ {
        r == Ok::<HttpClientProbeOptions, String>(
            HttpClientProbeOptions {
                tls_type: if reuse {
                    cached_tls_type->0
                } else {
                    TlsType::Rustls
                },
                is_tls_type_cached: reuse,
                danger_accept_invalid_cert: Some(false),
                original_danger_accept_invalid_cert: Some(false),
                attempt_timeout_secs: Some(STRICT_HTTP_PROBE_ATTEMPT_TIMEOUT_SECS),
            },
        )
    } else {
        r matches Err(e) && e@ == "Strict HTTP client requires HTTPS: "@ + url
    }
}

/// The first attempt of a strict probe.
pub fn strict_probe(
    url: &str,
    cached_tls_type: Option<TlsType>,
    cached_accept_invalid: Option<bool>,
) -> (r: Result<HttpClientProbeOptions, String>)
    ensures
        match parsed_scheme(url@) {
            Ok(scheme) => strict_outcome(url@, scheme, cached_tls_type, cached_accept_invalid, r),
            Err(complaint) => r matches Err(e) && e@ == complaint,
        },
{
    match scheme_of(url) {
        Ok(scheme) => strict_probe_of_scheme(
            url,
            scheme.as_str(),
            cached_tls_type,
            cached_accept_invalid,
        ),
        Err(e) => Err(e),
    }
}

/// The URL whose TLS counts, by that of the proxy, if there is one.
pub open spec fn tls_url(url: Seq<char>, plain: bool, proxy: Option<Seq<char>>) -> Seq<char> {
    match proxy {
        Some(proxy) if plain && "https://"@.is_prefix_of(proxy) => proxy,
        _ => url,
    }
}

/// The URL whose TLS counts: for a URL without encryption that of the proxy, if
/// that is encrypted. `plain` says whether the URL is without encryption.
pub fn get_url_for_tls<'a>(
    url: &'a str,
    plain: bool,
    proxy_conf: &'a Option<Socks5Server>,
) -> (r: &'a str)
    ensures
        proxy_conf is Some ==> r@ == tls_url(url@, plain, Some(proxy_conf->0.proxy@)),
        proxy_conf is None ==> r@ == tls_url(url@, plain, None),
        r@ == if plain && (proxy_conf matches Some(conf) && "https://"@.is_prefix_of(conf.proxy@)) {
            proxy_conf->0.proxy@
        } else {
            url@
        },
{
    if plain {
        if let Some(conf) = proxy_conf {
            if starts_with(conf.proxy.as_str(), "https://") {
                return conf.proxy.as_str();
            }
        }
    }
    url
}

/// The kind of a proxy.
#[derive(Clone, Copy, Debug, PartialEq, Eq, Structural)]
pub enum ProxyKind {
    Http,
    Https,
    Socks5,
}

/// The URL of a proxy.
pub fn proxy_url(kind: ProxyKind, host: &str) -> (r: String)
    ensures
        r@ == (match kind {
            ProxyKind::Http => "http://"@,
            ProxyKind::Https => "https://"@,
            ProxyKind::Socks5 => "socks5://"@,
        }) + host@,
{
    let mut url: String = match kind {
        ProxyKind::Http => "http://".to_owned(),
        ProxyKind::Https => "https://".to_owned(),
        ProxyKind::Socks5 => "socks5://".to_owned(),
    };
    url.append(host);
    url
}

/// Whether a proxy is given a name and a password: only with both.
pub fn uses_proxy_auth(username: &str, password: &str) -> (r: bool)
    ensures
        r == (username@.len() > 0 && password@.len() > 0),
{
    !username.is_empty() && !password.is_empty()
}

/// How many more attempts can follow one with these options.
pub open spec fn attempts_left(options: HttpClientProbeOptions) -> nat {
    match options.tls_type {
        TlsType::Plain => 0,
        TlsType::NativeTls => if options.danger_accept_invalid_cert is None {
            1
        } else {
            0
        },
        TlsType::Rustls => if options.danger_accept_invalid_cert is None {
            3
        } else {
            2
        },
    }
}

/// Each retry has fewer attempts after it, so that a probe ends after at most
/// four of them.
pub proof fn law_probes_end(options: HttpClientProbeOptions)
    ensures
        next_probe(options) matches Some(retry) ==> attempts_left(retry.spec_options())
            < attempts_left(options),
        attempts_left(options) <= 3,
{
}

/// A strict probe never accepts an invalid certificate, on any attempt.
pub proof fn law_strict_probes_stay_strict(options: HttpClientProbeOptions)
    requires
        options.danger_accept_invalid_cert == Some(false),
        options.original_danger_accept_invalid_cert == Some(false),
    ensures
        !accepts_invalid(options),
        next_probe(options) matches Some(retry) ==> {
            &&& retry.spec_options().danger_accept_invalid_cert == Some(false)
            &&& retry.spec_options().original_danger_accept_invalid_cert == Some(false)
            &&& retry.spec_options().attempt_timeout_secs == options.attempt_timeout_secs
        },
{
}

/// A probe never gives up an implementation that is known to work.
pub proof fn law_known_tls_is_kept(options: HttpClientProbeOptions)
    requires
        options.is_tls_type_cached,
    ensures
        next_probe(options) matches Some(retry) ==> retry.spec_options().tls_type
            == options.tls_type && retry.spec_options().is_tls_type_cached,
{
}

/// Where nothing is known of certificates, invalid ones are tried next with the same
/// implementation; nothing else of the attempt changes.
pub proof fn law_unknown_certificates_are_tried(options: HttpClientProbeOptions)
    requires
        options.tls_type != TlsType::Plain,
        options.danger_accept_invalid_cert is None,
    ensures
        next_probe(options) matches Some(retry) && retry is AcceptInvalidCert && accepts_invalid(
            retry.spec_options(),
        ),
        ({
            let next = next_probe(options)->0.spec_options();
            &&& next.tls_type == options.tls_type
            &&& next.is_tls_type_cached == options.is_tls_type_cached
            &&& next.original_danger_accept_invalid_cert
                == options.original_danger_accept_invalid_cert
            &&& next.attempt_timeout_secs == options.attempt_timeout_secs
        }),
{
}

/// The system's implementation is tried behind the other one only, where none is known
/// to work, and with what was known of certificates at first.
pub proof fn law_other_implementation_starts_afresh(options: HttpClientProbeOptions)
    ensures
        next_probe(options) matches Some(retry) ==> (retry is NativeTls ==> options.tls_type
            == TlsType::Rustls && !options.is_tls_type_cached
            && options.danger_accept_invalid_cert is Some && retry.spec_options().tls_type
            == TlsType::NativeTls && retry.spec_options().danger_accept_invalid_cert
            == options.original_danger_accept_invalid_cert
            && retry.spec_options().original_danger_accept_invalid_cert
            == options.original_danger_accept_invalid_cert
            && retry.spec_options().attempt_timeout_secs == options.attempt_timeout_secs
            && !retry.spec_options().is_tls_type_cached),
        options.tls_type == TlsType::Rustls && !options.is_tls_type_cached
            && options.danger_accept_invalid_cert is Some ==> next_probe(options) is Some,
{
}

/// A probe gives up on servers without encryption at once, and on others once what is
/// known or was tried of certificates did not help with the last implementation.
pub proof fn law_when_probes_give_up(options: HttpClientProbeOptions)
    ensures
        next_probe(options) is None <==> options.tls_type == TlsType::Plain || (
        options.danger_accept_invalid_cert is Some && (options.tls_type == TlsType::NativeTls
            || options.is_tls_type_cached)),
        accepts_invalid(options) ==> options.danger_accept_invalid_cert is Some
            && options.danger_accept_invalid_cert->0,
        options.danger_accept_invalid_cert is None ==> !accepts_invalid(options),
        options.danger_accept_invalid_cert matches Some(accept) ==> accepts_invalid(options)
            == accept,
{
}

/// A strict probe starts only with HTTPS, never with invalid certificates, with a limit
/// of half a minute, and with a known implementation only where it was known with valid
/// certificates.
pub proof fn law_strict_probes_start_strict(
    url: Seq<char>,
    scheme: Seq<char>,
    cached_tls_type: Option<TlsType>,
    cached_accept_invalid: Option<bool>,
    r: Result<HttpClientProbeOptions, String>,
)
    requires
        strict_outcome(url, scheme, cached_tls_type, cached_accept_invalid, r),
    ensures
        r is Ok <==> scheme == "https"@,
        r is Err ==> url.is_suffix_of(r->Err_0@),
        r matches Ok(options) ==> {
            &&& options.danger_accept_invalid_cert == Some(false)
            &&& options.original_danger_accept_invalid_cert == Some(false)
            &&& options.attempt_timeout_secs == Some(30u64)
            &&& options.is_tls_type_cached <==> cached_tls_type is Some && cached_accept_invalid
                == Some(false)
            &&& options.is_tls_type_cached ==> cached_tls_type == Some(options.tls_type)
            &&& !options.is_tls_type_cached ==> options.tls_type == TlsType::Rustls
        },
{
    if r is Err {
        let e = r->Err_0;
        assert(e@.subrange(e@.len() - url.len(), e@.len() as int) =~= url);
    }
}

/// What reached a server is remembered just as it was tried; nothing else is. An error
/// leads to another attempt while there is one left, except that a blocking client tries
/// no more after an error that is not about the request.
pub proof fn law_what_works_is_remembered(
    options: HttpClientProbeOptions,
    outcome: ProbeOutcome,
    blocking: bool,
)
    ensures
        ({
            let step = probe_step(options, outcome, blocking);
            &&& step is Remember <==> outcome == ProbeOutcome::Reached
            &&& step matches ProbeStep::Remember { tls_type, accept_invalid_cert } ==> tls_type
                == options.tls_type && accept_invalid_cert == (options.danger_accept_invalid_cert
                == Some(true))
            &&& step matches ProbeStep::Retry(retry) ==> next_probe(options) == Some(retry)
            &&& step is Retry <==> next_probe(options) is Some && (outcome
                == ProbeOutcome::RequestError || (outcome == ProbeOutcome::OtherError && !blocking))
        }),
{
}

/// What is known of a server is used in the first attempt; where no implementation is
/// known, the same one is always tried first, and the system's one may follow.
pub proof fn law_first_attempts_use_what_is_known(
    cached_tls_type: Option<TlsType>,
    cached_accept_invalid: Option<bool>,
)
    ensures
        ({
            let first = first_options(cached_tls_type, cached_accept_invalid);
            &&& first.is_tls_type_cached <==> cached_tls_type is Some
            &&& cached_tls_type matches Some(tls_type) ==> first.tls_type == tls_type
            &&& cached_tls_type is None ==> first.tls_type == TlsType::Rustls
            &&& accepts_invalid(first) <==> cached_accept_invalid == Some(true)
            &&& first.danger_accept_invalid_cert == cached_accept_invalid
            &&& first.original_danger_accept_invalid_cert == cached_accept_invalid
            &&& cached_tls_type is None ==> next_probe(first) is Some
        }),
{
}

/// The TLS of a proxy counts only for URLs without encryption, and only of a proxy with
/// encryption.
pub proof fn law_whose_encryption_counts(url: Seq<char>, proxy: Seq<char>, host: Seq<char>, plain: bool)
    ensures
        tls_url(url, true, Some("https://"@ + host)) == "https://"@ + host,
        tls_url(url, false, Some(proxy)) == url,
        tls_url(url, plain, None) == url,
        tls_url(url, plain, Some(proxy)) != url ==> plain && proxy.len() >= 8 && proxy.take(8)
            == "https://"@,
{
    reveal_strlit("https://");
    let secure = "https://"@ + host;
    assert(secure.subrange(0, 8) =~= "https://"@);
}

} // verus!
