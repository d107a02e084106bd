//! The rules of the fetch proxy: which addresses count as private, which
//! URLs are blocked while local network access is off, which hosts binary
//! fetches may go to, which method a request uses, and how a response is
//! handed back. Reading URLs is left to the `url` crate; sending requests
//! and resolving names belong to the caller.

use vstd::prelude::*;
use vstd::string::*;
use crate::encoding::{base64_standard, encode_base64};
use crate::text::{decimal, decimal_string, join2, text_eq};

verus! {

/// `url::Url`, carried through as an opaque value.
#[verifier::external_type_specification]
#[verifier::external_body]
pub struct ExUrl(url::Url);

/// The URL that `Url::parse` reads from a text, if it is one.
pub uninterp spec fn url_parsed(text: Seq<char>) -> Option<url::Url>;

/// The scheme that `Url::scheme` gives, in lower case and without the colon.
pub uninterp spec fn url_scheme(url: url::Url) -> Seq<char>;

/// The host that `Url::host_str` gives, as it stands in the URL.
pub uninterp spec fn url_host_text(url: url::Url) -> Option<Seq<char>>;

/// The port that `Url::port_or_known_default` gives: the one written in the
/// URL, else the one the scheme is known for.
pub uninterp spec fn url_port(url: url::Url) -> Option<u16>;

/// The text that `str::to_uppercase` gives.
pub uninterp spec fn uppercased(text: Seq<char>) -> Seq<char>;

/// Calls `Url::parse`. Trusted: the result is the parsed URL, and `None`
/// where the text is not an absolute URL.
#[verifier::external_body]
fn parse_url(text: &str) -> (out: Option<url::Url>)
    ensures
        out == url_parsed(text@),
{
    url::Url::parse(text).ok()
}

/// Calls `Url::scheme`. Trusted: the result is the scheme of the URL.
#[verifier::external_body]
fn scheme_of(url: &url::Url) -> (out: String)
    ensures
        out@ == url_scheme(*url),
{
    url.scheme().to_string()
}

/// Calls `Url::host_str`. Trusted: the result is the host of the URL as
/// text, and `None` where the URL has none.
#[verifier::external_body]
fn host_of(url: &url::Url) -> (out: Option<String>)
    ensures
        match out {
            Some(host) => url_host_text(*url) == Some(host@),
            None => url_host_text(*url) is None,
        },
{
    url.host_str().map(String::from)
}

/// Calls `Url::port_or_known_default`. Trusted: the result is the port of
/// the URL, or the default port of its scheme, or `None` where neither is
/// known.
#[verifier::external_body]
fn port_of(url: &url::Url) -> (out: Option<u16>)
    ensures
        out == url_port(*url),
{
    url.port_or_known_default()
}

/// Calls `str::to_uppercase`. Trusted: the result is the text in upper
/// case.
#[verifier::external_body]
fn to_upper(text: &str) -> (out: String)
    ensures
        out@ == uppercased(text@),
{
    text.to_uppercase()
}

/// An address of the internet protocol: the four octets of version 4, or
/// the 128 bits of version 6.
#[derive(Clone, Copy, Debug, PartialEq, Eq, Structural)]
pub enum IpAddress {
    V4(u8, u8, u8, u8),
    V6(u128),
}

/// Whether an address is not to be reached from outside: for version 4 the
/// loopback range 127.0.0.0/8, the private ranges 10.0.0.0/8,
/// 172.16.0.0/12 and 192.168.0.0/16, and the link-local range
/// 169.254.0.0/16; for version 6 the loopback address `::1`.
pub open spec fn private_ip(ip: IpAddress) -> bool {
    match ip {
        IpAddress::V4(a, b, c, d) => {
            ||| a == 127
            ||| a == 10
            ||| (a == 172 && 16 <= b <= 31)
            ||| (a == 192 && b == 168)
            ||| (a == 169 && b == 254)
        },
        IpAddress::V6(bits) => bits == 1,
    }
}

/// Whether an address is not to be reached from outside.
pub fn is_private_ip(ip: &IpAddress) -> (private: bool)
    ensures
        private == private_ip(*ip),
{
    match ip {
        IpAddress::V4(a, b, _, _) => {
            *a == 127 || *a == 10 || (*a == 172 && 16 <= *b && *b <= 31) || (*a == 192 && *b
                == 168) || (*a == 169 && *b == 254)
        },
        IpAddress::V6(bits) => *bits == 1,
    }
}

/// The host of a URL as text: `None` where the text is no URL or the URL
/// has no host.
pub open spec fn host_text_of(url: Seq<char>) -> Option<Seq<char>> {
    match url_parsed(url) {
        Some(parsed) => url_host_text(parsed),
        None => None,
    }
}

/// The host of a URL as text. The caller reads it as an address, as it
/// stands and without square brackets round it.
pub fn url_host(url: &str) -> (out: Option<String>)
    ensures
        match out {
            Some(host) => host_text_of(url@) == Some(host@),
            None => host_text_of(url@) is None,
        },
{
    match parse_url(url) {
        Some(parsed) => host_of(&parsed),
        None => None,
    }
}

/// A text without the characters `c` it begins with.
pub open spec fn without_leading(text: Seq<char>, c: char) -> Seq<char>
    decreases text.len(),
{
    if text.len() > 0 && text[0] == c {
        without_leading(text.drop_first(), c)
    } else {
        text
    }
}

/// A text without the characters `c` it ends with.
pub open spec fn without_trailing(text: Seq<char>, c: char) -> Seq<char>
    decreases text.len(),
{
    if text.len() > 0 && text.last() == c {
        without_trailing(text.drop_last(), c)
    } else {
        text
    }
}

/// A host without the square brackets round it.
pub open spec fn bare_host(host: Seq<char>) -> Seq<char> {
    without_trailing(without_leading(host, '['), ']')
}

fn strip_brackets(host: &str) -> (bare: String)
    ensures
        bare@ == bare_host(host@),
{
    let n = host.unicode_len();
    let mut from: usize = 0;
    assert(host@.skip(0) =~= host@);
    while from < n && host.get_char(from) == '['
        invariant
            from <= n,
            n == host@.len(),
            without_leading(host@, '[') == without_leading(host@.skip(from as int), '['),
        decreases n - from,
    {
        assert(host@.skip(from as int)[0] == host@[from as int]);
        assert(host@.skip(from as int).drop_first() =~= host@.skip(from as int + 1));
        from += 1;
    }
    let ghost rest = host@.skip(from as int);
    assert(without_leading(host@, '[') == rest) by {
        if from < n {
            assert(rest[0] == host@[from as int]);
        }
    };
    let mut to: usize = n;
    assert(rest.take((n - from) as int) =~= rest);
    while to > from && host.get_char(to - 1) == ']'
        invariant
            from <= to <= n,
            n == host@.len(),
            rest == host@.skip(from as int),
            without_trailing(rest, ']') == without_trailing(rest.take(to - from), ']'),
        decreases to,
    {
        assert(rest.take(to - from).last() == host@[to - 1]);
        assert(rest.take(to - from).drop_last() =~= rest.take(to - from - 1));
        to -= 1;
    }
    let ghost kept = rest.take(to - from);
    assert(without_trailing(rest, ']') == kept) by {
        if to > from {
            assert(kept.last() == host@[to - 1]);
        }
    };
    assert(kept =~= host@.subrange(from as int, to as int));
    String::from_str(host.substring_char(from, to))
}

/// The two texts that the caller reads as an address for a URL: its host
/// as it stands, and its host without square brackets round it. There are
/// none where the text is no URL or the URL has no host.
pub fn address_texts(url: &str) -> (out: Option<(String, String)>)
    ensures
        match out {
            Some((host, bare)) => host_text_of(url@) == Some(host@) && bare@ == bare_host(host@),
            None => host_text_of(url@) is None,
        },
{
    match url_host(url) {
        Some(host) => {
            let bare = strip_brackets(host.as_str());
            Some((host, bare))
        },
        None => None,
    }
}

/// Whether a URL is blocked while local network access is off, given what
/// the two texts of `address_texts` read as: its host as an address
/// (`host_ip`), and its host without square brackets (`bare_ip`). Reading a
/// text as an address is the caller's. Blocked are: what is no URL; the `file` scheme; a
/// URL without a host; the host `localhost`; and a host that is a private
/// address.
pub open spec fn blocked_url(url: Seq<char>, host_ip: Option<IpAddress>, bare_ip: Option<
    IpAddress,
>) -> bool {
    match url_parsed(url) {
        None => true,
        Some(parsed) => {
            if url_scheme(parsed) == "file"@ {
                true
            } else {
                match url_host_text(parsed) {
                    None => true,
                    Some(host) => {
                        if host == "localhost"@ {
                            true
                        } else if host_ip is Some {
                            private_ip(host_ip.unwrap())
                        } else if bare_ip is Some {
                            private_ip(bare_ip.unwrap())
                        } else {
                            false
                        }
                    },
                }
            }
        },
    }
}

/// Whether a URL is blocked while local network access is off.
pub fn is_blocked_url(url: &str, host_ip: Option<IpAddress>, bare_ip: Option<IpAddress>) -> (blocked:
    bool)
    ensures
        blocked == blocked_url(url@, host_ip, bare_ip),
{
    let parsed = match parse_url(url) {
        Some(parsed) => parsed,
        None => {
            return true;
        },
    };
    let scheme = scheme_of(&parsed);
    if text_eq(scheme.as_str(), "file") {
        return true;
    }
    let host = match host_of(&parsed) {
        Some(host) => host,
        None => {
            return true;
        },
    };
    if text_eq(host.as_str(), "localhost") {
        return true;
    }
    match host_ip {
        Some(ip) => is_private_ip(&ip),
        None => match bare_ip {
            Some(ip) => is_private_ip(&ip),
            None => false,
        },
    }
}

/// The name to resolve before a fetch, as host and port with a colon
/// between, where the URL's host is a name: the port is the URL's own or
/// its scheme's, and 443 where neither is known. There is nothing to
/// resolve where the host is an address, where the text is no URL, and
/// where the URL has no host.
pub open spec fn lookup_target(url: Seq<char>, host_is_ip: bool) -> Option<Seq<char>> {
    match url_parsed(url) {
        None => None,
        Some(parsed) => match url_host_text(parsed) {
            None => None,
            Some(host) => if host_is_ip {
                None
            } else {
                Some(
                    host + ":"@ + decimal(
                        (match url_port(parsed) {
                            Some(port) => port,
                            None => 443u16,
                        }) as nat,
                    ),
                )
            },
        },
    }
}

/// The name to resolve before a fetch, if there is one.
pub fn check_dns_rebinding(url: &str, host_is_ip: bool) -> (out: Option<String>)
    ensures
        match out {
            Some(target) => lookup_target(url@, host_is_ip) == Some(target@),
            None => lookup_target(url@, host_is_ip) is None,
        },
{
    let parsed = match parse_url(url) {
        Some(parsed) => parsed,
        None => {
            return None;
        },
    };
    let host = match host_of(&parsed) {
        Some(host) => host,
        None => {
            return None;
        },
    };
    if host_is_ip {
        return None;
    }
    let port: u16 = match port_of(&parsed) {
        Some(port) => port,
        None => 443,
    };
    let mut target = join2(host.as_str(), ":");
    let number = decimal_string(port as u64);
    target.append(number.as_str());
    Some(target)
}

/// Whether the addresses a name resolved to give a rebinding attack away:
/// one of them is private. A name that did not resolve (`None`) gives
/// nothing away; the fetch itself then fails.
pub open spec fn rebinding_in(resolved: Option<Seq<IpAddress>>) -> bool {
    resolved is Some && any_private(resolved.unwrap())
}

/// Whether one of the addresses is private.
pub open spec fn any_private(addresses: Seq<IpAddress>) -> bool {
    exists|i: int| 0 <= i < addresses.len() && #[trigger] private_ip(addresses[i])
}

/// Whether the addresses a name resolved to give a rebinding attack away.
pub fn dns_rebinding_detected(resolved: Option<&Vec<IpAddress>>) -> (detected: bool)
    ensures
        detected == rebinding_in(
            match resolved {
                Some(addresses) => Some(addresses@),
                None => None,
            },
        ),
{
    match resolved {
        Some(addresses) => {
            let mut i: usize = 0;
            while i < addresses.len()
                invariant
                    resolved == Some(addresses),
                    i <= addresses.len(),
                    forall|j: int| 0 <= j < i ==> !private_ip(addresses@[j]),
                decreases addresses.len() - i,
            {
                if is_private_ip(&addresses[i]) {
                    assert(private_ip(addresses@[i as int]));
                    return true;
                }
                i += 1;
            }
            false
        },
        None => false,
    }
}

/// Whether a text ends with another.
pub open spec fn ends_with(text: Seq<char>, suffix: Seq<char>) -> bool {
    text.len() >= suffix.len() && text.subrange(text.len() - suffix.len(), text.len() as int)
        == suffix
}

/// Whether binary fetches may go to a host: `files.tmdb.org` and the
/// hosts under it.
pub open spec fn allowed_binary_host(host: Seq<char>) -> bool {
    host == "files.tmdb.org"@ || ends_with(host, ".files.tmdb.org"@)
}

/// Whether binary fetches may go to a URL: it is one, has a host, and the
/// host is allowed.
pub open spec fn allowed_binary_url(url: Seq<char>) -> bool {
    match host_text_of(url) {
        Some(host) => allowed_binary_host(host),
        None => false,
    }
}

fn has_suffix(text: &str, suffix: &str) -> (out: bool)
    ensures
        out == ends_with(text@, suffix@),
{
    let n = text.unicode_len();
    let m = suffix.unicode_len();
    if n < m {
        return false;
    }
    let start = n - m;
    let mut i: usize = 0;
    while i < m
        invariant
            i <= m,
            n == text@.len(),
            m == suffix@.len(),
            start == n - m,
            forall|j: int| 0 <= j < i ==> text@[start + j] == suffix@[j],
        decreases m - i,
    {
        if text.get_char(start + i) != suffix.get_char(i) {
            assert(text@.subrange(start as int, n as int)[i as int] != suffix@[i as int]);
            return false;
        }
        i += 1;
    }
    assert(text@.subrange(start as int, n as int) =~= suffix@);
    true
}

/// Whether binary fetches may go to a URL.
pub fn is_allowed_binary_url(url: &str) -> (allowed: bool)
    ensures
        allowed == allowed_binary_url(url@),
{
    match url_host(url) {
        Some(host) => text_eq(host.as_str(), "files.tmdb.org") || has_suffix(
            host.as_str(),
            ".files.tmdb.org",
        ),
        None => false,
    }
}

/// The methods a request can use.
#[derive(Clone, Copy, Debug, PartialEq, Eq, Structural)]
pub enum HttpMethod {
    Get,
    Post,
    Put,
    Delete,
    Patch,
}

/// The method of a request, from the name asked for: the name counts in
/// upper case, and whatever is none of `POST`, `PUT`, `DELETE` and `PATCH`,
/// or is missing, is a `GET`.
pub open spec fn method_of(name: Option<Seq<char>>) -> HttpMethod {
    match name {
        None => HttpMethod::Get,
        Some(name) => {
            let upper = uppercased(name);
            if upper == "POST"@ {
                HttpMethod::Post
            } else if upper == "PUT"@ {
                HttpMethod::Put
            } else if upper == "DELETE"@ {
                HttpMethod::Delete
            } else if upper == "PATCH"@ {
                HttpMethod::Patch
            } else {
                HttpMethod::Get
            }
        },
    }
}

/// What a request carries besides its URL. The headers are sent in the
/// order they stand in.
#[derive(Debug)]
pub struct FetchOptions {
    pub method: Option<String>,
    pub headers: Option<Vec<(String, String)>>,
    pub body: Option<String>,
}

impl FetchOptions {
    /// The method of the request.
    pub fn http_method(&self) -> (method: HttpMethod)
        ensures
            method == method_of(
                match self.method {
                    Some(name) => Some(name@),
                    None => None,
                },
            ),
    {
        match &self.method {
            None => HttpMethod::Get,
            Some(name) => {
                let upper = to_upper(name.as_str());
                let upper = upper.as_str();
                if text_eq(upper, "POST") {
                    HttpMethod::Post
                } else if text_eq(upper, "PUT") {
                    HttpMethod::Put
                } else if text_eq(upper, "DELETE") {
                    HttpMethod::Delete
                } else if text_eq(upper, "PATCH") {
                    HttpMethod::Patch
                } else {
                    HttpMethod::Get
                }
            },
        }
    }
}

/// A response as the frontend gets it.
#[derive(Debug)]
pub struct FetchProxyResponse {
    pub ok: bool,
    pub status: u16,
    pub status_text: String,
    pub text: String,
}

impl FetchProxyResponse {
    /// The response with this status, reason and body. It counts as ok
    /// where the status is from 200 to 299; a status without a known
    /// reason has an empty status text.
    pub fn new(status: u16, reason: Option<&str>, text: String) -> (out: FetchProxyResponse)
        ensures
            out.ok == (200 <= status < 300),
            out.status == status,
            out.status_text@ == (match reason {
                Some(words) => words@,
                None => Seq::<char>::empty(),
            }),
            out.text == text,
    {
        let status_text = match reason {
            Some(words) => String::from_str(words),
            None => String::new(),
        };
        FetchProxyResponse { ok: 200 <= status && status < 300, status, status_text, text }
    }
}

/// The outcome of a fetch as the frontend gets it: the data of one that
/// went through, or the failure in words.
#[derive(Debug)]
pub struct StorageResult<T> {
    pub success: Option<bool>,
    pub error: Option<String>,
    pub data: Option<T>,
}

impl<T> StorageResult<T> {
    /// The outcome of a fetch that went through.
    pub fn ok(data: T) -> (out: Self)
        ensures
            out.success == Some(true),
            out.error is None,
            out.data == Some(data),
    {
        StorageResult { success: Some(true), error: None, data: Some(data) }
    }

    /// The outcome of a fetch that failed.
    pub fn err(msg: String) -> (out: Self)
        ensures
            out.success == Some(false),
            out.error == Some(msg),
            out.data is None,
    {
        StorageResult { success: Some(false), error: Some(msg), data: None }
    }
}

/// Why a fetch did not go through.
#[derive(Debug)]
pub enum FetchFailure {
    /// The URL is blocked while local network access is off.
    BlockedUrl,
    /// The URL's name resolves to a private address.
    DnsRebinding,
    /// Binary fetches may not go to the URL's host.
    DomainNotAllowed(Option<String>),
    /// The request failed, with the reason.
    Request(String),
    /// The body could not be read, with the reason.
    Body(String),
    /// The server answered a binary fetch with a status that is no
    /// success, with its known reason.
    Status(u16, Option<String>),
}

/// The failure of a fetch in words.
pub open spec fn failure_text(failure: FetchFailure) -> Seq<char> {
    match failure {
        FetchFailure::BlockedUrl =>
            "Blocked: Local network access is disabled. Enable \"Allow LAN sources\" in Settings > Security if you trust this source."@,
        FetchFailure::DnsRebinding =>
            "Blocked: DNS resolves to a private IP address (possible DNS rebinding attack)."@,
        FetchFailure::DomainNotAllowed(host) => "Domain not allowed for binary fetch: "@ + (
        match host {
            Some(host) => host@,
            None => "unknown"@,
        }),
        FetchFailure::Request(reason) => "Fetch failed: "@ + reason@,
        FetchFailure::Body(reason) => "Failed to read response: "@ + reason@,
        FetchFailure::Status(code, reason) => "HTTP "@ + decimal(code as nat) + ": "@ + (
        match reason {
            Some(words) => words@,
            None => Seq::<char>::empty(),
        }),
    }
}

/// The failure of a fetch in words.
pub fn failure_message(failure: &FetchFailure) -> (message: String)
    ensures
        message@ == failure_text(*failure),
{
    match failure {
        FetchFailure::BlockedUrl => String::from_str(
            "Blocked: Local network access is disabled. Enable \"Allow LAN sources\" in Settings > Security if you trust this source.",
        ),
        FetchFailure::DnsRebinding => String::from_str(
            "Blocked: DNS resolves to a private IP address (possible DNS rebinding attack).",
        ),
        FetchFailure::DomainNotAllowed(host) => match host {
            Some(host) => join2("Domain not allowed for binary fetch: ", host.as_str()),
            None => join2("Domain not allowed for binary fetch: ", "unknown"),
        },
        FetchFailure::Request(reason) => join2("Fetch failed: ", reason.as_str()),
        FetchFailure::Body(reason) => join2("Failed to read response: ", reason.as_str()),
        FetchFailure::Status(code, reason) => {
            let number = decimal_string(*code as u64);
            let mut message = join2("HTTP ", number.as_str());
            message.append(": ");
            match reason {
                Some(words) => {
                    message.append(words.as_str());
                },
                None => {
                    assert(message@ + Seq::<char>::empty() =~= message@);
                },
            }
            message
        },
    }
}

/// What is to be done about a fetch through the proxy before it is sent.
#[derive(Clone, Copy, Debug, PartialEq, Eq, Structural)]
pub enum FetchGate {
    /// Send the request.
    Send,
    /// Resolve the host's name first, and look at the addresses.
    Resolve,
    /// Refuse: the URL is blocked.
    Refuse,
}

/// What is to be done about a fetch through the proxy: with local network
/// access on, everything is sent; with it off, a blocked URL is refused
/// and every other has its host's name resolved first, unless the host is
/// an address.
pub fn fetch_proxy(
    url: &str,
    allow_lan: Option<bool>,
    host_ip: Option<IpAddress>,
    bare_ip: Option<IpAddress>,
) -> (gate: FetchGate)
    ensures
        gate == (if allow_lan == Some(true) {
            FetchGate::Send
        } else if blocked_url(url@, host_ip, bare_ip) {
            FetchGate::Refuse
        } else if host_ip is Some {
            FetchGate::Send
        } else {
            FetchGate::Resolve
        }),
{
    match allow_lan {
        Some(true) => {
            return FetchGate::Send;
        },
        _ => {},
    }
    if is_blocked_url(url, host_ip, bare_ip) {
        FetchGate::Refuse
    } else if host_ip.is_some() {
        FetchGate::Send
    } else {
        FetchGate::Resolve
    }
}

/// The bytes of a binary fetch as the frontend gets them: as base64 text.
pub fn binary_payload(bytes: &Vec<u8>) -> (text: String)
    requires
        bytes@.len() / 3 * 4 + 4 <= usize::MAX,
    ensures
        text@ == base64_standard(bytes@),
        text@.len() == (bytes@.len() + 2) / 3 * 4,
{
    encode_base64(bytes)
}

/// Whether a binary fetch may be sent: `Ok` where its URL is allowed,
/// else the failure, which names the URL's host where it has one.
pub fn fetch_binary(url: &str) -> (out: Result<(), FetchFailure>)
    ensures
        match out {
            Ok(_) => allowed_binary_url(url@),
            Err(failure) => !allowed_binary_url(url@) && (match failure {
                FetchFailure::DomainNotAllowed(Some(host)) => host_text_of(url@) == Some(host@),
                FetchFailure::DomainNotAllowed(None) => host_text_of(url@) is None,
                _ => false,
            }),
        },
{
    if is_allowed_binary_url(url) {
        Ok(())
    } else {
        Err(FetchFailure::DomainNotAllowed(url_host(url)))
    }
}

} // verus!
