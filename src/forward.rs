//! How one request is forwarded: the target URL, the header edits, the
//! outbound proxy, and the status reported when the target cannot be reached.

use vstd::prelude::*;
use crate::config::{Header, ProxyConfig};
use crate::text::{decimal, is_blank, is_blank_text, joined, lower_of, lowercase, u16_text};

verus! {

/// The parts of a parsed URL that forwarding reads.
#[derive(Debug)]
pub struct UrlParts {
    pub scheme: String,
    /// The host as written in the URL; `None` for URLs without one.
    pub host: Option<String>,
    /// The port, when it is given and is not the scheme's default.
    pub port: Option<u16>,
    pub path: String,
    pub query: Option<String>,
}

/// `UrlParts` as values.
pub struct UrlView {
    pub scheme: Seq<char>,
    pub host: Option<Seq<char>>,
    pub port: Option<u16>,
    pub path: Seq<char>,
    pub query: Option<Seq<char>>,
}

pub open spec fn text_opt(o: Option<String>) -> Option<Seq<char>> {
    match o {
        Some(s) => Some(s@),
        None => None,
    }
}

pub open spec fn str_opt(o: Option<&str>) -> Option<Seq<char>> {
    match o {
        Some(s) => Some(s@),
        None => None,
    }
}

impl View for UrlParts {
    type V = UrlView;

    open spec fn view(&self) -> UrlView {
        UrlView {
            scheme: self.scheme@,
            host: text_opt(self.host),
            port: self.port,
            path: self.path@,
            query: text_opt(self.query),
        }
    }
}

pub open spec fn url_opt(o: Option<UrlParts>) -> Option<UrlView> {
    match o {
        Some(u) => Some(u@),
        None => None,
    }
}

/// What `url::Url::parse` makes of a text: `None` where it refuses it.
pub uninterp spec fn parsed_url(s: Seq<char>) -> Option<UrlView>;

/// Relies on `url::Url::parse` and, on the parsed URL, `scheme`, `host_str`,
/// `port`, `path` and `query`: the result depends on the text alone.
#[verifier::external_body]
pub(crate) fn parse_url(s: &str) -> (r: Option<UrlParts>)
    ensures
        url_opt(r) == parsed_url(s@),
{
    match url::Url::parse(s) {
        Ok(u) => Some(UrlParts {
            scheme: u.scheme().to_string(),
            host: u.host_str().map(|h| h.to_string()),
            port: u.port(),
            path: u.path().to_string(),
            query: u.query().map(|q| q.to_string()),
        }),
        Err(_) => None,
    }
}

/// The URL that a request is sent to: the target's base URL followed by the
/// request's own path and query, verbatim.
pub fn target_url(remote_address: &str, path_and_query: &str) -> (r: String)
    ensures
        r@ == remote_address@ + path_and_query@,
{
    joined(remote_address, path_and_query)
}

/// The Host header sent to the target: the configured override when it is
/// not empty, else the target's host, with its port when one is given.
pub open spec fn host_header_of(remote_host: Seq<char>, remote: Option<UrlView>) -> Option<Seq<char>> {
    if remote_host.len() > 0 {
        Some(remote_host)
    } else {
        match remote {
            Some(u) => match u.host {
                Some(h) => match u.port {
                    Some(p) => Some(h + ":"@ + decimal(p as nat)),
                    None => if h.len() > 0 { Some(h) } else { None },
                },
                None => None,
            },
            None => None,
        }
    }
}

/// The Host header for a target whose base URL parsed to `remote`.
pub fn host_header_value(remote_host: &str, remote: &Option<UrlParts>) -> (r: Option<String>)
    ensures
        text_opt(r) == host_header_of(remote_host@, url_opt(*remote)),
{
    if !remote_host.is_empty() {
        return Some(String::from_str(remote_host));
    }
    match remote {
        Some(u) => match &u.host {
            Some(h) => match u.port {
                Some(p) => {
                    let mut v = joined(h.as_str(), ":");
                    let digits = u16_text(p);
                    v.append(digits.as_str());
                    Some(v)
                },
                None => if h.as_str().is_empty() { None } else { Some(h.clone()) },
            },
            None => None,
        },
        None => None,
    }
}

/// A URL-valued header pointed at `host`: the scheme (the given one, else
/// the URL's own, else `http`), `://`, the host, then the URL's path and
/// query, for a value that parsed to `parsed`.
pub open spec fn rewritten_url(parsed: UrlView, host: Seq<char>, scheme: Option<Seq<char>>) -> Seq<char> {
    let s = match scheme {
        Some(s) => s,
        None => parsed.scheme,
    };
    let q = match parsed.query {
        Some(q) => "?"@ + q,
        None => Seq::<char>::empty(),
    };
    s + "://"@ + host + parsed.path + q
}

/// The URL `original_url` with its scheme and host replaced; `None` when the
/// value does not parse as a URL, so that it is left as it is.
pub fn rewrite_url_header(original_url: &str, target_host: &str, scheme: Option<&str>) -> (r: Option<String>)
    ensures
        parsed_url(original_url@) is None ==> r is None,
        parsed_url(original_url@) is Some ==> r is Some && r->Some_0@ == rewritten_url(
            parsed_url(original_url@)->Some_0,
            target_host@,
            str_opt(scheme),
        ),
{
    match parse_url(original_url) {
        Some(u) => {
            let mut r = match scheme {
                Some(s) => String::from_str(s),
                None => u.scheme.clone(),
            };
            r.append("://");
            r.append(target_host);
            r.append(u.path.as_str());
            match &u.query {
                Some(q) => {
                    r.append("?");
                    r.append(q.as_str());
                },
                None => {},
            }
            Some(r)
        },
        None => None,
    }
}

/// A change to the headers of a forwarded request.
#[derive(Debug)]
pub enum HeaderEdit {
    /// Remove every header of this name.
    Remove(String),
    /// Insert this header, replacing any of the same name.
    Insert(String, String),
}

pub enum EditView {
    Remove(Seq<char>),
    Insert(Seq<char>, Seq<char>),
}

impl View for HeaderEdit {
    type V = EditView;

    open spec fn view(&self) -> EditView {
        match self {
            HeaderEdit::Remove(n) => EditView::Remove(n@),
            HeaderEdit::Insert(n, v) => EditView::Insert(n@, v@),
        }
    }
}

pub open spec fn edits_view(s: Seq<HeaderEdit>) -> Seq<EditView> {
    s.map_values(|e: HeaderEdit| e@)
}

/// The configured extra headers that are applied: those with a key that is
/// not empty and is not `host` in any case.
pub open spec fn extra_edits(hs: Seq<Header>) -> Seq<EditView>
    decreases hs.len(),
{
    if hs.len() == 0 {
        Seq::empty()
    } else {
        let rest = extra_edits(hs.drop_last());
        let h = hs.last();
        if h.key@.len() > 0 && lower_of(h.key@) != "host"@ {
            rest.push(EditView::Insert(h.key@, h.value@))
        } else {
            rest
        }
    }
}

/// The edit that points one URL-valued header at the target, if the request
/// carries it and it parses.
pub open spec fn url_header_edit(name: Seq<char>, value: Option<Seq<char>>, host: Seq<char>, scheme: Seq<char>) -> Seq<EditView> {
    match value {
        Some(v) => match parsed_url(v) {
            Some(p) => seq![EditView::Insert(name, rewritten_url(p, host, Some(scheme)))],
            None => Seq::empty(),
        },
        None => Seq::empty(),
    }
}

/// The Referer and Origin edits: made only when rewriting is on and the
/// target's base URL has a host.
pub open spec fn origin_edits(
    rewrite: bool,
    remote: Option<UrlView>,
    referer: Option<Seq<char>>,
    origin: Option<Seq<char>>,
) -> Seq<EditView> {
    if rewrite && remote is Some && remote->Some_0.host is Some {
        let u = remote->Some_0;
        let host = u.host->Some_0;
        url_header_edit("referer"@, referer, host, u.scheme) + url_header_edit("origin"@, origin, host, u.scheme)
    } else {
        Seq::empty()
    }
}

/// All edits of a forwarded request's headers, in the order they apply: the
/// inbound Host goes, the target's Host comes, Referer and Origin are
/// rewritten, and the configured extra headers are set last.
pub open spec fn header_edits_of(
    config: ProxyConfig,
    remote: Option<UrlView>,
    referer: Option<Seq<char>>,
    origin: Option<Seq<char>>,
) -> Seq<EditView> {
    let strip = seq![EditView::Remove("host"@)];
    let host = match host_header_of(config.remote_host@, remote) {
        Some(h) => seq![EditView::Insert("host"@, h)],
        None => Seq::empty(),
    };
    strip + host + origin_edits(config.rewrite_host_headers, remote, referer, origin) + extra_edits(
        config.headers@,
    )
}

fn push_edit(edits: &mut Vec<HeaderEdit>, e: HeaderEdit)
    ensures
        edits_view(final(edits)@) == edits_view(old(edits)@).push(e@),
{
    edits.push(e);
    assert(edits_view(edits@) =~= edits_view(old(edits)@).push(e@));
}

fn push_url_header_edit(
    edits: &mut Vec<HeaderEdit>,
    name: &str,
    value: Option<&str>,
    host: &str,
    scheme: &str,
)
    ensures
        edits_view(final(edits)@) == edits_view(old(edits)@) + url_header_edit(
            name@,
            str_opt(value),
            host@,
            scheme@,
        ),
{
    match value {
        Some(v) => match rewrite_url_header(v, host, Some(scheme)) {
            Some(new_value) => {
                push_edit(edits, HeaderEdit::Insert(String::from_str(name), new_value));
                assert(edits_view(edits@) =~= edits_view(old(edits)@) + url_header_edit(
                    name@,
                    str_opt(value),
                    host@,
                    scheme@,
                ));
            },
            None => {
                assert(edits_view(edits@) =~= edits_view(old(edits)@) + Seq::<EditView>::empty());
            },
        },
        None => {
            assert(edits_view(edits@) =~= edits_view(old(edits)@) + Seq::<EditView>::empty());
        },
    }
}

/// The header edits for a request to an endpoint whose target's base URL
/// parsed to `remote`, given the request's Referer and Origin values.
pub fn header_edits_for(
    config: &ProxyConfig,
    remote: &Option<UrlParts>,
    referer: Option<&str>,
    origin: Option<&str>,
) -> (r: Vec<HeaderEdit>)
    ensures
        edits_view(r@) == header_edits_of(*config, url_opt(*remote), str_opt(referer), str_opt(origin)),
{
    let ghost rv = url_opt(*remote);
    let mut edits: Vec<HeaderEdit> = Vec::new();
    push_edit(&mut edits, HeaderEdit::Remove(String::from_str("host")));
    let ghost after_strip = edits_view(edits@);
    assert(after_strip =~= seq![EditView::Remove("host"@)]);
    match host_header_value(config.remote_host.as_str(), remote) {
        Some(h) => push_edit(&mut edits, HeaderEdit::Insert(String::from_str("host"), h)),
        None => {},
    }
    let ghost host_part = match host_header_of(config.remote_host@, rv) {
        Some(h) => seq![EditView::Insert("host"@, h)],
        None => Seq::<EditView>::empty(),
    };
    assert(edits_view(edits@) =~= after_strip + host_part);
    let ghost after_host = edits_view(edits@);
    if config.rewrite_host_headers {
        match remote {
            Some(u) => match &u.host {
                Some(host) => {
                    push_url_header_edit(&mut edits, "referer", referer, host.as_str(), u.scheme.as_str());
                    push_url_header_edit(&mut edits, "origin", origin, host.as_str(), u.scheme.as_str());
                },
                None => {},
            },
            None => {},
        }
    }
    let ghost ov = origin_edits(config.rewrite_host_headers, rv, str_opt(referer), str_opt(origin));
    assert(edits_view(edits@) =~= after_host + ov);
    let ghost after_origin = edits_view(edits@);
    let host_key = String::from_str("host");
    let mut i: usize = 0;
    while i < config.headers.len()
        invariant
            i <= config.headers@.len(),
            host_key@ == "host"@,
            edits_view(edits@) == after_origin + extra_edits(config.headers@.subrange(0, i as int)),
        decreases config.headers.len() - i,
    {
        let h = &config.headers[i];
        let ghost sub = config.headers@.subrange(0, i + 1);
        assert(sub.drop_last() =~= config.headers@.subrange(0, i as int));
        assert(sub.last() == *h);
        if !h.key.as_str().is_empty() {
            let lowered = lowercase(h.key.as_str());
            if lowered != host_key {
                push_edit(&mut edits, HeaderEdit::Insert(h.key.clone(), h.value.clone()));
            }
        }
        assert(edits_view(edits@) =~= after_origin + extra_edits(sub));
        i = i + 1;
    }
    assert(config.headers@.subrange(0, config.headers@.len() as int) =~= config.headers@);
    edits
}

/// The header edits for a request to the endpoint `config`, given the
/// request's Referer and Origin values.
pub fn request_header_edits(config: &ProxyConfig, referer: Option<&str>, origin: Option<&str>) -> (r: Vec<HeaderEdit>)
    ensures
        edits_view(r@) == header_edits_of(
            *config,
            parsed_url(config.remote_address@),
            str_opt(referer),
            str_opt(origin),
        ),
{
    let remote = parse_url(config.remote_address.as_str());
    header_edits_for(config, &remote, referer, origin)
}

/// The status code sent back when the target could not be reached: 504 on a
/// timeout, 502 when no connection was made, 500 for anything else.
pub fn failure_status(is_timeout: bool, is_connect: bool) -> (r: u16)
    ensures
        is_timeout ==> r == 504,
        !is_timeout && is_connect ==> r == 502,
        !is_timeout && !is_connect ==> r == 500,
{
    if is_timeout {
        504
    } else if is_connect {
        502
    } else {
        500
    }
}

/// The SOCKS5 proxy for the endpoint's outbound connections, if one is
/// configured and is not blank.
pub fn outbound_proxy(config: &ProxyConfig) -> (r: Option<String>)
    ensures
        config.socks5_proxy is Some && !is_blank_text(config.socks5_proxy->Some_0@)
            ==> r is Some && r->Some_0 == config.socks5_proxy->Some_0,
        !(config.socks5_proxy is Some && !is_blank_text(config.socks5_proxy->Some_0@)) ==> r is None,
{
    match &config.socks5_proxy {
        Some(p) => if is_blank(p.as_str()) { None } else { Some(p.clone()) },
        None => None,
    }
}

} // verus!
