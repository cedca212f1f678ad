//! Endpoint configurations and the operations on the stored list of them.

use vstd::prelude::*;
use crate::error::CommandError;
use crate::text::{is_blank, is_blank_text, is_white_space};

verus! {

/// One extra request header that an endpoint sets on every forwarded request.
#[derive(Debug, Clone, Default)]
pub struct Header {
    pub key: String,
    pub value: String,
}

impl Header {
    /// A copy of the header.
    pub fn duplicate(&self) -> (r: Header)
        ensures
            r == *self,
    {
        Header { key: self.key.clone(), value: self.value.clone() }
    }
}

/// A copy of a list of headers, in the same order.
pub fn copy_headers(headers: &Vec<Header>) -> (r: Vec<Header>)
    ensures
        r@ == headers@,
{
    let mut r: Vec<Header> = Vec::new();
    let mut i: usize = 0;
    while i < headers.len()
        invariant
            i <= headers.len(),
            r@ == headers@.subrange(0, i as int),
        decreases headers.len() - i,
    {
        r.push(headers[i].duplicate());
        i = i + 1;
    }
    assert(headers@.subrange(0, headers.len() as int) =~= headers@);
    r
}

/// The description of one proxy endpoint.
#[derive(Debug, Clone)]
pub struct ProxyConfig {
    /// Assigned at creation, never changed.
    pub id: String,
    pub name: String,
    /// `ip:port` of the listener, filled in when the endpoint starts.
    pub listen_address: String,
    pub listen_port: u16,
    pub listen_ip: String,
    /// Base URL of the target: scheme, host and optional port.
    pub remote_address: String,
    /// Host header to send; derived from `remote_address` when empty.
    pub remote_host: String,
    /// Whether the listener terminates TLS.
    pub use_https: bool,
    pub headers: Vec<Header>,
    /// Whether `Referer` and `Origin` are pointed at the target.
    pub rewrite_host_headers: bool,
    /// SOCKS5 proxy for the outbound connections.
    pub socks5_proxy: Option<String>,
    pub created_at: i64,
    /// Shown to the user; the registry of running endpoints is what counts.
    pub is_running: bool,
}

/// `a` and `b` hold the same values.
pub open spec fn same_config(a: ProxyConfig, b: ProxyConfig) -> bool {
    &&& a.id@ == b.id@
    &&& a.name@ == b.name@
    &&& a.listen_address@ == b.listen_address@
    &&& a.listen_port == b.listen_port
    &&& a.listen_ip@ == b.listen_ip@
    &&& a.remote_address@ == b.remote_address@
    &&& a.remote_host@ == b.remote_host@
    &&& a.use_https == b.use_https
    &&& a.headers@ == b.headers@
    &&& a.rewrite_host_headers == b.rewrite_host_headers
    &&& a.socks5_proxy == b.socks5_proxy
    &&& a.created_at == b.created_at
    &&& a.is_running == b.is_running
}

/// The values of a fresh configuration, apart from its identifier and time.
pub open spec fn is_default_config(c: ProxyConfig) -> bool {
    &&& c.name@ == "New Proxy"@
    &&& c.listen_address@ == "http://127.0.0.1:8080"@
    &&& c.listen_port == 8080
    &&& c.listen_ip@ == "127.0.0.1"@
    &&& c.remote_address@ == "http://example.com"@
    &&& c.remote_host@ == "example.com"@
    &&& !c.use_https
    &&& c.headers@.len() == 0
    &&& c.rewrite_host_headers
    &&& c.socks5_proxy is None
    &&& !c.is_running
}

/// Stored configurations without the field read back as rewriting host
/// headers.
pub fn default_rewrite_host_headers() -> (r: bool)
    ensures
        r,
{
    true
}

/// A lowercase hexadecimal digit.
pub open spec fn is_lower_hex(c: char) -> bool {
    (0x30 <= c as u32 <= 0x39) || (0x61 <= c as u32 <= 0x66)
}

/// The hyphenated text of a random (version 4, RFC 4122 variant) UUID:
/// groups of 8, 4, 4, 4 and 12 lowercase hex digits, version digit `4`, and
/// a variant digit of `8`, `9`, `a` or `b`.
pub open spec fn is_uuid_v4_text(s: Seq<char>) -> bool {
    &&& s.len() == 36
    &&& forall|i: int|
        0 <= i < 36 ==> if i == 8 || i == 13 || i == 18 || i == 23 {
            #[trigger] s[i] == '-'
        } else {
            is_lower_hex(s[i])
        }
    &&& s[14] == '4'
    &&& (s[19] == '8' || s[19] == '9' || s[19] == 'a' || s[19] == 'b')
}

/// Relies on `uuid::Uuid::new_v4`, which fixes the version and variant bits
/// of a random value, and its `Display`, which writes the lowercase
/// hyphenated form.
#[verifier::external_body]
fn new_identifier() -> (r: String)
    ensures
        is_uuid_v4_text(r@),
{
    uuid::Uuid::new_v4().to_string()
}

/// Relies on `chrono::Utc::now` and `DateTime::timestamp`: the current time
/// in seconds since the Unix epoch.
#[verifier::external_body]
fn unix_now() -> i64 {
    chrono::Utc::now().timestamp()
}

impl ProxyConfig {
    /// A fresh configuration with the given identifier and creation time.
    pub fn with_identity(id: String, created_at: i64) -> (r: ProxyConfig)
        ensures
            is_default_config(r),
            r.id == id,
            r.created_at == created_at,
    {
        ProxyConfig {
            id,
            name: String::from_str("New Proxy"),
            listen_address: String::from_str("http://127.0.0.1:8080"),
            listen_port: 8080,
            listen_ip: String::from_str("127.0.0.1"),
            remote_address: String::from_str("http://example.com"),
            remote_host: String::from_str("example.com"),
            use_https: false,
            headers: Vec::new(),
            rewrite_host_headers: true,
            socks5_proxy: None,
            created_at,
            is_running: false,
        }
    }

    /// A copy of the configuration.
    pub fn duplicate(&self) -> (r: ProxyConfig)
        ensures
            same_config(r, *self),
    {
        let socks5_proxy = match &self.socks5_proxy {
            Some(p) => Some(p.clone()),
            None => None,
        };
        ProxyConfig {
            id: self.id.clone(),
            name: self.name.clone(),
            listen_address: self.listen_address.clone(),
            listen_port: self.listen_port,
            listen_ip: self.listen_ip.clone(),
            remote_address: self.remote_address.clone(),
            remote_host: self.remote_host.clone(),
            use_https: self.use_https,
            headers: copy_headers(&self.headers),
            rewrite_host_headers: self.rewrite_host_headers,
            socks5_proxy,
            created_at: self.created_at,
            is_running: self.is_running,
        }
    }

    /// Whether the configuration may be stored: its name is not blank and its
    /// port is not zero.
    pub fn validate(&self) -> (r: Result<(), CommandError>)
        ensures
            is_blank_text(self.name@) ==> r == Err::<(), CommandError>(CommandError::EmptyName),
            !is_blank_text(self.name@) && self.listen_port == 0
                ==> r == Err::<(), CommandError>(CommandError::InvalidPort),
            !is_blank_text(self.name@) && self.listen_port != 0 ==> r is Ok,
    {
        if is_blank(self.name.as_str()) {
            Err(CommandError::EmptyName)
        } else if self.listen_port == 0 {
            Err(CommandError::InvalidPort)
        } else {
            Ok(())
        }
    }
}

impl Default for ProxyConfig {
    /// A fresh configuration with a new random identifier, stamped now.
    fn default() -> (r: ProxyConfig)
        ensures
            is_default_config(r),
            is_uuid_v4_text(r.id@),
    {
        let id = new_identifier();
        let now = unix_now();
        ProxyConfig::with_identity(id, now)
    }
}

/// A fresh configuration passes the checks for storing it: its name is not
/// blank and its port is not zero.
pub proof fn lemma_default_config_saves(c: ProxyConfig)
    requires
        is_default_config(c),
    ensures
        !is_blank_text(c.name@),
        c.listen_port != 0,
{
    reveal_strlit("New Proxy");
    assert(!is_white_space(c.name@[0]));
}

} // verus!
