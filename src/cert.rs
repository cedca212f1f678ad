//! The self-signed certificate that a TLS endpoint presents.

use vstd::prelude::*;
use crate::error::ProxyError;
use crate::text::{joined, seq_starts_with};

verus! {

#[verifier::external_type_specification]
#[verifier::external_body]
pub struct ExCertificateParams(rcgen::CertificateParams);

#[verifier::external_type_specification]
#[verifier::external_body]
pub struct ExKeyPair(rcgen::KeyPair);

#[verifier::external_type_specification]
#[verifier::external_body]
pub struct ExCertificate(rcgen::Certificate);

/// Relies on `rcgen::CertificateParams::default` and
/// `rcgen::DistinguishedName::push`: parameters with the default validity
/// window whose subject holds the given common name, organization and
/// country.
#[verifier::external_body]
fn subject_params(common_name: &str, organization: &str, country: &str) -> rcgen::CertificateParams {
    let mut params = rcgen::CertificateParams::default();
    let mut name = rcgen::DistinguishedName::new();
    name.push(rcgen::DnType::CommonName, common_name);
    name.push(rcgen::DnType::OrganizationName, organization);
    name.push(rcgen::DnType::CountryName, country);
    params.distinguished_name = name;
    params
}

/// Relies on `rcgen::Ia5String::try_from`, which accepts exactly the ASCII
/// texts, to add a DNS subject alternative name.
#[verifier::external_body]
fn add_dns_name(params: &mut rcgen::CertificateParams, name: &str) -> (r: Result<(), String>)
    ensures
        r is Ok <==> vstd::utf8::is_ascii_chars(name@),
{
    match rcgen::Ia5String::try_from(name) {
        Ok(n) => {
            params.subject_alt_names.push(rcgen::SanType::DnsName(n));
            Ok(())
        },
        Err(e) => Err(format!("{:?}", e)),
    }
}

/// Relies on `str::parse` into an IP address, which accepts the dotted IPv4
/// form and the textual IPv6 form, to add an IP subject alternative name.
#[verifier::external_body]
fn add_ip_address(params: &mut rcgen::CertificateParams, ip: &str) -> (r: Result<(), String>)
    ensures
        ip@ == "127.0.0.1"@ || ip@ == "::1"@ ==> r is Ok,
{
    match ip.parse() {
        Ok(a) => {
            params.subject_alt_names.push(rcgen::SanType::IpAddress(a));
            Ok(())
        },
        Err(e) => Err(format!("{:?}", e)),
    }
}

/// Relies on `rcgen::KeyPair::generate`: a new random ECDSA P-256 key pair.
#[verifier::external_body]
fn generate_key_pair() -> Result<rcgen::KeyPair, String> {
    rcgen::KeyPair::generate().map_err(|e| e.to_string())
}

/// Relies on `rcgen::CertificateParams::self_signed`: the parameters signed
/// with the key.
#[verifier::external_body]
fn sign(params: rcgen::CertificateParams, key: &rcgen::KeyPair) -> Result<rcgen::Certificate, String> {
    params.self_signed(key).map_err(|e| e.to_string())
}

/// Relies on `rcgen::Certificate::pem`: the certificate PEM-encoded.
#[verifier::external_body]
fn certificate_pem(cert: &rcgen::Certificate) -> Vec<u8> {
    cert.pem().into_bytes()
}

/// Relies on `rcgen::KeyPair::serialize_pem`: the private key in PKCS#8,
/// PEM-encoded.
#[verifier::external_body]
fn private_key_pem(key: &rcgen::KeyPair) -> Vec<u8> {
    key.serialize_pem().into_bytes()
}

/// A certificate failure: what failed, then the cause.
fn cert_error(what: &str, cause: &str) -> (r: ProxyError)
    ensures
        r is CertificateError,
        seq_starts_with(r->CertificateError_0@, what@),
{
    let m = joined(what, cause);
    assert(m@.subrange(0, what@.len() as int) =~= what@);
    ProxyError::CertificateError(m)
}

/// What a certificate is issued for: its subject and its alternative names.
#[derive(Debug)]
pub struct CertRequest {
    pub common_name: String,
    pub organization: String,
    pub country: String,
    pub dns_names: Vec<String>,
    pub ip_addresses: Vec<String>,
}

/// The request for a local endpoint: subject `localhost` of the
/// application, valid for `localhost`, `127.0.0.1` and `::1`.
pub open spec fn is_localhost_request(r: CertRequest) -> bool {
    &&& r.common_name@ == "localhost"@
    &&& r.organization@ == "Reverse Proxy GUI"@
    &&& r.country@ == "US"@
    &&& r.dns_names@.len() == 1
    &&& r.dns_names@[0]@ == "localhost"@
    &&& r.ip_addresses@.len() == 2
    &&& r.ip_addresses@[0]@ == "127.0.0.1"@
    &&& r.ip_addresses@[1]@ == "::1"@
}

/// An IP address text that always parses.
pub open spec fn is_loopback_text(s: Seq<char>) -> bool {
    s == "127.0.0.1"@ || s == "::1"@
}

/// The names of the request are all accepted: its DNS names are ASCII and
/// its addresses are loopback texts.
pub open spec fn request_names_accepted(r: CertRequest) -> bool {
    &&& forall|i: int| 0 <= i < r.dns_names@.len() ==> vstd::utf8::is_ascii_chars(#[trigger] r.dns_names@[i]@)
    &&& forall|i: int| 0 <= i < r.ip_addresses@.len() ==> is_loopback_text(#[trigger] r.ip_addresses@[i]@)
}

/// The certificate request of a local endpoint.
pub fn localhost_cert_request() -> (r: CertRequest)
    ensures
        is_localhost_request(r),
        request_names_accepted(r),
{
    let mut dns_names: Vec<String> = Vec::new();
    dns_names.push(String::from_str("localhost"));
    let mut ip_addresses: Vec<String> = Vec::new();
    ip_addresses.push(String::from_str("127.0.0.1"));
    ip_addresses.push(String::from_str("::1"));
    let r = CertRequest {
        common_name: String::from_str("localhost"),
        organization: String::from_str("Reverse Proxy GUI"),
        country: String::from_str("US"),
        dns_names,
        ip_addresses,
    };
    proof {
        reveal_strlit("localhost");
        assert(vstd::utf8::is_ascii_chars(r.dns_names@[0]@));
    }
    r
}

/// A fresh self-signed certificate for `req`, with its private key, both
/// PEM-encoded. Every failure is a `CertificateError` naming the step that
/// failed; a request whose names are all accepted fails only in key
/// generation or signing.
pub fn generate_cert_for(req: &CertRequest) -> (r: Result<(Vec<u8>, Vec<u8>), ProxyError>)
    ensures
        r is Err ==> r->Err_0 is CertificateError,
        r is Err ==> {
            let m = r->Err_0->CertificateError_0@;
            ||| seq_starts_with(m, "Invalid DNS name: "@)
            ||| seq_starts_with(m, "Invalid IP address: "@)
            ||| seq_starts_with(m, "Failed to generate key pair: "@)
            ||| seq_starts_with(m, "Failed to generate certificate: "@)
        },
        r is Err && request_names_accepted(*req) ==> {
            let m = r->Err_0->CertificateError_0@;
            ||| seq_starts_with(m, "Failed to generate key pair: "@)
            ||| seq_starts_with(m, "Failed to generate certificate: "@)
        },
{
    let mut params = subject_params(
        req.common_name.as_str(),
        req.organization.as_str(),
        req.country.as_str(),
    );
    let mut i: usize = 0;
    while i < req.dns_names.len()
        invariant
            i <= req.dns_names@.len(),
        decreases req.dns_names.len() - i,
    {
        if let Err(e) = add_dns_name(&mut params, req.dns_names[i].as_str()) {
            return Err(cert_error("Invalid DNS name: ", e.as_str()));
        }
        i = i + 1;
    }
    let mut j: usize = 0;
    while j < req.ip_addresses.len()
        invariant
            j <= req.ip_addresses@.len(),
        decreases req.ip_addresses.len() - j,
    {
        if let Err(e) = add_ip_address(&mut params, req.ip_addresses[j].as_str()) {
            return Err(cert_error("Invalid IP address: ", e.as_str()));
        }
        j = j + 1;
    }
    let key = match generate_key_pair() {
        Ok(k) => k,
        Err(e) => {
            return Err(cert_error("Failed to generate key pair: ", e.as_str()));
        },
    };
    let cert = match sign(params, &key) {
        Ok(c) => c,
        Err(e) => {
            return Err(cert_error("Failed to generate certificate: ", e.as_str()));
        },
    };
    Ok((certificate_pem(&cert), private_key_pem(&key)))
}

/// A fresh self-signed certificate for a local endpoint (the request of
/// `localhost_cert_request`), with its private key, both PEM-encoded. Only
/// key generation or signing can fail.
pub fn generate_self_signed_cert() -> (r: Result<(Vec<u8>, Vec<u8>), ProxyError>)
    ensures
        r is Err ==> r->Err_0 is CertificateError,
        r is Err ==> {
            let m = r->Err_0->CertificateError_0@;
            ||| seq_starts_with(m, "Failed to generate key pair: "@)
            ||| seq_starts_with(m, "Failed to generate certificate: "@)
        },
{
    let req = localhost_cert_request();
    generate_cert_for(&req)
}

} // verus!
