//! What the library reads of certificates and PEM texts, through the
//! `x509-parser` and `pem` crates.
use crate::text::opt_view;
use vstd::prelude::*;
use x509_parser::certificate::X509Certificate;
use x509_parser::certification_request::X509CertificationRequest;
use x509_parser::extensions::ParsedExtension::{BasicConstraints, ExtendedKeyUsage, KeyUsage};
use x509_parser::prelude::FromDer;

verus! {

/// What the library reads of an X.509 certificate: the first common name of
/// its subject, where that is a text; the Unix times of its `notAfter` and
/// `notBefore`; the first common name of its issuer, where that is a text;
/// and its basic constraints (whether it is a CA, and its path length
/// limit), where it carries them.
pub struct CertFacts {
    pub common_name: Option<String>,
    pub not_after: i64,
    pub not_before: i64,
    pub issuer_common_name: Option<String>,
    pub basic_constraints: Option<(bool, Option<u32>)>,
}

/// The facts read of a certificate, by their values.
pub type FactsView = (Option<Seq<char>>, i64, i64, Option<Seq<char>>, Option<(bool, Option<u32>)>);

/// A certificate's facts by their values.
pub open spec fn cert_facts_view(f: CertFacts) -> FactsView {
    (opt_view(f.common_name), f.not_after, f.not_before, opt_view(f.issuer_common_name), f.basic_constraints)
}

/// A parse result by its view.
pub open spec fn facts_view(r: Result<CertFacts, String>) -> Result<FactsView, Seq<char>> {
    match r {
        Ok(f) => Ok(cert_facts_view(f)),
        Err(e) => Err(e@),
    }
}

/// A decoding result by its view.
pub open spec fn bytes_view(r: Result<Vec<u8>, String>) -> Result<Seq<u8>, Seq<char>> {
    match r {
        Ok(b) => Ok(b@),
        Err(e) => Err(e@),
    }
}

/// What `x509_parser::parse_x509_certificate` gives of a DER certificate:
/// the subject's first common name as a text (where it has one that is a
/// text), the `notAfter` and `notBefore` times, the issuer's first common
/// name as a text, and the basic constraints extension; or the error's text.
pub uninterp spec fn spec_x509_facts(der: Seq<u8>) -> Result<FactsView, Seq<char>>;

/// Parses a DER certificate and reads what the library needs of it.
///
/// Calls `x509_parser::parse_x509_certificate`, then
/// `subject().iter_common_name().next()` and `as_str()`,
/// `validity().not_after.timestamp()`, `validity().not_before.timestamp()`,
/// the same for `issuer()`, and `basic_constraints()` (its `ca` and
/// `path_len_constraint`; an extension that occurs twice reads as absent).
/// Which inputs parse, and what they hold, is named, not stated.
#[verifier::external_body]
pub(crate) fn parse_certificate(der: &[u8]) -> (r: Result<CertFacts, String>)
    ensures
        facts_view(r) == spec_x509_facts(der@),
{
    match x509_parser::parse_x509_certificate(der) {
        Ok((_, c)) => Ok(CertFacts {
            common_name: c.subject().iter_common_name().next().and_then(|a| a.as_str().ok()).map(|s| s.to_string()),
            not_after: c.validity().not_after.timestamp(),
            not_before: c.validity().not_before.timestamp(),
            issuer_common_name: c.issuer().iter_common_name().next().and_then(|a| a.as_str().ok()).map(|s| s.to_string()),
            basic_constraints: c.basic_constraints().ok().flatten().map(|b| (b.value.ca, b.value.path_len_constraint)),
        }),
        Err(e) => Err(e.to_string()),
    }
}

/// What `pem::parse` gives of a text: the contents of its first PEM block,
/// or the error's text.
pub uninterp spec fn spec_pem_contents(text: Seq<char>) -> Result<Seq<u8>, Seq<char>>;

/// Decodes the first PEM block of a text.
///
/// Calls `pem::parse` and `into_contents`; which texts decode, and to what,
/// is named, not stated.
#[verifier::external_body]
pub(crate) fn pem_contents(text: &str) -> (r: Result<Vec<u8>, String>)
    ensures
        bytes_view(r) == spec_pem_contents(text@),
{
    pem::parse(text).map(|p| p.into_contents()).map_err(|e| e.to_string())
}

/// The facts of the certificate in a PEM text's first block, where that
/// block decodes and parses as a certificate.
pub open spec fn pem_cert_facts(pem: Seq<char>) -> Option<FactsView> {
    match spec_pem_contents(pem) {
        Ok(der) => match spec_x509_facts(der) {
            Ok(f) => Some(f),
            Err(_) => None,
        },
        Err(_) => None,
    }
}

/// Reads the certificate in a PEM text's first block.
pub fn read_pem_certificate(pem: &str) -> (r: Option<CertFacts>)
    ensures
        match r {
            Some(f) => pem_cert_facts(pem@) == Some(cert_facts_view(f)),
            None => pem_cert_facts(pem@) is None,
        },
{
    match pem_contents(pem) {
        Ok(der) => match parse_certificate(der.as_slice()) {
            Ok(f) => Some(f),
            Err(_) => None,
        },
        Err(_) => None,
    }
}

/// One attribute of a distinguished name: the dotted OID of its type and
/// its value as a text, where it is one.
pub struct NameAttr {
    pub oid: String,
    pub text: Option<String>,
}

/// An attribute by its values.
pub open spec fn name_attr_view(a: NameAttr) -> (Seq<char>, Option<Seq<char>>) {
    (a.oid@, opt_view(a.text))
}

/// A distinguished name by its attributes' values, in order.
pub open spec fn name_view(v: Seq<NameAttr>) -> Seq<(Seq<char>, Option<Seq<char>>)> {
    v.map_values(|a: NameAttr| name_attr_view(a))
}

/// What the library reads of a certificate's profile: its subject's
/// attributes in order, its key usage bits (bit 0 digitalSignature, 2
/// keyEncipherment, 5 keyCertSign, 6 cRLSign), its extended key usages
/// (serverAuth, clientAuth), and the bits of its subject public key.
pub struct CertProfileFacts {
    pub subject: Vec<NameAttr>,
    pub key_usage: Option<u16>,
    pub ext_usage: Option<(bool, bool)>,
    pub public_key: Vec<u8>,
}

/// A certificate's profile by its values.
pub type ProfileView = (Seq<(Seq<char>, Option<Seq<char>>)>, Option<u16>, Option<(bool, bool)>, Seq<u8>);

/// A certificate's profile facts by their values.
pub open spec fn profile_facts_view(f: CertProfileFacts) -> ProfileView {
    (name_view(f.subject@), f.key_usage, f.ext_usage, f.public_key@)
}

/// What `X509Certificate::from_der` gives of a DER certificate's profile:
/// the subject's attributes (`iter_attributes`, with `to_id_string` and
/// `as_str`), the key usage's `flags`, the extended key usage's
/// `server_auth` and `client_auth`, and the subject public key's bits;
/// `None` where it does not parse.
pub uninterp spec fn spec_x509_profile(der: Seq<u8>) -> Option<ProfileView>;

/// Reads the profile of a DER certificate.
///
/// Calls `X509Certificate::from_der` (the parser behind
/// `parse_x509_certificate`; what `parse_certificate` reads is kept apart
/// so that each wrapper stays small), then `subject().iter_attributes()`,
/// `key_usage()` and `extended_key_usage()` (an extension that occurs twice
/// reads as absent) and `public_key().subject_public_key`. What is read is
/// named, not stated.
#[verifier::external_body]
pub(crate) fn read_profile(der: &[u8]) -> (r: Option<CertProfileFacts>)
    ensures
        match r {
            Some(f) => spec_x509_profile(der@) == Some(profile_facts_view(f)),
            None => spec_x509_profile(der@) is None,
        },
{
    let (_, c) = X509Certificate::from_der(der).ok()?;
    Some(CertProfileFacts {
        subject: c.subject().iter_attributes().map(|a| NameAttr { oid: a.attr_type().to_id_string(), text: a.as_str().ok().map(String::from) }).collect(),
        key_usage: c.key_usage().ok().flatten().map(|k| k.value.flags),
        ext_usage: c.extended_key_usage().ok().flatten().map(|e| (e.value.server_auth, e.value.client_auth)),
        public_key: c.public_key().subject_public_key.data.to_vec(),
    })
}

/// The profile of the certificate in a PEM text's first block, where that
/// block decodes and parses as a certificate.
pub open spec fn pem_cert_profile(pem: Seq<char>) -> Option<ProfileView> {
    match spec_pem_contents(pem) {
        Ok(der) => spec_x509_profile(der),
        Err(_) => None,
    }
}

/// Reads the profile of the certificate in a PEM text's first block.
pub fn read_pem_profile(pem: &str) -> (r: Option<CertProfileFacts>)
    ensures
        match r {
            Some(f) => pem_cert_profile(pem@) == Some(profile_facts_view(f)),
            None => pem_cert_profile(pem@) is None,
        },
{
    match pem_contents(pem) {
        Ok(der) => read_profile(der.as_slice()),
        Err(_) => None,
    }
}

/// What the library reads of a certificate signing request: its subject's
/// attributes in order, the key usage bits, extended key usages
/// (serverAuth, clientAuth) and CA flag that it requests, and the bits of
/// its subject public key.
#[derive(Default)]
pub struct RequestFacts {
    pub subject: Vec<NameAttr>,
    pub key_usage: Option<u16>,
    pub ext_usage: Option<(bool, bool)>,
    pub ca: Option<bool>,
    pub public_key: Vec<u8>,
}

/// A request's facts by their values.
pub type RequestView = (Seq<(Seq<char>, Option<Seq<char>>)>, Option<u16>, Option<(bool, bool)>, Option<bool>, Seq<u8>);

/// A request's facts by their values.
pub open spec fn request_facts_view(f: RequestFacts) -> RequestView {
    (name_view(f.subject@), f.key_usage, f.ext_usage, f.ca, f.public_key@)
}

/// What `X509CertificationRequest::from_der` gives of a DER signing
/// request: its subject's attributes, the key usage, extended key usage and
/// basic constraints among its requested extensions, and its subject public
/// key's bits; `None` where it does not parse.
pub uninterp spec fn spec_x509_request(der: Seq<u8>) -> Option<RequestView>;

/// Reads a DER certificate signing request.
///
/// Calls `X509CertificationRequest::from_der`, then lists the subject's
/// attributes as `read_profile` does, takes the subject public key's bits,
/// and walks `requested_extensions()` for the key usage `flags`, the
/// extended key usage's `server_auth` and `client_auth` and the basic
/// constraints' `ca` (the last of each kind counts). What is read is named,
/// not stated.
#[verifier::external_body]
pub(crate) fn read_request(der: &[u8]) -> (r: Option<RequestFacts>)
    ensures
        match r {
            Some(f) => spec_x509_request(der@) == Some(request_facts_view(f)),
            None => spec_x509_request(der@) is None,
        },
{
    let (_, q) = X509CertificationRequest::from_der(der).ok()?;
    let mut f = RequestFacts {
        subject: q.certification_request_info.subject.iter_attributes().map(|a| NameAttr { oid: a.attr_type().to_id_string(), text: a.as_str().ok().map(String::from) }).collect(),
        public_key: q.certification_request_info.subject_pki.subject_public_key.data.to_vec(),
        ..Default::default()
    };
    for e in q.requested_extensions().into_iter().flatten() {
        match e {
            KeyUsage(k) => f.key_usage = Some(k.flags),
            ExtendedKeyUsage(u) => f.ext_usage = Some((u.server_auth, u.client_auth)),
            BasicConstraints(b) => f.ca = Some(b.ca),
            _ => {}
        }
    }
    Some(f)
}

/// The request in a PEM text's first block, where that block decodes and
/// parses as a signing request.
pub open spec fn pem_request(pem: Seq<char>) -> Option<RequestView> {
    match spec_pem_contents(pem) {
        Ok(der) => spec_x509_request(der),
        Err(_) => None,
    }
}

/// Reads the signing request in a PEM text's first block.
pub fn read_pem_request(pem: &str) -> (r: Option<RequestFacts>)
    ensures
        match r {
            Some(f) => pem_request(pem@) == Some(request_facts_view(f)),
            None => pem_request(pem@) is None,
        },
{
    match pem_contents(pem) {
        Ok(der) => read_request(der.as_slice()),
        Err(_) => None,
    }
}

} // verus!
