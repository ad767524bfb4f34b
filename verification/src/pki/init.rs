//! Bootstrap of the PKI hierarchy: its arguments, what each certificate of
//! the hierarchy is issued with, and its issuance through rcgen.
use crate::certs::spec_pem_contents;
use crate::issuance::{
    in_context_text, pem_labelled, all_ascii, profile_view, ca_params_from_pem, certificate_params, certificate_pem, copy_texts,
    generate_key_pair, in_context, key_pair_from_pem, key_pair_pem, names_encodable,
    params_signed_by, self_signed, texts, CaKind, CertProfile, ExtUse, KeyUse, ProfileValues,
    is_ascii, is_ascii_text, params_with_names, push_dns_name, spec_cert_params, spec_key_pem,
};
use crate::readback::{check_issued, check_key_of, key_of, pem_subject_cn, reads_as_issued, subject_cn_of};
use crate::text::is_prefix;
use crate::text::{push_str, to_owned_string};
use rcgen::{Certificate, KeyPair};
use std::path::PathBuf;
use vstd::prelude::*;

verus! {

/// Arguments of the `init-pki` command.
#[derive(Debug, Clone)]
pub struct InitPkiArgs {
    /// Where the PEM files are written.
    pub output_dir: PathBuf,
    /// Names (DNS names or IP addresses) of the receiving server.
    pub server_dns: Vec<String>,
    /// Names (DNS names or IP addresses) of the PKI server.
    pub pki_dns: Vec<String>,
    /// Days of validity of the root CA.
    pub root_days: u32,
    /// Days of validity of the intermediate CA.
    pub intermediate_days: u32,
    /// Days of validity of the server certificates.
    pub cert_days: u32,
}

/// The CA chain file: the intermediate certificate followed by the root.
pub fn ca_chain_pem(intermediate_cert_pem: &str, root_cert_pem: &str) -> (r: String)
    ensures
        r@ == intermediate_cert_pem@ + root_cert_pem@,
{
    let mut r = String::new();
    push_str(&mut r, intermediate_cert_pem);
    push_str(&mut r, root_cert_pem);
    r
}

/// The key uses of a CA of the hierarchy.
pub open spec fn ca_key_uses() -> Seq<KeyUse> {
    seq![KeyUse::KeyCertSign, KeyUse::CrlSign, KeyUse::DigitalSignature]
}

/// The key uses of a TLS server certificate.
pub open spec fn server_key_uses() -> Seq<KeyUse> {
    seq![KeyUse::DigitalSignature, KeyUse::KeyEncipherment]
}

fn ca_uses() -> (r: Vec<KeyUse>)
    ensures
        r@ == ca_key_uses(),
{
    let r = vec![KeyUse::KeyCertSign, KeyUse::CrlSign, KeyUse::DigitalSignature];
    assert(r@ =~= ca_key_uses());
    r
}

/// The root CA's profile: "OSC Root CA" of MedFasee's PKI unit,
/// unconstrained, for certificate and CRL signing and digital signatures,
/// valid for `days`.
pub open spec fn root_values(days: u32) -> ProfileValues {
    ("OSC Root CA"@, "MedFasee"@, Some("PKI"@), CaKind::Unconstrained, ca_key_uses(), Seq::<ExtUse>::empty(), Seq::<Seq<char>>::empty(), Seq::<Seq<char>>::empty(), Some(days))
}

/// The intermediate CA's profile: "OSC Intermediate CA" of MedFasee's PKI
/// unit, with no CA below it, for certificate and CRL signing and digital
/// signatures, valid for `days`.
pub open spec fn intermediate_values(days: u32) -> ProfileValues {
    ("OSC Intermediate CA"@, "MedFasee"@, Some("PKI"@), CaKind::PathLength(0), ca_key_uses(), Seq::<ExtUse>::empty(), Seq::<Seq<char>>::empty(), Seq::<Seq<char>>::empty(), Some(days))
}

/// A TLS server certificate's profile: `cn` of MedFasee, not a CA, for
/// digital signatures and key encipherment and TLS server authentication,
/// under `names` (IP addresses or DNS names), valid for `days`.
pub open spec fn server_values(cn: Seq<char>, names: Seq<Seq<char>>, days: u32) -> ProfileValues {
    (cn, "MedFasee"@, None::<Seq<char>>, CaKind::EndEntity, server_key_uses(), seq![ExtUse::ServerAuth], names, Seq::<Seq<char>>::empty(), Some(days))
}

/// The root CA: "OSC Root CA" of MedFasee's PKI unit, unconstrained, for
/// certificate and CRL signing and digital signatures, valid for
/// `validity_days`.
pub fn root_ca_profile(validity_days: u32) -> (p: CertProfile)
    ensures
        profile_view(p) == root_values(validity_days),
{
    let p = CertProfile {
        common_name: to_owned_string("OSC Root CA"),
        organization: to_owned_string("MedFasee"),
        unit: Some(to_owned_string("PKI")),
        ca: CaKind::Unconstrained,
        key_usages: ca_uses(),
        extended_usages: Vec::new(),
        names: Vec::new(),
        dns_names: Vec::new(),
        validity_days: Some(validity_days),
    };
    assert(texts(p.names@) =~= Seq::<Seq<char>>::empty());
    assert(texts(p.dns_names@) =~= Seq::<Seq<char>>::empty());
    p
}

/// The intermediate CA: "OSC Intermediate CA" of MedFasee's PKI unit, with
/// no CA below it, for certificate and CRL signing and digital signatures,
/// valid for `validity_days`.
pub fn intermediate_ca_profile(validity_days: u32) -> (p: CertProfile)
    ensures
        profile_view(p) == intermediate_values(validity_days),
{
    let p = CertProfile {
        common_name: to_owned_string("OSC Intermediate CA"),
        organization: to_owned_string("MedFasee"),
        unit: Some(to_owned_string("PKI")),
        ca: CaKind::PathLength(0),
        key_usages: ca_uses(),
        extended_usages: Vec::new(),
        names: Vec::new(),
        dns_names: Vec::new(),
        validity_days: Some(validity_days),
    };
    assert(texts(p.names@) =~= Seq::<Seq<char>>::empty());
    assert(texts(p.dns_names@) =~= Seq::<Seq<char>>::empty());
    p
}

/// A TLS server certificate named `cn` of MedFasee, not a CA, for digital
/// signatures and key encipherment, serving TLS servers under `names` (IP
/// addresses or DNS names), valid for `validity_days`.
pub fn server_profile(cn: &str, names: &Vec<String>, validity_days: u32) -> (p: CertProfile)
    ensures
        profile_view(p) == server_values(cn@, texts(names@), validity_days),
{
    let copied = copy_texts(names);
    let uses = vec![KeyUse::DigitalSignature, KeyUse::KeyEncipherment];
    assert(uses@ =~= server_key_uses());
    let ext = vec![ExtUse::ServerAuth];
    assert(ext@ =~= seq![ExtUse::ServerAuth]);
    let p = CertProfile {
        common_name: to_owned_string(cn),
        organization: to_owned_string("MedFasee"),
        unit: None,
        ca: CaKind::EndEntity,
        key_usages: uses,
        extended_usages: ext,
        names: copied,
        dns_names: Vec::new(),
        validity_days: Some(validity_days),
    };
    assert(texts(p.dns_names@) =~= Seq::<Seq<char>>::empty());
    p
}

/// Generates the self-signed root CA of the hierarchy, valid for
/// `validity_days`: its certificate and key, in PEM.
///
/// The key is random and signing may fail: of the texts it is promised
/// that they are a PEM certificate and a PEM private key, that the
/// certificate reads back with the root's profile (`root_values`) issued
/// by itself, valid for exactly `validity_days` days, and that the key is
/// the certificate's; an error is given in the context of the step that
/// failed.
pub fn generate_root_ca(validity_days: u32) -> (r: Result<(String, String), String>)
    ensures
        r matches Ok(p) ==> issued_pems(p)
            && reads_as_issued(p.0@, root_values(validity_days), Some("OSC Root CA"@), validity_days as nat)
            && key_of(p.1@, p.0@),
        r matches Err(e) ==> in_context_text(e@, "Gerando chave Root CA"@)
            || in_context_text(e@, "Gerando Root CA"@)
            || in_context_text(e@, "Auto-assinando Root CA"@),
{
    let key = match generate_key_pair() {
        Ok(k) => k,
        Err(e) => {
            return Err(in_context("Gerando chave Root CA", e));
        },
    };
    let profile = root_ca_profile(validity_days);
    let params = match certificate_params(&profile) {
        Ok(p) => p,
        Err(e) => {
            return Err(in_context("Gerando Root CA", e));
        },
    };
    let cert = match self_signed(params, &key) {
        Ok(c) => c,
        Err(e) => {
            return Err(in_context("Auto-assinando Root CA", e));
        },
    };
    let cert_pem = certificate_pem(&cert);
    let key_pem = key_pair_pem(&key);
    let issuer = Some(to_owned_string("OSC Root CA"));
    if !check_issued(cert_pem.as_str(), &profile, &issuer, validity_days) || !check_key_of(key_pem.as_str(), cert_pem.as_str()) {
        return Err(in_context("Auto-assinando Root CA", to_owned_string("certificado emitido não corresponde ao perfil")));
    }
    Ok((cert_pem, key_pem))
}

/// A certificate and its key, as PEM texts.
pub open spec fn issued_pems(p: (String, String)) -> bool {
    pem_labelled(p.0@, "CERTIFICATE"@) && pem_labelled(p.1@, "PRIVATE KEY"@)
}

/// An error in loading the issuer named `what`: of its key, of its
/// certificate, or of re-signing its certificate.
pub open spec fn issuer_load_error(e: Seq<char>, what: Seq<char>) -> bool {
    ||| in_context_text(e, "Carregando chave "@ + what)
    ||| in_context_text(e, "Carregando cert "@ + what)
    ||| in_context_text(e, "Recriando cert "@ + what + " para assinatura"@)
}

/// An error in issuing `what` (whose key is named `key_what`) under the
/// issuer named `issuer`: generating its key, building its parameters,
/// loading the issuer, or signing.
pub open spec fn issue_error(e: Seq<char>, issuer: Seq<char>, what: Seq<char>, key_what: Seq<char>) -> bool {
    ||| in_context_text(e, "Gerando chave "@ + key_what)
    ||| in_context_text(e, "Gerando "@ + what)
    ||| issuer_load_error(e, issuer)
    ||| in_context_text(e, "Assinando "@ + what)
}

/// Loads an issuer from its PEM certificate and key, re-signing its
/// parameters so that rcgen can sign with it.
fn load_issuer(cert_pem: &str, key_pem: &str, what: &str) -> (r: Result<(Certificate, KeyPair), String>)
    ensures
        r matches Err(e) ==> issuer_load_error(e@, what@),
        spec_key_pem(key_pem@) is None ==> (r matches Err(e) && in_context_text(e@, "Carregando chave "@ + what@)),
        spec_cert_params(cert_pem@) is None ==> r is Err,
        spec_pem_contents(key_pem@) is Err || spec_pem_contents(cert_pem@) is Err ==> r is Err,
{
    let key = match key_pair_from_pem(key_pem) {
        Ok((k, _)) => k,
        Err(e) => {
            let mut c = to_owned_string("Carregando chave ");
            push_str(&mut c, what);
            return Err(in_context(c.as_str(), e));
        },
    };
    let params = match ca_params_from_pem(cert_pem) {
        Ok((p, _)) => p,
        Err(e) => {
            let mut c = to_owned_string("Carregando cert ");
            push_str(&mut c, what);
            return Err(in_context(c.as_str(), e));
        },
    };
    match self_signed(params, &key) {
        Ok(cert) => Ok((cert, key)),
        Err(e) => {
            let mut c = to_owned_string("Recriando cert ");
            push_str(&mut c, what);
            push_str(&mut c, " para assinatura");
            Err(in_context(c.as_str(), e))
        },
    }
}

/// Issues a certificate for `profile`, valid for `days` days, under the
/// issuer given in PEM: the new certificate and its fresh key, in PEM. The
/// certificate is read back before it is handed out: it must carry the
/// profile's subject, basic constraints, key usages, extended key usages and
/// subject alternative names, the issuer's common name and exactly the
/// period asked for, and the key must be the certificate's.
fn issue_under(profile: &CertProfile, days: u32, issuer_cert_pem: &str, issuer_key_pem: &str, issuer_name: &str, what: &str, key_what: &str) -> (r: Result<(String, String), String>)
    requires
        profile.validity_days == Some(days),
    ensures
        !names_encodable(*profile) ==> r is Err,
        spec_pem_contents(issuer_key_pem@) is Err || spec_pem_contents(issuer_cert_pem@) is Err ==> r is Err,
        spec_key_pem(issuer_key_pem@) is None || spec_cert_params(issuer_cert_pem@) is None ==> r is Err,
        r matches Ok(p) ==> issued_pems(p) && key_of(p.1@, p.0@)
            && reads_as_issued(p.0@, profile_view(*profile), pem_subject_cn(issuer_cert_pem@), days as nat),
        r matches Err(e) ==> issue_error(e@, issuer_name@, what@, key_what@),
{
    let key = match generate_key_pair() {
        Ok(k) => k,
        Err(e) => {
            let mut c = to_owned_string("Gerando chave ");
            push_str(&mut c, key_what);
            return Err(in_context(c.as_str(), e));
        },
    };
    let params = match certificate_params(profile) {
        Ok(p) => p,
        Err(e) => {
            let mut c = to_owned_string("Gerando ");
            push_str(&mut c, what);
            return Err(in_context(c.as_str(), e));
        },
    };
    let (issuer, issuer_key) = match load_issuer(issuer_cert_pem, issuer_key_pem, issuer_name) {
        Ok(i) => i,
        Err(e) => {
            return Err(e);
        },
    };
    let mut signing = to_owned_string("Assinando ");
    push_str(&mut signing, what);
    let cert = match params_signed_by(params, &key, &issuer, &issuer_key) {
        Ok(cert) => cert,
        Err(e) => {
            return Err(in_context(signing.as_str(), e));
        },
    };
    let cert_pem = certificate_pem(&cert);
    let key_pem = key_pair_pem(&key);
    let issuer_cn = subject_cn_of(issuer_cert_pem);
    if !check_issued(cert_pem.as_str(), profile, &issuer_cn, days) || !check_key_of(key_pem.as_str(), cert_pem.as_str()) {
        return Err(in_context(signing.as_str(), to_owned_string("certificado emitido não corresponde ao perfil")));
    }
    Ok((cert_pem, key_pem))
}

/// Generates the intermediate CA, signed by the root CA given in PEM and
/// valid for `validity_days`: its certificate and key, in PEM.
///
/// A root certificate or key that is not PEM is refused. Past that, the key
/// is random and signing may fail: of the texts it is promised that they are
/// a PEM certificate and a PEM private key, that the certificate reads back
/// with the intermediate's profile (`intermediate_values`) issued by the
/// root's common name, valid for exactly `validity_days` days, and that the
/// key is the certificate's; an error is given in the context of the step
/// that failed. A root key or certificate that rcgen cannot load is
/// refused too.
pub fn generate_intermediate_ca(root_cert_pem: &str, root_key_pem: &str, validity_days: u32) -> (r: Result<(String, String), String>)
    ensures
        spec_pem_contents(root_key_pem@) is Err || spec_pem_contents(root_cert_pem@) is Err ==> r is Err,
        spec_key_pem(root_key_pem@) is None || spec_cert_params(root_cert_pem@) is None ==> r is Err,
        r matches Ok(p) ==> issued_pems(p) && key_of(p.1@, p.0@)
            && reads_as_issued(p.0@, intermediate_values(validity_days), pem_subject_cn(root_cert_pem@), validity_days as nat),
        r matches Err(e) ==> issue_error(e@, "Root CA"@, "CA Intermediária"@, "CA Intermediária"@),
{
    let profile = intermediate_ca_profile(validity_days);
    issue_under(&profile, validity_days, root_cert_pem, root_key_pem, "Root CA", "CA Intermediária", "CA Intermediária")
}

/// The refusal of a name that is not a valid DNS name: it names the name,
/// then gives rcgen's reason.
pub open spec fn dns_refusal(e: Seq<char>, name: Seq<char>) -> bool {
    is_prefix("DNS name inválido '"@ + name + "': "@, e)
}

/// The refusal of the first name that rcgen cannot take as an IP address
/// or a DNS name (one that is not ASCII); `None` where every name can be
/// taken.
fn dns_name_refusal(names: &Vec<String>) -> (r: Option<String>)
    ensures
        r is None <==> all_ascii(texts(names@)),
        r matches Some(e) ==> exists|i: int| 0 <= i < names@.len() && !is_ascii_text(#[trigger] names@[i]@)
            && dns_refusal(e@, names@[i]@),
{
    let mut i: usize = 0;
    while i < names.len()
        invariant
            i <= names.len(),
            forall|j: int| 0 <= j < i ==> is_ascii_text(#[trigger] names@[j]@),
        decreases names.len() - i,
    {
        if !is_ascii(names[i].as_str()) {
            let none: Vec<String> = Vec::new();
            assert(texts(none@) =~= Seq::<Seq<char>>::empty());
            let mut scratch = match params_with_names(none) {
                Ok(p) => p,
                Err(e) => {
                    return Some(e);
                },
            };
            let cause = match push_dns_name(&mut scratch, names[i].as_str()) {
                Ok(()) => String::new(),
                Err(e) => e,
            };
            let mut e = to_owned_string("DNS name inválido '");
            push_str(&mut e, names[i].as_str());
            push_str(&mut e, "': ");
            let ghost head = e@;
            push_str(&mut e, cause.as_str());
            assert(e@.subrange(0, head.len() as int) =~= head);
            assert(texts(names@)[i as int] == names@[i as int]@);
            return Some(e);
        }
        i = i + 1;
    }
    assert forall|k: int| 0 <= k < texts(names@).len() implies is_ascii_text(#[trigger] texts(names@)[k]) by {
        assert(texts(names@)[k] == names@[k]@);
    }
    None
}

/// Generates a TLS server certificate named `cn` for `dns_names` (IP
/// addresses or DNS names), signed by the intermediate CA given in PEM and
/// valid for `validity_days`: its certificate and key, in PEM.
///
/// A name that is not ASCII is refused first, with the first such name and
/// rcgen's reason; an intermediate certificate or key that is not PEM is
/// refused too. Past that, the key is random and signing may fail:
/// of the texts it is promised that they are a PEM certificate and a PEM
/// private key, that the certificate reads back with the server profile
/// (`server_values`: `cn` of MedFasee, not a CA, serverAuth, the names as
/// its subject alternative names in order) issued by the intermediate's
/// common name, valid for exactly `validity_days` days, and that the key is
/// the certificate's; an error is given in the context of the step that
/// failed. An intermediate key or certificate that rcgen cannot load is
/// refused too.
pub fn generate_server_cert(int_cert_pem: &str, int_key_pem: &str, cn: &str, dns_names: &Vec<String>, validity_days: u32) -> (r: Result<(String, String), String>)
    ensures
        !all_ascii(texts(dns_names@)) ==> r is Err,
        spec_pem_contents(int_key_pem@) is Err || spec_pem_contents(int_cert_pem@) is Err ==> r is Err,
        all_ascii(texts(dns_names@)) && (spec_key_pem(int_key_pem@) is None || spec_cert_params(int_cert_pem@) is None) ==> r is Err,
        r matches Ok(p) ==> issued_pems(p) && key_of(p.1@, p.0@)
            && reads_as_issued(p.0@, server_values(cn@, texts(dns_names@), validity_days), pem_subject_cn(int_cert_pem@), validity_days as nat),
        r matches Err(e) ==> issue_error(e@, "CA Intermediária"@, "certificado servidor"@, "servidor"@)
            || exists|i: int| 0 <= i < dns_names@.len() && dns_refusal(e@, #[trigger] dns_names@[i]@),
{
    match dns_name_refusal(dns_names) {
        Some(e) => {
            return Err(e);
        },
        None => {},
    }
    let profile = server_profile(cn, dns_names, validity_days);
    issue_under(&profile, validity_days, int_cert_pem, int_key_pem, "CA Intermediária", "certificado servidor", "servidor")
}

} // verus!
