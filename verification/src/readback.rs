//! Reading issued certificates and signing requests back: what the library
//! checks of each before it hands it out, as plain values read through
//! x509-parser and rcgen.
use crate::certs::{
    cert_facts_view, name_view, pem_cert_facts, pem_cert_profile, pem_request, read_pem_certificate,
    read_pem_profile, read_pem_request, CertFacts, NameAttr,
};
use crate::issuance::{
    alt_names_view, ca_params_from_pem, key_pair_from_pem, profile_view, spec_cert_params, spec_key_pem,
    texts, AltName, CaKind, CertProfile, ExtUse, KeyUse, ProfileValues,
};
use crate::text::{chars_of, opt_view, str_eq};
use vstd::prelude::*;

verus! {

/// The dotted OID of the common name attribute.
pub open spec fn oid_common_name() -> Seq<char> {
    "2.5.4.3"@
}

/// The dotted OID of the organization attribute.
pub open spec fn oid_organization() -> Seq<char> {
    "2.5.4.10"@
}

/// The dotted OID of the organizational unit attribute.
pub open spec fn oid_unit() -> Seq<char> {
    "2.5.4.11"@
}

/// The subject that a profile is issued with, attribute by attribute in
/// order: the common name, the organization and, where there is one, the
/// unit.
pub open spec fn subject_of(cn: Seq<char>, org: Seq<char>, unit: Option<Seq<char>>) -> Seq<(Seq<char>, Option<Seq<char>>)> {
    let base = seq![(oid_common_name(), Some(cn)), (oid_organization(), Some(org))];
    match unit {
        Some(u) => base.push((oid_unit(), Some(u))),
        None => base,
    }
}

/// The key usage bits that a list of key uses sets (digitalSignature bit
/// 0, keyEncipherment bit 2, keyCertSign bit 5, cRLSign bit 6); none where
/// the list is empty, since no extension is written then.
pub open spec fn key_use_bits(uses: Seq<KeyUse>) -> Option<u16> {
    if uses.len() == 0 {
        None
    } else {
        Some((
            (if uses.contains(KeyUse::DigitalSignature) { 1int } else { 0int })
            + (if uses.contains(KeyUse::KeyEncipherment) { 4int } else { 0int })
            + (if uses.contains(KeyUse::KeyCertSign) { 32int } else { 0int })
            + (if uses.contains(KeyUse::CrlSign) { 64int } else { 0int })
        ) as u16)
    }
}

/// The extended key usages (serverAuth, clientAuth) that a list sets; none
/// where the list is empty.
pub open spec fn ext_use_pair(uses: Seq<ExtUse>) -> Option<(bool, bool)> {
    if uses.len() == 0 {
        None
    } else {
        Some((uses.contains(ExtUse::ServerAuth), uses.contains(ExtUse::ClientAuth)))
    }
}

/// The basic constraints that a certificate issued as `ca` carries: a CA,
/// with its path length limit where it has one; none for an end entity.
pub open spec fn constraints_of(ca: CaKind) -> Option<(bool, Option<u32>)> {
    match ca {
        CaKind::Unconstrained => Some((true, None)),
        CaKind::PathLength(n) => Some((true, Some(n as u32))),
        CaKind::EndEntity => None,
    }
}

/// A subject alternative name read back for a name that rcgen takes as an
/// IP address where it parses as one and as a DNS name otherwise: the DNS
/// name itself, or an IP address with the same text (an IPv6 text may come
/// back in another spelling).
pub open spec fn san_for_name(a: (u8, Seq<char>), name: Seq<char>) -> bool {
    ||| a.0 == 0 && a.1 == name
    ||| a.0 == 1 && (a.1 == name || name.contains(':'))
}

/// The subject alternative names read back are those of `names`, in order,
/// then the DNS names `dns`, in order.
pub open spec fn sans_match(read: Seq<(u8, Seq<char>)>, names: Seq<Seq<char>>, dns: Seq<Seq<char>>) -> bool {
    &&& read.len() == names.len() + dns.len()
    &&& forall|i: int| 0 <= i < names.len() ==> san_for_name(#[trigger] read[i], names[i])
    &&& forall|j: int| names.len() <= j < read.len() ==> #[trigger] read[j] == (0u8, dns[j - names.len()])
}

/// A PEM certificate reads back as signed: its subject's common name is
/// `subject`, its issuer's common name is `issuer` (as read, where it is a
/// text), and it is valid for exactly `days` days.
pub open spec fn reads_as_signed(pem: Seq<char>, subject: Seq<char>, issuer: Option<Seq<char>>, days: nat) -> bool {
    match pem_cert_facts(pem) {
        Some(f) => f.0 == Some(subject) && f.3 == issuer && f.1 - f.2 == days * 86400,
        None => false,
    }
}

/// A PEM certificate reads back as issued with the profile `v`: signed as
/// `reads_as_signed` says for the profile's common name, with the profile's
/// subject (common name, organization, unit, in that order), basic
/// constraints, key usages, extended key usages and subject alternative
/// names (its names, then its DNS names, in order).
pub open spec fn reads_as_issued(pem: Seq<char>, v: ProfileValues, issuer: Option<Seq<char>>, days: nat) -> bool {
    &&& reads_as_signed(pem, v.0, issuer, days)
    &&& pem_cert_facts(pem)->Some_0.4 == constraints_of(v.3)
    &&& pem_cert_profile(pem) matches Some(q) && q.0 == subject_of(v.0, v.1, v.2) && q.1 == key_use_bits(v.4)
        && q.2 == ext_use_pair(v.5)
    &&& spec_cert_params(pem) matches Some(sans) && sans_match(sans, v.6, v.7)
}

/// The private key in `key_pem` is the certificate's: rcgen loads it, and
/// its public key is the certificate's subject public key.
pub open spec fn key_of(key_pem: Seq<char>, cert_pem: Seq<char>) -> bool {
    pem_cert_profile(cert_pem) matches Some(q) && spec_key_pem(key_pem) == Some(q.3)
}

/// A PEM signing request reads back as asking for the profile `v`: its
/// subject, key usages and extended key usages are the profile's, and it
/// asks for no CA constraint.
pub open spec fn request_as(pem: Seq<char>, v: ProfileValues) -> bool {
    pem_request(pem) matches Some(q) && q.0 == subject_of(v.0, v.1, v.2) && q.1 == key_use_bits(v.4)
        && q.2 == ext_use_pair(v.5) && q.3 is None
}

/// The private key in `key_pem` is the one a signing request was made
/// with: rcgen loads it, and its public key is the request's.
pub open spec fn request_key_of(key_pem: Seq<char>, req_pem: Seq<char>) -> bool {
    pem_request(req_pem) matches Some(q) && spec_key_pem(key_pem) == Some(q.4)
}

/// A certificate signed for a request: its subject, attribute by
/// attribute, and its public key are the request's.
pub open spec fn signed_for_request(cert_pem: Seq<char>, req_pem: Seq<char>) -> bool {
    pem_cert_profile(cert_pem) matches Some(c) && pem_request(req_pem) matches Some(q) && c.0 == q.0 && c.3 == q.4
}

/// A PEM certificate reads back as an end entity: it carries no basic
/// constraints, so it is not a CA.
pub open spec fn reads_as_end_entity(pem: Seq<char>) -> bool {
    pem_cert_facts(pem) matches Some(f) && f.4 is None
}

/// The common name of a PEM certificate's subject, where it reads as a
/// certificate with one that is a text.
pub open spec fn pem_subject_cn(pem: Seq<char>) -> Option<Seq<char>> {
    match pem_cert_facts(pem) {
        Some(f) => f.0,
        None => None,
    }
}

/// Whether two optional texts are equal.
fn opt_text_eq(a: &Option<String>, b: &Option<String>) -> (r: bool)
    ensures
        r == (opt_view(*a) == opt_view(*b)),
{
    match (a, b) {
        (Some(x), Some(y)) => str_eq(x.as_str(), y.as_str()),
        (None, None) => true,
        _ => false,
    }
}

/// Whether an optional text is present and equal to `expected`.
fn text_is(t: &Option<String>, expected: &str) -> (r: bool)
    ensures
        r == (opt_view(*t) == Some(expected@)),
{
    match t {
        Some(c) => str_eq(c.as_str(), expected),
        None => false,
    }
}

/// Whether two byte strings are equal.
fn bytes_eq(a: &Vec<u8>, b: &Vec<u8>) -> (r: bool)
    ensures
        r == (a@ == b@),
{
    if a.len() != b.len() {
        return false;
    }
    let mut i: usize = 0;
    while i < a.len()
        invariant
            a.len() == b.len(),
            i <= a.len(),
            forall|k: int| 0 <= k < i ==> a@[k] == b@[k],
        decreases a.len() - i,
    {
        if a[i] != b[i] {
            return false;
        }
        i = i + 1;
    }
    assert(a@ =~= b@);
    true
}

/// Whether an attribute has this OID and this text.
fn attr_is(a: &NameAttr, oid: &str, text: &str) -> (r: bool)
    ensures
        r == (crate::certs::name_attr_view(*a) == (oid@, Some(text@))),
{
    str_eq(a.oid.as_str(), oid) && text_is(&a.text, text)
}

/// Whether two attributes are equal.
fn attr_eq(a: &NameAttr, b: &NameAttr) -> (r: bool)
    ensures
        r == (crate::certs::name_attr_view(*a) == crate::certs::name_attr_view(*b)),
{
    str_eq(a.oid.as_str(), b.oid.as_str()) && opt_text_eq(&a.text, &b.text)
}

/// Whether two distinguished names are equal, attribute by attribute.
fn names_eq(a: &Vec<NameAttr>, b: &Vec<NameAttr>) -> (r: bool)
    ensures
        r == (name_view(a@) == name_view(b@)),
{
    if a.len() != b.len() {
        assert(name_view(a@).len() != name_view(b@).len());
        return false;
    }
    let mut i: usize = 0;
    while i < a.len()
        invariant
            a.len() == b.len(),
            i <= a.len(),
            forall|k: int| 0 <= k < i ==> name_view(a@)[k] == name_view(b@)[k],
        decreases a.len() - i,
    {
        if !attr_eq(&a[i], &b[i]) {
            assert(name_view(a@)[i as int] != name_view(b@)[i as int]);
            return false;
        }
        i = i + 1;
    }
    assert(name_view(a@) =~= name_view(b@));
    true
}

/// Whether a distinguished name is the subject of a profile.
fn subject_is(v: &Vec<NameAttr>, cn: &str, org: &str, unit: &Option<String>) -> (r: bool)
    ensures
        r == (name_view(v@) == subject_of(cn@, org@, opt_view(*unit))),
{
    let ghost want = subject_of(cn@, org@, opt_view(*unit));
    let n: usize = match unit {
        Some(_) => 3,
        None => 2,
    };
    if v.len() != n {
        assert(name_view(v@).len() != want.len());
        return false;
    }
    let a = attr_is(&v[0], "2.5.4.3", cn);
    let b = attr_is(&v[1], "2.5.4.10", org);
    let c = match unit {
        Some(u) => attr_is(&v[2], "2.5.4.11", u.as_str()),
        None => true,
    };
    assert(name_view(v@)[0] == crate::certs::name_attr_view(v@[0]));
    assert(name_view(v@)[1] == crate::certs::name_attr_view(v@[1]));
    if n == 3 {
        assert(name_view(v@)[2] == crate::certs::name_attr_view(v@[2]));
    }
    if a && b && c {
        assert(name_view(v@) =~= want);
        true
    } else {
        if n == 3 {
            assert(name_view(v@)[0] != want[0] || name_view(v@)[1] != want[1] || name_view(v@)[2] != want[2]);
        } else {
            assert(name_view(v@)[0] != want[0] || name_view(v@)[1] != want[1]);
        }
        false
    }
}

/// Whether a list of key uses holds `u`.
fn has_key_use(v: &Vec<KeyUse>, u: KeyUse) -> (r: bool)
    ensures
        r == v@.contains(u),
{
    let mut i: usize = 0;
    while i < v.len()
        invariant
            i <= v.len(),
            forall|k: int| 0 <= k < i ==> v@[k] != u,
        decreases v.len() - i,
    {
        if v[i] == u {
            return true;
        }
        i = i + 1;
    }
    false
}

/// Whether a list of extended key uses holds `u`.
fn has_ext_use(v: &Vec<ExtUse>, u: ExtUse) -> (r: bool)
    ensures
        r == v@.contains(u),
{
    let mut i: usize = 0;
    while i < v.len()
        invariant
            i <= v.len(),
            forall|k: int| 0 <= k < i ==> v@[k] != u,
        decreases v.len() - i,
    {
        if v[i] == u {
            return true;
        }
        i = i + 1;
    }
    false
}

/// The key usage bits that a list of key uses sets.
fn key_bits(uses: &Vec<KeyUse>) -> (r: Option<u16>)
    ensures
        r == key_use_bits(uses@),
{
    if uses.len() == 0 {
        return None;
    }
    let mut b: u16 = 0;
    if has_key_use(uses, KeyUse::DigitalSignature) {
        b = b + 1;
    }
    if has_key_use(uses, KeyUse::KeyEncipherment) {
        b = b + 4;
    }
    if has_key_use(uses, KeyUse::KeyCertSign) {
        b = b + 32;
    }
    if has_key_use(uses, KeyUse::CrlSign) {
        b = b + 64;
    }
    Some(b)
}

/// The extended key usages that a list sets.
fn ext_pair(uses: &Vec<ExtUse>) -> (r: Option<(bool, bool)>)
    ensures
        r == ext_use_pair(uses@),
{
    if uses.len() == 0 {
        return None;
    }
    Some((has_ext_use(uses, ExtUse::ServerAuth), has_ext_use(uses, ExtUse::ClientAuth)))
}

/// Whether read key usage bits are these.
fn bits_are(got: Option<u16>, want: Option<u16>) -> (r: bool)
    ensures
        r == (got == want),
{
    match (got, want) {
        (Some(x), Some(y)) => x == y,
        (None, None) => true,
        _ => false,
    }
}

/// Whether read extended key usages are these.
fn pair_is(got: Option<(bool, bool)>, want: Option<(bool, bool)>) -> (r: bool)
    ensures
        r == (got == want),
{
    match (got, want) {
        (Some((a, b)), Some((c, d))) => a == c && b == d,
        (None, None) => true,
        _ => false,
    }
}

/// Whether read basic constraints are those of `ca`.
fn constraints_are(got: Option<(bool, Option<u32>)>, ca: CaKind) -> (r: bool)
    ensures
        r == (got == constraints_of(ca)),
{
    match (got, ca) {
        (None, CaKind::EndEntity) => true,
        (Some((true, None)), CaKind::Unconstrained) => true,
        (Some((true, Some(l))), CaKind::PathLength(n)) => l == n as u32,
        _ => false,
    }
}

/// Whether a text holds a colon.
fn has_colon(s: &str) -> (r: bool)
    ensures
        r == s@.contains(':'),
{
    let v = chars_of(s);
    let mut i: usize = 0;
    while i < v.len()
        invariant
            v@ == s@,
            i <= v.len(),
            forall|k: int| 0 <= k < i ==> v@[k] != ':',
        decreases v.len() - i,
    {
        if v[i] == ':' {
            assert(s@[i as int] == ':');
            return true;
        }
        i = i + 1;
    }
    false
}

/// Whether a subject alternative name read back is the one for `name`.
fn san_is_for(a: &AltName, name: &str) -> (r: bool)
    ensures
        r == san_for_name(crate::issuance::alt_name_view(*a), name@),
{
    match a {
        AltName::Dns(s) => str_eq(s.as_str(), name),
        AltName::Ip(s) => str_eq(s.as_str(), name) || has_colon(name),
        AltName::Other => false,
    }
}

/// Whether the subject alternative names read back are `names`, then the
/// DNS names `dns`.
fn sans_are(read: &Vec<AltName>, names: &Vec<String>, dns: &Vec<String>) -> (r: bool)
    ensures
        r == sans_match(alt_names_view(read@), texts(names@), texts(dns@)),
{
    let ghost rv = alt_names_view(read@);
    if names.len() as u128 + dns.len() as u128 != read.len() as u128 {
        return false;
    }
    let mut i: usize = 0;
    while i < names.len()
        invariant
            rv == alt_names_view(read@),
            read.len() == names.len() + dns.len(),
            i <= names.len(),
            forall|k: int| 0 <= k < i ==> san_for_name(#[trigger] rv[k], texts(names@)[k]),
        decreases names.len() - i,
    {
        assert(rv[i as int] == crate::issuance::alt_name_view(read@[i as int]));
        assert(texts(names@)[i as int] == names@[i as int]@);
        if !san_is_for(&read[i], names[i].as_str()) {
            return false;
        }
        i = i + 1;
    }
    let mut j: usize = 0;
    while j < dns.len()
        invariant
            rv == alt_names_view(read@),
            read.len() == names.len() + dns.len(),
            j <= dns.len(),
            forall|k: int| 0 <= k < names.len() ==> san_for_name(#[trigger] rv[k], texts(names@)[k]),
            forall|k: int| names.len() <= k < names.len() + j ==> #[trigger] rv[k] == (0u8, texts(dns@)[k - names.len()]),
        decreases dns.len() - j,
    {
        let k = names.len() + j;
        assert(rv[k as int] == crate::issuance::alt_name_view(read@[k as int]));
        assert(texts(dns@)[j as int] == dns@[j as int]@);
        let ok = match &read[k] {
            AltName::Dns(s) => str_eq(s.as_str(), dns[j].as_str()),
            _ => false,
        };
        if !ok {
            return false;
        }
        j = j + 1;
    }
    true
}

/// Whether read facts show a certificate of `subject`, by `issuer`, valid
/// for exactly `days` days.
fn facts_signed(f: &CertFacts, subject: &str, issuer: &Option<String>, days: u32) -> (r: bool)
    ensures
        r == ({
            let v = cert_facts_view(*f);
            v.0 == Some(subject@) && v.3 == opt_view(*issuer) && v.1 - v.2 == days * 86400
        }),
{
    let span: i128 = (f.not_after as i128) - (f.not_before as i128);
    let want: i128 = (days as i128) * 86400;
    text_is(&f.common_name, subject) && opt_text_eq(&f.issuer_common_name, issuer) && span == want
}

/// Whether a PEM certificate reads back as signed for `subject` by
/// `issuer`, valid for exactly `days` days.
pub fn check_signed(pem: &str, subject: &str, issuer: &Option<String>, days: u32) -> (r: bool)
    ensures
        r == reads_as_signed(pem@, subject@, opt_view(*issuer), days as nat),
{
    match read_pem_certificate(pem) {
        Some(f) => facts_signed(&f, subject, issuer, days),
        None => false,
    }
}

/// Whether a PEM certificate reads back as issued with `profile` by
/// `issuer`, valid for exactly `days` days.
pub fn check_issued(pem: &str, profile: &CertProfile, issuer: &Option<String>, days: u32) -> (r: bool)
    ensures
        r == reads_as_issued(pem@, profile_view(*profile), opt_view(*issuer), days as nat),
{
    let f = match read_pem_certificate(pem) {
        Some(f) => f,
        None => {
            return false;
        },
    };
    if !(facts_signed(&f, profile.common_name.as_str(), issuer, days) && constraints_are(f.basic_constraints, profile.ca)) {
        return false;
    }
    let q = match read_pem_profile(pem) {
        Some(q) => q,
        None => {
            return false;
        },
    };
    if !subject_is(&q.subject, profile.common_name.as_str(), profile.organization.as_str(), &profile.unit) {
        return false;
    }
    if !(bits_are(q.key_usage, key_bits(&profile.key_usages)) && pair_is(q.ext_usage, ext_pair(&profile.extended_usages))) {
        return false;
    }
    match ca_params_from_pem(pem) {
        Ok((_, sans)) => sans_are(&sans, &profile.names, &profile.dns_names),
        Err(_) => false,
    }
}

/// Whether a PEM certificate reads back as an end entity.
pub fn check_end_entity(pem: &str) -> (r: bool)
    ensures
        r == reads_as_end_entity(pem@),
{
    match read_pem_certificate(pem) {
        Some(f) => f.basic_constraints.is_none(),
        None => false,
    }
}

/// Whether the private key in `key_pem` is the certificate's.
pub fn check_key_of(key_pem: &str, cert_pem: &str) -> (r: bool)
    ensures
        r == key_of(key_pem@, cert_pem@),
{
    let q = match read_pem_profile(cert_pem) {
        Some(q) => q,
        None => {
            return false;
        },
    };
    match key_pair_from_pem(key_pem) {
        Ok((_, public)) => bytes_eq(&public, &q.public_key),
        Err(_) => false,
    }
}

/// Whether a PEM signing request reads back as asking for `profile`.
pub fn check_request(pem: &str, profile: &CertProfile) -> (r: bool)
    ensures
        r == request_as(pem@, profile_view(*profile)),
{
    match read_pem_request(pem) {
        Some(q) => subject_is(&q.subject, profile.common_name.as_str(), profile.organization.as_str(), &profile.unit)
            && bits_are(q.key_usage, key_bits(&profile.key_usages))
            && pair_is(q.ext_usage, ext_pair(&profile.extended_usages)) && q.ca.is_none(),
        None => false,
    }
}

/// Whether the private key in `key_pem` is the one a signing request was
/// made with.
pub fn check_request_key(key_pem: &str, req_pem: &str) -> (r: bool)
    ensures
        r == request_key_of(key_pem@, req_pem@),
{
    let q = match read_pem_request(req_pem) {
        Some(q) => q,
        None => {
            return false;
        },
    };
    match key_pair_from_pem(key_pem) {
        Ok((_, public)) => bytes_eq(&public, &q.public_key),
        Err(_) => false,
    }
}

/// Whether a certificate carries a request's subject and public key.
pub fn check_signed_for_request(cert_pem: &str, req_pem: &str) -> (r: bool)
    ensures
        r == signed_for_request(cert_pem@, req_pem@),
{
    let c = match read_pem_profile(cert_pem) {
        Some(c) => c,
        None => {
            return false;
        },
    };
    match read_pem_request(req_pem) {
        Some(q) => names_eq(&c.subject, &q.subject) && bytes_eq(&c.public_key, &q.public_key),
        None => false,
    }
}

/// The common name of a PEM certificate's subject, where it reads as a
/// certificate with one that is a text.
pub fn subject_cn_of(pem: &str) -> (r: Option<String>)
    ensures
        opt_view(r) == pem_subject_cn(pem@),
{
    match read_pem_certificate(pem) {
        Some(f) => f.common_name,
        None => None,
    }
}

} // verus!
