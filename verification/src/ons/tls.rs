//! What the server reads of a client certificate.
use crate::certs::{parse_certificate, spec_x509_facts};
use crate::text::opt_view;
use vstd::prelude::*;

verus! {

/// The common name of a client certificate in DER: the subject's first
/// common name, where the certificate parses and that name is a text.
pub fn extract_client_cn(cert_der: &[u8]) -> (r: Option<String>)
    ensures
        opt_view(r) == match spec_x509_facts(cert_der@) {
            Ok(f) => f.0,
            Err(_) => None,
        },
{
    match parse_certificate(cert_der) {
        Ok(f) => f.common_name,
        Err(_) => None,
    }
}

} // verus!
