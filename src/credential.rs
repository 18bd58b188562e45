//! The credential pair that a listening endpoint presents: the one already
//! stored if there is one, else a freshly generated self-signed pair.
use vstd::prelude::*;

verus! {

#[verifier::external_type_specification]
#[verifier::external_body]
pub struct ExRcgenError(rcgen::RcgenError);

/// A certificate and its private key, both in DER.
#[derive(Clone, Debug, PartialEq, Eq)]
pub struct CredentialPair {
    pub certificate: Vec<u8>,
    pub private_key: Vec<u8>,
}

/// Where a credential pair came from.
#[derive(Clone, Copy, Debug, PartialEq, Eq, Structural)]
pub enum CredentialSource {
    /// It was stored already.
    Loaded,
    /// It was generated now, and is still to be stored.
    Generated,
}

/// Why no credential pair could be had.
#[derive(Debug)]
pub enum CredentialError {
    /// Generating a self-signed pair failed.
    Generation(rcgen::RcgenError),
}

/// Relies on rcgen::generate_simple_self_signed, whose certificate is then
/// read out with Certificate::serialize_der and
/// Certificate::serialize_private_key_der. The key pair is generated locally
/// by rcgen, so the latter (which panics only for a remote key pair) returns.
/// Nothing is stated of the bytes: the key is random. The name is written as
/// an IA5 string, which yasna asserts to be ASCII, so it must be ASCII.
#[verifier::external_body]
fn generate_self_signed(name: &str) -> (r: Result<(Vec<u8>, Vec<u8>), rcgen::RcgenError>)
    requires
        forall|i: int| 0 <= i < name@.len() ==> (#[trigger] name@[i] as u32) < 128,
{
    let certificate = rcgen::generate_simple_self_signed(vec![name.to_string()])?;
    let der = certificate.serialize_der()?;
    Ok((der, certificate.serialize_private_key_der()))
}

/// The stored pair when there is one; otherwise a self-signed pair for
/// `localhost`, generated now. Generation is attempted only when no
/// pair was loaded.
pub fn obtain_credentials(loaded: Option<CredentialPair>) -> (r: Result<
    (CredentialPair, CredentialSource),
    CredentialError,
>)
    ensures
        loaded matches Some(p) ==> r == Ok::<(CredentialPair, CredentialSource), CredentialError>(
            (p, CredentialSource::Loaded),
        ),
        loaded is None ==> (r matches Ok((_, s)) ==> s == CredentialSource::Generated),
{
    match loaded {
        Some(p) => Ok((p, CredentialSource::Loaded)),
        None => {
            proof {
                reveal_strlit("localhost");
            }
            match generate_self_signed("localhost") {
                Ok((certificate, private_key)) => Ok(
                    (CredentialPair { certificate, private_key }, CredentialSource::Generated),
                ),
                Err(e) => Err(CredentialError::Generation(e)),
            }
        },
    }
}

} // verus!
