//! The auth gate: a request is admitted only if it carries a credential that
//! the configured verifier accepts.

use vstd::prelude::*;
use vstd::string::StringSliceAdditionalSpecFns;
use vstd::utf8::encode_utf8_decode_utf8;
use crate::error::GatewayError;

verus! {

/// Compares two byte strings position by position.
pub fn same_bytes(a: &[u8], b: &[u8]) -> (same: bool)
    ensures
        same == (a@ == b@),
{
    if a.len() != b.len() {
        return false;
    }
    let mut i: usize = 0;
    while i < a.len()
        invariant
            i <= a.len(),
            a.len() == b.len(),
            a@.take(i as int) == b@.take(i as int),
        decreases a.len() - i,
    {
        if a[i] != b[i] {
            assert(a@[i as int] != b@[i as int]);
            return false;
        }
        assert(a@.take(i + 1) == a@.take(i as int).push(a@[i as int]));
        assert(b@.take(i + 1) == b@.take(i as int).push(b@[i as int]));
        i += 1;
    }
    assert(a@.take(a.len() as int) == a@);
    assert(b@.take(b.len() as int) == b@);
    true
}

/// Two texts have the same encoding exactly when they are the same text.
pub proof fn lemma_same_encoding(a: Seq<char>, b: Seq<char>)
    ensures
        (vstd::utf8::encode_utf8(a) == vstd::utf8::encode_utf8(b)) <==> a == b,
{
    encode_utf8_decode_utf8(a);
    encode_utf8_decode_utf8(b);
}

/// Compares two texts byte for byte.
pub fn same_text(a: &str, b: &str) -> (same: bool)
    ensures
        same == (a@ == b@),
{
    proof {
        lemma_same_encoding(a@, b@);
    }
    same_bytes(a.as_bytes(), b.as_bytes())
}

/// Something that can tell whether a supplied credential is acceptable.
pub trait CredentialVerifier {
    /// The credentials that this verifier accepts.
    spec fn admits(&self, supplied: Seq<char>) -> bool;

    /// Decides whether `supplied` is accepted.
    fn verify(&self, supplied: &str) -> (admitted: bool)
        ensures
            admitted == self.admits(supplied@),
    ;
}

/// A verifier that knows at most one credential, fixed when it is built.
pub struct StaticCredential {
    expected: Option<String>,
}

impl StaticCredential {
    /// The credential that is expected, if one is configured.
    pub closed spec fn expected(&self) -> Option<Seq<char>> {
        self.expected.deep_view()
    }

    /// A verifier for the given configuration value. With `None` nothing is
    /// ever admitted.
    pub fn new(expected: Option<String>) -> (verifier: StaticCredential)
        ensures
            verifier.expected() == expected.deep_view(),
    {
        StaticCredential { expected }
    }
}

impl CredentialVerifier for StaticCredential {
    open spec fn admits(&self, supplied: Seq<char>) -> bool {
        self.expected() == Some(supplied)
    }

    fn verify(&self, supplied: &str) -> (admitted: bool) {
        match &self.expected {
            Some(token) => same_text(token.as_str(), supplied),
            None => false,
        }
    }
}

/// Whether the auth gate admits a request with this credential header.
pub open spec fn gate_admits<V: CredentialVerifier>(
    verifier: &V,
    header: Option<Seq<char>>,
) -> bool {
    match header {
        Some(supplied) => verifier.admits(supplied),
        None => false,
    }
}

/// The auth gate. A request without a credential header is turned away, and
/// so is one whose credential the verifier does not accept.
pub fn authorize<V: CredentialVerifier>(verifier: &V, header: Option<&str>) -> (outcome: Result<
    (),
    GatewayError,
>)
    ensures
        outcome is Ok <==> gate_admits(verifier, header.deep_view()),
        outcome is Err ==> outcome == Err::<(), GatewayError>(GatewayError::Unauthorized),
{
    match header {
        Some(supplied) => {
            if verifier.verify(supplied) {
                Ok(())
            } else {
                Err(GatewayError::Unauthorized)
            }
        },
        None => Err(GatewayError::Unauthorized),
    }
}

} // verus!
