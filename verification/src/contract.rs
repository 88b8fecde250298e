//! Signature verifier for the web container: judges a stored container
//! against a public key, and offers the wholesale update, summarize and
//! delta operations of the four-function contract interface.

use vstd::prelude::*;

use crate::codec::{decode, spec_decode, spec_frame, FormatError, MAX_CONTENT_SIZE,
    MAX_METADATA_SIZE};
use crate::crypto::{ed25519_verifies, ed25519_verify, check_public_key, is_valid_public_key,
    sha256, sha256_of};
use crate::endian::{push_u32_be, u32_be_bytes};
use crate::metadata::{metadata_decoding, metadata_encoding, WebContainerMetadata};

verus! {

/// The verdict on a proposed state: a semantic judgment, not an error.
#[derive(Clone, Copy, Debug, PartialEq, Eq, Structural)]
pub enum ValidateResult {
    /// The container is acceptable under the given public key.
    Valid,
    /// The container is structurally sound but not acceptable: version zero,
    /// or a signature that does not verify.
    Invalid,
}

/// A hard call error: something prevented forming a judgment at all.
#[derive(Clone, Copy, Debug, PartialEq, Eq, Structural)]
pub enum ContractError {
    /// The public-key parameter is not a valid 32-byte Ed25519 key.
    InvalidParameters,
    /// The container framing is structurally broken.
    Format(FormatError),
    /// The metadata bytes are not well-formed CBOR metadata.
    Deserialization,
    /// An update carried no full-state payload.
    InvalidUpdate,
}

/// A proposed update handed to `update_state`: either a full replacement
/// state or an incremental delta.
pub enum UpdateData {
    /// A complete replacement for the stored state.
    State(Vec<u8>),
    /// An incremental patch; this contract rejects these.
    Delta(Vec<u8>),
}

/// The message whose signature the verifier checks: the four big-endian
/// bytes of the version, then the content bytes.
pub open spec fn spec_signing_message(version: u32, content: Seq<u8>) -> Seq<u8> {
    u32_be_bytes(version) + content
}

/// The verdict for parsed container fields under a public key: version zero
/// is invalid outright; otherwise the signature over the signing message
/// decides.
pub open spec fn spec_verdict(
    public_key: Seq<u8>,
    version: u32,
    signature: Seq<u8>,
    content: Seq<u8>,
) -> ValidateResult {
    if version == 0 {
        ValidateResult::Invalid
    } else if ed25519_verifies(public_key, spec_signing_message(version, content), signature) {
        ValidateResult::Valid
    } else {
        ValidateResult::Invalid
    }
}

/// A container that `validate_state` accepts under `public_key`: it frames
/// the exact CBOR encoding of a nonzero version and a 64-byte signature that
/// verifies over the version-prefixed content.
pub open spec fn valid_container_for(public_key: Seq<u8>, s: Seq<u8>) -> bool {
    exists|v: u32, sig: Seq<u8>, c: Seq<u8>|
        {
            &&& s == #[trigger] spec_frame(metadata_encoding(v, sig), c)
            &&& metadata_encoding(v, sig).len() <= MAX_METADATA_SIZE
            &&& c.len() <= MAX_CONTENT_SIZE
            &&& sig.len() == 64
            &&& v != 0
            &&& ed25519_verifies(public_key, spec_signing_message(v, c), sig)
        }
}

/// A container acceptable under some public key parses cleanly: its framing
/// decodes to the metadata encoding and the content it was built from.
proof fn lemma_valid_container_decodes(public_key: Seq<u8>, s: Seq<u8>)
    requires
        valid_container_for(public_key, s),
    ensures
        spec_decode(s) matches Ok(p) && exists|v: u32, sig: Seq<u8>|
            {
                &&& p.0 == #[trigger] metadata_encoding(v, sig)
                &&& sig.len() == 64
                &&& v != 0
                &&& ed25519_verifies(public_key, spec_signing_message(v, p.1), sig)
            },
{
    let (v, sig, c): (u32, Seq<u8>, Seq<u8>) = choose|v: u32, sig: Seq<u8>, c: Seq<u8>|
        {
            &&& s == #[trigger] spec_frame(metadata_encoding(v, sig), c)
            &&& metadata_encoding(v, sig).len() <= MAX_METADATA_SIZE
            &&& c.len() <= MAX_CONTENT_SIZE
            &&& sig.len() == 64
            &&& v != 0
            &&& ed25519_verifies(public_key, spec_signing_message(v, c), sig)
        };
    crate::codec::lemma_codec_round_trip(metadata_encoding(v, sig), c);
}

/// Builds the signing message `version_BE(4) || content`.
pub fn build_signing_message(version: u32, content: &[u8]) -> (r: Vec<u8>)
    ensures
        r@ == spec_signing_message(version, content@),
{
    let mut message: Vec<u8> = Vec::new();
    push_u32_be(&mut message, version);
    message.extend_from_slice(content);
    message
}

/// Judges parsed container fields against a public key; the terminal
/// `VersionCheck` and `SignatureCheck` steps of the verifier.
pub fn judge(public_key: &[u8], version: u32, signature: &[u8], content: &[u8]) -> (r:
    ValidateResult)
    requires
        public_key@.len() == 32,
        is_valid_public_key(public_key@),
        signature@.len() == 64,
    ensures
        r == spec_verdict(public_key@, version, signature@, content@),
{
    if version == 0 {
        return ValidateResult::Invalid;
    }
    let message = build_signing_message(version, content);
    if ed25519_verify(public_key, message.as_slice(), signature) {
        ValidateResult::Valid
    } else {
        ValidateResult::Invalid
    }
}

/// The signature-verification contract over a stored web container.
pub struct WebContract;

impl WebContract {
    /// Judges a proposed state against the public key given as the
    /// parameter bytes.
    ///
    /// A malformed parameter or a structurally broken container is a hard
    /// error, never a verdict; version zero and a bad signature are
    /// verdicts, never errors.
    pub fn validate_state(parameters: &[u8], state: &[u8]) -> (r: Result<
        ValidateResult,
        ContractError,
    >)
        ensures
            parameters@.len() != 32 ==> r == Err::<ValidateResult, ContractError>(
                ContractError::InvalidParameters,
            ),
            parameters@.len() == 32 && !is_valid_public_key(parameters@) ==> r == Err::<
                ValidateResult,
                ContractError,
            >(ContractError::InvalidParameters),
            parameters@.len() == 32 && is_valid_public_key(parameters@) ==> match spec_decode(
                state@,
            ) {
                Err(e) => r == Err::<ValidateResult, ContractError>(ContractError::Format(e)),
                Ok(p) => {
                    &&& match metadata_decoding(p.0) {
                        None => r == Err::<ValidateResult, ContractError>(
                            ContractError::Deserialization,
                        ),
                        Some(md) => if md.1.len() != 64 {
                            r == Err::<ValidateResult, ContractError>(
                                ContractError::Deserialization,
                            )
                        } else {
                            r == Ok::<ValidateResult, ContractError>(
                                spec_verdict(parameters@, md.0, md.1, p.1),
                            )
                        },
                    }
                    &&& forall|v: u32, sig: Seq<u8>|
                        sig.len() == 64 && p.0 == #[trigger] metadata_encoding(v, sig) ==> r
                            == Ok::<ValidateResult, ContractError>(
                            spec_verdict(parameters@, v, sig, p.1),
                        )
                },
            },
            valid_container_for(parameters@, state@) && parameters@.len() == 32
                && is_valid_public_key(parameters@) ==> r == Ok::<ValidateResult, ContractError>(
                ValidateResult::Valid,
            ),
    {
        if parameters.len() != 32 {
            return Err(ContractError::InvalidParameters);
        }
        if !check_public_key(parameters) {
            return Err(ContractError::InvalidParameters);
        }
        let (metadata_bytes, content) = match decode(state) {
            Ok(p) => p,
            Err(e) => {
                proof {
                    if valid_container_for(parameters@, state@) {
                        lemma_valid_container_decodes(parameters@, state@);
                    }
                }
                return Err(ContractError::Format(e));
            },
        };
        let metadata = match WebContainerMetadata::from_bytes(metadata_bytes.as_slice()) {
            Some(m) => m,
            None => {
                proof {
                    if valid_container_for(parameters@, state@) {
                        lemma_valid_container_decodes(parameters@, state@);
                    }
                }
                return Err(ContractError::Deserialization);
            },
        };
        let verdict = judge(
            parameters,
            metadata.version,
            metadata.signature.as_slice(),
            content.as_slice(),
        );
        proof {
            if valid_container_for(parameters@, state@) {
                lemma_valid_container_decodes(parameters@, state@);
            }
        }
        Ok(verdict)
    }

    /// Replaces the whole state with the full-state payload of the first
    /// update, verbatim and without re-verification; anything else is
    /// rejected.  The caller remains responsible for validating the new
    /// state separately.
    pub fn update_state(_parameters: &[u8], _state: &[u8], data: Vec<UpdateData>) -> (r: Result<
        Vec<u8>,
        ContractError,
    >)
        ensures
            data@.len() == 0 ==> r == Err::<Vec<u8>, ContractError>(ContractError::InvalidUpdate),
            data@.len() > 0 ==> match data@[0] {
                UpdateData::State(new_state) => r matches Ok(v) && v@ == new_state@,
                UpdateData::Delta(_) => r == Err::<Vec<u8>, ContractError>(
                    ContractError::InvalidUpdate,
                ),
            },
    {
        let mut data = data;
        if data.len() == 0 {
            return Err(ContractError::InvalidUpdate);
        }
        match data.remove(0) {
            UpdateData::State(new_state) => Ok(new_state),
            UpdateData::Delta(_) => Err(ContractError::InvalidUpdate),
        }
    }

    /// Summarizes a state as its SHA-256 digest: a change fingerprint with
    /// no structured meaning.
    pub fn summarize_state(_parameters: &[u8], state: &[u8]) -> (r: Result<Vec<u8>, ContractError>)
        ensures
            r matches Ok(digest) && digest@ == sha256_of(state@) && digest@.len() == 32,
    {
        Ok(sha256(state))
    }

    /// Hands out the full state as the delta, whatever the peer's summary
    /// says: synchronization deliberately resends everything.
    pub fn get_state_delta(_parameters: &[u8], state: &[u8], _summary: &[u8]) -> (r: Result<
        Vec<u8>,
        ContractError,
    >)
        ensures
            r matches Ok(delta) && delta@ == state@,
    {
        let mut delta: Vec<u8> = Vec::new();
        delta.extend_from_slice(state);
        Ok(delta)
    }
}

/// A version of zero is judged `Invalid` whatever the signature says.
pub proof fn lemma_version_zero_invalid(public_key: Seq<u8>, signature: Seq<u8>, content: Seq<u8>)
    ensures
        spec_verdict(public_key, 0, signature, content) == ValidateResult::Invalid,
{
}

/// A container framed from the exact metadata encoding of a nonzero version
/// and a 64-byte signature that verifies over the version-prefixed content
/// is accepted by `validate_state`.
pub proof fn lemma_signed_container_accepted(
    public_key: Seq<u8>,
    version: u32,
    signature: Seq<u8>,
    content: Seq<u8>,
)
    requires
        version != 0,
        signature.len() == 64,
        metadata_encoding(version, signature).len() <= MAX_METADATA_SIZE,
        content.len() <= MAX_CONTENT_SIZE,
        ed25519_verifies(public_key, spec_signing_message(version, content), signature),
    ensures
        valid_container_for(
            public_key,
            spec_frame(metadata_encoding(version, signature), content),
        ),
{
}

/// The summary is a function of the state alone: equal states summarize
/// equally.
pub proof fn lemma_summary_deterministic(s1: Seq<u8>, s2: Seq<u8>)
    requires
        s1 == s2,
    ensures
        sha256_of(s1) == sha256_of(s2),
{
}

} // verus!
