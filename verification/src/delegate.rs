//! Key custodian: handles application requests to generate a signing key
//! and to sign content with it.  The host's secret store is modelled as a
//! value handed in and out: the caller passes the stored secret, if any,
//! and receives the secret to store, if the request produced one.

use vstd::prelude::*;
use vstd::string::StringExecFns;

use crate::crypto::{derive_public_key, ed25519_sign, generate_seed, is_valid_public_key,
    public_key_of, signature_of};

verus! {

/// A request from the application to the key custodian.
pub enum AppRequest {
    /// Draw a fresh keypair and store its seed, replacing any prior one.
    GenerateKey,
    /// Sign the given content with the stored key.
    SignContent { content: Vec<u8> },
}

/// A response from the key custodian to the application.
pub enum AppResponse {
    /// A key was generated; its 32-byte public half.
    KeyGenerated { public_key: Vec<u8> },
    /// Content was signed: the 64-byte signature, and the signature
    /// followed by the content as one sequence — a simple framing of its
    /// own, unrelated to the container codec's.
    ContentSigned { signature: Vec<u8>, full_state: Vec<u8> },
    /// A failure reported to the requester rather than raised, so that it
    /// may retry (for instance after generating a key).
    Error { message: String },
}

/// An inbound message for the delegate: an application request, or any
/// other kind of host traffic, which the delegate leaves alone.
pub enum InboundMessage {
    /// An application request to act on.
    Application(AppRequest),
    /// Host traffic of no concern to this delegate.
    Other,
}

/// What processing one inbound message produced.
pub struct ProcessOutput {
    /// The outbound responses, in order.
    pub responses: Vec<AppResponse>,
    /// A secret to store under the fixed identifier, overwriting any prior
    /// value; `None` leaves the store untouched.
    pub new_secret: Option<Vec<u8>>,
}

/// The identifier under which the host's secret store keeps the one
/// managed seed.
pub fn secret_key_id() -> (r: &'static str)
    ensures
        r@ == "my-website-key"@,
{
    "my-website-key"
}

/// The key custodian.
pub struct WebDelegate;

impl WebDelegate {
    /// Serves one inbound message.
    ///
    /// `stored_secret` is the value the host's store currently holds under
    /// the fixed identifier.  A missing or malformed secret on a signing
    /// request is reported to the requester as an error response, never
    /// raised: the requester may regenerate the key and retry.
    ///
    /// Signing here covers the content bytes alone — unlike the verifier
    /// and the offline signer, which speak over a version-prefixed message
    /// — so the produced `full_state` is not a container the verifier
    /// accepts.
    pub fn process(message: InboundMessage, stored_secret: Option<Vec<u8>>) -> (r: ProcessOutput)
        ensures
            message is Other ==> r.responses@.len() == 0 && r.new_secret is None,
            message matches InboundMessage::Application(AppRequest::GenerateKey) ==> (
            r.new_secret matches Some(seed) && seed@.len() == 32 && r.responses@.len() == 1
                && (r.responses@[0] matches AppResponse::KeyGenerated { public_key }
                && public_key@ == public_key_of(seed@) && public_key@.len() == 32
                && is_valid_public_key(public_key@))),
            message matches InboundMessage::Application(
                AppRequest::SignContent { content },
            ) ==> match stored_secret {
                None => r.new_secret is None && r.responses@.len() == 1 && (r.responses@[0] matches
                    AppResponse::Error { message: m } && m@ == "Secret not found"@),
                Some(seed) => {
                    if seed@.len() != 32 {
                        r.new_secret is None && r.responses@.len() == 1 && (r.responses@[0] matches
                            AppResponse::Error { message: m } && m@ == "Invalid key format"@)
                    } else {
                        r.new_secret is None && r.responses@.len() == 1 && (r.responses@[0] matches
                            AppResponse::ContentSigned { signature, full_state }
                            && signature@ == signature_of(seed@, content@) && signature@.len() == 64
                            && full_state@ == signature@ + content@)
                    }
                },
            },
    {
        match message {
            InboundMessage::Other => ProcessOutput { responses: Vec::new(), new_secret: None },
            InboundMessage::Application(AppRequest::GenerateKey) => {
                let seed = generate_seed();
                let public_key = derive_public_key(seed.as_slice());
                let mut responses: Vec<AppResponse> = Vec::new();
                responses.push(AppResponse::KeyGenerated { public_key });
                ProcessOutput { responses, new_secret: Some(seed) }
            },
            InboundMessage::Application(AppRequest::SignContent { content }) => {
                let seed = match stored_secret {
                    Some(s) => s,
                    None => {
                        return Self::error_output(String::from_str("Secret not found"));
                    },
                };
                if seed.len() != 32 {
                    return Self::error_output(String::from_str("Invalid key format"));
                }
                let signature = ed25519_sign(seed.as_slice(), content.as_slice());
                let mut full_state: Vec<u8> = Vec::new();
                full_state.extend_from_slice(signature.as_slice());
                full_state.extend_from_slice(content.as_slice());
                let mut responses: Vec<AppResponse> = Vec::new();
                responses.push(AppResponse::ContentSigned { signature, full_state });
                ProcessOutput { responses, new_secret: None }
            },
        }
    }

    /// One error response carrying `message`, with the store untouched.
    fn error_output(message: String) -> (r: ProcessOutput)
        ensures
            r.new_secret is None,
            r.responses@.len() == 1,
            (r.responses@[0] matches AppResponse::Error { message: m } && m@ == message@),
    {
        let mut responses: Vec<AppResponse> = Vec::new();
        responses.push(AppResponse::Error { message });
        ProcessOutput { responses, new_secret: None }
    }
}

} // verus!
