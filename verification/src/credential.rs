//! Resolving the credential of a new sandbox.
//!
//! Either a keypair is generated on the requester's behalf, or the public key
//! they supplied is decoded and used as it decoded. Generating and decoding
//! are not done here: the resolver says which of the two it needs and takes
//! the answer.

use crate::key::{
    generated_view, injection_line, key_line, supplied_view, GeneratedKey, GeneratedKeyView,
    SuppliedKey, SuppliedKeyView, KEY_ALGORITHM,
};
use crate::protocol::{Error, ErrorView, Reply, ReplyView, Request, RequestView};
use vstd::prelude::*;

verus! {

/// What the credential of a new sandbox has come to: the line to inject, and
/// the keypair where one was generated. A supplied key has no private half
/// that anyone here knows.
pub struct Credential {
    pub line: String,
    pub keypair: Option<GeneratedKey>,
}

pub struct CredentialView {
    pub line: Seq<char>,
    pub keypair: Option<GeneratedKeyView>,
}

impl View for Credential {
    type V = CredentialView;

    open spec fn view(&self) -> CredentialView {
        CredentialView { line: self.line@, keypair: generated_view(self.keypair) }
    }
}

/// The work a credential takes: decoding the supplied key, or generating one
/// where none was supplied.
pub open spec fn key_request(supplied: Option<SuppliedKeyView>) -> RequestView {
    match supplied {
        Some(key) => RequestView::DecodeKey { body: key.body },
        None => RequestView::GenerateKey,
    }
}

/// The credential that `reply` gives for `supplied`.
///
/// A generated keypair gives its own line under the fixed algorithm. A
/// supplied key that decoded gives the line of the key it decoded to,
/// whatever tag it was supplied under; one that did not decode is invalid.
/// No other reply answers the request.
pub open spec fn resolved(supplied: Option<SuppliedKeyView>, reply: ReplyView) -> Result<
    CredentialView,
    ErrorView,
> {
    match (supplied, reply) {
        (None, ReplyView::KeyGenerated { keypair }) => Ok(
            CredentialView {
                line: key_line(KEY_ALGORITHM@, keypair.public_key),
                keypair: Some(keypair),
            },
        ),
        (Some(_), ReplyView::KeyDecoded { key }) => Ok(
            CredentialView { line: key_line(key.algorithm, key.body), keypair: None },
        ),
        (Some(_), ReplyView::KeyRejected) => Err(ErrorView::InvalidKey),
        _ => Err(ErrorView::UnexpectedReply),
    }
}

/// The view of a resolution.
pub open spec fn resolution_view(resolution: Result<Credential, Error>) -> Result<
    CredentialView,
    ErrorView,
> {
    match resolution {
        Ok(credential) => Ok(credential@),
        Err(error) => Err(error@),
    }
}

impl Credential {
    /// The request that resolving `supplied` starts with.
    pub fn request(supplied: &Option<SuppliedKey>) -> (request: Request)
        ensures
            request@ == key_request(supplied_view(*supplied)),
    {
        match supplied {
            Some(key) => Request::DecodeKey { body: key.body.clone() },
            None => Request::GenerateKey,
        }
    }

    /// Resolves the credential from the reply to that request.
    pub fn resolve(supplied: Option<SuppliedKey>, reply: Reply) -> (resolution: Result<
        Credential,
        Error,
    >)
        ensures
            resolution_view(resolution) == resolved(supplied_view(supplied), reply@),
    {
        match supplied {
            None => match reply {
                Reply::KeyGenerated { keypair } => {
                    let line = injection_line(KEY_ALGORITHM, keypair.public_key.as_str());
                    Ok(Credential { line, keypair: Some(keypair) })
                },
                _ => Err(Error::UnexpectedReply),
            },
            Some(_) => match reply {
                Reply::KeyDecoded { key } => {
                    let line = injection_line(key.algorithm.as_str(), key.body.as_str());
                    Ok(Credential { line, keypair: None })
                },
                Reply::KeyRejected => Err(Error::InvalidKey),
                _ => Err(Error::UnexpectedReply),
            },
        }
    }
}

} // verus!
