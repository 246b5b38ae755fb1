//! The public key a sandbox trusts, and the line that carries it inside.

use vstd::prelude::*;
use vstd::string::StringExecFns;

verus! {

/// The algorithm of the keypairs generated on a requester's behalf.
pub const KEY_ALGORITHM: &'static str = "ssh-ed25519";

/// What separates the algorithm from the key in a public-key line.
pub const SEPARATOR: &'static str = " ";

/// A public key: the tag of its algorithm and the key itself in base64.
#[derive(Debug, PartialEq, Eq)]
pub struct PublicKey {
    pub algorithm: String,
    pub body: String,
}

pub struct PublicKeyView {
    pub algorithm: Seq<char>,
    pub body: Seq<char>,
}

impl View for PublicKey {
    type V = PublicKeyView;

    open spec fn view(&self) -> PublicKeyView {
        PublicKeyView { algorithm: self.algorithm@, body: self.body@ }
    }
}

/// A public key as its owner supplied it: an algorithm tag and the key
/// itself in base64. Nothing is known of it until it has been decoded, and
/// the tag is only what its owner wrote.
#[derive(Debug, PartialEq, Eq)]
pub struct SuppliedKey {
    pub algorithm: String,
    pub body: String,
}

pub struct SuppliedKeyView {
    pub algorithm: Seq<char>,
    pub body: Seq<char>,
}

impl View for SuppliedKey {
    type V = SuppliedKeyView;

    open spec fn view(&self) -> SuppliedKeyView {
        SuppliedKeyView { algorithm: self.algorithm@, body: self.body@ }
    }
}

/// A keypair generated on a requester's behalf: the public half in base64,
/// and the private half as the text of a private-key file.
pub struct GeneratedKey {
    pub public_key: String,
    pub private_key: Vec<u8>,
}

pub struct GeneratedKeyView {
    pub public_key: Seq<char>,
    pub private_key: Seq<u8>,
}

impl View for GeneratedKey {
    type V = GeneratedKeyView;

    open spec fn view(&self) -> GeneratedKeyView {
        GeneratedKeyView { public_key: self.public_key@, private_key: self.private_key@ }
    }
}

/// The view of a key that may be absent.
pub open spec fn supplied_view(key: Option<SuppliedKey>) -> Option<SuppliedKeyView> {
    match key {
        Some(key) => Some(key@),
        None => None,
    }
}

/// The view of a keypair that may be absent.
pub open spec fn generated_view(key: Option<GeneratedKey>) -> Option<GeneratedKeyView> {
    match key {
        Some(key) => Some(key@),
        None => None,
    }
}

/// The single line that names a public key: its algorithm, one space, the
/// key in base64.
pub open spec fn key_line(algorithm: Seq<char>, body: Seq<char>) -> Seq<char> {
    algorithm + SEPARATOR@ + body
}

/// Writes the public-key line of `body` under `algorithm`.
pub fn injection_line(algorithm: &str, body: &str) -> (line: String)
    ensures
        line@ == key_line(algorithm@, body@),
{
    let mut line = String::from_str(algorithm);
    line.append(SEPARATOR);
    line.append(body);
    line
}

} // verus!
