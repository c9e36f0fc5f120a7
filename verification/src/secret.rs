//! The stored secret that a trigger has to present.

use vstd::prelude::*;
use vstd::string::StringSliceAdditionalSpecFns;
use vstd::utf8::{encode_utf8, encode_utf8_decode_utf8};

verus! {

/// The token written to the store when none is found there.
pub const PLACEHOLDER_SECRET: &'static str = "secret";

/// An opaque token, never empty, compared for exact equality only.
pub struct Secret {
    token: String,
}

impl View for Secret {
    type V = Seq<char>;

    closed spec fn view(&self) -> Seq<char> {
        self.token@
    }
}

/// What to do about the secret, given what the store holds.
pub enum Provision {
    /// The store holds this token; use it.
    Existing(Secret),
    /// The store holds nothing; write this token to it, then use it.
    Fresh(Secret),
    /// The store holds an empty token, which can never be presented.
    Unusable,
}

/// Whether two byte strings are equal, byte for byte.
fn bytes_equal(a: &[u8], b: &[u8]) -> (same: bool)
    ensures
        same == (a@ == b@),
{
    if a.len() != b.len() {
        return false;
    }
    let mut i: usize = 0;
    while i < a.len()
        invariant
            a@.len() == b@.len(),
            i <= a@.len(),
            forall|j: int| 0 <= j < i ==> a@[j] == b@[j],
        decreases a@.len() - i,
    {
        if a[i] != b[i] {
            return false;
        }
        i = i + 1;
    }
    assert(a@ =~= b@);
    true
}

/// Two texts are equal exactly when their encodings are.
proof fn lemma_encoding_is_injective(x: Seq<char>, y: Seq<char>)
    ensures
        (encode_utf8(x) == encode_utf8(y)) <==> x == y,
{
    encode_utf8_decode_utf8(x);
    encode_utf8_decode_utf8(y);
}

impl Secret {
    #[verifier::type_invariant]
    spec fn non_empty(self) -> bool {
        self.token@.len() > 0
    }

    /// Takes `token` as the secret unless it is empty.
    pub fn new(token: String) -> (secret: Option<Secret>)
        ensures
            secret is None <==> token@.len() == 0,
            secret matches Some(s) ==> s@ == token@,
    {
        if token.as_str().is_empty() {
            None
        } else {
            Some(Secret { token })
        }
    }

    /// The secret that a first run writes to an empty store.
    pub fn placeholder() -> (secret: Secret)
        ensures
            secret@ == PLACEHOLDER_SECRET@,
    {
        proof {
            reveal_strlit("secret");
        }
        Secret { token: PLACEHOLDER_SECRET.to_owned() }
    }

    /// Whether `credential` is this secret, byte for byte.
    pub fn matches(&self, credential: &str) -> (same: bool)
        ensures
            same == (credential@ == self@),
    {
        proof {
            lemma_encoding_is_injective(credential@, self@);
        }
        bytes_equal(self.token.as_str().as_bytes(), credential.as_bytes())
    }

    /// The token itself.
    pub fn as_str(&self) -> (token: &str)
        ensures
            token@ == self@,
            token@.len() > 0,
    {
        proof {
            use_type_invariant(self);
        }
        self.token.as_str()
    }
}

/// Decides how the secret comes about from what the store holds: a stored
/// token is used as it is, an empty store gets the placeholder, and an
/// empty token is refused.
pub fn provision(stored: Option<String>) -> (plan: Provision)
    ensures
        match stored {
            None => plan matches Provision::Fresh(s) && s@ == PLACEHOLDER_SECRET@,
            Some(t) => if t@.len() == 0 {
                plan is Unusable
            } else {
                plan matches Provision::Existing(s) && s@ == t@
            },
        },
{
    match stored {
        None => Provision::Fresh(Secret::placeholder()),
        Some(token) => match Secret::new(token) {
            Some(secret) => Provision::Existing(secret),
            None => Provision::Unusable,
        },
    }
}

} // verus!
