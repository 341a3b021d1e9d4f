use vstd::prelude::*;

use rand::Rng;

use crate::error::E;

verus! {

/// rand's handle on the operating system's secure randomness source, carried
/// through opaquely.
#[verifier::external_type_specification]
#[verifier::external_body]
pub struct ExOsRng(rand::OsRng);

/// The number of characters of a token.
pub const TOKEN_LEN: usize = 64;

/// A character a token may hold: an ASCII letter or digit.
pub open spec fn is_token_char(c: char) -> bool {
    ('A' <= c && c <= 'Z') || ('a' <= c && c <= 'z') || ('0' <= c && c <= '9')
}

pub open spec fn is_token(s: Seq<char>) -> bool {
    &&& s.len() == TOKEN_LEN
    &&& forall|i: int| 0 <= i < s.len() ==> is_token_char(#[trigger] s[i])
}

/// Relies on rand::OsRng::new: it opens the operating system's secure
/// randomness source, and fails when that source is unavailable.
#[verifier::external_body]
fn open_os_rng() -> (r: Option<rand::OsRng>) {
    rand::OsRng::new().ok()
}

/// Relies on rand::Rng::gen_ascii_chars: an endless run of characters, each
/// drawn from A-Z, a-z and 0-9, of which the first `n` are taken.
#[verifier::external_body]
fn ascii_chars(rng: &mut rand::OsRng, n: usize) -> (s: String)
    ensures
        s@.len() == n,
        forall|i: int| 0 <= i < s@.len() ==> is_token_char(#[trigger] s@[i]),
{
    rng.gen_ascii_chars().take(n).collect()
}

/// A bearer token: letters and digits drawn from the operating system's
/// secure randomness source.
pub struct Token {
    token: String,
}

impl Token {
    #[verifier::type_invariant]
    spec fn well_formed(&self) -> bool {
        is_token(self.token@)
    }
}

impl View for Token {
    type V = Seq<char>;

    closed spec fn view(&self) -> Seq<char> {
        self.token@
    }
}

impl Token {
    /// A fresh token; an error when the secure randomness source is
    /// unavailable.
    pub fn new() -> (r: Result<Token, E>)
        ensures
            r matches Ok(t) ==> is_token(t@),
    {
        match open_os_rng() {
            Some(mut rng) => {
                let token = ascii_chars(&mut rng, TOKEN_LEN);
                Ok(Token { token })
            },
            None => Err(E::new("the secure randomness source is unavailable".to_owned())),
        }
    }

    pub fn as_str(&self) -> (r: &str)
        ensures
            r@ == self@,
            is_token(r@),
    {
        proof {
            use_type_invariant(self);
        }
        self.token.as_str()
    }
}

} // verus!
