//! The unique token that every entry carries.
//!
//! A token is a 128-bit identifier in its canonical text form: thirty-two
//! lower-case hexadecimal digits in five groups of 8, 4, 4, 4 and 12,
//! separated by hyphens.

use vstd::prelude::*;
use vstd::string::*;

verus! {

/// The length of a token's text.
pub const TOKEN_LENGTH: usize = 36;

/// Whether `c` is a hexadecimal digit in lower case.
pub open spec fn is_lower_hex(c: char) -> bool {
    ('0' <= c && c <= '9') || ('a' <= c && c <= 'f')
}

/// Whether a hyphen stands at index `i` of a token's text.
pub open spec fn is_hyphen_position(i: int) -> bool {
    i == 8 || i == 13 || i == 18 || i == 23
}

/// Whether `c` is the character that a token's text must hold at index `i`.
pub open spec fn fits_position(c: char, i: int) -> bool {
    if is_hyphen_position(i) {
        c == '-'
    } else {
        is_lower_hex(c)
    }
}

/// Whether `s` is the canonical text of a 128-bit identifier.
pub open spec fn is_canonical(s: Seq<char>) -> bool {
    &&& s.len() == TOKEN_LENGTH
    &&& forall|i: int| 0 <= i < s.len() ==> fits_position(#[trigger] s[i], i)
}

/// Whether the canonical text `s` marks its identifier as a random one:
/// the version digit is 4 and the variant digit is one of 8, 9, a and b.
pub open spec fn is_random_kind(s: Seq<char>) -> bool
    recommends
        is_canonical(s),
{
    &&& s[14] == '4'
    &&& (s[19] == '8' || s[19] == '9' || s[19] == 'a' || s[19] == 'b')
}

/// A token: the canonical text of a 128-bit identifier.
#[derive(Debug, PartialEq, Eq)]
pub struct Token {
    text: String,
}

impl View for Token {
    type V = Seq<char>;

    closed spec fn view(&self) -> Seq<char> {
        self.text@
    }
}

impl Clone for Token {
    fn clone(&self) -> (copy: Self)
        ensures
            copy@ == self@,
    {
        proof {
            use_type_invariant(self);
        }
        Token { text: self.text.clone() }
    }
}

/// Generates a random identifier with `uuid::Uuid::new_v4` and renders it with
/// the identifier's `Display` impl. The contract states what holds of every
/// identifier so made: the text is hyphenated lower-case hexadecimal, and
/// `new_v4` forces the version digit to 4 and the two highest bits of the
/// variant digit to `10`. Which identifier comes back is left open. `new_v4`
/// panics where the operating system hands out no random bytes.
#[verifier::external_body]
fn random_identifier_text() -> (text: String)
    ensures
        is_canonical(text@),
        is_random_kind(text@),
{
    uuid::Uuid::new_v4().to_string()
}

fn char_fits(c: char, i: usize) -> (fits: bool)
    ensures
        fits == fits_position(c, i as int),
{
    if i == 8 || i == 13 || i == 18 || i == 23 {
        c == '-'
    } else {
        ('0' <= c && c <= '9') || ('a' <= c && c <= 'f')
    }
}

/// Whether `s` is the canonical text of a 128-bit identifier.
pub fn is_canonical_text(s: &str) -> (canonical: bool)
    ensures
        canonical == is_canonical(s@),
{
    if s.unicode_len() != TOKEN_LENGTH {
        return false;
    }
    let mut i: usize = 0;
    while i < TOKEN_LENGTH
        invariant
            s@.len() == TOKEN_LENGTH,
            i <= TOKEN_LENGTH,
            forall|j: int| 0 <= j < i ==> fits_position(#[trigger] s@[j], j),
        decreases TOKEN_LENGTH - i,
    {
        if !char_fits(s.get_char(i), i) {
            return false;
        }
        i = i + 1;
    }
    true
}

impl Token {
    #[verifier::type_invariant]
    spec fn well_formed(self) -> bool {
        is_canonical(self.text@)
    }

    /// A fresh random token.
    pub fn generate() -> (token: Token)
        ensures
            is_canonical(token@),
            is_random_kind(token@),
    {
        Token { text: random_identifier_text() }
    }

    /// Reads a token from its text: `Some` exactly when the text is canonical.
    pub fn parse(s: &str) -> (parsed: Option<Token>)
        ensures
            parsed.is_some() == is_canonical(s@),
            parsed matches Some(token) ==> token@ == s@,
    {
        if is_canonical_text(s) {
            Some(Token { text: String::from_str(s) })
        } else {
            None
        }
    }

    /// The token's text, which is always canonical.
    pub fn as_str(&self) -> (s: &str)
        ensures
            s@ == self@,
            is_canonical(s@),
    {
        proof {
            use_type_invariant(self);
        }
        self.text.as_str()
    }
}

/// A text that is canonical and of the random kind: such texts exist.
pub proof fn canonical_witness() -> (text: Seq<char>)
    ensures
        is_canonical(text),
        is_random_kind(text),
{
    let text = Seq::new(
        36,
        |i: int|
            if i == 8 || i == 13 || i == 18 || i == 23 {
                '-'
            } else if i == 14 {
                '4'
            } else if i == 19 {
                '8'
            } else {
                '0'
            },
    );
    text
}

} // verus!
