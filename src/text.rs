//! Text helpers: normalisation of user input, yes/no answers and the
//! display form of a token name.
use vstd::prelude::*;
use vstd::string::StrSliceExecFns;
use vstd::string::StringExecFns;

verus! {

/// What `str::trim` leaves of a text: leading and trailing Unicode white space removed.
pub uninterp spec fn trim_of(s: Seq<char>) -> Seq<char>;

/// What `str::to_lowercase` makes of a text: the Unicode lower-case mapping.
pub uninterp spec fn lower_of(s: Seq<char>) -> Seq<char>;

/// What `char::to_uppercase` makes of one character: its Unicode upper-case
/// mapping, which may be more than one character.
pub uninterp spec fn upper_of(c: char) -> Seq<char>;

/// Relies on `str::trim`: the text without leading and trailing white space,
/// which depends on the text alone.
#[verifier::external_body]
fn trim_text(s: &str) -> (r: &str)
    ensures
        r@ == trim_of(s@),
{
    s.trim()
}

/// Relies on `str::to_lowercase`: the lower-case form, which depends on the
/// text alone.
#[verifier::external_body]
fn lowercase(s: &str) -> (r: String)
    ensures
        r@ == lower_of(s@),
{
    s.to_lowercase()
}

/// Relies on `char::to_uppercase`: the characters of the upper-case mapping
/// of `c`, collected into a string.
#[verifier::external_body]
fn uppercase_char(c: char) -> (r: String)
    ensures
        r@ == upper_of(c),
{
    c.to_uppercase().collect::<String>()
}

/// A token identifier as typed: trimmed, then lower-cased.
pub open spec fn normalized(s: Seq<char>) -> Seq<char> {
    lower_of(trim_of(s))
}

/// The display name of a token: its first character upper-cased, the rest unchanged.
pub open spec fn capitalized(s: Seq<char>) -> Seq<char> {
    if s.len() == 0 {
        Seq::empty()
    } else {
        upper_of(s[0]) + s.drop_first()
    }
}

/// An answer that accepts the call of the price service for an unlisted token.
pub open spec fn is_override_yes(s: Seq<char>) -> bool {
    s == "y"@ || s == "yes"@ || s == "oui"@
}

/// An answer that confirms a choice.
pub open spec fn is_confirm_yes(s: Seq<char>) -> bool {
    s == "y"@ || s == "yes"@
}

/// Whether two texts hold the same characters.
pub fn same_text(a: &str, b: &str) -> (r: bool)
    ensures
        r == (a@ == b@),
{
    let n = a.unicode_len();
    if n != b.unicode_len() {
        return false;
    }
    let mut i: usize = 0;
    while i < n
        invariant
            n == a@.len(),
            n == b@.len(),
            i <= n,
            forall|j: int| 0 <= j < i ==> a@[j] == b@[j],
        decreases n - i,
    {
        if a.get_char(i) != b.get_char(i) {
            return false;
        }
        i = i + 1;
    }
    assert(a@ =~= b@);
    true
}

/// The token identifier for a line of input: trimmed and lower-cased.
pub fn normalize(line: &str) -> (r: String)
    ensures
        r@ == normalized(line@),
{
    lowercase(trim_text(line))
}

/// Joins the upper-case form of a token's first character with the rest of
/// the token. `first_upper` is what the upper-case mapping gave for that
/// character; an empty token gives an empty name.
pub fn join_capitalized(first_upper: &str, token: &str) -> (r: String)
    ensures
        token@.len() == 0 ==> r@.len() == 0,
        token@.len() > 0 ==> r@ == first_upper@ + token@.drop_first(),
{
    let n = token.unicode_len();
    if n == 0 {
        return String::new();
    }
    let rest = token.substring_char(1, n);
    let r = String::from_str(first_upper).concat(rest);
    assert(rest@ =~= token@.drop_first());
    r
}

/// The display name of a token: the first character upper-cased, the rest
/// unchanged; an empty token gives an empty name.
pub fn capitalize(token: &str) -> (r: String)
    ensures
        r@ == capitalized(token@),
{
    if token.unicode_len() == 0 {
        return String::new();
    }
    let upper = uppercase_char(token.get_char(0));
    join_capitalized(upper.as_str(), token)
}

/// Whether an answer to the allow-list prompt accepts the call: once trimmed
/// it is `y`, `yes` or `oui`.
pub fn accepts_override(answer: &str) -> (r: bool)
    ensures
        r == is_override_yes(trim_of(answer@)),
{
    let a = trim_text(answer);
    same_text(a, "y") || same_text(a, "yes") || same_text(a, "oui")
}

/// Whether an answer confirms a choice: once trimmed and lower-cased it is
/// `y` or `yes`.
pub fn confirms(answer: &str) -> (r: bool)
    ensures
        r == is_confirm_yes(normalized(answer@)),
{
    let a = normalize(answer);
    same_text(a.as_str(), "y") || same_text(a.as_str(), "yes")
}

} // verus!
