//! Text helpers shared by the messages and the printed forms of the library.

use vstd::prelude::*;
use vstd::string::*;

verus! {

/// The text that the standard library's `Debug` formatting writes for a
/// string: the string between double quotes, with escapes where it needs them.
pub uninterp spec fn debug_text(s: Seq<char>) -> Seq<char>;

/// Formats `s` with the standard library's `Debug` implementation for `str`.
///
/// Trusted: the result is, by definition, [`debug_text`] of the input. Nothing
/// else is claimed of it.
#[verifier::external_body]
pub(crate) fn quoted(s: &str) -> (r: String)
    ensures
        r@ == debug_text(s@),
{
    format!("{:?}", s)
}

/// The lower-case form of a character, where it is an upper-case letter of
/// ASCII, else the character.
pub open spec fn ascii_lower_char(c: char) -> char {
    if 'A' <= c <= 'Z' {
        ((c as u8) + 32) as char
    } else {
        c
    }
}

/// The text with every upper-case letter of ASCII turned to lower case.
pub open spec fn ascii_lower(s: Seq<char>) -> Seq<char> {
    s.map_values(|c: char| ascii_lower_char(c))
}

/// Turns the text to lower case with `str::to_ascii_lowercase`.
///
/// Trusted: the standard library maps `A` to `Z` to `a` to `z` and leaves
/// every other character as it is.
#[verifier::external_body]
pub(crate) fn lowered(s: &str) -> (r: String)
    ensures
        r@ == ascii_lower(s@),
{
    s.to_ascii_lowercase()
}

/// The text without the white space at its two ends, as `str::trim` gives
/// it. White space is what Unicode calls so.
pub uninterp spec fn trimmed_text(s: Seq<char>) -> Seq<char>;

/// Takes the white space off the two ends of a text with `str::trim`.
///
/// Trusted: the result is [`trimmed_text`] of the text by definition.
#[verifier::external_body]
pub(crate) fn trimmed(s: &str) -> (r: String)
    ensures
        r@ == trimmed_text(s@),
{
    s.trim().to_owned()
}

/// The pieces into which the dots cut a text: there is one more piece than
/// there are dots, and a piece may be empty.
pub open spec fn split_dots(s: Seq<char>) -> Seq<Seq<char>>
    decreases s.len(),
{
    if s.len() == 0 {
        seq![Seq::empty()]
    } else {
        let before = split_dots(s.drop_last());
        if s.last() == '.' {
            before.push(Seq::empty())
        } else {
            before.update(before.len() - 1, before.last().push(s.last()))
        }
    }
}

/// The characters of each text of a list.
pub open spec fn texts(list: Vec<String>) -> Seq<Seq<char>> {
    Seq::new(list.len() as nat, |i: int| list[i]@)
}

/// Cuts a text at its dots with `str::split`.
///
/// Trusted: the standard library gives the pieces between the dots in
/// order, the empty ones too, which is what [`split_dots`] says.
#[verifier::external_body]
pub(crate) fn dotted(s: &str) -> (r: Vec<String>)
    ensures
        texts(r) == split_dots(s@),
{
    s.split('.').map(String::from).collect()
}

/// Cutting a text at its dots gives at least one piece.
pub proof fn split_dots_is_not_empty(s: Seq<char>)
    ensures
        split_dots(s).len() >= 1,
    decreases s.len(),
{
    if s.len() > 0 {
        split_dots_is_not_empty(s.drop_last());
    }
}

/// Whether two texts that may be missing are the same.
pub fn same_optional(a: &Option<String>, b: &Option<String>) -> (r: bool)
    ensures
        r == (optional_text(*a) == optional_text(*b)),
{
    match (a, b) {
        (Some(x), Some(y)) => *x == *y,
        (None, None) => true,
        _ => false,
    }
}

/// The characters of a text that may be missing.
pub open spec fn optional_text(word: Option<String>) -> Option<Seq<char>> {
    match word {
        Some(w) => Some(w@),
        None => None,
    }
}

/// A copy of a text that may be missing.
pub fn copy_optional(word: &Option<String>) -> (r: Option<String>)
    ensures
        optional_text(r) == optional_text(*word),
{
    match word {
        Some(w) => Some(w.clone()),
        None => None,
    }
}

/// The character of a decimal digit.
pub open spec fn digit_char(d: nat) -> char {
    if d == 0 {
        '0'
    } else if d == 1 {
        '1'
    } else if d == 2 {
        '2'
    } else if d == 3 {
        '3'
    } else if d == 4 {
        '4'
    } else if d == 5 {
        '5'
    } else if d == 6 {
        '6'
    } else if d == 7 {
        '7'
    } else if d == 8 {
        '8'
    } else {
        '9'
    }
}

/// A number in decimal digits, without leading zeros.
pub open spec fn decimal_digits(n: nat) -> Seq<char>
    decreases n,
{
    if n < 10 {
        seq![digit_char(n)]
    } else {
        decimal_digits(n / 10).push(digit_char(n % 10))
    }
}

/// Writes a number with the standard library's `Display` implementation for
/// `u32`.
///
/// Trusted: the standard library writes the number in decimal digits
/// without leading zeros.
#[verifier::external_body]
pub(crate) fn number_text(n: u32) -> (r: String)
    ensures
        r@ == decimal_digits(n as nat),
{
    n.to_string()
}

/// Writes a count with the standard library's `Display` implementation for
/// `usize`.
///
/// Trusted: the standard library writes the number in decimal digits
/// without leading zeros.
#[verifier::external_body]
pub(crate) fn count_text(n: usize) -> (r: String)
    ensures
        r@ == decimal_digits(n as nat),
{
    n.to_string()
}

/// Whether a byte string comes before another, or is the same, in the order
/// of the first byte in which they differ; a byte string comes before those
/// that it begins.
pub open spec fn bytes_le(a: Seq<u8>, b: Seq<u8>) -> bool
    decreases a.len(),
{
    if a.len() == 0 {
        true
    } else if b.len() == 0 {
        false
    } else if a[0] != b[0] {
        a[0] < b[0]
    } else {
        bytes_le(a.drop_first(), b.drop_first())
    }
}

/// Whether a text comes before another, or is the same, in the order of
/// their UTF-8 bytes, which is the order of the standard library's strings.
pub open spec fn text_le(a: Seq<char>, b: Seq<char>) -> bool {
    bytes_le(vstd::utf8::encode_utf8(a), vstd::utf8::encode_utf8(b))
}

/// Sorts a list of texts with `sort_unstable`.
///
/// Trusted: the standard library puts the same texts in ascending order,
/// and the order of strings is the order of their bytes.
#[verifier::external_body]
pub(crate) fn sorted_texts(list: Vec<String>) -> (r: Vec<String>)
    ensures
        r.len() == list.len(),
        forall|x: Seq<char>| texts(r).contains(x) <==> texts(list).contains(x),
        forall|i: int, j: int| 0 <= i <= j < r.len() ==> text_le(#[trigger] r[i]@, #[trigger] r[j]@),
{
    let mut list = list;
    list.sort_unstable();
    list
}

/// Whether each text of a list comes after the one before it: the list is
/// in ascending order and holds no text twice.
pub open spec fn ascending(list: Seq<Seq<char>>) -> bool {
    forall|i: int|
        0 <= i < list.len() - 1 ==> text_le(#[trigger] list[i], list[i + 1]) && list[i] != list[i
            + 1]
}

/// The texts of a sorted list, each once.
pub fn deduplicated(sorted: Vec<String>) -> (r: Vec<String>)
    requires
        forall|i: int, j: int|
            0 <= i <= j < sorted.len() ==> text_le(#[trigger] sorted[i]@, #[trigger] sorted[j]@),
    ensures
        ascending(texts(r)),
        forall|x: Seq<char>| texts(r).contains(x) <==> texts(sorted).contains(x),
{
    let mut out: Vec<String> = Vec::new();
    let mut i: usize = 0;
    while i < sorted.len()
        invariant
            0 <= i <= sorted.len(),
            forall|a: int, b: int|
                0 <= a <= b < sorted.len() ==> text_le(
                    #[trigger] sorted[a]@,
                    #[trigger] sorted[b]@,
                ),
            i == 0 ==> out.len() == 0,
            i > 0 ==> out.len() > 0 && out[out.len() - 1]@ == sorted[i - 1]@,
            ascending(texts(out)),
            forall|k: int|
                0 <= k < out.len() ==> texts(sorted).take(i as int).contains(#[trigger] texts(out)[k]),
            forall|j: int| 0 <= j < i ==> texts(out).contains(#[trigger] texts(sorted)[j]),
        decreases sorted.len() - i,
    {
        let ghost before = texts(out);
        let ghost prefix = texts(sorted).take(i as int);
        let fresh = if i == 0 {
            true
        } else {
            !(out[out.len() - 1] == sorted[i])
        };
        if fresh {
            out.push(sorted[i].clone());
            proof {
                let after = texts(out);
                assert(after =~= before.push(sorted[i as int]@));
                assert forall|k: int| 0 <= k < after.len() implies texts(sorted).take(
                    i + 1,
                ).contains(#[trigger] after[k]) by {
                    if k < before.len() {
                        let w = choose|w: int| 0 <= w < prefix.len() && prefix[w] == before[k];
                        assert(texts(sorted).take(i + 1)[w] == before[k]);
                    } else {
                        assert(texts(sorted).take(i + 1)[i as int] == after[k]);
                    }
                }
                assert forall|j: int| 0 <= j < i + 1 implies after.contains(
                    #[trigger] texts(sorted)[j],
                ) by {
                    if j < i {
                        let w = choose|w: int| 0 <= w < before.len() && before[w] == texts(sorted)[j];
                        assert(after[w] == texts(sorted)[j]);
                    } else {
                        assert(after[after.len() - 1] == texts(sorted)[j]);
                    }
                }
                assert forall|k: int| 0 <= k < after.len() - 1 implies text_le(
                    #[trigger] after[k],
                    after[k + 1],
                ) && after[k] != after[k + 1] by {
                    if k < before.len() - 1 {
                        assert(after[k] == before[k] && after[k + 1] == before[k + 1]);
                    } else {
                        assert(after[k] == sorted[i - 1]@);
                        assert(text_le(sorted[i - 1]@, sorted[i as int]@));
                    }
                }
            }
        } else {
            proof {
                assert forall|k: int| 0 <= k < before.len() implies texts(sorted).take(
                    i + 1,
                ).contains(#[trigger] before[k]) by {
                    let w = choose|w: int| 0 <= w < prefix.len() && prefix[w] == before[k];
                    assert(texts(sorted).take(i + 1)[w] == before[k]);
                }
                assert forall|j: int| 0 <= j < i + 1 implies before.contains(
                    #[trigger] texts(sorted)[j],
                ) by {
                    if j == i {
                        assert(before[before.len() - 1] == texts(sorted)[j]);
                    }
                }
            }
        }
        i = i + 1;
    }
    proof {
        assert(texts(sorted).take(sorted.len() as int) =~= texts(sorted));
        assert forall|x: Seq<char>| texts(out).contains(x) implies texts(sorted).contains(x) by {
            let k = choose|k: int| 0 <= k < texts(out).len() && texts(out)[k] == x;
            assert(texts(sorted).contains(texts(out)[k]));
        }
        assert forall|x: Seq<char>| texts(sorted).contains(x) implies texts(out).contains(x) by {
            let j = choose|j: int| 0 <= j < texts(sorted).len() && texts(sorted)[j] == x;
            assert(texts(out).contains(texts(sorted)[j]));
        }
    }
    out
}

/// Whether a text is the given word.
pub fn is_word(s: &String, word: &str) -> (r: bool)
    ensures
        r == (s@ == word@),
{
    let other = owned(word);
    *s == other
}

/// A fresh string with the characters of `s`.
pub fn owned(s: &str) -> (r: String)
    ensures
        r@ == s@,
{
    String::from_str(s)
}

/// `a` followed by `b`.
pub fn joined(a: String, b: &str) -> (r: String)
    ensures
        r@ == a@ + b@,
{
    a.concat(b)
}

} // verus!
