//! Texts: numbers in decimal, and the search for one text in another.

use vstd::prelude::*;
use vstd::string::StringSliceAdditionalSpecFns;

verus! {

/// The character of a decimal digit.
pub open spec fn digit_char(digit: nat) -> char {
    if digit == 0 {
        '0'
    } else if digit == 1 {
        '1'
    } else if digit == 2 {
        '2'
    } else if digit == 3 {
        '3'
    } else if digit == 4 {
        '4'
    } else if digit == 5 {
        '5'
    } else if digit == 6 {
        '6'
    } else if digit == 7 {
        '7'
    } else if digit == 8 {
        '8'
    } else {
        '9'
    }
}

/// A number in decimal, without leading zeros.
pub open spec fn decimal(n: nat) -> Seq<char>
    decreases n,
{
    if n < 10 {
        seq![digit_char(n)]
    } else {
        decimal(n / 10).push(digit_char(n % 10))
    }
}

/// The text of one decimal digit.
fn digit_str(digit: u64) -> (r: &'static str)
    requires
        digit < 10,
    ensures
        r@ == seq![digit_char(digit as nat)],
{
    proof {
        reveal_strlit("0");
        reveal_strlit("1");
        reveal_strlit("2");
        reveal_strlit("3");
        reveal_strlit("4");
        reveal_strlit("5");
        reveal_strlit("6");
        reveal_strlit("7");
        reveal_strlit("8");
        reveal_strlit("9");
    }
    let r = if digit == 0 {
        "0"
    } else if digit == 1 {
        "1"
    } else if digit == 2 {
        "2"
    } else if digit == 3 {
        "3"
    } else if digit == 4 {
        "4"
    } else if digit == 5 {
        "5"
    } else if digit == 6 {
        "6"
    } else if digit == 7 {
        "7"
    } else if digit == 8 {
        "8"
    } else {
        "9"
    };
    assert(r@ =~= seq![digit_char(digit as nat)]);
    r
}

/// A number in decimal, without leading zeros.
pub fn decimal_string(n: u64) -> (r: String)
    ensures
        r@ == decimal(n as nat),
    decreases n,
{
    if n < 10 {
        String::from_str(digit_str(n))
    } else {
        let mut text = decimal_string(n / 10);
        text.append(digit_str(n % 10));
        assert(text@ =~= decimal(n as nat));
        text
    }
}

/// Whether `needle` stands in `haystack` at position `at`.
pub open spec fn occurs_at(haystack: Seq<u8>, needle: Seq<u8>, at: int) -> bool {
    0 <= at && at + needle.len() <= haystack.len() && haystack.subrange(
        at,
        at + needle.len(),
    ) == needle
}

/// The first position from `from` on at which `needle` stands in `haystack`.
pub open spec fn first_occurrence(haystack: Seq<u8>, needle: Seq<u8>, from: int) -> Option<int>
    decreases haystack.len() + 1 - from,
{
    if from < 0 || from + needle.len() > haystack.len() {
        None
    } else if occurs_at(haystack, needle, from) {
        Some(from)
    } else {
        first_occurrence(haystack, needle, from + 1)
    }
}

/// `first_occurrence` finds the least position at which the needle stands,
/// and finds nothing only where it stands nowhere.
pub proof fn lemma_first_occurrence(haystack: Seq<u8>, needle: Seq<u8>, from: int)
    requires
        0 <= from,
    ensures
        match first_occurrence(haystack, needle, from) {
            Some(at) => from <= at && occurs_at(haystack, needle, at) && forall|other: int|
                from <= other < at ==> !occurs_at(haystack, needle, other),
            None => forall|other: int| from <= other ==> !occurs_at(haystack, needle, other),
        },
    decreases haystack.len() + 1 - from,
{
    if from + needle.len() <= haystack.len() && !occurs_at(haystack, needle, from) {
        lemma_first_occurrence(haystack, needle, from + 1);
    }
}

/// Whether `needle` stands in `haystack` at position `at`.
fn bytes_occur_at(haystack: &[u8], needle: &[u8], at: usize) -> (r: bool)
    requires
        at + needle@.len() <= haystack@.len(),
    ensures
        r == occurs_at(haystack@, needle@, at as int),
{
    let length = haystack.len();
    let mut i: usize = 0;
    while i < needle.len()
        invariant
            i <= needle@.len(),
            at + needle@.len() <= haystack@.len(),
            length == haystack@.len(),
            forall|j: int| 0 <= j < i ==> haystack@[at + j] == needle@[j],
        decreases needle@.len() - i,
    {
        if haystack[at + i] != needle[i] {
            assert(haystack@.subrange(at as int, at + needle@.len())[i as int] != needle@[i as int]);
            return false;
        }
        i += 1;
    }
    assert(haystack@.subrange(at as int, at + needle@.len()) =~= needle@);
    true
}

/// The byte position at which `needle` first stands in `haystack`.
pub fn find(haystack: &str, needle: &str) -> (r: Option<usize>)
    ensures
        match r {
            Some(at) => first_occurrence(haystack.spec_bytes(), needle.spec_bytes(), 0) == Some(
                at as int,
            ),
            None => first_occurrence(haystack.spec_bytes(), needle.spec_bytes(), 0).is_none(),
        },
{
    let h = haystack.as_bytes();
    let n = needle.as_bytes();
    if n.len() > h.len() {
        return None;
    }
    let last = h.len() - n.len();
    let mut at: usize = 0;
    while at < last
        invariant
            at <= last,
            last == h@.len() - n@.len(),
            h@ == haystack.spec_bytes(),
            n@ == needle.spec_bytes(),
            first_occurrence(h@, n@, 0) == first_occurrence(h@, n@, at as int),
        decreases last - at,
    {
        if bytes_occur_at(h, n, at) {
            return Some(at);
        }
        at += 1;
    }
    if bytes_occur_at(h, n, at) {
        Some(at)
    } else {
        assert(first_occurrence(h@, n@, at + 1).is_none());
        None
    }
}

/// Whether `needle` stands somewhere in `haystack`.
pub fn contains(haystack: &str, needle: &str) -> (r: bool)
    ensures
        r == first_occurrence(haystack.spec_bytes(), needle.spec_bytes(), 0).is_some(),
{
    find(haystack, needle).is_some()
}

/// Whether `haystack` begins with `prefix`.
pub fn starts_with(haystack: &str, prefix: &str) -> (r: bool)
    ensures
        r == occurs_at(haystack.spec_bytes(), prefix.spec_bytes(), 0),
{
    let h = haystack.as_bytes();
    let p = prefix.as_bytes();
    if p.len() > h.len() {
        false
    } else {
        bytes_occur_at(h, p, 0)
    }
}

/// Whether two texts are the same.
pub fn same_text(a: &str, b: &str) -> (r: bool)
    ensures
        r == (a@ == b@),
{
    let x = a.as_bytes();
    let y = b.as_bytes();
    proof {
        vstd::utf8::encode_utf8_decode_utf8(a@);
        vstd::utf8::encode_utf8_decode_utf8(b@);
    }
    if x.len() != y.len() {
        false
    } else {
        let r = bytes_occur_at(x, y, 0);
        assert(x@.subrange(0, x@.len() as int) =~= x@);
        r
    }
}

/// A text in which each occurrence of `from` has given way to `to`, the
/// occurrences taken from the left and none of them overlapping another.
pub open spec fn replaced(text: Seq<u8>, from: Seq<u8>, to: Seq<u8>) -> Seq<u8>
    decreases text.len(),
{
    match first_occurrence(text, from, 0) {
        Some(at) => if from.len() > 0 && 0 <= at && at + from.len() <= text.len() {
            text.subrange(0, at) + to + replaced(
                text.subrange(at + from.len(), text.len() as int),
                from,
                to,
            )
        } else {
            text
        },
        None => text,
    }
}

/// A text in which each occurrence of `from` has given way to `to`. This
/// hands the three to `str::replace` of the standard library, which copies
/// the text and puts `to` in the place of each match of `from`, the matches
/// found from the left without overlap. An empty `from` is left out.
#[verifier::external_body]
pub(crate) fn replace(text: &str, from: &str, to: &str) -> (r: String)
    requires
        from@.len() > 0,
    ensures
        vstd::utf8::encode_utf8(r@) == replaced(
            text.spec_bytes(),
            from.spec_bytes(),
            to.spec_bytes(),
        ),
{
    text.replace(from, to)
}

/// What `str::to_lowercase` of the standard library makes of a text: each
/// character in its lowercase form as Unicode defines it, which is the same
/// on every machine.
pub uninterp spec fn lowercase(text: Seq<char>) -> Seq<char>;

/// The lowercase form of a text. This hands the text to `str::to_lowercase`
/// and claims of the result only that it is what that function makes of the
/// text.
#[verifier::external_body]
pub(crate) fn to_lowercase(text: &str) -> (r: String)
    ensures
        r@ == lowercase(text@),
{
    text.to_lowercase()
}

} // verus!
