//! Text that goes into prompts: trimming, decimal numbers and displayed paths.

use std::path::Path;
use vstd::prelude::*;
use vstd::string::*;

verus! {

/// The characters with the Unicode property `White_Space`.
pub open spec fn is_white_space(c: char) -> bool {
    ||| '\u{9}' <= c <= '\u{d}'
    ||| c == '\u{20}'
    ||| c == '\u{85}'
    ||| c == '\u{a0}'
    ||| c == '\u{1680}'
    ||| '\u{2000}' <= c <= '\u{200a}'
    ||| c == '\u{2028}'
    ||| c == '\u{2029}'
    ||| c == '\u{202f}'
    ||| c == '\u{205f}'
    ||| c == '\u{3000}'
}

/// `s` without its leading white space.
pub open spec fn trim_start(s: Seq<char>) -> Seq<char>
    decreases s.len(),
{
    if s.len() > 0 && is_white_space(s.first()) {
        trim_start(s.drop_first())
    } else {
        s
    }
}

/// `s` without its trailing white space.
pub open spec fn trim_end(s: Seq<char>) -> Seq<char>
    decreases s.len(),
{
    if s.len() > 0 && is_white_space(s.last()) {
        trim_end(s.drop_last())
    } else {
        s
    }
}

/// `s` without the white space at its two ends.
pub open spec fn trimmed(s: Seq<char>) -> Seq<char> {
    trim_end(trim_start(s))
}

/// Nothing but white space, or nothing at all.
pub open spec fn is_blank(s: Seq<char>) -> bool {
    forall|i: int| 0 <= i < s.len() ==> is_white_space(#[trigger] s[i])
}

/// The view of an optional piece of text.
pub open spec fn optional_text(text: Option<&str>) -> Option<Seq<char>> {
    match text {
        Some(text) => Some(text@),
        None => None,
    }
}

/// The view of an optional owned piece of text.
pub open spec fn optional_string(text: Option<String>) -> Option<Seq<char>> {
    match text {
        Some(text) => Some(text@),
        None => None,
    }
}

/// The character of a decimal digit.
pub open spec fn digit(n: nat) -> char {
    if n == 0 {
        '0'
    } else if n == 1 {
        '1'
    } else if n == 2 {
        '2'
    } else if n == 3 {
        '3'
    } else if n == 4 {
        '4'
    } else if n == 5 {
        '5'
    } else if n == 6 {
        '6'
    } else if n == 7 {
        '7'
    } else if n == 8 {
        '8'
    } else {
        '9'
    }
}

/// `n` in decimal, without leading zeros.
pub open spec fn decimal(n: nat) -> Seq<char>
    decreases n,
{
    if n < 10 {
        seq![digit(n)]
    } else {
        decimal(n / 10).push(digit(n % 10))
    }
}

/// `std::path::Path`, carried unchanged from the caller to where it is displayed.
#[verifier::external_type_specification]
#[verifier::external_body]
pub struct ExPath(Path);

/// The characters that `Path::display` shows of a path.
pub uninterp spec fn path_text(path: &Path) -> Seq<char>;

/// The characters shown of an optional path.
pub open spec fn optional_path(path: Option<&Path>) -> Option<Seq<char>> {
    match path {
        Some(path) => Some(path_text(path)),
        None => None,
    }
}

/// The characters shown of an optional owned path.
pub open spec fn optional_boxed_path(path: Option<Box<Path>>) -> Option<Seq<char>> {
    match path {
        Some(path) => Some(path_text(&path)),
        None => None,
    }
}

/// Calls `std::path::Path::display` and collects what it prints. The contract says that the
/// characters are determined by the path, and names them `path_text`; it does not say which they
/// are, as parts of a path that are not Unicode may be shown by a replacement.
#[verifier::external_body]
pub(crate) fn display_path(path: &Path) -> (text: String)
    ensures
        text@ == path_text(path),
{
    path.display().to_string()
}

/// Shows a path, if there is one.
pub(crate) fn display_optional_path(path: Option<&Path>) -> (text: Option<String>)
    ensures
        optional_string(text) == optional_path(path),
{
    match path {
        Some(path) => Some(display_path(path)),
        None => None,
    }
}

/// Borrows an optional text.
pub(crate) fn borrow_text(text: &Option<String>) -> (borrowed: Option<&str>)
    ensures
        optional_text(borrowed) == optional_string(*text),
{
    match text {
        Some(text) => Some(text.as_str()),
        None => None,
    }
}

/// Borrows an optional path.
pub(crate) fn borrow_path(path: &Option<Box<Path>>) -> (borrowed: Option<&Path>)
    ensures
        optional_path(borrowed) == optional_boxed_path(*path),
{
    match path {
        Some(path) => Some(path),
        None => None,
    }
}

/// `str::trim`: the slice without leading and trailing characters that have the Unicode
/// property `White_Space`.
pub assume_specification[ str::trim ](s: &str) -> (r: &str)
    ensures
        r@ == trimmed(s@),
;

/// Whether two texts have the same characters.
pub(crate) fn same_text(left: &str, right: &str) -> (same: bool)
    ensures
        same == (left@ == right@),
{
    let left_bytes = left.as_bytes();
    let right_bytes = right.as_bytes();
    proof {
        vstd::utf8::encode_utf8_decode_utf8(left@);
        vstd::utf8::encode_utf8_decode_utf8(right@);
    }
    if left_bytes.len() != right_bytes.len() {
        return false;
    }
    let mut i: usize = 0;
    while i < left_bytes.len()
        invariant
            left_bytes@ == left.spec_bytes(),
            right_bytes@ == right.spec_bytes(),
            left_bytes@.len() == right_bytes@.len(),
            i <= left_bytes@.len(),
            forall|j: int| 0 <= j < i ==> left_bytes@[j] == right_bytes@[j],
        decreases left_bytes@.len() - i,
    {
        if left_bytes[i] != right_bytes[i] {
            return false;
        }
        i += 1;
    }
    assert(left_bytes@ =~= right_bytes@);
    true
}

/// The text of a decimal digit.
fn digit_text(n: u32) -> (text: &'static str)
    requires
        n < 10,
    ensures
        text@ == seq![digit(n as nat)],
{
    proof {
        reveal_strlit("0");
        reveal_strlit("1");
        reveal_strlit("2");
        reveal_strlit("3");
        reveal_strlit("4");
        reveal_strlit("5");
        reveal_strlit("6");
        reveal_strlit("7");
        reveal_strlit("8");
        reveal_strlit("9");
    }
    match n {
        0 => "0",
        1 => "1",
        2 => "2",
        3 => "3",
        4 => "4",
        5 => "5",
        6 => "6",
        7 => "7",
        8 => "8",
        _ => "9",
    }
}

/// Appends `n` in decimal to `text`.
pub fn append_decimal(text: &mut String, n: u32)
    ensures
        final(text)@ == old(text)@ + decimal(n as nat),
    decreases n,
{
    if n >= 10 {
        append_decimal(text, n / 10);
    }
    text.append(digit_text(n % 10));
}

proof fn lemma_trim_start(s: Seq<char>)
    ensures
        trim_start(s).len() == 0 <==> is_blank(s),
        trim_start(s).len() > 0 ==> !is_white_space(trim_start(s).first()),
        exists|n: int| 0 <= n <= s.len() && is_blank(s.take(n)) && trim_start(s) == #[trigger] s.skip(n),
    decreases s.len(),
{
    if s.len() > 0 && is_white_space(s.first()) {
        let rest = s.drop_first();
        lemma_trim_start(rest);
        let n = choose|n: int|
            0 <= n <= rest.len() && is_blank(rest.take(n)) && trim_start(rest) == #[trigger] rest.skip(n);
        assert(rest.skip(n) =~= s.skip(n + 1));
        assert forall|i: int| 0 <= i < n + 1 implies is_white_space(#[trigger] s.take(n + 1)[i]) by {
            if i > 0 {
                assert(rest.take(n)[i - 1] == s[i]);
            }
        }
        assert(is_blank(rest) ==> is_blank(s)) by {
            if is_blank(rest) {
                assert forall|i: int| 0 <= i < s.len() implies is_white_space(#[trigger] s[i]) by {
                    if i > 0 {
                        assert(rest[i - 1] == s[i]);
                    }
                }
            }
        }
        assert(is_blank(s) ==> is_blank(rest)) by {
            if is_blank(s) {
                assert forall|i: int| 0 <= i < rest.len() implies is_white_space(
                    #[trigger] rest[i],
                ) by {
                    assert(rest[i] == s[i + 1]);
                }
            }
        }
    } else {
        assert(s.skip(0) =~= s);
        assert(is_blank(s.take(0)));
        if s.len() > 0 {
            assert(!is_white_space(s[0]));
        }
    }
}

proof fn lemma_trim_end(s: Seq<char>)
    ensures
        trim_end(s).len() > 0 ==> !is_white_space(trim_end(s).last()),
        trim_end(s).len() > 0 ==> trim_end(s).first() == s.first(),
        s.len() > 0 && !is_white_space(s.first()) ==> trim_end(s).len() > 0,
        exists|n: int| 0 <= n <= s.len() && is_blank(s.skip(n)) && trim_end(s) == #[trigger] s.take(n),
    decreases s.len(),
{
    if s.len() > 0 && is_white_space(s.last()) {
        let rest = s.drop_last();
        lemma_trim_end(rest);
        let n = choose|n: int|
            0 <= n <= rest.len() && is_blank(rest.skip(n)) && trim_end(rest) == #[trigger] rest.take(n);
        assert(rest.take(n) =~= s.take(n));
        assert forall|i: int| 0 <= i < s.len() - n implies is_white_space(#[trigger] s.skip(n)[i]) by {
            if i < rest.len() - n {
                assert(rest.skip(n)[i] == s[n + i]);
            }
        }
    } else {
        assert(s.take(s.len() as int) =~= s);
        assert(is_blank(s.skip(s.len() as int)));
    }
}

/// White space is made of these characters, by their numbers, and no others.
pub proof fn law_white_space(c: char)
    ensures
        is_white_space(c) <==> (0x9 <= c as u32 <= 0xd || c as u32 == 0x20 || c as u32 == 0x85
            || c as u32 == 0xa0 || c as u32 == 0x1680 || 0x2000 <= c as u32 <= 0x200a || c as u32
            == 0x2028 || c as u32 == 0x2029 || c as u32 == 0x202f || c as u32 == 0x205f || c as u32
            == 0x3000),
{
}

/// A text is blank unless one of its characters, at any place, is no white space.
pub proof fn law_blank(s: Seq<char>)
    ensures
        is_blank(s) <==> !(exists|i: int| 0 <= i < s.len() && !is_white_space(#[trigger] s[i])),
{
}

/// Trimming takes white space from the two ends and nothing else; it leaves nothing exactly
/// when there was nothing but white space, and what it leaves neither begins nor ends with
/// white space.
pub proof fn law_trimmed(s: Seq<char>)
    ensures
        exists|from: int, to: int|
            {
                &&& 0 <= from <= to <= s.len()
                &&& trimmed(s) == #[trigger] s.subrange(from, to)
                &&& forall|i: int| 0 <= i < from ==> is_white_space(#[trigger] s[i])
                &&& forall|i: int| to <= i < s.len() ==> is_white_space(#[trigger] s[i])
            },
        trimmed(s).len() == 0 <==> (forall|i: int|
            0 <= i < s.len() ==> is_white_space(#[trigger] s[i])),
        trimmed(s).len() == 0 <==> is_blank(s),
        trimmed(s).len() > 0 ==> !is_white_space(trimmed(s).first()) && !is_white_space(
            trimmed(s).last(),
        ),
{
    lemma_trim_start(s);
    let inner = trim_start(s);
    lemma_trim_end(inner);
    let from = choose|n: int|
        0 <= n <= s.len() && is_blank(s.take(n)) && inner == #[trigger] s.skip(n);
    let kept = choose|n: int|
        0 <= n <= inner.len() && is_blank(inner.skip(n)) && trim_end(inner) == #[trigger] inner.take(
            n,
        );
    let to = from + kept;
    assert(trimmed(s) =~= s.subrange(from, to));
    assert forall|i: int| 0 <= i < from implies is_white_space(#[trigger] s[i]) by {
        assert(s.take(from)[i] == s[i]);
    }
    assert forall|i: int| to <= i < s.len() implies is_white_space(#[trigger] s[i]) by {
        assert(inner.skip(kept)[i - to] == s[i]);
    }
}

/// What is left of a text after trimming does not depend on the white space around it.
pub proof fn law_trimmed_surroundings(before: Seq<char>, s: Seq<char>, after: Seq<char>)
    requires
        forall|i: int| 0 <= i < before.len() ==> is_white_space(#[trigger] before[i]),
        forall|i: int| 0 <= i < after.len() ==> is_white_space(#[trigger] after[i]),
        s.len() > 0,
        !is_white_space(s.first()),
        !is_white_space(s.last()),
    ensures
        trimmed(before + s + after) == s,
{
    let all = before + s + after;
    law_trimmed(all);
    let (from, to) = choose|from: int, to: int|
        {
            &&& 0 <= from <= to <= all.len()
            &&& trimmed(all) == #[trigger] all.subrange(from, to)
            &&& forall|i: int| 0 <= i < from ==> is_white_space(#[trigger] all[i])
            &&& forall|i: int| to <= i < all.len() ==> is_white_space(#[trigger] all[i])
        };
    assert(all[before.len() as int] == s.first());
    assert(all[before.len() + s.len() - 1] == s.last());
    if from < before.len() {
        assert(all[from] == before[from]);
        assert(trimmed(all).first() == all[from]);
    }
    if to > before.len() + s.len() {
        assert(all[to - 1] == after[to - 1 - before.len() - s.len()]);
        assert(trimmed(all).last() == all[to - 1]);
    }
    assert(all.subrange(from, to) =~= s);
}

/// Optional parts are seen as they are: what is there with all its characters, what is not there
/// as nothing.
pub proof fn law_optional_parts(text: &str, owned: String, path: &Path, owned_path: Box<Path>)
    ensures
        optional_text(Some(text)) == Some(text@),
        optional_text(None) is None,
        optional_string(Some(owned)) == Some(owned@),
        optional_string(None) is None,
        optional_path(Some(path)) == Some(path_text(path)),
        optional_path(None) is None,
        optional_boxed_path(Some(owned_path)) == Some(path_text(&owned_path)),
        optional_boxed_path(None) is None,
{
}

/// A number in decimal is made of digits alone, has no leading zero, and read from left to right
/// gives the number back.
pub proof fn law_decimal(n: nat)
    ensures
        decimal(n).len() > 0,
        forall|i: int| 0 <= i < decimal(n).len() ==> 48 <= #[trigger] decimal(n)[i] as u32 <= 57,
        decimal(n).len() > 1 ==> decimal(n)[0] as u32 != 48,
        decimal(n).fold_left(0int, |value: int, c: char| 10 * value + (c as u32 - 48)) == n,
    decreases n,
{
    let read = |value: int, c: char| 10 * value + (c as u32 - 48);
    reveal_with_fuel(Seq::fold_left, 2);
    if n >= 10 {
        law_decimal(n / 10);
        assert(decimal(n).drop_last() =~= decimal(n / 10));
        assert(decimal(n).last() == digit(n % 10));
        assert(decimal(n)[0] == decimal(n / 10)[0]);
        if decimal(n / 10).len() == 1 {
            assert(decimal(n / 10).drop_last() =~= Seq::empty());
            assert(decimal(n / 10).last() == decimal(n / 10)[0]);
            assert(n / 10 > 0);
        }
        assert(decimal(n).fold_left(0int, read) == read(
            decimal(n / 10).fold_left(0int, read),
            digit(n % 10),
        ));
    } else {
        assert(decimal(n).drop_last() =~= Seq::empty());
        assert(decimal(n).last() == digit(n));
    }
}

/// Trimming a second time changes nothing.
pub proof fn law_trimmed_twice(s: Seq<char>)
    ensures
        trimmed(trimmed(s)) == trimmed(s),
{
    law_trimmed(s);
}

} // verus!
