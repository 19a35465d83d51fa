//! Text helpers over sequences of characters: comparison, prefixes,
//! trimming, decimal numbers, and the few calls into `std` that have no
//! specification of their own.

use std::str::Chars;
use vstd::prelude::*;
use vstd::std_specs::iter::IteratorSpec;
use vstd::string::StringSliceAdditionalSpecFns;
use vstd::utf8::valid_utf8;

verus! {

/// Whether `s` opens with `p`.
pub open spec fn has_prefix(s: Seq<char>, p: Seq<char>) -> bool {
    p.len() <= s.len() && s.subrange(0, p.len() as int) == p
}

/// Whether `s` ends with `p`.
pub open spec fn has_suffix(s: Seq<char>, p: Seq<char>) -> bool {
    p.len() <= s.len() && s.subrange(s.len() - p.len(), s.len() as int) == p
}

/// The characters with the Unicode property White_Space.
pub open spec fn is_whitespace(c: char) -> bool {
    let n = c as u32;
    ||| 0x09 <= n <= 0x0D
    ||| n == 0x20
    ||| n == 0x85
    ||| n == 0xA0
    ||| n == 0x1680
    ||| 0x2000 <= n <= 0x200A
    ||| n == 0x2028
    ||| n == 0x2029
    ||| n == 0x202F
    ||| n == 0x205F
    ||| n == 0x3000
}

/// Index of the first character at or behind `i` that is no whitespace, or
/// the length of `s` where there is none.
pub open spec fn skip_whitespace(s: Seq<char>, i: int) -> int
    decreases s.len() - i,
{
    if 0 <= i < s.len() && is_whitespace(s[i]) {
        skip_whitespace(s, i + 1)
    } else {
        i
    }
}

/// Index behind the last character before `j` that is no whitespace, not
/// going below `lo`.
pub open spec fn skip_whitespace_back(s: Seq<char>, j: int, lo: int) -> int
    decreases j,
{
    if lo < j <= s.len() && j > 0 && is_whitespace(s[j - 1]) {
        skip_whitespace_back(s, j - 1, lo)
    } else {
        j
    }
}

/// `s` without the whitespace at its start and at its end.
pub open spec fn trimmed(s: Seq<char>) -> Seq<char> {
    let start = skip_whitespace(s, 0);
    s.subrange(start, skip_whitespace_back(s, s.len() as int, start))
}

/// Whether `s` holds nothing but whitespace.
pub open spec fn is_blank(s: Seq<char>) -> bool {
    skip_whitespace(s, 0) >= s.len()
}

/// The decimal digit for `d`.
pub open spec fn digit_char(d: nat) -> char {
    (0x30 + d) as char
}

/// `n` written in decimal, without leading zeros.
pub open spec fn decimal(n: nat) -> Seq<char>
    decreases n,
{
    if n < 10 {
        seq![digit_char(n)]
    } else {
        decimal(n / 10).push(digit_char(n % 10))
    }
}

/// The parts written one behind the other, with `sep` between each two.
pub open spec fn join(parts: Seq<Seq<char>>, sep: Seq<char>) -> Seq<char>
    decreases parts.len(),
{
    if parts.len() == 0 {
        Seq::empty()
    } else if parts.len() == 1 {
        parts[0]
    } else {
        join(parts.drop_last(), sep) + sep + parts.last()
    }
}

/// Whether `name` is one word of a path: it holds no separator of either
/// kind and no colon.
pub open spec fn is_plain_name(name: Seq<char>) -> bool {
    forall|i: int|
        0 <= i < name.len() ==> #[trigger] name[i] != '/' && name[i] != '\\' && name[i] != ':'
}

/// Index of the last dot among the first `upto` characters, or -1.
pub open spec fn last_dot(name: Seq<char>, upto: int) -> int
    decreases upto,
{
    if upto <= 0 {
        -1
    } else if name[upto - 1] == '.' {
        upto - 1
    } else {
        last_dot(name, upto - 1)
    }
}

/// The extension of a name of one word: what stands behind its last dot.
/// None where the name holds no dot, where its only dot opens it, and for
/// the name `..`.
pub open spec fn plain_extension(name: Seq<char>) -> Option<Seq<char>> {
    let dot = last_dot(name, name.len() as int);
    if dot <= 0 || name == seq!['.', '.'] {
        None
    } else {
        Some(name.subrange(dot + 1, name.len() as int))
    }
}

/// Whether `ext` holds no dot.
pub open spec fn holds_no_dot(ext: Seq<char>) -> bool {
    forall|i: int| 0 <= i < ext.len() ==> #[trigger] ext[i] != '.'
}

/// Whether `ext` stands in `name` right behind a dot that is not the first
/// character of the name.
pub open spec fn stands_behind_dot(name: Seq<char>, ext: Seq<char>) -> bool {
    exists|dot: int|
        0 < dot && dot + 1 + ext.len() <= name.len() && #[trigger] name[dot] == '.'
            && name.subrange(dot + 1, dot + 1 + ext.len()) == ext
}

/// Whether `ext` can be the extension of `name`. Of a name of one word it
/// is the extension; of any name it holds no dot and stands behind one.
pub open spec fn is_extension_of(name: Seq<char>, ext: Option<Seq<char>>) -> bool {
    &&& is_plain_name(name) ==> ext == plain_extension(name)
    &&& ext matches Some(e) ==> holds_no_dot(e) && stands_behind_dot(name, e)
}

/// Whether `ext` can be the extension of a file name that may be missing:
/// none without a name.
pub open spec fn fits_filename(filename: Option<Seq<char>>, ext: Option<Seq<char>>) -> bool {
    match filename {
        Some(name) => is_extension_of(name, ext),
        None => ext.is_none(),
    }
}

/// The characters of a text that may be missing.
pub open spec fn text_of(text: Option<String>) -> Option<Seq<char>> {
    match text {
        Some(t) => Some(t@),
        None => None,
    }
}

/// The characters of a text that may be missing.
pub open spec fn str_of(text: Option<&str>) -> Option<Seq<char>> {
    match text {
        Some(t) => Some(t@),
        None => None,
    }
}

/// An extension in lower case, where there is one.
pub open spec fn lowered(ext: Option<Seq<char>>) -> Option<Seq<char>> {
    match ext {
        Some(e) => Some(lowercased(e)),
        None => None,
    }
}

/// What `str::to_lowercase` makes of a text.
pub uninterp spec fn lowercased(s: Seq<char>) -> Seq<char>;

/// The characters of `s`, one by one.
pub fn to_chars(s: &str) -> (r: Vec<char>)
    ensures
        r@ == s@,
{
    let mut out: Vec<char> = Vec::new();
    let chars: Chars = s.chars();
    for c in it: chars
        invariant
            out@ == it.seq().take(it.index() as int),
            it.seq() == s@,
    {
        out.push(c);
    }
    out
}

/// Tells whether two texts are the same.
pub fn str_eq(a: &str, b: &str) -> (r: bool)
    ensures
        r == (a@ == b@),
{
    a.to_owned() == b.to_owned()
}

/// Tells whether `s` opens with `prefix`.
pub fn starts_with(s: &str, prefix: &str) -> (r: bool)
    ensures
        r == has_prefix(s@, prefix@),
{
    let text = to_chars(s);
    let head = to_chars(prefix);
    if head.len() > text.len() {
        return false;
    }
    let mut i: usize = 0;
    while i < head.len()
        invariant
            i <= head@.len() <= text@.len(),
            text@ == s@,
            head@ == prefix@,
            forall|k: int| 0 <= k < i ==> text@[k] == head@[k],
        decreases head@.len() - i,
    {
        if text[i] != head[i] {
            proof {
                assert(text@.subrange(0, head@.len() as int)[i as int] == text@[i as int]);
            }
            return false;
        }
        i += 1;
    }
    assert(text@.subrange(0, head@.len() as int) =~= head@);
    true
}

/// Tells whether `c` is whitespace.
pub fn char_is_whitespace(c: char) -> (r: bool)
    ensures
        r == is_whitespace(c),
{
    let n: u32 = c as u32;
    (0x09 <= n && n <= 0x0D) || n == 0x20 || n == 0x85 || n == 0xA0 || n == 0x1680 || (0x2000 <= n
        && n <= 0x200A) || n == 0x2028 || n == 0x2029 || n == 0x202F || n == 0x205F || n == 0x3000
}

/// Returns `s` without the whitespace at its start and at its end.
pub fn trim(s: &str) -> (r: String)
    ensures
        r@ == trimmed(s@),
{
    let text = to_chars(s);
    let len = text.len();
    let mut start: usize = 0;
    while start < len && char_is_whitespace(text[start])
        invariant
            start <= len,
            len == text@.len(),
            skip_whitespace(text@, 0) == skip_whitespace(text@, start as int),
        decreases len - start,
    {
        start += 1;
    }
    let mut end: usize = len;
    while end > start && char_is_whitespace(text[end - 1])
        invariant
            start <= end <= len,
            len == text@.len(),
            skip_whitespace_back(text@, len as int, start as int) == skip_whitespace_back(
                text@,
                end as int,
                start as int,
            ),
        decreases end,
    {
        end -= 1;
    }
    String::from_str(s.substring_char(start, end))
}

/// Tells whether `s` holds nothing but whitespace.
pub fn is_blank_text(s: &str) -> (r: bool)
    ensures
        r == is_blank(s@),
{
    let text = to_chars(s);
    let len = text.len();
    let mut i: usize = 0;
    while i < len && char_is_whitespace(text[i])
        invariant
            i <= len,
            len == text@.len(),
            skip_whitespace(text@, 0) == skip_whitespace(text@, i as int),
        decreases len - i,
    {
        i += 1;
    }
    i >= len
}

/// The text of one decimal digit.
pub(crate) fn digit_str(d: u64) -> (r: &'static str)
    requires
        d < 10,
    ensures
        r@ == seq![digit_char(d as nat)],
{
    proof {
        reveal_strlit("0");
        reveal_strlit("1");
        reveal_strlit("2");
        reveal_strlit("3");
        reveal_strlit("4");
        reveal_strlit("5");
        reveal_strlit("6");
        reveal_strlit("7");
        reveal_strlit("8");
        reveal_strlit("9");
    }
    let r = if d == 0 {
        "0"
    } else if d == 1 {
        "1"
    } else if d == 2 {
        "2"
    } else if d == 3 {
        "3"
    } else if d == 4 {
        "4"
    } else if d == 5 {
        "5"
    } else if d == 6 {
        "6"
    } else if d == 7 {
        "7"
    } else if d == 8 {
        "8"
    } else {
        "9"
    };
    assert(r@ =~= seq![digit_char(d as nat)]);
    r
}

/// Appends `n`, in decimal, to `out`.
pub fn push_decimal(out: &mut String, n: u64)
    ensures
        final(out)@ == old(out)@ + decimal(n as nat),
    decreases n,
{
    if n >= 10 {
        push_decimal(out, n / 10);
    }
    out.append(digit_str(n % 10));
    assert(out@ =~= old(out)@ + decimal(n as nat));
}

/// Writes `n` in decimal.
pub fn u64_to_string(n: u64) -> (r: String)
    ensures
        r@ == decimal(n as nat),
{
    let mut out = String::new();
    push_decimal(&mut out, n);
    assert(out@ =~= decimal(n as nat));
    out
}

/// Calls `str::to_lowercase`. Not proved: that the result depends on the
/// text alone, which is what the name `lowercased` stands for.
#[verifier::external_body]
pub(crate) fn to_lowercase(s: &str) -> (r: String)
    ensures
        r@ == lowercased(s@),
{
    s.to_lowercase()
}

/// Calls `Path::extension` on `name` taken as a path. Not proved: that an
/// extension holds no dot and stands in the name behind a dot that is not
/// the first character; and that a name of one word, which holds no
/// separator and no colon, has for its extension what stands behind its
/// last dot, unless that dot opens the name or the name is `..`. Nothing
/// more is claimed of a name of several words: which of them is the file
/// name differs between platforms.
#[verifier::external_body]
pub(crate) fn path_extension(name: &str) -> (r: Option<String>)
    ensures
        is_extension_of(name@, text_of(r)),
{
    std::path::Path::new(name).extension().and_then(|e| e.to_str()).map(|e| e.to_string())
}

/// Calls `std::str::from_utf8`. Not proved: that it accepts exactly the
/// byte sequences that are valid UTF-8, and that the text it returns is
/// made of the bytes it was given.
#[verifier::external_body]
pub(crate) fn utf8_text(bytes: &[u8]) -> (r: Option<&str>)
    ensures
        r.is_some() == valid_utf8(bytes@),
        r matches Some(text) ==> text.spec_bytes() == bytes@,
{
    std::str::from_utf8(bytes).ok()
}

} // verus!
