//! Small verified helpers on strings, stated over their `Seq<char>` views.

use vstd::prelude::*;
use vstd::string::*;

verus! {

/// Whether `c` carries the Unicode `White_Space` property.
pub open spec fn is_white_space(c: char) -> bool {
    let n = c as u32;
    ||| 0x09 <= n <= 0x0D
    ||| n == 0x20
    ||| n == 0x85
    ||| n == 0xA0
    ||| n == 0x1680
    ||| 0x2000 <= n <= 0x200A
    ||| n == 0x2028
    ||| n == 0x2029
    ||| n == 0x202F
    ||| n == 0x205F
    ||| n == 0x3000
}

/// `s` without its leading white space.
pub open spec fn skip_leading(s: Seq<char>) -> Seq<char>
    decreases s.len(),
{
    if s.len() > 0 && is_white_space(s.first()) {
        skip_leading(s.drop_first())
    } else {
        s
    }
}

/// `s` without its trailing white space.
pub open spec fn skip_trailing(s: Seq<char>) -> Seq<char>
    decreases s.len(),
{
    if s.len() > 0 && is_white_space(s.last()) {
        skip_trailing(s.drop_last())
    } else {
        s
    }
}

/// `s` without leading and trailing white space.
pub open spec fn trimmed(s: Seq<char>) -> Seq<char> {
    skip_trailing(skip_leading(s))
}

/// The parts of `parts`, in order, with `sep` between neighbours.
pub open spec fn joined(parts: Seq<Seq<char>>, sep: Seq<char>) -> Seq<char>
    decreases parts.len(),
{
    if parts.len() == 0 {
        Seq::empty()
    } else if parts.len() == 1 {
        parts[0]
    } else {
        joined(parts.drop_last(), sep) + sep + parts.last()
    }
}

/// The texts of the strings of `v`, in order.
pub open spec fn views(v: Seq<String>) -> Seq<Seq<char>> {
    Seq::new(v.len(), |i: int| v[i]@)
}

/// The text of an optional string.
pub open spec fn text_of(s: Option<String>) -> Option<Seq<char>> {
    match s {
        Some(s) => Some(s@),
        None => None,
    }
}

/// The texts of a list of pairs of strings.
pub open spec fn pair_views(pairs: Seq<(String, String)>) -> Seq<(Seq<char>, Seq<char>)> {
    Seq::new(pairs.len(), |i: int| (pairs[i].0@, pairs[i].1@))
}

/// What `str::to_uppercase` gives for a text.
pub uninterp spec fn uppercase_of(s: Seq<char>) -> Seq<char>;

/// What `str::to_lowercase` gives for a text.
pub uninterp spec fn lowercase_of(s: Seq<char>) -> Seq<char>;

/// What `char::to_uppercase` yields for a character, as a text.
pub uninterp spec fn char_uppercase_of(c: char) -> Seq<char>;

/// Calls `str::to_uppercase`, the upper-case equivalent of the text by
/// Unicode's mapping. The result depends on the text alone and is named
/// `uppercase_of`.
#[verifier::external_body]
pub(crate) fn to_uppercase(s: &str) -> (out: String)
    ensures
        out@ == uppercase_of(s@),
{
    s.to_uppercase()
}

/// Calls `str::to_lowercase`, the lower-case equivalent of the text by
/// Unicode's mapping. The result depends on the text alone and is named
/// `lowercase_of`.
#[verifier::external_body]
pub(crate) fn to_lowercase(s: &str) -> (out: String)
    ensures
        out@ == lowercase_of(s@),
{
    s.to_lowercase()
}

/// Calls `char::to_uppercase` and collects the characters it yields, one
/// or more. The result depends on the character alone and is named
/// `char_uppercase_of`.
#[verifier::external_body]
pub(crate) fn char_to_uppercase(c: char) -> (out: String)
    ensures
        out@ == char_uppercase_of(c),
{
    c.to_uppercase().collect()
}

pub fn char_is_white_space(c: char) -> (b: bool)
    ensures
        b == is_white_space(c),
{
    let n: u32 = c as u32;
    (0x09 <= n && n <= 0x0D) || n == 0x20 || n == 0x85 || n == 0xA0 || n == 0x1680 || (0x2000 <= n
        && n <= 0x200A) || n == 0x2028 || n == 0x2029 || n == 0x202F || n == 0x205F || n == 0x3000
}

/// Equality of two string slices, character by character.
pub fn str_eq(a: &str, b: &str) -> (same: bool)
    ensures
        same == (a@ == b@),
{
    String::from_str(a) == String::from_str(b)
}

/// `a` followed by `b`.
pub fn glue(a: &str, b: &str) -> (out: String)
    ensures
        out@ == a@ + b@,
{
    let mut out = String::from_str(a);
    out.append(b);
    out
}

/// `a`, then `b`, then `c`.
pub fn glue3(a: &str, b: &str, c: &str) -> (out: String)
    ensures
        out@ == a@ + b@ + c@,
{
    let mut out = String::from_str(a);
    out.append(b);
    out.append(c);
    out
}

proof fn lemma_skip_leading_step(s: Seq<char>, i: int)
    requires
        0 <= i < s.len(),
        is_white_space(s[i]),
    ensures
        skip_leading(s.subrange(i, s.len() as int)) == skip_leading(
            s.subrange(i + 1, s.len() as int),
        ),
{
    let t = s.subrange(i, s.len() as int);
    assert(t.first() == s[i]);
    assert(t.drop_first() =~= s.subrange(i + 1, s.len() as int));
}

proof fn lemma_skip_trailing_step(s: Seq<char>, lo: int, hi: int)
    requires
        0 <= lo < hi <= s.len(),
        is_white_space(s[hi - 1]),
    ensures
        skip_trailing(s.subrange(lo, hi)) == skip_trailing(s.subrange(lo, hi - 1)),
{
    let t = s.subrange(lo, hi);
    assert(t.last() == s[hi - 1]);
    assert(t.drop_last() =~= s.subrange(lo, hi - 1));
}

/// The characters of `s`.
pub fn chars_of(s: &str) -> (chars: Vec<char>)
    ensures
        chars@ == s@,
{
    let mut chars: Vec<char> = Vec::new();
    for c in it: s.chars()
        invariant
            it.seq() == s@,
            chars@ == s@.subrange(0, it.index() as int),
    {
        chars.push(c);
    }
    assert(chars@ =~= s@);
    chars
}

/// How many characters of `chars` remain once trailing white space is cut.
fn trailing_cut(chars: &Vec<char>, lo: usize) -> (hi: usize)
    requires
        lo <= chars.len(),
    ensures
        lo <= hi <= chars.len(),
        skip_trailing(chars@.subrange(lo as int, chars.len() as int)) == chars@.subrange(
            lo as int,
            hi as int,
        ),
{
    let n = chars.len();
    let mut hi: usize = n;
    while hi > lo && char_is_white_space(chars[hi - 1])
        invariant
            n == chars.len(),
            lo <= hi <= n,
            skip_trailing(chars@.subrange(lo as int, n as int)) == skip_trailing(
                chars@.subrange(lo as int, hi as int),
            ),
        decreases hi - lo,
    {
        proof {
            lemma_skip_trailing_step(chars@, lo as int, hi as int);
        }
        hi -= 1;
    }
    assert(skip_trailing(chars@.subrange(lo as int, hi as int)) == chars@.subrange(
        lo as int,
        hi as int,
    )) by {
        let t = chars@.subrange(lo as int, hi as int);
        if hi > lo {
            assert(t.last() == chars@[hi - 1]);
        }
    }
    hi
}

/// Removes leading and trailing white space.
pub fn trim(s: &str) -> (out: String)
    ensures
        out@ == trimmed(s@),
{
    let chars = chars_of(s);
    let n = chars.len();
    let mut lo: usize = 0;
    assert(s@.subrange(0, n as int) =~= s@);
    while lo < n && char_is_white_space(chars[lo])
        invariant
            chars@ == s@,
            n == s@.len(),
            lo <= n,
            skip_leading(s@) == skip_leading(s@.subrange(lo as int, n as int)),
        decreases n - lo,
    {
        proof {
            lemma_skip_leading_step(s@, lo as int);
        }
        lo += 1;
    }
    assert(skip_leading(s@) == s@.subrange(lo as int, n as int)) by {
        let t = s@.subrange(lo as int, n as int);
        if lo < n {
            assert(t.first() == s@[lo as int]);
        }
    }
    let hi = trailing_cut(&chars, lo);
    String::from_str(s.substring_char(lo, hi))
}

/// Removes trailing white space.
pub fn trim_end(s: &str) -> (out: String)
    ensures
        out@ == skip_trailing(s@),
{
    let chars = chars_of(s);
    assert(s@.subrange(0, s@.len() as int) =~= s@);
    let hi = trailing_cut(&chars, 0);
    String::from_str(s.substring_char(0, hi))
}

/// The character of a decimal digit.
pub open spec fn digit_char(d: int) -> char {
    if d == 0 {
        '0'
    } else if d == 1 {
        '1'
    } else if d == 2 {
        '2'
    } else if d == 3 {
        '3'
    } else if d == 4 {
        '4'
    } else if d == 5 {
        '5'
    } else if d == 6 {
        '6'
    } else if d == 7 {
        '7'
    } else if d == 8 {
        '8'
    } else {
        '9'
    }
}

/// A number in decimal notation, without leading zeros.
pub open spec fn decimal(n: nat) -> Seq<char>
    decreases n,
{
    if n < 10 {
        seq![digit_char(n as int)]
    } else {
        decimal(n / 10).push(digit_char((n % 10) as int))
    }
}

pub(crate) fn digit_str(d: u64) -> (s: &'static str)
    requires
        d < 10,
    ensures
        s@ == seq![digit_char(d as int)],
{
    proof {
        reveal_strlit("0");
        reveal_strlit("1");
        reveal_strlit("2");
        reveal_strlit("3");
        reveal_strlit("4");
        reveal_strlit("5");
        reveal_strlit("6");
        reveal_strlit("7");
        reveal_strlit("8");
        reveal_strlit("9");
    }
    let s = if d == 0 {
        "0"
    } else if d == 1 {
        "1"
    } else if d == 2 {
        "2"
    } else if d == 3 {
        "3"
    } else if d == 4 {
        "4"
    } else if d == 5 {
        "5"
    } else if d == 6 {
        "6"
    } else if d == 7 {
        "7"
    } else if d == 8 {
        "8"
    } else {
        "9"
    };
    assert(s@ =~= seq![digit_char(d as int)]);
    s
}

/// Writes a number in decimal notation.
pub fn decimal_string(n: u64) -> (out: String)
    ensures
        out@ == decimal(n as nat),
    decreases n,
{
    if n < 10 {
        String::from_str(digit_str(n))
    } else {
        let mut out = decimal_string(n / 10);
        out.append(digit_str(n % 10));
        assert(out@ =~= decimal((n / 10) as nat).push(digit_char((n % 10) as int)));
        out
    }
}

/// Joins `parts` with `sep` between neighbours.
pub fn join(parts: &Vec<String>, sep: &str) -> (out: String)
    ensures
        out@ == joined(views(parts@), sep@),
{
    let mut out = String::new();
    let mut i: usize = 0;
    while i < parts.len()
        invariant
            i <= parts.len(),
            out@ == joined(views(parts@).subrange(0, i as int), sep@),
        decreases parts.len() - i,
    {
        proof {
            let all = views(parts@);
            let next = all.subrange(0, i + 1);
            assert(next.drop_last() =~= all.subrange(0, i as int));
            assert(next.last() == parts@[i as int]@);
            if i > 0 {
                assert(all.subrange(0, i as int).len() > 0);
            } else {
                assert(joined(all.subrange(0, 0), sep@) =~= Seq::<char>::empty());
                assert(Seq::<char>::empty() + parts@[0]@ =~= parts@[0]@);
            }
        }
        if i > 0 {
            out.append(sep);
        }
        out.append(parts[i].as_str());
        i += 1;
    }
    assert(views(parts@).subrange(0, parts.len() as int) =~= views(parts@));
    out
}

} // verus!
