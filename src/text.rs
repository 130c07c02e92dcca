//! Character-level helpers shared by the parsers: whitespace trimming, substring search and
//! decimal rendering, each stated over `Seq<char>`.
use vstd::prelude::*;

verus! {

/// The Unicode `White_Space` characters, the set that `char::is_whitespace` recognises.
pub open spec fn is_white(c: char) -> bool {
    let u = c as u32;
    ||| 0x09 <= u <= 0x0D
    ||| u == 0x20
    ||| u == 0x85
    ||| u == 0xA0
    ||| u == 0x1680
    ||| 0x2000 <= u <= 0x200A
    ||| u == 0x2028
    ||| u == 0x2029
    ||| u == 0x202F
    ||| u == 0x205F
    ||| u == 0x3000
}

/// `s` without its trailing whitespace.
pub open spec fn trim_end_spec(s: Seq<char>) -> Seq<char>
    decreases s.len(),
{
    if s.len() > 0 && is_white(s.last()) {
        trim_end_spec(s.drop_last())
    } else {
        s
    }
}

/// `s` without its leading whitespace.
pub open spec fn trim_start_spec(s: Seq<char>) -> Seq<char>
    decreases s.len(),
{
    if s.len() > 0 && is_white(s[0]) {
        trim_start_spec(s.drop_first())
    } else {
        s
    }
}

/// `s` without whitespace at either end.
pub open spec fn trim_spec(s: Seq<char>) -> Seq<char> {
    trim_start_spec(trim_end_spec(s))
}

/// `pattern` occurs in `text` as a contiguous run.
pub open spec fn has_infix(text: Seq<char>, pattern: Seq<char>) -> bool {
    exists|i: int|
        0 <= i && i + pattern.len() <= text.len() && #[trigger] text.subrange(i, i + pattern.len())
            == pattern
}

pub open spec fn digit_char(d: nat) -> char {
    ((d + 48) as u32) as char
}

/// The decimal notation of `n`, without leading zeros ("0" for zero).
pub open spec fn decimal_spec(n: nat) -> Seq<char>
    decreases n,
{
    if n < 10 {
        seq![digit_char(n)]
    } else {
        decimal_spec(n / 10).push(digit_char(n % 10))
    }
}

pub fn is_white_char(c: char) -> (r: bool)
    ensures
        r == is_white(c),
{
    let u = c as u32;
    (0x09 <= u && u <= 0x0D) || u == 0x20 || u == 0x85 || u == 0xA0 || u == 0x1680 || (0x2000
        <= u && u <= 0x200A) || u == 0x2028 || u == 0x2029 || u == 0x202F || u == 0x205F || u
        == 0x3000
}

/// A copy of `s` without its trailing whitespace.
pub fn trim_end(s: &str) -> (r: String)
    ensures
        r@ == trim_end_spec(s@),
{
    let n = s.unicode_len();
    let mut end: usize = n;
    assert(s@.subrange(0, n as int) =~= s@);
    loop
        invariant
            n == s@.len(),
            end <= n,
            trim_end_spec(s@) == trim_end_spec(s@.subrange(0, end as int)),
        ensures
            end <= n,
            trim_end_spec(s@) == trim_end_spec(s@.subrange(0, end as int)),
            end == 0 || !is_white(s@[end - 1]),
        decreases end,
    {
        if end == 0 {
            break ;
        }
        let c = s.get_char(end - 1);
        if !is_white_char(c) {
            break ;
        }
        assert(s@.subrange(0, end as int).drop_last() =~= s@.subrange(0, end - 1));
        end = end - 1;
    }
    assert(trim_end_spec(s@.subrange(0, end as int)) == s@.subrange(0, end as int));
    String::from_str(s.substring_char(0, end))
}

/// A copy of `s` without whitespace at either end.
pub fn trim(s: &str) -> (r: String)
    ensures
        r@ == trim_spec(s@),
{
    let t = trim_end(s);
    let n = t.as_str().unicode_len();
    let mut start: usize = 0;
    assert(t@.subrange(0, n as int) =~= t@);
    loop
        invariant
            n == t@.len(),
            start <= n,
            trim_start_spec(t@) == trim_start_spec(t@.subrange(start as int, n as int)),
        ensures
            start <= n,
            trim_start_spec(t@) == trim_start_spec(t@.subrange(start as int, n as int)),
            start == n || !is_white(t@[start as int]),
        decreases n - start,
    {
        if start == n {
            break ;
        }
        let c = t.as_str().get_char(start);
        if !is_white_char(c) {
            break ;
        }
        assert(t@.subrange(start as int, n as int).drop_first() =~= t@.subrange(
            start + 1,
            n as int,
        ));
        start = start + 1;
    }
    assert(trim_start_spec(t@.subrange(start as int, n as int)) == t@.subrange(
        start as int,
        n as int,
    ));
    String::from_str(t.as_str().substring_char(start, n))
}

/// The characters of `text`, in order.
pub fn chars_of(text: &str) -> (r: Vec<char>)
    ensures
        r@ == text@,
{
    let mut r: Vec<char> = Vec::new();
    for c in it: text.chars()
        invariant
            it.seq() == text@,
            r@ == it.seq().take(it.index() as int),
    {
        r.push(c);
    }
    r
}

/// Whether `pattern` occurs in `text` starting at `start`.
fn matches_at(text: &Vec<char>, pattern: &Vec<char>, start: usize) -> (r: bool)
    requires
        start + pattern@.len() <= text@.len(),
    ensures
        r == (text@.subrange(start as int, start + pattern@.len()) == pattern@),
{
    let tlen = text.len();
    let mut k: usize = 0;
    while k < pattern.len()
        invariant
            tlen == text@.len(),
            start + pattern@.len() <= text@.len(),
            k <= pattern@.len(),
            forall|m: int| 0 <= m < k ==> text@[start + m] == pattern@[m],
        decreases pattern@.len() - k,
    {
        if text[start + k] != pattern[k] {
            assert(text@.subrange(start as int, start + pattern@.len())[k as int] != pattern@[k as int]);
            return false;
        }
        k = k + 1;
    }
    assert(text@.subrange(start as int, start + pattern@.len()) =~= pattern@);
    true
}

/// Whether `pattern` occurs in `text`.
pub fn contains_text(text: &str, pattern: &str) -> (r: bool)
    ensures
        r == has_infix(text@, pattern@),
{
    let t = chars_of(text);
    let p = chars_of(pattern);
    if p.len() > t.len() {
        return false;
    }
    let last = t.len() - p.len();
    let mut i: usize = 0;
    loop
        invariant
            t@ == text@,
            p@ == pattern@,
            last == t@.len() - p@.len(),
            i <= last,
            forall|j: int| 0 <= j < i ==> #[trigger] t@.subrange(j, j + p@.len()) != p@,
        ensures
            forall|j: int| 0 <= j <= last ==> #[trigger] t@.subrange(j, j + p@.len()) != p@,
        decreases last - i,
    {
        if matches_at(&t, &p, i) {
            return true;
        }
        if i == last {
            break ;
        }
        i = i + 1;
    }
    false
}

/// The decimal notation of `n`.
pub fn decimal(n: u64) -> (r: String)
    ensures
        r@ == decimal_spec(n as nat),
{
    let mut digits: Vec<char> = Vec::new();
    let mut rest: u64 = n;
    // digits are collected least significant first
    while rest >= 10
        invariant
            decimal_spec(n as nat) == decimal_spec(rest as nat) + digits@.reverse(),
        decreases rest,
    {
        let c = char_of_digit(rest % 10);
        proof {
            assert(decimal_spec(rest as nat) == decimal_spec((rest / 10) as nat).push(c));
            assert(decimal_spec((rest / 10) as nat).push(c) + digits@.reverse()
                =~= decimal_spec((rest / 10) as nat) + digits@.push(c).reverse());
        }
        digits.push(c);
        rest = rest / 10;
    }
    let c = char_of_digit(rest);
    assert(seq![c] + digits@.reverse() =~= digits@.push(c).reverse());
    digits.push(c);
    let mut r = String::new();
    let mut i: usize = digits.len();
    while i > 0
        invariant
            i <= digits@.len(),
            r@ == digits@.reverse().subrange(0, digits@.len() - i),
        decreases i,
    {
        i = i - 1;
        let c = digits[i];
        push_char(&mut r, c);
        assert(r@ =~= digits@.reverse().subrange(0, digits@.len() - i));
    }
    assert(r@ =~= digits@.reverse());
    r
}

fn char_of_digit(d: u64) -> (c: char)
    requires
        d < 10,
    ensures
        c == digit_char(d as nat),
{
    let u: u8 = 48 + (d as u8);
    u as char
}

/// Relies on `String::push`: appends one character.
#[verifier::external_body]
pub(crate) fn push_char(s: &mut String, c: char)
    ensures
        final(s)@ == old(s)@.push(c),
{
    s.push(c);
}

} // verus!
