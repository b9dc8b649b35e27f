//! Building strings: characters and decimal numbers.
use vstd::prelude::*;
use vstd::string::*;

verus! {

/// `String::push`: appends one character.
#[verifier::external_body]
pub(crate) fn push_char(s: &mut String, c: char)
    ensures
        final(s)@ == old(s)@.push(c),
{
    s.push(c);
}

/// The character of the decimal digit `d`.
pub open spec fn digit_char(d: int) -> char {
    (48 + d) as char
}

/// The decimal digits of `n`, most significant first, without leading zeros.
pub open spec fn spec_decimal(n: nat) -> Seq<char>
    decreases n,
{
    if n < 10 {
        seq![digit_char(n as int)]
    } else {
        spec_decimal(n / 10).push(digit_char((n % 10) as int))
    }
}

/// The decimal text of a signed number.
pub open spec fn spec_signed_decimal(v: int) -> Seq<char> {
    if v < 0 {
        seq!['-'] + spec_decimal((-v) as nat)
    } else {
        spec_decimal(v as nat)
    }
}

fn digit(d: u64) -> (c: char)
    requires
        d < 10,
    ensures
        c == digit_char(d as int),
{
    let b: u8 = 48 + (d as u8);
    b as char
}

/// Appends the decimal digits of `n`.
pub fn push_decimal(s: &mut String, n: u64)
    ensures
        final(s)@ == old(s)@ + spec_decimal(n as nat),
    decreases n,
{
    if n >= 10 {
        push_decimal(s, n / 10);
    }
    push_char(s, digit(n % 10));
    assert(s@ =~= old(s)@ + spec_decimal(n as nat));
}

/// Appends the decimal text of `v`, with a minus sign when negative.
pub fn push_signed_decimal(s: &mut String, v: i64)
    ensures
        final(s)@ == old(s)@ + spec_signed_decimal(v as int),
{
    if v < 0 {
        push_char(s, '-');
        let magnitude: u64 = if v == i64::MIN {
            0x8000_0000_0000_0000
        } else {
            (-v) as u64
        };
        push_decimal(s, magnitude);
        assert(s@ =~= old(s)@ + spec_signed_decimal(v as int));
    } else {
        push_decimal(s, v as u64);
    }
}

/// The decimal text of `n`.
pub fn decimal_string(n: u64) -> (s: String)
    ensures
        s@ == spec_decimal(n as nat),
{
    let mut s = String::new();
    push_decimal(&mut s, n);
    assert(s@ =~= spec_decimal(n as nat));
    s
}

/// The decimal text of `v`, with a minus sign when negative.
pub fn signed_decimal_string(v: i64) -> (s: String)
    ensures
        s@ == spec_signed_decimal(v as int),
{
    let mut s = String::new();
    push_signed_decimal(&mut s, v);
    assert(s@ =~= spec_signed_decimal(v as int));
    s
}

/// The index of the first `c` in `s` at or after `i`.
pub open spec fn first_index_of(s: Seq<char>, c: char, i: nat) -> Option<nat>
    decreases s.len() - i,
{
    if i >= s.len() {
        None
    } else if s[i as int] == c {
        Some(i)
    } else {
        first_index_of(s, c, i + 1)
    }
}

pub proof fn lemma_first_index_of(s: Seq<char>, c: char, i: nat)
    ensures
        first_index_of(s, c, i) matches Some(k) ==> i <= k < s.len() && s[k as int] == c,
    decreases s.len() - i,
{
    if i < s.len() && s[i as int] != c {
        lemma_first_index_of(s, c, i + 1);
    }
}

/// Finds the first `c` in `text`.
pub fn find_char(text: &str, c: char) -> (res: Option<usize>)
    ensures
        res matches Some(k) ==> first_index_of(text@, c, 0) == Some(k as nat),
        res is None ==> first_index_of(text@, c, 0) is None,
{
    let n = text.unicode_len();
    let mut i: usize = 0;
    while i < n
        invariant
            n == text@.len(),
            i <= n,
            first_index_of(text@, c, 0) == first_index_of(text@, c, i as nat),
        decreases n - i,
    {
        if text.get_char(i) == c {
            return Some(i);
        }
        i = i + 1;
    }
    None
}

/// The index of the last `c` in the first `end` characters of `s`.
pub open spec fn last_index_of(s: Seq<char>, c: char, end: nat) -> Option<nat>
    decreases end,
{
    if end == 0 {
        None
    } else if s[end - 1] == c {
        Some((end - 1) as nat)
    } else {
        last_index_of(s, c, (end - 1) as nat)
    }
}

pub proof fn lemma_last_index_of(s: Seq<char>, c: char, end: nat)
    requires
        end <= s.len(),
    ensures
        last_index_of(s, c, end) matches Some(k) ==> k < end && s[k as int] == c,
    decreases end,
{
    if end > 0 && s[end - 1] != c {
        lemma_last_index_of(s, c, (end - 1) as nat);
    }
}

/// Finds the last `c` in `text`.
pub fn find_last_char(text: &str, c: char) -> (res: Option<usize>)
    ensures
        match last_index_of(text@, c, text@.len()) {
            Some(k) => res == Some(k as usize),
            None => res is None,
        },
{
    let mut end = text.unicode_len();
    while end > 0
        invariant
            end <= text@.len(),
            last_index_of(text@, c, text@.len()) == last_index_of(text@, c, end as nat),
        decreases end,
    {
        if text.get_char(end - 1) == c {
            return Some(end - 1);
        }
        end = end - 1;
    }
    None
}

/// Past a stretch without `c`, the search for `c` goes on where the stretch
/// ends.
pub proof fn lemma_first_index_past(s: Seq<char>, c: char, i: nat, j: nat)
    requires
        i <= j <= s.len(),
        forall|k: int| i <= k < j ==> s[k] != c,
    ensures
        first_index_of(s, c, i) == first_index_of(s, c, j),
    decreases j - i,
{
    if i < j {
        lemma_first_index_past(s, c, i + 1, j);
    }
}

/// Where the search finds no `c`, there is none from its start on.
pub proof fn lemma_first_index_absent(s: Seq<char>, c: char, i: nat, k: int)
    requires
        first_index_of(s, c, i) is None,
        i <= k < s.len(),
    ensures
        s[k] != c,
    decreases k - i,
{
    if i < k {
        lemma_first_index_absent(s, c, i + 1, k);
    }
}

/// Searching backwards past a stretch without `c` goes on where the stretch
/// begins.
pub proof fn lemma_last_index_past(s: Seq<char>, c: char, end: nat, stop: nat)
    requires
        stop <= end <= s.len(),
        forall|k: int| stop <= k < end ==> s[k] != c,
    ensures
        last_index_of(s, c, end) == last_index_of(s, c, stop),
    decreases end - stop,
{
    if stop < end {
        lemma_last_index_past(s, c, (end - 1) as nat, stop);
    }
}

/// The decimal digits of `n`: each is an ASCII digit, and none is a sign,
/// a colon or a bracket.
pub proof fn lemma_decimal_chars(n: nat)
    ensures
        spec_decimal(n).len() > 0,
        forall|i: int| 0 <= i < spec_decimal(n).len() ==> 48 <= (#[trigger] spec_decimal(n)[i]) as u32 <= 57,
    decreases n,
{
    if n >= 10 {
        lemma_decimal_chars(n / 10);
    }
}
/// A character with the Unicode `White_Space` property, what `str::trim`
/// removes.
pub open spec fn is_unicode_whitespace(c: char) -> bool {
    let v = c as u32;
    ||| 0x09 <= v <= 0x0D
    ||| v == 0x20
    ||| v == 0x85
    ||| v == 0xA0
    ||| v == 0x1680
    ||| 0x2000 <= v <= 0x200A
    ||| v == 0x2028
    ||| v == 0x2029
    ||| v == 0x202F
    ||| v == 0x205F
    ||| v == 0x3000
}

/// `s` without the whitespace it starts with.
pub open spec fn spec_trim_start(s: Seq<char>) -> Seq<char>
    decreases s.len(),
{
    if s.len() > 0 && is_unicode_whitespace(s[0]) {
        spec_trim_start(s.skip(1))
    } else {
        s
    }
}

/// `s` without the whitespace it ends with.
pub open spec fn spec_trim_end_ws(s: Seq<char>) -> Seq<char>
    decreases s.len(),
{
    if s.len() > 0 && is_unicode_whitespace(s.last()) {
        spec_trim_end_ws(s.drop_last())
    } else {
        s
    }
}

/// `str::trim`: `s` without the whitespace at either end.
pub open spec fn spec_trim(s: Seq<char>) -> Seq<char> {
    spec_trim_end_ws(spec_trim_start(s))
}

fn is_whitespace_char(c: char) -> (b: bool)
    ensures
        b == is_unicode_whitespace(c),
{
    let v = c as u32;
    (0x09 <= v && v <= 0x0D) || v == 0x20 || v == 0x85 || v == 0xA0 || v == 0x1680 || (0x2000
        <= v && v <= 0x200A) || v == 0x2028 || v == 0x2029 || v == 0x202F || v == 0x205F || v
        == 0x3000
}

/// Removes the whitespace at both ends of `s`, as `str::trim` does.
pub fn trim_whitespace(s: &str) -> (r: String)
    ensures
        r@ == spec_trim(s@),
{
    let n = s.unicode_len();
    let mut start: usize = 0;
    assert(s@.skip(0) =~= s@);
    while start < n && is_whitespace_char(s.get_char(start))
        invariant
            start <= n,
            n == s@.len(),
            spec_trim_start(s@) == spec_trim_start(s@.skip(start as int)),
        decreases n - start,
    {
        assert(s@.skip(start as int).skip(1) =~= s@.skip(start + 1));
        start = start + 1;
    }
    let ghost rest = s@.skip(start as int);
    assert(spec_trim_start(rest) == rest);
    assert(s@.subrange(start as int, n as int) =~= rest);
    let mut end: usize = n;
    while end > start && is_whitespace_char(s.get_char(end - 1))
        invariant
            start <= end <= n,
            n == s@.len(),
            rest == s@.skip(start as int),
            spec_trim_end_ws(rest) == spec_trim_end_ws(s@.subrange(start as int, end as int)),
        decreases end,
    {
        assert(s@.subrange(start as int, end as int).drop_last() =~= s@.subrange(
            start as int,
            end - 1,
        ));
        end = end - 1;
    }
    let r = s.substring_char(start, end).to_string();
    r
}

/// `pat` occurs in `s`.
pub open spec fn spec_contains(s: Seq<char>, pat: Seq<char>) -> bool {
    exists|i: int| 0 <= i && i + pat.len() <= s.len() && #[trigger] s.subrange(i, i + pat.len()) == pat
}

/// Whether `pat` occurs in `text`, as `str::contains` with a string.
pub fn contains_text(text: &str, pat: &str) -> (b: bool)
    ensures
        b == spec_contains(text@, pat@),
{
    let n = text.unicode_len();
    let m = pat.unicode_len();
    if m > n {
        return false;
    }
    if m == 0 {
        assert(text@.subrange(0, 0int + pat@.len()) =~= pat@);
        return true;
    }
    let target = pat.to_string();
    let mut j: usize = 0;
    while j <= n - m
        invariant
            n == text@.len(),
            m == pat@.len(),
            1 <= m <= n,
            target@ == pat@,
            j <= n - m + 1,
            forall|i: int| 0 <= i < j ==> #[trigger] text@.subrange(i, i + m) != pat@,
        decreases n - m + 1 - j,
    {
        let piece = text.substring_char(j, j + m).to_string();
        if piece == target {
            assert(text@.subrange(j as int, j + m) == pat@);
            return true;
        }
        j = j + 1;
    }
    false
}

} // verus!
