use vstd::prelude::*;
use vstd::string::*;

verus! {

broadcast use vstd::string::group_string_axioms;

/// The characters of `s`, in order.
pub fn chars_of(s: &str) -> (r: Vec<char>)
    ensures
        r@ == s@,
{
    let mut out: Vec<char> = Vec::new();
    for c in it: s.chars()
        invariant
            out@ == it.history(),
    {
        out.push(c);
    }
    assert(out@ =~= s@);
    out
}

/// The Unicode `White_Space` property of a character (what `char::is_whitespace`
/// and `str::trim` go by): U+0009..=U+000D, U+0020, U+0085, U+00A0, U+1680,
/// U+2000..=U+200A, U+2028, U+2029, U+202F, U+205F and U+3000.
pub open spec fn spec_is_whitespace(c: char) -> bool {
    let u = c as u32;
    (0x09 <= u <= 0x0D) || u == 0x20 || u == 0x85 || u == 0xA0 || u == 0x1680 || (0x2000 <= u
        <= 0x200A) || u == 0x2028 || u == 0x2029 || u == 0x202F || u == 0x205F || u == 0x3000
}

/// The Unicode `Alphabetic` or `Numeric` property of a character, as
/// `char::is_alphanumeric` reports it.
pub uninterp spec fn spec_is_alphanumeric(c: char) -> bool;

/// Whether a character has the Unicode `White_Space` property.
pub fn is_whitespace(c: char) -> (r: bool)
    ensures
        r == spec_is_whitespace(c),
{
    let u = c as u32;
    (0x09 <= u && u <= 0x0D) || u == 0x20 || u == 0x85 || u == 0xA0 || u == 0x1680 || (0x2000 <= u
        && u <= 0x200A) || u == 0x2028 || u == 0x2029 || u == 0x202F || u == 0x205F || u == 0x3000
}

/// Calls `char::is_alphanumeric`; its result is named `spec_is_alphanumeric`.
#[verifier::external_body]
pub fn is_alphanumeric(c: char) -> (r: bool)
    ensures
        r == spec_is_alphanumeric(c),
{
    c.is_alphanumeric()
}

/// Index of the first non-whitespace character at or after `i` (or the length).
pub open spec fn spec_trim_start(s: Seq<char>, i: int) -> int
    decreases s.len() - i,
{
    if i >= s.len() {
        s.len() as int
    } else if spec_is_whitespace(s[i]) {
        spec_trim_start(s, i + 1)
    } else {
        i
    }
}

/// One past the last non-whitespace character before `j` (or 0).
pub open spec fn spec_trim_end(s: Seq<char>, j: int) -> int
    decreases j,
{
    if j <= 0 {
        0
    } else if spec_is_whitespace(s[j - 1]) {
        spec_trim_end(s, j - 1)
    } else {
        j
    }
}

/// `s` without leading and trailing whitespace, as `str::trim` gives it.
pub open spec fn spec_trim(s: Seq<char>) -> Seq<char> {
    let a = spec_trim_start(s, 0);
    let b = spec_trim_end(s, s.len() as int);
    if a < b {
        s.subrange(a, b)
    } else {
        Seq::empty()
    }
}

/// The number of alphanumeric characters in `s`.
pub open spec fn spec_alphanumeric_count(s: Seq<char>) -> nat
    decreases s.len(),
{
    if s.len() == 0 {
        0
    } else {
        spec_alphanumeric_count(s.drop_last()) + if spec_is_alphanumeric(s.last()) {
            1nat
        } else {
            0nat
        }
    }
}

/// Counts the alphanumeric characters of `s[lo..hi]`.
fn count_alphanumeric(s: &Vec<char>, lo: usize, hi: usize) -> (r: usize)
    requires
        lo <= hi <= s.len(),
    ensures
        r == spec_alphanumeric_count(s@.subrange(lo as int, hi as int)),
{
    let mut count: usize = 0;
    let mut k = lo;
    while k < hi
        invariant
            lo <= k <= hi <= s.len(),
            count == spec_alphanumeric_count(s@.subrange(lo as int, k as int)),
            count <= k - lo,
        decreases hi - k,
    {
        proof {
            assert(s@.subrange(lo as int, k + 1).drop_last() =~= s@.subrange(lo as int, k as int));
        }
        if is_alphanumeric(s[k]) {
            count = count + 1;
        }
        k = k + 1;
    }
    count
}

/// Whether a transcript is worth keeping: once trimmed it is not empty and
/// holds at least two alphanumeric characters.
pub open spec fn spec_is_valid_transcript(raw: Seq<char>) -> bool {
    spec_trim(raw).len() > 0 && spec_alphanumeric_count(spec_trim(raw)) >= 2
}

/// Whether a transcript is worth keeping in the history.
pub fn is_valid_transcript(raw: &str) -> (r: bool)
    ensures
        r == spec_is_valid_transcript(raw@),
{
    let trimmed = trim(raw);
    let chars = chars_of(trimmed.as_str());
    let n = chars.len();
    if n == 0 {
        return false;
    }
    proof {
        assert(chars@.subrange(0, n as int) =~= chars@);
    }
    let count = count_alphanumeric(&chars, 0, n);
    count >= 2
}

/// `spec_trim_start(s, i)` is the first index at or after `i` whose character
/// is not whitespace (or the length when there is none).
proof fn lemma_trim_start(s: Seq<char>, i: int)
    requires
        0 <= i <= s.len(),
    ensures
        i <= spec_trim_start(s, i) <= s.len(),
        forall|k: int| i <= k < spec_trim_start(s, i) ==> spec_is_whitespace(#[trigger] s[k]),
        spec_trim_start(s, i) < s.len() ==> !spec_is_whitespace(s[spec_trim_start(s, i)]),
    decreases s.len() - i,
{
    if i < s.len() && spec_is_whitespace(s[i]) {
        lemma_trim_start(s, i + 1);
    }
}

/// `spec_trim_end(s, j)` is one past the last index before `j` whose character
/// is not whitespace (or 0 when there is none).
proof fn lemma_trim_end(s: Seq<char>, j: int)
    requires
        0 <= j <= s.len(),
    ensures
        0 <= spec_trim_end(s, j) <= j,
        forall|k: int| spec_trim_end(s, j) <= k < j ==> spec_is_whitespace(#[trigger] s[k]),
        spec_trim_end(s, j) > 0 ==> !spec_is_whitespace(s[spec_trim_end(s, j) - 1]),
    decreases j,
{
    if j > 0 && spec_is_whitespace(s[j - 1]) {
        lemma_trim_end(s, j - 1);
    }
}

/// Counting alphanumeric characters adds up over concatenation.
pub proof fn law_alphanumeric_count_adds_up(p: Seq<char>, q: Seq<char>)
    ensures
        spec_alphanumeric_count(p + q) == spec_alphanumeric_count(p) + spec_alphanumeric_count(q),
    decreases q.len(),
{
    if q.len() == 0 {
        assert(p + q =~= p);
    } else {
        law_alphanumeric_count_adds_up(p, q.drop_last());
        assert((p + q).drop_last() =~= p + q.drop_last());
        assert((p + q).last() == q.last());
    }
}

/// A stretch of `s` holds at least as many alphanumeric characters as any
/// stretch inside it.
proof fn lemma_count_sub(s: Seq<char>, a: int, c: int, d: int, b: int)
    requires
        0 <= a <= c <= d <= b <= s.len(),
    ensures
        spec_alphanumeric_count(s.subrange(a, b)) >= spec_alphanumeric_count(s.subrange(c, d)),
{
    law_alphanumeric_count_adds_up(s.subrange(a, c), s.subrange(c, d));
    law_alphanumeric_count_adds_up(s.subrange(a, c) + s.subrange(c, d), s.subrange(d, b));
    assert(s.subrange(a, c) + s.subrange(c, d) + s.subrange(d, b) =~= s.subrange(a, b));
}

/// Trimming removes exactly the whitespace around the text: the result is a
/// stretch of `s` with only whitespace before and after it, and, when it is
/// not empty, it neither starts nor ends with whitespace.
pub proof fn law_trim_removes_surrounding_whitespace(s: Seq<char>)
    ensures
        exists|a: int, b: int|
            #![trigger s.subrange(a, b)]
            0 <= a <= b <= s.len() && spec_trim(s) == s.subrange(a, b)
            && (forall|k: int| 0 <= k < a ==> spec_is_whitespace(#[trigger] s[k]))
            && (forall|k: int| b <= k < s.len() ==> spec_is_whitespace(#[trigger] s[k]))
            && (a < b ==> !spec_is_whitespace(s[a]) && !spec_is_whitespace(s[b - 1])),
{
    lemma_trim_start(s, 0);
    lemma_trim_end(s, s.len() as int);
    let a = spec_trim_start(s, 0);
    let b = spec_trim_end(s, s.len() as int);
    if a < b {
        assert(spec_trim(s) == s.subrange(a, b));
    } else {
        let n = s.len() as int;
        if a < n {
            assert(!spec_is_whitespace(s[a]));
            assert(b > a);
        }
        assert(spec_trim(s) =~= s.subrange(n, n));
        assert(forall|k: int| 0 <= k < n ==> spec_is_whitespace(#[trigger] s[k]));
    }
}

/// A transcript is valid exactly when, once trimmed, it holds at least two
/// alphanumeric characters, whatever its length.
pub proof fn law_valid_transcript_is_two_alphanumerics(raw: Seq<char>)
    ensures
        spec_is_valid_transcript(raw) <==> spec_alphanumeric_count(spec_trim(raw)) >= 2,
{
    if spec_trim(raw).len() == 0 {
        assert(spec_trim(raw) =~= Seq::<char>::empty());
    }
}

/// Saying more never makes a valid transcript invalid: text added before or
/// after a valid transcript, of any length, gives a valid transcript.
pub proof fn law_valid_transcript_survives_more_text(before: Seq<char>, t: Seq<char>, after: Seq<char>)
    requires
        spec_is_valid_transcript(t),
    ensures
        spec_is_valid_transcript(before + t + after),
{
    let s = before + t + after;
    let o = before.len() as int;
    lemma_trim_start(t, 0);
    lemma_trim_end(t, t.len() as int);
    lemma_trim_start(s, 0);
    lemma_trim_end(s, s.len() as int);
    let at = spec_trim_start(t, 0);
    let bt = spec_trim_end(t, t.len() as int);
    let a = spec_trim_start(s, 0);
    let b = spec_trim_end(s, s.len() as int);
    assert(at < bt);
    assert(forall|k: int| 0 <= k < t.len() ==> s[o + k] == t[k]);
    assert(s[o + at] == t[at]);
    assert(s[o + bt - 1] == t[bt - 1]);
    if a > o + at {
        assert(spec_is_whitespace(s[o + at]));
    }
    if b < o + bt {
        assert(spec_is_whitespace(s[o + bt - 1]));
    }
    assert(t.subrange(at, bt) =~= s.subrange(o + at, o + bt));
    lemma_count_sub(s, a, o + at, o + bt, b);
}

/// Whether `p` is a prefix of `s`.
pub open spec fn spec_starts_with(s: Seq<char>, p: Seq<char>) -> bool {
    p.len() <= s.len() && s.subrange(0, p.len() as int) == p
}

/// `s` without the prefix `p`, if it starts with `p`.
pub open spec fn spec_strip_prefix(s: Seq<char>, p: Seq<char>) -> Option<Seq<char>> {
    if spec_starts_with(s, p) {
        Some(s.skip(p.len() as int))
    } else {
        None
    }
}

/// `s` without the prefix `prefix`, if it starts with it.
pub fn strip_prefix(s: &str, prefix: &str) -> (r: Option<String>)
    ensures
        r.deep_view() == spec_strip_prefix(s@, prefix@),
{
    let sc = chars_of(s);
    let pc = chars_of(prefix);
    if pc.len() > sc.len() {
        return None;
    }
    let n = pc.len();
    for i in 0..n
        invariant
            n == pc.len() <= sc.len(),
            sc@ == s@,
            pc@ == prefix@,
            forall|j: int| 0 <= j < i ==> sc@[j] == pc@[j],
    {
        if sc[i] != pc[i] {
            proof {
                assert(s@.subrange(0, prefix@.len() as int)[i as int] != prefix@[i as int]);
            }
            return None;
        }
    }
    assert(s@.subrange(0, prefix@.len() as int) =~= prefix@);
    let rest = s.substring_char(n, sc.len());
    assert(rest@ =~= s@.skip(prefix@.len() as int));
    Some(rest.to_owned())
}

/// `s` without its leading `/` characters.
pub open spec fn spec_trim_leading_slashes(s: Seq<char>) -> Seq<char>
    decreases s.len(),
{
    if s.len() > 0 && s[0] == '/' {
        spec_trim_leading_slashes(s.drop_first())
    } else {
        s
    }
}

/// `s` without its leading `/` characters, as `trim_start_matches('/')` gives it.
pub fn trim_leading_slashes(s: &str) -> (r: String)
    ensures
        r@ == spec_trim_leading_slashes(s@),
{
    let sc = chars_of(s);
    let n = sc.len();
    let mut i: usize = 0;
    assert(s@.skip(0) =~= s@);
    while i < n && sc[i] == '/'
        invariant
            i <= n == sc@.len(),
            sc@ == s@,
            spec_trim_leading_slashes(s@) == spec_trim_leading_slashes(s@.skip(i as int)),
        decreases n - i,
    {
        proof {
            assert(s@.skip(i as int).drop_first() =~= s@.skip(i + 1));
        }
        i = i + 1;
    }
    let rest = s.substring_char(i, n);
    proof {
        assert(rest@ =~= s@.skip(i as int));
    }
    rest.to_owned()
}

/// The code of the ASCII lower-case form of a character; characters other
/// than `A`..=`Z` keep their code.
pub open spec fn spec_ascii_lower(c: char) -> int {
    if 'A' <= c <= 'Z' {
        (c as u32) + 32
    } else {
        c as u32 as int
    }
}

/// Whether `a` and `b` are equal up to ASCII letter case.
pub open spec fn spec_eq_ignore_ascii_case(a: Seq<char>, b: Seq<char>) -> bool {
    a.len() == b.len() && forall|i: int| 0 <= i < a.len() ==> spec_ascii_lower(#[trigger] a[i])
        == spec_ascii_lower(b[i])
}

fn ascii_lower(c: char) -> (r: u32)
    ensures
        r == spec_ascii_lower(c),
{
    if 'A' <= c && c <= 'Z' {
        (c as u32) + 32
    } else {
        c as u32
    }
}

/// Whether `a` and `b` are equal up to ASCII letter case.
pub fn eq_ignore_ascii_case(a: &str, b: &str) -> (r: bool)
    ensures
        r == spec_eq_ignore_ascii_case(a@, b@),
{
    let ac = chars_of(a);
    let bc = chars_of(b);
    if ac.len() != bc.len() {
        return false;
    }
    let n = ac.len();
    for i in 0..n
        invariant
            n == ac.len() == bc.len(),
            ac@ == a@,
            bc@ == b@,
            forall|j: int| 0 <= j < i ==> spec_ascii_lower(#[trigger] a@[j]) == spec_ascii_lower(b@[j]),
    {
        if ascii_lower(ac[i]) != ascii_lower(bc[i]) {
            return false;
        }
    }
    true
}

/// `s` without leading and trailing whitespace, as `str::trim` gives it.
pub fn trim(s: &str) -> (r: String)
    ensures
        r@ == spec_trim(s@),
{
    let chars = chars_of(s);
    let n = chars.len();
    let mut a: usize = 0;
    while a < n && is_whitespace(chars[a])
        invariant
            a <= n == chars@.len(),
            spec_trim_start(chars@, 0) == spec_trim_start(chars@, a as int),
        decreases n - a,
    {
        a = a + 1;
    }
    let mut b: usize = n;
    while b > 0 && is_whitespace(chars[b - 1])
        invariant
            b <= n == chars@.len(),
            spec_trim_end(chars@, n as int) == spec_trim_end(chars@, b as int),
        decreases b,
    {
        b = b - 1;
    }
    proof {
        assert(spec_trim_start(chars@, a as int) == a);
        assert(spec_trim_end(chars@, b as int) == b);
    }
    if a >= b {
        return String::new();
    }
    s.substring_char(a, b).to_owned()
}

/// The decimal digit character for `d` (0..=9).
pub open spec fn spec_digit(d: nat) -> char {
    if d == 0 {
        '0'
    } else if d == 1 {
        '1'
    } else if d == 2 {
        '2'
    } else if d == 3 {
        '3'
    } else if d == 4 {
        '4'
    } else if d == 5 {
        '5'
    } else if d == 6 {
        '6'
    } else if d == 7 {
        '7'
    } else if d == 8 {
        '8'
    } else {
        '9'
    }
}

/// The decimal form of `n`, without leading zeros (`0` for zero).
pub open spec fn spec_decimal(n: nat) -> Seq<char>
    decreases n,
{
    if n < 10 {
        seq![spec_digit(n)]
    } else {
        spec_decimal(n / 10) + seq![spec_digit(n % 10)]
    }
}

fn digit_str(d: u128) -> (r: &'static str)
    requires
        d < 10,
    ensures
        r@ == seq![spec_digit(d as nat)],
{
    proof {
        reveal_strlit("0");
        reveal_strlit("1");
        reveal_strlit("2");
        reveal_strlit("3");
        reveal_strlit("4");
        reveal_strlit("5");
        reveal_strlit("6");
        reveal_strlit("7");
        reveal_strlit("8");
        reveal_strlit("9");
    }
    if d == 0 {
        "0"
    } else if d == 1 {
        "1"
    } else if d == 2 {
        "2"
    } else if d == 3 {
        "3"
    } else if d == 4 {
        "4"
    } else if d == 5 {
        "5"
    } else if d == 6 {
        "6"
    } else if d == 7 {
        "7"
    } else if d == 8 {
        "8"
    } else {
        "9"
    }
}

/// Appends the decimal form of `n` to `s`.
pub fn append_decimal(s: &mut String, n: u128)
    ensures
        final(s)@ == old(s)@ + spec_decimal(n as nat),
    decreases n,
{
    if n >= 10 {
        append_decimal(s, n / 10);
    }
    let d = digit_str(n % 10);
    let ghost before = s@;
    s.append(d);
    assert(s@ =~= before + seq![spec_digit((n % 10) as nat)]);
}

} // verus!
