//! Character-level text handling: Unicode whitespace, trimming, splitting into
//! words, joining lines, and decimal numbers.
use vstd::prelude::*;
use vstd::string::StringExecFns;

verus! {

/// Appends one character to `s` with `String::push`. Claimed, as its
/// documentation says: `c` is added at the end and nothing else changes.
#[verifier::external_body]
fn push_char(s: &mut String, c: char)
    ensures
        final(s)@ == old(s)@.push(c),
{
    s.push(c)
}

/// The characters of `s`, in order.
pub fn chars_of(s: &str) -> (v: Vec<char>)
    ensures
        v@ == s@,
{
    broadcast use vstd::string::group_string_axioms;
    let mut v: Vec<char> = Vec::new();
    for c in it: s.chars()
        invariant
            v@ == it.seq().take(it.index() as int),
    {
        v.push(c);
    }
    v
}

/// A string holding the characters `v`.
pub fn string_from_chars(v: &[char]) -> (s: String)
    ensures
        s@ == v@,
{
    let mut s = String::new();
    let mut i: usize = 0;
    while i < v.len()
        invariant
            i <= v.len(),
            s@ == v@.subrange(0, i as int),
        decreases v.len() - i,
    {
        push_char(&mut s, v[i]);
        proof {
            assert(v@.subrange(0, i + 1) == v@.subrange(0, i as int).push(v@[i as int]));
        }
        i = i + 1;
    }
    assert(v@.subrange(0, v@.len() as int) == v@);
    s
}


/// Whether `c` has the Unicode `White_Space` property, the property that
/// `char::is_whitespace` reports.
pub open spec fn is_ws(c: char) -> bool {
    let n = c as u32;
    ||| 0x9 <= n <= 0xD
    ||| n == 0x20
    ||| n == 0x85
    ||| n == 0xA0
    ||| n == 0x1680
    ||| 0x2000 <= n <= 0x200A
    ||| n == 0x2028
    ||| n == 0x2029
    ||| n == 0x202F
    ||| n == 0x205F
    ||| n == 0x3000
}

/// Whether `c` is Unicode whitespace.
pub fn is_whitespace(c: char) -> (b: bool)
    ensures
        b == is_ws(c),
{
    let n = c as u32;
    (0x9 <= n && n <= 0xD) || n == 0x20 || n == 0x85 || n == 0xA0 || n == 0x1680 || (0x2000 <= n
        && n <= 0x200A) || n == 0x2028 || n == 0x2029 || n == 0x202F || n == 0x205F || n == 0x3000
}

/// `s` without its leading whitespace.
pub open spec fn trim_start(s: Seq<char>) -> Seq<char>
    decreases s.len(),
{
    if s.len() > 0 && is_ws(s[0]) {
        trim_start(s.drop_first())
    } else {
        s
    }
}

/// `s` without its trailing whitespace.
pub open spec fn trim_end(s: Seq<char>) -> Seq<char>
    decreases s.len(),
{
    if s.len() > 0 && is_ws(s.last()) {
        trim_end(s.drop_last())
    } else {
        s
    }
}

/// `s` without leading and trailing whitespace, as `str::trim` gives it.
pub open spec fn trim(s: Seq<char>) -> Seq<char> {
    trim_end(trim_start(s))
}

/// Skipping whitespace from the front, one character at a time, leaves the
/// same trimmed text.
proof fn lemma_trim_start_from(s: Seq<char>, i: int)
    requires
        0 <= i <= s.len(),
        forall|k: int| 0 <= k < i ==> is_ws(#[trigger] s[k]),
    ensures
        trim_start(s) == trim_start(s.subrange(i, s.len() as int)),
    decreases i,
{
    if i > 0 {
        assert(s.drop_first() == s.subrange(1, s.len() as int));
        lemma_trim_start_from(s.drop_first(), i - 1);
        assert(s.drop_first().subrange(i - 1, s.drop_first().len() as int) == s.subrange(
            i,
            s.len() as int,
        ));
    } else {
        assert(s.subrange(0, s.len() as int) == s);
    }
}

/// Dropping whitespace from the back, one character at a time, leaves the
/// same trimmed text.
proof fn lemma_trim_end_to(s: Seq<char>, j: int)
    requires
        0 <= j <= s.len(),
        forall|k: int| j <= k < s.len() ==> is_ws(#[trigger] s[k]),
    ensures
        trim_end(s) == trim_end(s.subrange(0, j)),
    decreases s.len() - j,
{
    if j < s.len() {
        assert(s.drop_last() == s.subrange(0, s.len() - 1));
        lemma_trim_end_to(s.drop_last(), j);
        assert(s.drop_last().subrange(0, j) == s.subrange(0, j));
    } else {
        assert(s.subrange(0, s.len() as int) == s);
    }
}

/// `v` without leading and trailing whitespace.
pub fn trim_chars(v: &[char]) -> (t: Vec<char>)
    ensures
        t@ == trim(v@),
{
    let mut i: usize = 0;
    while i < v.len() && is_whitespace(v[i])
        invariant
            i <= v.len(),
            forall|k: int| 0 <= k < i ==> is_ws(#[trigger] v@[k]),
        decreases v.len() - i,
    {
        i = i + 1;
    }
    proof {
        lemma_trim_start_from(v@, i as int);
        let r = v@.subrange(i as int, v@.len() as int);
        if r.len() > 0 {
            assert(r[0] == v@[i as int]);
        }
        assert(trim_start(r) == r);
    }
    let mut j: usize = v.len();
    while j > i && is_whitespace(v[j - 1])
        invariant
            i <= j <= v.len(),
            forall|k: int| j <= k < v.len() ==> is_ws(#[trigger] v@[k]),
        decreases j - i,
    {
        j = j - 1;
    }
    let ghost r = v@.subrange(i as int, v@.len() as int);
    proof {
        assert forall|k: int| j - i <= k < r.len() implies is_ws(#[trigger] r[k]) by {
            assert(r[k] == v@[i + k]);
        }
        lemma_trim_end_to(r, j - i);
        let q = r.subrange(0, j - i);
        if q.len() > 0 {
            assert(q.last() == v@[j - 1]);
        }
        assert(trim_end(q) == q);
        assert(q == v@.subrange(i as int, j as int));
    }
    let mut t: Vec<char> = Vec::new();
    let mut k: usize = i;
    while k < j
        invariant
            i <= k <= j <= v.len(),
            t@ == v@.subrange(i as int, k as int),
        decreases j - k,
    {
        t.push(v[k]);
        proof {
            assert(v@.subrange(i as int, k + 1) == v@.subrange(i as int, k as int).push(v@[k as int]));
        }
        k = k + 1;
    }
    t
}

/// The length of the run of non-whitespace characters that starts `s`.
pub open spec fn word_len(s: Seq<char>) -> nat
    decreases s.len(),
{
    if s.len() == 0 || is_ws(s[0]) {
        0
    } else {
        1 + word_len(s.drop_first())
    }
}

/// A word is never longer than the text it starts.
pub proof fn lemma_word_len_bound(s: Seq<char>)
    ensures
        word_len(s) <= s.len(),
    decreases s.len(),
{
    if s.len() > 0 && !is_ws(s[0]) {
        lemma_word_len_bound(s.drop_first());
    }
}

/// The whitespace-separated words of `s`, as `str::split_whitespace` yields them.
pub open spec fn words(s: Seq<char>) -> Seq<Seq<char>>
    decreases s.len(),
{
    if s.len() == 0 {
        Seq::empty()
    } else if is_ws(s[0]) {
        words(s.drop_first())
    } else {
        let n = word_len(s);
        proof {
            lemma_word_len_bound(s);
        }
        seq![s.subrange(0, n as int)] + words(s.subrange(n as int, s.len() as int))
    }
}

proof fn lemma_word_len_is(s: Seq<char>, k: int)
    requires
        0 <= k <= s.len(),
        forall|m: int| 0 <= m < k ==> !is_ws(#[trigger] s[m]),
        k == s.len() || is_ws(s[k]),
    ensures
        word_len(s) == k,
    decreases k,
{
    if k > 0 {
        lemma_word_len_is(s.drop_first(), k - 1);
    }
}

proof fn lemma_words_skip_ws(s: Seq<char>, i: int)
    requires
        0 <= i <= s.len(),
        forall|k: int| 0 <= k < i ==> is_ws(#[trigger] s[k]),
    ensures
        words(s) == words(s.subrange(i, s.len() as int)),
    decreases i,
{
    if i > 0 {
        assert(s.drop_first() == s.subrange(1, s.len() as int));
        lemma_words_skip_ws(s.drop_first(), i - 1);
        assert(s.drop_first().subrange(i - 1, s.drop_first().len() as int) == s.subrange(
            i,
            s.len() as int,
        ));
    } else {
        assert(s.subrange(0, s.len() as int) == s);
    }
}

/// The views of a list of character vectors.
pub open spec fn char_views(v: Seq<Vec<char>>) -> Seq<Seq<char>> {
    v.map_values(|w: Vec<char>| w@)
}

/// The whitespace-separated words of `v`.
pub fn split_whitespace(v: &[char]) -> (ws: Vec<Vec<char>>)
    ensures
        char_views(ws@) == words(v@),
{
    let mut out: Vec<Vec<char>> = Vec::new();
    let mut pos: usize = 0;
    assert(v@.subrange(0, v@.len() as int) == v@);
    while pos < v.len()
        invariant
            pos <= v.len(),
            words(v@) == char_views(out@) + words(v@.subrange(pos as int, v@.len() as int)),
        decreases v.len() - pos,
    {
        let ghost before = v@.subrange(pos as int, v@.len() as int);
        let mut i: usize = pos;
        while i < v.len() && is_whitespace(v[i])
            invariant
                pos <= i <= v.len(),
                forall|k: int| pos <= k < i ==> is_ws(#[trigger] v@[k]),
            decreases v.len() - i,
        {
            i = i + 1;
        }
        proof {
            assert forall|k: int| 0 <= k < i - pos implies is_ws(#[trigger] before[k]) by {
                assert(before[k] == v@[pos + k]);
            }
            lemma_words_skip_ws(before, i - pos);
            assert(before.subrange(i - pos, before.len() as int) == v@.subrange(
                i as int,
                v@.len() as int,
            ));
        }
        if i == v.len() {
            proof {
                assert(v@.subrange(i as int, v@.len() as int).len() == 0);
                assert(char_views(out@) + Seq::<Seq<char>>::empty() == char_views(out@));
            }
            pos = i;
        } else {
            let mut e: usize = i;
            let mut w: Vec<char> = Vec::new();
            while e < v.len() && !is_whitespace(v[e])
                invariant
                    i <= e <= v.len(),
                    forall|k: int| i <= k < e ==> !is_ws(#[trigger] v@[k]),
                    w@ == v@.subrange(i as int, e as int),
                decreases v.len() - e,
            {
                w.push(v[e]);
                proof {
                    assert(v@.subrange(i as int, e + 1) == v@.subrange(i as int, e as int).push(
                        v@[e as int],
                    ));
                }
                e = e + 1;
            }
            proof {
                let rest = v@.subrange(i as int, v@.len() as int);
                assert forall|m: int| 0 <= m < e - i implies !is_ws(#[trigger] rest[m]) by {
                    assert(rest[m] == v@[i + m]);
                }
                if e < v.len() {
                    assert(rest[e - i] == v@[e as int]);
                }
                lemma_word_len_is(rest, e - i);
                assert(rest[0] == v@[i as int]);
                assert(rest.subrange(0, e - i) == w@);
                assert(rest.subrange(e - i, rest.len() as int) == v@.subrange(
                    e as int,
                    v@.len() as int,
                ));
                assert(words(rest) == seq![w@] + words(v@.subrange(e as int, v@.len() as int)));
            }
            let ghost old_out = out@;
            out.push(w);
            proof {
                assert(char_views(out@) == char_views(old_out).push(w@));
                assert(char_views(old_out) + (seq![w@] + words(
                    v@.subrange(e as int, v@.len() as int),
                )) == char_views(out@) + words(v@.subrange(e as int, v@.len() as int)));
            }
            pos = e;
        }
    }
    proof {
        assert(v@.subrange(pos as int, v@.len() as int).len() == 0);
        assert(char_views(out@) + Seq::<Seq<char>>::empty() == char_views(out@));
    }
    out
}


/// Whether two character sequences are equal.
pub fn chars_eq(a: &[char], b: &[char]) -> (r: bool)
    ensures
        r == (a@ == b@),
{
    if a.len() != b.len() {
        return false;
    }
    let mut i: usize = 0;
    while i < a.len()
        invariant
            i <= a.len(),
            a.len() == b.len(),
            forall|k: int| 0 <= k < i ==> a@[k] == b@[k],
        decreases a.len() - i,
    {
        if a[i] != b[i] {
            return false;
        }
        i = i + 1;
    }
    assert(a@ =~= b@);
    true
}

/// Whether `c` is an ASCII decimal digit.
pub open spec fn is_digit(c: char) -> bool {
    '0' <= c && c <= '9'
}

/// The value of the decimal digit `c`.
pub open spec fn digit_value(c: char) -> nat {
    (c as nat - '0' as nat) as nat
}

/// The value of the decimal numeral `s`, most significant digit first.
pub open spec fn decimal_value(s: Seq<char>) -> nat
    decreases s.len(),
{
    if s.len() == 0 {
        0
    } else {
        decimal_value(s.drop_last()) * 10 + digit_value(s.last())
    }
}

/// Whether every character of `d` is a decimal digit.
pub open spec fn all_digits(d: Seq<char>) -> bool {
    forall|i: int| 0 <= i < d.len() ==> is_digit(#[trigger] d[i])
}

/// What `str::parse::<u16>` gives for `s`: an optional `+` sign followed by
/// at least one decimal digit, with a value that fits in 16 bits.
pub open spec fn parse_u16_spec(s: Seq<char>) -> Option<u16> {
    let d = if s.len() > 0 && s[0] == '+' {
        s.drop_first()
    } else {
        s
    };
    if d.len() == 0 || !all_digits(d) || decimal_value(d) > 0xFFFF {
        None
    } else {
        Some(decimal_value(d) as u16)
    }
}

/// A numeral is worth at least as much as any of its prefixes.
proof fn lemma_decimal_prefix_le(d: Seq<char>, k: int)
    requires
        0 <= k <= d.len(),
        forall|i: int| 0 <= i < d.len() ==> is_digit(#[trigger] d[i]),
    ensures
        decimal_value(d.subrange(0, k)) <= decimal_value(d),
    decreases d.len() - k,
{
    if k < d.len() {
        let p = d.subrange(0, k + 1);
        assert(p.drop_last() == d.subrange(0, k));
        lemma_decimal_prefix_le(d, k + 1);
    } else {
        assert(d.subrange(0, k) == d);
    }
}

/// Parses a 16-bit unsigned number the way `str::parse::<u16>` does.
pub fn parse_u16(s: &[char]) -> (r: Option<u16>)
    ensures
        r == parse_u16_spec(s@),
{
    let start: usize = if s.len() > 0 && s[0] == '+' {
        1
    } else {
        0
    };
    let ghost d = s@.subrange(start as int, s@.len() as int);
    proof {
        if start == 1 {
            assert(d == s@.drop_first());
        } else {
            assert(d == s@);
        }
    }
    if start == s.len() {
        return None;
    }
    let mut acc: u32 = 0;
    let mut i: usize = start;
    while i < s.len()
        invariant
            start <= i <= s.len(),
            d == s@.subrange(start as int, s@.len() as int),
            d == (if s@.len() > 0 && s@[0] == '+' {
                s@.drop_first()
            } else {
                s@
            }),
            forall|k: int| 0 <= k < i - start ==> is_digit(#[trigger] d[k]),
            acc == decimal_value(d.subrange(0, i - start)),
            acc <= 0xFFFF,
        decreases s.len() - i,
    {
        let c = s[i];
        if !('0' <= c && c <= '9') {
            proof {
                assert(d[i - start] == c);
                assert(!is_digit(d[i - start]));
                assert(!all_digits(d));
            }
            return None;
        }
        let dv: u32 = (c as u32) - ('0' as u32);
        let ghost p = d.subrange(0, i + 1 - start);
        proof {
            assert(d[i - start] == c);
            assert(p.drop_last() == d.subrange(0, i - start));
            assert(p.last() == c);
        }
        acc = acc * 10 + dv;
        assert(acc == decimal_value(p));
        if acc > 0xFFFF {
            proof {
                if all_digits(d) {
                    lemma_decimal_prefix_le(d, i + 1 - start);
                }
            }
            return None;
        }
        i = i + 1;
    }
    proof {
        assert(d.subrange(0, d.len() as int) == d);
    }
    Some(acc as u16)
}

/// The lines joined with `sep` between each two of them, as `[String]::join` gives it.
pub open spec fn join_spec(lines: Seq<Seq<char>>, sep: Seq<char>) -> Seq<char>
    decreases lines.len(),
{
    if lines.len() == 0 {
        Seq::empty()
    } else if lines.len() == 1 {
        lines[0]
    } else {
        join_spec(lines.drop_last(), sep) + sep + lines.last()
    }
}

/// The views of a list of strings.
pub open spec fn string_views(v: Seq<String>) -> Seq<Seq<char>> {
    v.map_values(|s: String| s@)
}

/// Joins `lines` with `sep` between each two of them.
pub fn join(lines: &[String], sep: &str) -> (s: String)
    ensures
        s@ == join_spec(string_views(lines@), sep@),
{
    let mut out = String::new();
    let mut i: usize = 0;
    while i < lines.len()
        invariant
            i <= lines.len(),
            out@ == join_spec(string_views(lines@.subrange(0, i as int)), sep@),
        decreases lines.len() - i,
    {
        let ghost prev = lines@.subrange(0, i as int);
        let ghost next = lines@.subrange(0, i + 1);
        proof {
            assert(next.drop_last() == prev);
            assert(string_views(next).drop_last() == string_views(prev));
            assert(string_views(next).last() == lines@[i as int]@);
        }
        if i > 0 {
            out.append(sep);
        }
        out.append(lines[i].as_str());
        i = i + 1;
    }
    assert(lines@.subrange(0, lines@.len() as int) == lines@);
    out
}

/// The decimal digit character for `d`.
pub open spec fn digit_char(d: nat) -> char {
    ('0' as nat + d) as char
}

/// The decimal numeral for `n`, as `format!("{}", n)` writes it.
pub open spec fn decimal_digits(n: nat) -> Seq<char>
    decreases n,
{
    if n < 10 {
        seq![digit_char(n)]
    } else {
        decimal_digits(n / 10).push(digit_char(n % 10))
    }
}

/// The digit characters, least significant first, of `n`.
spec fn reversed_digits(n: nat) -> Seq<char>
    decreases n,
{
    if n < 10 {
        seq![digit_char(n)]
    } else {
        seq![digit_char(n % 10)] + reversed_digits(n / 10)
    }
}

proof fn lemma_reversed_digits(n: nat)
    ensures
        reversed_digits(n).reverse() == decimal_digits(n),
    decreases n,
{
    if n >= 10 {
        lemma_reversed_digits(n / 10);
        let a = seq![digit_char(n % 10)];
        let b = reversed_digits(n / 10);
        assert((a + b).reverse() == b.reverse() + a.reverse());
    }
}

/// Writes `n` in decimal.
pub fn decimal_string(n: u32) -> (s: String)
    ensures
        s@ == decimal_digits(n as nat),
{
    let mut rev: Vec<char> = Vec::new();
    let mut m: u32 = n;
    loop
        invariant_except_break
            reversed_digits(n as nat) == rev@ + reversed_digits(m as nat),
        ensures
            reversed_digits(n as nat) == rev@,
        decreases m,
    {
        let d: u32 = m % 10;
        let c: char = (48u8 + (d as u8)) as char;
        assert(c == digit_char(d as nat));
        if m < 10 {
            rev.push(c);
            break;
        }
        rev.push(c);
        m = m / 10;
    }
    let mut out: Vec<char> = Vec::new();
    let mut i: usize = rev.len();
    while i > 0
        invariant
            i <= rev.len(),
            out@ == rev@.subrange(i as int, rev@.len() as int).reverse(),
        decreases i,
    {
        i = i - 1;
        out.push(rev[i]);
    }
    proof {
        lemma_reversed_digits(n as nat);
    }
    string_from_chars(out.as_slice())
}

/// A decimal numeral is made of digits, does not start with `+`, and is
/// worth the number it was written for.
pub proof fn lemma_decimal_digits_value(n: nat)
    ensures
        decimal_digits(n).len() > 0,
        all_digits(decimal_digits(n)),
        decimal_value(decimal_digits(n)) == n,
        decimal_digits(n)[0] != '+',
    decreases n,
{
    if n >= 10 {
        lemma_decimal_digits_value(n / 10);
        let p = decimal_digits(n / 10);
        let s = decimal_digits(n);
        assert(s.drop_last() == p);
        assert(s[0] == p[0]);
        assert forall|i: int| 0 <= i < s.len() implies is_digit(#[trigger] s[i]) by {
            if i < p.len() {
                assert(s[i] == p[i]);
            }
        }
        assert(s.last() == digit_char(n % 10));
        assert(digit_value(digit_char(n % 10)) == n % 10);
        assert(decimal_value(s) == decimal_value(p) * 10 + n % 10);
        assert(n == (n / 10) * 10 + n % 10);
    } else {
        let s = decimal_digits(n);
        assert(s.drop_last() == Seq::<char>::empty());
        assert(decimal_value(s.drop_last()) == 0);
        assert(s.last() == digit_char(n));
        assert(digit_value(digit_char(n)) == n);
        assert(decimal_value(s) == n);
    }
}

/// The words of two words with one space between them are those two words.
pub proof fn lemma_words_of_pair(a: Seq<char>, b: Seq<char>)
    requires
        a.len() > 0,
        b.len() > 0,
        forall|i: int| 0 <= i < a.len() ==> !is_ws(#[trigger] a[i]),
        forall|i: int| 0 <= i < b.len() ==> !is_ws(#[trigger] b[i]),
    ensures
        words(a + seq![' '] + b) == seq![a, b],
{
    let s = a + seq![' '] + b;
    assert forall|m: int| 0 <= m < a.len() implies !is_ws(#[trigger] s[m]) by {
        assert(s[m] == a[m]);
    }
    assert(s[a.len() as int] == ' ');
    lemma_word_len_is(s, a.len() as int);
    assert(s.subrange(0, a.len() as int) == a);
    let rest = s.subrange(a.len() as int, s.len() as int);
    assert(rest[0] == ' ');
    lemma_words_skip_ws(rest, 1);
    assert(rest.subrange(1, rest.len() as int) == b);
    assert forall|m: int| 0 <= m < b.len() implies !is_ws(#[trigger] b[m]) by {}
    lemma_word_len_is(b, b.len() as int);
    assert(b.subrange(0, b.len() as int) == b);
    assert(b.subrange(b.len() as int, b.len() as int).len() == 0);
    assert(words(b.subrange(b.len() as int, b.len() as int)) == Seq::<Seq<char>>::empty());
    assert(words(b) == seq![b]);
    assert(words(s) == seq![a] + words(rest));
}

/// The length of the first line of `s`: the characters before its first
/// `\n`, or all of `s`.
pub open spec fn line_len(s: Seq<char>) -> nat
    decreases s.len(),
{
    if s.len() == 0 || s[0] == '\n' {
        0
    } else {
        1 + line_len(s.drop_first())
    }
}

/// A line without the `\r` that ends it, if any.
pub open spec fn strip_cr(l: Seq<char>) -> Seq<char> {
    if l.len() > 0 && l.last() == '\r' {
        l.drop_last()
    } else {
        l
    }
}

/// The lines of `s`, as `str::lines` gives them: split at `\n`, a `\r`
/// before a `\n` dropped, and no empty line after a final `\n`.
pub open spec fn lines_of(s: Seq<char>) -> Seq<Seq<char>>
    decreases s.len(),
{
    if s.len() == 0 {
        Seq::empty()
    } else {
        let n = line_len(s);
        proof {
            lemma_line_len_bound(s);
        }
        if n == s.len() {
            seq![s]
        } else {
            seq![strip_cr(s.subrange(0, n as int))] + lines_of(s.subrange(n as int + 1, s.len() as int))
        }
    }
}

/// A line is never longer than the text it starts.
pub proof fn lemma_line_len_bound(s: Seq<char>)
    ensures
        line_len(s) <= s.len(),
        line_len(s) < s.len() ==> s[line_len(s) as int] == '\n',
        forall|k: int| 0 <= k < line_len(s) ==> s[k] != '\n',
    decreases s.len(),
{
    if s.len() > 0 && s[0] != '\n' {
        lemma_line_len_bound(s.drop_first());
        assert forall|k: int| 0 <= k < line_len(s) implies s[k] != '\n' by {
            if k > 0 {
                assert(s[k] == s.drop_first()[k - 1]);
            }
        }
    }
}

proof fn lemma_line_len_is(s: Seq<char>, k: int)
    requires
        0 <= k <= s.len(),
        forall|m: int| 0 <= m < k ==> s[m] != '\n',
        k == s.len() || s[k] == '\n',
    ensures
        line_len(s) == k,
    decreases k,
{
    if k > 0 {
        lemma_line_len_is(s.drop_first(), k - 1);
    }
}

/// The lines of `v`.
pub fn split_lines(v: &[char]) -> (out: Vec<Vec<char>>)
    ensures
        char_views(out@) == lines_of(v@),
{
    let mut out: Vec<Vec<char>> = Vec::new();
    let mut pos: usize = 0;
    assert(v@.subrange(0, v@.len() as int) == v@);
    while pos < v.len()
        invariant
            pos <= v.len(),
            lines_of(v@) == char_views(out@) + lines_of(v@.subrange(pos as int, v@.len() as int)),
        decreases v.len() - pos,
    {
        let ghost rest = v@.subrange(pos as int, v@.len() as int);
        let mut e: usize = pos;
        let mut line: Vec<char> = Vec::new();
        while e < v.len() && v[e] != '\n'
            invariant
                pos <= e <= v.len(),
                forall|k: int| pos <= k < e ==> v@[k] != '\n',
                line@ == v@.subrange(pos as int, e as int),
            decreases v.len() - e,
        {
            line.push(v[e]);
            proof {
                assert(v@.subrange(pos as int, e + 1) == v@.subrange(pos as int, e as int).push(
                    v@[e as int],
                ));
            }
            e = e + 1;
        }
        proof {
            assert forall|m: int| 0 <= m < e - pos implies rest[m] != '\n' by {
                assert(rest[m] == v@[pos + m]);
            }
            if e < v.len() {
                assert(rest[e - pos] == v@[e as int]);
            }
            lemma_line_len_is(rest, e - pos);
            assert(rest.subrange(0, e - pos) == line@);
        }
        let ghost old_out = out@;
        if e == v.len() {
            out.push(line);
            proof {
                assert(rest == line@);
                assert(lines_of(rest) == seq![line@]);
                assert(char_views(out@) == char_views(old_out).push(line@));
                assert(v@.subrange(e as int, v@.len() as int).len() == 0);
                assert(lines_of(v@.subrange(e as int, v@.len() as int)) == Seq::<Seq<char>>::empty());
                assert(char_views(old_out) + seq![line@] == char_views(out@) + Seq::<Seq<char>>::empty());
            }
            pos = e;
        } else {
            let l = if line.len() > 0 && line[line.len() - 1] == '\r' {
                let mut t = line;
                t.pop();
                t
            } else {
                line
            };
            proof {
                let q = v@.subrange(pos as int, e as int);
                assert(l@ == strip_cr(q));
                assert(rest.subrange(e - pos + 1, rest.len() as int) == v@.subrange(
                    e + 1,
                    v@.len() as int,
                ));
                assert(lines_of(rest) == seq![l@] + lines_of(v@.subrange(e + 1, v@.len() as int)));
            }
            out.push(l);
            proof {
                assert(char_views(out@) == char_views(old_out).push(l@));
                assert(char_views(old_out) + (seq![l@] + lines_of(
                    v@.subrange(e + 1, v@.len() as int),
                )) == char_views(out@) + lines_of(v@.subrange(e + 1, v@.len() as int)));
            }
            pos = e + 1;
        }
    }
    proof {
        assert(v@.subrange(pos as int, v@.len() as int).len() == 0);
        assert(char_views(out@) + Seq::<Seq<char>>::empty() == char_views(out@));
    }
    out
}

} // verus!
