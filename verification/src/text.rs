//! Character-level text rules shared by the parsers: whitespace, trimming,
//! line splitting and decimal numbers.

use vstd::prelude::*;

verus! {

// ---------------------------------------------------------------------------
// Specifications
// ---------------------------------------------------------------------------

/// The `White_Space` property of Unicode, which `char::is_whitespace` tests.
pub open spec fn spec_is_whitespace(c: char) -> bool {
    ||| ('\u{9}' <= c && c <= '\u{d}')
    ||| c == ' '
    ||| c == '\u{85}'
    ||| c == '\u{a0}'
    ||| c == '\u{1680}'
    ||| ('\u{2000}' <= c && c <= '\u{200a}')
    ||| c == '\u{2028}'
    ||| c == '\u{2029}'
    ||| c == '\u{202f}'
    ||| c == '\u{205f}'
    ||| c == '\u{3000}'
}

/// `s` without its leading white space.
pub open spec fn trim_start(s: Seq<char>) -> Seq<char>
    decreases s.len(),
{
    if s.len() > 0 && spec_is_whitespace(s[0]) {
        trim_start(s.drop_first())
    } else {
        s
    }
}

/// `s` without its trailing white space.
pub open spec fn trim_end(s: Seq<char>) -> Seq<char>
    decreases s.len(),
{
    if s.len() > 0 && spec_is_whitespace(s.last()) {
        trim_end(s.drop_last())
    } else {
        s
    }
}

/// `s` without leading and trailing white space (`str::trim`).
pub open spec fn trim(s: Seq<char>) -> Seq<char> {
    trim_end(trim_start(s))
}

/// Index of the first `c` in `s` at or after `from`; `s.len()` when there is none.
pub open spec fn index_of_from(s: Seq<char>, c: char, from: int) -> int
    decreases s.len() - from,
{
    if from >= s.len() {
        s.len() as int
    } else if s[from] == c {
        from
    } else {
        index_of_from(s, c, from + 1)
    }
}

/// Index of the first `c` in `s`; `s.len()` when there is none.
pub open spec fn index_of(s: Seq<char>, c: char) -> int {
    index_of_from(s, c, 0)
}

/// A line without the carriage return of a `\r\n` terminator.
pub open spec fn strip_cr(line: Seq<char>) -> Seq<char> {
    if line.len() > 0 && line.last() == '\r' {
        line.drop_last()
    } else {
        line
    }
}

/// The lines of `s` from index `start` on, as `str::lines` yields them: split
/// at `\n`, a `\r` right before the `\n` dropped, and no empty line after a
/// final terminator.
pub open spec fn lines_from(s: Seq<char>, start: int) -> Seq<Seq<char>>
    decreases s.len() - start,
{
    if start < 0 || start >= s.len() {
        seq![]
    } else {
        let end = index_of_from(s, '\n', start);
        if end >= s.len() {
            seq![s.subrange(start, s.len() as int)]
        } else {
            proof {
                lemma_index_of_from(s, '\n', start);
            }
            seq![strip_cr(s.subrange(start, end))] + lines_from(s, end + 1)
        }
    }
}

/// The lines of `s` (`str::lines`).
pub open spec fn lines(s: Seq<char>) -> Seq<Seq<char>> {
    lines_from(s, 0)
}

pub open spec fn is_digit(c: char) -> bool {
    '0' <= c && c <= '9'
}

pub open spec fn digit_value(c: char) -> nat {
    (c as int - '0' as int) as nat
}

pub open spec fn all_digits(s: Seq<char>) -> bool {
    forall|i: int| 0 <= i < s.len() ==> is_digit(#[trigger] s[i])
}

/// The number that the decimal digits `s` spell, most significant first.
pub open spec fn digits_value(s: Seq<char>) -> nat
    decreases s.len(),
{
    if s.len() == 0 {
        0
    } else {
        digits_value(s.drop_last()) * 10 + digit_value(s.last())
    }
}

/// What `str::parse` gives for an unsigned integer type whose largest value is
/// `max`: an optional `+` and then one or more ASCII digits, whose value must
/// not exceed `max`; anything else is an error.
pub open spec fn parse_unsigned(s: Seq<char>, max: nat) -> Option<nat> {
    let d = if s.len() > 0 && s[0] == '+' {
        s.drop_first()
    } else {
        s
    };
    if d.len() > 0 && all_digits(d) && digits_value(d) <= max {
        Some(digits_value(d))
    } else {
        None
    }
}

/// `str::parse::<u64>`.
pub open spec fn parse_u64(s: Seq<char>) -> Option<u64> {
    match parse_unsigned(s, u64::MAX as nat) {
        Some(v) => Some(v as u64),
        None => None,
    }
}

/// `str::parse::<u32>`.
pub open spec fn parse_u32(s: Seq<char>) -> Option<u32> {
    match parse_unsigned(s, u32::MAX as nat) {
        Some(v) => Some(v as u32),
        None => None,
    }
}

pub open spec fn digit_char(d: nat) -> char {
    ((d % 10) + '0' as nat) as char
}

/// The decimal representation of `n` (`to_string` of an unsigned integer).
pub open spec fn decimal(n: nat) -> Seq<char>
    decreases n,
{
    if n < 10 {
        seq![digit_char(n)]
    } else {
        decimal(n / 10).push(digit_char(n % 10))
    }
}

/// The first `Some` that `f` gives for one of `ls`, in order
/// (`Iterator::find_map`).
pub open spec fn find_map<T>(ls: Seq<Seq<char>>, f: spec_fn(Seq<char>) -> Option<T>) -> Option<T>
    decreases ls.len(),
{
    if ls.len() == 0 {
        None
    } else {
        match f(ls[0]) {
            Some(x) => Some(x),
            None => find_map(ls.drop_first(), f),
        }
    }
}

/// The pieces of `s` between the separators `sep` from index `start` on
/// (`str::split` with a `char` pattern): `k` separators give `k + 1` pieces.
pub open spec fn split_from(s: Seq<char>, sep: char, start: int) -> Seq<Seq<char>>
    decreases s.len() - start,
{
    if start < 0 || start > s.len() {
        seq![]
    } else {
        let end = index_of_from(s, sep, start);
        if end >= s.len() {
            seq![s.subrange(start, s.len() as int)]
        } else {
            proof {
                lemma_index_of_from(s, sep, start);
            }
            seq![s.subrange(start, end)] + split_from(s, sep, end + 1)
        }
    }
}

/// The pieces of `s` between the separators `sep` (`str::split`).
pub open spec fn split(s: Seq<char>, sep: char) -> Seq<Seq<char>> {
    split_from(s, sep, 0)
}

/// The view of an optional string.
pub open spec fn opt_view(o: Option<String>) -> Option<Seq<char>> {
    match o {
        Some(s) => Some(s@),
        None => None,
    }
}

// ---------------------------------------------------------------------------
// Lemmas
// ---------------------------------------------------------------------------

pub proof fn lemma_index_of_from(s: Seq<char>, c: char, from: int)
    requires
        0 <= from,
    ensures
        from <= index_of_from(s, c, from) <= s.len() || (from > s.len() && index_of_from(s, c, from) == s.len()),
        index_of_from(s, c, from) < s.len() ==> s[index_of_from(s, c, from)] == c,
        forall|j: int| from <= j < index_of_from(s, c, from) && j < s.len() ==> s[j] != c,
    decreases s.len() - from,
{
    if from < s.len() && s[from] != c {
        lemma_index_of_from(s, c, from + 1);
    }
}

/// Characterisation of `index_of_from` by its result.
pub proof fn lemma_index_of_from_is(s: Seq<char>, c: char, from: int, k: int)
    requires
        0 <= from <= k <= s.len(),
        k < s.len() ==> s[k] == c,
        forall|j: int| from <= j < k ==> s[j] != c,
    ensures
        index_of_from(s, c, from) == k,
    decreases k - from,
{
    if from < k {
        lemma_index_of_from_is(s, c, from + 1, k);
    }
}

pub proof fn lemma_trim_start_skip(s: Seq<char>, i: int)
    requires
        0 <= i <= s.len(),
        forall|j: int| 0 <= j < i ==> spec_is_whitespace(#[trigger] s[j]),
        i < s.len() ==> !spec_is_whitespace(s[i]),
    ensures
        trim_start(s) == s.skip(i),
    decreases i,
{
    if i > 0 {
        let t = s.drop_first();
        assert forall|j: int| 0 <= j < i - 1 implies spec_is_whitespace(#[trigger] t[j]) by {
            assert(t[j] == s[j + 1]);
        }
        lemma_trim_start_skip(t, i - 1);
        assert(t.skip(i - 1) =~= s.skip(i));
    } else {
        assert(s.skip(0) =~= s);
    }
}

pub proof fn lemma_trim_end_take(s: Seq<char>, k: int)
    requires
        0 <= k <= s.len(),
        forall|j: int| k <= j < s.len() ==> spec_is_whitespace(#[trigger] s[j]),
        k > 0 ==> !spec_is_whitespace(s[k - 1]),
    ensures
        trim_end(s) == s.take(k),
    decreases s.len() - k,
{
    if k < s.len() {
        let t = s.drop_last();
        lemma_trim_end_take(t, k);
        assert(t.take(k) =~= s.take(k));
    } else {
        assert(s.take(k) =~= s);
    }
}

pub proof fn lemma_digits_value_prefix(s: Seq<char>, k: int)
    requires
        0 <= k <= s.len(),
    ensures
        digits_value(s.take(k)) <= digits_value(s),
    decreases s.len() - k,
{
    if k < s.len() {
        lemma_digits_value_prefix(s.drop_last(), k);
        assert(s.drop_last().take(k) =~= s.take(k));
    } else {
        assert(s.take(k) =~= s);
    }
}

pub proof fn lemma_decimal(n: nat)
    ensures
        decimal(n).len() > 0,
        all_digits(decimal(n)),
        digits_value(decimal(n)) == n,
        decimal(n)[0] != '+',
    decreases n,
{
    assert(digit_value(digit_char(n % 10)) == n % 10);
    if n >= 10 {
        lemma_decimal(n / 10);
        assert(n == (n / 10) * 10 + n % 10);
        let d = decimal(n);
        assert(d.drop_last() =~= decimal(n / 10));
        assert forall|i: int| 0 <= i < d.len() implies is_digit(#[trigger] d[i]) by {
            if i < d.len() - 1 {
                assert(d[i] == decimal(n / 10)[i]);
            }
        }
        assert(d.last() == digit_char(n % 10));
        assert(digits_value(d) == digits_value(d.drop_last()) * 10 + digit_value(d.last()));
    } else {
        let d = decimal(n);
        assert(d.drop_last() =~= Seq::<char>::empty());
        assert(digits_value(d.drop_last()) == 0);
        assert(n % 10 == n);
    }
}

/// Reading back the decimal representation of a number gives the number.
pub proof fn lemma_parse_decimal(n: nat, max: nat)
    requires
        n <= max,
    ensures
        parse_unsigned(decimal(n), max) == Some(n),
{
    lemma_decimal(n);
}

pub proof fn lemma_find_map_cons<T>(l: Seq<char>, rest: Seq<Seq<char>>, f: spec_fn(Seq<char>) -> Option<T>)
    ensures
        find_map(seq![l] + rest, f) == (match f(l) {
            Some(x) => Some(x),
            None => find_map(rest, f),
        }),
{
    let ls = seq![l] + rest;
    assert(ls[0] == l);
    assert(ls.drop_first() =~= rest);
}

pub proof fn lemma_contains_cons(x: Seq<char>, rest: Seq<Seq<char>>, m: Seq<char>)
    ensures
        (seq![x] + rest).contains(m) <==> (x == m || rest.contains(m)),
{
    let ls = seq![x] + rest;
    if x == m {
        assert(ls[0] == m);
    }
    if rest.contains(m) {
        let k = choose|k: int| 0 <= k < rest.len() && rest[k] == m;
        assert(ls[k + 1] == m);
    }
    if ls.contains(m) {
        let k = choose|k: int| 0 <= k < ls.len() && ls[k] == m;
        if k > 0 {
            assert(rest[k - 1] == m);
        }
    }
}

// ---------------------------------------------------------------------------
// Executable helpers
// ---------------------------------------------------------------------------

/// Whether `c` is Unicode white space.
pub fn is_whitespace(c: char) -> (b: bool)
    ensures
        b == spec_is_whitespace(c),
{
    ('\u{9}' <= c && c <= '\u{d}') || c == ' ' || c == '\u{85}' || c == '\u{a0}' || c
        == '\u{1680}' || ('\u{2000}' <= c && c <= '\u{200a}') || c == '\u{2028}' || c
        == '\u{2029}' || c == '\u{202f}' || c == '\u{205f}' || c == '\u{3000}'
}

/// The characters of `s`, in order.
pub fn chars_of(s: &str) -> (v: Vec<char>)
    ensures
        v@ == s@,
{
    broadcast use vstd::string::group_string_axioms;

    let mut v: Vec<char> = Vec::new();
    for c in it: s.chars()
        invariant
            v@ == it.seq().take(it.index() as int),
            it.seq() == s@,
    {
        v.push(c);
    }
    v
}

/// Appends `c` to `s` (`String::push`).
#[verifier::external_body]
pub fn push_char(s: &mut String, c: char)
    ensures
        final(s)@ == old(s)@.push(c),
{
    s.push(c);
}

/// A string holding `v[lo..hi]`.
pub fn string_from_range(v: &Vec<char>, lo: usize, hi: usize) -> (s: String)
    requires
        lo <= hi <= v@.len(),
    ensures
        s@ == v@.subrange(lo as int, hi as int),
{
    let mut s = String::new();
    let mut i = lo;
    while i < hi
        invariant
            lo <= i <= hi <= v@.len(),
            s@ == v@.subrange(lo as int, i as int),
        decreases hi - i,
    {
        push_char(&mut s, v[i]);
        i += 1;
        assert(s@ =~= v@.subrange(lo as int, i as int));
    }
    s
}

/// Whether `v[lo..hi]` spells exactly `word`.
pub fn range_equals(v: &Vec<char>, lo: usize, hi: usize, word: &str) -> (b: bool)
    requires
        lo <= hi <= v@.len(),
    ensures
        b == (v@.subrange(lo as int, hi as int) == word@),
{
    let w = chars_of(word);
    if hi - lo != w.len() {
        assert(v@.subrange(lo as int, hi as int).len() != word@.len());
        return false;
    }
    let mut i: usize = 0;
    while i < w.len()
        invariant
            lo <= hi <= v@.len(),
            hi - lo == w@.len(),
            w@ == word@,
            i <= w@.len(),
            forall|j: int| 0 <= j < i ==> v@[lo + j] == w@[j],
        decreases w@.len() - i,
    {
        if v[lo + i] != w[i] {
            assert(v@.subrange(lo as int, hi as int)[i as int] != word@[i as int]);
            return false;
        }
        i += 1;
    }
    assert(v@.subrange(lo as int, hi as int) =~= word@);
    true
}

/// Index of the first `c` in `v[from..hi]`, or `hi` when there is none.
pub fn find_char(v: &Vec<char>, c: char, from: usize, hi: usize) -> (k: usize)
    requires
        from <= hi <= v@.len(),
    ensures
        index_of_from(v@.subrange(0, hi as int), c, from as int) == k,
        from <= k <= hi,
{
    let mut k = from;
    while k < hi && v[k] != c
        invariant
            from <= k <= hi <= v@.len(),
            forall|j: int| from <= j < k ==> v@[j] != c,
        decreases hi - k,
    {
        k += 1;
    }
    proof {
        let s = v@.subrange(0, hi as int);
        assert forall|j: int| from <= j < k implies s[j] != c by {
            assert(s[j] == v@[j]);
        }
        lemma_index_of_from_is(s, c, from as int, k as int);
    }
    k
}

/// The bounds of `v[lo..hi]` with leading and trailing white space removed.
pub fn trim_range(v: &Vec<char>, lo: usize, hi: usize) -> (r: (usize, usize))
    requires
        lo <= hi <= v@.len(),
    ensures
        lo <= r.0 <= r.1 <= hi,
        v@.subrange(r.0 as int, r.1 as int) == trim(v@.subrange(lo as int, hi as int)),
{
    let ghost s = v@.subrange(lo as int, hi as int);
    let mut a = lo;
    while a < hi && is_whitespace(v[a])
        invariant
            lo <= a <= hi <= v@.len(),
            forall|j: int| lo <= j < a ==> spec_is_whitespace(v@[j]),
        decreases hi - a,
    {
        a += 1;
    }
    proof {
        assert forall|j: int| 0 <= j < a - lo implies spec_is_whitespace(#[trigger] s[j]) by {
            assert(s[j] == v@[lo + j]);
        }
        lemma_trim_start_skip(s, a - lo);
    }
    let mut b = hi;
    while b > a && is_whitespace(v[b - 1])
        invariant
            lo <= a <= b <= hi <= v@.len(),
            forall|j: int| b <= j < hi ==> spec_is_whitespace(v@[j]),
        decreases b - a,
    {
        b -= 1;
    }
    proof {
        let t = s.skip(a - lo);
        assert(t =~= v@.subrange(a as int, hi as int));
        assert forall|j: int| b - a <= j < t.len() implies spec_is_whitespace(#[trigger] t[j]) by {
            assert(t[j] == v@[a + j]);
        }
        lemma_trim_end_take(t, b - a);
        assert(t.take(b - a) =~= v@.subrange(a as int, b as int));
    }
    (a, b)
}

/// Parses `v[lo..hi]` as an unsigned integer no larger than `max`.
pub fn parse_unsigned_range(v: &Vec<char>, lo: usize, hi: usize, max: u64) -> (r: Option<u64>)
    requires
        lo <= hi <= v@.len(),
    ensures
        r == (match parse_unsigned(v@.subrange(lo as int, hi as int), max as nat) {
            Some(n) => Some(n as u64),
            None => None::<u64>,
        }),
{
    let ghost s = v@.subrange(lo as int, hi as int);
    let start = if lo < hi && v[lo] == '+' {
        lo + 1
    } else {
        lo
    };
    let ghost d = v@.subrange(start as int, hi as int);
    assert(d =~= (if s.len() > 0 && s[0] == '+' {
        s.drop_first()
    } else {
        s
    }));
    if start == hi {
        return None;
    }
    let mut acc: u64 = 0;
    let mut i = start;
    while i < hi
        invariant
            lo <= start < hi <= v@.len(),
            start <= i <= hi,
            s == v@.subrange(lo as int, hi as int),
            d == v@.subrange(start as int, hi as int),
            d == (if s.len() > 0 && s[0] == '+' {
                s.drop_first()
            } else {
                s
            }),
            forall|j: int| start <= j < i ==> is_digit(v@[j]),
            acc as nat == digits_value(v@.subrange(start as int, i as int)),
            acc <= max,
        decreases hi - i,
    {
        let c = v[i];
        if !('0' <= c && c <= '9') {
            assert(!is_digit(d[i - start]));
            return None;
        }
        let dv = (c as u32 - '0' as u32) as u64;
        proof {
            let p = v@.subrange(start as int, i + 1);
            assert(p.drop_last() =~= v@.subrange(start as int, i as int));
            assert(dv == digit_value(c));
        }
        let next = match acc.checked_mul(10) {
            Some(m) => m.checked_add(dv),
            None => None,
        };
        match next {
            Some(n) if n <= max => {
                acc = n;
            },
            _ => {
                proof {
                    let p = v@.subrange(start as int, i + 1);
                    assert(digits_value(p) > max);
                    assert(d.take(i + 1 - start) =~= p);
                    lemma_digits_value_prefix(d, i + 1 - start);
                }
                return None;
            },
        }
        i += 1;
    }
    assert(v@.subrange(start as int, i as int) =~= d);
    assert(all_digits(d)) by {
        assert forall|j: int| 0 <= j < d.len() implies is_digit(#[trigger] d[j]) by {
            assert(d[j] == v@[start + j]);
        }
    }
    Some(acc)
}

/// Appends the decimal representation of `n` to `s`.
pub fn push_decimal(s: &mut String, n: u64)
    ensures
        final(s)@ == old(s)@ + decimal(n as nat),
    decreases n,
{
    if n >= 10 {
        push_decimal(s, n / 10);
    }
    let c = ((n % 10) as u8 + 48u8) as char;
    assert(c == digit_char((n % 10) as nat));
    push_char(s, c);
    proof {
        if n >= 10 {
            assert(old(s)@ + decimal(n as nat) =~= old(s)@ + decimal((n / 10) as nat) + seq![digit_char((n % 10) as nat)]);
        } else {
            assert(old(s)@ + decimal(n as nat) =~= old(s)@ + seq![digit_char(n as nat)]);
        }
    }
}

/// The decimal representation of `n`.
pub fn decimal_string(n: u64) -> (s: String)
    ensures
        s@ == decimal(n as nat),
{
    let mut s = String::new();
    push_decimal(&mut s, n);
    assert(s@ =~= decimal(n as nat));
    s
}

/// The end of the line that starts at `start` and the start of the next one.
pub fn next_line(v: &Vec<char>, start: usize) -> (r: (usize, usize))
    requires
        start < v@.len(),
    ensures
        start <= r.0 <= r.1,
        r.0 <= v@.len(),
        start < r.1 <= v@.len(),
        lines_from(v@, start as int) == seq![v@.subrange(start as int, r.0 as int)] + lines_from(
            v@,
            r.1 as int,
        ),
{
    let n = v.len();
    let e = find_char(v, '\n', start, n);
    assert(v@.subrange(0, n as int) =~= v@);
    if e >= n {
        assert(lines_from(v@, n as int) =~= Seq::<Seq<char>>::empty());
        assert(seq![v@.subrange(start as int, n as int)] + lines_from(v@, n as int) =~= seq![
            v@.subrange(start as int, n as int),
        ]);
        (n, n)
    } else {
        let end = if e > start && v[e - 1] == '\r' {
            e - 1
        } else {
            e
        };
        assert(strip_cr(v@.subrange(start as int, e as int)) =~= v@.subrange(start as int, end as int));
        (end, e + 1)
    }
}

/// The end of the piece of `v` that starts at `start`, split at `sep`, and
/// the start of the next piece when there is one.
pub fn next_piece(v: &Vec<char>, sep: char, start: usize) -> (r: (usize, Option<usize>))
    requires
        start <= v@.len(),
    ensures
        start <= r.0 <= v@.len(),
        r.1 matches Some(n) ==> n == r.0 + 1 && n <= v@.len(),
        split_from(v@, sep, start as int) == seq![v@.subrange(start as int, r.0 as int)] + (match r.1 {
            Some(n) => split_from(v@, sep, n as int),
            None => Seq::<Seq<char>>::empty(),
        }),
{
    let n = v.len();
    let e = find_char(v, sep, start, n);
    assert(v@.subrange(0, n as int) =~= v@);
    if e >= n {
        assert(seq![v@.subrange(start as int, n as int)] + Seq::<Seq<char>>::empty() =~= seq![
            v@.subrange(start as int, n as int),
        ]);
        (e, None)
    } else {
        (e, Some(e + 1))
    }
}

/// A copy of `v[lo..hi]`.
pub fn copy_range(v: &Vec<char>, lo: usize, hi: usize) -> (c: Vec<char>)
    requires
        lo <= hi <= v@.len(),
    ensures
        c@ == v@.subrange(lo as int, hi as int),
{
    let mut c: Vec<char> = Vec::new();
    let mut i = lo;
    while i < hi
        invariant
            lo <= i <= hi <= v@.len(),
            c@ == v@.subrange(lo as int, i as int),
        decreases hi - i,
    {
        c.push(v[i]);
        i += 1;
        assert(c@ =~= v@.subrange(lo as int, i as int));
    }
    c
}

/// Whether `a` and `b` hold the same characters.
pub fn str_equals(a: &str, b: &str) -> (r: bool)
    ensures
        r == (a@ == b@),
{
    let v = chars_of(a);
    assert(v@.subrange(0, v@.len() as int) =~= v@);
    range_equals(&v, 0, v.len(), b)
}

/// An unsigned number may carry a leading `+`, which changes nothing; a
/// leading `-` is always an error.
pub proof fn law_parse_sign(digits: Seq<char>, max: nat)
    requires
        digits.len() > 0,
        is_digit(digits[0]),
    ensures
        parse_unsigned(seq!['+'] + digits, max) == parse_unsigned(digits, max),
        parse_unsigned(seq!['-'] + digits, max) is None,
{
    assert((seq!['+'] + digits).drop_first() =~= digits);
    let m = seq!['-'] + digits;
    assert(m[0] == '-' && !is_digit(m[0]));
}

/// Trimming drops the white space around a text whose ends are not white
/// space, and nothing else.
pub proof fn law_trim_drops_surrounding_space(before: Seq<char>, t: Seq<char>, after: Seq<char>)
    requires
        forall|j: int| 0 <= j < before.len() ==> spec_is_whitespace(#[trigger] before[j]),
        forall|j: int| 0 <= j < after.len() ==> spec_is_whitespace(#[trigger] after[j]),
        t.len() > 0,
        !spec_is_whitespace(t[0]),
        !spec_is_whitespace(t.last()),
    ensures
        trim(before + t + after) == t,
{
    let s = before + t + after;
    assert forall|j: int| 0 <= j < before.len() implies spec_is_whitespace(#[trigger] s[j]) by {
        assert(s[j] == before[j]);
    }
    assert(s[before.len() as int] == t[0]);
    lemma_trim_start_skip(s, before.len() as int);
    let u = s.skip(before.len() as int);
    assert(u =~= t + after);
    assert forall|j: int| t.len() <= j < u.len() implies spec_is_whitespace(#[trigger] u[j]) by {
        assert(u[j] == after[j - t.len()]);
    }
    assert(u[t.len() - 1] == t.last());
    lemma_trim_end_take(u, t.len() as int);
    assert(u.take(t.len() as int) =~= t);
}

} // verus!
