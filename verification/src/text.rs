//! Character-level text operations on which the command building and the
//! process matching rest, each stated over `Seq<char>`.

use vstd::prelude::*;

verus! {

/// The view of each string in a sequence.
pub open spec fn views(v: Seq<String>) -> Seq<Seq<char>> {
    v.map_values(|s: String| s@)
}

/// The characters of a string slice, in order.
pub fn chars_of(s: &str) -> (out: Vec<char>)
    ensures
        out@ == s@,
{
    let mut out: Vec<char> = Vec::new();
    for c in it: s.chars()
        invariant
            out@ == it.seq().take(it.index() as int),
            it.seq() == s@,
    {
        out.push(c);
    }
    out
}

/// An owned copy of a string slice.
pub fn owned(s: &str) -> (r: String)
    ensures
        r@ == s@,
{
    s.to_owned()
}

/// Collects characters into an owned string. Trusted: calls std's
/// `String::from_iter` on the characters, which the documentation says builds
/// the string of exactly those characters in order.
#[verifier::external_body]
pub(crate) fn string_from_chars(chars: Vec<char>) -> (s: String)
    ensures
        s@ == chars@,
{
    String::from_iter(chars)
}

/// Appends the characters of `s` to `out`.
pub fn push_str(out: &mut Vec<char>, s: &str)
    ensures
        final(out)@ == old(out)@ + s@,
{
    let cs = chars_of(s);
    let n = cs.len();
    let mut i: usize = 0;
    while i < n
        invariant
            n == cs@.len(),
            cs@ == s@,
            i <= n,
            out@ == old(out)@ + cs@.take(i as int),
        decreases n - i,
    {
        out.push(cs[i]);
        proof {
            assert(cs@.take(i + 1) == cs@.take(i as int).push(cs@[i as int]));
        }
        i = i + 1;
    }
    proof {
        assert(cs@.take(n as int) == cs@);
    }
}

/// The concatenation of two string slices.
pub fn concat2(a: &str, b: &str) -> (r: String)
    ensures
        r@ == a@ + b@,
{
    let mut out: Vec<char> = Vec::new();
    push_str(&mut out, a);
    push_str(&mut out, b);
    string_from_chars(out)
}

/// The concatenation of three string slices.
pub fn concat3(a: &str, b: &str, c: &str) -> (r: String)
    ensures
        r@ == a@ + b@ + c@,
{
    let mut out: Vec<char> = Vec::new();
    push_str(&mut out, a);
    push_str(&mut out, b);
    push_str(&mut out, c);
    string_from_chars(out)
}

/// Whether two string slices hold the same characters.
pub fn same_text(a: &str, b: &str) -> (r: bool)
    ensures
        r == (a@ == b@),
{
    let x = chars_of(a);
    let y = chars_of(b);
    if x.len() != y.len() {
        return false;
    }
    let n = x.len();
    let mut i: usize = 0;
    while i < n
        invariant
            n == x@.len(),
            n == y@.len(),
            x@ == a@,
            y@ == b@,
            i <= n,
            forall|j: int| 0 <= j < i ==> x@[j] == y@[j],
        decreases n - i,
    {
        if x[i] != y[i] {
            return false;
        }
        i = i + 1;
    }
    proof {
        assert(x@ =~= y@);
    }
    true
}

// ---------------------------------------------------------------- whitespace

/// Unicode `White_Space`, the property that `char::is_whitespace` tests.
pub open spec fn is_ws(c: char) -> bool {
    let u = c as u32;
    ||| 0x9 <= u <= 0xd
    ||| u == 0x20
    ||| u == 0x85
    ||| u == 0xa0
    ||| u == 0x1680
    ||| 0x2000 <= u <= 0x200a
    ||| u == 0x2028
    ||| u == 0x2029
    ||| u == 0x202f
    ||| u == 0x205f
    ||| u == 0x3000
}

/// Whether `c` is a whitespace character.
pub fn is_whitespace(c: char) -> (r: bool)
    ensures
        r == is_ws(c),
{
    let u = c as u32;
    (0x9 <= u && u <= 0xd) || u == 0x20 || u == 0x85 || u == 0xa0 || u == 0x1680 || (0x2000
        <= u && u <= 0x200a) || u == 0x2028 || u == 0x2029 || u == 0x202f || u == 0x205f || u
        == 0x3000
}


/// The maximal runs of non-whitespace characters of `s`, in order: what
/// `str::split_whitespace` yields.
pub open spec fn words(s: Seq<char>) -> Seq<Seq<char>>
    decreases s.len(),
{
    if s.len() == 0 {
        seq![]
    } else {
        let prev = words(s.drop_last());
        let c = s.last();
        if is_ws(c) {
            prev
        } else if s.len() >= 2 && !is_ws(s[s.len() - 2]) {
            prev.drop_last().push(prev.last().push(c))
        } else {
            prev.push(seq![c])
        }
    }
}

/// A text that ends in a non-whitespace character has at least one word.
pub proof fn lemma_words_nonempty(s: Seq<char>)
    requires
        s.len() > 0,
        !is_ws(s.last()),
    ensures
        words(s).len() > 0,
    decreases s.len(),
{
    if s.len() >= 2 && !is_ws(s[s.len() - 2]) {
        let t = s.drop_last();
        assert(t.last() == s[s.len() - 2]);
        lemma_words_nonempty(t);
    }
}

/// Words do not straddle a whitespace boundary: after a prefix that is empty
/// or ends in whitespace, the words of the whole are those of the prefix
/// followed by those of the rest.
pub proof fn lemma_words_concat(a: Seq<char>, b: Seq<char>)
    requires
        a.len() == 0 || is_ws(a.last()),
    ensures
        words(a + b) == words(a) + words(b),
    decreases b.len(),
{
    if b.len() == 0 {
        assert(a + b == a);
        assert(words(a) + words(b) == words(a));
    } else {
        let ab = a + b;
        let b1 = b.drop_last();
        assert(ab.drop_last() == a + b1);
        assert(ab.last() == b.last());
        lemma_words_concat(a, b1);
        let c = b.last();
        let wa = words(a);
        let wb1 = words(b1);
        if is_ws(c) {
        } else if b.len() >= 2 && !is_ws(b[b.len() - 2]) {
            assert(ab[ab.len() - 2] == b[b.len() - 2]);
            assert(b1.last() == b[b.len() - 2]);
            lemma_words_nonempty(b1);
            assert((wa + wb1).drop_last() == wa + wb1.drop_last());
            assert((wa + wb1).last() == wb1.last());
            assert(wa + wb1.drop_last().push(wb1.last().push(c)) == (wa + wb1.drop_last()).push(
                wb1.last().push(c),
            ));
        } else {
            if b.len() == 1 {
                assert(b1.len() == 0);
                if a.len() > 0 {
                    assert(ab[ab.len() - 2] == a.last());
                } else {
                    assert(ab == b);
                }
            } else {
                assert(ab[ab.len() - 2] == b[b.len() - 2]);
            }
            assert(wa + wb1.push(seq![c]) == (wa + wb1).push(seq![c]));
        }
    }
}

/// The whitespace-separated words of `s`.
pub fn split_whitespace(s: &str) -> (out: Vec<String>)
    ensures
        views(out@) == words(s@),
{
    let cs = chars_of(s);
    let n = cs.len();
    let mut done: Vec<String> = Vec::new();
    let mut cur: Vec<char> = Vec::new();
    let mut i: usize = 0;
    while i < n
        invariant
            n == cs@.len(),
            cs@ == s@,
            i <= n,
            (cur@.len() > 0) == (i > 0 && !is_ws(cs@[i - 1])),
            cur@.len() > 0 ==> words(cs@.take(i as int)) == views(done@).push(cur@),
            cur@.len() == 0 ==> words(cs@.take(i as int)) == views(done@),
        decreases n - i,
    {
        let c = cs[i];
        let ghost t = cs@.take(i + 1);
        proof {
            assert(t.drop_last() == cs@.take(i as int));
            assert(t.last() == c);
            if i > 0 {
                assert(t[t.len() - 2] == cs@[i - 1]);
            }
        }
        if is_whitespace(c) {
            if cur.len() > 0 {
                let ghost before = done@;
                let ghost word = cur@;
                let w = string_from_chars(cur);
                cur = Vec::new();
                done.push(w);
                proof {
                    assert(views(done@) =~= views(before).push(word));
                }
            }
        } else {
            let ghost old_cur = cur@;
            cur.push(c);
            proof {
                if old_cur.len() > 0 {
                    let prev = views(done@).push(old_cur);
                    assert(prev.drop_last() =~= views(done@));
                    assert(prev.last() == old_cur);
                } else {
                    assert(cur@ =~= seq![c]);
                }
            }
        }
        i = i + 1;
    }
    proof {
        assert(cs@.take(n as int) == cs@);
    }
    if cur.len() > 0 {
        let ghost before = done@;
        let ghost word = cur@;
        let w = string_from_chars(cur);
        done.push(w);
        proof {
            assert(views(done@) =~= views(before).push(word));
        }
    }
    done
}

// ---------------------------------------------------------------- substrings

/// `needle` occurs in `haystack` starting at position `i`.
pub open spec fn occurs_at(haystack: Seq<char>, needle: Seq<char>, i: int) -> bool {
    &&& 0 <= i
    &&& i + needle.len() <= haystack.len()
    &&& haystack.subrange(i, i + needle.len()) == needle
}

/// `needle` occurs somewhere in `haystack` (what `str::contains` tests).
pub open spec fn has_substring(haystack: Seq<char>, needle: Seq<char>) -> bool {
    exists|i: int| occurs_at(haystack, needle, i)
}

fn matches_at(h: &Vec<char>, nd: &Vec<char>, i: usize) -> (r: bool)
    requires
        i + nd@.len() <= h@.len(),
    ensures
        r == occurs_at(h@, nd@, i as int),
{
    let m = nd.len();
    let mut k: usize = 0;
    while k < m
        invariant
            m == nd@.len(),
            i + m <= h@.len(),
            h@.len() == h.len(),
            k <= m,
            forall|j: int| 0 <= j < k ==> h@[i + j] == nd@[j],
        decreases m - k,
    {
        if h[i + k] != nd[k] {
            proof {
                assert(h@.subrange(i as int, i + m)[k as int] != nd@[k as int]);
            }
            return false;
        }
        k = k + 1;
    }
    proof {
        assert(h@.subrange(i as int, i + m) =~= nd@);
    }
    true
}

/// Whether `needle` occurs in `haystack`.
pub fn contains_text(haystack: &str, needle: &str) -> (r: bool)
    ensures
        r == has_substring(haystack@, needle@),
{
    let h = chars_of(haystack);
    let nd = chars_of(needle);
    if nd.len() > h.len() {
        proof {
            assert forall|i: int| !occurs_at(h@, nd@, i) by {}
        }
        return false;
    }
    let last = h.len() - nd.len();
    let mut i: usize = 0;
    loop
        invariant
            h@ == haystack@,
            nd@ == needle@,
            last == h@.len() - nd@.len(),
            i <= last,
            forall|j: int| 0 <= j < i ==> !occurs_at(h@, nd@, j),
        decreases last - i,
    {
        if matches_at(&h, &nd, i) {
            return true;
        }
        if i == last {
            proof {
                assert forall|j: int| !occurs_at(h@, nd@, j) by {
                    if 0 <= j && j < i {
                    } else if j == i {
                    } else {
                    }
                }
            }
            return false;
        }
        i = i + 1;
    }
}


// ---------------------------------------------------------------- joining

/// The parts laid end to end with `sep` between neighbours (`[T]::join`).
pub open spec fn join_with(parts: Seq<Seq<char>>, sep: Seq<char>) -> Seq<char>
    decreases parts.len(),
{
    if parts.len() == 0 {
        seq![]
    } else if parts.len() == 1 {
        parts[0]
    } else {
        join_with(parts.drop_last(), sep) + sep + parts.last()
    }
}

/// Joins the parts with `sep` between neighbours.
pub fn join_strings(parts: &Vec<String>, sep: &str) -> (r: String)
    ensures
        r@ == join_with(views(parts@), sep@),
{
    let mut out: Vec<char> = Vec::new();
    let n = parts.len();
    let mut i: usize = 0;
    while i < n
        invariant
            n == parts@.len(),
            i <= n,
            out@ == join_with(views(parts@).take(i as int), sep@),
        decreases n - i,
    {
        let ghost before = views(parts@).take(i as int);
        let ghost after = views(parts@).take(i + 1);
        proof {
            assert(after.drop_last() =~= before);
            assert(after.last() == parts@[i as int]@);
        }
        if i > 0 {
            push_str(&mut out, sep);
        }
        push_str(&mut out, parts[i].as_str());
        proof {
            if i == 0 {
                assert(out@ =~= after[0]);
            }
        }
        i = i + 1;
    }
    proof {
        assert(views(parts@).take(n as int) =~= views(parts@));
    }
    string_from_chars(out)
}

// ---------------------------------------------------------------- trimming

/// `s` without its leading whitespace.
pub open spec fn trim_start(s: Seq<char>) -> Seq<char>
    decreases s.len(),
{
    if s.len() > 0 && is_ws(s[0]) {
        trim_start(s.drop_first())
    } else {
        s
    }
}

/// `s` without its trailing whitespace.
pub open spec fn trim_end(s: Seq<char>) -> Seq<char>
    decreases s.len(),
{
    if s.len() > 0 && is_ws(s.last()) {
        trim_end(s.drop_last())
    } else {
        s
    }
}

/// `s` without leading and trailing whitespace (`str::trim`).
pub open spec fn trim(s: Seq<char>) -> Seq<char> {
    trim_end(trim_start(s))
}

/// The bounds `(lo, hi)` of the trimmed part of `cs`.
fn trim_bounds(cs: &Vec<char>) -> (r: (usize, usize))
    ensures
        r.0 <= r.1 <= cs@.len(),
        cs@.subrange(r.0 as int, r.1 as int) == trim(cs@),
{
    let n = cs.len();
    let mut lo: usize = 0;
    proof {
        assert(cs@.subrange(0, n as int) == cs@);
    }
    while lo < n && is_whitespace(cs[lo])
        invariant
            n == cs@.len(),
            lo <= n,
            trim_start(cs@) == trim_start(cs@.subrange(lo as int, n as int)),
        decreases n - lo,
    {
        proof {
            let t = cs@.subrange(lo as int, n as int);
            assert(t.drop_first() =~= cs@.subrange(lo + 1, n as int));
        }
        lo = lo + 1;
    }
    let ghost t = cs@.subrange(lo as int, n as int);
    proof {
        assert(trim_start(t) == t);
    }
    let mut hi: usize = n;
    while hi > lo && is_whitespace(cs[hi - 1])
        invariant
            n == cs@.len(),
            lo <= hi <= n,
            t == cs@.subrange(lo as int, n as int),
            trim_end(t) == trim_end(cs@.subrange(lo as int, hi as int)),
        decreases hi - lo,
    {
        proof {
            let u = cs@.subrange(lo as int, hi as int);
            assert(u.drop_last() =~= cs@.subrange(lo as int, hi - 1));
            assert(u.last() == cs@[hi - 1]);
        }
        hi = hi - 1;
    }
    proof {
        let u = cs@.subrange(lo as int, hi as int);
        if hi > lo {
            assert(u.last() == cs@[hi - 1]);
        }
        assert(trim_end(u) == u);
    }
    (lo, hi)
}

// ---------------------------------------------------------------- numbers

/// An ASCII decimal digit.
pub open spec fn is_digit(c: char) -> bool {
    48 <= c as u32 <= 57
}

/// The value of a sequence of decimal digits.
pub open spec fn digits_value(d: Seq<char>) -> nat
    decreases d.len(),
{
    if d.len() == 0 {
        0
    } else {
        digits_value(d.drop_last()) * 10 + (d.last() as u32 - 48) as nat
    }
}

/// What `str::parse::<u64>` accepts: an optional `+`, then one or more
/// decimal digits whose value fits in a `u64`.
pub open spec fn parse_u64_spec(s: Seq<char>) -> Option<u64> {
    if s.len() > 0 && s[0] == '+' {
        parse_digits_spec(s.drop_first())
    } else {
        parse_digits_spec(s)
    }
}

/// One or more decimal digits whose value fits in a `u64`, and that value.
pub open spec fn parse_digits_spec(d: Seq<char>) -> Option<u64> {
    if d.len() == 0 || !(forall|i: int| 0 <= i < d.len() ==> is_digit(#[trigger] d[i]))
        || digits_value(d) > u64::MAX {
        None
    } else {
        Some(digits_value(d) as u64)
    }
}

/// A longer run of digits is worth at least as much as its prefix.
pub proof fn lemma_digits_value_prefix(d: Seq<char>, k: int)
    requires
        0 <= k <= d.len(),
        forall|i: int| 0 <= i < d.len() ==> is_digit(#[trigger] d[i]),
    ensures
        digits_value(d) >= digits_value(d.take(k)),
    decreases d.len(),
{
    if k == d.len() {
        assert(d.take(k) == d);
    } else {
        let t = d.drop_last();
        assert(forall|i: int| 0 <= i < t.len() ==> t[i] == d[i]);
        lemma_digits_value_prefix(t, k);
        assert(t.take(k) == d.take(k));
    }
}

/// Parses the digits of `cs[lo..hi]` as `str::parse::<u64>` does.
fn parse_u64_range(cs: &Vec<char>, lo: usize, hi: usize) -> (r: Option<u64>)
    requires
        lo <= hi <= cs@.len(),
    ensures
        r == parse_u64_spec(cs@.subrange(lo as int, hi as int)),
{
    let ghost s = cs@.subrange(lo as int, hi as int);
    let mut start = lo;
    if start < hi && cs[start] == '+' {
        start = start + 1;
    }
    let ghost d = cs@.subrange(start as int, hi as int);
    proof {
        if lo < hi && cs@[lo as int] == '+' {
            assert(s[0] == '+');
            assert(s.drop_first() =~= d);
        } else {
            assert(s =~= d);
        }
    }
    if start == hi {
        return None;
    }
    let mut acc: u64 = 0;
    let mut k: usize = start;
    while k < hi
        invariant
            start <= k <= hi,
            hi <= cs@.len(),
            d == cs@.subrange(start as int, hi as int),
            s == cs@.subrange(lo as int, hi as int),
            parse_u64_spec(s) == parse_digits_spec(d),
            forall|i: int| start <= i < k ==> is_digit(#[trigger] cs@[i]),
            acc == digits_value(cs@.subrange(start as int, k as int)),
        decreases hi - k,
    {
        let c = cs[k];
        let u = c as u32;
        if u < 48 || u > 57 {
            proof {
                assert(!is_digit(d[k - start]));
            }
            return None;
        }
        let ghost next = cs@.subrange(start as int, k + 1);
        proof {
            assert(next.drop_last() =~= cs@.subrange(start as int, k as int));
            assert(next.last() == c);
            assert(next == d.take(k + 1 - start));
        }
        let digit = (u - 48) as u64;
        match acc.checked_mul(10) {
            None => {
                proof {
                    if forall|i: int| 0 <= i < d.len() ==> is_digit(#[trigger] d[i]) {
                        lemma_digits_value_prefix(d, k + 1 - start);
                    }
                }
                return None;
            },
            Some(m) => match m.checked_add(digit) {
                None => {
                    proof {
                        if forall|i: int| 0 <= i < d.len() ==> is_digit(#[trigger] d[i]) {
                            lemma_digits_value_prefix(d, k + 1 - start);
                        }
                    }
                    return None;
                },
                Some(v) => {
                    acc = v;
                },
            },
        }
        k = k + 1;
    }
    proof {
        assert(cs@.subrange(start as int, hi as int) == d);
        assert forall|i: int| 0 <= i < d.len() implies is_digit(#[trigger] d[i]) by {
            assert(d[i] == cs@[start + i]);
        }
    }
    Some(acc)
}

/// The number in `s` once trimmed, as `s.trim().parse::<u64>()` reads it.
pub fn parse_trimmed_u64(s: &str) -> (r: Option<u64>)
    ensures
        r == parse_u64_spec(trim(s@)),
{
    let cs = chars_of(s);
    let (lo, hi) = trim_bounds(&cs);
    parse_u64_range(&cs, lo, hi)
}

/// The character of a decimal digit.
pub open spec fn digit_char(d: nat) -> char {
    (d + 48) as char
}

/// The decimal numeral of `n`, without leading zeros.
pub open spec fn decimal(n: nat) -> Seq<char>
    decreases n,
{
    if n < 10 {
        seq![digit_char(n)]
    } else {
        decimal(n / 10).push(digit_char(n % 10))
    }
}

/// The decimal numeral of `n`, with a `-` before a negative one.
pub open spec fn signed_decimal(n: int) -> Seq<char> {
    if n < 0 {
        seq!['-'] + decimal((-n) as nat)
    } else {
        decimal(n as nat)
    }
}

fn push_decimal(out: &mut Vec<char>, n: u64)
    ensures
        final(out)@ == old(out)@ + decimal(n as nat),
    decreases n,
{
    if n >= 10 {
        push_decimal(out, n / 10);
    }
    let d = (n % 10) as u8;
    let c = (48u8 + d) as char;
    proof {
        assert(c == digit_char((n % 10) as nat));
    }
    out.push(c);
    proof {
        if n < 10 {
            assert(n % 10 == n);
        }
    }
}

/// The decimal numeral of `n`, as `format!("{}", n)` writes it.
pub fn decimal_text(n: u64) -> (r: String)
    ensures
        r@ == decimal(n as nat),
{
    let mut out: Vec<char> = Vec::new();
    push_decimal(&mut out, n);
    string_from_chars(out)
}

/// The decimal numeral of a signed `n`, as `format!("{}", n)` writes it.
pub fn signed_decimal_text(n: i32) -> (r: String)
    ensures
        r@ == signed_decimal(n as int),
{
    let mut out: Vec<char> = Vec::new();
    if n < 0 {
        out.push('-');
        let m = (0i64 - (n as i64)) as u64;
        push_decimal(&mut out, m);
    } else {
        push_decimal(&mut out, n as u64);
    }
    string_from_chars(out)
}


/// A nonempty run of non-whitespace characters is a single word.
pub proof fn lemma_words_single(w: Seq<char>)
    requires
        w.len() > 0,
        forall|i: int| 0 <= i < w.len() ==> !is_ws(#[trigger] w[i]),
    ensures
        words(w) == seq![w],
    decreases w.len(),
{
    let c = w.last();
    let t = w.drop_last();
    assert(!is_ws(w[w.len() - 1]));
    if w.len() == 1 {
        assert(t.len() == 0);
        assert(words(t) =~= Seq::<Seq<char>>::empty());
        assert(words(w) == words(t).push(seq![c]));
        assert(w =~= seq![c]);
        assert(words(w) =~= seq![w]);
    } else {
        assert(forall|i: int| 0 <= i < t.len() ==> t[i] == w[i]);
        lemma_words_single(t);
        assert(!is_ws(w[w.len() - 2]));
        assert(w[w.len() - 2] == t.last());
        assert(words(w) == words(t).drop_last().push(words(t).last().push(c)));
        assert(t.push(c) =~= w);
        assert(words(w) =~= seq![w]);
    }
}

/// Trailing whitespace adds no word.
pub proof fn lemma_words_push_ws(a: Seq<char>, c: char)
    requires
        is_ws(c),
    ensures
        words(a.push(c)) == words(a),
{
    assert(a.push(c).drop_last() =~= a);
}


/// Some character of `s` is whitespace.
pub open spec fn has_ws(s: Seq<char>) -> bool {
    exists|i: int| 0 <= i < s.len() && is_ws(#[trigger] s[i])
}

/// Whether `s` holds a whitespace character.
pub fn contains_whitespace(s: &str) -> (r: bool)
    ensures
        r == has_ws(s@),
{
    let cs = chars_of(s);
    let n = cs.len();
    let mut i: usize = 0;
    while i < n
        invariant
            n == cs@.len(),
            cs@ == s@,
            i <= n,
            forall|j: int| 0 <= j < i ==> !is_ws(#[trigger] cs@[j]),
        decreases n - i,
    {
        if is_whitespace(cs[i]) {
            return true;
        }
        i = i + 1;
    }
    false
}

/// The text before the first tab (all of `s` when it holds none): the first
/// field as `cut -f1` takes it.
pub open spec fn first_field(s: Seq<char>) -> Seq<char>
    decreases s.len(),
{
    if s.len() == 0 {
        s
    } else if s[0] == '\t' {
        seq![]
    } else {
        seq![s[0]] + first_field(s.drop_first())
    }
}

proof fn lemma_first_field(s: Seq<char>, k: int)
    requires
        0 <= k <= s.len(),
        forall|j: int| 0 <= j < k ==> s[j] != '\t',
        k == s.len() || s[k] == '\t',
    ensures
        first_field(s) == s.take(k),
    decreases s.len(),
{
    if s.len() == 0 {
        assert(s.take(k) =~= s);
    } else if k == 0 {
        assert(s.take(0) =~= Seq::<char>::empty());
    } else {
        let t = s.drop_first();
        assert forall|j: int| 0 <= j < k - 1 implies t[j] != '\t' by {
            assert(t[j] == s[j + 1]);
        }
        if k < s.len() {
            assert(t[k - 1] == s[k]);
        }
        lemma_first_field(t, k - 1);
        assert(seq![s[0]] + t.take(k - 1) =~= s.take(k));
    }
}

/// The number in the first tab-separated field of `s`, once trimmed.
pub fn parse_first_field_u64(s: &str) -> (r: Option<u64>)
    ensures
        r == parse_u64_spec(trim(first_field(s@))),
{
    let cs = chars_of(s);
    let n = cs.len();
    let mut field: Vec<char> = Vec::new();
    let mut k: usize = 0;
    while k < n && cs[k] != '\t'
        invariant
            n == cs@.len(),
            cs@ == s@,
            k <= n,
            field@ == cs@.take(k as int),
            forall|j: int| 0 <= j < k ==> cs@[j] != '\t',
        decreases n - k,
    {
        field.push(cs[k]);
        proof {
            assert(cs@.take(k + 1) =~= cs@.take(k as int).push(cs@[k as int]));
        }
        k = k + 1;
    }
    proof {
        lemma_first_field(cs@, k as int);
    }
    let (lo, hi) = trim_bounds(&field);
    parse_u64_range(&field, lo, hi)
}

} // verus!
