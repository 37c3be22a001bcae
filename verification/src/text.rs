//! Small verified text utilities: Unicode blank detection, character
//! counting and decimal rendering of integers.

use vstd::prelude::*;

verus! {

/// The characters of each string of a list.
pub open spec fn texts(v: Seq<String>) -> Seq<Seq<char>> {
    v.map_values(|s: String| s@)
}

/// Unicode `White_Space` property, the set that `char::is_whitespace`
/// and `str::trim` use.
pub open spec fn is_unicode_whitespace(c: char) -> bool {
    ||| ('\u{9}' <= c && c <= '\u{d}')
    ||| c == ' '
    ||| c == '\u{85}'
    ||| c == '\u{a0}'
    ||| c == '\u{1680}'
    ||| ('\u{2000}' <= c && c <= '\u{200a}')
    ||| c == '\u{2028}'
    ||| c == '\u{2029}'
    ||| c == '\u{202f}'
    ||| c == '\u{205f}'
    ||| c == '\u{3000}'
}

/// A string is blank when trimming it leaves nothing: every character is
/// white space.
pub open spec fn is_blank_spec(s: Seq<char>) -> bool {
    forall|i: int| 0 <= i < s.len() ==> is_unicode_whitespace(#[trigger] s[i])
}

/// Executable form of `is_unicode_whitespace`.
pub fn is_whitespace_char(c: char) -> (b: bool)
    ensures
        b == is_unicode_whitespace(c),
{
    ('\u{9}' <= c && c <= '\u{d}') || c == ' ' || c == '\u{85}' || c == '\u{a0}'
        || c == '\u{1680}' || ('\u{2000}' <= c && c <= '\u{200a}') || c == '\u{2028}'
        || c == '\u{2029}' || c == '\u{202f}' || c == '\u{205f}' || c == '\u{3000}'
}

/// Whether `s.trim().is_empty()`.
pub fn is_blank(s: &str) -> (b: bool)
    ensures
        b == is_blank_spec(s@),
{
    let mut blank = true;
    for c in it: s.chars()
        invariant
            it.seq() == s@,
            blank == (forall|j: int| 0 <= j < it.index() ==> is_unicode_whitespace(#[trigger] s@[j])),
    {
        if !is_whitespace_char(c) {
            blank = false;
        }
    }
    blank
}

/// Number of occurrences of `c` in `s`.
pub open spec fn count_char_spec(s: Seq<char>, c: char) -> nat
    decreases s.len(),
{
    if s.len() == 0 {
        0
    } else {
        count_char_spec(s.drop_last(), c) + if s.last() == c { 1nat } else { 0nat }
    }
}

/// Whether `c` occurs exactly `k` times in `s` (`k < 255`).
pub fn occurs_exactly(s: &str, c: char, k: u8) -> (b: bool)
    requires
        k < 255,
    ensures
        b == (count_char_spec(s@, c) == k),
{
    // `n` counts occurrences so far, saturating one above `k`.
    let mut n: u8 = 0;
    for d in it: s.chars()
        invariant
            it.seq() == s@,
            k < 255,
            n <= k + 1,
            n == k + 1 <==> count_char_spec(s@.take(it.index()), c) > k,
            n <= k ==> n == count_char_spec(s@.take(it.index()), c),
    {
        proof {
            assert(s@.take(it.index() + 1).drop_last() =~= s@.take(it.index()));
        }
        if d == c && n <= k {
            n = n + 1;
        }
    }
    proof {
        assert(s@.take(s@.len() as int) =~= s@);
    }
    n == k
}

/// The decimal digit for `d` (`0 <= d < 10`).
pub open spec fn digit_char(d: nat) -> char {
    if d == 0 { '0' }
    else if d == 1 { '1' }
    else if d == 2 { '2' }
    else if d == 3 { '3' }
    else if d == 4 { '4' }
    else if d == 5 { '5' }
    else if d == 6 { '6' }
    else if d == 7 { '7' }
    else if d == 8 { '8' }
    else { '9' }
}

/// Decimal rendering of a natural number, without leading zeros
/// (`format!("{}", n)`).
pub open spec fn decimal(n: nat) -> Seq<char>
    decreases n,
{
    if n < 10 {
        seq![digit_char(n)]
    } else {
        decimal(n / 10).push(digit_char(n % 10))
    }
}

fn digit_str(d: usize) -> (s: &'static str)
    requires
        d < 10,
    ensures
        s@ == seq![digit_char(d as nat)],
{
    proof {
        reveal_strlit("0");
        reveal_strlit("1");
        reveal_strlit("2");
        reveal_strlit("3");
        reveal_strlit("4");
        reveal_strlit("5");
        reveal_strlit("6");
        reveal_strlit("7");
        reveal_strlit("8");
        reveal_strlit("9");
    }
    if d == 0 { "0" }
    else if d == 1 { "1" }
    else if d == 2 { "2" }
    else if d == 3 { "3" }
    else if d == 4 { "4" }
    else if d == 5 { "5" }
    else if d == 6 { "6" }
    else if d == 7 { "7" }
    else if d == 8 { "8" }
    else { "9" }
}

/// Appends the decimal rendering of `n` to `out`.
pub fn push_decimal(out: &mut String, n: usize)
    ensures
        final(out)@ == old(out)@ + decimal(n as nat),
    decreases n,
{
    if n < 10 {
        out.append(digit_str(n));
    } else {
        push_decimal(out, n / 10);
        out.append(digit_str(n % 10));
    }
}

/// Whether two strings hold the same characters.
pub fn same_text(a: &str, b: &str) -> (r: bool)
    ensures
        r == (a@ == b@),
{
    let x = String::from_str(a);
    let y = String::from_str(b);
    x == y
}

/// `a` followed by `b` followed by `c`.
pub fn concat3(a: &str, b: &str, c: &str) -> (r: String)
    ensures
        r@ == a@ + b@ + c@,
{
    let mut r = String::from_str(a);
    r.append(b);
    r.append(c);
    r
}

/// `a` followed by `b`.
pub fn concat2(a: &str, b: &str) -> (r: String)
    ensures
        r@ == a@ + b@,
{
    let mut r = String::from_str(a);
    r.append(b);
    r
}

/// `prefix`, the decimal rendering of `n`, then `suffix`
/// (`format!("{prefix}{n}{suffix}")`).
pub fn with_number(prefix: &str, n: usize, suffix: &str) -> (r: String)
    ensures
        r@ == prefix@ + decimal(n as nat) + suffix@,
{
    let mut r = String::from_str(prefix);
    push_decimal(&mut r, n);
    r.append(suffix);
    r
}

/// The parts written one after the other, with `sep` between two
/// neighbours (`parts.join(sep)`).
pub open spec fn joined(parts: Seq<Seq<char>>, sep: Seq<char>) -> Seq<char>
    decreases parts.len(),
{
    if parts.len() == 0 {
        seq![]
    } else if parts.len() == 1 {
        parts[0]
    } else {
        joined(parts.drop_last(), sep) + sep + parts.last()
    }
}

/// `parts.join(sep)`.
pub fn join(parts: &Vec<String>, sep: &str) -> (r: String)
    ensures
        r@ == joined(texts(parts@), sep@),
{
    let mut r = String::new();
    for i in 0..parts.len()
        invariant
            r@ == joined(texts(parts@).take(i as int), sep@),
    {
        proof {
            assert(texts(parts@).take(i + 1).drop_last() =~= texts(parts@).take(i as int));
        }
        if i > 0 {
            r.append(sep);
        }
        r.append(parts[i].as_str());
        proof {
            if i == 0 {
                assert(r@ =~= texts(parts@).take(1)[0]);
            }
        }
    }
    proof {
        assert(texts(parts@).take(parts@.len() as int) =~= texts(parts@));
    }
    r
}

// ── Ordering of strings ───────────────────────────────────────────────────

/// Lexicographic order of strings by code point, the order of `str`'s `<`
/// (which compares UTF-8 bytes, and UTF-8 preserves code point order).
pub open spec fn text_less(a: Seq<char>, b: Seq<char>) -> bool
    decreases a.len(),
{
    if a.len() == 0 {
        b.len() > 0
    } else if b.len() == 0 {
        false
    } else if a[0] != b[0] {
        a[0] < b[0]
    } else {
        text_less(a.drop_first(), b.drop_first())
    }
}

/// `text_less` is irreflexive.
pub proof fn lemma_text_less_irreflexive(a: Seq<char>)
    ensures
        !text_less(a, a),
    decreases a.len(),
{
    if a.len() > 0 {
        lemma_text_less_irreflexive(a.drop_first());
    }
}

/// `text_less` is transitive.
pub proof fn lemma_text_less_transitive(a: Seq<char>, b: Seq<char>, c: Seq<char>)
    requires
        text_less(a, b),
        text_less(b, c),
    ensures
        text_less(a, c),
    decreases a.len(),
{
    if a.len() > 0 && b.len() > 0 && c.len() > 0 {
        if a[0] == b[0] && b[0] == c[0] {
            lemma_text_less_transitive(a.drop_first(), b.drop_first(), c.drop_first());
        }
    }
}

/// Two different strings are ordered one way or the other.
pub proof fn lemma_text_less_total(a: Seq<char>, b: Seq<char>)
    requires
        a != b,
    ensures
        text_less(a, b) || text_less(b, a),
    decreases a.len(),
{
    if a.len() > 0 && b.len() > 0 && a[0] == b[0] {
        if a.drop_first() == b.drop_first() {
            assert(a =~= seq![a[0]] + a.drop_first());
            assert(b =~= seq![b[0]] + b.drop_first());
        }
        lemma_text_less_total(a.drop_first(), b.drop_first());
    } else if a.len() == 0 && b.len() == 0 {
        assert(a =~= b);
    }
}

proof fn lemma_text_less_skip(a: Seq<char>, b: Seq<char>, i: int)
    requires
        0 <= i <= a.len(),
        i <= b.len(),
        a.take(i) == b.take(i),
    ensures
        text_less(a, b) == text_less(a.skip(i), b.skip(i)),
    decreases i,
{
    if i > 0 {
        assert(a[0] == a.take(i)[0]);
        assert(b[0] == b.take(i)[0]);
        assert(a.drop_first().take(i - 1) =~= a.take(i).drop_first());
        assert(b.drop_first().take(i - 1) =~= b.take(i).drop_first());
        lemma_text_less_skip(a.drop_first(), b.drop_first(), i - 1);
        assert(a.drop_first().skip(i - 1) =~= a.skip(i));
        assert(b.drop_first().skip(i - 1) =~= b.skip(i));
    } else {
        assert(a.skip(0) =~= a);
        assert(b.skip(0) =~= b);
    }
}

/// The characters of a string, in order.
pub fn chars_of(s: &str) -> (r: Vec<char>)
    ensures
        r@ == s@,
{
    let mut r: Vec<char> = Vec::new();
    for c in it: s.chars()
        invariant
            it.seq() == s@,
            r@ == s@.take(it.index()),
    {
        proof {
            assert(s@.take(it.index() + 1) =~= s@.take(it.index()).push(c));
        }
        r.push(c);
    }
    proof {
        assert(s@.take(s@.len() as int) =~= s@);
    }
    r
}

/// Whether `a` sorts strictly before `b`.
pub fn text_lt(a: &str, b: &str) -> (r: bool)
    ensures
        r == text_less(a@, b@),
{
    let x = chars_of(a);
    let y = chars_of(b);
    let mut i: usize = 0;
    while i < x.len() && i < y.len() && x[i] == y[i]
        invariant
            x@ == a@,
            y@ == b@,
            i <= x@.len(),
            i <= y@.len(),
            x@.take(i as int) == y@.take(i as int),
        decreases x@.len() - i,
    {
        proof {
            assert(x@.take(i + 1) =~= x@.take(i as int).push(x@[i as int]));
            assert(y@.take(i + 1) =~= y@.take(i as int).push(y@[i as int]));
        }
        i = i + 1;
    }
    proof {
        lemma_text_less_skip(a@, b@, i as int);
    }
    if i == x.len() {
        i < y.len()
    } else if i == y.len() {
        false
    } else {
        x[i] < y[i]
    }
}

/// The strings are in strictly increasing order.
pub open spec fn strictly_sorted(v: Seq<Seq<char>>) -> bool {
    forall|i: int, j: int| 0 <= i < j < v.len() ==> text_less(v[i], v[j])
}

/// Two strictly sorted lists that hold the same strings are the same list.
pub proof fn lemma_sorted_unique(a: Seq<Seq<char>>, b: Seq<Seq<char>>)
    requires
        strictly_sorted(a),
        strictly_sorted(b),
        a.to_set() == b.to_set(),
    ensures
        a == b,
    decreases a.len(),
{
    if a.len() == 0 {
        if b.len() > 0 {
            assert(b.to_set().contains(b[0]));
            assert(!a.to_set().contains(b[0]));
        }
        assert(a =~= b);
    } else if b.len() == 0 {
        assert(a.to_set().contains(a[0]));
        assert(!b.to_set().contains(a[0]));
    } else {
        // The first entry of each list is the least string of the set.
        assert(a.to_set().contains(a[0]));
        assert(b.contains(a[0]));
        let j = choose|j: int| 0 <= j < b.len() && b[j] == a[0];
        assert(b.to_set().contains(b[0]));
        assert(a.contains(b[0]));
        let i = choose|i: int| 0 <= i < a.len() && a[i] == b[0];
        if i > 0 && j > 0 {
            lemma_text_less_transitive(a[0], a[i], b[j]);
            lemma_text_less_irreflexive(a[0]);
        }
        if i > 0 && j == 0 {
            lemma_text_less_irreflexive(a[0]);
        }
        if i == 0 && j > 0 {
            lemma_text_less_irreflexive(a[0]);
        }
        let x = a[0];
        let ra = a.drop_first();
        let rb = b.drop_first();
        assert forall|s: Seq<char>| ra.to_set().contains(s) <==> rb.to_set().contains(s) by {
            if ra.contains(s) {
                let k = choose|k: int| 0 <= k < ra.len() && ra[k] == s;
                assert(a[k + 1] == s);
                lemma_text_less_irreflexive(x);
                assert(s != x);
                assert(a.to_set().contains(s));
                assert(b.contains(s));
                let m = choose|m: int| 0 <= m < b.len() && b[m] == s;
                assert(m != 0);
                assert(rb[m - 1] == s);
            }
            if rb.contains(s) {
                let k = choose|k: int| 0 <= k < rb.len() && rb[k] == s;
                assert(b[k + 1] == s);
                lemma_text_less_irreflexive(x);
                assert(s != x);
                assert(b.to_set().contains(s));
                assert(a.contains(s));
                let m = choose|m: int| 0 <= m < a.len() && a[m] == s;
                assert(m != 0);
                assert(ra[m - 1] == s);
            }
        }
        assert(ra.to_set() =~= rb.to_set());
        lemma_sorted_unique(ra, rb);
        assert(a =~= seq![x] + ra);
        assert(b =~= seq![x] + rb);
    }
}

} // verus!
