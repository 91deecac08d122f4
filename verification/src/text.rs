//! Character-level string helpers shared by the parsers and formatters.
use vstd::prelude::*;

verus! {

/// Appends `c` to `s`.
///
/// Trusted: calls `String::push`, which std documents as appending the given `char` to the end
/// of the string; the contract says exactly that of the string's characters.
#[verifier::external_body]
pub(crate) fn push_char(s: &mut String, c: char)
    ensures
        final(s)@ == old(s)@.push(c),
{
    s.push(c);
}

/// The characters of `s`, in order.
pub(crate) fn chars_of(s: &str) -> (v: Vec<char>)
    ensures
        v@ == s@,
{
    let mut v: Vec<char> = Vec::new();
    for c in it: s.chars()
        invariant
            v@ == it.seq().take(it.index() as int),
    {
        v.push(c);
    }
    v
}


/// Whether `c` is whitespace: the Unicode `White_Space` characters (those `char::is_whitespace`
/// accepts).
pub open spec fn is_ws(c: char) -> bool {
    let u = c as u32;
    (0x09 <= u <= 0x0D) || u == 0x20 || u == 0x85 || u == 0xA0 || u == 0x1680 || (0x2000 <= u
        <= 0x200A) || u == 0x2028 || u == 0x2029 || u == 0x202F || u == 0x205F || u == 0x3000
}

/// Whether `c` is whitespace (see [`is_ws`]).
pub(crate) fn is_whitespace(c: char) -> (b: bool)
    ensures
        b == is_ws(c),
{
    let u = c as u32;
    (0x09 <= u && u <= 0x0D) || u == 0x20 || u == 0x85 || u == 0xA0 || u == 0x1680 || (0x2000
        <= u && u <= 0x200A) || u == 0x2028 || u == 0x2029 || u == 0x202F || u == 0x205F || u
        == 0x3000
}

/// `i` is where `s`'s leading whitespace ends.
pub open spec fn is_lead(s: Seq<char>, i: int) -> bool {
    &&& 0 <= i <= s.len()
    &&& forall|j: int| 0 <= j < i ==> is_ws(#[trigger] s[j])
    &&& (i == s.len() || !is_ws(s[i]))
}

/// Where `s`'s leading whitespace ends.
pub open spec fn lead(s: Seq<char>) -> int {
    choose|i: int| is_lead(s, i)
}

/// `k` is where `s`'s trailing whitespace begins (never before [`lead`]).
pub open spec fn is_trail(s: Seq<char>, k: int) -> bool {
    &&& lead(s) <= k <= s.len()
    &&& forall|j: int| k <= j < s.len() ==> is_ws(#[trigger] s[j])
    &&& (k == lead(s) || !is_ws(s[k - 1]))
}

/// Where `s`'s trailing whitespace begins.
pub open spec fn trail(s: Seq<char>) -> int {
    choose|k: int| is_trail(s, k)
}

/// `s` without leading and trailing whitespace (what `str::trim` returns).
pub open spec fn trim(s: Seq<char>) -> Seq<char> {
    s.subrange(lead(s), trail(s))
}

/// The leading-whitespace boundary is unique, so [`lead`] is it.
pub proof fn lemma_lead_is(s: Seq<char>, i: int)
    requires
        is_lead(s, i),
    ensures
        lead(s) == i,
{
    let l = lead(s);
    assert(is_lead(s, l));
    if l < i {
        assert(is_ws(s[l]));
    } else if i < l {
        assert(is_ws(s[i]));
    }
}

/// The trailing-whitespace boundary is unique, so [`trail`] is it.
pub proof fn lemma_trail_is(s: Seq<char>, k: int)
    requires
        is_trail(s, k),
    ensures
        trail(s) == k,
{
    let t = trail(s);
    assert(is_trail(s, t));
    if t < k {
        assert(is_ws(s[k - 1]));
    } else if k < t {
        assert(is_ws(s[t - 1]));
    }
}

/// The bounds `(lo, hi)` of `s[from..to]` without its leading and trailing whitespace, as
/// positions in `s`.
pub(crate) fn trim_bounds(s: &[char], from: usize, to: usize) -> (r: (usize, usize))
    requires
        from <= to <= s@.len(),
    ensures
        from <= r.0 <= r.1 <= to,
        r.0 - from == lead(s@.subrange(from as int, to as int)),
        r.1 - from == trail(s@.subrange(from as int, to as int)),
        trim(s@.subrange(from as int, to as int)) == s@.subrange(r.0 as int, r.1 as int),
{
    let ghost sub = s@.subrange(from as int, to as int);
    let mut lo: usize = from;
    while lo < to && is_whitespace(s[lo])
        invariant
            from <= lo <= to <= s@.len(),
            sub == s@.subrange(from as int, to as int),
            forall|j: int| 0 <= j < lo - from ==> is_ws(#[trigger] sub[j]),
        decreases to - lo,
    {
        lo += 1;
    }
    proof {
        lemma_lead_is(sub, lo - from);
    }
    let mut hi: usize = to;
    while hi > lo && is_whitespace(s[hi - 1])
        invariant
            from <= lo <= hi <= to <= s@.len(),
            sub == s@.subrange(from as int, to as int),
            lo - from == lead(sub),
            forall|j: int| hi - from <= j < sub.len() ==> is_ws(#[trigger] sub[j]),
        decreases hi - lo,
    {
        hi -= 1;
    }
    proof {
        lemma_trail_is(sub, hi - from);
        assert(trim(sub) =~= s@.subrange(lo as int, hi as int));
    }
    (lo, hi)
}

/// Whether `s[from..to]` holds exactly the characters of `lit`.
pub(crate) fn range_equals(s: &[char], from: usize, to: usize, lit: &[char]) -> (b: bool)
    requires
        from <= to <= s@.len(),
    ensures
        b == (s@.subrange(from as int, to as int) == lit@),
{
    if to - from != lit.len() {
        return false;
    }
    let mut i: usize = 0;
    while i < lit.len()
        invariant
            from <= to <= s@.len(),
            to - from == lit@.len(),
            i <= lit@.len(),
            forall|j: int| 0 <= j < i ==> s@[from + j] == lit@[j],
        decreases lit.len() - i,
    {
        if s[from + i] != lit[i] {
            return false;
        }
        i += 1;
    }
    assert(s@.subrange(from as int, to as int) =~= lit@);
    true
}

/// `k` is the first position of `c` in `s`.
pub open spec fn is_first(s: Seq<char>, c: char, k: int) -> bool {
    0 <= k < s.len() && s[k] == c && forall|j: int| 0 <= j < k ==> s[j] != c
}

/// The first position of `c` in `s`, if it occurs.
pub open spec fn find(s: Seq<char>, c: char) -> Option<int> {
    if exists|k: int| is_first(s, c, k) {
        Some(choose|k: int| is_first(s, c, k))
    } else {
        None
    }
}

/// A first position is unique, so [`find`] returns it.
pub proof fn lemma_find_is(s: Seq<char>, c: char, k: int)
    requires
        is_first(s, c, k),
    ensures
        find(s, c) == Some(k),
{
    assert(exists|k: int| is_first(s, c, k));
    let f = choose|k: int| is_first(s, c, k);
    assert(is_first(s, c, f));
    if f < k {
        assert(s[f] != c);
    } else if k < f {
        assert(s[k] != c);
    }
}

/// `c` does not occur in `s`, so [`find`] returns `None`.
pub proof fn lemma_find_none(s: Seq<char>, c: char)
    requires
        forall|j: int| 0 <= j < s.len() ==> s[j] != c,
    ensures
        find(s, c) is None,
{
}

/// The first position of `c` in `s[from..to]`, relative to `from`.
pub(crate) fn find_char(s: &[char], from: usize, to: usize, c: char) -> (r: Option<usize>)
    requires
        from <= to <= s@.len(),
    ensures
        match r {
            Some(k) => find(s@.subrange(from as int, to as int), c) == Some(k as int),
            None => find(s@.subrange(from as int, to as int), c) is None,
        },
{
    let ghost sub = s@.subrange(from as int, to as int);
    let mut i: usize = from;
    while i < to
        invariant
            from <= i <= to <= s@.len(),
            sub == s@.subrange(from as int, to as int),
            forall|j: int| 0 <= j < i - from ==> sub[j] != c,
        decreases to - i,
    {
        if s[i] == c {
            proof {
                lemma_find_is(sub, c, i - from);
            }
            return Some(i - from);
        }
        i += 1;
    }
    None
}

/// The ASCII digit for `d < 10`.
pub open spec fn digit_char(d: int) -> char {
    (d + 48) as char
}

/// The decimal digits of `n`, without leading zeros (what `Display` prints for an integer).
pub open spec fn decimal(n: nat) -> Seq<char>
    decreases n,
{
    if n < 10 {
        seq![digit_char(n as int)]
    } else {
        decimal(n / 10).push(digit_char((n % 10) as int))
    }
}

/// Appends the decimal digits of `n` to `s`.
pub(crate) fn push_decimal(s: &mut String, n: u64)
    ensures
        final(s)@ == old(s)@ + decimal(n as nat),
    decreases n,
{
    if n >= 10 {
        push_decimal(s, n / 10);
    }
    let d = (n % 10) as u8;
    push_char(s, (d + 48) as char);
    proof {
        assert(final(s)@ =~= old(s)@ + decimal(n as nat));
    }
}

/// Whether `c` is an ASCII digit.
pub open spec fn is_digit(c: char) -> bool {
    '0' <= c <= '9'
}

/// The value of a string of ASCII digits.
pub open spec fn digits_value(d: Seq<char>) -> nat
    decreases d.len(),
{
    if d.len() == 0 {
        0
    } else {
        digits_value(d.drop_last()) * 10 + ((d.last() as int - 48) as nat)
    }
}

/// `s` without one leading `+`, if it has one.
pub open spec fn unsigned_digits(s: Seq<char>) -> Seq<char> {
    if s.len() > 0 && s[0] == '+' { s.drop_first() } else { s }
}

/// Whether every character of `d` is an ASCII digit.
pub open spec fn all_digits(d: Seq<char>) -> bool {
    forall|j: int| 0 <= j < d.len() ==> is_digit(#[trigger] d[j])
}

/// The unsigned integer `s` spells, as `u64::from_str` reads it: an optional `+`, then one or
/// more ASCII digits, whose value must fit in a `u64`.
pub open spec fn parse_u64_spec(s: Seq<char>) -> Option<u64> {
    let d = unsigned_digits(s);
    if d.len() > 0 && all_digits(d) && digits_value(d) <= u64::MAX {
        Some(digits_value(d) as u64)
    } else {
        None
    }
}

/// Appending digits never decreases the value.
pub proof fn lemma_digits_value_grows(d: Seq<char>, i: int)
    requires
        0 <= i <= d.len(),
        forall|j: int| 0 <= j < d.len() ==> is_digit(#[trigger] d[j]),
    ensures
        digits_value(d.take(i)) <= digits_value(d),
    decreases d.len(),
{
    if i < d.len() {
        assert(d.drop_last().take(i) =~= d.take(i));
        assert forall|j: int| 0 <= j < d.drop_last().len() implies is_digit(
            #[trigger] d.drop_last()[j],
        ) by {
            assert(d.drop_last()[j] == d[j]);
        }
        lemma_digits_value_grows(d.drop_last(), i);
    } else {
        assert(d.take(i) =~= d);
    }
}

/// Parses `s[from..to]` as `u64::from_str` would (see [`parse_u64_spec`]).
pub(crate) fn parse_u64(s: &[char], from: usize, to: usize) -> (r: Option<u64>)
    requires
        from <= to <= s@.len(),
    ensures
        r == parse_u64_spec(s@.subrange(from as int, to as int)),
{
    let ghost sub = s@.subrange(from as int, to as int);
    let mut i = from;
    if i < to && s[i] == '+' {
        i += 1;
    }
    let start = i;
    let ghost d = s@.subrange(start as int, to as int);
    proof {
        if from < to && s@[from as int] == '+' {
            assert(d =~= sub.drop_first());
        } else {
            assert(d =~= sub);
        }
    }
    if i == to {
        return None;
    }
    let mut v: u64 = 0;
    while i < to
        invariant
            from <= start <= i <= to <= s@.len(),
            d == s@.subrange(start as int, to as int),
            sub == s@.subrange(from as int, to as int),
            d == unsigned_digits(sub),
            d.len() > 0,
            forall|j: int| 0 <= j < i - start ==> is_digit(#[trigger] d[j]),
            v == digits_value(d.take(i - start)),
        decreases to - i,
    {
        let c = s[i];
        if !('0' <= c && c <= '9') {
            proof {
                assert(!is_digit(d[i - start]));
                assert(!all_digits(d));
            }
            return None;
        }
        let ghost k = (i - start) as int;
        assert(d.take(k + 1).drop_last() =~= d.take(k));
        let dv = (c as u32 - 48) as u64;
        match v.checked_mul(10) {
            Some(w) => match w.checked_add(dv) {
                Some(x) => {
                    v = x;
                },
                None => {
                    proof {
                        lemma_overflow_is_final(d, k + 1);
                    }
                    return None;
                },
            },
            None => {
                proof {
                    assert(v * 10 + dv >= v * 10);
                    lemma_overflow_is_final(d, k + 1);
                }
                return None;
            },
        }
        i += 1;
    }
    assert(d.take(d.len() as int) =~= d);
    Some(v)
}

/// Once a prefix's value exceeds `u64::MAX`, the whole string either holds a non-digit or has
/// a value that does too: parsing fails either way.
proof fn lemma_overflow_is_final(d: Seq<char>, k: int)
    requires
        0 <= k <= d.len(),
        digits_value(d.take(k)) > u64::MAX,
    ensures
        all_digits(d) ==> digits_value(d) > u64::MAX,
{
    if all_digits(d) {
        lemma_digits_value_grows(d, k);
    }
}

} // verus!
