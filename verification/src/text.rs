//! Character-level helpers on strings: substring search, literal comparison
//! and decimal parsing, each with its mathematical definition.
use vstd::prelude::*;

verus! {

broadcast use vstd::string::group_string_axioms;

/// `p` occurs somewhere in `s` as a contiguous run of characters.
pub open spec fn has_infix(s: Seq<char>, p: Seq<char>) -> bool {
    exists|i: int| 0 <= i && i + p.len() <= s.len() && #[trigger] s.subrange(i, i + p.len()) == p
}

/// Every character of `d` is an ASCII decimal digit.
pub open spec fn all_digits(d: Seq<char>) -> bool {
    forall|i: int| 0 <= i < d.len() ==> '0' <= #[trigger] d[i] <= '9'
}

/// The number that the decimal digits `d` denote (most significant first).
pub open spec fn digits_value(d: Seq<char>) -> nat
    decreases d.len(),
{
    if d.len() == 0 {
        0
    } else {
        digits_value(d.drop_last()) * 10 + ((d.last() as nat) - ('0' as nat)) as nat
    }
}

/// The digits that follow an optional leading `+`.
pub open spec fn unsigned_digits(s: Seq<char>) -> Seq<char> {
    if s.len() > 0 && s[0] == '+' {
        s.drop_first()
    } else {
        s
    }
}

/// What reading `s` as an unsigned 32-bit decimal gives: an optional `+`,
/// then at least one digit, and a value that fits in `u32`.
pub open spec fn parsed_u32(s: Seq<char>) -> Option<u32> {
    let d = unsigned_digits(s);
    if d.len() > 0 && all_digits(d) && digits_value(d) <= u32::MAX {
        Some(digits_value(d) as u32)
    } else {
        None
    }
}

/// The characters of `s`, in order.
pub fn chars_of(s: &str) -> (r: Vec<char>)
    ensures
        r@ == s@,
{
    let mut r: Vec<char> = Vec::new();
    for c in it: s.chars()
        invariant
            r@ == it.seq().take(it.index()),
            it.seq() == s@,
        ensures
            r@ == it.seq(),
    {
        r.push(c);
    }
    r
}

/// Whether `p` occurs at position `start` of `s`.
pub(crate) fn occurs_at(s: &Vec<char>, p: &Vec<char>, start: usize) -> (r: bool)
    requires
        start + p@.len() <= s@.len(),
    ensures
        r == (s@.subrange(start as int, start + p@.len()) == p@),
{
    let mut j: usize = 0;
    while j < p.len()
        invariant
            start + p@.len() <= s.len(),
            j <= p@.len(),
            forall|k: int| 0 <= k < j ==> s@[start + k] == p@[k],
        decreases p@.len() - j,
    {
        if s[start + j] != p[j] {
            assert(s@.subrange(start as int, start + p@.len())[j as int] != p@[j as int]);
            return false;
        }
        j = j + 1;
    }
    assert(s@.subrange(start as int, start + p@.len()) =~= p@);
    true
}

/// Whether `pattern` occurs in `text`.
pub fn contains_str(text: &str, pattern: &str) -> (r: bool)
    ensures
        r == has_infix(text@, pattern@),
{
    let s = chars_of(text);
    let p = chars_of(pattern);
    if p.len() > s.len() {
        return false;
    }
    let last: usize = s.len() - p.len();
    let mut i: usize = 0;
    while i < last
        invariant
            s@ == text@,
            p@ == pattern@,
            last == s@.len() - p@.len(),
            p@.len() <= s@.len(),
            i <= last,
            forall|k: int|
                0 <= k < i ==> #[trigger] s@.subrange(k, k + p@.len()) != p@,
        decreases last - i,
    {
        if occurs_at(&s, &p, i) {
            return true;
        }
        i = i + 1;
    }
    let found = occurs_at(&s, &p, last);
    if !found {
        assert forall|k: int| 0 <= k && k + p@.len() <= s@.len() implies #[trigger] s@.subrange(
            k,
            k + p@.len(),
        ) != p@ by {
            if k < last {
                assert(k < i);
            }
        }
    }
    found
}

/// Whether two strings hold the same characters.
pub fn str_equals(a: &str, b: &str) -> (r: bool)
    ensures
        r == (a@ == b@),
{
    let x = chars_of(a);
    let y = chars_of(b);
    if x.len() != y.len() {
        return false;
    }
    let mut i: usize = 0;
    while i < x.len()
        invariant
            x@ == a@,
            y@ == b@,
            x@.len() == y@.len(),
            i <= x@.len(),
            forall|k: int| 0 <= k < i ==> x@[k] == y@[k],
        decreases x@.len() - i,
    {
        if x[i] != y[i] {
            return false;
        }
        i = i + 1;
    }
    assert(x@ =~= y@);
    true
}

proof fn lemma_digits_value_push(d: Seq<char>, c: char)
    ensures
        digits_value(d.push(c)) == digits_value(d) * 10 + ((c as nat) - ('0' as nat)) as nat,
{
    assert(d.push(c).drop_last() =~= d);
}

/// Reads `s` as an unsigned 32-bit decimal number, as `str::parse::<u32>` does.
pub fn parse_u32(s: &str) -> (r: Option<u32>)
    ensures
        r == parsed_u32(s@),
{
    let chars = chars_of(s);
    let mut start: usize = 0;
    if chars.len() > 0 && chars[0] == '+' {
        start = 1;
    }
    let ghost d = unsigned_digits(s@);
    assert(d =~= chars@.subrange(start as int, chars@.len() as int));
    if start == chars.len() {
        return None;
    }
    let mut value: u64 = 0;
    let mut i: usize = start;
    while i < chars.len()
        invariant
            chars@ == s@,
            d == chars@.subrange(start as int, chars@.len() as int),
            d == unsigned_digits(s@),
            start <= i <= chars@.len(),
            all_digits(chars@.subrange(start as int, i as int)),
            value == digits_value(chars@.subrange(start as int, i as int)),
            value <= u32::MAX,
        decreases chars@.len() - i,
    {
        let c = chars[i];
        let ghost prefix = chars@.subrange(start as int, i as int);
        assert(chars@.subrange(start as int, i + 1) =~= prefix.push(c));
        assert(d[i - start] == c);
        proof {
            lemma_digits_value_push(prefix, c);
        }
        if c < '0' || c > '9' {
            assert(!('0' <= d[i - start] <= '9'));
            assert(!all_digits(d));
            return None;
        }
        let digit: u64 = (c as u64) - ('0' as u64);
        let next: u64 = value * 10 + digit;
        if next > 4294967295u64 {
            proof {
                let n = (i + 1 - start) as int;
                assert(d.subrange(0, n) =~= chars@.subrange(start as int, i + 1));
                assert(all_digits(prefix.push(c)));
                lemma_digits_value_prefix_bound(d, n);
            }
            return None;
        }
        value = next;
        i = i + 1;
    }
    assert(chars@.subrange(start as int, i as int) =~= d);
    Some(value as u32)
}

/// The value of a prefix of a digit string never exceeds the value of the whole.
proof fn lemma_digits_value_prefix_bound(d: Seq<char>, n: int)
    requires
        0 <= n <= d.len(),
        all_digits(d.subrange(0, n)),
    ensures
        all_digits(d) ==> digits_value(d.subrange(0, n)) <= digits_value(d),
    decreases d.len() - n,
{
    if n < d.len() && all_digits(d) {
        lemma_digits_value_prefix_bound(d, n + 1);
        let pre = d.subrange(0, n);
        assert(d.subrange(0, n + 1) =~= pre.push(d[n]));
        lemma_digits_value_push(pre, d[n]);
    } else if n == d.len() {
        assert(d.subrange(0, n) =~= d);
    }
}

/// The decimal digit `d` (for `d` below ten).
pub open spec fn digit_char(d: nat) -> char {
    seq!['0', '1', '2', '3', '4', '5', '6', '7', '8', '9'][d as int]
}

/// The decimal notation of `n`, without leading zeros.
pub open spec fn decimal(n: nat) -> Seq<char>
    decreases n,
{
    if n < 10 {
        seq![digit_char(n)]
    } else {
        decimal(n / 10).push(digit_char(n % 10))
    }
}

/// `s` with every occurrence of the nonempty `from` replaced by `to`, the
/// occurrences taken from the left without overlap.
pub open spec fn replaced(s: Seq<char>, from: Seq<char>, to: Seq<char>) -> Seq<char>
    decreases s.len(),
{
    if from.len() == 0 || s.len() < from.len() {
        s
    } else if s.subrange(0, from.len() as int) == from {
        to + replaced(s.subrange(from.len() as int, s.len() as int), from, to)
    } else {
        seq![s[0]] + replaced(s.drop_first(), from, to)
    }
}

/// The decimal notation of `n`, as `n.to_string()` writes it.
pub fn decimal_string(n: u16) -> (r: String)
    ensures
        r@ == decimal(n as nat),
    decreases n,
{
    let digits = "0123456789";
    proof {
        reveal_strlit("0123456789");
    }
    assert(digits@ =~= seq!['0', '1', '2', '3', '4', '5', '6', '7', '8', '9']);
    if n < 10 {
        let d: usize = n as usize;
        let r = String::from_str(digits.substring_char(d, d + 1));
        assert(r@ =~= decimal(n as nat));
        r
    } else {
        let mut r = decimal_string(n / 10);
        let d: usize = (n % 10) as usize;
        r.append(digits.substring_char(d, d + 1));
        assert(r@ =~= decimal(n as nat));
        r
    }
}

/// `text` with every occurrence of the nonempty `from` replaced by `to`, as
/// `str::replace` does.
pub fn replace_all(text: &str, from: &str, to: &str) -> (r: String)
    requires
        from@.len() > 0,
    ensures
        r@ == replaced(text@, from@, to@),
{
    let s = chars_of(text);
    let p = chars_of(from);
    let n: usize = s.len();
    let m: usize = p.len();
    let mut out = String::from_str("");
    proof {
        reveal_strlit("");
    }
    let mut i: usize = 0;
    assert(s@.subrange(0, n as int) =~= s@);
    while m <= n - i
        invariant
            s@ == text@,
            p@ == from@,
            n == s@.len(),
            m == p@.len(),
            m > 0,
            i <= n,
            replaced(text@, from@, to@) == out@ + replaced(s@.subrange(i as int, n as int), from@, to@),
        decreases n - i,
    {
        let ghost rest = s@.subrange(i as int, n as int);
        assert(rest.subrange(0, m as int) =~= s@.subrange(i as int, i + m));
        let ghost before = out@;
        if occurs_at(&s, &p, i) {
            let ghost next = s@.subrange(i + m, n as int);
            assert(rest.subrange(m as int, rest.len() as int) =~= next);
            out.append(to);
            assert(before + (to@ + replaced(next, from@, to@)) =~= out@ + replaced(next, from@, to@));
            i = i + m;
        } else {
            let ghost next = s@.subrange(i + 1, n as int);
            assert(rest.drop_first() =~= next);
            out.append(text.substring_char(i, i + 1));
            assert(text@.subrange(i as int, i + 1) =~= seq![rest[0]]);
            assert(before + (seq![rest[0]] + replaced(next, from@, to@)) =~= out@ + replaced(next, from@, to@));
            i = i + 1;
        }
    }
    let ghost before = out@;
    out.append(text.substring_char(i, n));
    assert(text@.subrange(i as int, n as int) =~= s@.subrange(i as int, n as int));
    out
}

} // verus!
