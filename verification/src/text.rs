//! Small verified helpers on strings: decimal rendering and char appends.

use vstd::prelude::*;
use vstd::string::StringSliceAdditionalSpecFns;

verus! {

/// The decimal digit for a value below ten.
pub open spec fn digit_char(d: nat) -> char {
    if d == 0 { '0' }
    else if d == 1 { '1' }
    else if d == 2 { '2' }
    else if d == 3 { '3' }
    else if d == 4 { '4' }
    else if d == 5 { '5' }
    else if d == 6 { '6' }
    else if d == 7 { '7' }
    else if d == 8 { '8' }
    else { '9' }
}

/// The decimal rendering of a natural number, without leading zeros.
pub open spec fn decimal(n: nat) -> Seq<char>
    decreases n,
{
    if n < 10 {
        seq![digit_char(n)]
    } else {
        decimal(n / 10).push(digit_char(n % 10))
    }
}

/// A character is a decimal digit.
pub open spec fn is_digit_char(c: char) -> bool {
    48 <= (c as int) <= 57
}

/// The number that a sequence of decimal digit characters spells.
pub open spec fn digits_number(s: Seq<char>) -> int
    decreases s.len(),
{
    if s.len() == 0 {
        0
    } else {
        digits_number(s.drop_last()) * 10 + ((s.last() as int) - 48)
    }
}

proof fn lemma_digit_char(d: nat)
    requires
        d < 10,
    ensures
        digit_char(d) as int == 48 + d,
{
}

/// The decimal rendering reads back as the number: it is a nonempty run of
/// digits that spells `n`.
pub proof fn lemma_decimal_reads_back(n: nat)
    ensures
        decimal(n).len() >= 1,
        forall|i: int| 0 <= i < decimal(n).len() ==> is_digit_char(#[trigger] decimal(n)[i]),
        digits_number(decimal(n)) == n,
    decreases n,
{
    if n < 10 {
        lemma_digit_char(n);
        assert(decimal(n).drop_last() =~= Seq::<char>::empty());
        assert(decimal(n).last() == digit_char(n));
        assert(digits_number(Seq::<char>::empty()) == 0);
        assert(digits_number(decimal(n)) == digits_number(decimal(n).drop_last()) * 10 + ((decimal(n).last() as int) - 48));
    } else {
        lemma_decimal_reads_back(n / 10);
        lemma_digit_char(n % 10);
        let d = decimal(n);
        assert(d.drop_last() =~= decimal(n / 10));
        assert(d.last() == digit_char(n % 10));
        assert((n / 10) * 10 + n % 10 == n) by (nonlinear_arith);
        assert(digits_number(d) == digits_number(d.drop_last()) * 10 + ((d.last() as int) - 48));
        assert forall|i: int| 0 <= i < d.len() implies is_digit_char(#[trigger] d[i]) by {
            if i < d.len() - 1 {
                assert(d[i] == decimal(n / 10)[i]);
            }
        }
    }
}

fn digit_of(d: u64) -> (c: char)
    requires
        d < 10,
    ensures
        c == digit_char(d as nat),
{
    if d == 0 { '0' }
    else if d == 1 { '1' }
    else if d == 2 { '2' }
    else if d == 3 { '3' }
    else if d == 4 { '4' }
    else if d == 5 { '5' }
    else if d == 6 { '6' }
    else if d == 7 { '7' }
    else if d == 8 { '8' }
    else { '9' }
}

/// Equality of two string slices (`<str as PartialEq>::eq`): true exactly
/// when they hold the same characters.
#[verifier::external_body]
pub(crate) fn str_eq(a: &str, b: &str) -> (r: bool)
    ensures
        r == (a@ == b@),
{
    a == b
}

/// Appends one character to a string (`String::push`).
#[verifier::external_body]
pub(crate) fn push_char(s: &mut String, c: char)
    ensures
        final(s)@ == old(s)@.push(c),
{
    s.push(c);
}

/// Appends the decimal rendering of `n` to `s`.
pub fn push_decimal(s: &mut String, n: u64)
    ensures
        final(s)@ == old(s)@ + decimal(n as nat),
    decreases n,
{
    if n < 10 {
        push_char(s, digit_of(n));
        assert(decimal(n as nat) == seq![digit_char(n as nat)]);
        assert(old(s)@.push(digit_char(n as nat)) =~= old(s)@ + seq![digit_char(n as nat)]);
    } else {
        push_decimal(s, n / 10);
        push_char(s, digit_of(n % 10));
        assert(decimal(n as nat) == decimal((n / 10) as nat).push(digit_char((n % 10) as nat)));
        assert((old(s)@ + decimal((n / 10) as nat)).push(digit_char((n % 10) as nat))
            =~= old(s)@ + decimal(n as nat));
    }
}

/// Appends a string slice to a string.
pub fn push_str(s: &mut String, t: &str)
    ensures
        final(s)@ == old(s)@ + t@,
{
    s.append(t);
}

/// Three-way comparison outcome.
#[derive(Debug, Clone, Copy, PartialEq, Eq, Structural)]
pub enum Order3 {
    Less,
    Equal,
    Greater,
}

/// Lexicographic order of byte sequences (a proper prefix is smaller).
pub open spec fn lex_order(a: Seq<u8>, b: Seq<u8>) -> Order3
    decreases a.len(),
{
    if a.len() == 0 {
        if b.len() == 0 {
            Order3::Equal
        } else {
            Order3::Less
        }
    } else if b.len() == 0 {
        Order3::Greater
    } else if a[0] < b[0] {
        Order3::Less
    } else if a[0] > b[0] {
        Order3::Greater
    } else {
        lex_order(a.drop_first(), b.drop_first())
    }
}

proof fn lemma_lex_order_skip(a: Seq<u8>, b: Seq<u8>, i: int)
    requires
        0 <= i <= a.len(),
        i <= b.len(),
        forall|j: int| 0 <= j < i ==> a[j] == b[j],
    ensures
        lex_order(a, b) == lex_order(a.skip(i), b.skip(i)),
    decreases i,
{
    if i > 0 {
        assert(a.skip(i) =~= a.drop_first().skip(i - 1));
        assert(b.skip(i) =~= b.drop_first().skip(i - 1));
        lemma_lex_order_skip(a.drop_first(), b.drop_first(), i - 1);
    } else {
        assert(a.skip(0) =~= a);
        assert(b.skip(0) =~= b);
    }
}

/// Compares two strings by their UTF-8 bytes, as `str::cmp` orders them.
pub fn compare_strs(a: &str, b: &str) -> (r: Order3)
    ensures
        r == lex_order(a.spec_bytes(), b.spec_bytes()),
{
    let x = a.as_bytes();
    let y = b.as_bytes();
    let mut i: usize = 0;
    while i < x.len() && i < y.len()
        invariant
            x@ == a.spec_bytes(),
            y@ == b.spec_bytes(),
            i <= x.len(),
            i <= y.len(),
            forall|j: int| 0 <= j < i ==> x@[j] == y@[j],
        decreases x.len() - i,
    {
        if x[i] < y[i] {
            proof {
                lemma_lex_order_skip(x@, y@, i as int);
            }
            return Order3::Less;
        }
        if x[i] > y[i] {
            proof {
                lemma_lex_order_skip(x@, y@, i as int);
            }
            return Order3::Greater;
        }
        i = i + 1;
    }
    proof {
        lemma_lex_order_skip(x@, y@, i as int);
    }
    if x.len() == y.len() {
        Order3::Equal
    } else if i == x.len() {
        Order3::Less
    } else {
        Order3::Greater
    }
}

/// Swapping the operands flips the lexicographic order, and only equal
/// sequences compare equal.
pub proof fn lemma_lex_order_flip(a: Seq<u8>, b: Seq<u8>)
    ensures
        lex_order(a, b) == Order3::Less <==> lex_order(b, a) == Order3::Greater,
        lex_order(a, b) == Order3::Equal <==> a == b,
    decreases a.len(),
{
    if a.len() > 0 && b.len() > 0 && a[0] == b[0] {
        lemma_lex_order_flip(a.drop_first(), b.drop_first());
        if a.drop_first() == b.drop_first() {
            assert forall|i: int| 0 <= i < a.len() implies a[i] == b[i] by {
                if i > 0 {
                    assert(a[i] == a.drop_first()[i - 1]);
                    assert(b[i] == b.drop_first()[i - 1]);
                }
            }
            assert(a =~= b);
        }
    }
    if a.len() == 0 && b.len() == 0 {
        assert(a =~= b);
    }
}

/// The lexicographic order is transitive.
pub proof fn lemma_lex_order_trans(a: Seq<u8>, b: Seq<u8>, c: Seq<u8>)
    requires
        lex_order(a, b) == Order3::Less,
        lex_order(b, c) == Order3::Less,
    ensures
        lex_order(a, c) == Order3::Less,
    decreases a.len(),
{
    if a.len() > 0 && b.len() > 0 && c.len() > 0 && a[0] == b[0] && b[0] == c[0] {
        lemma_lex_order_trans(a.drop_first(), b.drop_first(), c.drop_first());
    }
}

/// The rank of a byte in path order: the separator `/` comes before every
/// other byte, the others keep their order.
pub open spec fn path_rank(b: u8) -> u8 {
    if b == 47 {
        0
    } else if b < 47 {
        (b + 1) as u8
    } else {
        b
    }
}

/// The bytes of a path, each replaced by its rank.
pub open spec fn path_ranks(b: Seq<u8>) -> Seq<u8> {
    b.map_values(|x: u8| path_rank(x))
}

/// Order of paths given by their bytes: byte by byte, with `/` lowest. On
/// paths without empty or `.` components it is the order of `Path`, which
/// compares component by component.
pub open spec fn path_order(a: Seq<u8>, b: Seq<u8>) -> Order3 {
    lex_order(path_ranks(a), path_ranks(b))
}

/// Paths compare equal exactly when their bytes are equal.
pub proof fn lemma_path_order_equal(a: Seq<u8>, b: Seq<u8>)
    ensures
        path_order(a, b) == Order3::Equal <==> a == b,
        path_order(a, b) == Order3::Less <==> path_order(b, a) == Order3::Greater,
{
    lemma_lex_order_flip(path_ranks(a), path_ranks(b));
    if path_ranks(a) == path_ranks(b) {
        assert(path_ranks(a).len() == a.len() && path_ranks(b).len() == b.len());
        assert forall|i: int| 0 <= i < a.len() implies a[i] == b[i] by {
            assert(path_ranks(a)[i] == path_rank(a[i]));
            assert(path_ranks(b)[i] == path_rank(b[i]));
        }
        assert(a =~= b);
    }
}

/// Compares two paths by their bytes, with the separator lowest.
pub fn compare_paths(a: &str, b: &str) -> (r: Order3)
    ensures
        r == path_order(a.spec_bytes(), b.spec_bytes()),
{
    let x = a.as_bytes();
    let y = b.as_bytes();
    let ghost px = path_ranks(x@);
    let ghost py = path_ranks(y@);
    let mut i: usize = 0;
    while i < x.len() && i < y.len()
        invariant
            x@ == a.spec_bytes(),
            y@ == b.spec_bytes(),
            px == path_ranks(x@),
            py == path_ranks(y@),
            i <= x.len(),
            i <= y.len(),
            forall|j: int| 0 <= j < i ==> px[j] == py[j],
        decreases x.len() - i,
    {
        let rx: u8 = if x[i] == 47u8 { 0 } else if x[i] < 47u8 { x[i] + 1 } else { x[i] };
        let ry: u8 = if y[i] == 47u8 { 0 } else if y[i] < 47u8 { y[i] + 1 } else { y[i] };
        assert(px[i as int] == rx && py[i as int] == ry);
        if rx < ry {
            proof {
                lemma_lex_order_skip(px, py, i as int);
            }
            return Order3::Less;
        }
        if rx > ry {
            proof {
                lemma_lex_order_skip(px, py, i as int);
            }
            return Order3::Greater;
        }
        i = i + 1;
    }
    proof {
        lemma_lex_order_skip(px, py, i as int);
    }
    if x.len() == y.len() {
        Order3::Equal
    } else if i == x.len() {
        Order3::Less
    } else {
        Order3::Greater
    }
}

/// `p` is a prefix of `s`.
pub open spec fn is_prefix(p: Seq<u8>, s: Seq<u8>) -> bool {
    p.len() <= s.len() && s.take(p.len() as int) == p
}

/// Whether `s` begins with `prefix`, byte for byte (`str::starts_with`).
pub fn starts_with(s: &str, prefix: &str) -> (r: bool)
    ensures
        r == is_prefix(prefix.spec_bytes(), s.spec_bytes()),
{
    let x = s.as_bytes();
    let p = prefix.as_bytes();
    if p.len() > x.len() {
        return false;
    }
    let mut i: usize = 0;
    while i < p.len()
        invariant
            x@ == s.spec_bytes(),
            p@ == prefix.spec_bytes(),
            p.len() <= x.len(),
            i <= p.len(),
            forall|j: int| 0 <= j < i ==> x@[j] == p@[j],
        decreases p.len() - i,
    {
        if x[i] != p[i] {
            assert(x@.take(p.len() as int)[i as int] != p@[i as int]);
            return false;
        }
        i = i + 1;
    }
    assert(x@.take(p.len() as int) =~= p@);
    true
}

/// An ASCII decimal digit.
pub open spec fn is_digit(c: u8) -> bool {
    48 <= c <= 57
}

/// The value of a sequence of decimal digits.
pub open spec fn digits_value(d: Seq<u8>) -> nat
    decreases d.len(),
{
    if d.len() == 0 {
        0
    } else {
        digits_value(d.drop_last()) * 10 + (d.last() - 48) as nat
    }
}

proof fn lemma_digits_value_grows(d: Seq<u8>, k: int)
    requires
        0 <= k <= d.len(),
        forall|i: int| 0 <= i < d.len() ==> is_digit(d[i]),
    ensures
        digits_value(d.take(k)) <= digits_value(d),
    decreases d.len() - k,
{
    if k < d.len() {
        lemma_digits_value_grows(d, k + 1);
        assert(d.take(k + 1).drop_last() =~= d.take(k));
    } else {
        assert(d.take(k) =~= d);
    }
}

/// Every byte is a decimal digit.
pub open spec fn all_digits(d: Seq<u8>) -> bool {
    forall|i: int| 0 <= i < d.len() ==> is_digit(#[trigger] d[i])
}

/// The bytes after an optional leading sign.
pub open spec fn digits_part(b: Seq<u8>) -> Seq<u8> {
    if b.len() > 0 && (b[0] == 45 || b[0] == 43) {
        b.skip(1)
    } else {
        b
    }
}

/// `str::parse::<i32>` on the bytes of a string: an optional `+` or `-`, then
/// at least one ASCII digit, and the value within the range of `i32`.
pub open spec fn parse_i32_bytes(b: Seq<u8>) -> Option<int> {
    let neg = b.len() > 0 && b[0] == 45;
    let d = digits_part(b);
    if d.len() == 0 || !all_digits(d) {
        None
    } else {
        let v: int = if neg { -digits_value(d) } else { digits_value(d) as int };
        if i32::MIN <= v <= i32::MAX {
            Some(v)
        } else {
            None
        }
    }
}

/// Parses the bytes `b[start..end]` as an `i32` the way `str::parse` does.
pub fn parse_i32(b: &[u8], start: usize, end: usize) -> (r: Option<i32>)
    requires
        start <= end <= b@.len(),
    ensures
        match parse_i32_bytes(b@.subrange(start as int, end as int)) {
            Some(v) => r == Some(v as i32),
            None => r is None,
        },
{
    let ghost s = b@.subrange(start as int, end as int);
    if start == end {
        return None;
    }
    assert(s[0] == b@[start as int]);
    let neg = b[start] == 45u8;
    let signed = b[start] == 45u8 || b[start] == 43u8;
    let first: usize = if signed { start + 1 } else { start };
    let ghost d = if signed { s.skip(1) } else { s };
    assert(d =~= b@.subrange(first as int, end as int));
    if first == end {
        return None;
    }
    let limit: u64 = 2147483648;
    let mut acc: u64 = 0;
    let mut i: usize = first;
    while i < end
        invariant
            first <= i <= end <= b@.len(),
            d =~= b@.subrange(first as int, end as int),
            forall|j: int| 0 <= j < i - first ==> is_digit(d[j]),
            acc == digits_value(d.take(i - first)),
            acc <= limit,
            limit == 2147483648,
            neg == (s.len() > 0 && s[0] == 45),
            signed == (s.len() > 0 && (s[0] == 45 || s[0] == 43)),
            s == b@.subrange(start as int, end as int),
            d == digits_part(s),
        decreases end - i,
    {
        let c = b[i];
        if c < 48u8 || c > 57u8 {
            assert(!is_digit(d[i - first]));
            assert(0 <= i - first < d.len());
            assert(!all_digits(d));
            assert(parse_i32_bytes(s) is None);
            return None;
        }
        assert(d.take(i - first + 1).drop_last() =~= d.take(i - first));
        let next: u64 = acc * 10 + (c - 48u8) as u64;
        if next > limit {
            proof {
                if all_digits(d) {
                    lemma_digits_value_grows(d, i - first + 1);
                    assert(digits_value(d) > 2147483648);
                }
            }
            assert(parse_i32_bytes(s) is None);
            return None;
        }
        acc = next;
        i = i + 1;
    }
    assert(d.take(end - first) =~= d);
    if neg {
        let v: i64 = 0i64 - acc as i64;
        Some(v as i32)
    } else if acc <= 2147483647u64 {
        Some(acc as i32)
    } else {
        None
    }
}

/// Position of the first byte `c` in `b`, or the length when there is none.
pub open spec fn first_byte_or_len(b: Seq<u8>, c: u8) -> int
    decreases b.len(),
{
    if b.len() == 0 {
        0
    } else if b[0] == c {
        0
    } else {
        1 + first_byte_or_len(b.drop_first(), c)
    }
}

proof fn lemma_first_byte_bound(b: Seq<u8>, c: u8)
    ensures
        0 <= first_byte_or_len(b, c) <= b.len(),
    decreases b.len(),
{
    if b.len() > 0 {
        lemma_first_byte_bound(b.drop_first(), c);
    }
}

/// Position of the first byte `c` in `b`, or the length of `b`.
pub fn find_byte(b: &[u8], c: u8) -> (r: usize)
    ensures
        r == first_byte_or_len(b@, c),
        r <= b@.len(),
{
    let mut i: usize = 0;
    assert(b@.skip(0) =~= b@);
    while i < b.len()
        invariant
            i <= b.len(),
            first_byte_or_len(b@, c) == i + first_byte_or_len(b@.skip(i as int), c),
        decreases b.len() - i,
    {
        assert(b@.skip(i as int).drop_first() =~= b@.skip(i + 1));
        if b[i] == c {
            return i;
        }
        i = i + 1;
    }
    proof {
        assert(b@.skip(i as int).len() == 0);
    }
    i
}

} // verus!
