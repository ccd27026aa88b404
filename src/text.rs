//! Byte-level text helpers: ASCII whitespace trimming, separators and
//! unsigned decimal numbers.
use vstd::prelude::*;

verus! {

/// ASCII whitespace: space, tab, line feed, vertical tab, form feed,
/// carriage return.
pub open spec fn is_space(c: u8) -> bool {
    c == 0x20 || (0x09 <= c && c <= 0x0d)
}

pub open spec fn trim_front(b: Seq<u8>) -> Seq<u8>
    decreases b.len(),
{
    if b.len() > 0 && is_space(b[0]) {
        trim_front(b.drop_first())
    } else {
        b
    }
}

pub open spec fn trim_back(b: Seq<u8>) -> Seq<u8>
    decreases b.len(),
{
    if b.len() > 0 && is_space(b.last()) {
        trim_back(b.drop_last())
    } else {
        b
    }
}

/// `b` without leading and trailing ASCII whitespace.
pub open spec fn trimmed(b: Seq<u8>) -> Seq<u8> {
    trim_back(trim_front(b))
}

/// Index of the first `sep` in `b`, or its length if there is none.
pub open spec fn first_index(b: Seq<u8>, sep: u8) -> nat
    decreases b.len(),
{
    if b.len() == 0 || b[0] == sep {
        0
    } else {
        1 + first_index(b.drop_first(), sep)
    }
}

pub proof fn lemma_first_index(b: Seq<u8>, sep: u8, k: int)
    requires
        0 <= k <= b.len(),
        forall|j: int| 0 <= j < k ==> b[j] != sep,
        k == b.len() || b[k] == sep,
    ensures
        first_index(b, sep) == k,
    decreases k,
{
    if k > 0 {
        lemma_first_index(b.drop_first(), sep, k - 1);
    }
}

pub open spec fn is_digit(c: u8) -> bool {
    0x30 <= c && c <= 0x39
}

pub open spec fn all_digits(b: Seq<u8>) -> bool {
    forall|i: int| 0 <= i < b.len() ==> is_digit(b[i])
}

/// Value of a string of decimal digits.
pub open spec fn digits_value(b: Seq<u8>) -> nat
    decreases b.len(),
{
    if b.len() == 0 {
        0
    } else {
        digits_value(b.drop_last()) * 10 + (b.last() - 0x30) as nat
    }
}

/// The digits of an unsigned number: an optional `+`, then the digits.
pub open spec fn unsigned_digits(b: Seq<u8>) -> Seq<u8> {
    if b.len() > 0 && b[0] == 0x2b {
        b.drop_first()
    } else {
        b
    }
}

/// A byte in decimal: an optional `+` and at least one digit, of value at
/// most 255.
pub open spec fn parse_u8(b: Seq<u8>) -> Option<u8> {
    let d = unsigned_digits(b);
    if d.len() > 0 && all_digits(d) && digits_value(d) <= 255 {
        Some(digits_value(d) as u8)
    } else {
        None
    }
}

proof fn lemma_digits_grow(b: Seq<u8>, i: int)
    requires
        0 <= i <= b.len(),
        all_digits(b),
    ensures
        digits_value(b.take(i)) <= digits_value(b),
    decreases b.len() - i,
{
    if i < b.len() {
        lemma_digits_grow(b, i + 1);
        assert(b.take(i + 1).drop_last() =~= b.take(i));
    } else {
        assert(b.take(i) =~= b);
    }
}

/// The bounds `(start, end)` of `b[from..to]` without leading and trailing
/// ASCII whitespace.
pub fn trim_bounds(b: &[u8], from: usize, to: usize) -> (r: (usize, usize))
    requires
        from <= to <= b@.len(),
    ensures
        from <= r.0 <= r.1 <= to,
        b@.subrange(r.0 as int, r.1 as int) == trimmed(b@.subrange(from as int, to as int)),
{
    let ghost s = b@.subrange(from as int, to as int);
    let mut i = from;
    while i < to && (b[i] == 0x20 || (0x09 <= b[i] && b[i] <= 0x0d))
        invariant
            from <= i <= to <= b@.len(),
            trim_front(b@.subrange(i as int, to as int)) == trim_front(s),
        decreases to - i,
    {
        proof {
            assert(b@.subrange(i as int, to as int).drop_first() =~= b@.subrange(i + 1, to as int));
        }
        i = i + 1;
    }
    let mut j = to;
    while j > i && (b[j - 1] == 0x20 || (0x09 <= b[j - 1] && b[j - 1] <= 0x0d))
        invariant
            from <= i <= j <= to <= b@.len(),
            trim_back(b@.subrange(i as int, j as int)) == trimmed(s),
        decreases j - i,
    {
        proof {
            assert(b@.subrange(i as int, j as int).drop_last() =~= b@.subrange(i as int, j - 1));
        }
        j = j - 1;
    }
    (i, j)
}

/// Index of the first `sep` in `b[from..to]`, counted from `from`, or `to`
/// if there is none.
pub fn find_byte(b: &[u8], from: usize, to: usize, sep: u8) -> (r: usize)
    requires
        from <= to <= b@.len(),
    ensures
        from <= r <= to,
        r - from == first_index(b@.subrange(from as int, to as int), sep),
{
    let mut i = from;
    while i < to && b[i] != sep
        invariant
            from <= i <= to <= b@.len(),
            forall|j: int| from <= j < i ==> b@[j] != sep,
        decreases to - i,
    {
        i = i + 1;
    }
    proof {
        lemma_first_index(b@.subrange(from as int, to as int), sep, i - from);
    }
    i
}

/// Parses `b[from..to]` as a byte in decimal, as `parse_u8` states.
pub fn parse_u8_at(b: &[u8], from: usize, to: usize) -> (r: Option<u8>)
    requires
        from <= to <= b@.len(),
    ensures
        r == parse_u8(b@.subrange(from as int, to as int)),
{
    let ghost s = b@.subrange(from as int, to as int);
    let mut i = from;
    if i < to && b[i] == 0x2b {
        i = i + 1;
    }
    let ghost d = b@.subrange(i as int, to as int);
    proof {
        assert(unsigned_digits(s) =~= d);
    }
    if i == to {
        return None;
    }
    let start = i;
    let mut value: u32 = 0;
    while i < to
        invariant
            from <= start <= i <= to <= b@.len(),
            d == b@.subrange(start as int, to as int),
            s == b@.subrange(from as int, to as int),
            unsigned_digits(s) == d,
            d.len() > 0,
            all_digits(d.take(i - start)),
            value == digits_value(d.take(i - start)),
            value <= 255,
        decreases to - i,
    {
        let c = b[i];
        proof {
            assert(d[i - start] == c);
        }
        if c < 0x30 || c > 0x39 {
            proof {
                assert(!is_digit(d[i - start]));
            }
            return None;
        }
        proof {
            let t = d.take(i - start + 1);
            assert(t.drop_last() =~= d.take(i - start));
            assert(t.last() == c);
            assert(all_digits(t));
            assert(digits_value(t) == value * 10 + (c - 0x30));
        }
        value = value * 10 + (c - 0x30) as u32;
        if value > 255 {
            proof {
                if all_digits(d) {
                    lemma_digits_grow(d, i - start + 1);
                }
            }
            return None;
        }
        i = i + 1;
    }
    proof {
        assert(d.take(i - start) =~= d);
    }
    Some(value as u8)
}

} // verus!
