//! Byte-string helpers with exact specifications: searching, splitting,
//! equality and decimal parsing. The reflection-file parser is built on
//! these.

use vstd::prelude::*;

verus! {

/// The bytes of an ASCII character sequence.
pub open spec fn ascii_bytes(s: Seq<char>) -> Seq<u8> {
    Seq::new(s.len(), |i: int| s[i] as u8)
}

/// The pieces of `s` between occurrences of the separator `c`: always at
/// least one piece, none containing `c`, and one more piece than there are
/// separators.
pub open spec fn spec_split_byte(s: Seq<u8>, c: u8) -> Seq<Seq<u8>>
    decreases s.len(),
{
    if s.len() == 0 {
        seq![Seq::<u8>::empty()]
    } else if s[0] == c {
        seq![Seq::<u8>::empty()] + spec_split_byte(s.drop_first(), c)
    } else {
        let r = spec_split_byte(s.drop_first(), c);
        seq![seq![s[0]] + r[0]] + r.drop_first()
    }
}

/// Splitting yields at least one piece.
pub proof fn lemma_split_nonempty(s: Seq<u8>, c: u8)
    ensures
        spec_split_byte(s, c).len() >= 1,
    decreases s.len(),
{
    if s.len() > 0 {
        lemma_split_nonempty(s.drop_first(), c);
    }
}

/// A separator-free string is one piece.
pub proof fn lemma_split_no_sep(s: Seq<u8>, c: u8)
    requires
        forall|j: int| 0 <= j < s.len() ==> s[j] != c,
    ensures
        spec_split_byte(s, c) =~= seq![s],
    decreases s.len(),
{
    if s.len() > 0 {
        assert(s[0] != c);
        let t = s.drop_first();
        assert forall|j: int| 0 <= j < t.len() implies t[j] != c by {
            assert(s[j + 1] != c);
        }
        lemma_split_no_sep(t, c);
        let r = spec_split_byte(t, c);
        assert(r =~= seq![t]);
        assert(r[0] == t);
        assert(seq![s[0]] + t =~= s);
        assert(r.drop_first() =~= Seq::<Seq<u8>>::empty());
        assert(spec_split_byte(s, c) =~= seq![seq![s[0]] + r[0]] + r.drop_first());
        assert(spec_split_byte(s, c).len() == 1);
        assert(spec_split_byte(s, c)[0] == seq![s[0]] + r[0]);
        assert(seq![s[0]] + r[0] == s) by {
            assert(seq![s[0]] + r[0] =~= s);
        }
    } else {
        assert(s =~= Seq::<u8>::empty());
    }
}

/// Splitting at the first separator: the prefix before it is the first
/// piece and the rest splits on its own.
pub proof fn lemma_split_at_first(s: Seq<u8>, c: u8, k: int)
    requires
        0 <= k < s.len(),
        s[k] == c,
        forall|j: int| 0 <= j < k ==> s[j] != c,
    ensures
        spec_split_byte(s, c) =~= seq![s.subrange(0, k)] + spec_split_byte(
            s.subrange(k + 1, s.len() as int),
            c,
        ),
    decreases k,
{
    if k == 0 {
        assert(s.subrange(0, 0) =~= Seq::<u8>::empty());
        assert(s.subrange(1, s.len() as int) =~= s.drop_first());
    } else {
        let t = s.drop_first();
        lemma_split_at_first(t, c, k - 1);
        assert(t.subrange(0, k - 1) =~= s.subrange(1, k));
        assert(t.subrange(k, t.len() as int) =~= s.subrange(k + 1, s.len() as int));
        let r = spec_split_byte(t, c);
        assert(r =~= seq![s.subrange(1, k)] + spec_split_byte(s.subrange(k + 1, s.len() as int), c));
        assert(r[0] == s.subrange(1, k));
        assert(seq![s[0]] + s.subrange(1, k) =~= s.subrange(0, k));
        lemma_split_nonempty(s.subrange(k + 1, s.len() as int), c);
        assert(r.drop_first() =~= spec_split_byte(s.subrange(k + 1, s.len() as int), c));
    }
}

/// A copy of the bytes of `s` from `from` (inclusive) to `to` (exclusive).
pub fn subvec(s: &Vec<u8>, from: usize, to: usize) -> (r: Vec<u8>)
    requires
        from <= to <= s@.len(),
    ensures
        r@ == s@.subrange(from as int, to as int),
{
    let mut r: Vec<u8> = Vec::with_capacity(to - from);
    let mut i: usize = from;
    while i < to
        invariant
            from <= i <= to <= s@.len(),
            r@.len() == i - from,
            forall|j: int| 0 <= j < i - from ==> r@[j] == s@[from + j],
        decreases to - i,
    {
        r.push(s[i]);
        i = i + 1;
    }
    assert(r@ =~= s@.subrange(from as int, to as int));
    r
}

/// Whether two byte strings hold the same bytes.
pub fn bytes_eq(a: &[u8], b: &[u8]) -> (r: bool)
    ensures
        r == (a@ == b@),
{
    if a.len() != b.len() {
        assert(a@ != b@);
        return false;
    }
    let n = a.len();
    let mut i: usize = 0;
    while i < n
        invariant
            i <= n,
            n == a@.len() == b@.len(),
            forall|j: int| 0 <= j < i ==> a@[j] == b@[j],
        decreases n - i,
    {
        if a[i] != b[i] {
            return false;
        }
        i = i + 1;
    }
    assert(a@ =~= b@);
    true
}

/// Split `s` into the pieces between occurrences of `c`.
pub fn split_byte(s: &Vec<u8>, c: u8) -> (r: Vec<Vec<u8>>)
    ensures
        r.deep_view() == spec_split_byte(s@, c),
{
    let n = s.len();
    let mut pieces: Vec<Vec<u8>> = Vec::new();
    proof {
        assert(s@.subrange(0, n as int) =~= s@);
        assert(pieces.deep_view() =~= Seq::<Seq<u8>>::empty());
    }
    let mut start: usize = 0;
    let mut i: usize = 0;
    while i < n
        invariant
            start <= i <= n,
            n == s@.len(),
            forall|j: int| start <= j < i ==> s@[j] != c,
            spec_split_byte(s@, c) == pieces.deep_view() + spec_split_byte(
                s@.subrange(start as int, n as int),
                c,
            ),
        decreases n - i,
    {
        if s[i] == c {
            let piece = subvec(s, start, i);
            proof {
                let suffix = s@.subrange(start as int, n as int);
                assert forall|j: int| 0 <= j < i - start implies suffix[j] != c by {
                    assert(suffix[j] == s@[start + j]);
                }
                assert(suffix[i - start] == c);
                lemma_split_at_first(suffix, c, i - start);
                assert(suffix.subrange(0, i - start) =~= s@.subrange(start as int, i as int));
                assert(suffix.subrange(i - start + 1, suffix.len() as int) =~= s@.subrange(
                    i as int + 1,
                    n as int,
                ));
                assert((pieces.deep_view() + seq![piece@]) + spec_split_byte(
                    s@.subrange(i as int + 1, n as int),
                    c,
                ) =~= pieces.deep_view() + (seq![piece@] + spec_split_byte(
                    s@.subrange(i as int + 1, n as int),
                    c,
                )));
            }
            let ghost dv = pieces.deep_view();
            pieces.push(piece);
            proof {
                assert(piece.deep_view() =~= piece@);
                assert(pieces.deep_view() =~= dv.push(piece@));
                assert(dv.push(piece@) =~= dv + seq![piece@]);
            }
            start = i + 1;
        }
        i = i + 1;
    }
    let piece = subvec(s, start, n);
    proof {
        let suffix = s@.subrange(start as int, n as int);
        assert forall|j: int| 0 <= j < suffix.len() implies suffix[j] != c by {
            assert(suffix[j] == s@[start + j]);
        }
        lemma_split_no_sep(suffix, c);
    }
    let ghost dv = pieces.deep_view();
    pieces.push(piece);
    proof {
        assert(piece.deep_view() =~= piece@);
        assert(pieces.deep_view() =~= dv.push(piece@));
        assert(dv.push(piece@) =~= dv + seq![piece@]);
        assert(spec_split_byte(s@, c) =~= pieces.deep_view());
    }
    pieces
}

/// Whether a byte is an ASCII decimal digit.
pub open spec fn is_digit(b: u8) -> bool {
    48 <= b <= 57
}

/// Whether every byte of `s` is an ASCII decimal digit.
pub open spec fn all_digits(s: Seq<u8>) -> bool {
    forall|i: int| 0 <= i < s.len() ==> is_digit(#[trigger] s[i])
}

/// The decimal value of a digit string.
pub open spec fn digits_value(s: Seq<u8>) -> int
    decreases s.len(),
{
    if s.len() == 0 {
        0
    } else {
        digits_value(s.drop_last()) * 10 + (s.last() - 48)
    }
}

/// What a nonempty all-digit string denotes; anything else is no number.
pub open spec fn spec_parse_unsigned(s: Seq<u8>) -> Option<int> {
    if s.len() > 0 && all_digits(s) {
        Some(digits_value(s))
    } else {
        None
    }
}

/// The value of a digit string never shrinks as digits are appended.
proof fn lemma_digits_value_nonneg(s: Seq<u8>)
    requires
        all_digits(s),
    ensures
        digits_value(s) >= 0,
    decreases s.len(),
{
    if s.len() > 0 {
        assert(all_digits(s.drop_last())) by {
            assert(forall|i: int| 0 <= i < s.len() - 1 ==> is_digit(#[trigger] s[i]));
        }
        lemma_digits_value_nonneg(s.drop_last());
    }
}

/// How the original reads a decimal field: the number it denotes when it is
/// one and fits an `u32`, and zero otherwise. A leading `+` is accepted.
pub open spec fn spec_parse_u32_or_zero(s: Seq<u8>) -> u32 {
    let body = if s.len() > 0 && s[0] == 43 {
        s.drop_first()
    } else {
        s
    };
    match spec_parse_unsigned(body) {
        Some(v) => if v <= u32::MAX {
            v as u32
        } else {
            0
        },
        None => 0,
    }
}

/// How the original reads a signed decimal field: the number it denotes when
/// it is one and fits an `i32`, and zero otherwise.
pub open spec fn spec_parse_i32_or_zero(s: Seq<u8>) -> i32 {
    if s.len() > 0 && s[0] == 45 {
        match spec_parse_unsigned(s.drop_first()) {
            Some(v) => if v <= 0x8000_0000 {
                (-v) as i32
            } else {
                0
            },
            None => 0,
        }
    } else {
        let body = if s.len() > 0 && s[0] == 43 {
            s.drop_first()
        } else {
            s
        };
        match spec_parse_unsigned(body) {
            Some(v) => if v <= i32::MAX {
                v as i32
            } else {
                0
            },
            None => 0,
        }
    }
}

/// Read the digits of `s` from `from` on: their value when they all are
/// digits and at least one is there, exactly when it fits an `u32`, and an
/// over-range marker otherwise.
fn parse_digits_capped(s: &Vec<u8>, from: usize) -> (r: Option<u64>)
    requires
        from <= s@.len(),
    ensures
        ({
            let body = s@.subrange(from as int, s@.len() as int);
            match spec_parse_unsigned(body) {
                None => r is None,
                Some(v) => {
                    &&& r is Some
                    &&& (v <= u32::MAX ==> r->0 == v)
                    &&& (v > u32::MAX ==> r->0 > u32::MAX)
                },
            }
        }),
{
    let n = s.len();
    if from == n {
        proof {
            assert(s@.subrange(from as int, n as int).len() == 0);
        }
        return None;
    }
    let cap: u64 = 0x1_0000_0000;
    let mut value: u64 = 0;
    let mut i: usize = from;
    while i < n
        invariant
            from <= i <= n,
            n == s@.len(),
            cap == 0x1_0000_0000u64,
            all_digits(s@.subrange(from as int, i as int)),
            digits_value(s@.subrange(from as int, i as int)) <= u32::MAX ==> value == digits_value(
                s@.subrange(from as int, i as int),
            ),
            digits_value(s@.subrange(from as int, i as int)) > u32::MAX ==> value == cap
                && digits_value(s@.subrange(from as int, i as int)) > u32::MAX,
            value <= cap,
        decreases n - i,
    {
        let b = s[i];
        if b < 48 || b > 57 {
            proof {
                let body = s@.subrange(from as int, n as int);
                assert(body[i - from] == s@[i as int]);
                assert(!is_digit(body[i - from]));
            }
            return None;
        }
        let d: u64 = (b - 48) as u64;
        proof {
            let pre = s@.subrange(from as int, i as int);
            let pre2 = s@.subrange(from as int, i as int + 1);
            assert(pre2.drop_last() =~= pre);
            assert(pre2.last() == s@[i as int]);
            lemma_digits_value_nonneg(pre);
            assert(digits_value(pre2) == digits_value(pre) * 10 + (s@[i as int] - 48));
        }
        if value >= cap {
            value = cap;
            proof {
                let pre = s@.subrange(from as int, i as int);
                let pre2 = s@.subrange(from as int, i as int + 1);
                assert(digits_value(pre) * 10 >= digits_value(pre)) by (nonlinear_arith)
                    requires
                        digits_value(pre) >= 0,
                ;
            }
        } else {
            let next = value * 10 + d;
            if next > u32::MAX as u64 {
                value = cap;
            } else {
                value = next;
            }
            proof {
                let pre = s@.subrange(from as int, i as int);
                assert(digits_value(pre) * 10 >= digits_value(pre)) by (nonlinear_arith)
                    requires
                        digits_value(pre) >= 0,
                ;
            }
        }
        i = i + 1;
    }
    proof {
        assert(s@.subrange(from as int, i as int) =~= s@.subrange(from as int, n as int));
    }
    Some(value)
}

/// The decimal value of `s`, or zero when `s` is not a number an `u32`
/// holds. A leading `+` is accepted, as the original's number parsing did.
pub fn parse_u32_or_zero(s: &Vec<u8>) -> (r: u32)
    ensures
        r == spec_parse_u32_or_zero(s@),
{
    let from: usize = if s.len() > 0 && s[0] == 43 {
        1
    } else {
        0
    };
    proof {
        if from == 1 {
            assert(s@.subrange(1, s@.len() as int) =~= s@.drop_first());
        } else {
            assert(s@.subrange(0, s@.len() as int) =~= s@);
        }
    }
    match parse_digits_capped(s, from) {
        None => 0,
        Some(v) => {
            if v <= u32::MAX as u64 {
                v as u32
            } else {
                0
            }
        },
    }
}

/// The decimal value of `s`, or zero when `s` is not a number an `i32`
/// holds. A leading `+` or `-` is accepted, as the original's number parsing
/// did.
pub fn parse_i32_or_zero(s: &Vec<u8>) -> (r: i32)
    ensures
        r == spec_parse_i32_or_zero(s@),
{
    if s.len() > 0 && s[0] == 45 {
        proof {
            assert(s@.subrange(1, s@.len() as int) =~= s@.drop_first());
        }
        match parse_digits_capped(s, 1) {
            None => 0,
            Some(v) => {
                if v <= 0x8000_0000u64 {
                    (-(v as i64)) as i32
                } else {
                    0
                }
            },
        }
    } else {
        let from: usize = if s.len() > 0 && s[0] == 43 {
            1
        } else {
            0
        };
        proof {
            if from == 1 {
                assert(s@.subrange(1, s@.len() as int) =~= s@.drop_first());
            } else {
                assert(s@.subrange(0, s@.len() as int) =~= s@);
            }
        }
        match parse_digits_capped(s, from) {
            None => 0,
            Some(v) => {
                if v <= i32::MAX as u64 {
                    v as i32
                } else {
                    0
                }
            },
        }
    }
}

/// Whether `sub` occurs in `s` as a contiguous run of bytes.
pub open spec fn spec_contains_seq(s: Seq<u8>, sub: Seq<u8>) -> bool {
    exists|i: int|
        0 <= i && i + sub.len() <= s.len() && #[trigger] s.subrange(i, i + sub.len() as int) == sub
}

/// Search `s` for an occurrence of `sub`.
pub fn contains_seq(s: &Vec<u8>, sub: &[u8]) -> (r: bool)
    ensures
        r == spec_contains_seq(s@, sub@),
{
    let n = s.len();
    let m = sub.len();
    if m > n {
        return false;
    }
    if m == 0 {
        proof {
            assert(0 + sub@.len() <= s@.len());
            assert(s@.subrange(0, 0 + sub@.len() as int) =~= sub@);
        }
        return true;
    }
    let mut i: usize = 0;
    while i <= n - m
        invariant
            1 <= m <= n,
            n == s@.len(),
            m == sub@.len(),
            i <= n - m + 1,
            forall|k: int| 0 <= k < i ==> #[trigger] s@.subrange(k, k + m as int) != sub@,
        decreases n - m + 1 - i,
    {
        let mut j: usize = 0;
        let mut matched = true;
        while j < m
            invariant
                i + m <= n,
                n == s@.len(),
                m == sub@.len(),
                j <= m,
                matched ==> forall|t: int| 0 <= t < j ==> s@[i + t] == sub@[t],
                !matched ==> s@.subrange(i as int, i + m as int) != sub@,
            decreases m - j,
        {
            if s[i + j] != sub[j] {
                proof {
                    assert(s@.subrange(i as int, i + m as int)[j as int] == s@[i + j]);
                }
                matched = false;
                j = m;
            } else {
                j = j + 1;
            }
        }
        if matched {
            proof {
                assert(s@.subrange(i as int, i + m as int) =~= sub@);
            }
            return true;
        }
        i = i + 1;
    }
    proof {
        assert forall|k: int|
            0 <= k && k + sub@.len() <= s@.len() implies #[trigger] s@.subrange(
            k,
            k + sub@.len() as int,
        ) != sub@ by {
            assert(k < i);
        }
    }
    false
}

} // verus!
