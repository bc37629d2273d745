//! Byte-level primitives of the wire format: big-endian 16-bit integers,
//! the variable-length integer used for packet lengths, and length-prefixed
//! binary fields. Each primitive has a specification-level encoder and
//! parser, proofs that parsing inverts encoding, and executable functions
//! proved against the specification forms.

use vstd::prelude::*;

verus! {

/// Largest value the variable-length integer can carry (four bytes of
/// seven payload bits each).
pub const VARINT_MAX: u32 = 268435455;

// ---------------------------------------------------------------------
// Specification-level encoders.

/// Big-endian two-byte encoding of a 16-bit value.
pub open spec fn enc_u16(v: u16) -> Seq<u8> {
    seq![(v / 256) as u8, (v % 256) as u8]
}

/// Variable-length encoding: seven value bits per byte, least-significant
/// group first, high bit set on every byte but the last.
pub open spec fn enc_varint(n: int) -> Seq<u8>
    decreases n,
{
    if n < 128 {
        seq![n as u8]
    } else {
        seq![(n % 128 + 128) as u8] + enc_varint(n / 128)
    }
}

/// Length-prefixed binary field: two length bytes, then the data.
pub open spec fn enc_bin(b: Seq<u8>) -> Seq<u8> {
    enc_u16(b.len() as u16) + b
}

// ---------------------------------------------------------------------
// Specification-level parsers. Each takes the whole input and a cursor,
// and yields the parsed value with the cursor after it, or nothing.

/// Parse one byte.
pub open spec fn parse_u8(s: Seq<u8>, i: int) -> Option<(u8, int)> {
    if 0 <= i && i + 1 <= s.len() {
        Some((s[i], i + 1))
    } else {
        None
    }
}

/// Parse a big-endian 16-bit value.
pub open spec fn parse_u16(s: Seq<u8>, i: int) -> Option<(u16, int)> {
    if 0 <= i && i + 2 <= s.len() {
        Some((((s[i] as int) * 256 + (s[i + 1] as int)) as u16, i + 2))
    } else {
        None
    }
}

/// Parse a variable-length integer, reading at most `budget` bytes.
pub open spec fn parse_varint_rec(s: Seq<u8>, i: int, budget: nat) -> Option<(int, int)>
    decreases budget,
{
    if budget == 0 || !(0 <= i && i + 1 <= s.len()) {
        None
    } else {
        if s[i] < 128 {
            Some((s[i] as int, i + 1))
        } else {
            match parse_varint_rec(s, i + 1, (budget - 1) as nat) {
                None => None,
                Some((v, j)) => Some(((s[i] - 128) + 128 * v, j)),
            }
        }
    }
}

/// Parse a variable-length integer (at most four bytes long).
pub open spec fn parse_varint(s: Seq<u8>, i: int) -> Option<(int, int)> {
    parse_varint_rec(s, i, 4)
}

/// Parse a length-prefixed binary field.
pub open spec fn parse_bin(s: Seq<u8>, i: int) -> Option<(Seq<u8>, int)> {
    match parse_u16(s, i) {
        None => None,
        Some((l, j)) => if j + l <= s.len() {
            Some((s.subrange(j, j + l), j + l))
        } else {
            None
        },
    }
}

// ---------------------------------------------------------------------
// Facts about the encoders.

/// The variable-length encoding of an admissible value takes at most four
/// bytes, and exactly one byte for values under 128.
pub proof fn lemma_enc_varint_len(n: int)
    requires
        0 <= n <= VARINT_MAX,
    ensures
        1 <= enc_varint(n).len() <= 4,
        n < 128 ==> enc_varint(n).len() == 1,
        n < 16384 ==> enc_varint(n).len() <= 2,
        n < 2097152 ==> enc_varint(n).len() <= 3,
        n >= 128 ==> enc_varint(n).len() >= 2,
    decreases n,
{
    if n >= 128 {
        lemma_enc_varint_len(n / 128);
    }
}

// ---------------------------------------------------------------------
// Round-trip lemmas: parsing at the start of an encoding embedded in any
// surrounding bytes recovers the encoded value and stops right after it.

/// Parsing two bytes where an `enc_u16` encoding sits recovers the value.
pub proof fn lemma_parse_u16(pre: Seq<u8>, v: u16, post: Seq<u8>)
    ensures
        parse_u16(pre + enc_u16(v) + post, pre.len() as int)
            == Some((v, pre.len() + 2int)),
{
    let s = pre + enc_u16(v) + post;
    let i = pre.len() as int;
    assert(s[i] == (v / 256) as u8);
    assert(s[i + 1] == (v % 256) as u8);
}

/// Parsing one byte where that byte was placed recovers it.
pub proof fn lemma_parse_u8(pre: Seq<u8>, b: u8, post: Seq<u8>)
    ensures
        parse_u8(pre + seq![b] + post, pre.len() as int)
            == Some((b, pre.len() + 1int)),
{
    let s = pre + seq![b] + post;
    assert(s[pre.len() as int] == b);
}

proof fn lemma_parse_varint_budget(pre: Seq<u8>, n: int, post: Seq<u8>, budget: nat)
    requires
        0 <= n,
        enc_varint(n).len() <= budget,
    ensures
        parse_varint_rec(pre + enc_varint(n) + post, pre.len() as int, budget)
            == Some((n, pre.len() + enc_varint(n).len() as int)),
    decreases n,
{
    let s = pre + enc_varint(n) + post;
    let i = pre.len() as int;
    if n < 128 {
        assert(s[i] == n as u8);
    } else {
        let b: u8 = (n % 128 + 128) as u8;
        assert(s[i] == b);
        assert(b >= 128);
        let pre2 = pre + seq![b];
        let tail = enc_varint(n / 128);
        assert(pre + enc_varint(n) + post =~= pre2 + tail + post);
        lemma_parse_varint_budget(pre2, n / 128, post, (budget - 1) as nat);
        assert(parse_varint_rec(s, i + 1, (budget - 1) as nat)
            == Some((n / 128, pre2.len() + tail.len() as int)));
        assert((b - 128) + 128 * (n / 128) == n);
    }
}

/// Parsing a variable-length integer where its encoding sits recovers it.
pub proof fn lemma_parse_varint(pre: Seq<u8>, n: int, post: Seq<u8>)
    requires
        0 <= n <= VARINT_MAX,
    ensures
        parse_varint(pre + enc_varint(n) + post, pre.len() as int)
            == Some((n, pre.len() + enc_varint(n).len() as int)),
{
    lemma_enc_varint_len(n);
    lemma_parse_varint_budget(pre, n, post, 4);
}

/// Parsing a binary field where its encoding sits recovers the data.
pub proof fn lemma_parse_bin(pre: Seq<u8>, b: Seq<u8>, post: Seq<u8>)
    requires
        b.len() <= 65535,
    ensures
        parse_bin(pre + enc_bin(b) + post, pre.len() as int)
            == Some((b, pre.len() + 2 + b.len() as int)),
{
    let s = pre + enc_bin(b) + post;
    let i = pre.len() as int;
    assert(pre + enc_bin(b) + post =~= pre + enc_u16(b.len() as u16) + (b + post));
    lemma_parse_u16(pre, b.len() as u16, b + post);
    assert(parse_u16(s, i) == Some((b.len() as u16, i + 2)));
    assert(s.subrange(i + 2, i + 2 + b.len()) =~= b);
}

/// Every parsed value lies within the cursor bounds that were handed in,
/// and the cursor strictly advances.
pub proof fn lemma_parse_varint_rec_bounds(s: Seq<u8>, i: int, budget: nat)
    ensures
        parse_varint_rec(s, i, budget) matches Some((v, j)) ==> {
            &&& i < j <= s.len()
            &&& j - i <= budget
            &&& 0 <= v
            &&& v < pow128(budget)
        },
    decreases budget,
{
    if budget > 0 && 0 <= i && i + 1 <= s.len() {
        lemma_pow128_pos((budget - 1) as nat);
        if s[i] >= 128 {
            lemma_parse_varint_rec_bounds(s, i + 1, (budget - 1) as nat);
            if let Some((v, j)) = parse_varint_rec(s, i + 1, (budget - 1) as nat) {
                assert((s[i] - 128) + 128 * v < 128 * (1 + v)) by (nonlinear_arith)
                    requires 0 <= v && s[i] < 256,
                ;
                assert(128 * (1 + v) <= 128 * pow128((budget - 1) as nat)) by (nonlinear_arith)
                    requires 1 + v <= pow128((budget - 1) as nat),
                ;
            }
        }
    }
}

/// `128^k`, the number of values a `k`-byte variable-length field spans.
pub open spec fn pow128(k: nat) -> int
    decreases k,
{
    if k == 0 {
        1
    } else {
        128 * pow128((k - 1) as nat)
    }
}

/// A power of 128 is positive.
pub proof fn lemma_pow128_pos(k: nat)
    ensures
        pow128(k) >= 1,
    decreases k,
{
    if k > 0 {
        lemma_pow128_pos((k - 1) as nat);
    }
}

/// The concrete powers the four-byte cap can reach.
pub proof fn lemma_pow128_values()
    ensures
        pow128(0) == 1,
        pow128(1) == 128,
        pow128(2) == 16384,
        pow128(3) == 2097152,
        pow128(4) == 268435456,
{
    assert(pow128(1) == 128 * pow128(0));
    assert(pow128(2) == 128 * pow128(1));
    assert(pow128(3) == 128 * pow128(2));
    assert(pow128(4) == 128 * pow128(3));
}

// ---------------------------------------------------------------------
// Executable encoders, proved against the specification encoders.

/// Append the big-endian encoding of `v`.
pub fn push_u16(out: &mut Vec<u8>, v: u16)
    ensures
        final(out)@ == old(out)@ + enc_u16(v),
{
    out.push((v / 256) as u8);
    out.push((v % 256) as u8);
    assert(out@ =~= old(out)@ + enc_u16(v));
}

/// Append the variable-length encoding of `n`.
pub fn push_varint(out: &mut Vec<u8>, n: u32)
    requires
        n <= VARINT_MAX,
    ensures
        final(out)@ == old(out)@ + enc_varint(n as int),
{
    let mut rest: u32 = n;
    while rest >= 128
        invariant
            old(out)@ + enc_varint(n as int) == out@ + enc_varint(rest as int),
        decreases rest,
    {
        let ghost prev = out@;
        let ghost prev_rest = rest as int;
        out.push((rest % 128 + 128) as u8);
        rest = rest / 128;
        assert(prev + enc_varint(prev_rest) =~= out@ + enc_varint(rest as int));
    }
    out.push(rest as u8);
    assert(out@ =~= old(out)@ + enc_varint(n as int));
}

/// Append the length prefix and the bytes of `b`.
pub fn push_bin(out: &mut Vec<u8>, b: &[u8])
    requires
        b@.len() <= 65535,
    ensures
        final(out)@ == old(out)@ + enc_bin(b@),
{
    push_u16(out, b.len() as u16);
    push_slice(out, b);
    assert(out@ =~= old(out)@ + enc_bin(b@));
}

/// Append one byte.
pub fn push_byte(out: &mut Vec<u8>, b: u8)
    ensures
        final(out)@ == old(out)@ + seq![b],
{
    out.push(b);
    assert(out@ =~= old(out)@ + seq![b]);
}

/// Append the bytes of `b` unchanged.
pub fn push_slice(out: &mut Vec<u8>, b: &[u8])
    ensures
        final(out)@ == old(out)@ + b@,
{
    let mut k: usize = 0;
    while k < b.len()
        invariant
            k <= b@.len(),
            out@ == old(out)@ + b@.subrange(0, k as int),
        decreases b@.len() - k,
    {
        out.push(b[k]);
        k = k + 1;
        assert(out@ =~= old(out)@ + b@.subrange(0, k as int));
    }
    assert(out@ =~= old(out)@ + b@);
}

// ---------------------------------------------------------------------
// Executable parsers, proved to behave as the specification parsers.

/// Read one byte at `i`.
pub fn take_u8(s: &[u8], i: usize) -> (r: Option<(u8, usize)>)
    ensures
        match r {
            Some((v, j)) => parse_u8(s@, i as int) == Some((v, j as int)),
            None => parse_u8(s@, i as int) is None,
        },
{
    if i < s.len() {
        Some((s[i], i + 1))
    } else {
        None
    }
}

/// Read a big-endian 16-bit value at `i`.
pub fn take_u16(s: &[u8], i: usize) -> (r: Option<(u16, usize)>)
    ensures
        match r {
            Some((v, j)) => parse_u16(s@, i as int) == Some((v, j as int)),
            None => parse_u16(s@, i as int) is None,
        },
{
    if i < s.len() && i + 1 < s.len() {
        let v: u16 = (s[i] as u16) * 256 + (s[i + 1] as u16);
        Some((v, i + 2))
    } else {
        None
    }
}

fn take_varint_rec(s: &[u8], i: usize, budget: u8) -> (r: Option<(u64, usize)>)
    requires
        budget <= 4,
    ensures
        match r {
            Some((v, j)) => parse_varint_rec(s@, i as int, budget as nat)
                == Some((v as int, j as int)),
            None => parse_varint_rec(s@, i as int, budget as nat) is None,
        },
    decreases budget,
{
    if budget == 0 || i >= s.len() {
        None
    } else {
        let b = s[i];
        if b < 128 {
            Some((b as u64, i + 1))
        } else {
            match take_varint_rec(s, i + 1, budget - 1) {
                None => None,
                Some((v, j)) => {
                    proof {
                        lemma_parse_varint_rec_bounds(s@, i as int + 1, (budget - 1) as nat);
                        lemma_pow128_values();
                        if budget == 2 {
                            assert(v < pow128(1));
                        } else if budget == 3 {
                            assert(v < pow128(2));
                        } else if budget == 4 {
                            assert(v < pow128(3));
                        }
                    }
                    Some(((b - 128) as u64 + 128 * v, j))
                },
            }
        }
    }
}

/// Read a variable-length integer at `i`.
pub fn take_varint(s: &[u8], i: usize) -> (r: Option<(u32, usize)>)
    ensures
        match r {
            Some((v, j)) => parse_varint(s@, i as int) == Some((v as int, j as int))
                && v <= VARINT_MAX,
            None => parse_varint(s@, i as int) is None,
        },
{
    proof {
        lemma_parse_varint_rec_bounds(s@, i as int, 4);
        lemma_pow128_values();
    }
    match take_varint_rec(s, i, 4) {
        None => None,
        Some((v, j)) => Some((v as u32, j)),
    }
}

/// Whether two byte slices hold the same bytes.
pub fn bytes_eq(a: &[u8], b: &[u8]) -> (r: bool)
    ensures
        r == (a@ == b@),
{
    if a.len() != b.len() {
        proof {
            assert(a@.len() != b@.len());
        }
        return false;
    }
    let mut k: usize = 0;
    while k < a.len()
        invariant
            k <= a@.len(),
            a@.len() == b@.len(),
            forall|m: int| 0 <= m < k ==> a@[m] == b@[m],
        decreases a@.len() - k,
    {
        if a[k] != b[k] {
            return false;
        }
        k = k + 1;
    }
    proof {
        assert(a@ =~= b@);
    }
    true
}

/// Copy the bytes of `s` between `a` and `b` into a fresh vector.
pub fn copy_range(s: &[u8], a: usize, b: usize) -> (r: Vec<u8>)
    requires
        a <= b <= s@.len(),
    ensures
        r@ == s@.subrange(a as int, b as int),
{
    let mut v: Vec<u8> = Vec::new();
    let mut k: usize = a;
    while k < b
        invariant
            a <= k <= b <= s@.len(),
            v@ == s@.subrange(a as int, k as int),
        decreases b - k,
    {
        v.push(s[k]);
        k = k + 1;
        assert(v@ =~= s@.subrange(a as int, k as int));
    }
    v
}

/// Read a length-prefixed binary field at `i`, copying the data out.
pub fn take_bin(s: &[u8], i: usize) -> (r: Option<(Vec<u8>, usize)>)
    ensures
        match r {
            Some((v, j)) => parse_bin(s@, i as int) == Some((v@, j as int)),
            None => parse_bin(s@, i as int) is None,
        },
{
    match take_u16(s, i) {
        None => None,
        Some((l, j)) => {
            let n = s.len();
            if l as usize <= n && j <= n - l as usize {
                let mut v: Vec<u8> = Vec::new();
                let mut k: usize = 0;
                while k < l as usize
                    invariant
                        k <= l as usize,
                        n == s@.len(),
                        j + l as usize <= n,
                        v@ == s@.subrange(j as int, j + k),
                    decreases l as usize - k,
                {
                    v.push(s[j + k]);
                    k = k + 1;
                    assert(v@ =~= s@.subrange(j as int, j + k));
                }
                Some((v, j + l as usize))
            } else {
                None
            }
        },
    }
}

} // verus!
