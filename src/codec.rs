//! Little-endian integers, canonical compact sizes and length-prefixed byte
//! strings.

use vstd::prelude::*;

verus! {

/// The largest length that a compact size may carry.
pub const MAX_COMPACT_SIZE: u64 = 0x0200_0000;

/// Why a byte string could not be decoded.
#[derive(Debug, Clone, Copy, PartialEq, Eq, Structural)]
pub enum DecodeError {
    /// The input ended before the value was complete.
    UnexpectedEof,
    /// A compact size was not written in its shortest form, or exceeded
    /// `MAX_COMPACT_SIZE`.
    InvalidCompactSize,
    /// The script bytes do not parse as a sequence of opcodes.
    InvalidScript,
    /// An amount lies outside `0..=MAX_MONEY`.
    ValueOutOfRange,
}

pub open spec fn pow256(k: nat) -> nat
    decreases k,
{
    if k == 0 {
        1
    } else {
        256 * pow256((k - 1) as nat)
    }
}

/// The number whose little-endian bytes are `s`.
pub open spec fn le_value(s: Seq<u8>) -> nat
    decreases s.len(),
{
    if s.len() == 0 {
        0
    } else {
        s[0] as nat + 256 * le_value(s.drop_first())
    }
}

/// The `k` low-order bytes of `n`, least significant first.
pub open spec fn le_bytes(n: nat, k: nat) -> Seq<u8>
    decreases k,
{
    if k == 0 {
        Seq::empty()
    } else {
        seq![(n % 256) as u8] + le_bytes(n / 256, (k - 1) as nat)
    }
}

/// The canonical compact-size encoding of `n`.
pub open spec fn compact_bytes(n: nat) -> Seq<u8> {
    if n < 253 {
        seq![n as u8]
    } else if n <= 0xffff {
        seq![253u8] + le_bytes(n, 2)
    } else if n <= 0xffff_ffff {
        seq![254u8] + le_bytes(n, 4)
    } else {
        seq![255u8] + le_bytes(n, 8)
    }
}

/// Reads a compact size from the front of `s`: the value and the number of
/// bytes it took.
pub open spec fn compact_decode(s: Seq<u8>) -> Result<(nat, nat), DecodeError> {
    if s.len() < 1 {
        Err(DecodeError::UnexpectedEof)
    } else if s[0] < 253 {
        Ok((s[0] as nat, 1))
    } else {
        let k: nat = if s[0] == 253 {
            2
        } else if s[0] == 254 {
            4
        } else {
            8
        };
        let least: nat = if s[0] == 253 {
            253
        } else if s[0] == 254 {
            0x1_0000
        } else {
            0x1_0000_0000
        };
        if s.len() < 1 + k {
            Err(DecodeError::UnexpectedEof)
        } else {
            let n = le_value(s.subrange(1, 1 + k as int));
            if n < least || n > MAX_COMPACT_SIZE {
                Err(DecodeError::InvalidCompactSize)
            } else {
                Ok((n, 1 + k))
            }
        }
    }
}

/// A byte string preceded by its length as a compact size.
pub open spec fn var_bytes(b: Seq<u8>) -> Seq<u8> {
    compact_bytes(b.len()) + b
}

/// Reads a length-prefixed byte string from the front of `s`: the bytes and
/// the number of input bytes consumed.
pub open spec fn var_bytes_decode(s: Seq<u8>) -> Result<(Seq<u8>, nat), DecodeError> {
    match compact_decode(s) {
        Err(e) => Err(e),
        Ok((n, h)) => if s.len() < h + n {
            Err(DecodeError::UnexpectedEof)
        } else {
            Ok((s.subrange(h as int, (h + n) as int), h + n))
        },
    }
}

/// What is left of `s` from position `pos` on.
pub open spec fn rest(s: Seq<u8>, pos: int) -> Seq<u8> {
    s.subrange(pos, s.len() as int)
}

pub proof fn lemma_le_bytes_len(n: nat, k: nat)
    ensures
        le_bytes(n, k).len() == k,
    decreases k,
{
    if k > 0 {
        lemma_le_bytes_len(n / 256, (k - 1) as nat);
    }
}

pub proof fn lemma_le_round_trip(n: nat, k: nat)
    requires
        n < pow256(k),
    ensures
        le_value(le_bytes(n, k)) == n,
    decreases k,
{
    if k > 0 {
        let p = pow256((k - 1) as nat);
        assert(n / 256 < p) by (nonlinear_arith)
            requires
                n < 256 * p,
        ;
        lemma_le_round_trip(n / 256, (k - 1) as nat);
        let s = le_bytes(n, k);
        assert(s.drop_first() =~= le_bytes(n / 256, (k - 1) as nat));
        assert(n == n % 256 + 256 * (n / 256)) by (nonlinear_arith);
    }
}

pub proof fn lemma_le_value_bound(s: Seq<u8>)
    ensures
        le_value(s) < pow256(s.len()),
    decreases s.len(),
{
    if s.len() > 0 {
        lemma_le_value_bound(s.drop_first());
        let a = s[0] as nat;
        let v = le_value(s.drop_first());
        let p = pow256((s.len() - 1) as nat);
        assert(a + 256 * v < 256 * p) by (nonlinear_arith)
            requires
                a < 256,
                v < p,
        ;
    }
}

/// Reading back a compact size yields the number written, whatever follows.
pub proof fn lemma_compact_round_trip(n: nat, tail: Seq<u8>)
    requires
        n <= MAX_COMPACT_SIZE,
    ensures
        compact_decode(compact_bytes(n) + tail) == Ok::<(nat, nat), DecodeError>(
            (n, compact_bytes(n).len()),
        ),
{
    let s = compact_bytes(n) + tail;
    if n < 253 {
    } else {
        let k: nat = if n <= 0xffff {
            2
        } else {
            4
        };
        lemma_pow256_values();
        lemma_le_bytes_len(n, k);
        lemma_le_round_trip(n, k);
        assert(s.subrange(1, 1 + k as int) =~= le_bytes(n, k));
    }
}

/// Reading back a length-prefixed byte string yields the bytes written.
pub proof fn lemma_var_bytes_round_trip(b: Seq<u8>, tail: Seq<u8>)
    requires
        b.len() <= MAX_COMPACT_SIZE,
    ensures
        var_bytes_decode(var_bytes(b) + tail) == Ok::<(Seq<u8>, nat), DecodeError>(
            (b, var_bytes(b).len()),
        ),
{
    let h = compact_bytes(b.len());
    lemma_compact_round_trip(b.len(), b + tail);
    assert(var_bytes(b) + tail =~= h + (b + tail));
    assert((var_bytes(b) + tail).subrange(h.len() as int, (h.len() + b.len()) as int) =~= b);
}

/// Appends the `k` low-order bytes of `n`, least significant first.
pub fn write_le(out: &mut Vec<u8>, n: u64, k: usize)
    requires
        k <= 8,
    ensures
        final(out)@ == old(out)@ + le_bytes(n as nat, k as nat),
{
    let mut x: u64 = n;
    let mut i: usize = 0;
    while i < k
        invariant
            i <= k,
            out@ + le_bytes(x as nat, (k - i) as nat) == old(out)@ + le_bytes(n as nat, k as nat),
        decreases k - i,
    {
        let ghost before = out@;
        out.push((x % 256) as u8);
        assert(le_bytes(x as nat, (k - i) as nat) == seq![(x % 256) as u8] + le_bytes(
            (x / 256) as nat,
            (k - i - 1) as nat,
        ));
        assert(out@ + le_bytes((x / 256) as nat, (k - i - 1) as nat) =~= before + le_bytes(
            x as nat,
            (k - i) as nat,
        ));
        x = x / 256;
        i = i + 1;
    }
    assert(out@ + le_bytes(x as nat, 0) =~= out@);
}

/// Reads the little-endian number held in `input[pos..pos + k]`.
pub fn read_le(input: &[u8], pos: usize, k: usize) -> (r: u64)
    requires
        k <= 8,
        pos + k <= input@.len(),
    ensures
        r as nat == le_value(input@.subrange(pos as int, pos + k)),
{
    let len = input.len();
    assert(pos + k <= len);
    let end: usize = pos + k;
    let mut acc: u64 = 0;
    let mut i: usize = end;
    proof {
        lemma_pow256_values();
    }
    while i > pos
        invariant
            pos <= i <= end,
            end == pos + k,
            k <= 8,
            end <= input@.len(),
            acc as nat == le_value(input@.subrange(i as int, end as int)),
            pow256(8) == 0x1_0000_0000_0000_0000,
        decreases i - pos,
    {
        let ghost tail = input@.subrange(i as int, end as int);
        let ghost next = input@.subrange(i - 1, end as int);
        proof {
            assert(next.drop_first() =~= tail);
            lemma_le_value_bound(next);
            lemma_pow256_mono(next.len(), 8);
        }
        acc = acc * 256 + input[i - 1] as u64;
        i = i - 1;
    }
    acc
}

pub proof fn lemma_pow256_values()
    ensures
        pow256(2) == 0x1_0000,
        pow256(4) == 0x1_0000_0000,
        pow256(8) == 0x1_0000_0000_0000_0000,
{
    assert(pow256(0) == 1);
    assert(pow256(1) == 0x100);
    assert(pow256(2) == 0x1_0000);
    assert(pow256(3) == 0x100_0000);
    assert(pow256(4) == 0x1_0000_0000);
    assert(pow256(5) == 0x100_0000_0000);
    assert(pow256(6) == 0x1_0000_0000_0000);
    assert(pow256(7) == 0x100_0000_0000_0000);
    assert(pow256(8) == 0x1_0000_0000_0000_0000);
}

proof fn lemma_pow256_mono(a: nat, b: nat)
    requires
        a <= b,
    ensures
        pow256(a) <= pow256(b),
    decreases b,
{
    if a < b {
        lemma_pow256_mono(a, (b - 1) as nat);
    }
}

/// How zcash_encoding's compact-size reader failed.
enum CompactSizeFault {
    Truncated,
    Invalid,
}

/// Relies on zcash_encoding's `CompactSize::read`: it reads the canonical
/// compact size at the front of `input[pos..]`, rejects with
/// `InvalidInput` a value not in its shortest form or above
/// `MAX_COMPACT_SIZE`, and reports a short input as `UnexpectedEof`.
#[verifier::external_body]
fn compact_size_read(input: &[u8], pos: usize) -> (r: Result<u64, CompactSizeFault>)
    requires
        pos <= input@.len(),
    ensures
        match r {
            Ok(n) => compact_decode(rest(input@, pos as int)) matches Ok((m, _)) && m == n,
            Err(CompactSizeFault::Truncated) => compact_decode(rest(input@, pos as int)) == Err::<
                (nat, nat),
                DecodeError,
            >(DecodeError::UnexpectedEof),
            Err(CompactSizeFault::Invalid) => compact_decode(rest(input@, pos as int)) == Err::<
                (nat, nat),
                DecodeError,
            >(DecodeError::InvalidCompactSize),
        },
{
    let mut reader = &input[pos..];
    zcash_encoding::CompactSize::read(&mut reader).map_err(|e| match e.kind() {
        corez::io::ErrorKind::UnexpectedEof => CompactSizeFault::Truncated,
        _ => CompactSizeFault::Invalid,
    })
}

/// Relies on zcash_encoding's `CompactSize::write`, which appends the
/// canonical encoding of a size up to `MAX_COMPACT_SIZE`; writing to a `Vec`
/// does not fail.
#[verifier::external_body]
fn compact_size_write(out: &mut Vec<u8>, n: u64)
    requires
        n <= MAX_COMPACT_SIZE,
    ensures
        final(out)@ == old(out)@ + compact_bytes(n as nat),
{
    let _ = zcash_encoding::CompactSize::write(out, n as usize);
}

/// The number of bytes a decoded compact size took is that of its canonical
/// encoding.
proof fn lemma_compact_decode_len(s: Seq<u8>)
    requires
        compact_decode(s) is Ok,
    ensures
        compact_decode(s) matches Ok((n, k)) && k == compact_bytes(n).len() && k == (if n < 253 {
            1nat
        } else if n <= 0xffff {
            3nat
        } else {
            5nat
        }),
{
    lemma_pow256_values();
    if s[0] >= 253 {
        let k: nat = if s[0] == 253 {
            2
        } else if s[0] == 254 {
            4
        } else {
            8
        };
        let t = s.subrange(1, 1 + k as int);
        lemma_le_value_bound(t);
        let n = le_value(t);
        lemma_le_bytes_len(n, 2);
        lemma_le_bytes_len(n, 4);
    }
}

/// Appends the canonical compact-size encoding of `n`.
pub fn write_compact_size(out: &mut Vec<u8>, n: u64)
    requires
        n <= MAX_COMPACT_SIZE,
    ensures
        final(out)@ == old(out)@ + compact_bytes(n as nat),
{
    compact_size_write(out, n);
}

/// Reads a compact size from `input[pos..]`: the value and the number of
/// bytes it took.
pub fn read_compact_size(input: &[u8], pos: usize) -> (r: Result<(u64, usize), DecodeError>)
    requires
        pos <= input@.len(),
    ensures
        match r {
            Ok((n, k)) => compact_decode(rest(input@, pos as int)) == Ok::<(nat, nat), DecodeError>(
                (n as nat, k as nat),
            ),
            Err(e) => compact_decode(rest(input@, pos as int)) == Err::<(nat, nat), DecodeError>(
                e,
            ),
        },
{
    match compact_size_read(input, pos) {
        Err(CompactSizeFault::Truncated) => Err(DecodeError::UnexpectedEof),
        Err(CompactSizeFault::Invalid) => Err(DecodeError::InvalidCompactSize),
        Ok(n) => {
            proof {
                lemma_compact_decode_len(rest(input@, pos as int));
            }
            let k: usize = if n < 253 {
                1
            } else if n <= 0xffff {
                3
            } else {
                5
            };
            Ok((n, k))
        },
    }
}

/// Appends `b` preceded by its length as a compact size.
pub fn write_var_bytes(out: &mut Vec<u8>, b: &[u8])
    requires
        b@.len() <= MAX_COMPACT_SIZE,
    ensures
        final(out)@ == old(out)@ + var_bytes(b@),
{
    write_compact_size(out, b.len() as u64);
    let mut i: usize = 0;
    let ghost mid = out@;
    while i < b.len()
        invariant
            i <= b@.len(),
            out@ == mid + b@.subrange(0, i as int),
        decreases b@.len() - i,
    {
        out.push(b[i]);
        assert(b@.subrange(0, i + 1) =~= b@.subrange(0, i as int).push(b@[i as int]));
        i = i + 1;
    }
    assert(b@.subrange(0, b@.len() as int) =~= b@);
    assert(out@ =~= old(out)@ + var_bytes(b@));
}

/// Copies `input[start..end]`.
pub fn copy_range(input: &[u8], start: usize, end: usize) -> (r: Vec<u8>)
    requires
        start <= end <= input@.len(),
    ensures
        r@ == input@.subrange(start as int, end as int),
{
    let mut v: Vec<u8> = Vec::new();
    let mut i: usize = start;
    while i < end
        invariant
            start <= i <= end,
            end <= input@.len(),
            v@ == input@.subrange(start as int, i as int),
        decreases end - i,
    {
        v.push(input[i]);
        assert(input@.subrange(start as int, i + 1) =~= input@.subrange(start as int, i as int).push(
            input@[i as int],
        ));
        i = i + 1;
    }
    v
}

/// Reads a length-prefixed byte string from `input[pos..]`: the bytes and the
/// number of input bytes consumed.
pub fn read_var_bytes(input: &[u8], pos: usize) -> (r: Result<(Vec<u8>, usize), DecodeError>)
    requires
        pos <= input@.len(),
    ensures
        match r {
            Ok((b, k)) => var_bytes_decode(rest(input@, pos as int)) == Ok::<
                (Seq<u8>, nat),
                DecodeError,
            >((b@, k as nat)),
            Err(e) => var_bytes_decode(rest(input@, pos as int)) == Err::<
                (Seq<u8>, nat),
                DecodeError,
            >(e),
        },
{
    let ghost s = rest(input@, pos as int);
    match read_compact_size(input, pos) {
        Err(e) => Err(e),
        Ok((n, h)) => {
            if ((input.len() - pos - h) as u64) < n {
                Err(DecodeError::UnexpectedEof)
            } else {
                let start = pos + h;
                let end = start + n as usize;
                let b = copy_range(input, start, end);
                assert(b@ =~= s.subrange(h as int, h + n));
                Ok((b, h + n as usize))
            }
        },
    }
}

} // verus!
