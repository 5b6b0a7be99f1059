//! Transparent inputs and outputs, and the bundle that holds them through the
//! phases of authorization.

use crate::address::{identify, TransparentAddress};
use crate::codec::{
    le_bytes, le_value, lemma_pow256_values, lemma_le_bytes_len, lemma_le_round_trip, pow256, read_le, rest,
    var_bytes, write_le, DecodeError,
};
use crate::script::{
    lemma_script_round_trip, read_script_pubkey, read_script_sig, script_decode,
    write_script_pubkey, write_script_sig, ScriptPubKey, ScriptSig,
};
use vstd::prelude::*;

verus! {

/// The total supply of zatoshis: no amount may exceed it.
pub const MAX_MONEY: u64 = 2_100_000_000_000_000;

/// What an input carries as its signature script in each phase.
pub trait Authorization {
    type ScriptSig;
}

/// A phase that carries no signatures, only the spent outputs that signature
/// hashes commit to.
#[derive(Debug)]
pub struct EffectsOnly {
    pub inputs: Vec<TxOut>,
}

impl Authorization for EffectsOnly {
    type ScriptSig = ();
}

impl EffectsOnly {
    /// The amounts of the spent outputs, in input order.
    pub fn input_amounts(&self) -> (r: Vec<u64>)
        ensures
            r@.len() == self.inputs@.len(),
            forall|i: int| 0 <= i < r@.len() ==> r@[i] == self.inputs@[i].value,
    {
        let mut r: Vec<u64> = Vec::new();
        let mut i: usize = 0;
        while i < self.inputs.len()
            invariant
                i <= self.inputs@.len(),
                r@.len() == i,
                forall|j: int| 0 <= j < i ==> r@[j] == self.inputs@[j].value,
            decreases self.inputs@.len() - i,
        {
            r.push(self.inputs[i].value);
            i = i + 1;
        }
        r
    }

    /// The scripts of the spent outputs, in input order.
    pub fn input_scriptpubkeys(&self) -> (r: Vec<ScriptPubKey>)
        ensures
            r@.len() == self.inputs@.len(),
            forall|i: int| 0 <= i < r@.len() ==> r@[i].bytes@ == self.inputs@[i].script_pubkey.bytes@,
    {
        let mut r: Vec<ScriptPubKey> = Vec::new();
        let mut i: usize = 0;
        while i < self.inputs.len()
            invariant
                i <= self.inputs@.len(),
                r@.len() == i,
                forall|j: int|
                    0 <= j < i ==> r@[j].bytes@ == self.inputs@[j].script_pubkey.bytes@,
            decreases self.inputs@.len() - i,
        {
            let bytes = self.inputs[i].script_pubkey.bytes.clone();
            r.push(ScriptPubKey { bytes });
            i = i + 1;
        }
        r
    }
}

/// The final phase: every input holds a parsed signature script.
#[derive(Debug, Copy, Clone, PartialEq, Eq)]
pub struct Authorized;

impl Authorization for Authorized {
    type ScriptSig = ScriptSig;
}

/// A move from phase `A` to phase `B`: one map for each input's signature
/// script and one for the bundle's authorization data.
pub trait MapAuth<A: Authorization, B: Authorization> {
    /// What `map_script_sig` returns.
    spec fn script_sig_map(&self, s: A::ScriptSig) -> B::ScriptSig;

    /// What `map_authorization` returns.
    spec fn authorization_map(&self, a: A) -> B;

    fn map_script_sig(&self, s: A::ScriptSig) -> (r: B::ScriptSig)
        ensures
            r == self.script_sig_map(s),
    ;

    fn map_authorization(&self, s: A) -> (r: B)
        ensures
            r == self.authorization_map(s),
    ;
}

/// The identity map.
impl MapAuth<Authorized, Authorized> for () {
    open spec fn script_sig_map(&self, s: ScriptSig) -> ScriptSig {
        s
    }

    open spec fn authorization_map(&self, a: Authorized) -> Authorized {
        a
    }

    fn map_script_sig(&self, s: ScriptSig) -> (r: ScriptSig) {
        s
    }

    fn map_authorization(&self, s: Authorized) -> (r: Authorized) {
        s
    }
}

/// A reference to output `n` of the transaction whose id is `hash`.
#[derive(Clone, Copy, Debug, PartialEq, Eq, PartialOrd, Ord, Hash)]
pub struct OutPoint {
    pub hash: [u8; 32],
    pub n: u32,
}

/// Whether `o` is the sentinel that coinbase inputs spend: an all-zero id and
/// index `u32::MAX`.
pub open spec fn is_null_outpoint(o: OutPoint) -> bool {
    (forall|i: int| 0 <= i < 32 ==> o.hash@[i] == 0u8) && o.n == u32::MAX
}

/// The encoding of an outpoint: the id, then the index in four
/// little-endian bytes.
pub open spec fn outpoint_bytes(o: OutPoint) -> Seq<u8> {
    o.hash@ + le_bytes(o.n as nat, 4)
}

/// Reads an outpoint from the front of `s`: its id, its index and the number
/// of bytes consumed.
pub open spec fn outpoint_decode(s: Seq<u8>) -> Result<(Seq<u8>, nat, nat), DecodeError> {
    if s.len() < 36 {
        Err(DecodeError::UnexpectedEof)
    } else {
        Ok((s.subrange(0, 32), le_value(s.subrange(32, 36)), 36))
    }
}

pub(crate) fn copy_array32(b: &[u8], start: usize) -> (h: [u8; 32])
    requires
        start + 32 <= b@.len(),
    ensures
        h@ == b@.subrange(start as int, start + 32),
{
    let len = b.len();
    let mut h: [u8; 32] = [0u8; 32];
    let mut i: usize = 0;
    while i < 32
        invariant
            i <= 32,
            start + 32 <= b@.len(),
            len == b@.len(),
            h@.len() == 32,
            forall|j: int| 0 <= j < i ==> h@[j] == b@[start + j],
        decreases 32 - i,
    {
        h[i] = b[start + i];
        i = i + 1;
    }
    assert(h@ =~= b@.subrange(start as int, start + 32));
    h
}

fn copy_array8(b: &[u8], start: usize) -> (h: [u8; 8])
    requires
        start + 8 <= b@.len(),
    ensures
        h@ == b@.subrange(start as int, start + 8),
{
    let len = b.len();
    let mut h: [u8; 8] = [0u8; 8];
    let mut i: usize = 0;
    while i < 8
        invariant
            i <= 8,
            start + 8 <= b@.len(),
            len == b@.len(),
            h@.len() == 8,
            forall|j: int| 0 <= j < i ==> h@[j] == b@[start + j],
        decreases 8 - i,
    {
        h[i] = b[start + i];
        i = i + 1;
    }
    assert(h@ =~= b@.subrange(start as int, start + 8));
    h
}

fn push_array32(out: &mut Vec<u8>, h: &[u8; 32])
    ensures
        final(out)@ == old(out)@ + h@,
{
    let mut i: usize = 0;
    while i < 32
        invariant
            i <= 32,
            h@.len() == 32,
            out@ == old(out)@ + h@.subrange(0, i as int),
        decreases 32 - i,
    {
        out.push(h[i]);
        assert(h@.subrange(0, i + 1) =~= h@.subrange(0, i as int).push(h@[i as int]));
        i = i + 1;
    }
    assert(h@.subrange(0, 32) =~= h@);
}

#[verifier::external_type_specification]
#[verifier::external_body]
pub struct ExTxId(zcash_protocol::TxId);

/// Relies on zcash_protocol's `TxId::from_bytes`, which wraps the bytes as a
/// transaction id.
#[verifier::external_body]
fn txid_from_bytes(bytes: [u8; 32]) -> (r: zcash_protocol::TxId) {
    zcash_protocol::TxId::from_bytes(bytes)
}

impl OutPoint {
    /// The outpoint for output `n` of the transaction whose id is `hash`.
    pub fn new(hash: [u8; 32], n: u32) -> (r: OutPoint)
        ensures
            r.hash == hash,
            r.n == n,
    {
        OutPoint { hash, n }
    }

    /// A fixed outpoint for tests: id all ones, index one.
    pub fn fake() -> (r: OutPoint)
        ensures
            r.hash@ == Seq::new(32, |i: int| 1u8),
            r.n == 1,
    {
        let r = OutPoint { hash: [1u8; 32], n: 1 };
        assert(r.hash@ =~= Seq::new(32, |i: int| 1u8));
        r
    }

    /// Reads an outpoint from `input[pos..]`, with the number of bytes consumed.
    pub fn read(input: &[u8], pos: usize) -> (r: Result<(OutPoint, usize), DecodeError>)
        requires
            pos <= input@.len(),
        ensures
            match r {
                Ok((o, k)) => outpoint_decode(rest(input@, pos as int)) == Ok::<
                    (Seq<u8>, nat, nat),
                    DecodeError,
                >((o.hash@, o.n as nat, k as nat)),
                Err(e) => outpoint_decode(rest(input@, pos as int)) == Err::<
                    (Seq<u8>, nat, nat),
                    DecodeError,
                >(e),
            },
    {
        let ghost s = rest(input@, pos as int);
        if input.len() - pos < 36 {
            return Err(DecodeError::UnexpectedEof);
        }
        let hash = copy_array32(input, pos);
        let n = read_le(input, pos + 32, 4);
        proof {
            lemma_le_value_bound4(input@.subrange(pos + 32, pos + 36));
            assert(s.subrange(0, 32) =~= input@.subrange(pos as int, pos + 32));
            assert(s.subrange(32, 36) =~= input@.subrange(pos + 32, pos + 36));
        }
        Ok((OutPoint::new(hash, n as u32), 36))
    }

    /// Appends the encoding of this outpoint.
    pub fn write(&self, out: &mut Vec<u8>)
        ensures
            final(out)@ == old(out)@ + outpoint_bytes(*self),
    {
        push_array32(out, &self.hash);
        write_le(out, self.n as u64, 4);
        assert(final(out)@ =~= old(out)@ + outpoint_bytes(*self));
    }

    /// Whether this is the null outpoint that coinbase inputs spend.
    pub fn is_null(&self) -> (r: bool)
        ensures
            r == is_null_outpoint(*self),
    {
        let mut i: usize = 0;
        while i < 32
            invariant
                i <= 32,
                self.hash@.len() == 32,
                forall|j: int| 0 <= j < i ==> self.hash@[j] == 0u8,
            decreases 32 - i,
        {
            if self.hash[i] != 0 {
                return false;
            }
            i = i + 1;
        }
        self.n == u32::MAX
    }

    /// The index of the output within its transaction.
    pub fn n(&self) -> (r: u32)
        ensures
            r == self.n,
    {
        self.n
    }

    /// The id of the transaction that holds the output, as a `TxId`.
    pub fn txid(&self) -> (r: zcash_protocol::TxId) {
        txid_from_bytes(self.hash)
    }

    /// The id of the transaction that holds the output.
    pub fn hash(&self) -> (r: &[u8; 32])
        ensures
            *r == self.hash,
    {
        &self.hash
    }
}

proof fn lemma_le_value_bound4(s: Seq<u8>)
    requires
        s.len() == 4,
    ensures
        le_value(s) < 0x1_0000_0000,
{
    crate::codec::lemma_le_value_bound(s);
    lemma_pow256_values();
}

/// An input: the output it spends, its signature script in phase `A`, and
/// its sequence number.
pub struct TxIn<A: Authorization> {
    pub prevout: OutPoint,
    pub script_sig: A::ScriptSig,
    pub sequence: u32,
}

/// The encoding of an authorized input.
pub open spec fn txin_bytes(t: TxIn<Authorized>) -> Seq<u8> {
    outpoint_bytes(t.prevout) + var_bytes(t.script_sig.bytes@) + le_bytes(t.sequence as nat, 4)
}

/// Reads an authorized input from the front of `s`: its outpoint's id and
/// index, its signature script, its sequence number and the number of bytes
/// consumed.
pub open spec fn txin_decode(s: Seq<u8>) -> Result<(Seq<u8>, nat, Seq<u8>, nat, nat), DecodeError> {
    match outpoint_decode(s) {
        Err(e) => Err(e),
        Ok((h, n, k1)) => match script_decode(s.subrange(k1 as int, s.len() as int)) {
            Err(e) => Err(e),
            Ok((sig, k2)) => if s.len() < k1 + k2 + 4 {
                Err(DecodeError::UnexpectedEof)
            } else {
                Ok(
                    (
                        h,
                        n,
                        sig,
                        le_value(s.subrange((k1 + k2) as int, (k1 + k2 + 4) as int)),
                        k1 + k2 + 4,
                    ),
                )
            },
        },
    }
}

impl TxIn<Authorized> {
    /// Reads an authorized input from `input[pos..]`, with the number of bytes
    /// consumed.
    pub fn read(input: &[u8], pos: usize) -> (r: Result<(TxIn<Authorized>, usize), DecodeError>)
        requires
            pos <= input@.len(),
        ensures
            match r {
                Ok((t, k)) => txin_decode(rest(input@, pos as int)) == Ok::<
                    (Seq<u8>, nat, Seq<u8>, nat, nat),
                    DecodeError,
                >(
                    (
                        t.prevout.hash@,
                        t.prevout.n as nat,
                        t.script_sig.bytes@,
                        t.sequence as nat,
                        k as nat,
                    ),
                ),
                Err(e) => txin_decode(rest(input@, pos as int)) == Err::<
                    (Seq<u8>, nat, Seq<u8>, nat, nat),
                    DecodeError,
                >(e),
            },
    {
        let ghost s = rest(input@, pos as int);
        let (prevout, k1) = match OutPoint::read(input, pos) {
            Err(e) => return Err(e),
            Ok(x) => x,
        };
        let len = input.len();
        assert(k1 == 36 && s.len() >= 36);
        assert(pos + k1 <= len);
        assert(rest(input@, pos + k1) =~= s.subrange(k1 as int, s.len() as int));
        let (script_sig, k2) = match read_script_sig(input, pos + k1) {
            Err(e) => return Err(e),
            Ok(x) => x,
        };
        if input.len() - pos - k1 < k2 || input.len() - pos - k1 - k2 < 4 {
            return Err(DecodeError::UnexpectedEof);
        }
        let at = pos + k1 + k2;
        let sequence = read_le(input, at, 4);
        proof {
            lemma_le_value_bound4(input@.subrange(at as int, at + 4));
            assert(s.subrange(k1 + k2, k1 + k2 + 4) =~= input@.subrange(at as int, at + 4));
        }
        Ok((TxIn { prevout, script_sig, sequence: sequence as u32 }, k1 + k2 + 4))
    }

    /// Appends the encoding of this input.
    pub fn write(&self, out: &mut Vec<u8>)
        requires
            self.script_sig.wf(),
        ensures
            final(out)@ == old(out)@ + txin_bytes(*self),
    {
        self.prevout.write(out);
        write_script_sig(&self.script_sig, out);
        write_le(out, self.sequence as u64, 4);
        assert(final(out)@ =~= old(out)@ + txin_bytes(*self));
    }
}

/// An output: an amount in zatoshis and the script that locks it.
#[derive(Clone, Debug, PartialEq, Eq)]
pub struct TxOut {
    pub value: u64,
    pub script_pubkey: ScriptPubKey,
}

/// The encoding of an output: the amount in eight little-endian bytes, then
/// the length-prefixed script.
pub open spec fn txout_bytes(t: TxOut) -> Seq<u8> {
    le_bytes(t.value as nat, 8) + var_bytes(t.script_pubkey.bytes@)
}

/// Reads an output from the front of `s`: its amount, its script and the
/// number of bytes consumed.
pub open spec fn txout_decode(s: Seq<u8>) -> Result<(nat, Seq<u8>, nat), DecodeError> {
    if s.len() < 8 {
        Err(DecodeError::UnexpectedEof)
    } else if le_value(s.subrange(0, 8)) > MAX_MONEY {
        Err(DecodeError::ValueOutOfRange)
    } else {
        match script_decode(s.subrange(8, s.len() as int)) {
            Err(e) => Err(e),
            Ok((b, k)) => Ok((le_value(s.subrange(0, 8)), b, 8 + k)),
        }
    }
}

/// Relies on zcash_protocol's `Zatoshis::from_nonnegative_i64_le_bytes`,
/// which accepts exactly the signed little-endian amounts in
/// `0..=MAX_MONEY`.
#[verifier::external_body]
fn amount_from_le_bytes(bytes: [u8; 8]) -> (r: Option<u64>)
    ensures
        r == (if le_value(bytes@) <= MAX_MONEY {
            Some(le_value(bytes@) as u64)
        } else {
            None::<u64>
        }),
{
    zcash_protocol::value::Zatoshis::from_nonnegative_i64_le_bytes(bytes).ok().map(|z| z.into_u64())
}

impl TxOut {
    /// The output can be written: its amount is in range and its script
    /// parses.
    pub open spec fn wf(&self) -> bool {
        self.value <= MAX_MONEY && self.script_pubkey.wf()
    }

    /// An output of `value` zatoshis locked by `script_pubkey`.
    pub fn new(value: u64, script_pubkey: ScriptPubKey) -> (r: TxOut)
        requires
            value <= MAX_MONEY,
        ensures
            r.value == value,
            r.script_pubkey == script_pubkey,
    {
        TxOut { value, script_pubkey }
    }

    /// Reads an output from `input[pos..]`, with the number of bytes consumed.
    pub fn read(input: &[u8], pos: usize) -> (r: Result<(TxOut, usize), DecodeError>)
        requires
            pos <= input@.len(),
        ensures
            match r {
                Ok((t, k)) => txout_decode(rest(input@, pos as int)) == Ok::<
                    (nat, Seq<u8>, nat),
                    DecodeError,
                >((t.value as nat, t.script_pubkey.bytes@, k as nat)),
                Err(e) => txout_decode(rest(input@, pos as int)) == Err::<
                    (nat, Seq<u8>, nat),
                    DecodeError,
                >(e),
            },
    {
        let ghost s = rest(input@, pos as int);
        if input.len() - pos < 8 {
            return Err(DecodeError::UnexpectedEof);
        }
        let raw = copy_array8(input, pos);
        assert(raw@ =~= s.subrange(0, 8));
        let value = match amount_from_le_bytes(raw) {
            None => return Err(DecodeError::ValueOutOfRange),
            Some(v) => v,
        };
        assert(rest(input@, pos + 8) =~= s.subrange(8, s.len() as int));
        match read_script_pubkey(input, pos + 8) {
            Err(e) => Err(e),
            Ok((script_pubkey, k)) => {
                assert(k <= input@.len() - pos - 8);
                Ok((TxOut { value, script_pubkey }, 8 + k))
            },
        }
    }

    /// Appends the encoding of this output.
    pub fn write(&self, out: &mut Vec<u8>)
        requires
            self.wf(),
        ensures
            final(out)@ == old(out)@ + txout_bytes(*self),
    {
        write_le(out, self.value, 8);
        write_script_pubkey(&self.script_pubkey, out);
        assert(final(out)@ =~= old(out)@ + txout_bytes(*self));
    }

    /// The address this output pays to, if its script is one of the two
    /// templates.
    pub fn recipient_address(&self) -> (r: Option<TransparentAddress>)
        ensures
            r == identify(self.script_pubkey.bytes@),
    {
        TransparentAddress::from_script_pubkey(&self.script_pubkey)
    }
}

/// Reading back a written outpoint yields its id and index.
pub proof fn lemma_outpoint_round_trip(o: OutPoint, tail: Seq<u8>)
    ensures
        outpoint_decode(outpoint_bytes(o) + tail) == Ok::<(Seq<u8>, nat, nat), DecodeError>(
            (o.hash@, o.n as nat, 36),
        ),
        outpoint_bytes(o).len() == 36,
{
    let s = outpoint_bytes(o) + tail;
    lemma_pow256_values();
    lemma_le_bytes_len(o.n as nat, 4);
    lemma_le_round_trip(o.n as nat, 4);
    assert(o.hash@.len() == 32);
    assert(s.subrange(0, 32) =~= o.hash@);
    assert(s.subrange(32, 36) =~= le_bytes(o.n as nat, 4));
}

/// Reading back a written output yields its amount and script.
pub proof fn lemma_txout_round_trip(t: TxOut, tail: Seq<u8>)
    requires
        t.wf(),
    ensures
        txout_decode(txout_bytes(t) + tail) == Ok::<(nat, Seq<u8>, nat), DecodeError>(
            (t.value as nat, t.script_pubkey.bytes@, txout_bytes(t).len()),
        ),
{
    let b = t.script_pubkey.bytes@;
    let s = txout_bytes(t) + tail;
    lemma_pow256_values();
    lemma_le_bytes_len(t.value as nat, 8);
    lemma_le_round_trip(t.value as nat, 8);
    assert(s.subrange(0, 8) =~= le_bytes(t.value as nat, 8));
    assert(s.subrange(8, s.len() as int) =~= var_bytes(b) + tail);
    lemma_script_round_trip(b, tail);
}

/// Reading back a written authorized input yields its outpoint, signature
/// script and sequence number.
pub proof fn lemma_txin_round_trip(t: TxIn<Authorized>, tail: Seq<u8>)
    requires
        t.script_sig.wf(),
    ensures
        txin_decode(txin_bytes(t) + tail) == Ok::<
            (Seq<u8>, nat, Seq<u8>, nat, nat),
            DecodeError,
        >(
            (
                t.prevout.hash@,
                t.prevout.n as nat,
                t.script_sig.bytes@,
                t.sequence as nat,
                txin_bytes(t).len(),
            ),
        ),
{
    let sig = t.script_sig.bytes@;
    let seqb = le_bytes(t.sequence as nat, 4);
    let s = txin_bytes(t) + tail;
    lemma_outpoint_round_trip(t.prevout, var_bytes(sig) + seqb + tail);
    assert(s =~= outpoint_bytes(t.prevout) + (var_bytes(sig) + seqb + tail));
    let s1 = s.subrange(36, s.len() as int);
    assert(s1 =~= var_bytes(sig) + (seqb + tail));
    lemma_script_round_trip(sig, seqb + tail);
    lemma_pow256_values();
    lemma_le_bytes_len(t.sequence as nat, 4);
    lemma_le_round_trip(t.sequence as nat, 4);
    let k2: int = var_bytes(sig).len() as int;
    assert(s.subrange(36 + k2, 36 + k2 + 4) =~= seqb);
}

/// A bundle of inputs and outputs in authorization phase `A`.
pub struct Bundle<A: Authorization> {
    pub vin: Vec<TxIn<A>>,
    pub vout: Vec<TxOut>,
    pub authorization: A,
}

/// Why a value balance computed through a lookup failed.
#[derive(Debug, Clone, Copy, PartialEq, Eq)]
pub enum ValueBalanceError<E> {
    /// The lookup of a spent output failed.
    Lookup(E),
    /// A sum left the range of amounts.
    Balance(BalanceError),
}

/// Why a value balance could not be computed.
#[derive(Debug, Clone, Copy, PartialEq, Eq, Structural)]
pub enum BalanceError {
    Overflow,
    Underflow,
}

/// The sum of the resolved input amounts.
pub open spec fn input_total(vals: Seq<Option<u64>>) -> int
    decreases vals.len(),
{
    if vals.len() == 0 {
        0
    } else {
        input_total(vals.drop_last()) + match vals.last() {
            Some(v) => v as int,
            None => 0,
        }
    }
}

/// The sum of the output amounts.
pub open spec fn output_total(outs: Seq<TxOut>) -> int
    decreases outs.len(),
{
    if outs.len() == 0 {
        0
    } else {
        output_total(outs.drop_last()) + outs.last().value as int
    }
}

/// The net value that a bundle moves out of the transparent pool, given the
/// amounts of the outputs its inputs spend (`None` where one is unknown):
/// indeterminate when an amount is unknown, an overflow when either side
/// exceeds `MAX_MONEY`.
pub open spec fn balance(vals: Seq<Option<u64>>, outs: Seq<TxOut>) -> Result<
    Option<int>,
    BalanceError,
> {
    if has_unknown(vals) {
        Ok(None)
    } else if input_total(vals) > MAX_MONEY {
        Err(BalanceError::Overflow)
    } else if output_total(outs) > MAX_MONEY {
        Err(BalanceError::Overflow)
    } else {
        Ok(Some(input_total(vals) - output_total(outs)))
    }
}

/// Some input's amount is not known.
pub open spec fn has_unknown(vals: Seq<Option<u64>>) -> bool {
    exists|i: int| 0 <= i < vals.len() && (#[trigger] vals[i]) is None
}

/// A known amount lies in `0..=MAX_MONEY`.
pub open spec fn amount_ok(v: Option<u64>) -> bool {
    match v {
        Some(a) => a <= MAX_MONEY,
        None => true,
    }
}

pub open spec fn balance_view(r: Result<Option<i64>, BalanceError>) -> Result<
    Option<int>,
    BalanceError,
> {
    match r {
        Ok(Some(v)) => Ok(Some(v as int)),
        Ok(None) => Ok(None),
        Err(e) => Err(e),
    }
}

proof fn lemma_input_total_prefix(vals: Seq<Option<u64>>, i: int, j: int)
    requires
        0 <= i <= j <= vals.len(),
    ensures
        input_total(vals.subrange(0, i)) <= input_total(vals.subrange(0, j)),
    decreases j - i,
{
    if i < j {
        lemma_input_total_prefix(vals, i, j - 1);
        assert(vals.subrange(0, j).drop_last() =~= vals.subrange(0, j - 1));
    }
}

proof fn lemma_output_total_prefix(outs: Seq<TxOut>, i: int, j: int)
    requires
        0 <= i <= j <= outs.len(),
    ensures
        output_total(outs.subrange(0, i)) <= output_total(outs.subrange(0, j)),
    decreases j - i,
{
    if i < j {
        lemma_output_total_prefix(outs, i, j - 1);
        assert(outs.subrange(0, j).drop_last() =~= outs.subrange(0, j - 1));
    }
}

impl<A: Authorization> Bundle<A> {
    /// Whether this bundle is a coinbase: exactly one input, spending the null
    /// outpoint.
    pub fn is_coinbase(&self) -> (r: bool)
        ensures
            r == (self.vin@.len() == 1 && is_null_outpoint(self.vin@[0].prevout)),
    {
        self.vin.len() == 1 && self.vin[0].prevout.is_null()
    }

    /// Moves this bundle to phase `B`: each signature script and the
    /// authorization data go through `f`; outpoints, sequence numbers and
    /// outputs are kept, in order.
    pub fn map_authorization<B: Authorization, F: MapAuth<A, B>>(self, f: F) -> (r: Bundle<B>)
        ensures
            r.vin@.len() == self.vin@.len(),
            forall|i: int|
                0 <= i < r.vin@.len() ==> r.vin@[i].prevout == self.vin@[i].prevout
                    && r.vin@[i].sequence == self.vin@[i].sequence && r.vin@[i].script_sig
                    == f.script_sig_map(self.vin@[i].script_sig),
            r.vout == self.vout,
            r.authorization == f.authorization_map(self.authorization),
    {
        let ghost orig = self.vin@;
        let Bundle { vin, vout, authorization } = self;
        let mut rest_in = vin;
        let mut mapped: Vec<TxIn<B>> = Vec::new();
        while rest_in.len() > 0
            invariant
                mapped@.len() + rest_in@.len() == orig.len(),
                rest_in@ == orig.subrange(mapped@.len() as int, orig.len() as int),
                forall|i: int|
                    0 <= i < mapped@.len() ==> mapped@[i].prevout == orig[i].prevout
                        && mapped@[i].sequence == orig[i].sequence && mapped@[i].script_sig
                        == f.script_sig_map(orig[i].script_sig),
            decreases rest_in@.len(),
        {
            let txin = rest_in.remove(0);
            let TxIn { prevout, script_sig, sequence } = txin;
            mapped.push(TxIn { prevout, script_sig: f.map_script_sig(script_sig), sequence });
            assert(rest_in@ =~= orig.subrange(mapped@.len() as int, orig.len() as int));
        }
        Bundle { vin: mapped, vout, authorization: f.map_authorization(authorization) }
    }

    /// The net value this bundle moves out of the transparent pool, given the
    /// amount of the output each input spends, in input order (`None` where
    /// it is not known).
    pub fn value_balance_of(&self, prevout_values: &Vec<Option<u64>>) -> (r: Result<
        Option<i64>,
        BalanceError,
    >)
        requires
            prevout_values@.len() == self.vin@.len(),
            forall|i: int| 0 <= i < prevout_values@.len() ==> amount_ok(#[trigger] prevout_values@[i]),
            forall|i: int| 0 <= i < self.vout@.len() ==> self.vout@[i].value <= MAX_MONEY,
        ensures
            balance_view(r) == balance(prevout_values@, self.vout@),
    {
        let mut i: usize = 0;
        while i < prevout_values.len()
            invariant
                i <= prevout_values@.len(),
                forall|j: int| 0 <= j < i ==> prevout_values@[j] is Some,
            decreases prevout_values@.len() - i,
        {
            if prevout_values[i].is_none() {
                assert(prevout_values@[i as int] is None);
                assert(has_unknown(prevout_values@));
                return Ok(None);
            }
            i = i + 1;
        }
        assert(!has_unknown(prevout_values@));
        let mut input_sum: u64 = 0;
        let mut i: usize = 0;
        while i < prevout_values.len()
            invariant
                i <= prevout_values@.len(),
                forall|j: int| 0 <= j < prevout_values@.len() ==> prevout_values@[j] is Some,
                forall|j: int| 0 <= j < prevout_values@.len() ==> amount_ok(#[trigger] prevout_values@[j]),
                input_sum <= MAX_MONEY,
                input_sum as int == input_total(prevout_values@.subrange(0, i as int)),
            decreases prevout_values@.len() - i,
        {
            let v = match prevout_values[i] {
                Some(v) => v,
                None => 0,
            };
            assert(prevout_values@.subrange(0, i + 1).drop_last() =~= prevout_values@.subrange(0, i as int));
            assert(prevout_values@.subrange(0, i + 1).last() == prevout_values@[i as int]);
            assert(input_total(prevout_values@.subrange(0, i + 1)) == input_sum + v);
            if input_sum + v > MAX_MONEY {
                proof {
                    lemma_input_total_prefix(prevout_values@, i + 1, prevout_values@.len() as int);
                    assert(prevout_values@.subrange(0, prevout_values@.len() as int) =~= prevout_values@);
                }
                return Err(BalanceError::Overflow);
            }
            input_sum = input_sum + v;
            i = i + 1;
        }
        assert(prevout_values@.subrange(0, prevout_values@.len() as int) =~= prevout_values@);
        let mut output_sum: u64 = 0;
        let mut k: usize = 0;
        while k < self.vout.len()
            invariant
                k <= self.vout@.len(),
                !has_unknown(prevout_values@),
                input_total(prevout_values@) <= MAX_MONEY,
                forall|j: int| 0 <= j < self.vout@.len() ==> self.vout@[j].value <= MAX_MONEY,
                output_sum <= MAX_MONEY,
                output_sum as int == output_total(self.vout@.subrange(0, k as int)),
            decreases self.vout@.len() - k,
        {
            let v = self.vout[k].value;
            assert(self.vout@.subrange(0, k + 1).drop_last() =~= self.vout@.subrange(0, k as int));
            assert(self.vout@.subrange(0, k + 1).last() == self.vout@[k as int]);
            assert(output_total(self.vout@.subrange(0, k + 1)) == output_sum + v);
            if output_sum + v > MAX_MONEY {
                proof {
                    lemma_output_total_prefix(self.vout@, k + 1, self.vout@.len() as int);
                    assert(self.vout@.subrange(0, self.vout@.len() as int) =~= self.vout@);
                }
                return Err(BalanceError::Overflow);
            }
            output_sum = output_sum + v;
            k = k + 1;
        }
        assert(self.vout@.subrange(0, self.vout@.len() as int) =~= self.vout@);
        Ok(Some(input_sum as i64 - output_sum as i64))
    }

    /// The net value this bundle moves out of the transparent pool, looking
    /// up the amount of the output each input spends; indeterminate as soon
    /// as one is not known.
    pub fn value_balance<E, F: Fn(&OutPoint) -> Result<Option<u64>, E>>(
        &self,
        get_prevout_value: F,
    ) -> (r: Result<Option<i64>, ValueBalanceError<E>>)
        requires
            forall|o: &OutPoint| get_prevout_value.requires((o,)),
            forall|i: int| 0 <= i < self.vout@.len() ==> self.vout@[i].value <= MAX_MONEY,
        ensures
            self.vin@.len() == 0 ==> if output_total(self.vout@) <= MAX_MONEY {
                r matches Ok(Some(x)) && x == -output_total(self.vout@)
            } else {
                r matches Err(ValueBalanceError::Balance(BalanceError::Overflow))
            },
            r matches Ok(None) ==> exists|i: int|
                0 <= i < self.vin@.len() && get_prevout_value.ensures(
                    (&self.vin@[i].prevout,),
                    Ok::<Option<u64>, E>(None),
                ),
            r matches Ok(Some(x)) ==> exists|vals: Seq<Option<u64>>|
                #![trigger balance(vals, self.vout@)]
                looked_up(vals, self.vin@, get_prevout_value) && balance(vals, self.vout@) == Ok::<
                    Option<int>,
                    BalanceError,
                >(Some(x as int)),
            r matches Err(ValueBalanceError::Lookup(e)) ==> exists|i: int|
                0 <= i < self.vin@.len() && get_prevout_value.ensures(
                    (&self.vin@[i].prevout,),
                    Err::<Option<u64>, E>(e),
                ),
            r matches Err(ValueBalanceError::Balance(e)) ==> e == BalanceError::Overflow && exists|
                vals: Seq<Option<u64>>,
            |
                #![trigger looked_up_prefix(vals, self.vin@, get_prevout_value)]
                looked_up_prefix(vals, self.vin@, get_prevout_value) && ((exists|j: int|
                    0 <= j < vals.len() && !amount_ok(#[trigger] vals[j])) || (vals.len()
                    == self.vin@.len() && (input_total(vals) > MAX_MONEY || output_total(self.vout@)
                    > MAX_MONEY))),
    {
        let mut vals: Vec<Option<u64>> = Vec::new();
        let mut i: usize = 0;
        while i < self.vin.len()
            invariant
                i <= self.vin@.len(),
                vals@.len() == i,
                forall|o: &OutPoint| get_prevout_value.requires((o,)),
                forall|j: int|
                    0 <= j < i ==> get_prevout_value.ensures(
                        (&self.vin@[j].prevout,),
                        Ok::<Option<u64>, E>(#[trigger] vals@[j]),
                    ),
                forall|j: int| 0 <= j < i ==> (#[trigger] vals@[j]) is Some,
                forall|j: int| 0 <= j < i ==> amount_ok(#[trigger] vals@[j]),
            decreases self.vin@.len() - i,
        {
            let looked = get_prevout_value(&self.vin[i].prevout);
            match looked {
                Err(e) => {
                    return Err(ValueBalanceError::Lookup(e));
                },
                Ok(None) => {
                    return Ok(None);
                },
                Ok(Some(v)) => {
                    if v > MAX_MONEY {
                        proof {
                            let w = vals@.push(Some(v));
                            assert(!amount_ok(w[i as int]));
                            assert(looked_up_prefix(w, self.vin@, get_prevout_value));
                        }
                        return Err(ValueBalanceError::Balance(BalanceError::Overflow));
                    }
                    vals.push(Some(v));
                },
            }
            i = i + 1;
        }
        match self.value_balance_of(&vals) {
            Ok(x) => {
                assert(looked_up(vals@, self.vin@, get_prevout_value));
                Ok(x)
            },
            Err(e) => {
                assert(looked_up_prefix(vals@, self.vin@, get_prevout_value));
                Err(ValueBalanceError::Balance(e))
            },
        }
    }
}

/// `vals` holds, for the first `vals.len()` inputs in order, an amount that
/// the lookup returned for the output each spends.
pub open spec fn looked_up_prefix<A: Authorization, E, F: Fn(&OutPoint) -> Result<Option<u64>, E>>(
    vals: Seq<Option<u64>>,
    vin: Seq<TxIn<A>>,
    f: F,
) -> bool {
    &&& vals.len() <= vin.len()
    &&& forall|j: int|
        0 <= j < vals.len() ==> (#[trigger] vals[j]) is Some && f.ensures(
            (&vin[j].prevout,),
            Ok::<Option<u64>, E>(vals[j]),
        )
}

/// `vals` holds, for each input in order, an amount that the lookup returned
/// for the output it spends.
pub open spec fn looked_up<A: Authorization, E, F: Fn(&OutPoint) -> Result<Option<u64>, E>>(
    vals: Seq<Option<u64>>,
    vin: Seq<TxIn<A>>,
    f: F,
) -> bool {
    &&& vals.len() == vin.len()
    &&& forall|j: int|
        0 <= j < vals.len() ==> f.ensures((&vin[j].prevout,), Ok::<Option<u64>, E>(#[trigger] vals[j]))
}

} // verus!
