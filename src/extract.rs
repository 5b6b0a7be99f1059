//! The extractor's step for the transparent part: from the staged bundle that
//! the parties built to the minimal, fully authorized bundle.

use crate::bundle::{Authorization, Authorized, Bundle, MapAuth, OutPoint, TxIn, TxOut, MAX_MONEY};
use crate::bundle::copy_array32;
use crate::codec::copy_range;
use crate::script::{opcodes_parse, parses_as_opcodes, ScriptPubKey, ScriptSig};
use vstd::prelude::*;

verus! {

/// The phase before extraction: every input has its signature script, and
/// the outputs it spends are still attached for signature hashing.
#[derive(Debug)]
pub struct Unbound {
    pub inputs: Vec<TxOut>,
}

impl Authorization for Unbound {
    type ScriptSig = ScriptSig;
}

/// An input as the parties staged it.
#[derive(Debug, Clone)]
pub struct PartialInput {
    pub prevout_txid: Vec<u8>,
    pub prevout_index: u32,
    /// The sequence number; `u32::MAX` where none was set.
    pub sequence: Option<u32>,
    /// The amount of the spent output.
    pub value: u64,
    /// The script of the spent output.
    pub script_pubkey: Vec<u8>,
    /// The final signature script, once the input is fully signed.
    pub script_sig: Option<Vec<u8>>,
}

/// An output as the parties staged it.
#[derive(Debug, Clone)]
pub struct PartialOutput {
    pub value: u64,
    pub script_pubkey: Vec<u8>,
}

/// The transparent part of a transaction as the parties staged it.
#[derive(Debug, Clone)]
pub struct PartialBundle {
    pub inputs: Vec<PartialInput>,
    pub outputs: Vec<PartialOutput>,
}

/// The staged data is malformed.
#[derive(Debug, Clone, Copy, PartialEq, Eq, Structural)]
pub enum ParseError {
    InvalidPrevoutTxid,
    InvalidValue,
    InvalidScriptPubkey,
    InvalidScriptSig,
}

/// The staged data is well formed but cannot be finalized.
#[derive(Debug, Clone, Copy, PartialEq, Eq, Structural)]
pub enum TxExtractorError {
    MissingScriptSig,
}

/// Why the transparent part could not be extracted.
#[derive(Debug, Clone, Copy, PartialEq, Eq, Structural)]
pub enum TransparentError {
    Extract(TxExtractorError),
    Parse(ParseError),
}

/// What is wrong with a staged input, if anything.
pub open spec fn input_error(i: PartialInput) -> Option<ParseError> {
    if i.prevout_txid@.len() != 32 {
        Some(ParseError::InvalidPrevoutTxid)
    } else if i.value > MAX_MONEY {
        Some(ParseError::InvalidValue)
    } else if !opcodes_parse(i.script_pubkey@) {
        Some(ParseError::InvalidScriptPubkey)
    } else if i.script_sig matches Some(b) && !opcodes_parse(b@) {
        Some(ParseError::InvalidScriptSig)
    } else {
        None
    }
}

/// What is wrong with a staged output, if anything.
pub open spec fn output_error(o: PartialOutput) -> Option<ParseError> {
    if o.value > MAX_MONEY {
        Some(ParseError::InvalidValue)
    } else if !opcodes_parse(o.script_pubkey@) {
        Some(ParseError::InvalidScriptPubkey)
    } else {
        None
    }
}

/// The fault of the first faulty input.
pub open spec fn first_input_error(s: Seq<PartialInput>) -> Option<ParseError>
    decreases s.len(),
{
    if s.len() == 0 {
        None
    } else if input_error(s[0]) is Some {
        input_error(s[0])
    } else {
        first_input_error(s.drop_first())
    }
}

/// The fault of the first faulty output.
pub open spec fn first_output_error(s: Seq<PartialOutput>) -> Option<ParseError>
    decreases s.len(),
{
    if s.len() == 0 {
        None
    } else if output_error(s[0]) is Some {
        output_error(s[0])
    } else {
        first_output_error(s.drop_first())
    }
}

/// The first fault of a staged bundle, inputs before outputs.
pub open spec fn parse_error(b: PartialBundle) -> Option<ParseError> {
    if first_input_error(b.inputs@) is Some {
        first_input_error(b.inputs@)
    } else {
        first_output_error(b.outputs@)
    }
}

/// Some staged input has no signature script yet.
pub open spec fn missing_script_sig(b: PartialBundle) -> bool {
    exists|i: int| 0 <= i < b.inputs@.len() && (#[trigger] b.inputs@[i]).script_sig is None
}

/// The sequence number of a staged input.
pub open spec fn sequence_of(p: PartialInput) -> u32 {
    match p.sequence {
        Some(s) => s,
        None => u32::MAX,
    }
}

/// `t` is the final form of the staged input `p`.
pub open spec fn input_extracted<A: Authorization<ScriptSig = ScriptSig>>(
    t: TxIn<A>,
    p: PartialInput,
) -> bool {
    &&& t.prevout.hash@ == p.prevout_txid@
    &&& t.prevout.n == p.prevout_index
    &&& t.sequence == sequence_of(p)
    &&& p.script_sig matches Some(b) && t.script_sig.bytes@ == b@
}

/// `t` is the staged output `p`.
pub open spec fn output_extracted(t: TxOut, value: u64, script: Seq<u8>) -> bool {
    t.value == value && t.script_pubkey.bytes@ == script
}

/// `r` holds the staged inputs and outputs of `b`, in order.
pub open spec fn bundle_extracted<A: Authorization<ScriptSig = ScriptSig>>(
    r: Bundle<A>,
    b: PartialBundle,
) -> bool {
    &&& r.vin@.len() == b.inputs@.len()
    &&& r.vout@.len() == b.outputs@.len()
    &&& forall|i: int| 0 <= i < r.vin@.len() ==> input_extracted(#[trigger] r.vin@[i], b.inputs@[i])
    &&& forall|i: int|
        0 <= i < r.vout@.len() ==> output_extracted(
            #[trigger] r.vout@[i],
            b.outputs@[i].value,
            b.outputs@[i].script_pubkey@,
        )
}

/// What extraction owes on `b`: the first parse fault, else nothing where
/// the bundle is empty, else a fault where an input is unsigned.
pub open spec fn extraction_outcome(b: PartialBundle) -> Option<Option<TransparentError>> {
    if let Some(e) = parse_error(b) {
        Some(Some(TransparentError::Parse(e)))
    } else if b.inputs@.len() == 0 && b.outputs@.len() == 0 {
        Some(None)
    } else if missing_script_sig(b) {
        Some(Some(TransparentError::Extract(TxExtractorError::MissingScriptSig)))
    } else {
        None
    }
}

/// Extraction of a bundle with neither inputs nor outputs succeeds with
/// nothing.
pub proof fn lemma_extract_empty(b: PartialBundle)
    requires
        b.inputs@.len() == 0,
        b.outputs@.len() == 0,
    ensures
        extraction_outcome(b) == Some(None::<TransparentError>),
{
    assert(first_input_error(b.inputs@) is None);
    assert(first_output_error(b.outputs@) is None);
}

proof fn lemma_no_input_error(s: Seq<PartialInput>)
    requires
        first_input_error(s) is None,
    ensures
        forall|j: int| 0 <= j < s.len() ==> (#[trigger] input_error(s[j])) is None,
    decreases s.len(),
{
    if s.len() > 0 {
        lemma_no_input_error(s.drop_first());
        assert forall|j: int| 0 <= j < s.len() implies (#[trigger] input_error(s[j])) is None by {
            if j > 0 {
                assert(s[j] == s.drop_first()[j - 1]);
            }
        }
    }
}

proof fn lemma_no_output_error(s: Seq<PartialOutput>)
    requires
        first_output_error(s) is None,
    ensures
        forall|j: int| 0 <= j < s.len() ==> (#[trigger] output_error(s[j])) is None,
    decreases s.len(),
{
    if s.len() > 0 {
        lemma_no_output_error(s.drop_first());
        assert forall|j: int| 0 <= j < s.len() implies (#[trigger] output_error(s[j])) is None by {
            if j > 0 {
                assert(s[j] == s.drop_first()[j - 1]);
            }
        }
    }
}

fn check_input(p: &PartialInput) -> (r: Option<ParseError>)
    ensures
        r == input_error(*p),
{
    if p.prevout_txid.len() != 32 {
        Some(ParseError::InvalidPrevoutTxid)
    } else if p.value > MAX_MONEY {
        Some(ParseError::InvalidValue)
    } else if !parses_as_opcodes(p.script_pubkey.as_slice()) {
        Some(ParseError::InvalidScriptPubkey)
    } else {
        match &p.script_sig {
            Some(b) => if !parses_as_opcodes(b.as_slice()) {
                Some(ParseError::InvalidScriptSig)
            } else {
                None
            },
            None => None,
        }
    }
}

fn check_output(o: &PartialOutput) -> (r: Option<ParseError>)
    ensures
        r == output_error(*o),
{
    if o.value > MAX_MONEY {
        Some(ParseError::InvalidValue)
    } else if !parses_as_opcodes(o.script_pubkey.as_slice()) {
        Some(ParseError::InvalidScriptPubkey)
    } else {
        None
    }
}

/// The first fault of a staged bundle, if any.
pub fn find_parse_error(b: &PartialBundle) -> (r: Option<ParseError>)
    ensures
        r == parse_error(*b),
{
    let n = b.inputs.len();
    assert(b.inputs@.subrange(0, n as int) =~= b.inputs@);
    let mut i: usize = 0;
    while i < n
        invariant
            i <= n,
            n == b.inputs@.len(),
            first_input_error(b.inputs@) == first_input_error(b.inputs@.subrange(i as int, n as int)),
        decreases n - i,
    {
        let ghost tail = b.inputs@.subrange(i as int, n as int);
        assert(tail[0] == b.inputs@[i as int]);
        if let Some(e) = check_input(&b.inputs[i]) {
            return Some(e);
        }
        assert(tail.drop_first() =~= b.inputs@.subrange(i + 1, n as int));
        i = i + 1;
    }
    assert(b.inputs@.subrange(n as int, n as int).len() == 0);
    let m = b.outputs.len();
    assert(b.outputs@.subrange(0, m as int) =~= b.outputs@);
    let mut k: usize = 0;
    while k < m
        invariant
            k <= m,
            m == b.outputs@.len(),
            first_input_error(b.inputs@) is None,
            first_output_error(b.outputs@) == first_output_error(
                b.outputs@.subrange(k as int, m as int),
            ),
        decreases m - k,
    {
        let ghost tail = b.outputs@.subrange(k as int, m as int);
        assert(tail[0] == b.outputs@[k as int]);
        if let Some(e) = check_output(&b.outputs[k]) {
            return Some(e);
        }
        assert(tail.drop_first() =~= b.outputs@.subrange(k + 1, m as int));
        k = k + 1;
    }
    assert(b.outputs@.subrange(m as int, m as int).len() == 0);
    None
}

/// `r` holds the staged bundle `b` in the unbound phase, with the spent
/// outputs attached in input order.
pub open spec fn unbound_extracted(r: Bundle<Unbound>, b: PartialBundle) -> bool {
    &&& bundle_extracted(r, b)
    &&& r.authorization.inputs@.len() == b.inputs@.len()
    &&& forall|i: int|
        0 <= i < b.inputs@.len() ==> output_extracted(
            #[trigger] r.authorization.inputs@[i],
            b.inputs@[i].value,
            b.inputs@[i].script_pubkey@,
        )
}

/// Parses the staged bundle and collects each input's final signature
/// script, keeping the spent outputs; `None` where the bundle has neither
/// inputs nor outputs.
pub fn extract_bundle(bundle: PartialBundle) -> (r: Result<Option<Bundle<Unbound>>, TransparentError>)
    ensures
        match extraction_outcome(bundle) {
            Some(Some(e)) => r == Err::<Option<Bundle<Unbound>>, TransparentError>(e),
            Some(None) => r matches Ok(None),
            None => r matches Ok(Some(x)) && unbound_extracted(x, bundle),
        },
{
    if let Some(e) = find_parse_error(&bundle) {
        return Err(TransparentError::Parse(e));
    }
    proof {
        lemma_no_input_error(bundle.inputs@);
        lemma_no_output_error(bundle.outputs@);
    }
    if bundle.inputs.len() == 0 && bundle.outputs.len() == 0 {
        return Ok(None);
    }
    let mut vin: Vec<TxIn<Unbound>> = Vec::new();
    let mut spent: Vec<TxOut> = Vec::new();
    let n = bundle.inputs.len();
    let mut i: usize = 0;
    while i < n
        invariant
            i <= n,
            n == bundle.inputs@.len(),
            parse_error(bundle) is None,
            forall|j: int| 0 <= j < n ==> (#[trigger] input_error(bundle.inputs@[j])) is None,
            forall|j: int| 0 <= j < i ==> (#[trigger] bundle.inputs@[j]).script_sig is Some,
            vin@.len() == i,
            spent@.len() == i,
            forall|j: int| 0 <= j < i ==> input_extracted(#[trigger] vin@[j], bundle.inputs@[j]),
            forall|j: int|
                0 <= j < i ==> output_extracted(
                    #[trigger] spent@[j],
                    bundle.inputs@[j].value,
                    bundle.inputs@[j].script_pubkey@,
                ),
        decreases n - i,
    {
        let p = &bundle.inputs[i];
        assert(input_error(bundle.inputs@[i as int]) is None);
        let sig = match &p.script_sig {
            None => {
                assert(bundle.inputs@[i as int].script_sig is None);
                return Err(TransparentError::Extract(TxExtractorError::MissingScriptSig));
            },
            Some(b) => copy_range(b.as_slice(), 0, b.len()),
        };
        let hash = copy_array32(p.prevout_txid.as_slice(), 0);
        let sequence = match p.sequence {
            Some(s) => s,
            None => u32::MAX,
        };
        proof {
            assert(sig@ =~= p.script_sig->0@);
            assert(hash@ =~= p.prevout_txid@);
        }
        let spk = copy_range(p.script_pubkey.as_slice(), 0, p.script_pubkey.len());
        assert(spk@ =~= p.script_pubkey@);
        vin.push(
            TxIn {
                prevout: OutPoint::new(hash, p.prevout_index),
                script_sig: ScriptSig { bytes: sig },
                sequence,
            },
        );
        spent.push(TxOut { value: p.value, script_pubkey: ScriptPubKey { bytes: spk } });
        i = i + 1;
    }
    assert(!missing_script_sig(bundle));
    let mut vout: Vec<TxOut> = Vec::new();
    let m = bundle.outputs.len();
    let mut k: usize = 0;
    while k < m
        invariant
            k <= m,
            m == bundle.outputs@.len(),
            vout@.len() == k,
            forall|j: int|
                0 <= j < k ==> output_extracted(
                    #[trigger] vout@[j],
                    bundle.outputs@[j].value,
                    bundle.outputs@[j].script_pubkey@,
                ),
        decreases m - k,
    {
        let o = &bundle.outputs[k];
        let spk = copy_range(o.script_pubkey.as_slice(), 0, o.script_pubkey.len());
        assert(spk@ =~= o.script_pubkey@);
        vout.push(TxOut { value: o.value, script_pubkey: ScriptPubKey { bytes: spk } });
        k = k + 1;
    }
    let r = Bundle { vin, vout, authorization: Unbound { inputs: spent } };
    Ok(Some(r))
}

/// Drops the spent outputs and moves the signature scripts over unchanged.
pub struct RemoveInputInfo;

impl MapAuth<Unbound, Authorized> for RemoveInputInfo {
    open spec fn script_sig_map(&self, s: ScriptSig) -> ScriptSig {
        s
    }

    open spec fn authorization_map(&self, a: Unbound) -> Authorized {
        Authorized
    }

    fn map_script_sig(&self, s: ScriptSig) -> (r: ScriptSig) {
        s
    }

    fn map_authorization(&self, a: Unbound) -> (r: Authorized) {
        Authorized
    }
}

/// Extracts the fully authorized transparent bundle from the staged one:
/// each input keeps its outpoint, sequence number and signature script, the
/// spent outputs are dropped, and `None` stands for an empty bundle.
pub fn extract(bundle: PartialBundle) -> (r: Result<Option<Bundle<Authorized>>, TransparentError>)
    ensures
        match extraction_outcome(bundle) {
            Some(Some(e)) => r == Err::<Option<Bundle<Authorized>>, TransparentError>(e),
            Some(None) => r matches Ok(None),
            None => r matches Ok(Some(x)) && bundle_extracted(x, bundle),
        },
{
    let ghost staged = bundle;
    let unbound = match extract_bundle(bundle) {
        Err(e) => return Err(e),
        Ok(None) => return Ok(None),
        Ok(Some(u)) => u,
    };
    proof {
        lemma_no_input_error(staged.inputs@);
    }
    let mut i: usize = 0;
    while i < unbound.vin.len()
        invariant
            i <= unbound.vin@.len(),
            unbound_extracted(unbound, staged),
            forall|j: int|
                0 <= j < staged.inputs@.len() ==> (#[trigger] input_error(staged.inputs@[j])) is None,
        decreases unbound.vin@.len() - i,
    {
        assert(input_extracted(unbound.vin@[i as int], staged.inputs@[i as int]));
        assert(input_error(staged.inputs@[i as int]) is None);
        // The signature scripts were parsed when the bundle was staged; parse
        // them once more before they become final, and let the proof show
        // that this cannot fail.
        if !unbound.vin[i].script_sig.is_valid() {
            proof {
                assert(false);
            }
        }
        i = i + 1;
    }
    let r = unbound.map_authorization(RemoveInputInfo);
    assert forall|j: int| 0 <= j < r.vin@.len() implies input_extracted(
        #[trigger] r.vin@[j],
        staged.inputs@[j],
    ) by {
        assert(input_extracted(unbound.vin@[j], staged.inputs@[j]));
    }
    Ok(Some(r))
}

} // verus!
