//! Signature scripts and public-key scripts, and their length-prefixed
//! encoding.

use crate::codec::{
    lemma_var_bytes_round_trip, read_var_bytes, rest, var_bytes,
    var_bytes_decode, write_var_bytes, DecodeError, MAX_COMPACT_SIZE,
};
use vstd::prelude::*;

verus! {

/// Whether `b` is a sequence of opcodes that zcash_script recognises.
pub uninterp spec fn opcodes_parse(b: Seq<u8>) -> bool;

/// Relies on zcash_script's `Component::<Opcode>::parse`, which succeeds
/// exactly when every opcode in the bytes is recognised; the answer depends on
/// the bytes alone.
#[verifier::external_body]
pub(crate) fn parses_as_opcodes(b: &[u8]) -> (r: bool)
    ensures
        r == opcodes_parse(b@),
{
    zcash_script::script::PubKey::parse(&zcash_script::script::Code(b.to_vec())).is_ok()
}

/// The script attached to an input, proving that it may spend.
#[derive(Debug, Clone, PartialEq, Eq)]
pub struct ScriptSig {
    pub bytes: Vec<u8>,
}

/// The script attached to an output, stating how it may be spent.
#[derive(Debug, Clone, PartialEq, Eq)]
pub struct ScriptPubKey {
    pub bytes: Vec<u8>,
}

impl ScriptSig {
    /// The script can be written: it parses, and its length fits a compact size.
    pub open spec fn wf(&self) -> bool {
        opcodes_parse(self.bytes@) && self.bytes@.len() <= MAX_COMPACT_SIZE
    }

    /// Whether the bytes still parse as opcodes.
    pub fn is_valid(&self) -> (r: bool)
        ensures
            r == opcodes_parse(self.bytes@),
    {
        parses_as_opcodes(self.bytes.as_slice())
    }

    /// Parses `bytes` as a signature script.
    pub fn from_bytes(bytes: Vec<u8>) -> (r: Option<ScriptSig>)
        ensures
            r is Some <==> opcodes_parse(bytes@),
            r matches Some(s) ==> s.bytes@ == bytes@,
    {
        if parses_as_opcodes(bytes.as_slice()) {
            Some(ScriptSig { bytes })
        } else {
            None
        }
    }
}

impl ScriptPubKey {
    /// The script can be written: it parses, and its length fits a compact size.
    pub open spec fn wf(&self) -> bool {
        opcodes_parse(self.bytes@) && self.bytes@.len() <= MAX_COMPACT_SIZE
    }

    /// Parses `bytes` as a public-key script.
    pub fn from_bytes(bytes: Vec<u8>) -> (r: Option<ScriptPubKey>)
        ensures
            r is Some <==> opcodes_parse(bytes@),
            r matches Some(s) ==> s.bytes@ == bytes@,
    {
        if parses_as_opcodes(bytes.as_slice()) {
            Some(ScriptPubKey { bytes })
        } else {
            None
        }
    }
}

/// Reads a length-prefixed script from the front of `s`: its bytes and the
/// number of input bytes consumed. The bytes must parse as opcodes.
pub open spec fn script_decode(s: Seq<u8>) -> Result<(Seq<u8>, nat), DecodeError> {
    match var_bytes_decode(s) {
        Err(e) => Err(e),
        Ok((b, k)) => if opcodes_parse(b) {
            Ok((b, k))
        } else {
            Err(DecodeError::InvalidScript)
        },
    }
}

/// Reading back a written script yields the same bytes.
pub proof fn lemma_script_round_trip(b: Seq<u8>, tail: Seq<u8>)
    requires
        opcodes_parse(b),
        b.len() <= MAX_COMPACT_SIZE,
    ensures
        script_decode(var_bytes(b) + tail) == Ok::<(Seq<u8>, nat), DecodeError>(
            (b, var_bytes(b).len()),
        ),
{
    lemma_var_bytes_round_trip(b, tail);
}

fn read_script_bytes(input: &[u8], pos: usize) -> (r: Result<(Vec<u8>, usize), DecodeError>)
    requires
        pos <= input@.len(),
    ensures
        match r {
            Ok((b, k)) => script_decode(rest(input@, pos as int)) == Ok::<
                (Seq<u8>, nat),
                DecodeError,
            >((b@, k as nat)),
            Err(e) => script_decode(rest(input@, pos as int)) == Err::<
                (Seq<u8>, nat),
                DecodeError,
            >(e),
        },
{
    match read_var_bytes(input, pos) {
        Err(e) => Err(e),
        Ok((b, k)) => {
            if parses_as_opcodes(b.as_slice()) {
                Ok((b, k))
            } else {
                Err(DecodeError::InvalidScript)
            }
        },
    }
}

/// Reads a signature script from `input[pos..]`, with the number of bytes
/// consumed.
pub fn read_script_sig(input: &[u8], pos: usize) -> (r: Result<(ScriptSig, usize), DecodeError>)
    requires
        pos <= input@.len(),
    ensures
        match r {
            Ok((s, k)) => script_decode(rest(input@, pos as int)) == Ok::<
                (Seq<u8>, nat),
                DecodeError,
            >((s.bytes@, k as nat)),
            Err(e) => script_decode(rest(input@, pos as int)) == Err::<
                (Seq<u8>, nat),
                DecodeError,
            >(e),
        },
{
    match read_script_bytes(input, pos) {
        Err(e) => Err(e),
        Ok((bytes, k)) => Ok((ScriptSig { bytes }, k)),
    }
}

/// Reads a public-key script from `input[pos..]`, with the number of bytes
/// consumed.
pub fn read_script_pubkey(input: &[u8], pos: usize) -> (r: Result<
    (ScriptPubKey, usize),
    DecodeError,
>)
    requires
        pos <= input@.len(),
    ensures
        match r {
            Ok((s, k)) => script_decode(rest(input@, pos as int)) == Ok::<
                (Seq<u8>, nat),
                DecodeError,
            >((s.bytes@, k as nat)),
            Err(e) => script_decode(rest(input@, pos as int)) == Err::<
                (Seq<u8>, nat),
                DecodeError,
            >(e),
        },
{
    match read_script_bytes(input, pos) {
        Err(e) => Err(e),
        Ok((bytes, k)) => Ok((ScriptPubKey { bytes }, k)),
    }
}

/// Appends raw script bytes, preceded by their length.
pub fn write_script_code(script_code: &[u8], out: &mut Vec<u8>)
    requires
        script_code@.len() <= MAX_COMPACT_SIZE,
    ensures
        final(out)@ == old(out)@ + var_bytes(script_code@),
{
    write_var_bytes(out, script_code);
}

/// Appends a signature script, preceded by its length.
pub fn write_script_sig(script_sig: &ScriptSig, out: &mut Vec<u8>)
    requires
        script_sig.bytes@.len() <= MAX_COMPACT_SIZE,
    ensures
        final(out)@ == old(out)@ + var_bytes(script_sig.bytes@),
{
    write_script_code(script_sig.bytes.as_slice(), out);
}

/// Appends a public-key script, preceded by its length.
pub fn write_script_pubkey(script_pubkey: &ScriptPubKey, out: &mut Vec<u8>)
    requires
        script_pubkey.bytes@.len() <= MAX_COMPACT_SIZE,
    ensures
        final(out)@ == old(out)@ + var_bytes(script_pubkey.bytes@),
{
    write_script_code(script_pubkey.bytes.as_slice(), out);
}

/// Relies on zcash_encoding's `Vector::serialized_size_of_u8_vec`: the
/// length of the bytes plus that of their compact-size prefix.
#[verifier::external_body]
fn serialized_size_of_bytes(b: &[u8]) -> (r: usize)
    requires
        b@.len() <= MAX_COMPACT_SIZE,
    ensures
        r == var_bytes(b@).len(),
{
    zcash_encoding::Vector::serialized_size_of_u8_vec(b)
}

/// The length of a public-key script as written, its length prefix included.
pub fn serialized_script_pubkey_size(script_pubkey: &ScriptPubKey) -> (r: usize)
    requires
        script_pubkey.bytes@.len() <= MAX_COMPACT_SIZE,
    ensures
        r == var_bytes(script_pubkey.bytes@).len(),
{
    serialized_size_of_bytes(script_pubkey.bytes.as_slice())
}

} // verus!
