use zcash_transparent::address::TransparentAddress;
use zcash_transparent::bundle::{
    Authorized, BalanceError, Bundle, EffectsOnly, MapAuth, OutPoint, TxIn, TxOut,
    ValueBalanceError, MAX_MONEY,
};
use zcash_transparent::codec::{read_compact_size, write_compact_size, DecodeError};
use zcash_transparent::extract::{
    extract, extract_bundle, ParseError, PartialBundle, PartialInput, PartialOutput,
    RemoveInputInfo, TransparentError, TxExtractorError,
};
use zcash_transparent::script::{
    read_script_pubkey, read_script_sig, serialized_script_pubkey_size, write_script_code,
    ScriptPubKey, ScriptSig,
};
use zcash_transparent::test_vectors::transparent_ovk;

fn p2pkh_bytes(h: u8) -> Vec<u8> {
    let mut v = vec![0x76, 0xa9, 0x14];
    v.extend_from_slice(&[h; 20]);
    v.extend_from_slice(&[0x88, 0xac]);
    v
}

fn sig(bytes: Vec<u8>) -> ScriptSig {
    ScriptSig::from_bytes(bytes).expect("valid script")
}

fn spk(bytes: Vec<u8>) -> ScriptPubKey {
    ScriptPubKey::from_bytes(bytes).expect("valid script")
}

fn null_outpoint() -> OutPoint {
    OutPoint::new([0; 32], u32::MAX)
}

fn txin(prevout: OutPoint) -> TxIn<Authorized> {
    TxIn { prevout, script_sig: sig(vec![0x51]), sequence: 7 }
}

fn bundle(vin: Vec<TxIn<Authorized>>, values: &[u64]) -> Bundle<Authorized> {
    let vout = values.iter().map(|v| TxOut::new(*v, spk(vec![0x51]))).collect();
    Bundle { vin, vout, authorization: Authorized }
}

#[test]
fn p2pkh() {
    let addr = TransparentAddress::PublicKeyHash([4; 20]);
    assert_eq!(
        addr.script(),
        ScriptPubKey {
            bytes: vec![
                0x76, 0xa9, 0x14, 0x04, 0x04, 0x04, 0x04, 0x04, 0x04, 0x04, 0x04, 0x04, 0x04,
                0x04, 0x04, 0x04, 0x04, 0x04, 0x04, 0x04, 0x04, 0x04, 0x04, 0x88, 0xac,
            ]
        }
    );
    assert_eq!(
        TransparentAddress::from_script_pubkey(&addr.script()),
        Some(addr)
    );
}

#[test]
fn p2sh() {
    let addr = TransparentAddress::ScriptHash([7; 20]);
    assert_eq!(
        addr.script(),
        ScriptPubKey {
            bytes: vec![
                0xa9, 0x14, 0x07, 0x07, 0x07, 0x07, 0x07, 0x07, 0x07, 0x07, 0x07, 0x07, 0x07,
                0x07, 0x07, 0x07, 0x07, 0x07, 0x07, 0x07, 0x07, 0x07, 0x87,
            ]
        }
    );
    assert_eq!(
        TransparentAddress::from_script_pubkey(&addr.script()),
        Some(addr)
    );
}

#[test]
fn pubkey_hash_template_scenario() {
    let addr = TransparentAddress::PublicKeyHash([4; 20]);
    let script = addr.script();
    assert_eq!(script.bytes, p2pkh_bytes(4));
    assert_eq!(
        TransparentAddress::from_script_pubkey(&script),
        Some(TransparentAddress::PublicKeyHash([4; 20]))
    );
}

#[test]
fn unmatched_scripts_identify_as_none() {
    for bytes in [
        vec![],
        vec![0x51],
        p2pkh_bytes(4)[..24].to_vec(),
        {
            let mut v = p2pkh_bytes(4);
            v[24] = 0xad;
            v
        },
        {
            let mut v = TransparentAddress::ScriptHash([9; 20]).script().bytes;
            v.push(0x00);
            v
        },
    ] {
        assert_eq!(
            TransparentAddress::from_script_pubkey(&ScriptPubKey { bytes }),
            None
        );
    }
}

#[test]
fn recipient_address_of_output() {
    let out = TxOut::new(5, TransparentAddress::ScriptHash([3; 20]).script());
    assert_eq!(
        out.recipient_address(),
        Some(TransparentAddress::ScriptHash([3; 20]))
    );
    assert_eq!(TxOut::new(5, spk(vec![0x51])).recipient_address(), None);
}

#[test]
fn pubkey_hash_of_generator_point() {
    let pk: Vec<u8> = vec![
        0x02, 0x79, 0xbe, 0x66, 0x7e, 0xf9, 0xdc, 0xbb, 0xac, 0x55, 0xa0, 0x62, 0x95, 0xce, 0x87,
        0x0b, 0x07, 0x02, 0x9b, 0xfc, 0xdb, 0x2d, 0xce, 0x28, 0xd9, 0x59, 0xf2, 0x81, 0x5b, 0x16,
        0xf8, 0x17, 0x98,
    ];
    let expected = [
        0x75, 0x1e, 0x76, 0xe8, 0x19, 0x91, 0x96, 0xd4, 0x54, 0x94, 0x1c, 0x45, 0xd1, 0xb3, 0xa3,
        0x23, 0xf1, 0x43, 0x3b, 0xd6,
    ];
    assert_eq!(
        TransparentAddress::from_pubkey_bytes(&pk),
        TransparentAddress::PublicKeyHash(expected)
    );
    let key = secp256k1::PublicKey::from_slice(&pk).expect("valid key");
    assert_eq!(
        TransparentAddress::from_pubkey(&key),
        TransparentAddress::PublicKeyHash(expected)
    );
}

#[test]
fn outpoint_encoding_scenario() {
    let op = OutPoint::new([1; 32], 1);
    let mut out = Vec::new();
    op.write(&mut out);
    let mut expected = vec![1u8; 32];
    expected.extend_from_slice(&[1, 0, 0, 0]);
    assert_eq!(out, expected);
    let (back, used) = OutPoint::read(&out, 0).expect("decodes");
    assert_eq!(back, op);
    assert_eq!(used, 36);
    assert_eq!(back, OutPoint::fake());
    assert_eq!(back.n(), 1);
    assert_eq!(back.hash(), &[1u8; 32]);
    assert_eq!(back.txid(), zcash_protocol::TxId::from_bytes([1; 32]));
}

#[test]
fn outpoint_read_needs_36_bytes() {
    assert_eq!(OutPoint::read(&[0u8; 35], 0), Err(DecodeError::UnexpectedEof));
    let mut bytes = vec![0xeeu8; 3];
    bytes.extend_from_slice(&[2u8; 32]);
    bytes.extend_from_slice(&[0x78, 0x56, 0x34, 0x12]);
    let (op, used) = OutPoint::read(&bytes, 3).expect("decodes");
    assert_eq!(op, OutPoint::new([2; 32], 0x1234_5678));
    assert_eq!(used, 36);
}

#[test]
fn txout_round_trip() {
    let out = TxOut::new(MAX_MONEY, spk(p2pkh_bytes(6)));
    let mut bytes = Vec::new();
    out.write(&mut bytes);
    assert_eq!(&bytes[..8], &MAX_MONEY.to_le_bytes());
    assert_eq!(bytes[8], 25);
    assert_eq!(bytes.len(), 8 + 1 + 25);
    bytes.push(0xaa);
    let (back, used) = TxOut::read(&bytes, 0).expect("decodes");
    assert_eq!(back, out);
    assert_eq!(used, 34);
}

#[test]
fn txout_rejects_out_of_range_values() {
    let mut over = (MAX_MONEY + 1).to_le_bytes().to_vec();
    over.extend_from_slice(&[1, 0x51]);
    assert_eq!(TxOut::read(&over, 0), Err(DecodeError::ValueOutOfRange));
    let mut negative = (-1i64).to_le_bytes().to_vec();
    negative.extend_from_slice(&[1, 0x51]);
    assert_eq!(TxOut::read(&negative, 0), Err(DecodeError::ValueOutOfRange));
    assert_eq!(TxOut::read(&[0u8; 7], 0), Err(DecodeError::UnexpectedEof));
}

#[test]
fn txin_round_trip() {
    let input = TxIn::<Authorized> {
        prevout: OutPoint::new([9; 32], 3),
        script_sig: sig(vec![0x51, 0x52, 0x53]),
        sequence: 0xfffffffe,
    };
    let mut bytes = Vec::new();
    input.write(&mut bytes);
    let mut expected = vec![9u8; 32];
    expected.extend_from_slice(&[3, 0, 0, 0, 3, 0x51, 0x52, 0x53, 0xfe, 0xff, 0xff, 0xff]);
    assert_eq!(bytes, expected);
    let (back, used) = TxIn::<Authorized>::read(&bytes, 0).expect("decodes");
    assert_eq!(back.prevout, input.prevout);
    assert_eq!(back.script_sig, input.script_sig);
    assert_eq!(back.sequence, input.sequence);
    assert_eq!(used, bytes.len());
    assert_eq!(
        TxIn::<Authorized>::read(&bytes[..bytes.len() - 1], 0).err(),
        Some(DecodeError::UnexpectedEof)
    );
}

#[test]
fn scripts_with_unknown_opcodes_are_rejected() {
    assert_eq!(read_script_sig(&[1, 0x7e], 0).err(), Some(DecodeError::InvalidScript));
    assert_eq!(read_script_pubkey(&[1, 0x7e], 0).err(), Some(DecodeError::InvalidScript));
    assert_eq!(read_script_pubkey(&[2, 0x14, 0x00], 0).err(), Some(DecodeError::InvalidScript));
    assert!(ScriptSig::from_bytes(vec![0x7e]).is_none());
    let (s, used) = read_script_pubkey(&[1, 0x51, 0x00], 0).expect("decodes");
    assert_eq!(s.bytes, vec![0x51]);
    assert_eq!(used, 2);
}

#[test]
fn script_length_prefix_must_match_input() {
    assert_eq!(read_script_sig(&[3, 0x51], 0).err(), Some(DecodeError::UnexpectedEof));
    assert_eq!(read_script_sig(&[], 0).err(), Some(DecodeError::UnexpectedEof));
}

#[test]
fn compact_sizes_are_canonical() {
    let mut out = Vec::new();
    write_compact_size(&mut out, 252);
    write_compact_size(&mut out, 253);
    write_compact_size(&mut out, 0x1_0000);
    assert_eq!(out, vec![252, 0xfd, 0xfd, 0x00, 0xfe, 0x00, 0x00, 0x01, 0x00]);
    assert_eq!(read_compact_size(&out, 1), Ok((253, 3)));
    assert_eq!(read_compact_size(&out, 4), Ok((0x1_0000, 5)));
    assert_eq!(
        read_compact_size(&[0xfd, 0xfc, 0x00], 0),
        Err(DecodeError::InvalidCompactSize)
    );
    assert_eq!(
        read_compact_size(&[0xfe, 0xff, 0xff, 0x00, 0x00], 0),
        Err(DecodeError::InvalidCompactSize)
    );
    assert_eq!(
        read_compact_size(&[0xfe, 0x01, 0x00, 0x00, 0x02], 0),
        Err(DecodeError::InvalidCompactSize)
    );
    assert_eq!(
        read_compact_size(&[0xff, 0, 0, 0, 0, 1, 0, 0, 0], 0),
        Err(DecodeError::InvalidCompactSize)
    );
    assert_eq!(
        read_compact_size(&[0xff, 0, 0, 0, 0x80, 0, 0, 0, 0], 0),
        Err(DecodeError::InvalidCompactSize)
    );
    assert_eq!(read_compact_size(&[0xfd, 0x00], 0), Err(DecodeError::UnexpectedEof));
}

#[test]
fn script_sizes_include_the_prefix() {
    assert_eq!(serialized_script_pubkey_size(&spk(p2pkh_bytes(1))), 26);
    let long = ScriptPubKey { bytes: vec![0x51; 300] };
    assert_eq!(serialized_script_pubkey_size(&long), 303);
    let mut out = Vec::new();
    write_script_code(&long.bytes, &mut out);
    assert_eq!(out.len(), 303);
    assert_eq!(&out[..3], &[0xfd, 0x2c, 0x01]);
}

#[test]
fn coinbase_predicate() {
    assert!(bundle(vec![txin(null_outpoint())], &[1, 2]).is_coinbase());
    assert!(bundle(vec![txin(null_outpoint())], &[]).is_coinbase());
    assert!(!bundle(vec![txin(null_outpoint()), txin(OutPoint::fake())], &[1]).is_coinbase());
    assert!(!bundle(vec![], &[1]).is_coinbase());
    assert!(!bundle(vec![txin(OutPoint::new([0; 32], 0))], &[]).is_coinbase());
    assert!(!bundle(vec![txin(OutPoint::new([1; 32], u32::MAX))], &[]).is_coinbase());
}

#[test]
fn value_balance_of_resolved_inputs() {
    let b = bundle(vec![txin(OutPoint::fake()), txin(OutPoint::new([2; 32], 0))], &[30, 5]);
    assert_eq!(b.value_balance_of(&vec![Some(10), Some(20)]), Ok(Some(-5)));
    assert_eq!(b.value_balance_of(&vec![Some(100), Some(20)]), Ok(Some(85)));
    assert_eq!(b.value_balance_of(&vec![Some(10), None]), Ok(None));
}

#[test]
fn value_balance_through_lookup() {
    let b = bundle(vec![txin(OutPoint::new([2; 32], 0)), txin(OutPoint::new([3; 32], 1))], &[30, 5]);
    let known = |o: &OutPoint| -> Result<Option<u64>, String> {
        Ok(match o.n() {
            0 => Some(100),
            1 => Some(20),
            _ => None,
        })
    };
    assert_eq!(b.value_balance(known), Ok(Some(85)));
    let partial = |o: &OutPoint| -> Result<Option<u64>, String> {
        Ok(if o.n() == 0 { Some(100) } else { None })
    };
    assert_eq!(b.value_balance(partial), Ok(None));
    let failing = |_: &OutPoint| -> Result<Option<u64>, String> { Err("offline".to_string()) };
    assert_eq!(
        b.value_balance(failing),
        Err(ValueBalanceError::Lookup("offline".to_string()))
    );
    let huge = |_: &OutPoint| -> Result<Option<u64>, String> { Ok(Some(MAX_MONEY)) };
    assert_eq!(
        b.value_balance(huge),
        Err(ValueBalanceError::Balance(BalanceError::Overflow))
    );
}

#[test]
fn value_balance_without_inputs_never_looks_up() {
    let never = |_: &OutPoint| -> Result<Option<u64>, String> { Err("called".to_string()) };
    assert_eq!(bundle(vec![], &[7, 8]).value_balance(never), Ok(Some(-15)));
    assert_eq!(
        bundle(vec![], &[MAX_MONEY, 1]).value_balance(never),
        Err(ValueBalanceError::Balance(BalanceError::Overflow))
    );
}

#[test]
fn value_balance_overflow() {
    let b = bundle(vec![txin(OutPoint::fake()), txin(OutPoint::fake())], &[1]);
    assert_eq!(
        b.value_balance_of(&vec![Some(MAX_MONEY), Some(1)]),
        Err(BalanceError::Overflow)
    );
    let b = bundle(vec![txin(OutPoint::fake())], &[MAX_MONEY, 1]);
    assert_eq!(b.value_balance_of(&vec![Some(0)]), Err(BalanceError::Overflow));
    let b = bundle(vec![txin(OutPoint::fake()), txin(OutPoint::fake())], &[]);
    assert_eq!(b.value_balance_of(&vec![Some(MAX_MONEY), None]), Ok(None));
    let b = bundle(vec![], &[MAX_MONEY]);
    assert_eq!(b.value_balance_of(&vec![]), Ok(Some(-(MAX_MONEY as i64))));
}

#[test]
fn identity_map_keeps_everything() {
    let b = bundle(vec![txin(OutPoint::fake()), txin(null_outpoint())], &[4, 5]);
    let m = b.map_authorization(());
    assert_eq!(m.vin.len(), 2);
    assert_eq!(m.vin[0].prevout, OutPoint::fake());
    assert_eq!(m.vin[1].prevout, null_outpoint());
    assert_eq!(m.vin[1].sequence, 7);
    assert_eq!(m.vin[0].script_sig.bytes, vec![0x51]);
    assert_eq!(m.vout.len(), 2);
    assert_eq!(m.vout[1].value, 5);
    assert_eq!(().map_script_sig(sig(vec![0x52])).bytes, vec![0x52]);
}

#[test]
fn effects_only_reports_spent_outputs() {
    let e = EffectsOnly {
        inputs: vec![TxOut::new(3, spk(vec![0x51])), TxOut::new(8, spk(p2pkh_bytes(2)))],
    };
    assert_eq!(e.input_amounts(), vec![3, 8]);
    let scripts = e.input_scriptpubkeys();
    assert_eq!(scripts.len(), 2);
    assert_eq!(scripts[1].bytes, p2pkh_bytes(2));
}

fn staged_input(script_sig: Option<Vec<u8>>) -> PartialInput {
    PartialInput {
        prevout_txid: vec![5; 32],
        prevout_index: 2,
        sequence: None,
        value: 1000,
        script_pubkey: p2pkh_bytes(8),
        script_sig,
    }
}

fn staged_output(value: u64) -> PartialOutput {
    PartialOutput { value, script_pubkey: p2pkh_bytes(9) }
}

#[test]
fn extracting_an_empty_bundle_gives_none() {
    let empty = PartialBundle { inputs: vec![], outputs: vec![] };
    assert!(matches!(extract(empty.clone()), Ok(None)));
    assert!(matches!(extract_bundle(empty), Ok(None)));
}

#[test]
fn extraction_finalizes_inputs() {
    let staged = PartialBundle {
        inputs: vec![staged_input(Some(vec![0x51, 0x52]))],
        outputs: vec![staged_output(900)],
    };
    let unbound = extract_bundle(staged.clone()).ok().flatten().expect("extracts");
    assert_eq!(unbound.authorization.inputs.len(), 1);
    assert_eq!(unbound.authorization.inputs[0].value, 1000);
    let b = extract(staged).ok().flatten().expect("extracts");
    assert_eq!(b.vin.len(), 1);
    assert_eq!(b.vin[0].prevout, OutPoint::new([5; 32], 2));
    assert_eq!(b.vin[0].sequence, u32::MAX);
    assert_eq!(b.vin[0].script_sig.bytes, vec![0x51, 0x52]);
    assert_eq!(b.vout.len(), 1);
    assert_eq!(b.vout[0].value, 900);
    assert_eq!(b.vout[0].script_pubkey.bytes, p2pkh_bytes(9));
    let again = extract_bundle(PartialBundle {
        inputs: vec![staged_input(Some(vec![0x51]))],
        outputs: vec![],
    })
    .ok()
    .flatten()
    .expect("extracts")
    .map_authorization(RemoveInputInfo);
    assert_eq!(again.vin[0].script_sig.bytes, vec![0x51]);
}

#[test]
fn extraction_reports_missing_signatures() {
    let staged = PartialBundle {
        inputs: vec![staged_input(Some(vec![0x51])), staged_input(None)],
        outputs: vec![],
    };
    assert_eq!(
        extract(staged).err(),
        Some(TransparentError::Extract(TxExtractorError::MissingScriptSig))
    );
}

#[test]
fn extraction_reports_parse_errors_first() {
    let mut bad_txid = staged_input(None);
    bad_txid.prevout_txid = vec![5; 31];
    let staged = PartialBundle { inputs: vec![bad_txid], outputs: vec![] };
    assert_eq!(
        extract(staged).err(),
        Some(TransparentError::Parse(ParseError::InvalidPrevoutTxid))
    );
    let staged = PartialBundle {
        inputs: vec![staged_input(Some(vec![0x7e]))],
        outputs: vec![],
    };
    assert_eq!(
        extract(staged).err(),
        Some(TransparentError::Parse(ParseError::InvalidScriptSig))
    );
    let staged = PartialBundle {
        inputs: vec![staged_input(Some(vec![0x51]))],
        outputs: vec![staged_output(MAX_MONEY + 1)],
    };
    assert_eq!(
        extract(staged).err(),
        Some(TransparentError::Parse(ParseError::InvalidValue))
    );
    let mut bad_spk = staged_input(Some(vec![0x51]));
    bad_spk.script_pubkey = vec![0x7e];
    let staged = PartialBundle { inputs: vec![bad_spk], outputs: vec![] };
    assert_eq!(
        extract(staged).err(),
        Some(TransparentError::Parse(ParseError::InvalidScriptPubkey))
    );
}

#[test]
fn ovk_vectors_are_complete() {
    let v = transparent_ovk();
    assert_eq!(v.len(), 10);
    assert_eq!(v[0].c[0], 0x5d);
    assert_eq!(v[0].pk[0], 0x02);
    assert_eq!(v[1].external_ovk[0], 0x8d);
    assert_eq!(v[1].internal_ovk[31], 0xf6);
}
