//! Transparent addresses and the two script templates that pay to them.

use crate::script::ScriptPubKey;
use vstd::prelude::*;

verus! {

/// A transparent address: the hash of a public key or of a script.
#[derive(Clone, Copy, Debug, PartialEq, Eq, PartialOrd, Ord, Hash)]
pub enum TransparentAddress {
    PublicKeyHash([u8; 20]),
    ScriptHash([u8; 20]),
}

/// The pay-to-public-key-hash script: `DUP HASH160 <h> EQUALVERIFY CHECKSIG`.
pub open spec fn p2pkh_template(h: Seq<u8>) -> Seq<u8> {
    seq![0x76u8, 0xa9u8, 0x14u8] + h + seq![0x88u8, 0xacu8]
}

/// The pay-to-script-hash script: `HASH160 <h> EQUAL`.
pub open spec fn p2sh_template(h: Seq<u8>) -> Seq<u8> {
    seq![0xa9u8, 0x14u8] + h + seq![0x87u8]
}

/// The script that pays to `a`.
pub open spec fn script_of(a: TransparentAddress) -> Seq<u8> {
    match a {
        TransparentAddress::PublicKeyHash(h) => p2pkh_template(h@),
        TransparentAddress::ScriptHash(h) => p2sh_template(h@),
    }
}

/// The address whose template `s` is, if it is one.
pub open spec fn identify(s: Seq<u8>) -> Option<TransparentAddress> {
    if exists|a: TransparentAddress| script_of(a) == s {
        Some(choose|a: TransparentAddress| script_of(a) == s)
    } else {
        None
    }
}

/// Distinct addresses have distinct scripts.
pub proof fn lemma_script_of_injective(a: TransparentAddress, b: TransparentAddress)
    requires
        script_of(a) == script_of(b),
    ensures
        a == b,
{
    match (a, b) {
        (TransparentAddress::PublicKeyHash(x), TransparentAddress::PublicKeyHash(y)) => {
            assert(x@ =~= script_of(a).subrange(3, 23));
            assert(y@ =~= script_of(b).subrange(3, 23));
            assert(x =~= y);
        },
        (TransparentAddress::ScriptHash(x), TransparentAddress::ScriptHash(y)) => {
            assert(x@ =~= script_of(a).subrange(2, 22));
            assert(y@ =~= script_of(b).subrange(2, 22));
            assert(x =~= y);
        },
        (TransparentAddress::PublicKeyHash(x), TransparentAddress::ScriptHash(y)) => {
            assert(x@.len() == 20 && y@.len() == 20);
            assert(p2pkh_template(x@).len() == 25);
            assert(p2sh_template(y@).len() == 23);
        },
        (TransparentAddress::ScriptHash(x), TransparentAddress::PublicKeyHash(y)) => {
            assert(x@.len() == 20 && y@.len() == 20);
            assert(p2sh_template(x@).len() == 23);
            assert(p2pkh_template(y@).len() == 25);
        },
    }
}

/// A script that is no address's template is recognised as none.
pub proof fn lemma_identify_unmatched(s: Seq<u8>)
    requires
        forall|b: TransparentAddress| script_of(b) != s,
    ensures
        identify(s) is None,
{
}

/// Every address is recognised in its own script.
pub proof fn lemma_identify_script_of(a: TransparentAddress)
    ensures
        identify(script_of(a)) == Some(a),
{
    let c = choose|c: TransparentAddress| script_of(c) == script_of(a);
    lemma_script_of_injective(a, c);
}

/// The RIPEMD-160 digest of the SHA-256 digest of `b`.
pub uninterp spec fn hash160_of(b: Seq<u8>) -> Seq<u8>;

/// Relies on sha2's `Sha256::digest` and ripemd's `Ripemd160::digest`: a
/// 20-byte digest that depends on the bytes alone.
#[verifier::external_body]
fn hash160(b: &[u8]) -> (r: [u8; 20])
    ensures
        r@ == hash160_of(b@),
{
    let inner = <sha2::Sha256 as sha2::Digest>::digest(b);
    <ripemd::Ripemd160 as ripemd::Digest>::digest(inner).into()
}

#[verifier::external_type_specification]
#[verifier::external_body]
pub struct ExPublicKey(secp256k1::PublicKey);

/// Relies on secp256k1's `PublicKey::serialize`: the 33-byte compressed form.
#[verifier::external_body]
fn serialize_pubkey(pk: &secp256k1::PublicKey) -> (r: [u8; 33]) {
    pk.serialize()
}

fn copy_hash(b: &[u8], start: usize) -> (h: [u8; 20])
    requires
        start + 20 <= b@.len(),
    ensures
        h@ == b@.subrange(start as int, start + 20),
{
    let len = b.len();
    let mut h: [u8; 20] = [0u8; 20];
    let mut i: usize = 0;
    while i < 20
        invariant
            i <= 20,
            start + 20 <= b@.len(),
            len == b@.len(),
            h@.len() == 20,
            forall|j: int| 0 <= j < i ==> h@[j] == b@[start + j],
        decreases 20 - i,
    {
        h[i] = b[start + i];
        i = i + 1;
    }
    assert(h@ =~= b@.subrange(start as int, start + 20));
    h
}

impl TransparentAddress {
    /// Returns the address that this script pays to, if it is one of the two
    /// templates.
    pub fn from_script_pubkey(script_pubkey: &ScriptPubKey) -> (r: Option<TransparentAddress>)
        ensures
            r == identify(script_pubkey.bytes@),
    {
        let b = script_pubkey.bytes.as_slice();
        let ghost s = b@;
        let n = b.len();
        if n == 25 && b[0] == 0x76 && b[1] == 0xa9 && b[2] == 0x14 && b[23] == 0x88 && b[24]
            == 0xac {
            let h = copy_hash(b, 3);
            let r = TransparentAddress::PublicKeyHash(h);
            proof {
                assert(script_of(r) =~= s);
                lemma_identify_script_of(r);
            }
            Some(r)
        } else if n == 23 && b[0] == 0xa9 && b[1] == 0x14 && b[22] == 0x87 {
            let h = copy_hash(b, 2);
            let r = TransparentAddress::ScriptHash(h);
            proof {
                assert(script_of(r) =~= s);
                lemma_identify_script_of(r);
            }
            Some(r)
        } else {
            proof {
                assert forall|a: TransparentAddress| script_of(a) != s by {
                    if script_of(a) == s {
                        match a {
                            TransparentAddress::PublicKeyHash(x) => {
                                assert(script_of(a)[23] == 0x88u8);
                                assert(script_of(a)[24] == 0xacu8);
                            },
                            TransparentAddress::ScriptHash(x) => {
                                assert(script_of(a)[22] == 0x87u8);
                            },
                        }
                    }
                }
                lemma_identify_unmatched(s);
            }
            None
        }
    }

    /// The public-key-hash address of a serialized public key.
    pub fn from_pubkey_bytes(pubkey: &[u8]) -> (r: TransparentAddress)
        ensures
            r matches TransparentAddress::PublicKeyHash(h) && h@ == hash160_of(pubkey@),
    {
        TransparentAddress::PublicKeyHash(hash160(pubkey))
    }

    /// The public-key-hash address of `pubkey`, hashed in its compressed form.
    pub fn from_pubkey(pubkey: &secp256k1::PublicKey) -> (r: TransparentAddress)
        ensures
            exists|ser: Seq<u8>|
                #![trigger hash160_of(ser)]
                ser.len() == 33 && (r matches TransparentAddress::PublicKeyHash(h) && h@
                    == hash160_of(ser)),
    {
        let bytes = serialize_pubkey(pubkey);
        Self::from_pubkey_bytes(&bytes)
    }

    /// The script that pays to this address.
    pub fn script(&self) -> (r: ScriptPubKey)
        ensures
            r.bytes@ == script_of(*self),
    {
        let mut v: Vec<u8> = Vec::new();
        match self {
            TransparentAddress::PublicKeyHash(h) => {
                v.push(0x76u8);
                v.push(0xa9u8);
                v.push(0x14u8);
                push_hash(&mut v, h);
                v.push(0x88u8);
                v.push(0xacu8);
            },
            TransparentAddress::ScriptHash(h) => {
                v.push(0xa9u8);
                v.push(0x14u8);
                push_hash(&mut v, h);
                v.push(0x87u8);
            },
        }
        assert(v@ =~= script_of(*self));
        ScriptPubKey { bytes: v }
    }
}

fn push_hash(v: &mut Vec<u8>, h: &[u8; 20])
    ensures
        final(v)@ == old(v)@ + h@,
{
    let mut i: usize = 0;
    while i < 20
        invariant
            i <= 20,
            v@ == old(v)@ + h@.subrange(0, i as int),
        decreases 20 - i,
    {
        v.push(h[i]);
        assert(h@.subrange(0, i + 1) =~= h@.subrange(0, i as int).push(h@[i as int]));
        i = i + 1;
    }
    assert(h@.subrange(0, 20) =~= h@);
}

} // verus!
