//! Verification of spending conditions and authorizations.
//!
//! Given a spending condition and the exact sighash bytes it authorizes,
//! verification produces either a confirmed signer identity or a failure.
//! A structural mismatch (a witness hash mode over an uncompressed key)
//! fails fast with an incompatibility error; any signature or identity
//! mismatch fails with one undifferentiated authorization error, so a caller
//! is never told which part failed.

use vstd::prelude::*;
use crate::auth::{
    field_views, spec_enc_auth_field, spec_enc_spending_condition, spec_field_key,
    MultisigHashMode, MultisigSpendingCondition, MultisigSpendingConditionV,
    SinglesigHashMode, SinglesigSpendingCondition, SinglesigSpendingConditionV,
    TransactionAuth, TransactionAuthField, TransactionAuthFieldV, TransactionAuthV,
    TransactionPublicKeyEncoding, TransactionSpendingCondition, TransactionSpendingConditionV,
};
use crate::codec;
use crate::codec::be_bytes;
use crate::crypto;
use crate::error::Error;
use crate::hashes::{bytes_eq, Txid};

verus! {

/// A single-signature condition is structurally compatible unless it pairs
/// the witness hash mode with an uncompressed key encoding.
pub open spec fn spec_singlesig_compat(c: SinglesigSpendingConditionV) -> bool {
    c.hash_mode is P2WPKH ==> c.key_encoding is Compressed
}

/// Whether an authorization field carries (or recovers to) a compressed key.
pub open spec fn spec_field_compressed(f: TransactionAuthFieldV) -> bool {
    match f {
        TransactionAuthFieldV::PublicKey(k) => k.len() == 33,
        TransactionAuthFieldV::Signature(e, _) => e is Compressed,
    }
}

/// A multi-signature condition is structurally compatible unless it pairs
/// the witness hash mode with any uncompressed field.
pub open spec fn spec_multisig_compat(c: MultisigSpendingConditionV) -> bool {
    c.hash_mode is P2WSH ==> forall|i: int|
        0 <= i < c.fields.len() ==> spec_field_compressed(#[trigger] c.fields[i])
}

/// Structural compatibility of a spending condition with its own hash mode.
pub open spec fn spec_cond_compat(c: TransactionSpendingConditionV) -> bool {
    match c {
        TransactionSpendingConditionV::Singlesig(s) => spec_singlesig_compat(s),
        TransactionSpendingConditionV::Multisig(m) => spec_multisig_compat(m),
    }
}

/// A single-signature condition verifies exactly when its signature recovers
/// to a key (re-encoded as the condition demands) whose 160-bit hash is the
/// claimed signer hash.
pub open spec fn spec_verify_singlesig_ok(c: SinglesigSpendingConditionV, sighash: Seq<u8>) -> bool {
    match spec_field_key(TransactionAuthFieldV::Signature(c.key_encoding, c.signature), sighash) {
        None => false,
        Some(k) => crypto::hash160_of(k) == c.signer,
    }
}

/// Folding one field into the rolling sighash: the next sighash commits to
/// the current one and to the field's canonical encoding, so a later signer
/// signs a value that already commits to the material before it.
pub open spec fn spec_next_sighash(sighash: Seq<u8>, f: TransactionAuthFieldV) -> Seq<u8> {
    crypto::sha512_256_of(sighash + spec_enc_auth_field(f))
}

/// Processing the fields of a multi-signature condition in stored order:
/// each field resolves to a key against the sighash in effect after all
/// prior fields were folded in.  Yields the ordered keys, the final sighash,
/// and how many fields were signatures; `None` when any resolution fails.
pub open spec fn spec_fold_fields(fields: Seq<TransactionAuthFieldV>, sighash: Seq<u8>) -> Option<
    (Seq<Seq<u8>>, Seq<u8>, nat),
>
    decreases fields.len(),
{
    if fields.len() == 0 {
        Some((Seq::empty(), sighash, 0))
    } else {
        match spec_field_key(fields[0], sighash) {
            None => None,
            Some(k) => match spec_fold_fields(fields.skip(1), spec_next_sighash(sighash, fields[0])) {
                None => None,
                Some((ks, h, c)) => Some(
                    (
                        seq![k] + ks,
                        h,
                        (c + (if fields[0] is Signature {
                            1int
                        } else {
                            0int
                        })) as nat,
                    ),
                ),
            },
        }
    }
}

/// How many of the fields are signatures.
pub open spec fn spec_num_signatures(fields: Seq<TransactionAuthFieldV>) -> nat
    decreases fields.len(),
{
    if fields.len() == 0 {
        0
    } else {
        (spec_num_signatures(fields.skip(1)) + (if fields[0] is Signature {
            1int
        } else {
            0int
        })) as nat
    }
}

/// Law: a successful fold resolves one key per field and counts exactly the
/// signature fields.
pub proof fn lemma_fold_count(fields: Seq<TransactionAuthFieldV>, sighash: Seq<u8>)
    ensures
        spec_fold_fields(fields, sighash) matches Some((ks, _, c)) ==> ks.len() == fields.len()
            && c == spec_num_signatures(fields),
    decreases fields.len(),
{
    if fields.len() > 0 {
        lemma_fold_count(fields.skip(1), spec_next_sighash(sighash, fields[0]));
    }
}

/// Whether a key is a well-formed serialization (33 or 65 bytes).
pub open spec fn key_wf(k: Seq<u8>) -> bool {
    k.len() == 33 || k.len() == 65
}

/// Canonical encoding of an ordered key list: each key prefixed by its
/// length byte.
pub open spec fn spec_enc_keys(keys: Seq<Seq<u8>>) -> Seq<u8>
    decreases keys.len(),
{
    if keys.len() == 0 {
        Seq::empty()
    } else {
        be_bytes(keys[0].len() as int, 1) + keys[0] + spec_enc_keys(keys.skip(1))
    }
}

/// The signer-hash preimage of a multi-signature account: the threshold,
/// then the ordered resolved keys.
pub open spec fn spec_multisig_payload(keys: Seq<Seq<u8>>, req: u16) -> Seq<u8> {
    be_bytes(req as int, 2) + spec_enc_keys(keys)
}

/// The derived signer hash of a multi-signature account.
pub open spec fn spec_multisig_signer(keys: Seq<Seq<u8>>, req: u16) -> Seq<u8> {
    crypto::hash160_of(spec_multisig_payload(keys, req))
}

/// Appending a key appends its length byte and bytes.
pub proof fn lemma_enc_keys_snoc(keys: Seq<Seq<u8>>, k: Seq<u8>)
    ensures
        spec_enc_keys(keys.push(k)) == spec_enc_keys(keys) + (be_bytes(k.len() as int, 1) + k),
    decreases keys.len(),
{
    if keys.len() == 0 {
        assert(keys.push(k)[0] == k);
        assert(keys.push(k).skip(1) =~= Seq::<Seq<u8>>::empty());
        assert(spec_enc_keys(Seq::<Seq<u8>>::empty()) =~= Seq::<u8>::empty());
        assert(spec_enc_keys(keys.push(k)) =~= spec_enc_keys(keys) + (be_bytes(
            k.len() as int,
            1,
        ) + k));
    } else {
        assert(keys.push(k).skip(1) =~= keys.skip(1).push(k));
        lemma_enc_keys_snoc(keys.skip(1), k);
        assert(be_bytes(keys[0].len() as int, 1) + keys[0] + (spec_enc_keys(keys.skip(1))
            + (be_bytes(k.len() as int, 1) + k)) =~= (be_bytes(keys[0].len() as int, 1) + keys[0]
            + spec_enc_keys(keys.skip(1))) + (be_bytes(k.len() as int, 1) + k));
    }
}

/// Law (non-malleability of the key-list encoding): the encoding determines
/// the ordered key list — reordering the keys or substituting a different
/// key set changes the encoded bytes.
pub proof fn lemma_enc_keys_injective(k1: Seq<Seq<u8>>, k2: Seq<Seq<u8>>)
    requires
        forall|i: int| 0 <= i < k1.len() ==> key_wf(#[trigger] k1[i]),
        forall|i: int| 0 <= i < k2.len() ==> key_wf(#[trigger] k2[i]),
        spec_enc_keys(k1) == spec_enc_keys(k2),
    ensures
        k1 == k2,
    decreases k1.len(),
{
    codec::lemma_be_bytes_len(0, 1);
    if k1.len() == 0 && k2.len() == 0 {
        assert(k1 =~= k2);
    } else if k1.len() == 0 {
        codec::lemma_be_bytes_len(k2[0].len() as int, 1);
        assert(spec_enc_keys(k2).len() > 0);
        assert(false);
    } else if k2.len() == 0 {
        codec::lemma_be_bytes_len(k1[0].len() as int, 1);
        assert(spec_enc_keys(k1).len() > 0);
        assert(false);
    } else {
        let e = spec_enc_keys(k1);
        let a0 = k1[0];
        let b0 = k2[0];
        codec::lemma_be_bytes_one(a0.len() as int);
        codec::lemma_be_bytes_one(b0.len() as int);
        assert(e[0] == a0.len() as u8);
        assert(e[0] == b0.len() as u8);
        assert(a0.len() == b0.len());
        let len = a0.len() as int;
        assert forall|j: int| 0 <= j < len implies e[1 + j] == a0[j] by {
            assert((be_bytes(len, 1) + a0)[1 + j] == a0[j]);
        }
        assert forall|j: int| 0 <= j < len implies e[1 + j] == b0[j] by {
            assert((be_bytes(len, 1) + b0)[1 + j] == b0[j]);
        }
        assert(a0 =~= b0);
        let r1 = spec_enc_keys(k1.skip(1));
        let r2 = spec_enc_keys(k2.skip(1));
        assert(e.len() == 1 + len + r1.len());
        assert(e.len() == 1 + len + r2.len());
        assert forall|j: int| 0 <= j < r1.len() implies r1[j] == e[1 + len + j] by {
            assert((be_bytes(len, 1) + a0 + r1)[1 + len + j] == r1[j]);
        }
        assert forall|j: int| 0 <= j < r2.len() implies r2[j] == e[1 + len + j] by {
            assert((be_bytes(len, 1) + b0 + r2)[1 + len + j] == r2[j]);
        }
        assert(r1 =~= r2);
        assert(forall|i: int| 0 <= i < k1.skip(1).len() ==> key_wf(#[trigger] k1.skip(1)[i]));
        assert(forall|i: int| 0 <= i < k2.skip(1).len() ==> key_wf(#[trigger] k2.skip(1)[i]));
        lemma_enc_keys_injective(k1.skip(1), k2.skip(1));
        assert(k1.len() == k2.len());
        assert forall|i: int| 0 <= i < k1.len() implies k1[i] == k2[i] by {
            if i > 0 {
                assert(k1.skip(1)[i - 1] == k2.skip(1)[i - 1]);
            }
        }
        assert(k1 =~= k2);
    }
}

/// Law (non-malleability of the multi-signature account identity): the
/// signer-hash preimage determines the ordered key list and the threshold,
/// so reordering fields, changing the threshold, or substituting a key set
/// changes the hashed bytes.
pub proof fn lemma_multisig_payload_injective(
    k1: Seq<Seq<u8>>,
    req1: u16,
    k2: Seq<Seq<u8>>,
    req2: u16,
)
    requires
        forall|i: int| 0 <= i < k1.len() ==> key_wf(#[trigger] k1[i]),
        forall|i: int| 0 <= i < k2.len() ==> key_wf(#[trigger] k2[i]),
        spec_multisig_payload(k1, req1) == spec_multisig_payload(k2, req2),
    ensures
        k1 == k2,
        req1 == req2,
{
    let e1 = be_bytes(req1 as int, 2);
    let e2 = be_bytes(req2 as int, 2);
    codec::lemma_be_bytes_len(req1 as int, 2);
    codec::lemma_be_bytes_len(req2 as int, 2);
    let r1 = spec_enc_keys(k1);
    let r2 = spec_enc_keys(k2);
    let p = spec_multisig_payload(k1, req1);
    assert(p == e1 + r1);
    assert(p == e2 + r2);
    assert(r1.len() == r2.len());
    assert forall|j: int| 0 <= j < 2 implies e1[j] == e2[j] by {
        assert((e1 + r1)[j] == e1[j]);
        assert((e2 + r2)[j] == e2[j]);
    }
    assert(e1 =~= e2);
    assert(codec::pow256(0) == 1);
    assert(codec::pow256(1) == 256);
    assert(codec::pow256(2) == 0x10000);
    codec::lemma_be_val_be_bytes(req1 as int, 2);
    codec::lemma_be_val_be_bytes(req2 as int, 2);
    assert forall|j: int| 0 <= j < r1.len() implies r1[j] == r2[j] by {
        assert((e1 + r1)[2 + j] == r1[j]);
        assert((e2 + r2)[2 + j] == r2[j]);
    }
    assert(r1 =~= r2);
    lemma_enc_keys_injective(k1, k2);
}

/// A multi-signature condition verifies exactly when every field resolves,
/// at least the required number of fields are signatures, and the resolved
/// keys with the threshold hash to the claimed signer hash.
pub open spec fn spec_verify_multisig_ok(c: MultisigSpendingConditionV, sighash: Seq<u8>) -> bool {
    match spec_fold_fields(c.fields, sighash) {
        None => false,
        Some((ks, _, cnt)) => cnt >= c.signatures_required && spec_multisig_signer(
            ks,
            c.signatures_required,
        ) == c.signer,
    }
}

/// Whether a spending condition verifies against a sighash (compatibility
/// included).
pub open spec fn spec_cond_ok(c: TransactionSpendingConditionV, sighash: Seq<u8>) -> bool {
    match c {
        TransactionSpendingConditionV::Singlesig(s) => spec_singlesig_compat(s)
            && spec_verify_singlesig_ok(s, sighash),
        TransactionSpendingConditionV::Multisig(m) => spec_multisig_compat(m)
            && spec_verify_multisig_ok(m, sighash),
    }
}

/// Law: a single-signature condition whose signature recovers to key `k`
/// (with uncompressed form `ku`) verifies exactly when its claimed signer
/// hash is the 160-bit hash of the key re-encoded as the condition demands;
/// any other claimed signer hash fails.  A recovered key always has an
/// uncompressed form, as the recovery wrapper's contract states.
pub proof fn lemma_singlesig_soundness(
    c: SinglesigSpendingConditionV,
    sighash: Seq<u8>,
    k: Seq<u8>,
    ku: Seq<u8>,
)
    requires
        crypto::recovered_pubkey_of(sighash, c.signature) == Some(k),
        c.key_encoding is Uncompressed ==> crypto::uncompressed_form_of(k) == Some(ku),
    ensures
        spec_verify_singlesig_ok(c, sighash) <==> c.signer == crypto::hash160_of(
            if c.key_encoding is Compressed {
                k
            } else {
                ku
            },
        ),
{
}

/// Continuing a partial fold: prepends the keys and signature count already
/// accumulated.
pub open spec fn spec_fold_cont(
    ks: Seq<Seq<u8>>,
    c: nat,
    rest: Option<(Seq<Seq<u8>>, Seq<u8>, nat)>,
) -> Option<(Seq<Seq<u8>>, Seq<u8>, nat)> {
    match rest {
        None => None,
        Some((ks2, h2, c2)) => Some((ks + ks2, h2, (c + c2) as nat)),
    }
}

/// The byte strings of a list of keys.
pub open spec fn key_views(ks: Seq<Vec<u8>>) -> Seq<Seq<u8>> {
    ks.map_values(|k: Vec<u8>| k@)
}

impl SinglesigSpendingCondition {
    /// Verifies the condition against the exact sighash it authorizes:
    /// recovers the public key from the signature, re-encodes it as the
    /// condition demands, hashes it, and requires equality with the claimed
    /// signer hash.  An incompatible structure fails fast with the
    /// incompatibility error; any recovery or identity mismatch fails with
    /// one undifferentiated authorization error.
    pub fn verify(&self, sighash: &Txid) -> (r: Result<(), Error>)
        requires
            self.wf(),
            sighash.wf(),
        ensures
            r is Ok <==> (spec_singlesig_compat(self@) && spec_verify_singlesig_ok(
                self@,
                sighash@,
            )),
            r matches Err(e) ==> ((e is IncompatibleSpendingConditionError) <==> !spec_singlesig_compat(
                self@,
            )) && ((e is InvalidStacksTransaction) <==> (spec_singlesig_compat(self@)
                && !spec_verify_singlesig_ok(self@, sighash@))),
    {
        let compat = match (self.hash_mode, self.key_encoding) {
            (SinglesigHashMode::P2WPKH, TransactionPublicKeyEncoding::Uncompressed) => false,
            _ => true,
        };
        if !compat {
            return Err(Error::IncompatibleSpendingConditionError);
        }
        let k33 = match crypto::secp256k1_recover(&sighash.0, &self.signature.0) {
            Some(k) => k,
            None => {
                return Err(
                    Error::InvalidStacksTransaction(
                        "signature does not match signer identity".to_string(),
                    ),
                );
            },
        };
        let key = match self.key_encoding {
            TransactionPublicKeyEncoding::Compressed => k33,
            TransactionPublicKeyEncoding::Uncompressed => {
                match crypto::secp256k1_decompress(&k33) {
                    Some(k65) => k65,
                    None => {
                        return Err(
                            Error::InvalidStacksTransaction(
                                "signature does not match signer identity".to_string(),
                            ),
                        );
                    },
                }
            },
        };
        let h = crypto::hash160(&key);
        if bytes_eq(&h, &self.signer.0) {
            Ok(())
        } else {
            Err(
                Error::InvalidStacksTransaction(
                    "signature does not match signer identity".to_string(),
                ),
            )
        }
    }
}

impl MultisigSpendingCondition {
    /// Verifies the condition against the exact sighash it authorizes.
    /// Fields are processed in stored order under the rolling sighash; after
    /// all fields resolve, at least `signatures_required` of them must be
    /// signatures, and the ordered keys with the threshold must hash to the
    /// claimed signer hash.  An incompatible structure fails fast with the
    /// incompatibility error; everything else fails with one
    /// undifferentiated authorization error.
    pub fn verify(&self, sighash: &Txid) -> (r: Result<(), Error>)
        requires
            self.wf(),
            sighash.wf(),
        ensures
            r is Ok <==> (spec_multisig_compat(self@) && spec_verify_multisig_ok(self@, sighash@)),
            r matches Err(e) ==> ((e is IncompatibleSpendingConditionError)
                <==> !spec_multisig_compat(self@)) && ((e is InvalidStacksTransaction) <==> (
            spec_multisig_compat(self@) && !spec_verify_multisig_ok(self@, sighash@))),
    {
        let is_p2wsh = match self.hash_mode {
            MultisigHashMode::P2WSH => true,
            MultisigHashMode::P2SH => false,
        };
        if is_p2wsh {
            let mut i: usize = 0;
            while i < self.fields.len()
                invariant
                    i <= self.fields@.len(),
                    self@.wf(),
                    self@.hash_mode is P2WSH,
                    forall|j: int|
                        0 <= j < i ==> spec_field_compressed(#[trigger] field_views(self.fields@)[j]),
                decreases self.fields@.len() - i,
            {
                let ok = match &self.fields[i] {
                    TransactionAuthField::PublicKey(k) => k.data.len() == 33,
                    TransactionAuthField::Signature(e, _) => match e {
                        TransactionPublicKeyEncoding::Compressed => true,
                        TransactionPublicKeyEncoding::Uncompressed => false,
                    },
                };
                if !ok {
                    proof {
                        assert(!spec_field_compressed(field_views(self.fields@)[i as int]));
                        assert(self@.fields == field_views(self.fields@));
                        assert(!spec_multisig_compat(self@));
                    }
                    return Err(Error::IncompatibleSpendingConditionError);
                }
                i = i + 1;
            }
            proof {
                assert(spec_multisig_compat(self@));
            }
        }
        proof {
            assert(spec_multisig_compat(self@));
        }
        let ghost fv = field_views(self.fields@);
        let ghost h0 = sighash@;
        let mut cur: Vec<u8> = codec::dup_bytes(&sighash.0);
        let mut keys: Vec<Vec<u8>> = Vec::new();
        let mut nsigs: usize = 0;
        let mut i: usize = 0;
        proof {
            assert(fv.skip(0) =~= fv);
            match spec_fold_fields(fv, h0) {
                Some((ks, h, c)) => {
                    assert(Seq::<Seq<u8>>::empty() + ks =~= ks);
                },
                None => {},
            }
        }
        while i < self.fields.len()
            invariant
                i <= self.fields@.len(),
                self@.wf(),
                sighash.wf(),
                spec_multisig_compat(self@),
                fv == field_views(self.fields@),
                h0 == sighash@,
                cur@.len() == 32,
                keys@.len() == i,
                nsigs <= i,
                spec_fold_fields(fv, h0) == spec_fold_cont(
                    key_views(keys@),
                    nsigs as nat,
                    spec_fold_fields(fv.skip(i as int), cur@),
                ),
            decreases self.fields@.len() - i,
        {
            let ghost keys0 = key_views(keys@);
            let ghost cur0 = cur@;
            proof {
                assert(fv.skip(i as int)[0] == fv[i as int]);
                assert(fv.skip(i as int).skip(1) =~= fv.skip(i as int + 1));
                assert(fv[i as int].wf());
            }
            let f = &self.fields[i];
            let key = match f.get_public_key(&cur) {
                Ok(k) => k,
                Err(_) => {
                    return Err(
                        Error::InvalidStacksTransaction(
                            "signature does not match signer identity".to_string(),
                        ),
                    );
                },
            };
            let is_sig = f.is_signature();
            keys.push(key.data);
            if is_sig {
                nsigs = nsigs + 1;
            }
            let mut folded = codec::dup_bytes(&cur);
            f.encode_to(&mut folded);
            cur = crypto::sha512_256(&folded);
            proof {
                assert(key_views(keys@) =~= keys0.push(key@));
                let rest = spec_fold_fields(fv.skip(i as int + 1), cur@);
                match rest {
                    Some((ks2, h2, c2)) => {
                        assert(keys0 + (seq![key@] + ks2) =~= keys0.push(key@) + ks2);
                    },
                    None => {},
                }
            }
            i = i + 1;
        }
        proof {
            assert(fv.skip(fv.len() as int) =~= Seq::<TransactionAuthFieldV>::empty());
            assert(key_views(keys@) + Seq::<Seq<u8>>::empty() =~= key_views(keys@));
        }
        if nsigs < self.signatures_required as usize {
            return Err(
                Error::InvalidStacksTransaction(
                    "signature does not match signer identity".to_string(),
                ),
            );
        }
        let mut payload: Vec<u8> = Vec::new();
        codec::push_be(&mut payload, self.signatures_required as u64, 2);
        let mut j: usize = 0;
        while j < keys.len()
            invariant
                j <= keys@.len(),
                self@.wf(),
                spec_multisig_compat(self@),
                nsigs >= self@.signatures_required,
                spec_fold_fields(field_views(self.fields@), sighash@) == Some(
                    (key_views(keys@), cur@, nsigs as nat),
                ),
                payload@ =~= be_bytes(self.signatures_required as int, 2) + spec_enc_keys(
                    key_views(keys@).take(j as int),
                ),
            decreases keys@.len() - j,
        {
            let ghost pre = key_views(keys@).take(j as int);
            codec::push_be(&mut payload, keys[j].len() as u64, 1);
            codec::push_bytes(&mut payload, &keys[j]);
            proof {
                lemma_enc_keys_snoc(pre, keys@[j as int]@);
                assert(pre.push(keys@[j as int]@) =~= key_views(keys@).take(j as int + 1));
                assert(payload@ =~= be_bytes(self.signatures_required as int, 2) + spec_enc_keys(
                    key_views(keys@).take(j as int + 1),
                ));
            }
            j = j + 1;
        }
        proof {
            assert(key_views(keys@).take(keys@.len() as int) =~= key_views(keys@));
        }
        let h = crypto::hash160(&payload);
        if bytes_eq(&h, &self.signer.0) {
            Ok(())
        } else {
            Err(
                Error::InvalidStacksTransaction(
                    "signature does not match signer identity".to_string(),
                ),
            )
        }
    }
}

impl TransactionSpendingCondition {
    /// Verifies the held condition against the exact sighash it authorizes.
    pub fn verify(&self, sighash: &Txid) -> (r: Result<(), Error>)
        requires
            self.wf(),
            sighash.wf(),
        ensures
            r is Ok <==> spec_cond_ok(self@, sighash@),
            r matches Err(e) ==> ((e is IncompatibleSpendingConditionError)
                <==> !spec_cond_compat(self@)) && ((e is InvalidStacksTransaction) <==> (
            spec_cond_compat(self@) && !spec_cond_ok(self@, sighash@))),
    {
        match self {
            TransactionSpendingCondition::Singlesig(c) => c.verify(sighash),
            TransactionSpendingCondition::Multisig(c) => c.verify(sighash),
        }
    }
}

/// The sighash the sponsor signs: it commits to the initial sighash and to
/// the fully assembled origin condition, so the sponsor agrees to pay for
/// this exact, already-authorized origin action.
pub open spec fn spec_sponsor_sighash(o: TransactionSpendingConditionV, sighash: Seq<u8>) -> Seq<
    u8,
> {
    crypto::sha512_256_of(sighash + spec_enc_spending_condition(o))
}

/// An authorization verifies exactly when its conditions verify, each
/// against its own sighash: the origin against the initial sighash, the
/// sponsor against one that commits to the origin condition.  Origin and
/// sponsor are independent: either failing fails the whole.
pub open spec fn spec_auth_ok(a: TransactionAuthV, sighash: Seq<u8>) -> bool {
    match a {
        TransactionAuthV::Standard(c) => spec_cond_ok(c, sighash),
        TransactionAuthV::Sponsored(o, s) => spec_cond_ok(o, sighash) && spec_cond_ok(
            s,
            spec_sponsor_sighash(o, sighash),
        ),
    }
}

impl TransactionAuth {
    /// Verifies the authorization against the transaction's initial sighash.
    /// A standard authorization verifies its sole condition; a sponsored one
    /// verifies the origin first and, only if it passes, the sponsor against
    /// the sponsor sighash.  The reported error is the origin's where the
    /// origin fails, the sponsor's otherwise.
    pub fn verify(&self, sighash: &Txid) -> (r: Result<(), Error>)
        requires
            self.wf(),
            sighash.wf(),
        ensures
            r is Ok <==> spec_auth_ok(self@, sighash@),
            r matches Err(e) ==> (e is IncompatibleSpendingConditionError || e is InvalidStacksTransaction),
            (self@ is Sponsored && !spec_cond_ok(self@->Sponsored_0, sighash@)) ==> (r matches Err(
                e,
            ) && ((e is IncompatibleSpendingConditionError) <==> !spec_cond_compat(
                self@->Sponsored_0,
            ))),
    {
        match self {
            TransactionAuth::Standard(c) => c.verify(sighash),
            TransactionAuth::Sponsored(o, s) => {
                let first = o.verify(sighash);
                if let Err(e) = first {
                    return Err(e);
                }
                let mut buf = codec::dup_bytes(&sighash.0);
                o.encode_to(&mut buf);
                let sponsor_sighash = Txid::from_sighash_bytes(&buf);
                s.verify(&sponsor_sighash)
            },
        }
    }
}

} // verus!
