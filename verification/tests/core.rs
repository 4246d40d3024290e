use stacks_core::address::{AddressHashMode, StacksAddress};
use stacks_core::auth::{
    MultisigHashMode, MultisigSpendingCondition, SinglesigHashMode, SinglesigSpendingCondition,
    TransactionAuth, TransactionAuthField, TransactionPublicKeyEncoding,
    TransactionSpendingCondition,
};
use stacks_core::block::{StacksBlockHeader, StacksMicroblockHeader, StacksWorkScore};
use stacks_core::builder::{
    StacksBlockBuilder, StacksHeaderInfo, MAX_EPOCH_SIZE, MAX_MICROBLOCK_SIZE,
};
use stacks_core::clarity::{
    ClarityName, ClarityValue, ContractName, PrincipalData, StacksString, StandardPrincipalData,
};
use stacks_core::crypto;
use stacks_core::error::Error;
use stacks_core::hashes::{
    BlockHeaderHash, Hash160, MessageSignature, Sha512Trunc256Sum, TrieHash, Txid, VRFProof,
};
use stacks_core::keys::StacksPrivateKey;
use stacks_core::post::{
    evaluate_post_conditions, AssetInfo, AssetMovements, FungibleConditionCode, FungibleMovement,
    NonfungibleConditionCode, PostConditionPrincipal, StxMovement, TransactionPostCondition,
    TransactionPostConditionMode,
};
use stacks_core::tx::{
    check_poison_microblock, CoinbasePayload, StacksTransaction, TokenTransferMemo,
    TransactionAnchorMode, TransactionPayload, TransactionVersion,
};

fn hex_to_bytes(s: &str) -> Vec<u8> {
    let chars: Vec<u8> = s.as_bytes().to_vec();
    let mut out = Vec::new();
    let mut i = 0;
    while i + 1 < chars.len() {
        let hi = (chars[i] as char).to_digit(16).unwrap() as u8;
        let lo = (chars[i + 1] as char).to_digit(16).unwrap() as u8;
        out.push(hi * 16 + lo);
        i += 2;
    }
    out
}

fn test_address(version: u8, fill: u8) -> StacksAddress {
    StacksAddress { version, bytes: Hash160(vec![fill; 20]) }
}

fn microblock_header(sequence: u16, root_fill: u8) -> StacksMicroblockHeader {
    StacksMicroblockHeader {
        version: 0x12,
        sequence,
        prev_block: BlockHeaderHash(vec![9u8; 32]),
        tx_merkle_root: Sha512Trunc256Sum(vec![root_fill; 32]),
        signature: MessageSignature(vec![2u8; 65]),
    }
}

fn singlesig_condition() -> SinglesigSpendingCondition {
    SinglesigSpendingCondition {
        hash_mode: SinglesigHashMode::P2PKH,
        signer: Hash160(vec![0x11; 20]),
        nonce: 123,
        fee_rate: 456,
        key_encoding: TransactionPublicKeyEncoding::Compressed,
        signature: MessageSignature(vec![0xff; 65]),
    }
}

fn token_transfer_tx(anchor_mode: TransactionAnchorMode) -> StacksTransaction {
    StacksTransaction {
        version: TransactionVersion::Testnet,
        chain_id: 0x80000000,
        auth: TransactionAuth::Standard(TransactionSpendingCondition::Singlesig(
            singlesig_condition(),
        )),
        anchor_mode,
        post_condition_mode: TransactionPostConditionMode::Allow,
        post_conditions: vec![],
        payload: TransactionPayload::TokenTransfer(
            test_address(1, 0xff),
            123,
            TokenTransferMemo(vec![0u8; 34]),
        ),
    }
}

// Hash-mode bijection: all four variants map to the generic tag and back.
#[test]
fn hash_mode_bijection() {
    for m in [SinglesigHashMode::P2PKH, SinglesigHashMode::P2WPKH] {
        let hm = m.to_address_hash_mode();
        assert_eq!(SinglesigHashMode::from_address_hash_mode(hm), Some(m));
    }
    for m in [MultisigHashMode::P2SH, MultisigHashMode::P2WSH] {
        let hm = m.to_address_hash_mode();
        assert_eq!(MultisigHashMode::from_address_hash_mode(hm), Some(m));
    }
    assert_eq!(
        SinglesigHashMode::from_address_hash_mode(AddressHashMode::SerializeP2SH),
        None
    );
    assert_eq!(
        MultisigHashMode::from_address_hash_mode(AddressHashMode::SerializeP2PKH),
        None
    );
}

#[test]
fn address_version_bytes() {
    assert_eq!(AddressHashMode::SerializeP2PKH.to_version_mainnet(), 22);
    assert_eq!(AddressHashMode::SerializeP2SH.to_version_mainnet(), 20);
    assert_eq!(AddressHashMode::SerializeP2PKH.to_version_testnet(), 26);
    assert_eq!(AddressHashMode::SerializeP2WSH.to_version_testnet(), 21);
}

#[test]
fn from_u8_tags() {
    assert_eq!(SinglesigHashMode::from_u8(0x00), Some(SinglesigHashMode::P2PKH));
    assert_eq!(SinglesigHashMode::from_u8(0x02), Some(SinglesigHashMode::P2WPKH));
    assert_eq!(SinglesigHashMode::from_u8(0x01), None);
    assert_eq!(MultisigHashMode::from_u8(0x01), Some(MultisigHashMode::P2SH));
    assert_eq!(MultisigHashMode::from_u8(0x03), Some(MultisigHashMode::P2WSH));
    assert_eq!(MultisigHashMode::from_u8(0x00), None);
    assert_eq!(
        TransactionPublicKeyEncoding::from_u8(0),
        Some(TransactionPublicKeyEncoding::Compressed)
    );
    assert_eq!(TransactionPublicKeyEncoding::from_u8(2), None);
    assert_eq!(FungibleConditionCode::from_u8(0x03), Some(FungibleConditionCode::SentGe));
    assert_eq!(FungibleConditionCode::from_u8(0x06), None);
    assert_eq!(NonfungibleConditionCode::from_u8(0x10), Some(NonfungibleConditionCode::Sent));
    assert_eq!(NonfungibleConditionCode::from_u8(0x12), None);
    assert_eq!(
        stacks_core::post::AssetInfoID::from_u8(1),
        Some(stacks_core::post::AssetInfoID::FungibleAsset)
    );
    assert_eq!(stacks_core::post::AssetInfoID::from_u8(3), None);
}

#[test]
fn fungible_condition_codes() {
    assert!(FungibleConditionCode::SentEq.check(100, 100));
    assert!(!FungibleConditionCode::SentEq.check(100, 99));
    assert!(FungibleConditionCode::SentGt.check(100, 101));
    assert!(!FungibleConditionCode::SentGt.check(100, 100));
    assert!(FungibleConditionCode::SentGe.check(100, 100));
    assert!(FungibleConditionCode::SentLt.check(100, 99));
    assert!(!FungibleConditionCode::SentLt.check(100, 100));
    assert!(FungibleConditionCode::SentLe.check(100, 100));
}

#[test]
fn nonfungible_condition_codes() {
    let a = ClarityValue(vec![0, 1, 2, 3]);
    let b = ClarityValue(vec![4, 5]);
    let sent = vec![ClarityValue(vec![4, 5]), ClarityValue(vec![0, 1, 2, 3])];
    assert!(NonfungibleConditionCode::was_sent(&a, &sent));
    assert!(!NonfungibleConditionCode::was_sent(&ClarityValue(vec![9]), &sent));
    assert!(NonfungibleConditionCode::Sent.check(&b, &sent));
    assert!(!NonfungibleConditionCode::NotSent.check(&b, &sent));
    assert!(NonfungibleConditionCode::NotSent.check(&ClarityValue(vec![9]), &sent));
}

// The canonical identifier is a single SHA-512/256 application.
#[test]
fn txid_is_sha512_256() {
    let id = Txid::from_stacks_tx(&vec![]);
    assert_eq!(
        id.0,
        hex_to_bytes("c672b8d1ef56ed28ab87c3622c5114069bdd3ad7b8f9737498d0c01ecef0967a")
    );
    let sh = Txid::from_sighash_bytes(&vec![]);
    assert_eq!(id.0, sh.0);
}

#[test]
fn hash160_known_vector() {
    let h = crypto::hash160(&vec![]);
    assert_eq!(h, hex_to_bytes("b472a266d0bd89c13706a4132ccfb16f7c3b9fcb"));
}

// Round-trip: encode, decode, re-encode is byte-identical; truncation fails.
#[test]
fn roundtrip_address() {
    let a = test_address(22, 0xab);
    let mut enc = Vec::new();
    a.encode_to(&mut enc);
    assert_eq!(enc.len(), 21);
    let (a2, end) = StacksAddress::read_from(&enc, 0).unwrap();
    assert_eq!(end, enc.len());
    assert_eq!(a2, a);
    let mut enc2 = Vec::new();
    a2.encode_to(&mut enc2);
    assert_eq!(enc, enc2);
    let truncated = enc[..20].to_vec();
    assert!(StacksAddress::read_from(&truncated, 0).is_none());
}

#[test]
fn roundtrip_spending_conditions() {
    let sc = TransactionSpendingCondition::Singlesig(singlesig_condition());
    let mut enc = Vec::new();
    sc.encode_to(&mut enc);
    let (sc2, end) = TransactionSpendingCondition::read_from(&enc, 0).unwrap();
    assert_eq!(end, enc.len());
    assert_eq!(sc2, sc);

    let ms = TransactionSpendingCondition::Multisig(MultisigSpendingCondition {
        hash_mode: MultisigHashMode::P2SH,
        signer: Hash160(vec![0x11; 20]),
        nonce: 345,
        fee_rate: 678,
        fields: vec![
            TransactionAuthField::Signature(
                TransactionPublicKeyEncoding::Uncompressed,
                MessageSignature(vec![0xff; 65]),
            ),
            TransactionAuthField::Signature(
                TransactionPublicKeyEncoding::Uncompressed,
                MessageSignature(vec![0xfe; 65]),
            ),
            TransactionAuthField::PublicKey(
                stacks_core::keys::StacksPublicKey::from_bytes(hex_to_bytes(
                    "04ef2340518b5867b23598a9cf74611f8b98064f7d55cdb8c107c67b5efcbc5c771f112f919b00a6c6c5f51f7c63e1762fe9fac9b66ec75a053db7f51f4a52712b",
                ))
                .unwrap(),
            ),
        ],
        signatures_required: 2,
    });
    let mut enc = Vec::new();
    ms.encode_to(&mut enc);
    let (ms2, end) = TransactionSpendingCondition::read_from(&enc, 0).unwrap();
    assert_eq!(end, enc.len());
    assert_eq!(ms2, ms);
    let mut enc2 = Vec::new();
    ms2.encode_to(&mut enc2);
    assert_eq!(enc, enc2);
    let truncated = enc[..enc.len() - 1].to_vec();
    assert!(TransactionSpendingCondition::read_from(&truncated, 0).is_none());
}

#[test]
fn roundtrip_auth() {
    let a = TransactionAuth::Sponsored(
        TransactionSpendingCondition::Singlesig(singlesig_condition()),
        TransactionSpendingCondition::Singlesig(SinglesigSpendingCondition {
            hash_mode: SinglesigHashMode::P2WPKH,
            signer: Hash160(vec![0x22; 20]),
            nonce: 7,
            fee_rate: 9,
            key_encoding: TransactionPublicKeyEncoding::Compressed,
            signature: MessageSignature(vec![0xfe; 65]),
        }),
    );
    let mut enc = Vec::new();
    a.encode_to(&mut enc);
    let (a2, end) = TransactionAuth::read_from(&enc, 0).unwrap();
    assert_eq!(end, enc.len());
    assert_eq!(a2, a);
}

#[test]
fn roundtrip_post_conditions() {
    let asset = AssetInfo {
        contract_address: test_address(1, 0xff),
        contract_name: ContractName::new(b"hello-world".to_vec()).unwrap(),
        asset_name: ClarityName::new(b"hello-asset".to_vec()).unwrap(),
    };
    let pcs = vec![
        TransactionPostCondition::STX(
            PostConditionPrincipal::Origin,
            FungibleConditionCode::SentLt,
            12345,
        ),
        TransactionPostCondition::Fungible(
            PostConditionPrincipal::Standard(test_address(1, 1)),
            asset.clone(),
            FungibleConditionCode::SentGt,
            23456,
        ),
        TransactionPostCondition::Nonfungible(
            PostConditionPrincipal::Contract(
                test_address(2, 2),
                ContractName::new(b"hello-world".to_vec()).unwrap(),
            ),
            asset,
            ClarityValue(vec![0, 1, 2, 3]),
            NonfungibleConditionCode::NotSent,
        ),
    ];
    for pc in &pcs {
        let mut enc = Vec::new();
        pc.encode_to(&mut enc);
        let (pc2, end) = TransactionPostCondition::read_from(&enc, 0).unwrap();
        assert_eq!(end, enc.len());
        assert_eq!(&pc2, pc);
        let mut enc2 = Vec::new();
        pc2.encode_to(&mut enc2);
        assert_eq!(enc, enc2);
        let truncated = enc[..enc.len() - 1].to_vec();
        assert!(TransactionPostCondition::read_from(&truncated, 0).is_none());
    }
}

#[test]
fn roundtrip_payloads() {
    let payloads = vec![
        TransactionPayload::TokenTransfer(
            test_address(1, 0xff),
            123,
            TokenTransferMemo(vec![0u8; 34]),
        ),
        TransactionPayload::ContractCall(stacks_core::tx::TransactionContractCall {
            address: test_address(4, 0xfc),
            contract_name: ContractName::new(b"hello-contract-name".to_vec()).unwrap(),
            function_name: ClarityName::new(b"hello-contract-call".to_vec()).unwrap(),
            function_args: vec![ClarityValue(vec![0, 0, 0, 0]), ClarityValue(vec![1])],
        }),
        TransactionPayload::SmartContract(stacks_core::tx::TransactionSmartContract {
            name: ContractName::new(b"hello-contract-name".to_vec()).unwrap(),
            code_body: StacksString::new(b"hello contract code body".to_vec()).unwrap(),
        }),
        TransactionPayload::PoisonMicroblock(microblock_header(0x34, 1), microblock_header(0x34, 2)),
        TransactionPayload::Coinbase(CoinbasePayload(vec![0x12; 32])),
    ];
    for p in &payloads {
        let mut enc = Vec::new();
        p.encode_to(&mut enc);
        let (p2, end) = TransactionPayload::read_from(&enc, 0).unwrap();
        assert_eq!(end, enc.len());
        assert_eq!(&p2, p);
        let mut enc2 = Vec::new();
        p2.encode_to(&mut enc2);
        assert_eq!(enc, enc2);
        let truncated = enc[..enc.len() - 1].to_vec();
        assert!(TransactionPayload::read_from(&truncated, 0).is_none());
    }
}

#[test]
fn roundtrip_headers() {
    let bh = StacksBlockHeader {
        version: 0,
        total_work: StacksWorkScore { burn: 123, work: 456 },
        proof: VRFProof(vec![0xaa; 80]),
        parent_block: BlockHeaderHash(vec![1; 32]),
        parent_microblock: BlockHeaderHash(vec![2; 32]),
        parent_microblock_sequence: 3,
        tx_merkle_root: Sha512Trunc256Sum(vec![4; 32]),
        state_index_root: TrieHash(vec![5; 32]),
        microblock_pubkey_hash: Hash160(vec![6; 20]),
    };
    let enc = bh.encode();
    let (bh2, end) = StacksBlockHeader::read_from(&enc, 0).unwrap();
    assert_eq!(end, enc.len());
    assert_eq!(bh2, bh);
    assert_eq!(bh2.encode(), enc);
    let truncated = enc[..enc.len() - 1].to_vec();
    assert!(StacksBlockHeader::read_from(&truncated, 0).is_none());

    let mh = microblock_header(7, 9);
    let enc = mh.encode();
    let (mh2, end) = StacksMicroblockHeader::read_from(&enc, 0).unwrap();
    assert_eq!(end, enc.len());
    assert_eq!(mh2, mh);
    assert_eq!(mh2.encode(), enc);
    let truncated = enc[..enc.len() - 1].to_vec();
    assert!(StacksMicroblockHeader::read_from(&truncated, 0).is_none());
}

#[test]
fn roundtrip_transaction() {
    let tx = token_transfer_tx(TransactionAnchorMode::OnChainOnly);
    let enc = tx.encode();
    let tx2 = StacksTransaction::decode(&enc).unwrap();
    assert_eq!(tx2, tx);
    assert_eq!(tx2.encode(), enc);
    // truncated input fails with a structural error
    let truncated = enc[..enc.len() - 1].to_vec();
    assert!(matches!(
        StacksTransaction::decode(&truncated),
        Err(Error::InvalidStacksTransaction(_))
    ));
    // over-long input fails too
    let mut long = enc.clone();
    long.push(0);
    assert!(matches!(
        StacksTransaction::decode(&long),
        Err(Error::InvalidStacksTransaction(_))
    ));
}

// Singlesig verification soundness with a real keypair.
#[test]
fn singlesig_soundness() {
    let sk = StacksPrivateKey::from_bytes(vec![1u8; 32]).unwrap();
    let pk = sk.to_public_key().unwrap();
    let sighash = Txid::from_sighash_bytes(&b"a message to authorize".to_vec());
    let sig = sk.sign(&sighash).unwrap();
    let signer = Hash160(crypto::hash160(&pk.data));
    let good = SinglesigSpendingCondition {
        hash_mode: SinglesigHashMode::P2PKH,
        signer: signer.clone(),
        nonce: 1,
        fee_rate: 2,
        key_encoding: TransactionPublicKeyEncoding::Compressed,
        signature: sig.clone(),
    };
    assert!(good.verify(&sighash).is_ok());
    // any other signer hash fails
    let bad = SinglesigSpendingCondition { signer: Hash160(vec![0u8; 20]), ..good.clone() };
    assert!(matches!(bad.verify(&sighash), Err(Error::InvalidStacksTransaction(_))));
    // a different sighash recovers a different key, so verification fails
    let other = Txid::from_sighash_bytes(&b"another message".to_vec());
    assert!(good.verify(&other).is_err());
    // the witness hash mode refuses an uncompressed encoding outright
    let incompat = SinglesigSpendingCondition {
        hash_mode: SinglesigHashMode::P2WPKH,
        key_encoding: TransactionPublicKeyEncoding::Uncompressed,
        ..good.clone()
    };
    assert!(matches!(
        incompat.verify(&sighash),
        Err(Error::IncompatibleSpendingConditionError)
    ));
}

fn rolled_sighash(prev: &Txid, field: &TransactionAuthField) -> Txid {
    let mut buf = prev.0.clone();
    field.encode_to(&mut buf);
    Txid::from_sighash_bytes(&buf)
}

fn multisig_signer(keys: &[&stacks_core::keys::StacksPublicKey], required: u16) -> Hash160 {
    let mut payload = Vec::new();
    payload.push((required >> 8) as u8);
    payload.push((required & 0xff) as u8);
    for k in keys {
        payload.push(k.data.len() as u8);
        payload.extend_from_slice(&k.data);
    }
    Hash160(crypto::hash160(&payload))
}

// Multisig threshold: t valid signatures verify; t - 1 fail; reordering the
// keys changes the derived signer hash.
#[test]
fn multisig_threshold() {
    let sk1 = StacksPrivateKey::from_bytes(vec![1u8; 32]).unwrap();
    let sk2 = StacksPrivateKey::from_bytes(vec![2u8; 32]).unwrap();
    let sk3 = StacksPrivateKey::from_bytes(vec![3u8; 32]).unwrap();
    let pk1 = sk1.to_public_key().unwrap();
    let pk2 = sk2.to_public_key().unwrap();
    let pk3 = sk3.to_public_key().unwrap();
    let h0 = Txid::from_sighash_bytes(&b"multisig message".to_vec());

    // fields in stored order, each signature over the rolling sighash
    let f1 = TransactionAuthField::Signature(
        TransactionPublicKeyEncoding::Compressed,
        sk1.sign(&h0).unwrap(),
    );
    let h1 = rolled_sighash(&h0, &f1);
    let f2 = TransactionAuthField::Signature(
        TransactionPublicKeyEncoding::Compressed,
        sk2.sign(&h1).unwrap(),
    );
    let f3 = TransactionAuthField::PublicKey(pk3.dup());

    let signer = multisig_signer(&[&pk1, &pk2, &pk3], 2);
    let good = MultisigSpendingCondition {
        hash_mode: MultisigHashMode::P2SH,
        signer: signer.clone(),
        nonce: 1,
        fee_rate: 2,
        fields: vec![f1.clone(), f2.clone(), f3.clone()],
        signatures_required: 2,
    };
    assert!(good.verify(&h0).is_ok());

    // only one signature: below the threshold, so verification fails
    let under = MultisigSpendingCondition {
        fields: vec![f1.clone(), TransactionAuthField::PublicKey(pk2.dup()), f3.clone()],
        signer: multisig_signer(&[&pk1, &pk2, &pk3], 2),
        ..good.clone()
    };
    assert!(matches!(under.verify(&h0), Err(Error::InvalidStacksTransaction(_))));

    // reordering the same keys changes the derived signer hash
    let reordered = multisig_signer(&[&pk2, &pk1, &pk3], 2);
    assert_ne!(signer.0, reordered.0);
}

// Sponsored independence: a valid origin with an invalid sponsor fails, and
// the sponsor's fee rate is the authoritative one.
#[test]
fn sponsored_independence() {
    let sk_origin = StacksPrivateKey::from_bytes(vec![4u8; 32]).unwrap();
    let sk_sponsor = StacksPrivateKey::from_bytes(vec![5u8; 32]).unwrap();
    let pk_origin = sk_origin.to_public_key().unwrap();
    let pk_sponsor = sk_sponsor.to_public_key().unwrap();
    let h0 = Txid::from_sighash_bytes(&b"sponsored tx".to_vec());

    let origin = SinglesigSpendingCondition {
        hash_mode: SinglesigHashMode::P2PKH,
        signer: Hash160(crypto::hash160(&pk_origin.data)),
        nonce: 10,
        fee_rate: 111,
        key_encoding: TransactionPublicKeyEncoding::Compressed,
        signature: sk_origin.sign(&h0).unwrap(),
    };
    let origin_cond = TransactionSpendingCondition::Singlesig(origin);

    // the sponsor signs a digest that commits to the origin condition
    let mut buf = h0.0.clone();
    origin_cond.encode_to(&mut buf);
    let sponsor_sighash = Txid::from_sighash_bytes(&buf);
    let sponsor_good = SinglesigSpendingCondition {
        hash_mode: SinglesigHashMode::P2PKH,
        signer: Hash160(crypto::hash160(&pk_sponsor.data)),
        nonce: 20,
        fee_rate: 999,
        key_encoding: TransactionPublicKeyEncoding::Compressed,
        signature: sk_sponsor.sign(&sponsor_sighash).unwrap(),
    };
    let auth_good = TransactionAuth::Sponsored(
        origin_cond.clone(),
        TransactionSpendingCondition::Singlesig(sponsor_good.clone()),
    );
    assert!(auth_good.verify(&h0).is_ok());
    assert_eq!(auth_good.fee_rate(), 999);

    // an invalid sponsor fails the whole authorization
    let sponsor_bad = SinglesigSpendingCondition {
        signature: MessageSignature(vec![0xff; 65]),
        ..sponsor_good
    };
    let auth_bad = TransactionAuth::Sponsored(
        origin_cond,
        TransactionSpendingCondition::Singlesig(sponsor_bad),
    );
    assert!(auth_bad.verify(&h0).is_err());
}

// Post-condition conjunction and deny-mode coverage.
#[test]
fn post_condition_conjunction() {
    let origin = PrincipalData::Standard(StandardPrincipalData {
        version: 26,
        bytes: vec![7u8; 20],
    });
    let pcs = vec![TransactionPostCondition::STX(
        PostConditionPrincipal::Origin,
        FungibleConditionCode::SentGe,
        100,
    )];
    let sent_100 = AssetMovements {
        stx: vec![StxMovement { principal: origin.clone(), amount_sent: 100 }],
        fungible: vec![],
        nonfungible: vec![],
    };
    assert!(evaluate_post_conditions(
        TransactionPostConditionMode::Allow,
        &origin,
        &pcs,
        &sent_100
    )
    .is_ok());
    let sent_99 = AssetMovements {
        stx: vec![StxMovement { principal: origin.clone(), amount_sent: 99 }],
        fungible: vec![],
        nonfungible: vec![],
    };
    match evaluate_post_conditions(TransactionPostConditionMode::Allow, &origin, &pcs, &sent_99) {
        Err(Error::PostConditionFailed(msg)) => {
            assert_eq!(msg, "the declared post-condition at index 0 does not hold");
        },
        other => panic!("expected a post-condition failure, got {:?}", other),
    }

    // under deny mode, an unmentioned fungible movement fails even though
    // every declared condition holds
    let with_ft = AssetMovements {
        stx: vec![StxMovement { principal: origin.clone(), amount_sent: 100 }],
        fungible: vec![FungibleMovement {
            principal: origin.clone(),
            asset: AssetInfo {
                contract_address: test_address(1, 0xff),
                contract_name: ContractName::new(b"hello-world".to_vec()).unwrap(),
                asset_name: ClarityName::new(b"hello-asset".to_vec()).unwrap(),
            },
            amount_sent: 5,
        }],
        nonfungible: vec![],
    };
    assert!(evaluate_post_conditions(
        TransactionPostConditionMode::Allow,
        &origin,
        &pcs,
        &with_ft
    )
    .is_ok());
    match evaluate_post_conditions(TransactionPostConditionMode::Deny, &origin, &pcs, &with_ft) {
        Err(Error::PostConditionFailed(msg)) => {
            assert_eq!(
                msg,
                "the fungible-asset movement at index 0 is not covered by any post-condition"
            );
        },
        other => panic!("expected a coverage failure, got {:?}", other),
    }
}

// Anchor-mode gating: an off-chain coinbase is rejected before signature
// verification is attempted.
#[test]
fn anchor_mode_gating() {
    let mut tx = token_transfer_tx(TransactionAnchorMode::OffChainOnly);
    tx.payload = TransactionPayload::Coinbase(CoinbasePayload(vec![0x12; 32]));
    // the authorization is garbage; the anchor gate must reject first
    assert!(matches!(tx.verify(), Err(Error::InvalidStacksTransaction(_))));
    assert!(!tx.check_anchor_mode());
    let mut on_chain = tx.clone();
    on_chain.anchor_mode = TransactionAnchorMode::OnChainOnly;
    assert!(on_chain.check_anchor_mode());
}

// Poison-microblock validity: equal sequence and differing content.
#[test]
fn poison_microblock_validity() {
    let h1 = microblock_header(5, 1);
    let h2 = microblock_header(5, 2);
    assert!(check_poison_microblock(&h1, &h2));
    let h3 = microblock_header(6, 2);
    assert!(!check_poison_microblock(&h1, &h3));
    assert!(!check_poison_microblock(&h1, &h1.clone()));
}

fn test_builder() -> StacksBlockBuilder {
    let parent = StacksBlockHeader {
        version: 0,
        total_work: StacksWorkScore { burn: 1, work: 1 },
        proof: VRFProof(vec![0xaa; 80]),
        parent_block: BlockHeaderHash(vec![0; 32]),
        parent_microblock: BlockHeaderHash(vec![0; 32]),
        parent_microblock_sequence: 0,
        tx_merkle_root: Sha512Trunc256Sum(vec![0; 32]),
        state_index_root: TrieHash(vec![0; 32]),
        microblock_pubkey_hash: Hash160(vec![0; 20]),
    };
    let chain_tip = StacksHeaderInfo {
        anchored_header: parent,
        block_height: 7,
        burn_header_hash: stacks_core::hashes::BurnchainHeaderHash(vec![1u8; 32]),
    };
    StacksBlockBuilder::new(
        chain_tip,
        VRFProof(vec![0xbb; 80]),
        Hash160(vec![3u8; 20]),
        StacksPrivateKey::from_bytes(vec![1u8; 32]).unwrap(),
        1,
    )
}

fn huge_tx(code_len: usize, anchor_mode: TransactionAnchorMode) -> StacksTransaction {
    let mut tx = token_transfer_tx(anchor_mode);
    tx.payload = TransactionPayload::SmartContract(stacks_core::tx::TransactionSmartContract {
        name: ContractName::new(b"big".to_vec()).unwrap(),
        code_body: StacksString::new(vec![b'x'; code_len]).unwrap(),
    });
    tx
}

// Budget enforcement: appends past the byte budgets are rejected and the
// builder state is unchanged.
#[test]
fn budget_enforcement() {
    let mut builder = test_builder();
    let small = token_transfer_tx(TransactionAnchorMode::OnChainOnly);
    assert!(builder.try_mine_tx(small.clone()).is_ok());
    let used = builder.bytes_so_far();
    assert!(used > 0);

    let big = huge_tx(MAX_EPOCH_SIZE as usize, TransactionAnchorMode::Any);
    assert!(matches!(builder.try_mine_tx(big.clone()), Err(Error::BlockTooBigError)));
    assert_eq!(builder.bytes_so_far(), used);
    assert_eq!(builder.txs.len(), 1);

    // a microblock transaction past the microblock budget is rejected too
    let mid = huge_tx(MAX_MICROBLOCK_SIZE as usize, TransactionAnchorMode::Any);
    assert!(matches!(
        builder.try_mine_microblock_tx(mid),
        Err(Error::MicroblockStreamTooLongError)
    ));
    assert_eq!(builder.bytes_so_far(), used);
    assert_eq!(builder.micro_txs.len(), 0);

    // wrong destination is rejected outright
    let off = token_transfer_tx(TransactionAnchorMode::OffChainOnly);
    assert!(matches!(
        builder.try_mine_tx(off),
        Err(Error::InvalidStacksTransaction(_))
    ));
    let on = token_transfer_tx(TransactionAnchorMode::OnChainOnly);
    assert!(matches!(
        builder.try_mine_microblock_tx(on),
        Err(Error::InvalidStacksTransaction(_))
    ));
}

// Microblock chaining: sequences start at zero and strictly increment, and
// each header links to its predecessor's hash.
#[test]
fn microblock_chaining() {
    let mut builder = test_builder();
    let tx = token_transfer_tx(TransactionAnchorMode::OnChainOnly);
    builder.try_mine_tx(tx).unwrap();

    // microblocks may not be sealed before the anchored block
    assert!(matches!(
        builder.mine_next_microblock(),
        Err(Error::InvalidStacksMicroblock(_, _))
    ));

    let block = builder.mine_anchored_block(TrieHash(vec![9u8; 32]));
    assert_eq!(block.txs.len(), 1);
    assert_eq!(block.header.state_index_root.0, vec![9u8; 32]);
    let anchored_hash = block.header.block_hash();

    let mtx = token_transfer_tx(TransactionAnchorMode::OffChainOnly);
    builder.try_mine_microblock_tx(mtx).unwrap();
    let mb0 = builder.mine_next_microblock().unwrap();
    assert_eq!(mb0.header.sequence, 0);
    assert_eq!(mb0.header.prev_block.0, anchored_hash.0);
    assert_eq!(mb0.txs.len(), 1);

    let mb1 = builder.mine_next_microblock().unwrap();
    assert_eq!(mb1.header.sequence, 1);
    assert_eq!(mb1.header.prev_block.0, mb0.header.block_hash().0);
    assert_eq!(mb1.txs.len(), 0);
}

#[test]
fn error_descriptions() {
    assert_eq!(Error::InvalidFee.description(), "Invalid fee");
    assert_eq!(Error::NoSuchBlockError.description(), "No such Stacks block");
    assert_eq!(Error::InvalidChainstateDB.description(), "Invalid chainstate database");
    assert_eq!(Error::BlockTooBigError.description(), "Too much data in block");
    assert_eq!(
        Error::MicroblockStreamTooLongError.description(),
        "Too many microblocks in stream"
    );
    assert_eq!(
        Error::IncompatibleSpendingConditionError.description(),
        "Spending condition is incompatible with this operation"
    );
    assert_eq!(Error::InvalidStacksBlock("oops".to_string()).description(), "oops");
    assert_eq!(Error::ClarityError("ce".to_string()).description(), "ce");
    assert_eq!(Error::DBError("db".to_string()).description(), "db");
    assert_eq!(Error::NetError("ne".to_string()).description(), "ne");
    assert_eq!(Error::MARFError("me".to_string()).description(), "me");
}

#[test]
fn fixed_size_constructors() {
    assert!(Hash160::from_bytes(vec![0; 20]).is_some());
    assert!(Hash160::from_bytes(vec![0; 19]).is_none());
    assert!(MessageSignature::from_raw(vec![0; 65]).is_some());
    assert!(MessageSignature::from_raw(vec![0; 64]).is_none());
    assert!(TokenTransferMemo::from_bytes(vec![0; 34]).is_some());
    assert!(TokenTransferMemo::from_bytes(vec![0; 35]).is_none());
    assert!(CoinbasePayload::from_bytes(vec![0; 32]).is_some());
    assert!(CoinbasePayload::from_bytes(vec![0; 31]).is_none());
    assert!(ContractName::new(vec![]).is_none());
    assert!(ContractName::new(vec![b'a'; 128]).is_some());
    assert!(ContractName::new(vec![b'a'; 129]).is_none());
    assert!(StacksPrivateKey::from_bytes(vec![0; 31]).is_none());
}

#[test]
fn auth_field_accessors() {
    let sk = StacksPrivateKey::from_bytes(vec![1u8; 32]).unwrap();
    let pk = sk.to_public_key().unwrap();
    let kf = TransactionAuthField::PublicKey(pk.dup());
    assert!(kf.is_public_key());
    assert!(!kf.is_signature());
    assert_eq!(kf.as_public_key().unwrap().data, pk.data);
    assert!(kf.as_signature().is_none());

    let sighash = Txid::from_sighash_bytes(&b"field test".to_vec());
    let sig = sk.sign(&sighash).unwrap();
    let sf = TransactionAuthField::Signature(TransactionPublicKeyEncoding::Compressed, sig);
    assert!(sf.is_signature());
    assert!(sf.as_public_key().is_none());
    // the recovered key matches the signer's, and recovering against a
    // different sighash yields a different key
    let got = sf.get_public_key(&sighash.0).unwrap();
    assert_eq!(got.data, pk.data);
    let other = Txid::from_sighash_bytes(&b"other".to_vec());
    let got2 = sf.get_public_key(&other.0).unwrap();
    assert_ne!(got2.data, pk.data);
}

#[test]
fn principal_resolution() {
    let origin = PrincipalData::Standard(StandardPrincipalData {
        version: 26,
        bytes: vec![7u8; 20],
    });
    let r = PostConditionPrincipal::Origin.to_principal_data(&origin);
    assert_eq!(r, origin);
    let a = test_address(1, 9);
    let r = PostConditionPrincipal::Standard(a.clone()).to_principal_data(&origin);
    assert_eq!(
        r,
        PrincipalData::Standard(StandardPrincipalData { version: 1, bytes: vec![9u8; 20] })
    );
}
