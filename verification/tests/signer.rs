use bitcoin::bip32::{ChildNumber, DerivationPath, Xpriv as OutsideXpriv};
use bitcoin::key::Secp256k1;
use bitcoin::secp256k1;
use breez_sdk_spark::bytes::{from_unpadded_be_bytes, to_be_bytes, to_unpadded_be_bytes};
use breez_sdk_spark::spark::crypto::{PublicKey, SecretKey};
use breez_sdk_spark::spark::frost::{
    aggregate_frost_inputs, aggregate_outcome, decrypt_nonces_ecies, frost_signing_package,
    signature_share_outcome, signing_nonces_of, AggregateFrostRequest, FrostFailure,
    ParticipantMap, SignFrostRequest,
};
use breez_sdk_spark::spark::network::{BitcoinNetwork, Network, NetworkKind, ProtoNetwork};
use breez_sdk_spark::spark::signer::{
    account_number, decrypt_private_key_ecies, encrypt_message_ecies, verify_signature_ecdsa,
    DefaultSigner, DefaultSignerError, KeySet, KeySetType, SecretSource, SecretToSplit,
    SignerError,
};
use frost_secp256k1_tr::keys::{EvenY, Tweak};

fn sha256(b: &[u8]) -> Vec<u8> {
    let digest = <bitcoin::hashes::sha256::Hash as bitcoin::hashes::Hash>::hash(b);
    bitcoin::hashes::Hash::to_byte_array(digest).to_vec()
}

fn create_test_signer() -> DefaultSigner {
    let test_seed = [42u8; 32];
    DefaultSigner::new(&test_seed, Network::Regtest).expect("Failed to create test signer")
}

fn derived(seed: &[u8], kind: bitcoin::NetworkKind, path: &str) -> OutsideXpriv {
    let secp = Secp256k1::new();
    let path: DerivationPath = path.parse().unwrap();
    OutsideXpriv::new_master(kind, seed).unwrap().derive_priv(&secp, &path).unwrap()
}

fn secret(b: u8) -> SecretKey {
    SecretKey::from_slice(&[b; 32]).unwrap()
}

const NOT_USED: &str = "not used";

fn unused() -> Result<Vec<u8>, String> {
    Err(NOT_USED.to_string())
}

fn encrypted(key: &SecretKey) -> (SecretSource, Result<Vec<u8>, String>) {
    (SecretSource::new_encrypted(vec![1, 2, 3]), Ok(key.secret_bytes()))
}

#[test]
fn test_sign_verify_signature_ecdsa_round_trip() {
    let signer = create_test_signer();
    let message = "test message";
    let signature = signer.sign_message_ecdsa_with_identity_key(message.as_bytes()).unwrap();
    let key = signer.get_identity_public_key().unwrap();
    verify_signature_ecdsa(message, &signature, &key).expect("Failed to verify signature");
    assert_eq!(
        signature,
        signer.sign_message_ecdsa_with_identity_key(message.as_bytes()).unwrap()
    );
    let secp = Secp256k1::new();
    secp.verify_ecdsa(
        &secp256k1::Message::from_digest_slice(&sha256(message.as_bytes())).unwrap(),
        &secp256k1::ecdsa::Signature::from_compact(&signature).unwrap(),
        &secp256k1::PublicKey::from_slice(&key.serialize()).unwrap(),
    )
    .unwrap();
}

#[test]
fn test_verify_signature_ecdsa_invalid_signature() {
    let signer = create_test_signer();
    let signature = signer.sign_message_ecdsa_with_identity_key(b"signed message").unwrap();
    let incorrect = Err(secp256k1::Error::IncorrectSignature.to_string());
    let key = signer.get_identity_public_key().unwrap();
    assert_eq!(verify_signature_ecdsa("another message", &signature, &key), incorrect);
    let other = SecretKey::generate().public_key();
    assert_eq!(verify_signature_ecdsa("signed message", &signature, &other), incorrect);
    assert_eq!(
        verify_signature_ecdsa("signed message", &vec![1, 2], &key),
        Err(secp256k1::Error::InvalidSignature.to_string())
    );
}

#[test]
fn schnorr_signatures_verify() {
    let signer = create_test_signer();
    let hash = sha256(b"hash");
    let signature = signer.sign_hash_schnorr_with_identity_key(&hash).unwrap();
    let secp = Secp256k1::new();
    let key = signer.get_identity_public_key().unwrap().serialize();
    let key = secp256k1::PublicKey::from_slice(&key).unwrap();
    secp.verify_schnorr(
        &secp256k1::schnorr::Signature::from_slice(&signature).unwrap(),
        &secp256k1::Message::from_digest_slice(&hash).unwrap(),
        &key.x_only_public_key().0,
    )
    .unwrap();
    match signer.sign_hash_schnorr_with_identity_key(&vec![1; 31]) {
        Err(SignerError::Generic(e)) => assert_eq!(e, "Hash must be exactly 32 bytes"),
        _ => panic!("Expected an error"),
    }
}

#[test]
fn accounts_depend_on_the_network() {
    assert_eq!(account_number(Network::Regtest), 0);
    assert_eq!(account_number(Network::Local), 0);
    assert_eq!(account_number(Network::Mainnet), 1);
    assert_eq!(account_number(Network::Testnet), 1);
    assert_eq!(account_number(Network::Signet), 1);
}

#[test]
fn default_keys_follow_the_path() {
    let seed = [42u8; 32];
    for (network, kind, account) in [
        (Network::Regtest, bitcoin::NetworkKind::Test, 0),
        (Network::Mainnet, bitcoin::NetworkKind::Main, 1),
    ] {
        let keys = KeySet::new(&seed, network, KeySetType::Default, true, None).unwrap();
        let below = |child: &str| {
            derived(&seed, kind, &format!("m/8797555'/{account}'/{child}")).encode().to_vec()
        };
        assert_eq!(keys.identity_master_key.encode(), below("0'"));
        assert_eq!(keys.signing_master_key.encode(), below("1'"));
        assert_eq!(keys.static_deposit_master_key.encode(), below("3'"));
        assert_eq!(keys.encryption_master_key.encode(), below("712532575'"));
        assert_eq!(keys.identity_key_pair.secret_bytes(), below("0'")[46..].to_vec());
        let explicit =
            KeySet::new(&seed, network, KeySetType::Default, false, Some(account)).unwrap();
        assert_eq!(explicit.identity_master_key.encode(), keys.identity_master_key.encode());
    }
}

#[test]
fn other_schemes_have_their_paths() {
    let seed = [7u8; 64];
    for (key_type, purpose) in [
        (KeySetType::NativeSegwit, 84),
        (KeySetType::WrappedSegwit, 49),
        (KeySetType::Legacy, 44),
    ] {
        for (use_index, path) in [
            (true, format!("m/{purpose}'/0'/0'/0/5")),
            (false, format!("m/{purpose}'/0'/5'/0/0")),
        ] {
            let keys =
                KeySet::new(&seed, Network::Mainnet, key_type, use_index, Some(5)).unwrap();
            let want = derived(&seed, bitcoin::NetworkKind::Main, &path);
            assert_eq!(keys.identity_master_key.encode(), want.encode().to_vec());
            assert_eq!(
                keys.identity_key_pair.secret_bytes(),
                want.private_key.secret_bytes().to_vec()
            );
        }
    }
}

#[test]
fn taproot_identities_are_tweaked_and_even() {
    for seed in [[1u8; 32], [2; 32], [3; 32], [4; 32]] {
        let keys =
            KeySet::new(&seed, Network::Mainnet, KeySetType::Taproot, false, Some(0)).unwrap();
        let plain = derived(&seed, bitcoin::NetworkKind::Main, "m/86'/0'/0'/0/0");
        let secp = Secp256k1::new();
        let pair = plain.private_key.keypair(&secp);
        let tweaked = bitcoin::key::TapTweak::tap_tweak(pair, &secp, None).to_keypair();
        assert_eq!(keys.identity_key_pair.public_key().serialize()[0], 2);
        assert_eq!(
            keys.identity_key_pair.public_key().serialize()[1..].to_vec(),
            tweaked.x_only_public_key().0.serialize().to_vec()
        );
        assert_eq!(keys.identity_master_key.encode(), plain.encode().to_vec());
    }
}

#[test]
fn large_accounts_have_no_path() {
    for key_type in [KeySetType::Default, KeySetType::Taproot, KeySetType::Legacy] {
        for use_index in [true, false] {
            let res =
                KeySet::new(&[1; 32], Network::Mainnet, key_type, use_index, Some(0x8000_0000));
            match res {
                Err(DefaultSignerError::KeyDerivationError(e)) => {
                    assert_eq!(
                        e,
                        "child number 2147483648 is invalid (not within [0, 2^31 - 1])"
                    );
                }
                _ => panic!("Expected an error"),
            }
        }
    }
    assert_eq!(
        DefaultSignerError::KeyDerivationError("x".to_string()).to_string(),
        "key derivation error: x"
    );
    assert_eq!(DefaultSignerError::InvalidSeed.to_string(), "invalid seed");
    assert_eq!(KeySetType::default(), KeySetType::Default);
}

#[test]
fn node_keys_come_from_the_hash_of_the_identifier() {
    let signer = create_test_signer();
    let id = "019a076e-4b89-72f2-bcd3-903c8456f4b5";
    let index = u32::from_be_bytes(sha256(id.as_bytes())[..4].try_into().unwrap()) % 0x8000_0000;
    let signing = derived(&[42; 32], bitcoin::NetworkKind::Test, "m/8797555'/0'/1'");
    let secp = Secp256k1::new();
    let child = ChildNumber::from_hardened_idx(index).unwrap();
    let want = signing.derive_priv(&secp, &[child]).unwrap().private_key;
    let got = signer.derive_signing_key(id).unwrap();
    assert_eq!(got.secret_bytes(), want.secret_bytes().to_vec());
    assert_eq!(
        signer.get_public_key_for_node(id).unwrap().serialize(),
        want.public_key(&secp).serialize().to_vec()
    );
    let source = SecretSource::Derived(id.to_string());
    assert!(source.ciphertext().is_none());
    assert!(source.to_secret_key(&signer, unused()).unwrap() == got);
    assert_eq!(
        signer.public_key_from_secret(&source, unused()).unwrap(),
        got.public_key()
    );
}

#[test]
fn static_deposits_have_keys_of_their_own() {
    let signer = create_test_signer();
    let want = derived(&[42; 32], bitcoin::NetworkKind::Test, "m/8797555'/0'/3'/9'");
    assert_eq!(
        signer.static_deposit_secret(9).unwrap().secret_bytes(),
        want.private_key.secret_bytes().to_vec()
    );
    assert_eq!(
        signer.static_deposit_signing_key(9).unwrap(),
        signer.static_deposit_secret(9).unwrap().public_key()
    );
    match signer.static_deposit_secret(u32::MAX) {
        Err(SignerError::Generic(e)) => assert_eq!(
            e,
            "failed to create child from 4294967295: child number 4294967295 is invalid \
             (not within [0, 2^31 - 1])"
        ),
        _ => panic!("Expected an error"),
    }
}

#[test]
fn decrypted_secrets_are_checked() {
    match decrypt_private_key_ecies(Err("broken".to_string())) {
        Err(SignerError::Generic(e)) => assert_eq!(e, "failed to decrypt: broken"),
        _ => panic!("Expected an error"),
    }
    for bytes in [vec![0; 32], vec![0xff; 32], vec![1; 31]] {
        match decrypt_private_key_ecies(Ok(bytes)) {
            Err(SignerError::Generic(e)) => assert_eq!(
                e,
                "failed to deserialize secret key: malformed or out-of-range secret key"
            ),
            _ => panic!("Expected an error"),
        }
    }
    assert!(decrypt_private_key_ecies(Ok(vec![3; 32])).unwrap() == secret(3));
    match encrypt_message_ecies(Err("broken".to_string())) {
        Err(SignerError::Generic(e)) => assert_eq!(e, "failed to encrypt: broken"),
        _ => panic!("Expected an error"),
    }
    assert_eq!(encrypt_message_ecies(Ok(vec![1])).unwrap(), vec![1]);
    let signer = create_test_signer();
    assert!(signer.encrypt_secret_for_receiver(Ok(vec![3; 32])).unwrap() == secret(3));
    assert_eq!(
        signer.identity_secret_key().public_key(),
        signer.get_identity_public_key().unwrap()
    );
}

#[test]
fn test_encrypt_secret_for_receiver_success() {
    let signer = create_test_signer();
    let private_key = SecretKey::generate();
    let (_, bytes) = encrypted(&private_key);
    let for_receiver = signer.encrypt_secret_for_receiver(bytes).unwrap();
    assert_eq!(private_key.secret_bytes(), for_receiver.secret_bytes());
}

#[test]
fn test_public_key_from_secret() {
    let signer = create_test_signer();
    let private_key = SecretKey::generate();
    let (source, bytes) = encrypted(&private_key);
    assert_eq!(
        private_key.public_key(),
        signer.public_key_from_secret(&source, bytes).unwrap()
    );
    let derived_source = SecretSource::Derived("test_node".to_string());
    assert_eq!(
        signer.get_public_key_for_node("test_node").unwrap(),
        signer.public_key_from_secret(&derived_source, unused()).unwrap()
    );
}

#[test]
fn test_subtract_secrets_success() {
    let signer = create_test_signer();
    for (key_a, key_b) in [
        (SecretKey::generate(), SecretKey::generate()),
        (secret(9), secret(4)),
        (secret(4), secret(9)),
    ] {
        let (a, a_bytes) = encrypted(&key_a);
        let (b, b_bytes) = encrypted(&key_b);
        let difference = signer.subtract_secrets(&a, a_bytes, &b, b_bytes).unwrap();
        let sum = difference.add_tweak(&key_b).unwrap();
        assert_eq!(sum.secret_bytes(), key_a.secret_bytes());
    }
}

#[test]
fn test_subtract_secrets_same_key_error() {
    let signer = create_test_signer();
    let (a, bytes) = encrypted(&secret(5));
    match signer.subtract_secrets(&a, bytes.clone(), &a, bytes) {
        Err(SignerError::Generic(msg)) => {
            assert_eq!(msg, "Signing key and new signing key are the same");
        }
        _ => panic!("Expected Generic error about same keys"),
    }
}

#[test]
fn secret_arithmetic_is_modular() {
    let one = SecretKey::from_slice(&to_be_bytes(1, 32)).unwrap();
    let minus_one = one.negate();
    assert!(minus_one.negate() == one);
    assert_eq!(minus_one.add_tweak(&one).err(), Some("bad tweak".to_string()));
    let minus_two = minus_one.add_tweak(&minus_one).unwrap();
    assert!(minus_two.add_tweak(&one).unwrap() == minus_one);
}

#[test]
fn secrets_are_split_as_bytes() {
    let signer = create_test_signer();
    let preimage = SecretToSplit::Preimage(vec![1, 2]);
    assert_eq!(signer.secret_to_split(preimage, unused()).unwrap(), vec![1, 2]);
    let (source, bytes) = encrypted(&secret(6));
    let source = SecretToSplit::SecretSource(source);
    assert_eq!(signer.secret_to_split(source, bytes).unwrap(), vec![6; 32]);
}

#[test]
fn numbers_are_written_without_padding() {
    assert_eq!(to_unpadded_be_bytes(0), Vec::<u8>::new());
    assert_eq!(to_unpadded_be_bytes(1000), vec![3, 232]);
    assert_eq!(to_unpadded_be_bytes(u128::MAX), vec![255; 16]);
    assert_eq!(from_unpadded_be_bytes(&[3, 232]), Some(1000));
    assert_eq!(from_unpadded_be_bytes(&[]), Some(0));
    assert_eq!(from_unpadded_be_bytes(&[255; 16]), Some(u128::MAX));
    assert_eq!(from_unpadded_be_bytes(&[0; 17]), None);
}

fn user_identifier() -> Vec<u8> {
    frost_secp256k1_tr::Identifier::derive(b"user").unwrap().serialize()
}

fn statechain() -> ParticipantMap {
    let mut map = ParticipantMap::new();
    map.insert(vec![1], vec![10]);
    map.insert(vec![2], vec![20]);
    map
}

#[test]
fn later_entries_replace_earlier_ones() {
    let mut map = statechain();
    map.insert(vec![1], vec![11]);
    assert_eq!(map.get(&[1]), Some(vec![11]));
    assert_eq!(map.get(&[2]), Some(vec![20]));
    assert_eq!(map.get(&[3]), None);
    assert_eq!(map.clone().get(&[1]), Some(vec![11]));
    assert_eq!(map.entries().len(), 3);
}

#[test]
fn the_user_signs_in_a_group_of_its_own() {
    let adaptor = secret(8).public_key();
    let package = frost_signing_package(
        &vec![9],
        &vec![5, 5],
        &statechain(),
        &vec![90],
        &Some(adaptor.clone()),
    )
    .unwrap();
    assert_eq!(package.participant_groups, vec![vec![vec![1], vec![2]], vec![vec![9]]]);
    assert_eq!(package.signing_commitments.get(&[9]), Some(vec![90]));
    assert_eq!(package.signing_commitments.get(&[1]), Some(vec![10]));
    assert_eq!(package.message, vec![5, 5]);
    assert_eq!(package.adaptor, Some(adaptor.serialize()));
}

#[test]
fn nonces_are_made_of_two_keys() {
    let pair = signing_nonces_of(&secret(1), &secret(2)).unwrap();
    let nonces = frost_secp256k1_tr::round1::SigningNonces::deserialize(&pair.nonces).unwrap();
    assert_eq!(nonces.hiding().serialize(), vec![1; 32]);
    assert_eq!(nonces.binding().serialize(), vec![2; 32]);
    assert_eq!(nonces.commitments().serialize().unwrap(), pair.commitments);
    let signer = create_test_signer();
    let a = signer.generate_random_signing_commitment().unwrap();
    let b = signer.generate_random_signing_commitment().unwrap();
    assert_ne!(a.nonces, b.nonces);
}

#[test]
fn test_generate_random_signing_commitment_nonces_round_trip() {
    let signer = create_test_signer();
    let pair = signer.generate_random_signing_commitment().unwrap();
    let read = decrypt_nonces_ecies(Ok(pair.nonces.clone())).unwrap();
    assert_eq!(read, pair.nonces);
    let nonces = frost_secp256k1_tr::round1::SigningNonces::deserialize(&read).unwrap();
    assert_eq!(nonces.commitments().serialize().unwrap(), pair.commitments);
}

#[test]
fn the_user_share_is_prepared() {
    let signer = create_test_signer();
    let nonces = signing_nonces_of(&secret(1), &secret(2)).unwrap().nonces;
    let mut parities = [false, false];
    for b in 1..8u8 {
        let group = secret(b).public_key();
        let even = group.serialize()[0] == 2;
        parities[usize::from(even)] = true;
        let user = secret(50);
        let request = SignFrostRequest {
            message: vec![1, 2, 3],
            public_key: user.public_key(),
            private_key: SecretSource::new_encrypted(vec![0]),
            verifying_key: group.clone(),
            self_commitments: vec![77],
            statechain_commitments: statechain(),
            adaptor_public_key: None,
        };
        let inputs = signer
            .sign_frost_inputs(&request, Ok(nonces.clone()), Ok(user.secret_bytes()))
            .unwrap();
        let p = &inputs.key_package;
        assert_eq!(p.identifier, user_identifier());
        assert_eq!(p.min_signers, 1);
        assert_eq!(inputs.signing_nonces, nonces);
        assert_eq!(inputs.signing_package.signing_commitments.get(&p.identifier), Some(vec![77]));
        // The same package, made by the outside crate alone.
        let outside = frost_secp256k1_tr::keys::KeyPackage::new(
            frost_secp256k1_tr::Identifier::derive(b"user").unwrap(),
            frost_secp256k1_tr::keys::SigningShare::deserialize(&user.secret_bytes()).unwrap(),
            frost_secp256k1_tr::keys::VerifyingShare::deserialize(&user.public_key().serialize())
                .unwrap(),
            frost_secp256k1_tr::VerifyingKey::deserialize(&group.serialize()).unwrap(),
            1,
        );
        let root: Vec<u8> = Vec::new();
        let tweaked = outside.clone().tweak(Some(&root));
        let even_y = outside.into_even_y(Some(even));
        assert_eq!(p.verifying_key, tweaked.verifying_key().serialize().unwrap());
        assert_eq!(p.signing_share, even_y.signing_share().serialize());
        assert_eq!(p.verifying_share, even_y.verifying_share().serialize().unwrap());
        assert_eq!(p.signing_share == user.secret_bytes(), even);
        match signer.sign_frost_inputs(&request, Err("x".to_string()), unused()) {
            Err(SignerError::Generic(e)) => assert_eq!(e, "failed to decrypt: x"),
            _ => panic!("Expected an error"),
        }
        match signer.sign_frost_inputs(&request, Ok(vec![1]), unused()) {
            Err(SignerError::SerializationError(e)) => {
                assert!(e.starts_with("failed to deserialize nonces: "));
            }
            _ => panic!("Expected an error"),
        }
        match signer.sign_frost_inputs(&request, Ok(nonces.clone()), unused()) {
            Err(SignerError::Generic(e)) => assert_eq!(e, format!("failed to decrypt: {NOT_USED}")),
            _ => panic!("Expected an error"),
        }
    }
    assert_eq!(parities, [true, true]);
}

#[test]
fn shares_are_put_together() {
    let mut signatures = ParticipantMap::new();
    signatures.insert(vec![1], vec![100]);
    let request = AggregateFrostRequest {
        message: vec![1],
        statechain_signatures: signatures,
        statechain_public_keys: vec![(vec![1], secret(1).public_key())],
        verifying_key: secret(2).public_key(),
        statechain_commitments: statechain(),
        self_commitment: vec![4],
        public_key: secret(3).public_key(),
        self_signature: vec![200],
        adaptor_public_key: None,
    };
    let inputs = aggregate_frost_inputs(&request).unwrap();
    let user = user_identifier();
    assert_eq!(inputs.signature_shares.get(&[1]), Some(vec![100]));
    assert_eq!(inputs.signature_shares.get(&user), Some(vec![200]));
    let shares = &inputs.public_key_package.verifying_shares;
    assert_eq!(shares.get(&[1]), Some(secret(1).public_key().serialize()));
    assert_eq!(shares.get(&user), Some(secret(3).public_key().serialize()));
    assert_eq!(inputs.public_key_package.verifying_key, secret(2).public_key().serialize());
    assert!(inputs.merkle_root.is_empty());
}

#[test]
fn failures_name_the_culprit() {
    let failure = || FrostFailure { text: "bad".to_string(), culprit: "None".to_string() };
    match signature_share_outcome(Err(failure())) {
        Err(SignerError::FrostError(e)) => assert_eq!(e, "Failed to sign: bad (culprit: None)"),
        _ => panic!("Expected an error"),
    }
    match aggregate_outcome(Err(failure())) {
        Err(SignerError::FrostError(e)) => {
            assert_eq!(e, "Failed to aggregate signatures: bad (culprit: None)");
        }
        _ => panic!("Expected an error"),
    }
    assert_eq!(signature_share_outcome(Ok(vec![1])).unwrap(), vec![1]);
    assert_eq!(aggregate_outcome(Ok(vec![2])).unwrap(), vec![2]);
}

#[test]
fn public_keys_are_compressed() {
    let secp = Secp256k1::new();
    let key = secp256k1::SecretKey::from_slice(&[3; 32]).unwrap().public_key(&secp);
    let parsed = PublicKey::from_slice(&key.serialize_uncompressed()).unwrap();
    assert_eq!(parsed.serialize(), key.serialize().to_vec());
    assert_eq!(PublicKey::from_slice(&[]).err(), Some("malformed public key".to_string()));
    assert_eq!(parsed, secret(3).public_key());
}

#[test]
fn spark_networks_have_names_and_numbers() {
    let all = [
        (Network::Mainnet, "mainnet", 1),
        (Network::Regtest, "regtest", 2),
        (Network::Testnet, "testnet", 3),
        (Network::Signet, "signet", 4),
    ];
    for (network, name, number) in all {
        assert_eq!(network.to_string(), name);
        assert_eq!(Network::from_str(name), Ok(network));
        assert_eq!(Network::from_proto_network(number), Ok(network));
        assert_eq!(ProtoNetwork::from_number(number), Some(network.to_proto_network()));
        assert_eq!(Network::try_from_bitcoin(BitcoinNetwork::from(network)), Ok(network));
    }
    assert_eq!(Network::from_str("local"), Ok(Network::Local));
    assert_eq!(Network::Local.to_string(), "local");
    assert_eq!(Network::Local.to_proto_network(), ProtoNetwork::Regtest);
    assert_eq!(BitcoinNetwork::from(Network::Local), BitcoinNetwork::Regtest);
    assert_eq!(Network::from_str("Mainnet"), Err("Invalid network".to_string()));
    for number in [0, 5, -1] {
        assert_eq!(Network::from_proto_network(number), Err("Invalid network".to_string()));
    }
    assert_eq!(
        Network::try_from_bitcoin(BitcoinNetwork::Testnet4),
        Err("Unsupported Bitcoin network".to_string())
    );
    assert_eq!(NetworkKind::from(Network::Mainnet), NetworkKind::Main);
    assert_eq!(NetworkKind::from(Network::Signet), NetworkKind::Test);
}
