use oblivion::key::{self, PublicKey, PUBLIC_KEY_LEN, SALT_LEN, SHARED_SECRET_LEN};
use oblivion::{Chipher, OblivionException, SharedKey};
use ring::error::Unspecified;
use scrypt::errors::InvalidOutputLen;

fn secret() -> Vec<u8> {
    (0u8..32).collect()
}

fn salt_from(first: u8) -> Vec<u8> {
    (first..first + 16).collect()
}

#[test]
fn test_salt() {
    let s = key::salt();
    println!("salt: {:?}", s);
}

#[test]
fn test_key_pair() {
    let (priv_key, pub_key) = key::key_pair();
    println!("key_pair: ({:?},{:?})", priv_key, pub_key);
}

#[test]
fn test_shared_key() {
    let salt = key::salt();
    let (priv_key, pub_key) = key::key_pair();
    let mut shared_key = SharedKey::new(priv_key, &pub_key).unwrap();
    let aes_key = shared_key.hkdf(&salt);
    let scrypt_res = shared_key.scrypt(&salt).unwrap();

    println!("SharedKey : {:?}", shared_key);
    println!("aes_key: {:?}", aes_key);
    println!("scrypt_res: {:?}", scrypt_res);
}

#[test]
fn lengths_are_those_of_x25519() {
    assert_eq!(SALT_LEN, 16);
    assert_eq!(PUBLIC_KEY_LEN, 32);
    assert_eq!(SHARED_SECRET_LEN, 32);
    assert_eq!(key::SCRYPT_LOG_N, 12);
    assert_eq!(key::SCRYPT_R, 8);
    assert_eq!(key::SCRYPT_P, 1);
    assert_eq!(key::HKDF_MAX_LEN, 255 * 32);
}

#[test]
fn salt_has_sixteen_random_bytes() {
    let a = key::salt();
    let b = key::salt();
    assert_eq!(a.len(), 16);
    assert_eq!(b.len(), 16);
    assert_ne!(a, b);
}

#[test]
fn key_pair_has_a_public_key_of_thirty_two_bytes() {
    let (_, first) = key::key_pair();
    let (_, second) = key::key_pair();
    assert_eq!(first.as_bytes().len(), 32);
    assert_eq!(second.as_bytes().len(), 32);
    assert_ne!(first, second);
}

#[test]
fn public_key_keeps_its_bytes() {
    let bytes: Vec<u8> = (100u8..132).collect();
    let key = PublicKey::from_bytes(bytes.clone());
    assert_eq!(key.as_bytes(), &bytes[..]);
    assert_eq!(key.clone(), key);
    assert_eq!(PublicKey::from_bytes(vec![1, 2, 3]).as_bytes(), &[1u8, 2, 3][..]);
    assert_eq!(PublicKey::from_bytes(Vec::new()).as_bytes().len(), 0);
}

#[test]
fn agreement_is_the_same_from_both_sides() {
    for _ in 0..20 {
        let (private_a, public_a) = key::key_pair();
        let (private_b, public_b) = key::key_pair();
        let public_a = PublicKey::from_bytes(public_a.as_bytes().to_vec());
        let public_b = PublicKey::from_bytes(public_b.as_bytes().to_vec());

        let mut shared_a = SharedKey::new(private_a, &public_b).unwrap();
        let mut shared_b = SharedKey::new(private_b, &public_a).unwrap();
        assert_eq!(format!("{:?}", shared_a), format!("{:?}", shared_b));

        let salt = key::salt();
        assert_eq!(shared_a.hkdf(&salt), shared_b.hkdf(&salt));
    }
}

#[test]
fn both_sides_derive_the_same_slow_key() {
    let (private_a, public_a) = key::key_pair();
    let (private_b, public_b) = key::key_pair();
    let mut shared_a = SharedKey::new(private_a, &public_b).unwrap();
    let mut shared_b = SharedKey::new(private_b, &public_a).unwrap();
    let salt = key::salt();
    assert_eq!(shared_a.scrypt(&salt).unwrap(), shared_b.scrypt(&salt).unwrap());
}

#[test]
fn agreement_with_a_third_party_gives_another_secret() {
    let (private_a, _) = key::key_pair();
    let (private_b, public_b) = key::key_pair();
    let (_, public_c) = key::key_pair();
    let mut with_b = SharedKey::new(private_a, &public_b).unwrap();
    let mut with_c = SharedKey::new(private_b, &public_c).unwrap();
    assert_ne!(with_b.hkdf(&[0u8; 16]), with_c.hkdf(&[0u8; 16]));
}

#[test]
fn both_sides_can_talk_after_the_agreement() {
    let (private_a, public_a) = key::key_pair();
    let (private_b, public_b) = key::key_pair();
    let salt = key::salt();

    let key_a = SharedKey::new(private_a, &public_b).unwrap().hkdf(&salt);
    let key_b = SharedKey::new(private_b, &public_a).unwrap().hkdf(&salt);

    let envelope = Chipher::encrypt_str("hello world", &key_a).unwrap();
    assert_eq!(Chipher::decrypt_as_str(envelope, &key_b).unwrap(), "hello world");
}

#[test]
fn the_all_zero_public_key_is_refused() {
    let (private_key, _) = key::key_pair();
    let zero = PublicKey::from_bytes(vec![0u8; 32]);
    match SharedKey::new(private_key, &zero) {
        Err(error) => assert_eq!(error, OblivionException::SharedKeyError { e: Unspecified }),
        Ok(shared) => panic!("a secret came out of the zero point: {:?}", shared),
    }
}

#[test]
fn public_keys_of_small_order_are_refused() {
    let mut one = vec![0u8; 32];
    one[0] = 1;
    let order_eight = vec![
        0xe0, 0xeb, 0x7a, 0x7c, 0x3b, 0x41, 0xb8, 0xae, 0x16, 0x56, 0xe3, 0xfa, 0xf1, 0x9f, 0xc4,
        0x6a, 0xda, 0x09, 0x8d, 0xeb, 0x9c, 0x32, 0xb1, 0xfd, 0x86, 0x62, 0x05, 0x16, 0x5f, 0x49,
        0xb8, 0x00,
    ];
    for bytes in [one, order_eight] {
        let (private_key, _) = key::key_pair();
        let refused = SharedKey::new(private_key, &PublicKey::from_bytes(bytes));
        assert!(matches!(refused, Err(OblivionException::SharedKeyError { .. })));
    }
}

#[test]
fn public_keys_of_another_length_are_refused() {
    for len in [0usize, 1, 31, 33, 64, 65] {
        let (private_key, _) = key::key_pair();
        let refused = SharedKey::new(private_key, &PublicKey::from_bytes(vec![9u8; len]));
        assert!(matches!(refused, Err(OblivionException::SharedKeyError { .. })));
    }
}

#[test]
fn from_agreement_keeps_the_secret_or_the_error() {
    let mut shared = SharedKey::from_agreement(Ok(secret())).unwrap();
    let mut again = SharedKey::from_agreement(Ok(secret())).unwrap();
    assert_eq!(format!("{:?}", shared), format!("{:?}", again));
    assert_eq!(shared.hkdf(&salt_from(100)), again.hkdf(&salt_from(100)));

    match SharedKey::from_agreement(Err(Unspecified)) {
        Err(error) => assert_eq!(error, OblivionException::SharedKeyError { e: Unspecified }),
        Ok(shared) => panic!("a secret came out of a refused agreement: {:?}", shared),
    }
}

#[test]
fn key_from_scrypt_keeps_the_key_or_the_error() {
    assert_eq!(SharedKey::key_from_scrypt(Ok(vec![1, 2, 3])), Ok(vec![1, 2, 3]));
    assert_eq!(
        SharedKey::key_from_scrypt(Err(InvalidOutputLen)),
        Err(OblivionException::InvalidOutputLen { e: InvalidOutputLen })
    );
}

#[test]
fn hkdf_gives_the_known_key() {
    let mut shared = SharedKey::from_agreement(Ok(secret())).unwrap();
    assert_eq!(
        shared.hkdf(&salt_from(100)),
        [186, 106, 115, 175, 3, 110, 74, 65, 65, 188, 141, 41, 79, 144, 123, 94]
    );
    assert_eq!(
        shared.hkdf(&salt_from(101)),
        [148, 37, 68, 199, 162, 222, 208, 19, 120, 107, 125, 139, 36, 186, 115, 33]
    );

    let mut published = SharedKey::from_agreement(Ok(vec![0x0b; 22])).unwrap();
    assert_eq!(
        published.hkdf(&[]),
        [
            0x8d, 0xa4, 0xe7, 0x75, 0xa5, 0x63, 0xc1, 0x8f, 0x71, 0x5f, 0x80, 0x2a, 0x06, 0x3c,
            0x5a, 0x31
        ]
    );
    let salt: Vec<u8> = (0u8..13).collect();
    assert_eq!(
        published.hkdf(&salt),
        [
            0xb2, 0xa3, 0xd4, 0x51, 0x26, 0xd3, 0x1f, 0xb6, 0x82, 0x8e, 0xf0, 0x0d, 0x76, 0xc6,
            0xd5, 0x4e
        ]
    );
}

#[test]
fn scrypt_gives_the_known_key() {
    let mut shared = SharedKey::from_agreement(Ok(secret())).unwrap();
    assert_eq!(
        shared.scrypt(&salt_from(100)),
        Ok(vec![165, 79, 215, 169, 132, 204, 137, 248, 242, 112, 183, 93, 248, 251, 32, 126])
    );
    assert_eq!(
        shared.scrypt(&salt_from(101)),
        Ok(vec![102, 156, 55, 101, 146, 218, 241, 130, 60, 100, 127, 212, 114, 3, 155, 23])
    );

    let mut password = SharedKey::from_agreement(Ok(b"pleaseletmein".to_vec())).unwrap();
    assert_eq!(
        password.scrypt(b"SodiumChloride"),
        Ok(vec![79, 186, 100, 201, 86, 132, 40, 150, 158, 92, 212, 124, 38, 57, 24, 18])
    );
}

#[test]
fn derivation_is_repeatable() {
    let mut shared = SharedKey::from_agreement(Ok(secret())).unwrap();
    let salt = key::salt();
    let other = key::salt();

    let fast = shared.hkdf(&salt);
    assert_eq!(fast.len(), 16);
    assert_eq!(shared.hkdf(&salt), fast);
    assert_eq!(shared.hkdf(&salt), fast);
    assert_ne!(shared.hkdf(&other), fast);

    let slow = shared.scrypt(&salt).unwrap();
    assert_eq!(slow.len(), 16);
    assert_eq!(shared.scrypt(&salt).unwrap(), slow);
    assert_ne!(shared.scrypt(&other).unwrap(), slow);

    assert_ne!(slow, fast.to_vec());
}

#[test]
fn derivation_leaves_the_secret_as_it_was() {
    let mut shared = SharedKey::from_agreement(Ok(secret())).unwrap();
    let before = format!("{:?}", shared);
    let _ = shared.hkdf(&salt_from(1));
    let _ = shared.scrypt(&salt_from(2)).unwrap();
    assert_eq!(format!("{:?}", shared), before);
}

#[test]
fn derived_keys_are_keys_for_the_cipher() {
    let mut shared = SharedKey::from_agreement(Ok(secret())).unwrap();
    let salt = key::salt();
    let fast = shared.hkdf(&salt);
    let slow = shared.scrypt(&salt).unwrap();

    let envelope = Chipher::encrypt(b"payload".to_vec(), &fast).unwrap();
    assert_eq!(Chipher::decrypt(envelope, &fast).unwrap(), b"payload".to_vec());
    let envelope = Chipher::encrypt(b"payload".to_vec(), &slow).unwrap();
    assert_eq!(Chipher::decrypt(envelope.clone(), &slow).unwrap(), b"payload".to_vec());
    assert!(Chipher::decrypt(envelope, &fast).is_err());
}

#[test]
fn the_public_key_is_the_one_the_peer_needs() {
    let (private_a, public_a) = key::key_pair();
    let (private_b, public_b) = key::key_pair();
    let (_, public_c) = key::key_pair();

    let sent_a = PublicKey::from_bytes(public_a.as_bytes().to_vec());
    let with_a = SharedKey::new(private_b, &sent_a).unwrap().hkdf(&[7u8; 16]);
    let with_b = SharedKey::new(private_a, &public_b).unwrap().hkdf(&[7u8; 16]);
    assert_eq!(with_a, with_b);

    assert_ne!(public_a, public_c);
    assert_ne!(public_a.as_bytes(), &[0u8; 32][..]);
}
