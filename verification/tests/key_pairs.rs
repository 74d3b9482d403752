use arctica::commands::{generate_store_key_pair, recover_key_pair, recover_key_pair_files};
use arctica::keys::{derive_public_key, generate_private_key, recover_private_key, recover_public_key, Network};
use arctica::script::Action;

#[test]
fn generated_private_key_is_compressed_bitcoin_key() {
    let k = generate_private_key().unwrap();
    assert!(k.compressed());
    assert_eq!(k.network(), Network::Bitcoin);
    assert_eq!(k.to_bytes().len(), 32);
    let other = generate_private_key().unwrap();
    assert_ne!(k.to_bytes(), other.to_bytes());
}

#[test]
fn derived_public_key_is_compressed_serialization() {
    let k = recover_private_key(Ok("a".repeat(32))).unwrap();
    let p = derive_public_key(&k).unwrap();
    assert!(p.compressed());
    let bytes = p.to_bytes();
    assert_eq!(bytes.len(), 33);
    assert!(bytes[0] == 2 || bytes[0] == 3);
    assert_ne!(bytes[1..].to_vec(), k.to_bytes());
}

#[test]
fn derived_public_key_of_secret_one_is_generator() {
    // a secret key whose bytes are valid UTF-8: 31 zero bytes and a one
    let mut text = "\u{0}".repeat(31);
    text.push('\u{1}');
    let k = recover_private_key(Ok(text)).unwrap();
    let p = derive_public_key(&k).unwrap();
    let expected: Vec<u8> = vec![
        0x02, 0x79, 0xbe, 0x66, 0x7e, 0xf9, 0xdc, 0xbb, 0xac, 0x55, 0xa0, 0x62, 0x95, 0xce, 0x87, 0x0b, 0x07,
        0x02, 0x9b, 0xfc, 0xdb, 0x2d, 0xce, 0x28, 0xd9, 0x59, 0xf2, 0x81, 0x5b, 0x16, 0xf8, 0x17, 0x98,
    ];
    assert_eq!(p.to_bytes(), expected);
}

#[test]
fn private_key_recovers_from_valid_text() {
    let k = recover_private_key(Ok("a".repeat(32))).unwrap();
    assert_eq!(k.to_bytes(), vec![0x61u8; 32]);
    assert!(k.compressed());
    assert_eq!(k.network(), Network::Bitcoin);
}

#[test]
fn private_key_errors() {
    assert_eq!(recover_private_key(Ok("abc".to_string())).err(), Some("key secp256k1 error".to_string()));
    assert_eq!(recover_private_key(Ok("\u{0}".repeat(32))).err(), Some("key secp256k1 error".to_string()));
    assert_eq!(recover_private_key(Err("No such file".to_string())).err(), Some("No such file".to_string()));
}

#[test]
fn public_key_errors() {
    assert_eq!(recover_public_key(Ok("a".repeat(32))).err(), Some("key base58 error".to_string()));
    assert_eq!(recover_public_key(Ok("a".repeat(65))).err(), Some("key prefix invalid: 97".to_string()));
    let mut not_on_curve = "\u{2}".to_string();
    not_on_curve.push_str(&"\u{0}".repeat(32));
    assert_eq!(recover_public_key(Ok(not_on_curve)).err(), Some("key secp256k1 error".to_string()));
}

#[test]
fn public_key_recovers_from_point_bytes() {
    // the compressed point with x = 1 (1 + 7 is a square modulo the field prime)
    let mut text = "\u{2}".to_string();
    text.push_str(&"\u{0}".repeat(31));
    text.push('\u{1}');
    let k = recover_public_key(Ok(text.clone())).unwrap();
    assert!(k.compressed());
    assert_eq!(k.to_bytes(), text.as_bytes().to_vec());
    // x = 5: 5^3 + 7 is not a square, so no point has it
    let mut bad = "\u{3}".to_string();
    bad.push_str(&"\u{0}".repeat(31));
    bad.push('\u{5}');
    assert_eq!(recover_public_key(Ok(bad)).err(), Some("key secp256k1 error".to_string()));
}

#[test]
fn recover_key_pair_answers() {
    let (private_file, public_file) = recover_key_pair_files();
    assert_eq!(private_file, "/mnt/ramdisk/sensitive/private_key.txt");
    assert_eq!(public_file, "/mnt/ramdisk/sensitive/private_key.txt");
    assert_eq!(
        recover_key_pair(Err("gone".to_string()), Ok(String::new())),
        "ERROR could not recover private key: gone"
    );
    // the same 32-byte file read as both keys: the public key has the wrong length
    assert_eq!(
        recover_key_pair(Ok("a".repeat(32)), Ok("a".repeat(32))),
        "ERROR could not recover public key: key base58 error"
    );
}

#[test]
fn generate_store_key_pair_writes_both_keys() {
    let script = generate_store_key_pair("3");
    assert_eq!(script.steps.len(), 4);
    let secret = match &script.steps[0].action {
        Action::WriteFile { path, bytes } => {
            assert_eq!(path, "/mnt/ramdisk/sensitive/private_key3");
            bytes.clone()
        }
        _ => panic!("expected the private key's file"),
    };
    assert_eq!(secret.len(), 32);
    match &script.steps[1].action {
        Action::WriteFile { path, bytes } => {
            assert_eq!(path, "/mnt/ramdisk/sensitive/public_key3");
            assert_eq!(bytes.len(), 33);
        }
        _ => panic!("expected the public key's file"),
    }
    match &script.steps[3].action {
        Action::Run { program, args, .. } => {
            assert_eq!(program, "cp");
            assert_eq!(args[0], "/mnt/ramdisk/sensitive/public_key3");
        }
        _ => panic!("expected the copy"),
    }
}
