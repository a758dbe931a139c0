use sm2_co_sign_core::base64_decode;
use sm2_co_sign_core::base64_encode;
use sm2_co_sign_core::CoSignProtocol;

#[test]
fn protocol_test_generate_d1() {
    let protocol = CoSignProtocol::new().unwrap();
    let d1 = protocol.generate_d1().unwrap();
    assert!(!d1.is_empty());
    assert!(d1.len() <= 32);
}

#[test]
fn test_calculate_p1() {
    let protocol = CoSignProtocol::new().unwrap();
    let d1 = protocol.generate_d1().unwrap();
    let p1 = protocol.calculate_p1(&d1).unwrap();
    assert_eq!(p1.len(), 64);
}

#[test]
fn protocol_test_sm3_hash() {
    let data = b"hello world";
    let hash = CoSignProtocol::sm3_hash(data);
    assert_eq!(hash.len(), 32);
}

#[test]
fn test_sign_prepare() {
    let protocol = CoSignProtocol::new().unwrap();
    let (k1, q1) = protocol.sign_prepare().unwrap();
    assert!(!k1.is_empty());
    assert_eq!(q1.len(), 64);
}

#[test]
fn test_complete_signature() {
    let protocol = CoSignProtocol::new().unwrap();
    let d1 = protocol.generate_d1().unwrap();
    let (k1, _q1) = protocol.sign_prepare().unwrap();

    let r = CoSignProtocol::generate_random(32);
    let s2 = CoSignProtocol::generate_random(32);
    let s3 = CoSignProtocol::generate_random(32);

    let (r_out, s) = protocol.complete_signature(&k1, &d1, &r, &s2, &s3).unwrap();
    assert_eq!(r_out.len(), 32);
    assert!(s.len() <= 32);
}

#[test]
fn protocol_test_sm2_encrypt_decrypt() {
    let protocol = CoSignProtocol::new().unwrap();
    let d1 = protocol.generate_d1().unwrap();
    let p1 = protocol.calculate_p1(&d1).unwrap();
    let message = b"hello world";

    let ciphertext = CoSignProtocol::encrypt(&p1, message).unwrap();
    assert!(!ciphertext.is_empty());

    let mut sk = vec![0u8; 32];
    let d1_len = d1.len();
    sk[32 - d1_len..].copy_from_slice(&d1);

    let plaintext = CoSignProtocol::decrypt(&sk, &ciphertext).unwrap();
    assert!(plaintext.is_some());
    assert_eq!(plaintext.unwrap().as_slice(), message);
}

#[test]
fn protocol_test_base64() {
    let data = b"hello world";
    let encoded = base64_encode(data);
    let decoded = base64_decode(&encoded).unwrap();
    assert_eq!(data.to_vec(), decoded);
}
