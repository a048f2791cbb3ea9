use tunl::address::{format_ipv4, format_ipv6, parse_addr, AddressError};
use tunl::aead::{decrypt, encrypt, AeadError};
use tunl::digest::{join, md5, sha256};
use tunl::kdf::{hmac, prefix};
use tunl::salt::{auth_constant_vec, label_vec, Label};

fn hex(bytes: &[u8]) -> String {
    let mut out = String::new();
    for b in bytes {
        out.push_str(&format!("{:02x}", b));
    }
    out
}

#[test]
fn join_keeps_order() {
    let parts = vec![vec![1u8, 2], vec![], vec![3u8]];
    assert_eq!(join(&parts), vec![1u8, 2, 3]);
    assert_eq!(join(&Vec::new()), Vec::<u8>::new());
}

#[test]
fn sha256_of_abc() {
    let d = sha256(&vec![b"a".to_vec(), b"bc".to_vec()]);
    assert_eq!(
        hex(&d),
        "ba7816bf8f01cfea414140de5dae2223b00361a396177a9cb410ff61f20015ad"
    );
}

#[test]
fn md5_of_abc() {
    let d = md5(&vec![b"ab".to_vec(), b"c".to_vec()]);
    assert_eq!(hex(&d), "900150983cd24fb0d6963f7d28e17f72");
}

#[test]
fn hmac_known_answer_short_key() {
    let key = vec![0x0bu8; 20];
    let d = hmac(&key, b"Hi There");
    assert_eq!(
        hex(&d),
        "b0344c61d8db38535ca8afceaf0bf12b881dc200c9833da726e9376c2e32cff7"
    );
}

#[test]
fn hmac_known_answer_long_key() {
    let key = vec![0xaau8; 131];
    let d = hmac(&key, b"Test Using Larger Than Block-Size Key - Hash Key First");
    assert_eq!(
        hex(&d),
        "60e431591ee0b67f0d8a26aacbf5b77f8e0bc6213728c5140546040f0ee37f54"
    );
}

#[test]
fn derive_concatenates_salts_in_order() {
    let key = vec![0x0bu8; 20];
    let d = tunl::kdf::derive(&key, &vec![b"Hi ".to_vec(), b"There".to_vec()]);
    assert_eq!(
        hex(&d),
        "b0344c61d8db38535ca8afceaf0bf12b881dc200c9833da726e9376c2e32cff7"
    );
    let swapped = tunl::kdf::derive(&key, &vec![b"There".to_vec(), b"Hi ".to_vec()]);
    assert_ne!(d, swapped);
}

#[test]
fn derive_is_deterministic() {
    let secret = b"a secret".to_vec();
    let salts = vec![label_vec(Label::RequestLengthKey), vec![7u8; 16], vec![9u8; 8]];
    let a = tunl::kdf::derive(&secret, &salts);
    let b = tunl::kdf::derive(&secret, &salts);
    assert_eq!(a, b);
    assert_eq!(a.len(), 32);
}

#[test]
fn labels_separate_domains() {
    let all = [
        Label::RequestLengthKey,
        Label::RequestLengthIv,
        Label::RequestPayloadKey,
        Label::RequestPayloadIv,
        Label::ResponseLengthKey,
        Label::ResponseLengthIv,
        Label::ResponsePayloadKey,
        Label::ResponsePayloadIv,
    ];
    let secret = vec![1u8; 16];
    for i in 0..all.len() {
        for j in 0..all.len() {
            if i != j {
                assert_ne!(label_vec(all[i]), label_vec(all[j]));
                let a = tunl::kdf::derive(&secret, &vec![label_vec(all[i]), vec![2u8; 16], vec![3u8; 8]]);
                let b = tunl::kdf::derive(&secret, &vec![label_vec(all[j]), vec![2u8; 16], vec![3u8; 8]]);
                assert_ne!(a, b);
            }
        }
    }
}

#[test]
fn label_texts() {
    assert_eq!(label_vec(Label::RequestLengthKey), b"VMess Header AEAD Key_Length".to_vec());
    assert_eq!(label_vec(Label::RequestLengthIv), b"VMess Header AEAD Nonce_Length".to_vec());
    assert_eq!(label_vec(Label::RequestPayloadKey), b"VMess Header AEAD Key".to_vec());
    assert_eq!(label_vec(Label::RequestPayloadIv), b"VMess Header AEAD Nonce".to_vec());
    assert_eq!(label_vec(Label::ResponseLengthKey), b"AEAD Resp Header Len Key".to_vec());
    assert_eq!(label_vec(Label::ResponseLengthIv), b"AEAD Resp Header Len IV".to_vec());
    assert_eq!(label_vec(Label::ResponsePayloadKey), b"AEAD Resp Header Key".to_vec());
    assert_eq!(label_vec(Label::ResponsePayloadIv), b"AEAD Resp Header IV".to_vec());
    assert_eq!(auth_constant_vec(), b"c48619fe-8f02-49e0-b9e9-edf763e17e21".to_vec());
}

#[test]
fn prefix_takes_first_bytes() {
    let data = vec![1u8, 2, 3, 4];
    assert_eq!(prefix(&data, 0), Vec::<u8>::new());
    assert_eq!(prefix(&data, 3), vec![1u8, 2, 3]);
    assert_eq!(prefix(&data, 4), data);
}

#[test]
fn gcm_known_answer_empty() {
    let boxed = encrypt(&[0u8; 16], &[0u8; 12], &[], &[]).unwrap();
    assert_eq!(hex(&boxed), "58e2fccefa7e3061367f1d57a4e7455a");
}

#[test]
fn gcm_known_answer_one_block() {
    let boxed = encrypt(&[0u8; 16], &[0u8; 12], &[], &[0u8; 16]).unwrap();
    assert_eq!(
        hex(&boxed),
        "0388dace60b6a392f328c2b971b2fe78ab6e47d42cec13bdf53a67b21257bddf"
    );
    assert_eq!(decrypt(&[0u8; 16], &[0u8; 12], &[], &boxed), Ok(vec![0u8; 16]));
}

#[test]
fn gcm_round_trip_with_associated_data() {
    let key = [3u8; 16];
    let nonce = [5u8; 12];
    let boxed = encrypt(&key, &nonce, b"aad", b"hello").unwrap();
    assert_eq!(boxed.len(), 5 + 16);
    assert_eq!(decrypt(&key, &nonce, b"aad", &boxed), Ok(b"hello".to_vec()));
}

#[test]
fn gcm_rejects_tampering() {
    let key = [3u8; 16];
    let nonce = [5u8; 12];
    let boxed = encrypt(&key, &nonce, b"aad", b"hello").unwrap();
    for i in 0..boxed.len() {
        for bit in 0..8 {
            let mut bad = boxed.clone();
            bad[i] ^= 1 << bit;
            assert_eq!(decrypt(&key, &nonce, b"aad", &bad), Err(AeadError::AuthFailure));
        }
    }
    assert_eq!(decrypt(&key, &nonce, b"aae", &boxed), Err(AeadError::AuthFailure));
    assert_eq!(decrypt(&[4u8; 16], &nonce, b"aad", &boxed), Err(AeadError::AuthFailure));
    assert_eq!(decrypt(&key, &[6u8; 12], b"aad", &boxed), Err(AeadError::AuthFailure));
    assert_eq!(decrypt(&key, &nonce, b"aad", &boxed[..10]), Err(AeadError::AuthFailure));
}

#[test]
fn address_ipv4() {
    let data = [0x01u8, 93, 184, 216, 34];
    assert_eq!(parse_addr(&data, 0), Ok(("93.184.216.34".to_string(), 5)));
}

#[test]
fn address_domain() {
    let data = [0x02u8, 3, b'a', b'b', b'c'];
    assert_eq!(parse_addr(&data, 0), Ok(("abc".to_string(), 5)));
}

#[test]
fn address_ipv6_all_zero() {
    let mut data = vec![0x03u8];
    data.extend_from_slice(&[0u8; 16]);
    assert_eq!(parse_addr(&data, 0), Ok(("::".to_string(), 17)));
}

#[test]
fn address_unknown_tag() {
    let data = [0x05u8, 1, 2, 3, 4];
    assert_eq!(parse_addr(&data, 0), Err(AddressError::UnknownTag));
    assert_eq!(parse_addr(&[0u8], 0), Err(AddressError::UnknownTag));
}

#[test]
fn address_truncated() {
    assert_eq!(parse_addr(&[], 0), Err(AddressError::Truncated));
    assert_eq!(parse_addr(&[1u8, 2], 2), Err(AddressError::Truncated));
    assert_eq!(parse_addr(&[1u8, 1, 2, 3], 0), Err(AddressError::Truncated));
    assert_eq!(parse_addr(&[2u8], 0), Err(AddressError::Truncated));
    assert_eq!(parse_addr(&[2u8, 4, b'a', b'b', b'c'], 0), Err(AddressError::Truncated));
    assert_eq!(parse_addr(&[3u8, 0, 0, 0], 0), Err(AddressError::Truncated));
}

#[test]
fn address_invalid_name() {
    assert_eq!(parse_addr(&[2u8, 2, 0xff, 0xfe], 0), Err(AddressError::InvalidName));
}

#[test]
fn address_at_an_offset_with_trailing_bytes() {
    let data = [9u8, 9, 0x02, 2, b'h', b'i', 7, 7, 7];
    assert_eq!(parse_addr(&data, 2), Ok(("hi".to_string(), 6)));
    let empty_name = [0x02u8, 0];
    assert_eq!(parse_addr(&empty_name, 0), Ok((String::new(), 2)));
}

#[test]
fn ipv4_text_has_no_leading_zeros() {
    assert_eq!(format_ipv4(&[0, 9, 10, 255]), "0.9.10.255");
    assert_eq!(format_ipv4(&[100, 101, 99, 200]), "100.101.99.200");
}

#[test]
fn ipv6_text_is_canonical() {
    let cases: Vec<([u8; 16], &str)> = vec![
        ([0; 16], "::"),
        ([0, 0, 0, 0, 0, 0, 0, 0, 0, 0, 0, 0, 0, 0, 0, 1], "::1"),
        ([0x20, 0x01, 0x0d, 0xb8, 0, 0, 0, 1, 0, 0, 0, 0, 0, 0, 0, 1], "2001:db8:0:1::1"),
        ([0x20, 0x01, 0, 0, 0, 0, 0, 1, 0, 0, 0, 0, 0, 1, 0, 1], "2001::1:0:0:1:1"),
        ([0, 1, 0, 0, 0, 2, 0, 0, 0, 3, 0, 0, 0, 4, 0, 0], "1:0:2:0:3:0:4:0"),
        (
            [0xfe, 0x80, 0, 0, 0, 0, 0, 0, 0x12, 0x34, 0xab, 0xcd, 0, 0x0f, 0xf0, 0],
            "fe80::1234:abcd:f:f000",
        ),
        ([0, 0, 0, 0, 0, 0, 0, 0, 0, 0, 0xff, 0xff, 1, 2, 3, 4], "::ffff:1.2.3.4"),
        ([0, 0, 0, 0, 0, 0, 0, 0, 0, 0, 0xff, 0xfe, 1, 2, 3, 4], "::fffe:102:304"),
        (
            [1, 2, 3, 4, 5, 6, 7, 8, 9, 10, 11, 12, 13, 14, 15, 16],
            "102:304:506:708:90a:b0c:d0e:f10",
        ),
        ([0, 1, 0, 2, 0, 3, 0, 4, 0, 5, 0, 6, 0, 0, 0, 0], "1:2:3:4:5:6::"),
        ([0, 0, 0, 0, 0, 1, 0, 2, 0, 3, 0, 4, 0, 5, 0, 6], "::1:2:3:4:5:6"),
    ];
    for (c, expected) in cases {
        assert_eq!(format_ipv6(&c), expected);
    }
    assert_eq!(
        format_ipv6(&[0x20, 0x01, 0x0d, 0xb8, 0, 0, 0, 0, 0, 0, 0, 0, 0, 0, 0, 1]),
        "2001:db8::1"
    );
}
