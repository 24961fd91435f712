use base64::Engine;
use satispay::error::Error;
use satispay::key::{
    key_id_from_entry, key_id_from_json, parse_pem, strip_armor, KeyMaterial,
};

/// A 2048-bit test key, as the lines of its base64 text.
const KEY_LINES: [&str; 25] = [
    "MIIEogIBAAKCAQEA5cBexVLg5L05Odmw2qwsGvU8sScHSWWuI8HadKrIsD4Rlu8y",
    "QiOlCfN0bAI3S8qX3lHIUcScu38gSDNpV3vHhXm8qXlc5zbv1Mtm1+UWhmqKRLJ8",
    "//HPuoBZ0b6LDOIRZNGYHnnyWjQGWPdr5xEyhaqfIGrNfS7+VjK6DaMDlf6sNOlj",
    "B3Zmk57VfxQH66G9+oAc9A6nC7uOjmTXficIVU3SQ19JkisjB5je4Y5mRnj39Nmr",
    "L9fh8s4yQLANQ7dWoSqc464PlVcGvt168hRUunRvXJ2JPRbQq5Gg/sP1HSAOZQj1",
    "3xaXCrm2TqfBOy721yCoaaJjLmMOFNhs6+En+QIDAQABAoIBAHGpN7lbBRNkYXkz",
    "LwEfiDpV9I6Xhk1TVlEuSArLqrk2G7GV6EE8LRu9K217syt1sKg1wWpiYD+J5siR",
    "Vp4HCHAKB8G33rQsQ338moZYOUqKTpkpzBk64c+cS9Mt9tCKzpwX7K+3GKRzdGhz",
    "DxijM2FZRZvd+obhxsWSFuVELjP3d+YjynxHl8EU7xTkhtbvdr+9/ZhNiV1tUC0c",
    "CYTCtsMlWhCNaPVLeMywp8Kc2GgGom3i9K2+BKL2r++L0hdXWrVuEaKfFdmhczJa",
    "uCt4Z5dY/BeH3jDheIolsz+zXkvWR4KTXQh8xgzZZTIdrfYGjl5p6bI/ZqwYvGQf",
    "p9L/LlkCgYEA+IRWRUuMYsqGeQpZkUnBCqeO9XBKJ1R9XIn8ZYZMaTepIgCi9Ra0",
    "RdY5bPhuABnmihIjYavlQCv8OjkYjm3SE+nNCIjkBvQa+QyrZWG+JRccaCqybyLB",
    "Kxd+TM/4gtn2RDoxuCO7oE4E+bKP/P+h6qHDsyx0ncZV0y9iIX/z14MCgYEA7Kth",
    "sub+TpHlx2Yn2t3mVzOCtk0mmY8shw1sY17MbbRb3PvRry878byU1VNSPuCbACUG",
    "xfLpL3vo1AXLHxzSFssRR/r1jVJ8lnxYsN/HyJVE1GujNE+uhv4pnaKLGFGfukYr",
    "XeqnM75eVvpYy9zDy2hB+BB+ypMGk/Bv3idBrdMCgYBrGQTgug0W6faHpSkyTpmN",
    "kOYv6aNbTbL0tVZ7HiRB18XgrGuNuaoYyphW2Lz2+DJ84BI1XlHelNYO9Voaz0MQ",
    "Z9p/ShcS1BHnsEkQ2M2LyGjqjzP0ZwLeIjLAwYN0SKAziOyyUVvjWpwUS5p3ymap",
    "6eqfhZIACGAmMa5Vh4G7JwKBgEL99CbG+h9Vbxx1TzzF6Siv3QUra4y2GV2VMCQk",
    "tmsrTYGNCnqzPR2dSufjsPk5bMaqtHMd4mHdijdR+IAzEUkAbEDayd0aB0g1pIlU",
    "nuGpVxVl7omlMHrnwPHtC8Bzgmog6K+p93BPJ7cpIC98qzONrHbCfJFs8sS3n4Lb",
    "y9yfAoGAX91lHdqHGQfcLmCtWeJkuJny7zji2TGpZJ1iIp14mFJBbEGHTP4wg43t",
    "ge8VsG2hXzRWbzafhkuWU7uP1N715HxOrRL25d6hmbKkZQGq+qnR/+qW57lUY7rH",
    "39c9+JTvEU+fK3cp7LRFfjt7MTVrR6kUZyiwY2zUbnSVKsz7M1A",
];

/// A test key too short to hold a padded SHA-256 signature.
const SHORT_KEY: &str = "MIGoAgEAAiBupF9NyrHlLVl2awrIWUe5y9rpvBoC/E8MzXp6EaVCswIDAQABAiAQS8bQZGGzSZdQU7pw1oWJFpt3xc4x1U8m3L50XlRasQIRAMLWy1xu1OlL38njsR/P9FUCEQCRX4kvVI3CFDu1oofk2qLnAhBX0LvDo2hu5fWtZuRUNEQpAhArtZbw5TJuTVkaptDHTbm3AhAXmxl80LicoaNhANk5nW9O";

fn key_text() -> String {
    KEY_LINES.concat()
}

fn key_der() -> Vec<u8> {
    base64::engine::general_purpose::STANDARD_NO_PAD
        .decode(key_text())
        .unwrap()
}

fn short_key_der() -> Vec<u8> {
    base64::engine::general_purpose::STANDARD_NO_PAD
        .decode(SHORT_KEY)
        .unwrap()
}

fn armor(word: &str) -> String {
    format!("{}{} RSA PRIVATE KEY{}", "-".repeat(5), word, "-".repeat(5))
}

fn pem() -> String {
    let mut text = armor("BEGIN");
    text.push('\n');
    for line in KEY_LINES {
        text.push_str(line);
        text.push('\n');
    }
    text.push_str(&armor("END"));
    text.push('\n');
    text
}

#[test]
fn load_accepts_a_key_and_keeps_the_identifier() {
    let der = key_der();
    let key = KeyMaterial::load(&der, "shop-key-7".to_string()).unwrap();
    assert_eq!(key.key_id(), "shop-key-7");
    assert_eq!(key.private_key_der(), &der[..]);
}

#[test]
fn load_keeps_an_unusual_identifier_unchanged() {
    let id = " k\u{e9}y \"1\"\n";
    let key = KeyMaterial::load(&key_der(), id.to_string()).unwrap();
    assert_eq!(key.key_id(), id);
}

#[test]
fn load_accepts_a_short_key() {
    assert!(KeyMaterial::load(&short_key_der(), "short".to_string()).is_ok());
}

#[test]
fn load_refuses_truncated_bytes() {
    let der = key_der();
    for cut in [0, 1, 4, 100, der.len() - 1] {
        assert_eq!(
        KeyMaterial::load(&der[..cut], "k".to_string()).err(),
        Some(Error::KeyFormatError)
    );
    }
}

#[test]
fn load_refuses_corrupt_bytes() {
    let mut der = key_der();
    der[0] = 0x31;
    assert_eq!(
        KeyMaterial::load(&der, "k".to_string()).err(),
        Some(Error::KeyFormatError)
    );
    let mut der = key_der();
    der[20] ^= 0xff;
    assert_eq!(
        KeyMaterial::load(&der, "k".to_string()).err(),
        Some(Error::KeyFormatError)
    );
    assert_eq!(
        KeyMaterial::load(b"not a key at all", "k".to_string()).err(),
        Some(Error::KeyFormatError)
    );
}

#[test]
fn load_refuses_trailing_bytes() {
    let mut der = key_der();
    der.push(0);
    assert_eq!(
        KeyMaterial::load(&der, "k".to_string()).err(),
        Some(Error::KeyFormatError)
    );
}

#[test]
fn armor_is_taken_off() {
    let some = |bytes: &[u8]| Some(bytes.to_vec());
    assert_eq!(strip_armor(b""), some(b""));
    assert_eq!(strip_armor(b"\n\n"), some(b""));
    assert_eq!(strip_armor(b"abc"), some(b"abc"));
    assert_eq!(strip_armor(b"abc\ndef\n"), some(b"abcdef"));
    assert_eq!(strip_armor(b"\n\nabc\n\n\ndef"), some(b"abcdef"));
    assert_eq!(strip_armor(b"ab\r\ncd"), some(b"ab\rcd"));
    let armored = format!("{}\nab\ncd\n{}\n", armor("BEGIN"), armor("END"));
    assert_eq!(strip_armor(armored.as_bytes()), some(b"abcd"));
    let padded = format!("\n\n{}\n\nab\n\n{}\n\n", armor("BEGIN"), armor("END"));
    assert_eq!(strip_armor(padded.as_bytes()), some(b"ab"));
    let empty = format!("{}\n{}", armor("BEGIN"), armor("END"));
    assert_eq!(strip_armor(empty.as_bytes()), some(b""));
    let unlabeled = format!("{0}BEGIN {0}\nab\n{0}END {0}", "-".repeat(5));
    assert_eq!(strip_armor(unlabeled.as_bytes()), some(b"ab"));
    assert_eq!(strip_armor(pem().as_bytes()), some(key_text().as_bytes()));
}

#[test]
fn text_that_only_looks_like_armor_is_key_text() {
    let some = |bytes: &[u8]| Some(bytes.to_vec());
    assert_eq!(strip_armor(b"-head\nab\n-tail"), some(b"-headab-tail"));
    assert_eq!(strip_armor(b"-only"), some(b"-only"));
    let late = format!("ab\n{}\ncd", armor("BEGIN"));
    assert_eq!(
        strip_armor(late.as_bytes()),
        Some(format!("ab{}cd", armor("BEGIN")).into_bytes())
    );
    assert_eq!(parse_pem(b"-x\n-y"), Err(Error::KeyFormatError));
    assert_eq!(parse_pem(b"-a\nZm9v\nYmFy\n-b\n"), Err(Error::KeyFormatError));
    assert_eq!(parse_pem(late.as_bytes()), Err(Error::KeyFormatError));
    let end_only = format!("Zm9v\n{}", armor("END"));
    assert_eq!(parse_pem(end_only.as_bytes()), Err(Error::KeyFormatError));
}

#[test]
fn malformed_armor_is_refused() {
    let dashes = "-".repeat(5);
    let begin = armor("BEGIN");
    let end = armor("END");
    let malformed = [
        begin.clone(),
        format!("{}\n", begin),
        format!("{}\nZm9v", begin),
        format!("{}\nZm9v\n", begin),
        format!("{}\nZm9v\n{}\nZm9v", begin, end),
        format!("{}\nZm9v\n{}x", begin, end),
        format!("{}\nZm9v\n{} ", begin, end),
        format!("{}\nZm9v\n{}END PRIVATE KEY{}", begin, dashes, dashes),
        format!("{}\nZm9v\n{}END RSA PRIVATE KEY", begin, dashes),
        format!("{}\nZm9v\n{}", begin, begin),
        format!("{}BEGIN RSA PRIVATE KEY\nZm9v\n{}", dashes, end),
        format!("{}BEGIN RSA PRIVATE KEY----\nZm9v\n{}", dashes, end),
        format!("{}BEGIN {}\nZm9v\n{}", dashes, "-".repeat(4), end),
        format!("{}\r\nZm9v\r\n{}\r\n", begin, end),
        format!("{}\nZm9v\nend of key", begin),
    ];
    for text in malformed {
        assert_eq!(strip_armor(text.as_bytes()), None);
        assert_eq!(parse_pem(text.as_bytes()), Err(Error::KeyFormatError));
        assert_eq!(
            KeyMaterial::from_pem(text.as_bytes(), "k".to_string()).err(),
            Some(Error::KeyFormatError)
        );
    }
}

#[test]
fn key_file_text_is_loaded() {
    let key = KeyMaterial::from_pem(pem().as_bytes(), "k".to_string()).unwrap();
    assert_eq!(key.private_key_der(), &key_der()[..]);
    assert_eq!(key.key_id(), "k");
}

#[test]
fn key_file_text_without_armor_is_loaded() {
    let key = KeyMaterial::from_pem(key_text().as_bytes(), "k".to_string()).unwrap();
    assert_eq!(key.private_key_der(), &key_der()[..]);
}

#[test]
fn key_file_text_that_is_not_base64_is_refused() {
    assert_eq!(
        KeyMaterial::from_pem(b"-x\n!!!!\n-y\n", "k".to_string()).err(),
        Some(Error::KeyFormatError)
    );
    let mut padded = key_text();
    padded.push_str("==");
    assert_eq!(
        KeyMaterial::from_pem(padded.as_bytes(), "k".to_string()).err(),
        Some(Error::KeyFormatError)
    );
    let carriage = pem().replace('\n', "\r\n");
    assert_eq!(
        KeyMaterial::from_pem(carriage.as_bytes(), "k".to_string()).err(),
        Some(Error::KeyFormatError)
    );
}

#[test]
fn key_file_text_that_holds_no_key_is_refused() {
    assert_eq!(
        KeyMaterial::from_pem(b"", "k".to_string()).err(),
        Some(Error::KeyFormatError)
    );
    assert_eq!(
        KeyMaterial::from_pem(b"Zm9vYmFy", "k".to_string()).err(),
        Some(Error::KeyFormatError)
    );
}

#[test]
fn key_identifier_is_read_from_json() {
    assert_eq!(
        key_id_from_json("{\"key_id\":\"abc123\"}"),
        Ok("abc123".to_string())
    );
    assert_eq!(
        key_id_from_json(" { \"other\" : \"x\", \"key_id\" : \"k\\u00e9y\" } "),
        Ok("k\u{e9}y".to_string())
    );
}

#[test]
fn key_identifier_that_is_missing_is_refused() {
    assert_eq!(key_id_from_json("{}"), Err(Error::KeyFormatError));
    assert_eq!(
        key_id_from_json("{\"keyid\":\"abc\"}"),
        Err(Error::KeyFormatError)
    );
    assert_eq!(
        key_id_from_json("{\"key_id\":\"\"}"),
        Err(Error::KeyFormatError)
    );
}

#[test]
fn key_identifier_text_that_is_no_map_of_strings_is_refused() {
    assert_eq!(key_id_from_json(""), Err(Error::KeyFormatError));
    assert_eq!(key_id_from_json("key_id"), Err(Error::KeyFormatError));
    assert_eq!(key_id_from_json("\"key_id\""), Err(Error::KeyFormatError));
    assert_eq!(
        key_id_from_json("{\"key_id\":7}"),
        Err(Error::KeyFormatError)
    );
    assert_eq!(
        key_id_from_json("{\"key_id\":\"a\",\"n\":1}"),
        Err(Error::KeyFormatError)
    );
    assert_eq!(
        key_id_from_json("{\"key_id\":\"a\"} x"),
        Err(Error::KeyFormatError)
    );
}

#[test]
fn key_identifier_from_an_entry() {
    assert_eq!(key_id_from_entry(Some("a".to_string())), Ok("a".to_string()));
    assert_eq!(
        key_id_from_entry(Some(String::new())),
        Err(Error::KeyFormatError)
    );
    assert_eq!(key_id_from_entry(None), Err(Error::KeyFormatError));
}

#[test]
fn key_file_bytes_are_read() {
    assert_eq!(parse_pem(pem().as_bytes()), Ok(key_der()));
    assert_eq!(parse_pem(b""), Ok(vec![]));
    let bare = format!("{}\n{}", armor("BEGIN"), armor("END"));
    assert_eq!(parse_pem(bare.as_bytes()), Ok(vec![]));
    assert_eq!(parse_pem(b"Zg"), Ok(b"f".to_vec()));
    assert_eq!(parse_pem(b"Zm8"), Ok(b"fo".to_vec()));
    assert_eq!(parse_pem(b"Zm9v"), Ok(b"foo".to_vec()));
    assert_eq!(parse_pem(b"Zm9vYg"), Ok(b"foob".to_vec()));
    assert_eq!(parse_pem(b"Zm9vYmE"), Ok(b"fooba".to_vec()));
    let armored = format!("{}\nZm9v\nYmFy\n{}\n", armor("BEGIN"), armor("END"));
    assert_eq!(parse_pem(armored.as_bytes()), Ok(b"foobar".to_vec()));
    assert_eq!(parse_pem(b"Zm9v\nYmFy\n"), Ok(b"foobar".to_vec()));
    assert_eq!(parse_pem(b"+//+"), Ok(vec![0xfb, 0xff, 0xfe]));
    assert_eq!(parse_pem(b"AAAA"), Ok(vec![0, 0, 0]));
}

#[test]
fn key_file_text_that_is_no_unpadded_base64_is_refused() {
    let refused = [
        &b"Z"[..],
        b"Zh",
        b"Zm9",
        b"Zg==",
        b"Zm8=",
        b"Zm9vZ",
        b"Zm9-",
        b"Zm9_",
        b" Zg",
        b"Zg ",
        b"Zm\r\n9v",
        b"Zm9v\xc3\xa9",
    ];
    for text in refused {
        assert_eq!(parse_pem(text), Err(Error::KeyFormatError));
    }
}

#[test]
fn every_byte_survives_the_key_file() {
    for len in 0..7usize {
        for first in 0..=255u8 {
            let bytes: Vec<u8> = (0..len).map(|i| first.wrapping_add(41 * i as u8)).collect();
            let text = base64::engine::general_purpose::STANDARD_NO_PAD.encode(&bytes);
            assert_eq!(parse_pem(text.as_bytes()), Ok(bytes));
        }
    }
}
