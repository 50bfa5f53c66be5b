use credsort::catalog::{detect_hash, find_pattern, hash_types, HashValue};
use credsort::hash_regex::{pattern_matches, HashType, PatternError};

fn label(value: &str, field_count: usize) -> Option<String> {
    detect_hash(&hash_types(), value, field_count).unwrap()
}

#[test]
fn all_families_are_listed_once_in_order() {
    let all = HashType::vec();
    assert_eq!(all.len(), 25);
    assert_eq!(all[0], HashType::Half_Md5);
    assert_eq!(all[1], HashType::MD5);
    assert_eq!(all[7], HashType::Half_Md5_Base64);
    assert_eq!(all[14], HashType::Django_sha1);
    assert_eq!(all[24], HashType::MYSQL5);
    for i in 0..all.len() {
        for j in 0..i {
            assert_ne!(all[i], all[j]);
        }
    }
}

#[test]
fn catalog_has_the_declared_lengths() {
    let catalog = hash_types();
    let mut lengths: Vec<usize> = catalog.keys().copied().collect();
    lengths.sort();
    assert_eq!(
        lengths,
        vec![12, 16, 24, 28, 32, 34, 40, 41, 44, 51, 55, 56, 60, 64, 77, 86, 88, 96, 98, 128, 136]
    );
}

#[test]
fn catalog_holds_every_family_once() {
    let catalog = hash_types();
    let mut seen: Vec<HashType> = Vec::new();
    for patterns in catalog.values() {
        for pattern in patterns {
            assert!(!seen.contains(&pattern.name));
            seen.push(pattern.name);
        }
    }
    assert_eq!(seen.len(), 25);
}

#[test]
fn ambiguous_lengths_keep_their_declared_order() {
    let catalog = hash_types();
    let names = |len: usize| -> Vec<HashType> { catalog[&len].iter().map(|p| p.name).collect() };
    assert_eq!(names(34), vec![HashType::PHPASS, HashType::MD5CRYPT]);
    assert_eq!(names(40), vec![HashType::SHA1, HashType::Md5Rus, HashType::Sha224_Base64]);
    assert_eq!(names(64), vec![HashType::SHA256, HashType::Sha384_Base64]);
    assert_eq!(names(32), vec![HashType::MD5]);
}

#[test]
fn catalog_entry_fields_are_as_declared() {
    let md5 = HashValue::of(HashType::MD5);
    assert_eq!(md5.name, HashType::MD5);
    assert_eq!(md5.regex, "^[a-f0-9]{32}$");
    assert!(md5.ignore_case);
    assert_eq!(md5.hc, "[MD5]_[0]");
    let blake = HashValue::of(HashType::Blake2b_512);
    assert_eq!(blake.regex, "\\$BLAKE2\\$[a-f0-9]{128}");
    assert!(!blake.ignore_case);
    assert_eq!(blake.hc, "[BLAKE2b_512]_[600]");
}

#[test]
fn every_catalog_pattern_compiles() {
    for name in HashType::vec() {
        let pattern = HashValue::of(name);
        assert!(pattern_matches(&pattern.regex, pattern.ignore_case, "").is_ok());
    }
}

#[test]
fn md5_value_is_detected() {
    assert_eq!(label("5f4dcc3b5aa765d61d8327deb882cf99", 2), Some(String::from("[MD5]_[0]")));
}

#[test]
fn half_md5_value_is_detected() {
    assert_eq!(label("0123456789abcdef", 2), Some(String::from("[HALF_MD5]_[5100]")));
}

#[test]
fn salt_marker_needs_more_than_two_fields() {
    let md5 = "5f4dcc3b5aa765d61d8327deb882cf99";
    assert_eq!(label(md5, 3), Some(String::from("[MD5]_[0]_[SALT]")));
    assert_eq!(label(md5, 4), Some(String::from("[MD5]_[0]_[SALT]")));
    assert_eq!(label(md5, 2), Some(String::from("[MD5]_[0]")));
    assert_eq!(label(md5, 1), Some(String::from("[MD5]_[0]")));
}

#[test]
fn length_without_entry_is_no_hash() {
    assert_eq!(label("Passw0rd!", 2), None);
    assert_eq!(label("", 2), None);
}

#[test]
fn length_with_entry_but_no_match_is_no_hash() {
    assert_eq!(label("zzzzzzzzzzzzzzzzzzzzzzzzzzzzzzzz", 2), None);
    assert_eq!(label("not sixteen hex!", 2), None);
}

#[test]
fn hex_patterns_ignore_case() {
    assert_eq!(label("5F4DCC3B5AA765D61D8327DEB882CF99", 2), Some(String::from("[MD5]_[0]")));
}

#[test]
fn length_forty_tries_sha1_first() {
    let sha1 = "da39a3ee5e6b4b0d3255bfef95601890afd80709";
    assert_eq!(label(sha1, 2), Some(String::from("[SHA1]_[100]")));
}

#[test]
fn length_forty_falls_through_to_later_patterns() {
    let prefixed = "Salt_+-.5f4dcc3b5aa765d61d8327deb882cf99";
    assert_eq!(prefixed.len(), 40);
    assert_eq!(label(prefixed, 2), Some(String::from("[MD5_RUs]_[20]")));
    let base64 = "ABCDEFGHIJKLMNOPQRSTUVWXYZabcdefghijkl==";
    assert_eq!(base64.len(), 40);
    assert_eq!(label(base64, 2), Some(String::from("[SHA224_BASE64]_[1300_base64]")));
}

#[test]
fn length_sixty_four_is_sha256_before_base64() {
    let hex = "e3b0c44298fc1c149afbf4c8996fb92427ae41e4649b934ca495991b7852b855";
    assert_eq!(label(hex, 2), Some(String::from("[SHA256]_[1400]")));
    let base64 = "Zm9vYmFyZm9vYmFyZm9vYmFyZm9vYmFyZm9vYmFyZm9vYmFyZm9vYmFyZm9vYmFy";
    assert_eq!(base64.len(), 64);
    assert_eq!(label(base64, 2), Some(String::from("[SHA384_BASE64]_[10800_base64]")));
}

#[test]
fn structured_hashes_are_detected() {
    let bcrypt = "$2a$10$N9qo8uLOickgx2ZMRZoMyeIjZAgcfl7p92ldGxad68LJZdL17lhWy";
    assert_eq!(bcrypt.len(), 60);
    assert_eq!(label(bcrypt, 2), Some(String::from("[BCRYPT]_[3200]")));
    let mysql5 = "*2470C0C06DEE42FD1618BB99005ADCA2EC9D1E19";
    assert_eq!(label(mysql5, 2), Some(String::from("[MYSQL5]_[300]")));
    let phpass = "$P$984478476IagS59wHZvyQMArzfx58u.";
    assert_eq!(phpass.len(), 34);
    assert_eq!(label(phpass, 2), Some(String::from("[PHPASS]_[400]")));
    let md5crypt = "$1$28772684$iEwNOgGugqO9.bIz5sk8k/";
    assert_eq!(md5crypt.len(), 34);
    assert_eq!(label(md5crypt, 2), Some(String::from("[MD5CRYPT]_[500]")));
}

#[test]
fn length_is_counted_in_bytes() {
    let sixteen_chars_more_bytes = "\u{e9}123456789abcdef";
    assert_eq!(sixteen_chars_more_bytes.chars().count(), 16);
    assert_eq!(label(sixteen_chars_more_bytes, 2), None);
}

#[test]
fn find_pattern_returns_first_matching_position() {
    let patterns = vec![
        HashValue::of(HashType::SHA1),
        HashValue::of(HashType::Md5Rus),
        HashValue::of(HashType::Sha224_Base64),
    ];
    assert_eq!(find_pattern(&patterns, "da39a3ee5e6b4b0d3255bfef95601890afd80709"), Ok(Some(0)));
    assert_eq!(find_pattern(&patterns, "Salt_+-.5f4dcc3b5aa765d61d8327deb882cf99"), Ok(Some(1)));
    assert_eq!(find_pattern(&patterns, "ABCDEFGHIJKLMNOPQRSTUVWXYZabcdefghijkl=="), Ok(Some(2)));
    assert_eq!(find_pattern(&patterns, "plain"), Ok(None));
    assert_eq!(find_pattern(&Vec::new(), "plain"), Ok(None));
}

#[test]
fn broken_pattern_after_a_match_is_never_tried() {
    let broken = HashValue {
        name: HashType::MD5,
        regex: String::from("["),
        ignore_case: false,
        hc: String::from("x"),
    };
    let patterns = vec![HashValue::of(HashType::Half_Md5), broken];
    assert_eq!(find_pattern(&patterns, "0123456789abcdef"), Ok(Some(0)));
    assert_eq!(find_pattern(&patterns, "no hash"), Err(PatternError::Invalid));
}

#[test]
fn pattern_matching_follows_the_case_flag() {
    assert_eq!(pattern_matches("^abc$", false, "ABC"), Ok(false));
    assert_eq!(pattern_matches("^abc$", true, "ABC"), Ok(true));
    assert_eq!(pattern_matches("b", false, "abc"), Ok(true));
    assert_eq!(pattern_matches("(", false, "abc"), Err(PatternError::Invalid));
}

#[test]
fn family_name_is_the_variant_name() {
    assert_eq!(HashType::Half_Md5.name(), "Half_Md5");
    assert_eq!(HashType::Blake2b_512.name(), "Blake2b_512");
    assert_eq!(HashType::MYSQL5.name(), "MYSQL5");
    for family in HashType::vec() {
        assert_eq!(family.name(), format!("{:?}", family));
    }
}
