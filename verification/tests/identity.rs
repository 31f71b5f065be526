use machine_identity::encoding::{colon_separated, hex_digit};
use machine_identity::identity::{
    digest_text, generate_random_ids, has_random_marks, identity_from_entropy,
};
use sha2::Digest;

fn is_lower_hex(s: &str) -> bool {
    s.chars().all(|c| c.is_ascii_digit() || ('a'..='f').contains(&c))
}

fn is_uuid_v4(s: &str) -> bool {
    let chars: Vec<char> = s.chars().collect();
    if chars.len() != 36 {
        return false;
    }
    for (i, c) in chars.iter().enumerate() {
        let hyphen = i == 8 || i == 13 || i == 18 || i == 23;
        if hyphen && *c != '-' {
            return false;
        }
        if !hyphen && !(c.is_ascii_digit() || ('a'..='f').contains(c)) {
            return false;
        }
    }
    chars[14] == '4' && matches!(chars[19], '8' | '9' | 'a' | 'b')
}

#[test]
fn hex_digits_are_lowercase() {
    let digits: String = (0u8..16).map(hex_digit).collect();
    assert_eq!(digits, "0123456789abcdef");
}

#[test]
fn colon_separated_joins_octets() {
    assert_eq!(colon_separated(&[]), "");
    assert_eq!(colon_separated(&[0x0a]), "0a");
    assert_eq!(colon_separated(&[0x00, 0x11, 0x22, 0xaa, 0xbb, 0xff]), "00:11:22:aa:bb:ff");
}

#[test]
fn digest_text_matches_known_values() {
    assert_eq!(
        digest_text("abc"),
        "ba7816bf8f01cfea414140de5dae2223b00361a396177a9cb410ff61f20015ad"
    );
    assert_eq!(
        digest_text(""),
        "e3b0c44298fc1c149afbf4c8996fb92427ae41e4649b934ca495991b7852b855"
    );
    assert_eq!(
        digest_text("zażółć"),
        "7eefe5e3046c86cec19ce1215e0a04724124d948468005a1ebc4adf2643bea13"
    );
}

#[test]
fn identity_from_entropy_gives_exact_identifiers() {
    let uuid = [
        0x12, 0x34, 0x56, 0x78, 0x9a, 0xbc, 0x4d, 0xef, 0x80, 0x12, 0x34, 0x56, 0x78, 0x9a, 0xbc,
        0xde,
    ];
    let ids = identity_from_entropy(uuid, [0x00, 0x11, 0x22, 0xaa, 0xbb, 0xff]).unwrap();
    assert_eq!(ids.primary_id(), "12345678-9abc-4def-8012-3456789abcde");
    assert_eq!(
        ids.secondary_hashed_id(),
        "9f363267bab0baee12a9e451343e209421ebdebfa5fab21cc82da2521279cedf"
    );
    assert_eq!(
        ids.tertiary_hashed_id(),
        "d7164e9f9c94421baaa7215c705676b140c2d4f9ce342c6cde94c8e818074476"
    );
}

#[test]
fn identity_from_entropy_at_the_extremes() {
    let mut low = [0u8; 16];
    low[6] = 0x40;
    low[8] = 0x80;
    let ids = identity_from_entropy(low, [0; 6]).unwrap();
    assert_eq!(ids.primary_id(), "00000000-0000-4000-8000-000000000000");
    assert_eq!(
        ids.secondary_hashed_id(),
        "38fbdde984330e50c02382e647c576b71f41cc5c45b193d4f3177e6ee8f22a78"
    );
    assert_eq!(
        ids.tertiary_hashed_id(),
        "db8055e0e0307d5a016bec4dc338d69875eb0fb7e614a8b125b08fb082095d98"
    );

    let mut high = [0xffu8; 16];
    high[6] = 0x4f;
    high[8] = 0xbf;
    let ids = identity_from_entropy(high, [0xff; 6]).unwrap();
    assert_eq!(ids.primary_id(), "ffffffff-ffff-4fff-bfff-ffffffffffff");
    assert_eq!(
        ids.secondary_hashed_id(),
        "927ac519ac15daff25271b8c925e9376a4e5de537a86e9daeb27b4a397e6bb56"
    );
    assert_eq!(
        ids.tertiary_hashed_id(),
        "66c6a0d124855ac03a1a6aadaac2df595853982e8740806ab3e4157f400fbcb6"
    );
}

#[test]
fn generated_primary_id_is_a_version_4_uuid() {
    for _ in 0..200 {
        let ids = generate_random_ids();
        assert!(is_uuid_v4(ids.primary_id()), "{}", ids.primary_id());
        let parsed = uuid::Uuid::parse_str(ids.primary_id()).unwrap();
        assert_eq!(parsed.get_version_num(), 4);
    }
}

#[test]
fn generated_tertiary_is_the_digest_of_the_primary() {
    for _ in 0..50 {
        let ids = generate_random_ids();
        let expected = hex::encode(sha2::Sha256::digest(ids.primary_id().as_bytes()));
        assert_eq!(ids.tertiary_hashed_id(), expected);
        assert_eq!(ids.tertiary_hashed_id().len(), 64);
        assert!(is_lower_hex(ids.tertiary_hashed_id()));
    }
}

#[test]
fn generated_secondary_is_64_lowercase_hex_digits() {
    for _ in 0..50 {
        let ids = generate_random_ids();
        assert_eq!(ids.secondary_hashed_id().len(), 64);
        assert!(is_lower_hex(ids.secondary_hashed_id()));
        assert_ne!(ids.secondary_hashed_id(), ids.tertiary_hashed_id());
    }
}

#[test]
fn generated_identities_differ() {
    let a = generate_random_ids();
    let b = generate_random_ids();
    assert_ne!(a.primary_id(), b.primary_id());
    assert_ne!(a.secondary_hashed_id(), b.secondary_hashed_id());
    assert_ne!(a.tertiary_hashed_id(), b.tertiary_hashed_id());
}

#[test]
fn unmarked_bytes_give_no_identity() {
    assert!(identity_from_entropy([0; 16], [0; 6]).is_none());
    let mut wrong_version = [0u8; 16];
    wrong_version[6] = 0x50;
    wrong_version[8] = 0x80;
    assert!(!has_random_marks(&wrong_version));
    assert!(identity_from_entropy(wrong_version, [1; 6]).is_none());
    let mut wrong_variant = [0u8; 16];
    wrong_variant[6] = 0x40;
    wrong_variant[8] = 0xc0;
    assert!(!has_random_marks(&wrong_variant));
    assert!(identity_from_entropy(wrong_variant, [1; 6]).is_none());
    let mut marked = [0u8; 16];
    marked[6] = 0x4a;
    marked[8] = 0xb5;
    assert!(has_random_marks(&marked));
    assert!(identity_from_entropy(marked, [1; 6]).is_some());
}
