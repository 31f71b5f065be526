//! The identity of one machine: a random primary identifier and two hashed
//! identifiers, always made together.

use crate::encoding::{
    colon_hex, colon_separated, hex_char, hex_lower, hyphenated_hex, is_lower_hex,
    is_lower_hex_char, lemma_hex_digits, lemma_hex_lower,
};
use rand::Rng;
use sha2::Digest;
use vstd::prelude::*;
use vstd::utf8::encode_utf8;

verus! {

/// The SHA-256 digest of a byte string.
pub uninterp spec fn sha256(data: Seq<u8>) -> Seq<u8>;

/// The digest of a text's UTF-8 bytes, as lowercase hexadecimal digits.
pub open spec fn text_digest(text: Seq<char>) -> Seq<char> {
    hex_lower(sha256(encode_utf8(text)))
}

/// Whether sixteen bytes carry the marks of a random (version 4) identifier:
/// the high half of byte 6 is 4 and the top two bits of byte 8 are `10`.
pub open spec fn is_random_uuid(bytes: Seq<u8>) -> bool {
    &&& bytes.len() == 16
    &&& bytes[6] as int / 16 == 4
    &&& bytes[8] as int / 64 == 2
}

/// Whether `s` is the canonical text of a version 4 identifier: 36
/// characters, hyphens after 8, 13, 18 and 23 of them, lowercase hexadecimal
/// digits elsewhere, `4` as the version digit, and `8`, `9`, `a` or `b` as
/// the variant digit.
pub open spec fn is_uuid_v4_text(s: Seq<char>) -> bool {
    &&& s.len() == 36
    &&& forall|i: int|
        0 <= i < 36 ==> if i == 8 || i == 13 || i == 18 || i == 23 {
            #[trigger] s[i] == '-'
        } else {
            is_lower_hex_char(s[i])
        }
    &&& s[14] == '4'
    &&& (s[19] == '8' || s[19] == '9' || s[19] == 'a' || s[19] == 'b')
}

/// The three identifiers as plain text.
pub struct IdentityModel {
    pub primary: Seq<char>,
    pub secondary: Seq<char>,
    pub tertiary: Seq<char>,
}

impl IdentityModel {
    /// What holds of every identity: the primary identifier is a version 4
    /// identifier in canonical text, the tertiary one is the digest of that
    /// text, and both hashed identifiers are 64 lowercase hexadecimal digits.
    pub open spec fn consistent(self) -> bool {
        &&& is_uuid_v4_text(self.primary)
        &&& self.tertiary == text_digest(self.primary)
        &&& self.tertiary.len() == 64
        &&& is_lower_hex(self.tertiary)
        &&& self.secondary.len() == 64
        &&& is_lower_hex(self.secondary)
    }
}

/// The identity that sixteen identifier bytes and six address bytes give.
pub open spec fn identity_of(uuid: Seq<u8>, mac: Seq<u8>) -> IdentityModel {
    IdentityModel {
        primary: hyphenated_hex(uuid),
        secondary: text_digest(colon_hex(mac)),
        tertiary: text_digest(hyphenated_hex(uuid)),
    }
}

/// One machine's identifiers.
pub struct IdentitySet {
    primary_id: String,
    secondary_hashed_id: String,
    tertiary_hashed_id: String,
}

impl View for IdentitySet {
    type V = IdentityModel;

    closed spec fn view(&self) -> IdentityModel {
        IdentityModel {
            primary: self.primary_id@,
            secondary: self.secondary_hashed_id@,
            tertiary: self.tertiary_hashed_id@,
        }
    }
}

impl IdentitySet {
    #[verifier::type_invariant]
    spec fn well_formed(self) -> bool {
        self@.consistent()
    }

    /// The random identifier, in canonical text.
    pub fn primary_id(&self) -> (s: &str)
        ensures
            s@ == self@.primary,
            self@.consistent(),
    {
        proof {
            use_type_invariant(self);
        }
        self.primary_id.as_str()
    }

    /// The digest of a random hardware-like address.
    pub fn secondary_hashed_id(&self) -> (s: &str)
        ensures
            s@ == self@.secondary,
            self@.consistent(),
    {
        proof {
            use_type_invariant(self);
        }
        self.secondary_hashed_id.as_str()
    }

    /// The digest of the primary identifier's text.
    pub fn tertiary_hashed_id(&self) -> (s: &str)
        ensures
            s@ == self@.tertiary,
            self@.consistent(),
    {
        proof {
            use_type_invariant(self);
        }
        self.tertiary_hashed_id.as_str()
    }
}

/// The hyphenated text of sixteen marked bytes is a canonical version 4
/// identifier.
pub proof fn lemma_random_uuid_text(bytes: Seq<u8>)
    requires
        is_random_uuid(bytes),
    ensures
        is_uuid_v4_text(hyphenated_hex(bytes)),
{
    let s = hyphenated_hex(bytes);
    lemma_hex_lower(bytes.subrange(0, 4));
    lemma_hex_lower(bytes.subrange(4, 6));
    lemma_hex_lower(bytes.subrange(6, 8));
    lemma_hex_lower(bytes.subrange(8, 10));
    lemma_hex_lower(bytes.subrange(10, 16));
    assert(s.len() == 36);
    assert forall|i: int| 0 <= i < 36 implies if i == 8 || i == 13 || i == 18 || i == 23 {
        #[trigger] s[i] == '-'
    } else {
        is_lower_hex_char(s[i])
    } by {
        if i < 8 {
            assert(s[i] == hex_lower(bytes.subrange(0, 4))[i]);
        } else if 9 <= i < 13 {
            assert(s[i] == hex_lower(bytes.subrange(4, 6))[i - 9]);
        } else if 14 <= i < 18 {
            assert(s[i] == hex_lower(bytes.subrange(6, 8))[i - 14]);
        } else if 19 <= i < 23 {
            assert(s[i] == hex_lower(bytes.subrange(8, 10))[i - 19]);
        } else if 24 <= i {
            assert(s[i] == hex_lower(bytes.subrange(10, 16))[i - 24]);
        }
    }
    assert(s[14] == hex_lower(bytes.subrange(6, 8))[0]);
    assert(s[14] == hex_char(bytes[6] as int / 16));
    assert(s[19] == hex_lower(bytes.subrange(8, 10))[0]);
    assert(s[19] == hex_char(bytes[8] as int / 16));
    lemma_hex_digits();
}

/// Sixteen random bytes from `uuid::Uuid::new_v4`, which masks random bits so
/// that the version half-byte is 4 and the variant bits are `10`. The call
/// panics where the system has no random bytes to give.
#[verifier::external_body]
fn random_uuid_bytes() -> (out: [u8; 16])
    ensures
        is_random_uuid(out@),
{
    uuid::Uuid::new_v4().into_bytes()
}

/// The text that `uuid::Uuid` prints for the given bytes: lowercase
/// hexadecimal digits, hyphenated 8-4-4-4-12.
#[verifier::external_body]
fn uuid_text(bytes: [u8; 16]) -> (out: String)
    ensures
        out@ == hyphenated_hex(bytes@),
{
    uuid::Uuid::from_bytes(bytes).to_string()
}

/// One byte from `rand`'s thread-local generator. Nothing is known of it.
#[verifier::external_body]
fn random_octet() -> u8 {
    rand::thread_rng().gen()
}

/// The SHA-256 digest of `data`, computed by `sha2::Sha256`.
#[verifier::external_body]
fn sha256_digest(data: &[u8]) -> (out: [u8; 32])
    ensures
        out@ == sha256(data@),
{
    sha2::Sha256::digest(data).into()
}

/// `hex::encode`: two lowercase digits for each byte, high half first.
#[verifier::external_body]
fn hex_encode(bytes: &[u8]) -> (out: String)
    ensures
        out@ == hex_lower(bytes@),
{
    hex::encode(bytes)
}

/// The digest of a text's UTF-8 bytes, as 64 lowercase hexadecimal digits.
pub fn digest_text(text: &str) -> (out: String)
    ensures
        out@ == text_digest(text@),
        out@.len() == 64,
        is_lower_hex(out@),
{
    let digest = sha256_digest(text.as_bytes());
    proof {
        lemma_hex_lower(digest@);
    }
    hex_encode(digest.as_slice())
}

/// Whether the sixteen bytes carry the marks of a version 4 identifier.
pub fn has_random_marks(uuid: &[u8; 16]) -> (b: bool)
    ensures
        b == is_random_uuid(uuid@),
{
    uuid[6] / 16 == 4 && uuid[8] / 64 == 2
}

/// Builds the identity that marked identifier bytes and address bytes give.
fn build_identity(uuid: [u8; 16], mac: [u8; 6]) -> (ids: IdentitySet)
    requires
        is_random_uuid(uuid@),
    ensures
        ids@ == identity_of(uuid@, mac@),
        ids@.consistent(),
{
    let primary_id = uuid_text(uuid);
    let mac_text = colon_separated(mac.as_slice());
    let secondary_hashed_id = digest_text(mac_text.as_str());
    let tertiary_hashed_id = digest_text(primary_id.as_str());
    proof {
        lemma_random_uuid_text(uuid@);
    }
    IdentitySet { primary_id, secondary_hashed_id, tertiary_hashed_id }
}

/// Builds the identity that the given random material determines: sixteen
/// identifier bytes and six address bytes. Bytes that do not carry the marks
/// of a version 4 identifier give no identity.
pub fn identity_from_entropy(uuid: [u8; 16], mac: [u8; 6]) -> (res: Option<IdentitySet>)
    ensures
        match res {
            Some(ids) => is_random_uuid(uuid@) && ids@ == identity_of(uuid@, mac@)
                && ids@.consistent(),
            None => !is_random_uuid(uuid@),
        },
{
    if has_random_marks(&uuid) {
        Some(build_identity(uuid, mac))
    } else {
        None
    }
}

/// Makes a new identity from fresh random material: a version 4 identifier
/// and six random address bytes.
pub fn generate_random_ids() -> (ids: IdentitySet)
    ensures
        ids@.consistent(),
        exists|uuid: Seq<u8>, mac: Seq<u8>|
            is_random_uuid(uuid) && mac.len() == 6 && ids@ == #[trigger] identity_of(uuid, mac),
{
    let uuid = random_uuid_bytes();
    let mac = [
        random_octet(),
        random_octet(),
        random_octet(),
        random_octet(),
        random_octet(),
        random_octet(),
    ];
    build_identity(uuid, mac)
}

} // verus!
