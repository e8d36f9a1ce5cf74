//! SOPS-compatible encrypted secret values.
//!
//! A secret is stored as a SOPS document with a single `value` leaf, encrypted
//! to a single age recipient: the value and its MAC are sealed with
//! AES-256-GCM under a fresh data key, and the data key is wrapped to the
//! recipient.
use crate::calendar::{rfc3339_given, unix_seconds_now};
use crate::encoding::{base64_encode, hex_upper};
use crate::recipient::{check_recipient, wrap_data_key};
use crate::text::{joined, replace_first};
use crate::yaml::{render_yaml, YamlDocument, YamlRow};
use aes_gcm::aead::generic_array::GenericArray;
use aes_gcm::aead::rand_core::RngCore;
use aes_gcm::aead::{Aead, KeyInit};
use sha2::Digest;
use vstd::prelude::*;

verus! {

/// The size of an AES-GCM authentication tag, which ends a sealed message.
pub const GCM_TAG_SIZE: usize = 16;

/// The version that a document says it was written by.
pub const SOPS_FILE_VERSION: &'static str = "3.13.1";

/// Errors returned by [`encrypt_for_secret`].
#[derive(Debug)]
pub enum SopsEncryptError {
    /// The public key is empty.
    EmptyPublicKey,
    /// The public key is no age (X25519) recipient.
    ParseRecipient(String),
    /// Encrypting the `value` leaf failed.
    EncryptValue(String),
    /// Encrypting the MAC failed.
    EncryptMac(String),
    /// Wrapping the data key to the age recipient failed.
    WrapDataKey(String),
    /// Rendering the document as YAML failed.
    Marshal(String),
    /// The system clock is set to a moment before the Unix epoch.
    ClockBeforeEpoch,
}

impl SopsEncryptError {
    /// What the error says.
    pub open spec fn message(&self) -> Seq<char> {
        match self {
            SopsEncryptError::EmptyPublicKey => "signet: public key must not be empty"@,
            SopsEncryptError::ParseRecipient(cause) => "signet: parse age recipient: "@ + cause@,
            SopsEncryptError::EncryptValue(cause) => "signet: encrypt value: "@ + cause@,
            SopsEncryptError::EncryptMac(cause) => "signet: encrypt mac: "@ + cause@,
            SopsEncryptError::WrapDataKey(cause) => "signet: wrap data key: "@ + cause@,
            SopsEncryptError::Marshal(cause) => "signet: marshal sops document: "@ + cause@,
            SopsEncryptError::ClockBeforeEpoch => "system clock is before the Unix epoch"@,
        }
    }

    /// What the error says.
    pub fn to_string(&self) -> (text: String)
        ensures
            text@ == self.message(),
    {
        match self {
            SopsEncryptError::EmptyPublicKey => {
                "signet: public key must not be empty".to_string()
            },
            SopsEncryptError::ParseRecipient(cause) => {
                joined("signet: parse age recipient: ", cause.as_str())
            },
            SopsEncryptError::EncryptValue(cause) => {
                joined("signet: encrypt value: ", cause.as_str())
            },
            SopsEncryptError::EncryptMac(cause) => joined("signet: encrypt mac: ", cause.as_str()),
            SopsEncryptError::WrapDataKey(cause) => {
                joined("signet: wrap data key: ", cause.as_str())
            },
            SopsEncryptError::Marshal(cause) => {
                joined("signet: marshal sops document: ", cause.as_str())
            },
            SopsEncryptError::ClockBeforeEpoch => {
                "system clock is before the Unix epoch".to_string()
            },
        }
    }
}

/// The longest message, and the longest additional data, that AES-GCM seals.
pub open spec fn gcm_limit() -> nat {
    68_719_476_736
}

/// Whether AES-GCM seals this message with this additional data.
pub open spec fn gcm_accepts(plaintext: Seq<u8>, additional_data: Seq<u8>) -> bool {
    plaintext.len() <= gcm_limit() && additional_data.len() <= gcm_limit()
}

/// AES-256-GCM with a 32-byte nonce: the ciphertext of `plaintext` with the
/// tag behind it.
pub uninterp spec fn aes_gcm_sealed(
    key: Seq<u8>,
    nonce: Seq<u8>,
    plaintext: Seq<u8>,
    additional_data: Seq<u8>,
) -> Seq<u8>;

/// AES-256-GCM with a 32-byte nonce: what opening a sealed message gives.
pub uninterp spec fn aes_gcm_opened(
    key: Seq<u8>,
    nonce: Seq<u8>,
    sealed: Seq<u8>,
    additional_data: Seq<u8>,
) -> Option<Seq<u8>>;

/// The SHA-512 digest of `data`.
pub uninterp spec fn sha512(data: Seq<u8>) -> Seq<u8>;

/// `aes_gcm`'s `Aead::encrypt` for `AesGcm<Aes256, U32>`.
///
/// It seals every message and additional data up to the limit and refuses
/// longer ones. What is sealed is a function of the arguments, is longer than
/// the message by the tag, and opens to the message again.
#[verifier::external_body]
fn gcm_seal(
    key: &[u8; 32],
    nonce: &[u8; 32],
    plaintext: &[u8],
    additional_data: &[u8],
) -> (sealed: Result<Vec<u8>, String>)
    requires
        plaintext@.len() + GCM_TAG_SIZE <= isize::MAX,
    ensures
        sealed is Ok == gcm_accepts(plaintext@, additional_data@),
        sealed matches Ok(bytes) ==> bytes@ == aes_gcm_sealed(
            key@,
            nonce@,
            plaintext@,
            additional_data@,
        ),
        sealed matches Ok(bytes) ==> bytes@.len() == plaintext@.len() + GCM_TAG_SIZE,
        sealed matches Ok(bytes) ==> aes_gcm_opened(key@, nonce@, bytes@, additional_data@) == Some(
            plaintext@,
        ),
        sealed matches Err(message) ==> message@ == "aead::Error"@,
{
    let cipher: aes_gcm::AesGcm<aes_gcm::aes::Aes256, aes_gcm::aead::consts::U32> =
        aes_gcm::AesGcm::new(GenericArray::from_slice(key));
    let payload = aes_gcm::aead::Payload { msg: plaintext, aad: additional_data };
    cipher.encrypt(GenericArray::from_slice(nonce), payload).map_err(|e| e.to_string())
}

/// `sha2`'s `Sha512::digest`: the digest of `data`, 64 bytes.
#[verifier::external_body]
fn sha512_digest(data: &[u8]) -> (digest: Vec<u8>)
    ensures
        digest@ == sha512(data@),
        digest@.len() == 64,
{
    sha2::Sha512::digest(data).to_vec()
}

/// `OsRng`'s `fill_bytes` on 32 bytes.
///
/// The operating system decides the bytes, so nothing is claimed of them. The
/// call does not return where the system gives none.
#[verifier::external_body]
fn random_bytes() -> (bytes: [u8; 32]) {
    let mut bytes = [0u8; 32];
    aes_gcm::aead::OsRng.fill_bytes(&mut bytes);
    bytes
}

/// An encrypted leaf of a document: the ciphertext, the nonce and the tag in
/// Base64.
pub open spec fn leaf_text(data: Seq<u8>, nonce: Seq<u8>, tag: Seq<u8>) -> Seq<char> {
    "ENC[AES256_GCM,data:"@ + crate::encoding::base64_text(data) + ",iv:"@
        + crate::encoding::base64_text(nonce) + ",tag:"@ + crate::encoding::base64_text(tag)
        + ",type:str]"@
}

/// The leaf that holds `plaintext` sealed under a key and a nonce.
pub open spec fn sealed_leaf(
    key: Seq<u8>,
    nonce: Seq<u8>,
    plaintext: Seq<u8>,
    additional_data: Seq<u8>,
) -> Seq<char> {
    let sealed = aes_gcm_sealed(key, nonce, plaintext, additional_data);
    let cut = sealed.len() - GCM_TAG_SIZE;
    leaf_text(sealed.take(cut), nonce, sealed.skip(cut))
}

/// The ciphertext, nonce and tag that a leaf is made of, where it is one.
pub open spec fn leaf_parts(text: Seq<char>) -> Option<(Seq<u8>, Seq<u8>, Seq<u8>)> {
    if exists|data: Seq<u8>, nonce: Seq<u8>, tag: Seq<u8>| text == #[trigger] leaf_text(
        data,
        nonce,
        tag,
    ) {
        Some(
            choose|parts: (Seq<u8>, Seq<u8>, Seq<u8>)| text == #[trigger] leaf_text(
                parts.0,
                parts.1,
                parts.2,
            ),
        )
    } else {
        None
    }
}

/// Whether a text is a leaf for a message of `len` bytes: its ciphertext is as
/// long as the message, its nonce has 32 bytes and its tag 16.
pub open spec fn leaf_fits(text: Seq<char>, len: nat) -> bool {
    leaf_parts(text) matches Some(parts) && parts.0.len() == len && parts.1.len() == 32
        && parts.2.len() == GCM_TAG_SIZE
}

/// What opening a leaf under a key gives.
pub open spec fn leaf_opened(
    key: Seq<u8>,
    text: Seq<char>,
    additional_data: Seq<u8>,
) -> Option<Seq<u8>> {
    match leaf_parts(text) {
        Some(parts) => aes_gcm_opened(key, parts.1, parts.0 + parts.2, additional_data),
        None => None,
    }
}

/// Two texts without a comma that are each followed by one are the same where
/// the whole is.
proof fn lemma_split_at_comma(x: Seq<char>, rest_x: Seq<char>, y: Seq<char>, rest_y: Seq<char>)
    requires
        x + rest_x == y + rest_y,
        forall|i: int| 0 <= i < x.len() ==> x[i] != ',',
        forall|i: int| 0 <= i < y.len() ==> y[i] != ',',
        rest_x.len() > 0 && rest_x[0] == ',',
        rest_y.len() > 0 && rest_y[0] == ',',
    ensures
        x == y,
        rest_x == rest_y,
{
    let whole = x + rest_x;
    assert(whole[x.len() as int] == ',');
    assert(whole == y + rest_y);
    assert(whole[y.len() as int] == ',');
    if x.len() < y.len() {
        assert(whole[x.len() as int] == y[x.len() as int]);
    }
    if y.len() < x.len() {
        assert(whole[y.len() as int] == x[y.len() as int]);
    }
    assert(x =~= whole.take(x.len() as int));
    assert(y =~= whole.take(x.len() as int));
    assert(rest_x =~= whole.skip(x.len() as int));
    assert(rest_y =~= whole.skip(x.len() as int));
}

/// The part of a leaf from its tag field on.
spec fn leaf_from_tag(tag: Seq<u8>) -> Seq<char> {
    ",tag:"@ + (crate::encoding::base64_text(tag) + ",type:str]"@)
}

/// The part of a leaf from its nonce field on.
spec fn leaf_from_nonce(nonce: Seq<u8>, tag: Seq<u8>) -> Seq<char> {
    ",iv:"@ + (crate::encoding::base64_text(nonce) + leaf_from_tag(tag))
}

proof fn lemma_leaf_shape(data: Seq<u8>, nonce: Seq<u8>, tag: Seq<u8>)
    ensures
        leaf_text(data, nonce, tag) == "ENC[AES256_GCM,data:"@ + (crate::encoding::base64_text(data)
            + leaf_from_nonce(nonce, tag)),
{
    assert(leaf_text(data, nonce, tag) =~= "ENC[AES256_GCM,data:"@ + (
    crate::encoding::base64_text(data) + leaf_from_nonce(nonce, tag)));
}

/// What stands behind equal beginnings of equal texts is equal.
proof fn lemma_cancel(head: Seq<char>, x: Seq<char>, y: Seq<char>)
    requires
        head + x == head + y,
    ensures
        x == y,
{
    assert(x =~= (head + x).skip(head.len() as int));
    assert(y =~= (head + y).skip(head.len() as int));
}

/// Base64 texts that are each followed by a comma hold the same bytes where the
/// whole is the same.
proof fn lemma_field_is_determined(x: Seq<u8>, rest_x: Seq<char>, y: Seq<u8>, rest_y: Seq<char>)
    requires
        crate::encoding::base64_text(x) + rest_x == crate::encoding::base64_text(y) + rest_y,
        rest_x.len() > 0 && rest_x[0] == ',',
        rest_y.len() > 0 && rest_y[0] == ',',
    ensures
        x == y,
        rest_x == rest_y,
{
    crate::encoding::lemma_base64_chars(x);
    crate::encoding::lemma_base64_chars(y);
    lemma_split_at_comma(
        crate::encoding::base64_text(x),
        rest_x,
        crate::encoding::base64_text(y),
        rest_y,
    );
    crate::encoding::law_base64_text_is_injective(x, y);
}

/// A leaf says exactly one ciphertext, nonce and tag.
pub proof fn law_leaf_text_is_injective(
    data: Seq<u8>,
    nonce: Seq<u8>,
    tag: Seq<u8>,
    data2: Seq<u8>,
    nonce2: Seq<u8>,
    tag2: Seq<u8>,
)
    requires
        leaf_text(data, nonce, tag) == leaf_text(data2, nonce2, tag2),
    ensures
        data == data2,
        nonce == nonce2,
        tag == tag2,
{
    let (from_nonce, from_nonce2) = (leaf_from_nonce(nonce, tag), leaf_from_nonce(nonce2, tag2));
    let (from_tag, from_tag2) = (leaf_from_tag(tag), leaf_from_tag(tag2));
    assert(from_nonce[0] == ',' && from_nonce2[0] == ',') by {
        reveal_strlit(",iv:");
    }
    assert(from_tag[0] == ',' && from_tag2[0] == ',') by {
        reveal_strlit(",tag:");
    }
    assert(",iv:"@.len() > 0 && ",tag:"@.len() > 0 && ",type:str]"@.len() > 0 && ",type:str]"@[0]
        == ',') by {
        reveal_strlit(",iv:");
        reveal_strlit(",tag:");
        reveal_strlit(",type:str]");
    }
    lemma_leaf_shape(data, nonce, tag);
    lemma_leaf_shape(data2, nonce2, tag2);
    lemma_cancel(
        "ENC[AES256_GCM,data:"@,
        crate::encoding::base64_text(data) + from_nonce,
        crate::encoding::base64_text(data2) + from_nonce2,
    );
    lemma_field_is_determined(data, from_nonce, data2, from_nonce2);
    lemma_cancel(
        ",iv:"@,
        crate::encoding::base64_text(nonce) + from_tag,
        crate::encoding::base64_text(nonce2) + from_tag2,
    );
    lemma_field_is_determined(nonce, from_tag, nonce2, from_tag2);
    lemma_cancel(
        ",tag:"@,
        crate::encoding::base64_text(tag) + ",type:str]"@,
        crate::encoding::base64_text(tag2) + ",type:str]"@,
    );
    lemma_field_is_determined(tag, ",type:str]"@, tag2, ",type:str]"@);
}

/// Reading a leaf gives back the ciphertext, nonce and tag that it was made
/// of.
pub proof fn law_leaf_reads_back(data: Seq<u8>, nonce: Seq<u8>, tag: Seq<u8>)
    ensures
        leaf_parts(leaf_text(data, nonce, tag)) == Some((data, nonce, tag)),
{
    let text = leaf_text(data, nonce, tag);
    let whole = (data, nonce, tag);
    assert(text == leaf_text(whole.0, whole.1, whole.2));
    let parts = choose|parts: (Seq<u8>, Seq<u8>, Seq<u8>)| text == #[trigger] leaf_text(
        parts.0,
        parts.1,
        parts.2,
    );
    law_leaf_text_is_injective(data, nonce, tag, parts.0, parts.1, parts.2);
}

/// Seals `plaintext` with AES-256-GCM under `data_key` and `nonce`, with
/// `additional_data` authenticated beside it, and renders it as a leaf: the
/// ciphertext, the nonce and the tag as separate Base64 fields.
///
/// Opening the leaf under the key with the same additional data gives the
/// plaintext back.
pub fn seal_leaf(
    data_key: &[u8; 32],
    nonce: &[u8; 32],
    plaintext: &[u8],
    additional_data: &[u8],
) -> (leaf: Result<String, String>)
    requires
        crate::encoding::base64_len(plaintext@.len()) <= isize::MAX,
    ensures
        leaf is Ok <==> gcm_accepts(plaintext@, additional_data@),
        leaf matches Ok(text) ==> text@ == sealed_leaf(
            data_key@,
            nonce@,
            plaintext@,
            additional_data@,
        ) && leaf_opened(data_key@, text@, additional_data@) == Some(plaintext@),
        leaf is Ok ==> aes_gcm_sealed(data_key@, nonce@, plaintext@, additional_data@).len()
            == plaintext@.len() + GCM_TAG_SIZE,
        leaf matches Ok(text) ==> leaf_fits(text@, plaintext@.len()),
        leaf matches Err(message) ==> message@ == "aead::Error"@,
        leaf is Ok <==> plaintext@.len() <= 68_719_476_736 && additional_data@.len()
            <= 68_719_476_736,
        leaf matches Ok(text) ==> {
            let sealed = aes_gcm_sealed(data_key@, nonce@, plaintext@, additional_data@);
            &&& sealed.len() == plaintext@.len() + 16
            &&& aes_gcm_opened(data_key@, nonce@, sealed, additional_data@) == Some(plaintext@)
            &&& text@ == "ENC[AES256_GCM,data:"@ + crate::encoding::base64_text(
                sealed.take(plaintext@.len() as int),
            ) + ",iv:"@ + crate::encoding::base64_text(nonce@) + ",tag:"@
                + crate::encoding::base64_text(sealed.skip(plaintext@.len() as int))
                + ",type:str]"@
        },
{
    let sealed = match gcm_seal(data_key, nonce, plaintext, additional_data) {
        Ok(sealed) => sealed,
        Err(message) => return Err(message),
    };
    let (data, tag) = sealed.as_slice().split_at(sealed.len() - GCM_TAG_SIZE);
    let mut text = String::new();
    text.append("ENC[AES256_GCM,data:");
    text.append(base64_encode(data).as_str());
    text.append(",iv:");
    text.append(base64_encode(nonce.as_slice()).as_str());
    text.append(",tag:");
    text.append(base64_encode(tag).as_str());
    text.append(",type:str]");
    proof {
        assert(data@ =~= sealed@.take(sealed.len() - GCM_TAG_SIZE));
        assert(tag@ =~= sealed@.skip(sealed.len() - GCM_TAG_SIZE));
        assert(text@ == leaf_text(data@, nonce@, tag@));
        law_leaf_reads_back(data@, nonce@, tag@);
        assert(data@ + tag@ =~= sealed@);
    }
    Ok(text)
}

/// Seals `plaintext` under `data_key` and a fresh random nonce and renders it
/// as a leaf; see [`seal_leaf`].
pub fn sops_encrypt_leaf(
    data_key: &[u8; 32],
    plaintext: &[u8],
    additional_data: &[u8],
) -> (leaf: Result<String, String>)
    requires
        crate::encoding::base64_len(plaintext@.len()) <= isize::MAX,
    ensures
        leaf is Ok <==> gcm_accepts(plaintext@, additional_data@),
        leaf matches Ok(text) ==> leaf_opened(data_key@, text@, additional_data@) == Some(
            plaintext@,
        ) && exists|nonce: Seq<u8>|
            nonce.len() == 32 && text@ == #[trigger] sealed_leaf(
                data_key@,
                nonce,
                plaintext@,
                additional_data@,
            ) && aes_gcm_sealed(data_key@, nonce, plaintext@, additional_data@).len()
                == plaintext@.len() + GCM_TAG_SIZE,
        leaf matches Ok(text) ==> leaf_fits(text@, plaintext@.len()),
        leaf matches Err(message) ==> message@ == "aead::Error"@,
        leaf is Ok <==> plaintext@.len() <= 68_719_476_736 && additional_data@.len()
            <= 68_719_476_736,
        leaf matches Ok(text) ==> exists|nonce: Seq<u8>|
            {
                let sealed = #[trigger] aes_gcm_sealed(
                    data_key@,
                    nonce,
                    plaintext@,
                    additional_data@,
                );
                &&& nonce.len() == 32
                &&& sealed.len() == plaintext@.len() + 16
                &&& aes_gcm_opened(data_key@, nonce, sealed, additional_data@) == Some(plaintext@)
                &&& text@ == "ENC[AES256_GCM,data:"@ + crate::encoding::base64_text(
                    sealed.take(plaintext@.len() as int),
                ) + ",iv:"@ + crate::encoding::base64_text(nonce) + ",tag:"@
                    + crate::encoding::base64_text(sealed.skip(plaintext@.len() as int))
                    + ",type:str]"@
            },
{
    let nonce: [u8; 32] = random_bytes();
    assert(nonce@.len() == 32);
    seal_leaf(data_key, &nonce, plaintext, additional_data)
}

/// `yaml` with the scalar `raw_value` under `key` put in double quotes.
pub open spec fn quoted_scalar(
    yaml: Seq<char>,
    key: Seq<char>,
    raw_value: Seq<char>,
) -> Seq<char> {
    crate::text::replaced_first(
        yaml,
        key + ": "@ + raw_value,
        key + ": \""@ + raw_value + "\""@,
    )
}

/// A leaf holds no `{key}: {raw_value}` scalar: it has no space, so quoting a
/// scalar of a document never falls on one of its leaves.
pub proof fn law_leaf_holds_no_scalar(
    data: Seq<u8>,
    nonce: Seq<u8>,
    tag: Seq<u8>,
    key: Seq<char>,
    raw_value: Seq<char>,
    i: int,
)
    ensures
        !crate::text::stands_at(leaf_text(data, nonce, tag), key + ": "@ + raw_value, i),
{
    reveal_strlit("ENC[AES256_GCM,data:");
    reveal_strlit(",iv:");
    reveal_strlit(",tag:");
    reveal_strlit(",type:str]");
    reveal_strlit(": ");
    crate::encoding::lemma_base64_chars(data);
    crate::encoding::lemma_base64_chars(nonce);
    crate::encoding::lemma_base64_chars(tag);
    let leaf = leaf_text(data, nonce, tag);
    let scalar = key + ": "@ + raw_value;
    let space = key.len() as int + 1;
    assert(scalar[space] == ' ');
    if crate::text::stands_at(leaf, scalar, i) {
        assert(leaf.subrange(i, i + scalar.len())[space] == leaf[i + space]);
        assert(leaf[i + space] != ' ');
    }
}

/// Rewrites the first occurrence of an unquoted `{key}: {raw_value}` scalar
/// into a double-quoted one.
///
/// A YAML reader may take an unquoted RFC 3339 text for a timestamp; in quotes
/// it is a text to every reader.
pub fn force_quote_scalar(yaml: &str, key: &str, raw_value: &str) -> (quoted: String)
    ensures
        quoted@ == quoted_scalar(yaml@, key@, raw_value@),
        quoted@ == crate::text::replaced_first(
            yaml@,
            key@ + ": "@ + raw_value@,
            key@ + ": \""@ + raw_value@ + "\""@,
        ),
{
    let mut unquoted_scalar = String::from_str(key);
    unquoted_scalar.append(": ");
    unquoted_scalar.append(raw_value);
    let mut in_quotes = String::from_str(key);
    in_quotes.append(": \"");
    in_quotes.append(raw_value);
    in_quotes.append("\"");
    proof {
        reveal_strlit(": ");
    }
    replace_first(yaml, unquoted_scalar.as_str(), in_quotes.as_str())
}

/// What a document holds: the recipient and the data key wrapped to it, the
/// sealed value and MAC, and when it was written.
pub ghost struct SopsFields {
    pub recipient: Seq<char>,
    pub enc_data_key: Seq<char>,
    pub last_modified: Seq<char>,
    pub mac: Seq<char>,
    pub value: Seq<char>,
}

/// The keys and texts of a document, in order.
pub open spec fn sops_tree(fields: SopsFields) -> crate::yaml::YamlDocumentView {
    crate::yaml::YamlDocumentView {
        head: seq![("value"@, fields.value)],
        key: "sops"@,
        list_key: "age"@,
        list: seq![seq![("recipient"@, fields.recipient), ("enc"@, fields.enc_data_key)]],
        texts: seq![
            ("lastmodified"@, fields.last_modified),
            ("mac"@, fields.mac),
            ("version"@, SOPS_FILE_VERSION@),
        ],
    }
}

/// A rendered document with the time and the version in double quotes.
pub open spec fn finished_yaml(yaml: Seq<char>, last_modified: Seq<char>) -> Seq<char> {
    quoted_scalar(
        quoted_scalar(yaml, "lastmodified"@, last_modified),
        "version"@,
        SOPS_FILE_VERSION@,
    )
}

/// The bytes of a document, or the message of the failure to render it.
pub open spec fn document_bytes(fields: SopsFields) -> Result<Seq<u8>, Seq<char>> {
    match crate::yaml::yaml_text(sops_tree(fields)) {
        Ok(yaml) => Ok(vstd::utf8::encode_utf8(finished_yaml(yaml, fields.last_modified))),
        Err(message) => Err(message),
    }
}

/// Puts the time and the version of a rendered document in double quotes and
/// encodes it as UTF-8.
///
/// The renderer leaves an RFC 3339 text unquoted, which some YAML readers
/// take for a timestamp. The version is quoted to match the files that the
/// `sops` program writes.
pub fn finish_document(yaml: &str, last_modified: &str) -> (bytes: Vec<u8>)
    ensures
        bytes@ == vstd::utf8::encode_utf8(finished_yaml(yaml@, last_modified@)),
        bytes@ == vstd::utf8::encode_utf8(
            crate::text::replaced_first(
                crate::text::replaced_first(
                    yaml@,
                    "lastmodified"@ + ": "@ + last_modified@,
                    "lastmodified"@ + ": \""@ + last_modified@ + "\""@,
                ),
                "version"@ + ": "@ + "3.13.1"@,
                "version"@ + ": \""@ + "3.13.1"@ + "\""@,
            ),
        ),
{
    let quoted_time = force_quote_scalar(yaml, "lastmodified", last_modified);
    let quoted = force_quote_scalar(quoted_time.as_str(), "version", SOPS_FILE_VERSION);
    quoted.as_str().as_bytes_vec()
}

/// Renders a document from its parts. `wrapped` is the data key wrapped to
/// `public_key`, or the message of the failure to wrap it.
pub fn assemble_document(
    public_key: &str,
    enc_value: String,
    enc_mac: String,
    last_modified: String,
    wrapped: Result<String, String>,
) -> (document: Result<Vec<u8>, SopsEncryptError>)
    ensures
        match wrapped {
            Err(message) => document == Err::<Vec<u8>, SopsEncryptError>(
                SopsEncryptError::WrapDataKey(message),
            ),
            Ok(enc_data_key) => match document_bytes(
                (SopsFields {
                    recipient: public_key@,
                    enc_data_key: enc_data_key@,
                    last_modified: last_modified@,
                    mac: enc_mac@,
                    value: enc_value@,
                }),
            ) {
                Ok(bytes) => document matches Ok(out) && out@ == bytes,
                Err(message) => document matches Err(SopsEncryptError::Marshal(m)) && m@ == message,
            },
        },
        wrapped matches Ok(enc_data_key) ==> match crate::yaml::yaml_text(
            (crate::yaml::YamlDocumentView {
                head: seq![("value"@, enc_value@)],
                key: "sops"@,
                list_key: "age"@,
                list: seq![seq![("recipient"@, public_key@), ("enc"@, enc_data_key@)]],
                texts: seq![
                    ("lastmodified"@, last_modified@),
                    ("mac"@, enc_mac@),
                    ("version"@, "3.13.1"@),
                ],
            }),
        ) {
            Ok(yaml) => document matches Ok(out) && out@ == vstd::utf8::encode_utf8(
                crate::text::replaced_first(
                    crate::text::replaced_first(
                        yaml,
                        "lastmodified"@ + ": "@ + last_modified@,
                        "lastmodified"@ + ": \""@ + last_modified@ + "\""@,
                    ),
                    "version"@ + ": "@ + "3.13.1"@,
                    "version"@ + ": \""@ + "3.13.1"@ + "\""@,
                ),
            ),
            Err(message) => document matches Err(SopsEncryptError::Marshal(m)) && m@ == message,
        },
{
    let enc_data_key = match wrapped {
        Ok(enc_data_key) => enc_data_key,
        Err(message) => return Err(SopsEncryptError::WrapDataKey(message)),
    };
    let ghost fields = SopsFields {
        recipient: public_key@,
        enc_data_key: enc_data_key@,
        last_modified: last_modified@,
        mac: enc_mac@,
        value: enc_value@,
    };
    let key: YamlRow = vec![
        ("recipient".to_string(), public_key.to_string()),
        ("enc".to_string(), enc_data_key),
    ];
    let head: YamlRow = vec![("value".to_string(), enc_value)];
    let texts: YamlRow = vec![
        ("lastmodified".to_string(), last_modified.clone()),
        ("mac".to_string(), enc_mac),
        ("version".to_string(), SOPS_FILE_VERSION.to_string()),
    ];
    let document = YamlDocument {
        head,
        key: "sops".to_string(),
        list_key: "age".to_string(),
        list: vec![key],
        texts,
    };
    assert(document@ =~~= sops_tree(fields));
    match render_yaml(document) {
        Ok(yaml) => Ok(finish_document(yaml.as_str(), last_modified.as_str())),
        Err(message) => Err(SopsEncryptError::Marshal(message)),
    }
}

/// What is drawn and made for one secret: the data key, the nonces of the two
/// leaves, the moment of writing, and the data key wrapped to the recipient.
pub ghost struct SecretSeal {
    pub data_key: Seq<u8>,
    pub value_nonce: Seq<u8>,
    pub mac_nonce: Seq<u8>,
    pub secs: nat,
    pub enc_data_key: Seq<char>,
}

/// The text that the MAC leaf of a value seals: its SHA-512 digest in
/// hexadecimal.
pub open spec fn mac_text(value: Seq<u8>) -> Seq<char> {
    crate::encoding::hex_text(sha512(value))
}

/// The document of `value` for a recipient. The value is sealed with its key
/// in the document as additional data, the MAC with the time of writing.
pub open spec fn sealed_fields(
    public_key: Seq<char>,
    value: Seq<u8>,
    seal: SecretSeal,
) -> SopsFields {
    let last_modified = crate::calendar::rfc3339(seal.secs);
    SopsFields {
        recipient: public_key,
        enc_data_key: seal.enc_data_key,
        last_modified,
        mac: sealed_leaf(
            seal.data_key,
            seal.mac_nonce,
            vstd::utf8::encode_utf8(mac_text(value)),
            vstd::utf8::encode_utf8(last_modified),
        ),
        value: sealed_leaf(
            seal.data_key,
            seal.value_nonce,
            value,
            vstd::utf8::encode_utf8("value:"@),
        ),
    }
}

/// What the holder of an identity reads from a document: they decrypt the data
/// key, open the value with it, and accept the value where the MAC leaf holds
/// its digest.
pub open spec fn sops_opened(identity: Seq<char>, fields: SopsFields) -> Option<Seq<u8>> {
    match crate::recipient::age_decrypted(identity, fields.enc_data_key) {
        Some(key) => match leaf_opened(
            key,
            fields.value,
            vstd::utf8::encode_utf8("value:"@),
        ) {
            Some(value) => if leaf_opened(
                key,
                fields.mac,
                vstd::utf8::encode_utf8(fields.last_modified),
            ) == Some(vstd::utf8::encode_utf8(crate::encoding::hex_text(sha512(value)))) {
                Some(value)
            } else {
                None
            },
            None => None,
        },
        None => None,
    }
}

/// Whether every identity that belongs to the recipient of a document reads
/// `value` from it.
pub open spec fn opens_for_recipient(fields: SopsFields, value: Seq<u8>) -> bool {
    forall|identity: Seq<char>| #[trigger]
        crate::recipient::age_identity_recipient(identity) == Some(
            crate::text::ascii_lowered(fields.recipient),
        ) ==> sops_opened(identity, fields) == Some(value)
}

/// Whether both leaves of a document have the sizes that `value` asks for.
pub open spec fn leaves_fit(fields: SopsFields, value: Seq<u8>) -> bool {
    leaf_fits(fields.value, value.len()) && leaf_fits(fields.mac, 128)
}

/// Whether both leaves of a document open under the data key: to `value`, and
/// to its MAC.
pub open spec fn leaves_open(fields: SopsFields, data_key: Seq<u8>, value: Seq<u8>) -> bool {
    &&& leaf_opened(data_key, fields.value, vstd::utf8::encode_utf8("value:"@)) == Some(value)
    &&& leaf_opened(data_key, fields.mac, vstd::utf8::encode_utf8(fields.last_modified)) == Some(
        vstd::utf8::encode_utf8(crate::encoding::hex_text(sha512(value))),
    )
}

/// Whether a seal has a key and nonces of 32 bytes.
pub open spec fn is_full_seal(seal: SecretSeal) -> bool {
    seal.data_key.len() == 32 && seal.value_nonce.len() == 32 && seal.mac_nonce.len() == 32
}

/// What became of the data key at a public key.
#[derive(Debug)]
pub enum KeyWrapping {
    /// The public key is no recipient, with the parser's message.
    NoRecipient(String),
    /// Wrapping failed, with its message.
    Failed(String),
    /// The data key is wrapped.
    Wrapped(String),
}

/// Makes the document of `value` for `public_key` from what was drawn and found
/// outside: the data key, the nonces of the two leaves, the moment that the
/// clock shows, and what became of the data key at the recipient. See
/// [`encrypt_for_secret`].
pub fn encrypt_given(
    public_key: &str,
    value: &[u8],
    data_key: &[u8; 32],
    value_nonce: &[u8; 32],
    mac_nonce: &[u8; 32],
    secs: Option<u64>,
    wrapping: KeyWrapping,
) -> (document: Result<Vec<u8>, SopsEncryptError>)
    requires
        crate::encoding::base64_len(value@.len()) <= isize::MAX,
    ensures
        public_key@.len() == 0 ==> document matches Err(SopsEncryptError::EmptyPublicKey),
        public_key@.len() > 0 ==> match wrapping {
            KeyWrapping::NoRecipient(message) => document == Err::<Vec<u8>, SopsEncryptError>(
                SopsEncryptError::ParseRecipient(message),
            ),
            _ => value@.len() > gcm_limit() ==> (document matches Err(
                SopsEncryptError::EncryptValue(message),
            ) && message@ == "aead::Error"@),
        },
        public_key@.len() > 0 && !(wrapping is NoRecipient) && value@.len() <= gcm_limit()
            ==> match (secs, wrapping) {
            (None, _) => document matches Err(SopsEncryptError::ClockBeforeEpoch),
            (Some(secs), KeyWrapping::Wrapped(enc_data_key)) => {
                let fields = sealed_fields(
                    public_key@,
                    value@,
                    (SecretSeal {
                        data_key: data_key@,
                        value_nonce: value_nonce@,
                        mac_nonce: mac_nonce@,
                        secs: secs as nat,
                        enc_data_key: enc_data_key@,
                    }),
                );
                &&& leaves_fit(fields, value@)
                &&& leaves_open(fields, data_key@, value@)
                &&& match document_bytes(fields) {
                    Ok(bytes) => document matches Ok(out) && out@ == bytes,
                    Err(message) => document matches Err(SopsEncryptError::Marshal(m)) && m@
                        == message,
                }
            },
            (Some(_), KeyWrapping::Failed(message)) => document == Err::<
                Vec<u8>,
                SopsEncryptError,
            >(SopsEncryptError::WrapDataKey(message)),
            (Some(_), KeyWrapping::NoRecipient(_)) => true,
        },
        public_key@.len() > 0 && !(wrapping is NoRecipient) ==> (document matches Err(
            SopsEncryptError::EncryptValue(_),
        ) <==> value@.len() > 68_719_476_736),
        public_key@.len() > 0 && value@.len() <= 68_719_476_736 ==> match (secs, wrapping) {
            (Some(secs), KeyWrapping::Wrapped(enc_data_key)) => {
                let time = crate::calendar::rfc3339(secs as nat);
                let mac = vstd::utf8::encode_utf8(crate::encoding::hex_text(sha512(value@)));
                let path = vstd::utf8::encode_utf8("value:"@);
                let v = aes_gcm_sealed(data_key@, value_nonce@, value@, path);
                let m = aes_gcm_sealed(
                    data_key@,
                    mac_nonce@,
                    mac,
                    vstd::utf8::encode_utf8(time),
                );
                &&& v.len() == value@.len() + 16
                &&& m.len() == 128 + 16
                &&& aes_gcm_opened(data_key@, value_nonce@, v, path) == Some(value@)
                &&& aes_gcm_opened(
                    data_key@,
                    mac_nonce@,
                    m,
                    vstd::utf8::encode_utf8(time),
                ) == Some(mac)
                &&& match crate::yaml::yaml_text(
                    (crate::yaml::YamlDocumentView {
                        head: seq![
                            (
                                "value"@,
                                "ENC[AES256_GCM,data:"@ + crate::encoding::base64_text(
                                    v.take(v.len() - 16),
                                ) + ",iv:"@ + crate::encoding::base64_text(value_nonce@) + ",tag:"@
                                    + crate::encoding::base64_text(v.skip(v.len() - 16))
                                    + ",type:str]"@,
                            ),
                        ],
                        key: "sops"@,
                        list_key: "age"@,
                        list: seq![seq![("recipient"@, public_key@), ("enc"@, enc_data_key@)]],
                        texts: seq![
                            ("lastmodified"@, time),
                            (
                                "mac"@,
                                "ENC[AES256_GCM,data:"@ + crate::encoding::base64_text(
                                    m.take(m.len() - 16),
                                ) + ",iv:"@ + crate::encoding::base64_text(mac_nonce@) + ",tag:"@
                                    + crate::encoding::base64_text(m.skip(m.len() - 16))
                                    + ",type:str]"@,
                            ),
                            ("version"@, "3.13.1"@),
                        ],
                    }),
                ) {
                    Ok(yaml) => document matches Ok(out) && out@ == vstd::utf8::encode_utf8(
                        crate::text::replaced_first(
                            crate::text::replaced_first(
                                yaml,
                                "lastmodified"@ + ": "@ + time,
                                "lastmodified"@ + ": \""@ + time + "\""@,
                            ),
                            "version"@ + ": "@ + "3.13.1"@,
                            "version"@ + ": \""@ + "3.13.1"@ + "\""@,
                        ),
                    ),
                    Err(message) => document matches Err(SopsEncryptError::Marshal(said)) && said@
                        == message,
                }
            },
            _ => true,
        },
{
    proof {
        if secs is Some && wrapping is Wrapped {
            law_document_is_exact(
                public_key@,
                value@,
                SecretSeal {
                    data_key: data_key@,
                    value_nonce: value_nonce@,
                    mac_nonce: mac_nonce@,
                    secs: secs->Some_0 as nat,
                    enc_data_key: wrapping->Wrapped_0@,
                },
            );
        }
    }
    if public_key.is_empty() {
        return Err(SopsEncryptError::EmptyPublicKey);
    }
    let wrapped = match wrapping {
        KeyWrapping::NoRecipient(message) => return Err(SopsEncryptError::ParseRecipient(message)),
        KeyWrapping::Failed(message) => Err(message),
        KeyWrapping::Wrapped(enc_data_key) => Ok(enc_data_key),
    };
    let digest = sha512_digest(value);
    let mac_hex = hex_upper(digest.as_slice());
    let value_path = "value:".as_bytes_vec();
    proof {
        reveal_strlit("value:");
        vstd::utf8::is_ascii_chars_encode_utf8("value:"@);
    }
    let enc_value = match seal_leaf(data_key, value_nonce, value, value_path.as_slice()) {
        Ok(leaf) => leaf,
        Err(message) => return Err(SopsEncryptError::EncryptValue(message)),
    };
    let last_modified = match rfc3339_given(secs) {
        Some(text) => text,
        None => return Err(SopsEncryptError::ClockBeforeEpoch),
    };
    let mac_bytes = mac_hex.as_str().as_bytes_vec();
    let time_bytes = last_modified.as_str().as_bytes_vec();
    proof {
        crate::calendar::lemma_rfc3339_is_short(secs->Some_0 as nat);
        vstd::utf8::is_ascii_chars_encode_utf8(last_modified@);
        vstd::utf8::is_ascii_chars_encode_utf8(mac_hex@);
    }
    let enc_mac = match seal_leaf(
        data_key,
        mac_nonce,
        mac_bytes.as_slice(),
        time_bytes.as_slice(),
    ) {
        Ok(leaf) => leaf,
        Err(message) => return Err(SopsEncryptError::EncryptMac(message)),
    };
    assemble_document(public_key, enc_value, enc_mac, last_modified, wrapped)
}

/// Produces the SOPS-encrypted YAML document of `value`, encrypted to
/// `public_key`, an age recipient such as `age1...`.
///
/// The document has a top-level `value` key and is encrypted to that single
/// recipient: every identity that belongs to it reads `value` back. An empty
/// key, a key that is no recipient, and a value longer than AES-GCM seals are
/// refused, in this order; the MAC can always be sealed, and the data key be
/// wrapped. Whether the clock stands after the Unix epoch is decided outside;
/// [`encrypt_given`] says what is returned for each moment that it shows.
pub fn encrypt_for_secret(public_key: &str, value: &[u8]) -> (document: Result<
    Vec<u8>,
    SopsEncryptError,
>)
    requires
        !crate::recipient::has_low_order(public_key@),
        crate::encoding::base64_len(value@.len()) <= isize::MAX,
    ensures
        document matches Err(SopsEncryptError::EmptyPublicKey) <==> public_key@.len() == 0,
        document matches Err(SopsEncryptError::ParseRecipient(_)) <==> public_key@.len() > 0
            && crate::recipient::age_recipient(public_key@) is Err,
        document matches Err(SopsEncryptError::ParseRecipient(message)) ==> message@
            == crate::recipient::age_recipient(public_key@)->Err_0,
        document matches Err(SopsEncryptError::EncryptValue(_)) <==> public_key@.len() > 0
            && crate::recipient::age_recipient(public_key@) is Ok && value@.len() > gcm_limit(),
        document matches Err(SopsEncryptError::EncryptValue(message)) ==> message@
            == "aead::Error"@,
        !(document matches Err(SopsEncryptError::EncryptMac(_))),
        !(document matches Err(SopsEncryptError::WrapDataKey(_))),
        document matches Err(SopsEncryptError::Marshal(message)) ==> exists|seal: SecretSeal|
            is_full_seal(seal) && document_bytes(
                #[trigger] sealed_fields(public_key@, value@, seal),
            ) == Err::<Seq<u8>, Seq<char>>(message@),
        document matches Ok(bytes) ==> exists|seal: SecretSeal|
            {
                let fields = #[trigger] sealed_fields(public_key@, value@, seal);
                &&& is_full_seal(seal)
                &&& document_bytes(fields) == Ok::<Seq<u8>, Seq<char>>(bytes@)
                &&& opens_for_recipient(fields, value@)
                &&& leaves_fit(fields, value@)
                &&& fields.recipient == public_key@
                &&& fields.enc_data_key == seal.enc_data_key
                &&& fields.last_modified == crate::calendar::rfc3339(seal.secs)
                &&& forall|identity: Seq<char>| #[trigger]
                    crate::recipient::age_identity_recipient(identity) == Some(
                        crate::text::ascii_lowered(public_key@),
                    ) ==> crate::recipient::age_decrypted(identity, fields.enc_data_key) == Some(
                        seal.data_key,
                    )
                &&& leaf_opened(
                    seal.data_key,
                    fields.value,
                    vstd::utf8::encode_utf8("value:"@),
                ) == Some(value@)
                &&& leaf_opened(
                    seal.data_key,
                    fields.mac,
                    vstd::utf8::encode_utf8(fields.last_modified),
                ) == Some(vstd::utf8::encode_utf8(crate::encoding::hex_text(sha512(value@))))
            },
        document matches Err(SopsEncryptError::EncryptValue(_)) <==> public_key@.len() > 0
            && crate::recipient::age_recipient(public_key@) is Ok && value@.len() > 68_719_476_736,
{
    if public_key.is_empty() {
        return Err(SopsEncryptError::EmptyPublicKey);
    }
    let data_key: [u8; 32] = random_bytes();
    let value_nonce: [u8; 32] = random_bytes();
    let mac_nonce: [u8; 32] = random_bytes();
    let secs: Option<u64> = unix_seconds_now();
    let wrapping = match check_recipient(public_key) {
        Ok(_) => match wrap_data_key(public_key, &data_key) {
            Ok(enc_data_key) => KeyWrapping::Wrapped(enc_data_key),
            Err(message) => KeyWrapping::Failed(message),
        },
        Err(message) => KeyWrapping::NoRecipient(message),
    };
    proof {
        if wrapping is Wrapped && secs is Some {
            let seal = SecretSeal {
                data_key: data_key@,
                value_nonce: value_nonce@,
                mac_nonce: mac_nonce@,
                secs: secs->Some_0 as nat,
                enc_data_key: wrapping->Wrapped_0@,
            };
            let fields = sealed_fields(public_key@, value@, seal);
            assert(is_full_seal(seal));
            assert(leaves_open(fields, data_key@, value@) ==> opens_for_recipient(fields, value@));
        }
    }
    encrypt_given(public_key, value, &data_key, &value_nonce, &mac_nonce, secs, wrapping)
}

/// What opening a leaf gives is what AES-GCM opens its ciphertext and tag to
/// under its nonce, and a leaf fits a message by the sizes of its three fields.
pub proof fn law_leaf_is_opened_by_its_fields(
    key: Seq<u8>,
    data: Seq<u8>,
    nonce: Seq<u8>,
    tag: Seq<u8>,
    additional_data: Seq<u8>,
    len: nat,
)
    ensures
        ({
            let leaf = "ENC[AES256_GCM,data:"@ + crate::encoding::base64_text(data) + ",iv:"@
                + crate::encoding::base64_text(nonce) + ",tag:"@ + crate::encoding::base64_text(tag)
                + ",type:str]"@;
            &&& leaf_text(data, nonce, tag) == leaf
            &&& leaf_opened(key, leaf, additional_data) == aes_gcm_opened(
                key,
                nonce,
                data + tag,
                additional_data,
            )
            &&& leaf_fits(leaf, len) <==> data.len() == len && nonce.len() == 32 && tag.len() == 16
        }),
{
    law_leaf_reads_back(data, nonce, tag);
}

/// A text that is no leaf opens to nothing, under any key.
pub proof fn law_only_leaves_open(key: Seq<u8>, text: Seq<char>, additional_data: Seq<u8>)
    requires
        forall|data: Seq<u8>, nonce: Seq<u8>, tag: Seq<u8>|
            text != "ENC[AES256_GCM,data:"@ + #[trigger] crate::encoding::base64_text(data)
                + ",iv:"@ + #[trigger] crate::encoding::base64_text(nonce) + ",tag:"@
                + #[trigger] crate::encoding::base64_text(tag) + ",type:str]"@,
    ensures
        leaf_opened(key, text, additional_data) is None,
{
    if leaf_opened(key, text, additional_data) is Some {
        let (data, nonce, tag) = choose|data: Seq<u8>, nonce: Seq<u8>, tag: Seq<u8>|
            text == #[trigger] leaf_text(data, nonce, tag);
        assert(text == "ENC[AES256_GCM,data:"@ + crate::encoding::base64_text(data) + ",iv:"@
            + crate::encoding::base64_text(nonce) + ",tag:"@ + crate::encoding::base64_text(tag)
            + ",type:str]"@);
    }
}

/// AES-GCM seals exactly up to 64 GiB, of the message and of the additional
/// data.
pub proof fn law_sealing_limit(plaintext: Seq<u8>, additional_data: Seq<u8>)
    ensures
        gcm_accepts(plaintext, additional_data) <==> plaintext.len() <= 68_719_476_736
            && additional_data.len() <= 68_719_476_736,
        gcm_limit() == 68_719_476_736,
{
}

/// The MAC of a value is over all of its bytes: the hexadecimal digits of the
/// digest of the value itself.
pub proof fn law_mac_is_the_digest_of_the_value(value: Seq<u8>)
    ensures
        mac_text(value) == crate::encoding::hex_text(sha512(value)),
{
}

/// The holder of an identity reads a value exactly where the identity decrypts
/// the data key, the value leaf opens to the value under it, and the MAC leaf
/// opens, under it and the time of writing, to the upper-case hexadecimal
/// digits of the SHA-512 digest of that value.
pub proof fn law_reader_holds_the_value_to_its_digest(
    identity: Seq<char>,
    fields: SopsFields,
    value: Seq<u8>,
)
    ensures
        sops_opened(identity, fields) == Some(value) <==> (crate::recipient::age_decrypted(
            identity,
            fields.enc_data_key,
        ) matches Some(key) && leaf_opened(key, fields.value, vstd::utf8::encode_utf8("value:"@))
            == Some(value) && leaf_opened(
            key,
            fields.mac,
            vstd::utf8::encode_utf8(fields.last_modified),
        ) == Some(vstd::utf8::encode_utf8(crate::encoding::hex_text(sha512(value))))),
{
}

/// The document of a value, field by field: the value is sealed with its path
/// beside it, the digest of the value with the time of writing beside it, and
/// the time and the version stand in quotes.
pub proof fn law_document_is_exact(public_key: Seq<char>, value: Seq<u8>, seal: SecretSeal)
    ensures
        ({
            let fields = sealed_fields(public_key, value, seal);
            let time = crate::calendar::rfc3339(seal.secs);
            let v = aes_gcm_sealed(
                seal.data_key,
                seal.value_nonce,
                value,
                vstd::utf8::encode_utf8("value:"@),
            );
            let m = aes_gcm_sealed(
                seal.data_key,
                seal.mac_nonce,
                vstd::utf8::encode_utf8(crate::encoding::hex_text(sha512(value))),
                vstd::utf8::encode_utf8(time),
            );
            let value_leaf = "ENC[AES256_GCM,data:"@ + crate::encoding::base64_text(
                v.take(v.len() - 16),
            ) + ",iv:"@ + crate::encoding::base64_text(seal.value_nonce) + ",tag:"@
                + crate::encoding::base64_text(v.skip(v.len() - 16)) + ",type:str]"@;
            let mac_leaf = "ENC[AES256_GCM,data:"@ + crate::encoding::base64_text(
                m.take(m.len() - 16),
            ) + ",iv:"@ + crate::encoding::base64_text(seal.mac_nonce) + ",tag:"@
                + crate::encoding::base64_text(m.skip(m.len() - 16)) + ",type:str]"@;
            let rendered = crate::yaml::yaml_text(
                (crate::yaml::YamlDocumentView {
                    head: seq![("value"@, value_leaf)],
                    key: "sops"@,
                    list_key: "age"@,
                    list: seq![seq![("recipient"@, public_key), ("enc"@, seal.enc_data_key)]],
                    texts: seq![
                        ("lastmodified"@, time),
                        ("mac"@, mac_leaf),
                        ("version"@, "3.13.1"@),
                    ],
                }),
            );
            &&& fields.recipient == public_key
            &&& fields.enc_data_key == seal.enc_data_key
            &&& fields.last_modified == time
            &&& fields.value == value_leaf
            &&& fields.mac == mac_leaf
            &&& rendered is Ok ==> document_bytes(fields) == Ok::<Seq<u8>, Seq<char>>(
                vstd::utf8::encode_utf8(
                    crate::text::replaced_first(
                        crate::text::replaced_first(
                            rendered->Ok_0,
                            "lastmodified"@ + ": "@ + time,
                            "lastmodified"@ + ": \""@ + time + "\""@,
                        ),
                        "version"@ + ": "@ + "3.13.1"@,
                        "version"@ + ": \""@ + "3.13.1"@ + "\""@,
                    ),
                ),
            )
            &&& rendered is Err ==> document_bytes(fields) == Err::<Seq<u8>, Seq<char>>(
                rendered->Err_0,
            )
        }),
{
}

/// What each error says.
pub proof fn law_error_texts(cause: String)
    ensures
        SopsEncryptError::EmptyPublicKey.message() == "signet: public key must not be empty"@,
        SopsEncryptError::ParseRecipient(cause).message() == "signet: parse age recipient: "@
            + cause@,
        SopsEncryptError::EncryptValue(cause).message() == "signet: encrypt value: "@ + cause@,
        SopsEncryptError::EncryptMac(cause).message() == "signet: encrypt mac: "@ + cause@,
        SopsEncryptError::WrapDataKey(cause).message() == "signet: wrap data key: "@ + cause@,
        SopsEncryptError::Marshal(cause).message() == "signet: marshal sops document: "@ + cause@,
        SopsEncryptError::ClockBeforeEpoch.message() == "system clock is before the Unix epoch"@,
{
}

}
