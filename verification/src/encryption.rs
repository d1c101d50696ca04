//! Encryption at rest of payloads in state records.
//!
//! Sensitive payloads are sealed with AES-256-GCM under a key of their tenant. Keys for
//! homomorphic encryption can be held and are refused where they would be used.

use crate::error::{StateError, StateResult};
use crate::proto::{AadBinding, EncryptionEnvelope, EncryptionScheme};
use aes_gcm::aead::{Aead, KeyInit, OsRng, Payload};
use aes_gcm::{Aes256Gcm, Nonce};
use rand::RngCore;
use vstd::prelude::*;

verus! {

/// Longest plaintext and longest associated data of AES-GCM, in bytes.
pub const AES_GCM_MAX_LEN: u64 = 0x10_0000_0000;

/// Bytes that AES-GCM adds to a plaintext.
pub const AES_GCM_TAG_LEN: usize = 16;

/// Key material.
#[derive(Debug)]
pub enum EncryptionKey {
    /// A key for AES-256-GCM.
    Aes256Gcm([u8; 32]),
    /// A client key for homomorphic encryption, encoded.
    FheTfheRs(Box<Vec<u8>>),
}

/// Interface to the key management system.
pub trait KeyProvider {
    /// The key that goes by `key_id`.
    fn get_key(&self, key_id: &str) -> StateResult<EncryptionKey>;

    /// The id of the key that new records of a tenant are written with.
    fn current_key_id(&self, tenant_id: &str, scheme: EncryptionScheme) -> StateResult<String>;

    /// Replaces the key of a tenant and gives the id of the new one. Records that are already
    /// written stay under the old key.
    fn rotate_key(&self, tenant_id: &str, scheme: EncryptionScheme) -> StateResult<String>;
}

/// One fixed key for every tenant, for tests and development.
#[derive(Debug)]
pub struct InMemoryKeyProvider {
    aes_key: [u8; 32],
    key_id: String,
}

impl InMemoryKeyProvider {
    /// The key that every id stands for.
    pub closed spec fn key(&self) -> [u8; 32] {
        self.aes_key
    }

    /// The id of the key.
    pub closed spec fn id(&self) -> Seq<char> {
        self.key_id@
    }

    /// A provider of the test key.
    pub fn new_test() -> (provider: Self)
        ensures
            provider.key()@ == Seq::new(32, |i: int| 0x42u8),
            provider.id() == "test-key-v1"@,
    {
        let aes_key: [u8; 32] = [0x42u8;32];
        assert(aes_key@ =~= Seq::new(32, |i: int| 0x42u8));
        InMemoryKeyProvider { aes_key, key_id: "test-key-v1".to_owned() }
    }
}

impl KeyProvider for InMemoryKeyProvider {
    /// The test key, whatever the id.
    fn get_key(&self, key_id: &str) -> (result: StateResult<EncryptionKey>)
        ensures
            result == Ok::<EncryptionKey, StateError>(EncryptionKey::Aes256Gcm(self.key())),
    {
        Ok(EncryptionKey::Aes256Gcm(self.aes_key))
    }

    /// The id of the test key, whatever the tenant.
    fn current_key_id(&self, tenant_id: &str, scheme: EncryptionScheme) -> (result: StateResult<
        String,
    >)
        ensures
            result matches Ok(id) && id@ == self.id(),
    {
        Ok(self.key_id.clone())
    }

    /// Refused: the key is fixed.
    fn rotate_key(&self, tenant_id: &str, scheme: EncryptionScheme) -> (result: StateResult<String>)
        ensures
            result matches Err(StateError::InvalidInput(reason)) && reason@
                == "InMemoryKeyProvider does not support key rotation"@,
    {
        Err(
            StateError::InvalidInput(
                "InMemoryKeyProvider does not support key rotation".to_owned(),
            ),
        )
    }
}

/// `aes_gcm::Error`, which holds nothing.
#[verifier::external_type_specification]
#[verifier::external_body]
pub struct ExAesGcmError(aes_gcm::Error);

/// The ciphertext, tag included, of AES-256-GCM.
pub uninterp spec fn aes256gcm_seal(
    key: Seq<u8>,
    nonce: Seq<u8>,
    aad: Seq<u8>,
    plaintext: Seq<u8>,
) -> Seq<u8>;

/// The plaintext of an AES-256-GCM ciphertext, where its tag is right.
pub uninterp spec fn aes256gcm_open(
    key: Seq<u8>,
    nonce: Seq<u8>,
    aad: Seq<u8>,
    ciphertext: Seq<u8>,
) -> Option<Seq<u8>>;

/// `OsRng::fill_bytes` on twelve bytes. Nothing is claimed of what it draws.
#[verifier::external_body]
fn random_nonce() -> (nonce: [u8; 12]) {
    let mut nonce = [0u8; 12];
    OsRng.fill_bytes(&mut nonce);
    nonce
}

/// `Aead::encrypt` of `aes_gcm::Aes256Gcm`. It fails exactly where plaintext or associated data
/// are too long. The contract names the ciphertext, says that it is longer than the plaintext by
/// the tag, and says that decryption with the same arguments gives the plaintext back.
/// The length of the ciphertext must be one that a vector can have.
#[verifier::external_body]
fn seal(key: &[u8; 32], nonce: &[u8; 12], aad: &[u8], plaintext: &[u8]) -> (result: Result<
    Vec<u8>,
    aes_gcm::Error,
>)
    requires
        plaintext@.len() + AES_GCM_TAG_LEN <= isize::MAX,
    ensures
        (result is Ok) == (plaintext@.len() <= AES_GCM_MAX_LEN && aad@.len() <= AES_GCM_MAX_LEN),
        match result {
            Ok(ciphertext) => ciphertext@ == aes256gcm_seal(key@, nonce@, aad@, plaintext@)
                && ciphertext@.len() == plaintext@.len() + AES_GCM_TAG_LEN && aes256gcm_open(
                key@,
                nonce@,
                aad@,
                ciphertext@,
            ) == Some(plaintext@),
            Err(_) => true,
        },
{
    Aes256Gcm::new(key.into()).encrypt(Nonce::from_slice(nonce), Payload { msg: plaintext, aad })
}

/// `Aead::decrypt` of `aes_gcm::Aes256Gcm`. The contract names the plaintext and says that none
/// is longer than the ciphertext less the tag. The nonce must have twelve bytes:
/// `Nonce::from_slice` panics on another length.
#[verifier::external_body]
fn open(key: &[u8; 32], nonce: &[u8], aad: &[u8], ciphertext: &[u8]) -> (result: Result<
    Vec<u8>,
    aes_gcm::Error,
>)
    requires
        nonce@.len() == 12,
    ensures
        match result {
            Ok(plaintext) => aes256gcm_open(key@, nonce@, aad@, ciphertext@) == Some(plaintext@)
                && plaintext@.len() + AES_GCM_TAG_LEN == ciphertext@.len(),
            Err(_) => aes256gcm_open(key@, nonce@, aad@, ciphertext@) is None,
        },
{
    Aes256Gcm::new(key.into()).decrypt(Nonce::from_slice(nonce), Payload { msg: ciphertext, aad })
}

/// Whether `nonce` was drawn by `random_nonce`.
pub closed spec fn is_drawn(nonce: Seq<u8>) -> bool {
    exists|drawn: [u8; 12]| #[trigger] call_ensures(random_nonce, (), drawn) && drawn@ == nonce
}

/// What encryption under `nonce` answers.
pub open spec fn encrypt_answer(
    plaintext: Seq<u8>,
    key: EncryptionKey,
    aad: Seq<u8>,
    nonce: Seq<u8>,
    result: StateResult<EncryptionEnvelope>,
) -> bool {
    match key {
        EncryptionKey::Aes256Gcm(raw_key) => if plaintext.len() <= AES_GCM_MAX_LEN && aad.len()
            <= AES_GCM_MAX_LEN {
            &&& result matches Ok(envelope)
            &&& envelope.scheme == EncryptionScheme::Aes256Gcm
            &&& envelope.key_id@ == Seq::<char>::empty()
            &&& envelope.iv_or_nonce@ == nonce
            &&& envelope.aad@ == aad
            &&& envelope.ciphertext@ == aes256gcm_seal(raw_key@, nonce, aad, plaintext)
            &&& envelope.ciphertext@.len() == plaintext.len() + AES_GCM_TAG_LEN
            &&& aes256gcm_open(raw_key@, nonce, aad, envelope.ciphertext@) == Some(plaintext)
        } else {
            result == Err::<EncryptionEnvelope, StateError>(StateError::AesGcmError)
        },
        EncryptionKey::FheTfheRs(_) => result matches Err(StateError::InvalidInput(reason))
            && reason@ == "FHE encryption not yet implemented — tracked for Phase 6"@,
    }
}

/// Encrypts `plaintext` under a fresh random nonce. The encoded binding is authenticated with
/// it. The id of the key is left for the caller to fill in.
pub fn encrypt(plaintext: &[u8], key: &EncryptionKey, aad_binding: AadBinding) -> (result:
    StateResult<EncryptionEnvelope>)
    requires
        plaintext@.len() + AES_GCM_TAG_LEN <= isize::MAX,
    ensures
        exists|nonce: Seq<u8>|
            is_drawn(nonce) && nonce.len() == 12 && #[trigger] encrypt_answer(
                plaintext@,
                *key,
                aad_binding.encoded@,
                nonce,
                result,
            ),
{
    let nonce = random_nonce();
    let result = encrypt_with_nonce(plaintext, key, aad_binding, &nonce);
    assert(is_drawn(nonce@) && nonce@.len() == 12);
    assert(encrypt_answer(plaintext@, *key, aad_binding.encoded@, nonce@, result));
    result
}

/// Encrypts `plaintext` under the given nonce, which must not be used twice with one key.
pub fn encrypt_with_nonce(
    plaintext: &[u8],
    key: &EncryptionKey,
    aad_binding: AadBinding,
    nonce: &[u8; 12],
) -> (result: StateResult<EncryptionEnvelope>)
    requires
        plaintext@.len() + AES_GCM_TAG_LEN <= isize::MAX,
    ensures
        encrypt_answer(plaintext@, *key, aad_binding.encoded@, nonce@, result),
{
    match key {
        EncryptionKey::Aes256Gcm(raw_key) => {
            let aad = aad_binding.encoded;
            match seal(raw_key, nonce, aad.as_slice(), plaintext) {
                Ok(ciphertext) => Ok(
                    EncryptionEnvelope {
                        scheme: EncryptionScheme::Aes256Gcm,
                        key_id: String::new(),
                        iv_or_nonce: vstd::slice::slice_to_vec(nonce.as_slice()),
                        ciphertext,
                        aad,
                    },
                ),
                Err(_) => Err(StateError::AesGcmError),
            }
        },
        EncryptionKey::FheTfheRs(_) => Err(
            StateError::InvalidInput(
                "FHE encryption not yet implemented — tracked for Phase 6".to_owned(),
            ),
        ),
    }
}

/// What decryption answers.
pub open spec fn decrypt_answer(
    envelope: EncryptionEnvelope,
    key: EncryptionKey,
    result: StateResult<Vec<u8>>,
) -> bool {
    match (envelope.scheme, key) {
        (EncryptionScheme::Plaintext, _) => result matches Ok(plaintext) && plaintext@
            == envelope.ciphertext@,
        (EncryptionScheme::Aes256Gcm, EncryptionKey::Aes256Gcm(raw_key)) => {
            match aes256gcm_open(
                raw_key@,
                envelope.iv_or_nonce@,
                envelope.aad@,
                envelope.ciphertext@,
            ) {
                Some(opened) => result matches Ok(plaintext) && plaintext@ == opened,
                None => result == Err::<Vec<u8>, StateError>(StateError::AesGcmError),
            }
        },
        (EncryptionScheme::FheTfheRs, EncryptionKey::FheTfheRs(_)) => {
            result matches Err(StateError::InvalidInput(reason)) && reason@
                == "FHE decryption not yet implemented — tracked for Phase 6"@
        },
        _ => result matches Err(StateError::InvalidInput(reason)) && reason@
            == "scheme/key type mismatch in encryption envelope"@,
    }
}

/// Decrypts an envelope. An envelope in plaintext is handed back with any key.
pub fn decrypt(envelope: &EncryptionEnvelope, key: &EncryptionKey) -> (result: StateResult<Vec<u8>>)
    requires
        envelope.scheme == EncryptionScheme::Aes256Gcm && key is Aes256Gcm
            ==> envelope.iv_or_nonce@.len() == 12,
    ensures
        decrypt_answer(*envelope, *key, result),
{
    match (envelope.scheme, key) {
        (EncryptionScheme::Plaintext, _) => Ok(envelope.ciphertext.clone()),
        (EncryptionScheme::Aes256Gcm, EncryptionKey::Aes256Gcm(raw_key)) => {
            match open(
                raw_key,
                envelope.iv_or_nonce.as_slice(),
                envelope.aad.as_slice(),
                envelope.ciphertext.as_slice(),
            ) {
                Ok(plaintext) => Ok(plaintext),
                Err(_) => Err(StateError::AesGcmError),
            }
        },
        (EncryptionScheme::FheTfheRs, EncryptionKey::FheTfheRs(_)) => Err(
            StateError::InvalidInput(
                "FHE decryption not yet implemented — tracked for Phase 6".to_owned(),
            ),
        ),
        _ => Err(
            StateError::InvalidInput("scheme/key type mismatch in encryption envelope".to_owned()),
        ),
    }
}

/// Whether content is there and has to be decrypted before it can be used.
pub open spec fn is_sealed(envelope: Option<EncryptionEnvelope>) -> bool {
    envelope matches Some(e) && e.scheme != EncryptionScheme::Plaintext
}

/// What opening the content of a stored record answers, given what the key management system said
/// of its key. Content that is not sealed stays. Without the key nothing is opened.
pub open spec fn open_answer(
    envelope: Option<EncryptionEnvelope>,
    agent_id: Seq<char>,
    key: StateResult<EncryptionKey>,
    result: StateResult<Option<EncryptionEnvelope>>,
) -> bool {
    match envelope {
        Some(sealed) => if sealed.scheme == EncryptionScheme::Plaintext {
            result == Ok::<Option<EncryptionEnvelope>, StateError>(envelope)
        } else {
            match key {
                Err(e) => is_key_unavailable(sealed.key_id@, agent_id, e.text(), result),
                Ok(key) => if sealed.scheme == EncryptionScheme::Aes256Gcm && key is Aes256Gcm
                    && sealed.iv_or_nonce@.len() != 12 {
                    result == Err::<Option<EncryptionEnvelope>, StateError>(StateError::AesGcmError)
                } else {
                    exists|decrypted: StateResult<Vec<u8>>| #[trigger]
                        decrypt_answer(sealed, key, decrypted) && is_opened(
                            sealed,
                            decrypted,
                            result,
                        )
                },
            }
        },
        None => result == Ok::<Option<EncryptionEnvelope>, StateError>(None),
    }
}

/// Whether `result` says that a key is unavailable, and why.
pub open spec fn is_key_unavailable(
    key_id: Seq<char>,
    agent_id: Seq<char>,
    source: Seq<char>,
    result: StateResult<Option<EncryptionEnvelope>>,
) -> bool {
    result matches Err(StateError::EncryptionKeyUnavailable { key_id: k, agent_id: a, source: s })
        && k@ == key_id && a@ == agent_id && s@ == source
}

/// Whether `result` is `sealed` in plaintext, with what decryption gave, or its error.
pub open spec fn is_opened(
    sealed: EncryptionEnvelope,
    decrypted: StateResult<Vec<u8>>,
    result: StateResult<Option<EncryptionEnvelope>>,
) -> bool {
    match decrypted {
        Ok(plaintext) => result == Ok::<Option<EncryptionEnvelope>, StateError>(
            Some(
                EncryptionEnvelope {
                    scheme: EncryptionScheme::Plaintext,
                    ciphertext: plaintext,
                    ..sealed
                },
            ),
        ),
        Err(e) => result == Err::<Option<EncryptionEnvelope>, StateError>(e),
    }
}

/// Opens the content of a stored record with the key that its envelope names. What comes out is
/// an envelope in plaintext. A sealed envelope whose nonce cannot be one counts as corrupted.
pub fn open_content(
    envelope: Option<EncryptionEnvelope>,
    agent_id: &str,
    key: StateResult<EncryptionKey>,
) -> (result: StateResult<Option<EncryptionEnvelope>>)
    ensures
        open_answer(envelope, agent_id@, key, result),
{
    let sealed = match envelope {
        None => return Ok(None),
        Some(sealed) => sealed,
    };
    if sealed.scheme == EncryptionScheme::Plaintext {
        return Ok(Some(sealed));
    }
    let key = match key {
        Ok(key) => key,
        Err(e) => {
            return Err(
                StateError::EncryptionKeyUnavailable {
                    key_id: sealed.key_id,
                    agent_id: agent_id.to_owned(),
                    source: e.message(),
                },
            );
        },
    };
    let for_aes = matches!(key, EncryptionKey::Aes256Gcm(_));
    if sealed.scheme == EncryptionScheme::Aes256Gcm && for_aes && sealed.iv_or_nonce.len() != 12 {
        return Err(StateError::AesGcmError);
    }
    let decrypted = decrypt(&sealed, &key);
    assert(decrypt_answer(sealed, key, decrypted));
    match decrypted {
        Ok(plaintext) => Ok(
            Some(
                EncryptionEnvelope {
                    scheme: EncryptionScheme::Plaintext,
                    ciphertext: plaintext,
                    ..sealed
                },
            ),
        ),
        Err(e) => Err(e),
    }
}

/// Whether content can be used with what the key management system gave: it is not sealed, or the
/// key is there and opens it.
pub open spec fn opens_with(
    envelope: Option<EncryptionEnvelope>,
    key: StateResult<EncryptionKey>,
) -> bool {
    match envelope {
        Some(sealed) => sealed.scheme == EncryptionScheme::Plaintext || (sealed.scheme
            == EncryptionScheme::Aes256Gcm && sealed.iv_or_nonce@.len() == 12 && (key matches Ok(
            EncryptionKey::Aes256Gcm(raw_key),
        ) && aes256gcm_open(
            raw_key@,
            sealed.iv_or_nonce@,
            sealed.aad@,
            sealed.ciphertext@,
        ) is Some)),
        None => true,
    }
}

/// Content is handed out exactly where it opens.
pub proof fn law_only_what_opens_is_handed_out(
    envelope: Option<EncryptionEnvelope>,
    agent_id: Seq<char>,
    key: StateResult<EncryptionKey>,
    result: StateResult<Option<EncryptionEnvelope>>,
)
    requires
        open_answer(envelope, agent_id, key, result),
    ensures
        result is Ok <==> opens_with(envelope, key),
{
}

/// An envelope that AES-GCM refuses, for a changed ciphertext, tag, nonce or associated data or for
/// another key, gives an error and no plaintext. Which envelopes it refuses is up to the cipher.
pub proof fn law_refused_envelope_gives_no_plaintext(
    envelope: EncryptionEnvelope,
    raw_key: [u8; 32],
    decrypted: StateResult<Vec<u8>>,
    agent_id: Seq<char>,
    opened: StateResult<Option<EncryptionEnvelope>>,
)
    requires
        envelope.scheme == EncryptionScheme::Aes256Gcm,
        aes256gcm_open(
            raw_key@,
            envelope.iv_or_nonce@,
            envelope.aad@,
            envelope.ciphertext@,
        ) is None,
        decrypt_answer(envelope, EncryptionKey::Aes256Gcm(raw_key), decrypted),
        open_answer(Some(envelope), agent_id, Ok(EncryptionKey::Aes256Gcm(raw_key)), opened),
    ensures
        decrypted == Err::<Vec<u8>, StateError>(StateError::AesGcmError),
        opened == Err::<Option<EncryptionEnvelope>, StateError>(StateError::AesGcmError),
{
}

/// What decryption gives of a sealed envelope is authenticated: it is what AES-GCM opens under the
/// envelope's own nonce and associated data.
pub proof fn law_plaintext_is_authenticated(
    envelope: EncryptionEnvelope,
    raw_key: [u8; 32],
    decrypted: StateResult<Vec<u8>>,
)
    requires
        envelope.scheme == EncryptionScheme::Aes256Gcm,
        decrypt_answer(envelope, EncryptionKey::Aes256Gcm(raw_key), decrypted),
    ensures
        decrypted matches Ok(plaintext) ==> aes256gcm_open(
            raw_key@,
            envelope.iv_or_nonce@,
            envelope.aad@,
            envelope.ciphertext@,
        ) == Some(plaintext@),
{
}

/// Content that was opened is not sealed any more.
pub proof fn law_opened_content_is_plain(
    envelope: Option<EncryptionEnvelope>,
    agent_id: Seq<char>,
    key: StateResult<EncryptionKey>,
    result: StateResult<Option<EncryptionEnvelope>>,
)
    requires
        open_answer(envelope, agent_id, key, result),
    ensures
        result matches Ok(opened) ==> !is_sealed(opened) && (opened is Some <==> envelope is Some),
{
}

/// Opening undoes encryption: content that was sealed with a key, and stored with any key id, is
/// opened to its plaintext with that key.
pub proof fn law_opening_undoes_encryption(
    plaintext: Seq<u8>,
    key: EncryptionKey,
    aad: Seq<u8>,
    nonce: Seq<u8>,
    encrypted: StateResult<EncryptionEnvelope>,
    envelope: EncryptionEnvelope,
    agent_id: Seq<char>,
    result: StateResult<Option<EncryptionEnvelope>>,
)
    requires
        nonce.len() == 12,
        encrypt_answer(plaintext, key, aad, nonce, encrypted),
        encrypted matches Ok(sealed) && envelope == (EncryptionEnvelope {
            key_id: envelope.key_id,
            ..sealed
        }),
        open_answer(Some(envelope), agent_id, Ok(key), result),
    ensures
        result matches Ok(Some(opened)) && opened.ciphertext@ == plaintext,
{
}

/// Decryption undoes encryption: an envelope opens to its plaintext with the key that sealed it,
/// whatever key id was filled in since.
pub proof fn law_decrypt_undoes_encrypt(
    plaintext: Seq<u8>,
    key: EncryptionKey,
    aad: Seq<u8>,
    nonce: Seq<u8>,
    encrypted: StateResult<EncryptionEnvelope>,
    envelope: EncryptionEnvelope,
    decrypted: StateResult<Vec<u8>>,
)
    requires
        encrypt_answer(plaintext, key, aad, nonce, encrypted),
        encrypted matches Ok(sealed) && envelope == (EncryptionEnvelope {
            key_id: envelope.key_id,
            ..sealed
        }),
        decrypt_answer(envelope, key, decrypted),
    ensures
        decrypted matches Ok(opened) && opened@ == plaintext,
{
}

/// A key of one scheme never opens an envelope of the other.
pub proof fn law_scheme_and_key_must_match(
    envelope: EncryptionEnvelope,
    key: EncryptionKey,
    decrypted: StateResult<Vec<u8>>,
)
    requires
        decrypt_answer(envelope, key, decrypted),
        envelope.scheme != EncryptionScheme::Plaintext,
        decrypted is Ok,
    ensures
        envelope.scheme == EncryptionScheme::Aes256Gcm,
        key is Aes256Gcm,
{
}

/// An AES key seals what is not too long: the envelope names the scheme, the nonce and the
/// associated data that the ciphertext is bound to, no key id yet, and opens to the plaintext under
/// just these.
pub proof fn law_sealed_envelope_opens_to_the_plaintext(
    plaintext: &[u8],
    raw_key: [u8; 32],
    binding: AadBinding,
    nonce: [u8; 12],
    result: StateResult<EncryptionEnvelope>,
)
    requires
        plaintext@.len() + AES_GCM_TAG_LEN <= isize::MAX,
        call_ensures(
            encrypt_with_nonce,
            (plaintext, &EncryptionKey::Aes256Gcm(raw_key), binding, &nonce),
            result,
        ),
    ensures
        result is Ok <==> plaintext@.len() <= 0x10_0000_0000 && binding.encoded@.len()
            <= 0x10_0000_0000,
        match result {
            Ok(envelope) => {
                &&& envelope.scheme == EncryptionScheme::Aes256Gcm
                &&& envelope.key_id@.len() == 0
                &&& envelope.iv_or_nonce@ == nonce@
                &&& envelope.aad@ == binding.encoded@
                &&& envelope.ciphertext@.len() == plaintext@.len() + 16
                &&& aes256gcm_open(
                    raw_key@,
                    envelope.iv_or_nonce@,
                    envelope.aad@,
                    envelope.ciphertext@,
                ) == Some(plaintext@)
            },
            Err(e) => e is AesGcmError,
        },
{
}

/// Encryption draws its nonce, twelve bytes of it, and seals what is not too long in the same way.
pub proof fn law_encryption_draws_its_nonce(
    plaintext: &[u8],
    raw_key: [u8; 32],
    binding: AadBinding,
    result: StateResult<EncryptionEnvelope>,
)
    requires
        plaintext@.len() + AES_GCM_TAG_LEN <= isize::MAX,
        call_ensures(encrypt, (plaintext, &EncryptionKey::Aes256Gcm(raw_key), binding), result),
    ensures
        result is Ok <==> plaintext@.len() <= 0x10_0000_0000 && binding.encoded@.len()
            <= 0x10_0000_0000,
        match result {
            Ok(envelope) => {
                &&& is_drawn(envelope.iv_or_nonce@)
                &&& envelope.iv_or_nonce@.len() == 12
                &&& envelope.scheme == EncryptionScheme::Aes256Gcm
                &&& envelope.key_id@.len() == 0
                &&& envelope.aad@ == binding.encoded@
                &&& aes256gcm_open(
                    raw_key@,
                    envelope.iv_or_nonce@,
                    envelope.aad@,
                    envelope.ciphertext@,
                ) == Some(plaintext@)
            },
            Err(e) => e is AesGcmError,
        },
{
}

/// A key of the other scheme does not encrypt.
pub proof fn law_other_keys_do_not_encrypt(
    plaintext: &[u8],
    client_key: Box<Vec<u8>>,
    binding: AadBinding,
    nonce: [u8; 12],
    result: StateResult<EncryptionEnvelope>,
)
    requires
        plaintext@.len() + AES_GCM_TAG_LEN <= isize::MAX,
        call_ensures(
            encrypt_with_nonce,
            (plaintext, &EncryptionKey::FheTfheRs(client_key), binding, &nonce),
            result,
        ),
    ensures
        result matches Err(StateError::InvalidInput(_)),
{
}

/// Decryption hands out what AES-GCM opens, under the nonce and the associated data of the
/// envelope, or an error; an envelope in plaintext as it is; and nothing where scheme and key do
/// not fit.
pub proof fn law_decryption_opens_the_envelope(
    envelope: EncryptionEnvelope,
    key: EncryptionKey,
    result: StateResult<Vec<u8>>,
)
    requires
        envelope.scheme == EncryptionScheme::Aes256Gcm && key is Aes256Gcm
            ==> envelope.iv_or_nonce@.len() == 12,
        call_ensures(decrypt, (&envelope, &key), result),
    ensures
        envelope.scheme == EncryptionScheme::Plaintext ==> match result {
            Ok(plaintext) => plaintext@ == envelope.ciphertext@,
            Err(_) => false,
        },
        envelope.scheme == EncryptionScheme::Aes256Gcm ==> match key {
            EncryptionKey::Aes256Gcm(raw_key) => match result {
                Ok(plaintext) => aes256gcm_open(
                    raw_key@,
                    envelope.iv_or_nonce@,
                    envelope.aad@,
                    envelope.ciphertext@,
                ) == Some(plaintext@),
                Err(e) => e is AesGcmError && aes256gcm_open(
                    raw_key@,
                    envelope.iv_or_nonce@,
                    envelope.aad@,
                    envelope.ciphertext@,
                ) is None,
            },
            _ => result matches Err(StateError::InvalidInput(_)),
        },
        envelope.scheme != EncryptionScheme::Plaintext && envelope.scheme
            != EncryptionScheme::Aes256Gcm ==> result matches Err(StateError::InvalidInput(_)),
{
}

/// What is encrypted is decrypted again, with the same key and whatever key id was filled in, and
/// the plaintext comes back as it was.
pub proof fn law_encryption_round_trip(
    plaintext: &[u8],
    raw_key: [u8; 32],
    binding: AadBinding,
    sealed: EncryptionEnvelope,
    key_id: String,
    result: StateResult<Vec<u8>>,
)
    requires
        plaintext@.len() + AES_GCM_TAG_LEN <= isize::MAX,
        call_ensures(
            encrypt,
            (plaintext, &EncryptionKey::Aes256Gcm(raw_key), binding),
            Ok(sealed),
        ),
        call_ensures(
            decrypt,
            (&EncryptionEnvelope { key_id, ..sealed }, &EncryptionKey::Aes256Gcm(raw_key)),
            result,
        ),
    ensures
        result matches Ok(opened) && opened@ == plaintext@,
{
    law_encryption_draws_its_nonce(plaintext, raw_key, binding, Ok(sealed));
}

/// Opening the content of a record leaves what is not sealed, refuses without the key and says
/// which key and which agent that concerns, and otherwise gives an envelope in plaintext that
/// differs from the sealed one in nothing else.
pub proof fn law_content_is_opened_with_its_key(
    envelope: Option<EncryptionEnvelope>,
    agent_id: &str,
    key: StateResult<EncryptionKey>,
    result: StateResult<Option<EncryptionEnvelope>>,
)
    requires
        call_ensures(open_content, (envelope, agent_id, key), result),
    ensures
        match envelope {
            None => result == Ok::<Option<EncryptionEnvelope>, StateError>(None),
            Some(stored) => if stored.scheme == EncryptionScheme::Plaintext {
                result == Ok::<Option<EncryptionEnvelope>, StateError>(Some(stored))
            } else {
                match result {
                    Ok(opened) => {
                        &&& opened matches Some(plain)
                        &&& plain == EncryptionEnvelope {
                            scheme: EncryptionScheme::Plaintext,
                            ciphertext: plain.ciphertext,
                            ..stored
                        }
                        &&& key matches Ok(EncryptionKey::Aes256Gcm(raw_key))
                        &&& aes256gcm_open(
                            raw_key@,
                            stored.iv_or_nonce@,
                            stored.aad@,
                            stored.ciphertext@,
                        ) == Some(plain.ciphertext@)
                    },
                    Err(e) => key is Err ==> (e matches StateError::EncryptionKeyUnavailable {
                        key_id: k,
                        agent_id: a,
                        ..
                    } && k@ == stored.key_id@ && a@ == agent_id@),
                }
            },
        },
{
}

} // verus!
