//! Synchronization and embedding settings, and the concealment of their
//! access token in the stored configuration record.
//!
//! A stored token is the base64 text of the token's UTF-8 bytes combined by
//! XOR with a key; the key is the SHA-256 digest of the configuration
//! directory's name followed by a fixed salt.

use crate::digest::{sha256, sha256_of};
use crate::text::{lowercase_of, same_text, to_lowercase};
use base64::Engine;
use vstd::prelude::*;
use vstd::utf8::{decode_utf8, encode_utf8, valid_utf8};

verus! {

/// Where and how the collection is synchronized.
#[derive(Debug, Clone)]
pub struct SyncConfig {
    pub storage_url: Option<String>,
    pub token: Option<String>,
    pub last_sync: Option<String>,
    pub auto_sync: bool,
}

/// Where the album embeddings are sent.
#[derive(Debug, Clone)]
pub struct EmbedConfig {
    pub api_url: Option<String>,
    pub token: Option<String>,
}

impl Default for SyncConfig {
    fn default() -> (r: SyncConfig)
        ensures
            r.storage_url is None,
            r.token is None,
            r.last_sync is None,
            !r.auto_sync,
    {
        SyncConfig { storage_url: None, token: None, last_sync: None, auto_sync: false }
    }
}

impl Default for EmbedConfig {
    fn default() -> (r: EmbedConfig)
        ensures
            r.api_url is None,
            r.token is None,
    {
        EmbedConfig { api_url: None, token: None }
    }
}

impl SyncConfig {
    /// Both the remote endpoint and the token are set.
    pub open spec fn configured(self) -> bool {
        self.storage_url is Some && self.token is Some
    }

    pub fn is_configured(&self) -> (r: bool)
        ensures
            r == self.configured(),
    {
        self.storage_url.is_some() && self.token.is_some()
    }

    /// Whether a push is to follow a change of the local collection.
    pub fn auto_sync_ready(&self) -> (r: bool)
        ensures
            r == (self.auto_sync && self.configured()),
    {
        self.auto_sync && self.is_configured()
    }
}

/// Access to the token field of a configuration record.
pub trait TokenConfig: Sized {
    spec fn token_view(&self) -> Option<Seq<char>>;

    /// `self` and `other` hold the same values in every field but the token.
    spec fn same_apart_from_token(&self, other: Self) -> bool;

    fn get_token(&self) -> (r: Option<&str>)
        ensures
            match r {
                Some(t) => self.token_view() == Some(t@),
                None => self.token_view() is None,
            },
    ;

    fn set_token(&mut self, token: String)
        ensures
            final(self).token_view() == Some(token@),
            final(self).same_apart_from_token(*old(self)),
    ;
}

impl TokenConfig for SyncConfig {
    open spec fn token_view(&self) -> Option<Seq<char>> {
        match self.token {
            Some(t) => Some(t@),
            None => None,
        }
    }

    open spec fn same_apart_from_token(&self, other: SyncConfig) -> bool {
        &&& self.storage_url == other.storage_url
        &&& self.last_sync == other.last_sync
        &&& self.auto_sync == other.auto_sync
    }

    fn get_token(&self) -> (r: Option<&str>) {
        match &self.token {
            Some(t) => Some(t.as_str()),
            None => None,
        }
    }

    fn set_token(&mut self, token: String) {
        self.token = Some(token);
    }
}

impl TokenConfig for EmbedConfig {
    open spec fn token_view(&self) -> Option<Seq<char>> {
        match self.token {
            Some(t) => Some(t@),
            None => None,
        }
    }

    open spec fn same_apart_from_token(&self, other: EmbedConfig) -> bool {
        self.api_url == other.api_url
    }

    fn get_token(&self) -> (r: Option<&str>) {
        match &self.token {
            Some(t) => Some(t.as_str()),
            None => None,
        }
    }

    fn set_token(&mut self, token: String) {
        self.token = Some(token);
    }
}

/// Standard base64 text (with padding) of a byte sequence.
pub uninterp spec fn base64_encoding(bytes: Seq<u8>) -> Seq<char>;

/// The bytes that a standard base64 text stands for, or `None` when the
/// text is not valid standard base64.
pub uninterp spec fn base64_decoding(text: Seq<char>) -> Option<Seq<u8>>;

/// Relies on `base64::engine::general_purpose::STANDARD.encode`: the padded
/// standard base64 text of `bytes`. It panics only when the output length
/// overflows `usize`, which the bound on the input rules out.
#[verifier::external_body]
fn base64_encode(bytes: &[u8]) -> (r: String)
    requires
        bytes@.len() <= usize::MAX / 2,
    ensures
        r@ == base64_encoding(bytes@),
{
    base64::engine::general_purpose::STANDARD.encode(bytes)
}

/// Relies on `base64::engine::general_purpose::STANDARD.decode`: the bytes
/// that `text` encodes, or `None` where it reports a decoding error.
#[verifier::external_body]
fn base64_decode(text: &str) -> (r: Option<Vec<u8>>)
    ensures
        match r {
            Some(b) => base64_decoding(text@) == Some(b@),
            None => base64_decoding(text@) is None,
        },
{
    base64::engine::general_purpose::STANDARD.decode(text).ok()
}

/// Relies on `String::from_utf8`: it succeeds exactly on valid UTF-8 and
/// then holds the characters that the bytes encode.
#[verifier::external_body]
fn utf8_to_string(bytes: Vec<u8>) -> (r: Option<String>)
    ensures
        match r {
            Some(s) => valid_utf8(bytes@) && s@ == decode_utf8(bytes@),
            None => !valid_utf8(bytes@),
        },
{
    String::from_utf8(bytes).ok()
}

/// The salt appended to the directory name before hashing it into a key.
pub const ENCRYPTION_SALT: &'static str = "GNEDBY_TOKEN_ENCRYPTION_SALT";

/// The key that conceals tokens stored under configuration directory `dir`.
pub open spec fn encryption_key_of(dir: Seq<char>) -> Seq<u8> {
    sha256_of(encode_utf8(dir) + encode_utf8(ENCRYPTION_SALT@))
}

/// Each byte of `data` combined by XOR with the key byte at the same
/// position, the key repeating as often as needed.
pub open spec fn xor_with_key(data: Seq<u8>, key: Seq<u8>) -> Seq<u8> {
    Seq::new(data.len(), |i: int| data[i] ^ key[i % (key.len() as int)])
}

/// The stored form of a token: a token left empty stays empty.
pub open spec fn concealed_token(token: Seq<char>, key: Seq<u8>) -> Seq<char> {
    if token.len() == 0 {
        token
    } else {
        base64_encoding(xor_with_key(encode_utf8(token), key))
    }
}

/// The token that a stored form stands for. A stored form that does not
/// decode to UTF-8 text is taken as a token written in the clear, as it
/// was before tokens were concealed, and is kept as it is.
pub open spec fn revealed_token(stored: Seq<char>, key: Seq<u8>) -> Seq<char> {
    if stored.len() == 0 {
        stored
    } else {
        match base64_decoding(stored) {
            Some(b) => if valid_utf8(xor_with_key(b, key)) {
                decode_utf8(xor_with_key(b, key))
            } else {
                stored
            },
            None => stored,
        }
    }
}

/// A token field with its token revealed or concealed.
pub open spec fn map_token(token: Option<String>, f: spec_fn(Seq<char>) -> Seq<char>) -> Option<Seq<char>> {
    match token {
        Some(t) => Some(f(t@)),
        None => None,
    }
}

/// The view of an optional text field.
pub open spec fn opt_view(t: Option<String>) -> Option<Seq<char>> {
    match t {
        Some(s) => Some(s@),
        None => None,
    }
}

/// The key for tokens stored under configuration directory `dir`.
pub fn encryption_key(dir: &str) -> (r: Vec<u8>)
    ensures
        r@ == encryption_key_of(dir@),
        r@.len() == 32,
{
    let mut bytes = dir.as_bytes_vec();
    let mut salt = ENCRYPTION_SALT.as_bytes_vec();
    bytes.append(&mut salt);
    sha256(bytes.as_slice())
}

pub fn xor_bytes(data: &[u8], key: &[u8]) -> (r: Vec<u8>)
    requires
        key@.len() > 0,
    ensures
        r@ == xor_with_key(data@, key@),
{
    let mut r: Vec<u8> = Vec::new();
    let mut i: usize = 0;
    while i < data.len()
        invariant
            i <= data@.len(),
            key@.len() > 0,
            r@ =~= xor_with_key(data@.take(i as int), key@),
        decreases data@.len() - i,
    {
        r.push(data[i] ^ key[i % key.len()]);
        i = i + 1;
    }
    assert(data@.take(data@.len() as int) =~= data@);
    r
}

/// The stored form of `token` under `key`.
pub fn encrypt_token(token: &str, key: &[u8]) -> (r: String)
    requires
        key@.len() > 0,
        encode_utf8(token@).len() <= usize::MAX / 2,
    ensures
        r@ == base64_encoding(xor_with_key(encode_utf8(token@), key@)),
{
    let plain = token.as_bytes();
    let mixed = xor_bytes(plain, key);
    base64_encode(mixed.as_slice())
}

/// The token that `encrypted` stands for under `key`, or `None` when it is
/// not base64 or does not decode to UTF-8 text.
pub fn decrypt_token(encrypted: &str, key: &[u8]) -> (r: Option<String>)
    requires
        key@.len() > 0,
    ensures
        match base64_decoding(encrypted@) {
            Some(b) => if valid_utf8(xor_with_key(b, key@)) {
                r is Some && r->0@ == decode_utf8(xor_with_key(b, key@))
            } else {
                r is None
            },
            None => r is None,
        },
{
    match base64_decode(encrypted) {
        Some(bytes) => {
            let plain = xor_bytes(bytes.as_slice(), key);
            utf8_to_string(plain)
        },
        None => None,
    }
}

/// A token field as loaded: a non-empty token is revealed.
fn reveal_field(token: Option<String>, key: &[u8]) -> (r: Option<String>)
    requires
        key@.len() > 0,
    ensures
        opt_view(r) == map_token(token, |t: Seq<char>| revealed_token(t, key@)),
{
    match token {
        Some(t) => {
            if t.unicode_len() == 0 {
                Some(t)
            } else {
                match decrypt_token(t.as_str(), key) {
                    Some(plain) => Some(plain),
                    None => Some(t),
                }
            }
        },
        None => None,
    }
}

/// A token field as stored: a non-empty token is concealed.
fn conceal_field(token: &Option<String>, key: &[u8]) -> (r: Option<String>)
    requires
        key@.len() > 0,
        token matches Some(t) ==> encode_utf8(t@).len() <= usize::MAX / 2,
    ensures
        opt_view(r) == map_token(*token, |t: Seq<char>| concealed_token(t, key@)),
{
    match token {
        Some(t) => {
            if t.unicode_len() == 0 {
                Some(t.clone())
            } else {
                Some(encrypt_token(t.as_str(), key))
            }
        },
        None => None,
    }
}

/// The settings as read from their stored record `stored`, kept under
/// configuration directory `dir`: the token is revealed, the rest is kept.
pub fn load_sync_config(stored: SyncConfig, dir: &str) -> (r: SyncConfig)
    ensures
        r.storage_url == stored.storage_url,
        r.last_sync == stored.last_sync,
        r.auto_sync == stored.auto_sync,
        opt_view(r.token) == map_token(stored.token, |t: Seq<char>| revealed_token(t, encryption_key_of(dir@))),
{
    let key = encryption_key(dir);
    let token = reveal_field(stored.token, key.as_slice());
    SyncConfig { storage_url: stored.storage_url, token, last_sync: stored.last_sync, auto_sync: stored.auto_sync }
}

/// The record to store for `config` under configuration directory `dir`:
/// the token is concealed, the rest is kept.
pub fn save_sync_config(config: &SyncConfig, dir: &str) -> (r: SyncConfig)
    requires
        config.token matches Some(t) ==> encode_utf8(t@).len() <= usize::MAX / 2,
    ensures
        r.storage_url == config.storage_url,
        r.last_sync == config.last_sync,
        r.auto_sync == config.auto_sync,
        opt_view(r.token) == map_token(config.token, |t: Seq<char>| concealed_token(t, encryption_key_of(dir@))),
{
    let key = encryption_key(dir);
    let token = conceal_field(&config.token, key.as_slice());
    SyncConfig {
        storage_url: config.storage_url.clone(),
        token,
        last_sync: config.last_sync.clone(),
        auto_sync: config.auto_sync,
    }
}

/// The embedding settings as read from their stored record.
pub fn load_embed_config(stored: EmbedConfig, dir: &str) -> (r: EmbedConfig)
    ensures
        r.api_url == stored.api_url,
        opt_view(r.token) == map_token(stored.token, |t: Seq<char>| revealed_token(t, encryption_key_of(dir@))),
{
    let key = encryption_key(dir);
    let token = reveal_field(stored.token, key.as_slice());
    EmbedConfig { api_url: stored.api_url, token }
}

/// The record to store for the embedding settings.
pub fn save_embed_config(config: &EmbedConfig, dir: &str) -> (r: EmbedConfig)
    requires
        config.token matches Some(t) ==> encode_utf8(t@).len() <= usize::MAX / 2,
    ensures
        r.api_url == config.api_url,
        opt_view(r.token) == map_token(config.token, |t: Seq<char>| concealed_token(t, encryption_key_of(dir@))),
{
    let key = encryption_key(dir);
    let token = conceal_field(&config.token, key.as_slice());
    EmbedConfig { api_url: config.api_url.clone(), token }
}

/// What setting a sync configuration value did.
#[derive(Debug, Clone, Copy, PartialEq, Eq, Structural)]
pub enum SettingChange {
    StorageUrl,
    Token,
    /// Automatic push was switched on or off; `incomplete` when it is on
    /// while the endpoint or the token is still missing.
    AutoSync { enabled: bool, incomplete: bool },
    /// The key names no setting; nothing changed.
    UnknownKey,
}

/// Whether a typed value switches a flag on: `true` in any letter case.
pub open spec fn switches_on(value: Seq<char>) -> bool {
    lowercase_of(value) == seq!['t', 'r', 'u', 'e']
}

impl SyncConfig {
    /// Sets the setting named `key` (`storage_url`, `token` or `auto_sync`)
    /// from the typed `value`.
    pub fn apply_setting(&mut self, key: &str, value: String) -> (r: SettingChange)
        ensures
            key@ == "storage_url"@ ==> r == SettingChange::StorageUrl && *final(self) == (SyncConfig {
                storage_url: Some(value),
                ..*old(self)
            }),
            key@ == "token"@ ==> r == SettingChange::Token && *final(self) == (SyncConfig {
                token: Some(value),
                ..*old(self)
            }),
            key@ == "auto_sync"@ ==> r == (SettingChange::AutoSync {
                enabled: switches_on(value@),
                incomplete: switches_on(value@) && !old(self).configured(),
            }) && *final(self) == (SyncConfig { auto_sync: switches_on(value@), ..*old(self) }),
            key@ != "storage_url"@ && key@ != "token"@ && key@ != "auto_sync"@ ==> r
                == SettingChange::UnknownKey && *final(self) == *old(self),
    {
        proof {
            reveal_strlit("storage_url");
            reveal_strlit("token");
            reveal_strlit("auto_sync");
            assert("storage_url"@.len() == 11 && "token"@.len() == 5 && "auto_sync"@.len() == 9);
        }
        if same_text(key, "storage_url") {
            self.storage_url = Some(value);
            SettingChange::StorageUrl
        } else if same_text(key, "token") {
            self.token = Some(value);
            SettingChange::Token
        } else if same_text(key, "auto_sync") {
            let lower = to_lowercase(value.as_str());
            proof {
                reveal_strlit("true");
            }
            let enabled = same_text(lower.as_str(), "true");
            assert(enabled == switches_on(value@)) by {
                assert("true"@ =~= seq!['t', 'r', 'u', 'e']);
            }
            self.auto_sync = enabled;
            SettingChange::AutoSync { enabled, incomplete: enabled && !self.is_configured() }
        } else {
            SettingChange::UnknownKey
        }
    }
}

} // verus!
