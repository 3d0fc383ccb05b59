//! The credentials of the account: a user name and the hash of the password.
//!
//! The password itself is never kept. Its hash is computed once, when the
//! credentials are first derived from the configured settings, and it is the
//! hash that is cached and sent. The cache is a list of key-value rows;
//! reading and writing it is the caller's business.

use crate::models::{NewSetting, SettingModel, Settings};
use crate::text::option_text;
use vstd::prelude::*;
use vstd::utf8::encode_utf8;

verus! {

/// The SHA-1 digest of the UTF-8 bytes of `text`, as 40 lower-case
/// hexadecimal digits.
pub uninterp spec fn sha1_hex(text: Seq<char>) -> Seq<char>;

/// The number of bytes from which on the hasher refuses its input: the bit
/// count would no longer fit in 64 bits.
pub const HASH_INPUT_LIMIT: u64 = 0x2000_0000_0000_0000;

/// The text is short enough to be hashed: its UTF-8 form stays below the
/// hasher's limit.
pub open spec fn hashable(text: Seq<char>) -> bool {
    encode_utf8(text).len() < HASH_INPUT_LIMIT
}

/// `crypto::sha1::Sha1`: a fresh hasher is fed the text with
/// `Digest::input_str` and read with `Digest::result_str`, which gives the
/// digest in hexadecimal. The hasher panics on an input of 2^61 bytes or
/// more, which is left out here.
#[verifier::external_body]
fn sha1_hex_digest(text: &str) -> (digest: String)
    requires
        hashable(text@),
    ensures
        digest@ == sha1_hex(text@),
{
    let mut hasher = crypto::sha1::Sha1::new();
    crypto::digest::Digest::input_str(&mut hasher, text);
    crypto::digest::Digest::result_str(&mut hasher)
}

/// The hash under which a password is cached and sent, or `None` for a
/// password too long to hash.
pub fn hash_password(password: &str) -> (hash: Option<String>)
    ensures
        match hash {
            Some(h) => hashable(password@) && h@ == sha1_hex(password@),
            None => !hashable(password@),
        },
{
    if (password.as_bytes().len() as u64) < HASH_INPUT_LIMIT {
        Some(sha1_hex_digest(password))
    } else {
        None
    }
}

/// The mathematical content of [`Credentials`].
pub struct CredentialsModel {
    pub username: Seq<char>,
    pub password_hash: Seq<char>,
}

/// A user name and the hash of the password that goes with it.
#[derive(Debug)]
pub struct Credentials {
    pub username: String,
    pub password_hash: String,
}

impl View for Credentials {
    type V = CredentialsModel;

    open spec fn view(&self) -> CredentialsModel {
        CredentialsModel { username: self.username@, password_hash: self.password_hash@ }
    }
}

/// Why no credentials can be had.
#[derive(Clone, Copy, Debug, PartialEq, Eq, Structural)]
pub enum StoreError {
    /// The cache could not be read.
    CacheUnavailable,
    /// No user name is configured.
    MissingUsername,
    /// No password is configured.
    MissingPassword,
    /// The configured password is too long to hash.
    UnusablePassword,
}

/// The key of the settings row that caches the user name.
pub open spec fn username_key() -> Seq<char> {
    "username"@
}

/// The key of the settings row that caches the password hash.
pub open spec fn password_key() -> Seq<char> {
    "password"@
}

/// The contents of a list of rows.
pub open spec fn rows_model(rows: Seq<Settings>) -> Seq<SettingModel> {
    rows.map_values(|row: Settings| row@)
}

/// The value of the last of `rows` that has the key `key`, if one has.
pub open spec fn last_value(rows: Seq<SettingModel>, key: Seq<char>) -> Option<Seq<char>>
    decreases rows.len(),
{
    if rows.len() == 0 {
        None
    } else if rows.last().key == key {
        Some(rows.last().value)
    } else {
        last_value(rows.drop_last(), key)
    }
}

/// `rows` hold both a user name and a password hash.
pub open spec fn complete(rows: Seq<SettingModel>) -> bool {
    last_value(rows, username_key()) is Some && last_value(rows, password_key()) is Some
}

/// The number of rows that are read of `rows`: reading stops with the row
/// that completes the credentials, and at the end otherwise.
pub open spec fn rows_read(rows: Seq<SettingModel>) -> nat
    decreases rows.len(),
{
    if rows.len() == 0 {
        0
    } else if complete(rows.drop_last()) {
        rows_read(rows.drop_last())
    } else {
        rows.len()
    }
}

/// The credentials that a cache with these rows holds: those that the rows
/// read give, where they give both parts.
pub open spec fn cached(rows: Seq<SettingModel>) -> Option<CredentialsModel> {
    let seen = rows.take(rows_read(rows) as int);
    if complete(seen) {
        Some(
            CredentialsModel {
                username: last_value(seen, username_key())->0,
                password_hash: last_value(seen, password_key())->0,
            },
        )
    } else {
        None
    }
}

/// The credentials derived from a configured user name and password.
pub open spec fn derived(username: Seq<char>, password: Seq<char>) -> CredentialsModel {
    CredentialsModel { username, password_hash: sha1_hex(password) }
}

/// The rows under which credentials are cached: the user name, then the
/// password hash.
pub open spec fn rows_for(credentials: CredentialsModel) -> Seq<SettingModel> {
    seq![
        SettingModel { key: username_key(), value: credentials.username },
        SettingModel { key: password_key(), value: credentials.password_hash },
    ]
}

/// The two keys are different texts.
pub proof fn lemma_keys_differ()
    ensures
        username_key() != password_key(),
{
    reveal_strlit("username");
    reveal_strlit("password");
    assert(username_key()[0] == 'u');
    assert(password_key()[0] == 'p');
}

/// A longer list of rows holds a value for every key that a prefix of it
/// holds one for.
pub proof fn lemma_last_value_persists(rows: Seq<SettingModel>, n: int, key: Seq<char>)
    requires
        0 <= n <= rows.len(),
        last_value(rows.take(n), key) is Some,
    ensures
        last_value(rows, key) is Some,
    decreases rows.len() - n,
{
    if n < rows.len() {
        let next = rows.take(n + 1);
        assert(next.drop_last() == rows.take(n));
        lemma_last_value_persists(rows, n + 1, key);
    } else {
        assert(rows.take(n) == rows);
    }
}

/// Reading stops at `n` where the first `n` rows are complete, or are all
/// the rows, and one row fewer is not complete.
pub proof fn lemma_rows_read(rows: Seq<SettingModel>, n: int)
    requires
        0 <= n <= rows.len(),
        n == rows.len() || complete(rows.take(n)),
        n > 0 ==> !complete(rows.take(n - 1)),
    ensures
        rows_read(rows) == n,
    decreases rows.len(),
{
    if rows.len() > 0 {
        let shorter = rows.drop_last();
        if n < rows.len() {
            assert(shorter.take(n) == rows.take(n));
            lemma_last_value_persists(shorter, n, username_key());
            lemma_last_value_persists(shorter, n, password_key());
            if n > 0 {
                assert(shorter.take(n - 1) == rows.take(n - 1));
            }
            lemma_rows_read(shorter, n);
        } else {
            assert(rows.take(n - 1) == shorter);
        }
    }
}

/// Looks for cached credentials among the rows of the settings table, read
/// in order up to the row that completes them. `None` where the rows lack a
/// user name or a password hash.
pub fn find_cached(rows: &Vec<Settings>) -> (found: Option<Credentials>)
    ensures
        match found {
            Some(c) => cached(rows_model(rows@)) == Some(c@),
            None => cached(rows_model(rows@)) is None,
        },
{
    let ghost model = rows_model(rows@);
    let username_key = String::from_str("username");
    let password_key = String::from_str("password");
    let mut username: Option<String> = None;
    let mut password_hash: Option<String> = None;
    let mut i: usize = 0;
    assert(model.take(0).len() == 0);
    while i < rows.len()
        invariant
            0 <= i <= rows.len(),
            model == rows_model(rows@),
            username_key@ == self::username_key(),
            password_key@ == self::password_key(),
            option_text(username) == last_value(model.take(i as int), self::username_key()),
            option_text(password_hash) == last_value(model.take(i as int), self::password_key()),
            !complete(model.take(i as int)),
        decreases rows.len() - i,
    {
        let row = &rows[i];
        proof {
            let seen = model.take(i + 1);
            assert(seen.drop_last() == model.take(i as int));
            assert(seen.last() == row@);
            lemma_keys_differ();
        }
        if row.key == username_key {
            username = Some(row.value.clone());
        } else if row.key == password_key {
            password_hash = Some(row.value.clone());
        }
        i = i + 1;
        if username.is_some() && password_hash.is_some() {
            proof {
                lemma_rows_read(model, i as int);
            }
            return Some(
                Credentials { username: username.unwrap(), password_hash: password_hash.unwrap() },
            );
        }
    }
    proof {
        assert(model.take(i as int) == model);
        if i > 0 && complete(model.take(i - 1)) {
            lemma_last_value_persists(model, i - 1, self::username_key());
            lemma_last_value_persists(model, i - 1, self::password_key());
        }
        lemma_rows_read(model, i as int);
    }
    None
}

/// Reads the credentials out of what the cache gave: its rows, or nothing
/// where it could not be read. `Ok(None)` says that the cache holds no
/// complete credentials, so that they have to be derived.
pub fn load_cached(cache: Option<&Vec<Settings>>) -> (r: Result<Option<Credentials>, StoreError>)
    ensures
        match r {
            Ok(Some(c)) => cache matches Some(rows) && cached(rows_model(rows@)) == Some(c@),
            Ok(None) => cache matches Some(rows) && cached(rows_model(rows@)) is None,
            Err(e) => cache is None && e == StoreError::CacheUnavailable,
        },
{
    match cache {
        Some(rows) => Ok(find_cached(rows)),
        None => Err(StoreError::CacheUnavailable),
    }
}

/// Derives the credentials from the configured user name and password,
/// hashing the password. A missing user name is reported before a missing
/// password.
pub fn derive_from_settings(
    username: Option<&str>,
    password: Option<&str>,
) -> (r: Result<Credentials, StoreError>)
    ensures
        match r {
            Ok(c) => username matches Some(u) && (password matches Some(p) && hashable(p@) && c@
                == derived(u@, p@)),
            Err(StoreError::MissingUsername) => username is None,
            Err(StoreError::MissingPassword) => username is Some && password is None,
            Err(StoreError::UnusablePassword) => username is Some && (password matches Some(p)
                && !hashable(p@)),
            Err(StoreError::CacheUnavailable) => false,
        },
{
    match username {
        None => Err(StoreError::MissingUsername),
        Some(u) => match password {
            None => Err(StoreError::MissingPassword),
            Some(p) => match hash_password(p) {
                None => Err(StoreError::UnusablePassword),
                Some(password_hash) => Ok(
                    Credentials { username: String::from_str(u), password_hash },
                ),
            },
        },
    }
}

/// The rows to write so that the credentials are found in the cache from
/// then on.
pub fn rows_to_save<'a>(credentials: &'a Credentials) -> (rows: Vec<NewSetting<'a>>)
    ensures
        rows@.map_values(|row: NewSetting<'a>| row@) == rows_for(credentials@),
{
    let mut rows: Vec<NewSetting<'a>> = Vec::new();
    rows.push(NewSetting { key: "username", value: credentials.username.as_str() });
    rows.push(NewSetting { key: "password", value: credentials.password_hash.as_str() });
    assert(rows@.map_values(|row: NewSetting<'a>| row@) =~= rows_for(credentials@));
    rows
}

/// Reading never goes past the rows, and rows that are complete are so at
/// the point where reading stops.
pub proof fn lemma_read_prefix_complete(rows: Seq<SettingModel>)
    ensures
        rows_read(rows) <= rows.len(),
        complete(rows) ==> complete(rows.take(rows_read(rows) as int)),
    decreases rows.len(),
{
    if rows.len() > 0 {
        let shorter = rows.drop_last();
        lemma_read_prefix_complete(shorter);
        if complete(shorter) {
            assert(shorter.take(rows_read(shorter) as int) == rows.take(rows_read(shorter) as int));
        } else {
            assert(rows.take(rows.len() as int) == rows);
        }
    } else {
        assert(rows.take(0) == rows);
    }
}

/// Once the rows of freshly derived credentials are written behind a cache
/// that held no password hash, the cache holds exactly these credentials.
pub proof fn saved_credentials_are_found(existing: Seq<SettingModel>, credentials: CredentialsModel)
    requires
        last_value(existing, password_key()) is None,
    ensures
        cached(existing) is None,
        cached(existing + rows_for(credentials)) == Some(credentials),
{
    let added = rows_for(credentials);
    let all = existing + added;
    let n = existing.len() as int;
    lemma_keys_differ();
    lemma_read_prefix_complete(existing);
    if complete(existing.take(rows_read(existing) as int)) {
        lemma_last_value_persists(existing, rows_read(existing) as int, password_key());
    }
    assert(all.take(n) == existing);
    let one_more = all.take(n + 1);
    assert(one_more.drop_last() == existing);
    assert(one_more.last() == added[0]);
    assert(all.take(n + 2) == all);
    assert(all.drop_last() == one_more);
    assert(all.last() == added[1]);
    assert(last_value(one_more, username_key()) == Some(credentials.username));
    assert(last_value(one_more, password_key()) is None);
    assert(last_value(all, username_key()) == Some(credentials.username));
    assert(last_value(all, password_key()) == Some(credentials.password_hash));
    lemma_rows_read(all, n + 2);
}

/// The hash that is cached and sent depends on the password alone: deriving
/// the credentials again from the same password gives the same hash.
pub proof fn same_password_same_hash(
    first_username: Seq<char>,
    second_username: Seq<char>,
    password: Seq<char>,
)
    ensures
        derived(first_username, password).password_hash == derived(
            second_username,
            password,
        ).password_hash,
{
}

} // verus!
