//! Accounts: the privileged record read from the credential store, the public identity
//! used everywhere else, and the authentication decisions between the two.
use vstd::prelude::*;
use crate::phc::{derive_session_secret, verify, session_secret_of, password_matches,
    phc_digest, is_sound_hash, HashDefect};

verus! {

/// Declares `time::UtcDateTime`, an account's creation time, carried through opaque.
#[verifier::external_type_specification]
#[verifier::external_body]
pub struct ExUtcDateTime(time::UtcDateTime);

/// An account row as the credential store holds it, password hash included.
///
/// The hash holds the algorithm parameters and the salt, which must not leak. Convert the
/// record into a [`User`] as soon as it has served its purpose.
pub struct UnsafeUser {
    pub user_id: i32,
    pub name: String,
    pub creation_date: time::UtcDateTime,
    password: String,
}

/// An account record seen mathematically, its encoded password hash included.
pub struct AccountRecord {
    pub user_id: i32,
    pub name: Seq<char>,
    pub creation_date: time::UtcDateTime,
    pub encoded_hash: Seq<char>,
}

/// The public identity of an account: what [`User`] holds, seen mathematically.
pub struct Identity {
    pub user_id: i32,
    pub name: Seq<char>,
    pub creation_date: time::UtcDateTime,
    pub session_secret: Seq<u8>,
}

/// The identity used everywhere outside authentication. It carries a session-binding
/// secret, derived from the password digest, instead of the password hash.
pub struct User {
    pub user_id: i32,
    pub name: String,
    pub creation_date: time::UtcDateTime,
    pub session_hash: Vec<u8>,
}

/// A login attempt as submitted.
pub struct Credentials {
    pub username: String,
    pub password: String,
    pub next: Option<String>,
}

/// A stored password hash that yields no session-binding secret. The store is corrupt:
/// this is an integrity failure of the deployment, not an outcome of a request.
#[derive(Clone, Copy, Debug, PartialEq, Eq)]
pub struct CorruptCredential {
    pub user_id: i32,
    pub defect: HashDefect,
}

impl View for UnsafeUser {
    type V = AccountRecord;

    closed spec fn view(&self) -> AccountRecord {
        AccountRecord {
            user_id: self.user_id,
            name: self.name@,
            creation_date: self.creation_date,
            encoded_hash: self.password@,
        }
    }
}

impl View for User {
    type V = Identity;

    open spec fn view(&self) -> Identity {
        Identity {
            user_id: self.user_id,
            name: self.name@,
            creation_date: self.creation_date,
            session_secret: self.session_hash@,
        }
    }
}

/// The identity an account record converts to, when its hash yields a secret.
pub open spec fn identity_of(u: AccountRecord) -> Option<Identity> {
    match session_secret_of(u.encoded_hash) {
        Some(secret) => Some(
            Identity {
                user_id: u.user_id,
                name: u.name,
                creation_date: u.creation_date,
                session_secret: secret,
            },
        ),
        None => None,
    }
}

/// The outcome of a login with `password` when the lookup by name found `found`.
pub open spec fn authenticated(found: Option<AccountRecord>, password: Seq<char>) -> Option<
    Identity,
> {
    match found {
        Some(u) => if password_matches(password, u.encoded_hash) {
            identity_of(u)
        } else {
            None
        },
        None => None,
    }
}

/// The identity that a lookup by id found, if any.
pub open spec fn rehydrated(found: Option<AccountRecord>) -> Option<Identity> {
    match found {
        Some(u) => identity_of(u),
        None => None,
    }
}

/// The identity that an optional [`User`] holds.
pub open spec fn identity_view(o: Option<User>) -> Option<Identity> {
    match o {
        Some(v) => Some(v@),
        None => None,
    }
}

/// `defect` is what the parser reports of `encoded`.
pub open spec fn describes(defect: HashDefect, encoded: Seq<char>) -> bool {
    match defect {
        HashDefect::Unparsable(_) => phc_digest(encoded) is None,
        HashDefect::MissingDigest => phc_digest(encoded) == Some(None::<Seq<u8>>),
    }
}

impl UnsafeUser {
    pub fn new(user_id: i32, name: String, creation_date: time::UtcDateTime, password: String) -> (r:
        Self)
        ensures
            r@ == (AccountRecord {
                user_id,
                name: name@,
                creation_date,
                encoded_hash: password@,
            }),
    {
        UnsafeUser { user_id, name, creation_date, password }
    }

    /// Converts the record into the public identity, deriving the session-binding secret
    /// from the digest of the password hash. The hash itself is dropped.
    pub fn try_into_user(self) -> (r: Result<User, CorruptCredential>)
        ensures
            r is Ok <==> is_sound_hash(self@.encoded_hash),
            r matches Ok(v) ==> identity_of(self@) == Some(v@),
            r matches Err(c) ==> c.user_id == self@.user_id && describes(
                c.defect,
                self@.encoded_hash,
            ),
    {
        match derive_session_secret(self.password.as_str()) {
            Ok(session_hash) => Ok(
                User {
                    user_id: self.user_id,
                    name: self.name,
                    creation_date: self.creation_date,
                    session_hash,
                },
            ),
            Err(defect) => Err(CorruptCredential { user_id: self.user_id, defect }),
        }
    }
}

impl User {
    /// The id that correlates sessions with the account.
    pub fn id(&self) -> (r: i32)
        ensures
            r == self.user_id,
    {
        self.user_id
    }

    /// The secret that binds sessions to the account's current password.
    pub fn session_auth_hash(&self) -> (r: &[u8])
        ensures
            r@ == self.session_hash@,
    {
        self.session_hash.as_slice()
    }
}

/// The record that an optional [`UnsafeUser`] holds.
pub open spec fn record_view(o: Option<UnsafeUser>) -> Option<AccountRecord> {
    match o {
        Some(u) => Some(u@),
        None => None,
    }
}

/// Decides a login: `found` is the record that the lookup by `creds.username` returned.
/// A missing account and a wrong password give the same `None`.
pub fn authenticate(found: Option<UnsafeUser>, creds: &Credentials) -> (r: Option<User>)
    ensures
        identity_view(r) == authenticated(record_view(found), creds.password@),
{
    match found {
        Some(u) => {
            if verify(creds.password.as_str(), u.password.as_str()) {
                match u.try_into_user() {
                    Ok(v) => Some(v),
                    Err(_) => None,
                }
            } else {
                None
            }
        },
        None => None,
    }
}

/// Turns the record that the lookup by id returned into the public identity.
pub fn get_user(found: Option<UnsafeUser>) -> (r: Result<Option<User>, CorruptCredential>)
    ensures
        r is Err <==> (found matches Some(u) && !is_sound_hash(u@.encoded_hash)),
        r matches Ok(o) ==> identity_view(o) == rehydrated(record_view(found)),
        r matches Err(c) ==> (found matches Some(u) && c.user_id == u@.user_id && describes(
            c.defect,
            u@.encoded_hash,
        )),
{
    match found {
        Some(u) => match u.try_into_user() {
            Ok(v) => Ok(Some(v)),
            Err(c) => Err(c),
        },
        None => Ok(None),
    }
}

/// A login with the account's own password yields its identity, whose session-binding
/// secret is the secret derived from the stored hash.
pub proof fn lemma_correct_password_accepted(account: AccountRecord, password: Seq<char>)
    requires
        password_matches(password, account.encoded_hash),
        is_sound_hash(account.encoded_hash),
    ensures
        authenticated(Some(account), password) matches Some(v) && v.user_id == account.user_id
            && v.name == account.name && Some(v.session_secret) == session_secret_of(
            account.encoded_hash,
        ),
{
}

/// A login with a password that the stored hash does not accept yields nothing.
pub proof fn lemma_wrong_password_rejected(account: AccountRecord, password: Seq<char>)
    requires
        !password_matches(password, account.encoded_hash),
    ensures
        authenticated(Some(account), password) is None,
{
}

/// A login for a name with no account yields nothing, whatever the password.
pub proof fn lemma_unknown_account_rejected(password: Seq<char>)
    ensures
        authenticated(None, password) is None,
{
}

/// Looking up the same stored record twice gives identities with equal session-binding
/// secrets.
pub proof fn lemma_rehydration_stable(first: AccountRecord, second: AccountRecord)
    requires
        first == second,
    ensures
        rehydrated(Some(first)) == rehydrated(Some(second)),
        rehydrated(Some(first)) matches Some(a) ==> rehydrated(Some(second)) matches Some(b)
            && a.session_secret == b.session_secret,
{
}

/// A new password hash whose digest differs from the old one changes the session-binding
/// secret of the account, so sessions bound to the old secret no longer match.
pub proof fn lemma_new_password_new_secret(
    before: AccountRecord,
    after: AccountRecord,
    password: Seq<char>,
)
    requires
        is_sound_hash(before.encoded_hash),
        is_sound_hash(after.encoded_hash),
        session_secret_of(before.encoded_hash) != session_secret_of(after.encoded_hash),
    ensures
        rehydrated(Some(before)) matches Some(a) && rehydrated(Some(after)) matches Some(b)
            && a.session_secret != b.session_secret,
        authenticated(Some(after), password) matches Some(b) ==> rehydrated(Some(before)) matches Some(a)
            && a.session_secret != b.session_secret,
{
}

} // verus!
