//! Sign-up and log-in orchestration.
//!
//! The backend combines the password policy, the uniqueness check, hashing
//! and token issuance, and produces a closed set of named outcomes for the
//! UI to handle. The configuration — signing secret and token expiry — is an
//! explicit object handed in once at construction, not a hidden global.

use crate::password::{digest_matches, hash_password, verify_digest, PASSWORD_CHAR_LIMIT};
use crate::store::{Store, User};
use crate::token::{jwt_of, make_jwt};
use vstd::prelude::*;
use vstd::string::StrSliceExecFns;

verus! {

/// The fewest characters (not bytes) a password may have.
pub const MIN_PASSWORD_CHARS: usize = 8;

/// Outcome of a sign-up or log-in attempt, as the UI consumes it. `Accepted`
/// stands for success; `InvalidAccount`, `TooShortPassword` and `NameExists`
/// are the policy rejections. `Logining` and `SigningUp` are transient
/// states the UI sets locally while a call is in flight: the backend itself
/// never returns them.
#[derive(Debug, Clone, PartialEq, Eq, Structural)]
pub enum LoginScreenState {
    Accepted,
    InvalidAccount,
    TooShortPassword,
    NameExists,
    Logining,
    SigningUp,
}

/// The service state: the store and the process configuration (token
/// signing secret and token expiry), constructed once and shared.
#[derive(Debug, Clone)]
pub struct Backend {
    pub store: Store,
    pub jwt_secret: Vec<u8>,
    pub token_expiry: i64,
}

/// A sign-up is accepted exactly when the password reaches the minimum
/// length and the name is not yet taken.
pub open spec fn sign_up_accepts(store: Store, name: Seq<char>, password: Seq<char>) -> bool {
    password.len() >= MIN_PASSWORD_CHARS && !store.contains_name(name)
}

/// The rejection a refused sign-up reports: the password policy is checked
/// first, then the name.
pub open spec fn sign_up_rejection(store: Store, name: Seq<char>, password: Seq<char>)
    -> LoginScreenState {
    if password.len() < MIN_PASSWORD_CHARS {
        LoginScreenState::TooShortPassword
    } else {
        LoginScreenState::NameExists
    }
}

/// A log-in is accepted exactly when some user record carries the name and
/// its stored digest matches the supplied password.
pub open spec fn log_in_accepts(store: Store, name: Seq<char>, password: Seq<char>) -> bool {
    exists|i: int|
        0 <= i < store.users@.len() && store.users@[i].name@ == name && digest_matches(
            password,
            store.users@[i].password_hash@,
        )
}

impl Backend {
    /// A backend over an empty store, with the given signing secret and
    /// token expiry.
    pub fn new(jwt_secret: Vec<u8>, token_expiry: i64) -> (b: Backend)
        ensures
            b.store.users@ == Seq::<User>::empty(),
            b.store.tags@ == Seq::<crate::store::Tag>::empty(),
            b.store.posts@ == Seq::<crate::store::Post>::empty(),
            b.store.wf(),
            b.jwt_secret == jwt_secret,
            b.token_expiry == token_expiry,
    {
        Backend { store: Store::new(), jwt_secret, token_expiry }
    }

    /// Signs an account up: rejects a password under the minimum length,
    /// then a name the store already holds; otherwise hashes the password
    /// with a fresh salt, persists the new user and returns a signed token
    /// for the name. A rejected attempt writes nothing.
    pub fn sign_up(&mut self, name: String, password: String) -> (r: Result<
        String,
        LoginScreenState,
    >)
        requires
            old(self).store.wf(),
            password@.len() <= PASSWORD_CHAR_LIMIT,
        ensures
            final(self).store.wf(),
            r is Ok <==> sign_up_accepts(old(self).store, name@, password@),
            r is Err ==> *final(self) == *old(self) && r == Err::<String, LoginScreenState>(
                sign_up_rejection(old(self).store, name@, password@),
            ),
            r matches Ok(token) ==> {
                &&& token@ == jwt_of(old(self).jwt_secret@, name@, old(self).token_expiry)
                &&& final(self).store.users@.len() == old(self).store.users@.len() + 1
                &&& final(self).store.users@.subrange(0, old(self).store.users@.len() as int)
                    == old(self).store.users@
                &&& final(self).store.users@.last().name@ == name@
                &&& digest_matches(password@, final(self).store.users@.last().password_hash@)
                &&& final(self).store.users@.last().icon is None
                &&& final(self).store.contains_name(name@)
                &&& final(self).store.tags@ == old(self).store.tags@
                &&& final(self).store.posts@ == old(self).store.posts@
                &&& final(self).jwt_secret == old(self).jwt_secret
                &&& final(self).token_expiry == old(self).token_expiry
            },
    {
        if password.as_str().unicode_len() < MIN_PASSWORD_CHARS {
            return Err(LoginScreenState::TooShortPassword);
        }
        if self.store.find_user(&name).is_some() {
            return Err(LoginScreenState::NameExists);
        }
        let ghost old_users = self.store.users@;
        let digest = hash_password(&password);
        let user = User { name: name.clone(), password_hash: digest, icon: None };
        self.store.users.push(user);
        proof {
            assert(self.store.users@.subrange(0, old_users.len() as int) =~= old_users);
            assert forall|i: int, j: int|
                0 <= i < j < self.store.users@.len() implies self.store.users@[i].name@
                != self.store.users@[j].name@ by {
                if j < old_users.len() {
                    assert(old(self).store.wf());
                } else {
                    assert(self.store.users@[j].name@ == name@);
                    assert(!old(self).store.contains_name(name@));
                }
            }
        }
        Ok(make_jwt(&self.jwt_secret, &name, self.token_expiry))
    }

    /// Logs an account in: accepted exactly when the name is known and the
    /// stored digest matches the password, and then answered with a signed
    /// token for the name. An unknown name and a wrong password are rejected
    /// with the same outcome, deliberately indistinguishable.
    pub fn log_in(&self, name: String, password: String) -> (r: Result<String, LoginScreenState>)
        requires
            self.store.wf(),
        ensures
            r is Ok <==> log_in_accepts(self.store, name@, password@),
            r matches Ok(token) ==> token@ == jwt_of(self.jwt_secret@, name@, self.token_expiry),
            r is Err ==> r == Err::<String, LoginScreenState>(LoginScreenState::InvalidAccount),
    {
        match self.store.find_user(&name) {
            Some(i) => {
                if verify_digest(&password, &self.store.users[i].password_hash) {
                    Ok(make_jwt(&self.jwt_secret, &name, self.token_expiry))
                } else {
                    proof {
                        if log_in_accepts(self.store, name@, password@) {
                            let j = choose|j: int|
                                0 <= j < self.store.users@.len() && self.store.users@[j].name@
                                    == name@ && digest_matches(
                                    password@,
                                    self.store.users@[j].password_hash@,
                                );
                            assert(j == i);
                        }
                    }
                    Err(LoginScreenState::InvalidAccount)
                }
            },
            None => Err(LoginScreenState::InvalidAccount),
        }
    }
}

/// Uniqueness law: once the store holds a user of a given name — as it does
/// after any accepted sign-up — no further sign-up under that name is
/// accepted, whatever the password, so it never returns a token.
pub proof fn lemma_sign_up_uniqueness(store: Store, name: Seq<char>, password: Seq<char>)
    requires
        store.contains_name(name),
    ensures
        !sign_up_accepts(store, name, password),
{
}

/// Anti-enumeration law: a log-in under a name the store does not hold and
/// a log-in under a known name with a password whose digest does not match
/// are both rejected, so the two cases answer with the same outcome.
pub proof fn lemma_log_in_anti_enumeration(
    store: Store,
    absent_name: Seq<char>,
    password_a: Seq<char>,
    known_name: Seq<char>,
    password_b: Seq<char>,
)
    requires
        !store.contains_name(absent_name),
        forall|i: int|
            0 <= i < store.users@.len() && store.users@[i].name@ == known_name
                ==> !digest_matches(password_b, store.users@[i].password_hash@),
    ensures
        !log_in_accepts(store, absent_name, password_a),
        !log_in_accepts(store, known_name, password_b),
{
}

/// Round-trip law: a store extended by an accepted sign-up — one more user,
/// carrying the name and a digest that matches the password — accepts a
/// log-in under that same name and password.
pub proof fn lemma_sign_up_then_log_in(pre: Store, post: Store, name: Seq<char>, password: Seq<char>)
    requires
        post.users@.len() == pre.users@.len() + 1,
        post.users@.subrange(0, pre.users@.len() as int) == pre.users@,
        post.users@.last().name@ == name,
        digest_matches(password, post.users@.last().password_hash@),
    ensures
        log_in_accepts(post, name, password),
{
    let i = post.users@.len() - 1;
    assert(0 <= i < post.users@.len() && post.users@[i].name@ == name && digest_matches(
        password,
        post.users@[i].password_hash@,
    ));
}

} // verus!
