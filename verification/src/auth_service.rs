//! Registration, login and identity lookup.
//!
//! The service folds usernames to lowercase, hashes passwords before they
//! reach the store, and answers every failed credential check with the
//! same `Unauthorized` value: the caller cannot tell an unknown username
//! from a wrong password. Corrupted storage — a stored hash the checker
//! cannot read — is an internal failure, not a credential mismatch.

use vstd::prelude::*;

use crate::error::DomainError;
use crate::hashing::{hash_password, hash_readable, password_matches, verify_password};
use crate::jwt::{claims_of, token_of, ClaimsView, JwtService, TOKEN_LIFETIME_SECS};
use crate::text::{lower_of, to_lowercase};
use crate::user::{LoginUser, RegisterUser, User, UserView};
use crate::user_repository::{id_present, name_taken, users_wf, UserRepository};

verus! {

/// Whether `users` holds a record under (folded) `name` whose stored hash
/// accepts `password`: the condition on which a login is owed a token.
pub open spec fn login_acceptable(users: Seq<UserView>, name: Seq<char>, password: Seq<char>) -> bool {
    exists|i: int|
        0 <= i < users.len() && (#[trigger] users[i]).username == name && password_matches(
            password,
            users[i].password_hash,
        )
}

/// The hash stored under (folded) `name`, read off the store contents;
/// meaningful when the store is well-formed, where at most one record
/// carries `name`.
pub open spec fn stored_hash(users: Seq<UserView>, name: Seq<char>) -> Seq<char> {
    users[choose|i: int| 0 <= i < users.len() && (#[trigger] users[i]).username == name].password_hash
}

/// Orchestrates the credential hasher, the token service and the user
/// store.
pub struct AuthService<R: UserRepository> {
    repo: R,
    keys: JwtService,
}

impl<R: UserRepository> AuthService<R> {
    /// The records of the underlying store.
    pub closed spec fn users(&self) -> Seq<UserView> {
        self.repo.users()
    }

    /// The service's invariant: the store contents are well-formed, so a
    /// username names at most one record.
    pub closed spec fn inv(&self) -> bool {
        users_wf(self.repo.users())
    }

    /// The signing secret of the token service.
    pub closed spec fn secret(&self) -> Seq<char> {
        self.keys.secret()
    }

    pub fn new(repo: R, keys: JwtService) -> (r: Self)
        ensures
            r.users() == repo.users(),
            r.secret() == keys.secret(),
            r.inv() <==> users_wf(repo.users()),
    {
        AuthService { repo, keys }
    }

    /// The token service, for wiring the request authenticator.
    pub fn keys(&self) -> (r: &JwtService)
        ensures
            r.secret() == self.secret(),
    {
        &self.keys
    }

    /// Registers a new user: folds the username to lowercase, hashes the
    /// password, and appends the record, unless the folded name is already
    /// taken — then the call fails with `UserAlreadyExists` and the store,
    /// existing records included, stays exactly as it was.
    pub fn register(&mut self, register_user: RegisterUser) -> (r: Result<User, DomainError>)
        requires
            old(self).inv(),
        ensures
            final(self).inv(),
            final(self).secret() == old(self).secret(),
            r matches Ok(u) ==> {
                &&& u@.username == lower_of(register_user.username@)
                &&& u@.email == register_user.email@
                &&& password_matches(register_user.password@, u@.password_hash)
                &&& !name_taken(old(self).users(), lower_of(register_user.username@))
                &&& !id_present(old(self).users(), u@.id)
                &&& final(self).users() == old(self).users().push(u@)
            },
            name_taken(old(self).users(), lower_of(register_user.username@)) ==> (r matches Err(e)
                && e matches DomainError::UserAlreadyExists(_)),
            r is Err ==> final(self).users() == old(self).users(),
            r matches Err(e) ==> match e {
                DomainError::UserAlreadyExists(_) => name_taken(
                    old(self).users(),
                    lower_of(register_user.username@),
                ),
                DomainError::Internal(_) => true,
                DomainError::DatabaseError(_) => true,
                _ => false,
            },
    {
        let folded = to_lowercase(register_user.username.as_str());
        // Fast-path rejection; the store's own check stays authoritative.
        if self.repo.find_by_name(&folded).is_some() {
            return Err(DomainError::UserAlreadyExists(folded));
        }
        let hash = match hash_password(register_user.password.as_str()) {
            Ok(h) => h,
            Err(e) => {
                return Err(DomainError::Internal(e));
            },
        };
        let user = User::new(folded, register_user.email, hash);
        let ghost prior = self.users();
        match self.repo.create(user) {
            Ok(created) => {
                proof {
                    let grown = self.users();
                    assert forall|i: int, j: int| 0 <= i < j < grown.len() implies {
                        &&& (#[trigger] grown[i]).id != (#[trigger] grown[j]).id
                        &&& grown[i].username != grown[j].username
                    } by {
                        if j == grown.len() - 1 {
                            assert(grown[i] == prior[i]);
                            assert(grown[j] == created@);
                            assert(!(prior[i].username == created@.username));
                            assert(!(prior[i].id == created@.id));
                        } else {
                            assert(grown[i] == prior[i] && grown[j] == prior[j]);
                        }
                    }
                }
                Ok(created)
            },
            Err(e) => Err(e),
        }
    }

    /// Logs a user in: folds the username, finds the record, checks the
    /// password against the stored hash, and issues a token carrying the
    /// stored identity. A token is owed, and returned, exactly when the
    /// store holds a matching record. An unknown username and a wrong
    /// password return the one same `Unauthorized` value; a stored hash
    /// the checker cannot read is corrupted storage, reported as
    /// `Internal`, never as a credential mismatch.
    pub fn login(&self, login_user: LoginUser, now: i64) -> (r: Result<String, DomainError>)
        requires
            self.inv(),
            0 <= now,
            now + TOKEN_LIFETIME_SECS <= i64::MAX,
        ensures
            r is Ok <==> login_acceptable(
                self.users(),
                lower_of(login_user.username@),
                login_user.password@,
            ),
            r matches Ok(t) ==> exists|i: int| {
                &&& 0 <= i < self.users().len()
                &&& (#[trigger] self.users()[i]).username == lower_of(login_user.username@)
                &&& password_matches(login_user.password@, self.users()[i].password_hash)
                &&& t@ == token_of(
                    self.users()[i].id,
                    self.users()[i].username,
                    now + TOKEN_LIFETIME_SECS,
                    self.secret(),
                )
                &&& claims_of(t@, self.secret()) == Some(
                    ClaimsView {
                        user_id: self.users()[i].id,
                        username: self.users()[i].username,
                        exp: now + TOKEN_LIFETIME_SECS,
                    },
                )
            },
            !name_taken(self.users(), lower_of(login_user.username@)) ==> r == Err::<
                String,
                DomainError,
            >(DomainError::Unauthorized),
            name_taken(self.users(), lower_of(login_user.username@)) ==> {
                &&& hash_readable(stored_hash(self.users(), lower_of(login_user.username@)))
                    && !login_acceptable(
                    self.users(),
                    lower_of(login_user.username@),
                    login_user.password@,
                ) ==> r == Err::<String, DomainError>(DomainError::Unauthorized)
                &&& !hash_readable(stored_hash(self.users(), lower_of(login_user.username@)))
                    ==> (r matches Err(e) && e matches DomainError::Internal(_))
            },
    {
        let folded = to_lowercase(login_user.username.as_str());
        let user = match self.repo.find_by_name(&folded) {
            Some(u) => u,
            None => {
                return Err(DomainError::Unauthorized);
            },
        };
        proof {
            let users = self.users();
            let j = choose|j: int| 0 <= j < users.len() && users[j] == user@;
            assert(0 <= j < users.len() && (#[trigger] users[j]).username == folded@);
            assert forall|i: int|
                0 <= i < users.len() && (#[trigger] users[i]).username == folded@ implies users[i]
                == user@ by {
                if i < j {
                    assert(users[i].username != users[j].username);
                } else if j < i {
                    assert(users[j].username != users[i].username);
                }
            }
            let c = choose|i: int| 0 <= i < users.len() && (#[trigger] users[i]).username
                == folded@;
            assert(users[c] == user@);
            assert(stored_hash(users, folded@) == user@.password_hash);
        }
        let is_valid = match verify_password(login_user.password.as_str(), user.password_hash.as_str()) {
            Ok(b) => b,
            Err(_) => {
                // Corrupted storage, not a credential mismatch.
                return Err(DomainError::Internal("stored credential hash is unreadable".to_owned()));
            },
        };
        if !is_valid {
            return Err(DomainError::Unauthorized);
        }
        match self.keys.generate_token(user.id, user.username.as_str(), now) {
            Ok(t) => Ok(t),
            Err(_) => {
                proof {
                    assert(false);
                }
                Err(DomainError::Unauthorized)
            },
        }
    }

    /// Resolves a token subject back into a live record, so a deleted
    /// user's still-valid token dies here.
    pub fn get_user(&self, user_id: i64) -> (r: Result<User, DomainError>)
        ensures
            r matches Ok(u) ==> u@.id == user_id as int && self.users().contains(u@),
            r is Ok <==> id_present(self.users(), user_id as int),
            r matches Err(e) ==> e matches DomainError::UserNotFound(_),
    {
        match self.repo.find_by_id(user_id) {
            Some(u) => Ok(u),
            None => Err(DomainError::UserNotFound("no user under this identifier".to_owned())),
        }
    }
}

/// Law: the two ways credentials can be bad — no record under the name, or
/// a record whose hash rejects the password — both falsify the login
/// condition, and [`AuthService::login`] answers a falsified condition over
/// intact storage (no record, or a readable stored hash) with exactly
/// `Err(Unauthorized)`: the two failures are outwardly one. Corrupted
/// storage — a stored hash the checker cannot read — is `Internal`, apart
/// by design.
pub proof fn lemma_login_uniform_rejection(users: Seq<UserView>, name: Seq<char>, password: Seq<char>)
    requires
        !name_taken(users, name) || (forall|i: int|
            0 <= i < users.len() && (#[trigger] users[i]).username == name
                ==> !password_matches(password, users[i].password_hash)),
    ensures
        !login_acceptable(users, name, password),
{
}

/// Law: a record created under the folded name makes the name taken in
/// the grown store, so a second registration of the same username meets
/// [`AuthService::register`]'s `UserAlreadyExists` case and leaves the
/// store — the first user's record included — unchanged.
pub proof fn lemma_second_registration_rejected(users: Seq<UserView>, created: UserView, username: Seq<char>)
    requires
        created.username == lower_of(username),
    ensures
        name_taken(users.push(created), lower_of(username)),
{
    assert(users.push(created)[users.len() as int] == created);
}

/// Law: the record a successful registration appends accepts the
/// registered password, so a login under the same username and password
/// finds the login condition satisfied in the grown store and is owed a
/// token by [`AuthService::login`].
pub proof fn lemma_registered_user_can_login(
    users: Seq<UserView>,
    created: UserView,
    username: Seq<char>,
    password: Seq<char>,
)
    requires
        created.username == lower_of(username),
        password_matches(password, created.password_hash),
    ensures
        login_acceptable(users.push(created), lower_of(username), password),
{
    assert(users.push(created)[users.len() as int] == created);
}

} // verus!
