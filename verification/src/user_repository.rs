//! The user store: persistence of user records with unique identifiers
//! and unique (pre-folded) usernames.
//!
//! The trait is the store's contract; the in-memory implementation backs
//! the verified services and the tests. Lookups expect their key already
//! folded: folding happens once, at the service boundary.

use vstd::prelude::*;

use crate::error::DomainError;
use crate::user::{User, UserView};

verus! {

/// Well-formedness of a store's contents: no two records share an
/// identifier or a username.
pub open spec fn users_wf(users: Seq<UserView>) -> bool {
    forall|i: int, j: int|
        0 <= i < j < users.len() ==> {
            &&& (#[trigger] users[i]).id != (#[trigger] users[j]).id
            &&& users[i].username != users[j].username
        }
}

/// Whether some record carries `name` as its username.
pub open spec fn name_taken(users: Seq<UserView>, name: Seq<char>) -> bool {
    exists|i: int| 0 <= i < users.len() && (#[trigger] users[i]).username == name
}

/// Whether some record carries `id` as its identifier.
pub open spec fn id_present(users: Seq<UserView>, id: int) -> bool {
    exists|i: int| 0 <= i < users.len() && (#[trigger] users[i]).id == id
}

/// What a user store promises. `users()` is the stored records in
/// insertion order; the store enforces username uniqueness at creation,
/// as the authoritative guard against double registration.
pub trait UserRepository: Sized {
    /// The stored records, in insertion order.
    spec fn users(&self) -> Seq<UserView>;

    /// Persists `user` under a fresh identifier. The uniqueness check
    /// precedes everything else, so a taken username is reported as
    /// `UserAlreadyExists` whatever else might have failed; any other
    /// failure is internal and leaves the store unchanged.
    fn create(&mut self, user: User) -> (r: Result<User, DomainError>)
        ensures
            r matches Ok(created) ==> {
                &&& created@.username == user@.username
                &&& created@.email == user@.email
                &&& created@.password_hash == user@.password_hash
                &&& !name_taken(old(self).users(), user@.username)
                &&& !id_present(old(self).users(), created@.id)
                &&& final(self).users() == old(self).users().push(created@)
            },
            name_taken(old(self).users(), user@.username) ==> (r matches Err(e)
                && e matches DomainError::UserAlreadyExists(_)),
            r is Err ==> final(self).users() == old(self).users(),
            r matches Err(e) ==> match e {
                DomainError::UserAlreadyExists(_) => name_taken(old(self).users(), user@.username),
                DomainError::Internal(_) => true,
                DomainError::DatabaseError(_) => true,
                _ => false,
            },
    ;

    /// Looks a record up by exact (pre-folded) username.
    fn find_by_name(&self, name: &String) -> (r: Option<User>)
        ensures
            r is Some <==> name_taken(self.users(), name@),
            r matches Some(u) ==> u@.username == name@ && self.users().contains(u@),
    ;

    /// Looks a record up by identifier.
    fn find_by_id(&self, id: i64) -> (r: Option<User>)
        ensures
            r is Some <==> id_present(self.users(), id as int),
            r matches Some(u) ==> u@.id == id as int && self.users().contains(u@),
    ;
}

/// The in-memory user store: a vector of records plus the next free
/// identifier. Its invariant keeps identifiers and usernames unique and
/// every stored identifier below `next_id`, so assigned identifiers are
/// always fresh.
pub struct InMemUserRepository {
    users: Vec<User>,
    next_id: i64,
}

impl InMemUserRepository {
    #[verifier::type_invariant]
    spec fn inv(&self) -> bool {
        &&& users_wf(self.users())
        &&& forall|i: int|
            0 <= i < self.users().len() ==> (#[trigger] self.users()[i]).id < self.next_id as int
    }

    /// An empty store; assigned identifiers start at 1.
    pub fn new() -> (r: Self)
        ensures
            r.users() == Seq::<UserView>::empty(),
    {
        let r = InMemUserRepository { users: Vec::new(), next_id: 1 };
        proof {
            assert(r.users() =~= Seq::<UserView>::empty());
        }
        r
    }
}

impl UserRepository for InMemUserRepository {
    closed spec fn users(&self) -> Seq<UserView> {
        self.users@.map_values(|u: User| u@)
    }

    fn create(&mut self, user: User) -> (r: Result<User, DomainError>) {
        proof {
            use_type_invariant(&*self);
        }
        if self.find_by_name(&user.username).is_some() {
            return Err(DomainError::UserAlreadyExists(user.username));
        }
        if self.next_id == i64::MAX {
            return Err(DomainError::Internal("identifier space exhausted".to_owned()));
        }
        let id = self.next_id;
        let created = User {
            id,
            username: user.username,
            email: user.email,
            password_hash: user.password_hash,
            created_at: user.created_at,
        };
        let result = created.duplicate();
        let ghost prior = self.users();
        let mut users: Vec<User> = Vec::new();
        std::mem::swap(&mut users, &mut self.users);
        users.push(created);
        self.next_id = id + 1;
        proof {
            assert(users@.map_values(|u: User| u@) =~= prior.push(result@));
        }
        self.users = users;
        Ok(result)
    }

    fn find_by_name(&self, name: &String) -> (r: Option<User>) {
        let mut k: usize = 0;
        while k < self.users.len()
            invariant
                k <= self.users.len(),
                forall|j: int| 0 <= j < k ==> (#[trigger] self.users()[j]).username != name@,
            decreases self.users.len() - k,
        {
            if self.users[k].username == *name {
                let found = self.users[k].duplicate();
                proof {
                    assert(self.users().contains(found@)) by {
                        assert(self.users()[k as int] == found@);
                    }
                }
                return Some(found);
            }
            k += 1;
        }
        None
    }

    fn find_by_id(&self, id: i64) -> (r: Option<User>) {
        let mut k: usize = 0;
        while k < self.users.len()
            invariant
                k <= self.users.len(),
                forall|j: int| 0 <= j < k ==> (#[trigger] self.users()[j]).id != id as int,
            decreases self.users.len() - k,
        {
            if self.users[k].id == id {
                let found = self.users[k].duplicate();
                proof {
                    assert(self.users().contains(found@)) by {
                        assert(self.users()[k as int] == found@);
                    }
                }
                return Some(found);
            }
            k += 1;
        }
        None
    }
}

} // verus!
