//! The credential registry: the authoritative table of users and the
//! passkey credentials they own.
//!
//! The registry is the single source of truth the ceremony engine works
//! against; persisting it is left to the caller. Its well-formedness
//! invariant pins down what the protocol relies on: user ids and usernames
//! are unique, every credential is filed under its owner, and credential
//! ids are globally unique.

use vstd::prelude::*;

use crate::errors::Error;

verus! {

/// A stored passkey: the authenticator-assigned credential id, the opaque
/// verification key material, the monotonic signature counter and the
/// owning user's id.
#[derive(Debug)]
pub struct Credential {
    pub credential_id: Vec<u8>,
    pub public_key: Vec<u8>,
    pub signature_counter: u32,
    pub owner_id: u128,
}

impl Clone for Credential {
    fn clone(&self) -> (r: Self)
        ensures
            r.credential_id@ == self.credential_id@,
            r.public_key@ == self.public_key@,
            r.signature_counter == self.signature_counter,
            r.owner_id == self.owner_id,
    {
        Credential {
            credential_id: self.credential_id.clone(),
            public_key: self.public_key.clone(),
            signature_counter: self.signature_counter,
            owner_id: self.owner_id,
        }
    }
}

/// One user: the immutable 128-bit identity, the display username, and the
/// credentials registered for it.
#[derive(Debug)]
pub struct UserEntry {
    pub id: u128,
    pub username: String,
    pub credentials: Vec<Credential>,
}

/// The user/credential table.
#[derive(Debug)]
pub struct Registry {
    pub users: Vec<UserEntry>,
}

impl Registry {
    /// The entries, as a mathematical sequence.
    pub open spec fn entries(self) -> Seq<UserEntry> {
        self.users@
    }

    /// Is some entry registered under this id?
    pub open spec fn has_user_id(self, id: u128) -> bool {
        exists|i: int| 0 <= i < self.entries().len() && self.entries()[i].id == id
    }

    /// Is some entry registered under this username?
    pub open spec fn has_username(self, name: Seq<char>) -> bool {
        exists|i: int| 0 <= i < self.entries().len() && self.entries()[i].username@ == name
    }

    /// The index of the entry with this username.
    pub open spec fn name_index(self, name: Seq<char>) -> int {
        choose|i: int| 0 <= i < self.entries().len() && self.entries()[i].username@ == name
    }

    /// The index of the entry with this user id.
    pub open spec fn id_index(self, id: u128) -> int {
        choose|i: int| 0 <= i < self.entries().len() && self.entries()[i].id == id
    }

    /// The credential id filed at entry `i`, position `j`.
    pub open spec fn cred_id_at(self, i: int, j: int) -> Seq<u8> {
        self.entries()[i].credentials@[j].credential_id@
    }

    /// Does `(i, j)` address a stored credential?
    pub open spec fn cred_pos(self, i: int, j: int) -> bool {
        0 <= i < self.entries().len() && 0 <= j < self.entries()[i].credentials@.len()
    }

    /// Is a credential with this id stored anywhere?
    pub open spec fn has_credential(self, cid: Seq<u8>) -> bool {
        exists|i: int, j: int| self.cred_pos(i, j) && self.cred_id_at(i, j) == cid
    }

    /// Is this username registered with at least one credential? A known
    /// but credential-less entry does not count: it may retry registration.
    pub open spec fn credentialed(self, name: Seq<char>) -> bool {
        exists|i: int|
            0 <= i < self.entries().len() && self.entries()[i].username@ == name
                && self.entries()[i].credentials@.len() > 0
    }

    /// Well-formedness: unique ids, unique usernames, credentials filed
    /// under their owner, and globally unique credential ids.
    pub open spec fn wf(self) -> bool {
        &&& forall|i: int, j: int|
            0 <= i < j < self.entries().len() ==> #[trigger] self.entries()[i].id != #[trigger] self.entries()[j].id
        &&& forall|i: int, j: int|
            0 <= i < j < self.entries().len() ==> #[trigger] self.entries()[i].username@
                != #[trigger] self.entries()[j].username@
        &&& forall|i: int, j: int|
            self.cred_pos(i, j) ==> #[trigger] self.entries()[i].credentials@[j].owner_id
                == self.entries()[i].id
        &&& forall|i1: int, j1: int, i2: int, j2: int|
            self.cred_pos(i1, j1) && self.cred_pos(i2, j2) && #[trigger] self.cred_id_at(i1, j1)
                == #[trigger] self.cred_id_at(i2, j2) ==> i1 == i2 && j1 == j2
    }

    /// An empty registry.
    pub fn new() -> (r: Registry)
        ensures
            r.wf(),
            r.entries().len() == 0,
    {
        Registry { users: Vec::new() }
    }

    /// The index of the entry holding this username, if any.
    fn find_username(&self, username: &str) -> (r: Option<usize>)
        ensures
            match r {
                Some(i) => i < self.entries().len() && self.entries()[i as int].username@
                    == username@,
                None => !self.has_username(username@),
            },
    {
        let wanted: String = username.to_owned();
        let n = self.users.len();
        for i in 0..n
            invariant
                n == self.entries().len(),
                wanted@ == username@,
                forall|k: int| 0 <= k < i ==> self.entries()[k].username@ != username@,
        {
            if self.users[i].username == wanted {
                return Some(i);
            }
        }
        None
    }

    /// The index of the entry holding this user id, if any.
    fn find_user_id(&self, id: u128) -> (r: Option<usize>)
        ensures
            match r {
                Some(i) => i < self.entries().len() && self.entries()[i as int].id == id,
                None => !self.has_user_id(id),
            },
    {
        let n = self.users.len();
        for i in 0..n
            invariant
                n == self.entries().len(),
                forall|k: int| 0 <= k < i ==> self.entries()[k].id != id,
        {
            if self.users[i].id == id {
                return Some(i);
            }
        }
        None
    }

    /// Looks a username up and returns the unique id bound to it.
    pub fn get_user_id(&self, username: &str) -> (r: Option<u128>)
        requires
            self.wf(),
        ensures
            r is Some <==> self.has_username(username@),
            r matches Some(id) ==> id == self.entries()[self.name_index(username@)].id,
    {
        match self.find_username(username) {
            Some(i) => {
                proof {
                    let k = self.name_index(username@);
                    assert(self.entries()[k].username@ == username@);
                    assert(k == i);
                }
                Some(self.users[i].id)
            },
            None => None,
        }
    }

    /// Looks a user id up and returns the username bound to it.
    pub fn get_username(&self, user_id: u128) -> (r: Option<String>)
        requires
            self.wf(),
        ensures
            r is Some <==> self.has_user_id(user_id),
            r matches Some(name) ==> name@ == self.entries()[self.id_index(user_id)].username@,
    {
        match self.find_user_id(user_id) {
            Some(i) => {
                proof {
                    let k = self.id_index(user_id);
                    assert(self.entries()[k].id == user_id);
                    assert(k == i);
                }
                Some(self.users[i].username.clone())
            },
            None => None,
        }
    }

    /// Creates a user entry with no credentials yet. Fails with `UserExists`
    /// when the username or the id is already taken.
    pub fn store_username(&mut self, username: &str, user_id: u128) -> (r: Result<(), Error>)
        requires
            old(self).wf(),
        ensures
            final(self).wf(),
            r is Ok <==> !old(self).has_username(username@) && !old(self).has_user_id(user_id),
            r matches Err(e) ==> e == Error::UserExists && *final(self) == *old(self),
            r is Ok ==> final(self).entries().len() == old(self).entries().len() + 1
                && (forall|k: int|
                    0 <= k < old(self).entries().len() ==> final(self).entries()[k] == old(
                        self,
                    ).entries()[k])
                && final(self).entries()[old(self).entries().len() as int].id == user_id
                && final(self).entries()[old(self).entries().len() as int].username@ == username@
                && final(self).entries()[old(self).entries().len() as int].credentials@.len()
                    == 0,
    {
        if self.find_username(username).is_some() {
            return Err(Error::UserExists);
        }
        if self.find_user_id(user_id).is_some() {
            return Err(Error::UserExists);
        }
        let entry = UserEntry { id: user_id, username: username.to_owned(), credentials: Vec::new() };
        self.users.push(entry);
        proof {
            assert forall|i: int, j: int| self.cred_pos(i, j) implies self.entries()[i].credentials@[j].owner_id
                == self.entries()[i].id by {
                assert(old(self).cred_pos(i, j));
            }
            assert forall|i1: int, j1: int, i2: int, j2: int|
                self.cred_pos(i1, j1) && self.cred_pos(i2, j2) && self.cred_id_at(i1, j1)
                    == self.cred_id_at(i2, j2) implies i1 == i2 && j1 == j2 by {
                assert(old(self).cred_pos(i1, j1));
                assert(old(self).cred_pos(i2, j2));
                assert(old(self).cred_id_at(i1, j1) == self.cred_id_at(i1, j1));
                assert(old(self).cred_id_at(i2, j2) == self.cred_id_at(i2, j2));
            }
        }
        Ok(())
    }

    /// The position of the credential with this id, if it is stored.
    fn find_credential(&self, cid: &Vec<u8>) -> (r: Option<(usize, usize)>)
        ensures
            match r {
                Some(p) => self.cred_pos(p.0 as int, p.1 as int) && self.cred_id_at(
                    p.0 as int,
                    p.1 as int,
                ) == cid@,
                None => !self.has_credential(cid@),
            },
    {
        let n = self.users.len();
        for i in 0..n
            invariant
                n == self.entries().len(),
                forall|a: int, b: int|
                    self.cred_pos(a, b) && a < i ==> #[trigger] self.cred_id_at(a, b) != cid@,
        {
            let m = self.users[i].credentials.len();
            for j in 0..m
                invariant
                    n == self.entries().len(),
                    i < n,
                    m == self.entries()[i as int].credentials@.len(),
                    forall|a: int, b: int|
                        self.cred_pos(a, b) && a < i ==> #[trigger] self.cred_id_at(a, b) != cid@,
                    forall|b: int|
                        0 <= b < j ==> #[trigger] self.cred_id_at(i as int, b) != cid@,
            {
                if compare_bytes(&self.users[i].credentials[j].credential_id, cid) {
                    return Some((i, j));
                }
            }
        }
        None
    }

    /// Does this username resolve to a user who already owns at least one
    /// credential? Such a username may not register again.
    pub fn has_registered_user(&self, username: &str) -> (r: bool)
        requires
            self.wf(),
        ensures
            r == self.credentialed(username@),
    {
        match self.find_username(username) {
            Some(i) => {
                let r = self.users[i].credentials.len() > 0;
                proof {
                    if !r && self.credentialed(username@) {
                        let k = choose|k: int|
                            0 <= k < self.entries().len() && self.entries()[k].username@
                                == username@ && self.entries()[k].credentials@.len() > 0;
                        assert(k == i);
                    }
                }
                r
            },
            None => false,
        }
    }

    /// Returns the id already bound to the username, or the freshly minted
    /// one if the username is new. Fails when the minted id is already in
    /// use by someone else, which only a collision of random ids can cause.
    pub fn resolve_or_create_id(&self, username: &str, minted: u128) -> (r: Result<u128, Error>)
        requires
            self.wf(),
        ensures
            self.has_username(username@) ==> r == Ok::<u128, Error>(
                self.entries()[self.name_index(username@)].id,
            ),
            !self.has_username(username@) && !self.has_user_id(minted) ==> r == Ok::<
                u128,
                Error,
            >(minted),
            !self.has_username(username@) && self.has_user_id(minted) ==> r == Err::<
                u128,
                Error,
            >(Error::Unknown),
    {
        match self.get_user_id(username) {
            Some(id) => Ok(id),
            None => {
                if self.find_user_id(minted).is_some() {
                    Err(Error::Unknown)
                } else {
                    Ok(minted)
                }
            },
        }
    }

    /// The ids of the credentials this user already owns, to hint the
    /// authenticator away from registering one of them again.
    pub fn excluded_credentials(&self, user_id: u128) -> (r: Vec<Vec<u8>>)
        requires
            self.wf(),
        ensures
            self.has_user_id(user_id) ==> r@.len() == self.entries()[self.id_index(
                user_id,
            )].credentials@.len() && (forall|j: int|
                0 <= j < r@.len() ==> #[trigger] r@[j]@ == self.cred_id_at(
                    self.id_index(user_id),
                    j,
                )),
            !self.has_user_id(user_id) ==> r@.len() == 0,
    {
        let mut out: Vec<Vec<u8>> = Vec::new();
        let i = match self.find_user_id(user_id) {
            Some(i) => i,
            None => {
                return out;
            },
        };
        proof {
            let k = self.id_index(user_id);
            assert(self.entries()[k].id == user_id);
            assert(k == i);
        }
        let m = self.users[i].credentials.len();
        for j in 0..m
            invariant
                i < self.entries().len(),
                i == self.id_index(user_id),
                m == self.entries()[i as int].credentials@.len(),
                out@.len() == j,
                forall|b: int| 0 <= b < j ==> #[trigger] out@[b]@ == self.cred_id_at(i as int, b),
        {
            out.push(self.users[i].credentials[j].credential_id.clone());
        }
        out
    }

    /// The full credential set for authentication. Fails with
    /// `UserHasNoCredentials` when the user owns none, and with
    /// `UserNotFound` when the id resolves to nobody.
    pub fn allowed_credentials(&self, user_id: u128) -> (r: Result<Vec<Credential>, Error>)
        requires
            self.wf(),
        ensures
            r is Ok <==> self.has_user_id(user_id) && self.entries()[self.id_index(
                user_id,
            )].credentials@.len() > 0,
            r matches Ok(v) ==> v@.len() == self.entries()[self.id_index(
                user_id,
            )].credentials@.len() && (forall|j: int|
                0 <= j < v@.len() ==> creds_agree(
                    #[trigger] v@[j],
                    self.entries()[self.id_index(user_id)].credentials@[j],
                )),
            !self.has_user_id(user_id) ==> r == Err::<Vec<Credential>, Error>(Error::UserNotFound),
            self.has_user_id(user_id) && self.entries()[self.id_index(user_id)].credentials@.len()
                == 0 ==> r == Err::<Vec<Credential>, Error>(Error::UserHasNoCredentials),
    {
        let i = match self.find_user_id(user_id) {
            Some(i) => i,
            None => {
                return Err(Error::UserNotFound);
            },
        };
        proof {
            let k = self.id_index(user_id);
            assert(self.entries()[k].id == user_id);
            assert(k == i);
        }
        let m = self.users[i].credentials.len();
        if m == 0 {
            return Err(Error::UserHasNoCredentials);
        }
        let mut out: Vec<Credential> = Vec::new();
        for j in 0..m
            invariant
                i < self.entries().len(),
                i == self.id_index(user_id),
                m == self.entries()[i as int].credentials@.len(),
                out@.len() == j,
                forall|b: int|
                    0 <= b < j ==> creds_agree(
                        #[trigger] out@[b],
                        self.entries()[i as int].credentials@[b],
                    ),
        {
            out.push(self.users[i].credentials[j].clone());
        }
        Ok(out)
    }

    /// Files a freshly verified credential under its owner, creating the
    /// user entry if this is the user's first credential. Rejects a
    /// credential id that is already stored anywhere, and a new username
    /// that is already bound to a different id.
    pub fn record_credential(&mut self, username: &str, user_id: u128, credential: Credential) -> (r:
        Result<(), Error>)
        requires
            old(self).wf(),
            credential.owner_id == user_id,
        ensures
            final(self).wf(),
            r is Err ==> *final(self) == *old(self),
            r matches Err(e) ==> (e == Error::BadRequest <==> old(self).has_credential(
                credential.credential_id@,
            )),
            r == Err::<(), Error>(Error::UserExists) <==> !old(self).has_credential(
                credential.credential_id@,
            ) && !old(self).has_user_id(user_id) && old(self).has_username(username@),
            r is Ok <==> !old(self).has_credential(credential.credential_id@) && (old(
                self,
            ).has_user_id(user_id) || !old(self).has_username(username@)),
            r is Ok && old(self).has_user_id(user_id) ==> credential_appended(
                *old(self),
                *final(self),
                user_id,
                credential,
            ),
            r is Ok && !old(self).has_user_id(user_id) ==> user_added(
                *old(self),
                *final(self),
                username@,
                user_id,
                credential,
            ),
    {
        if self.find_credential(&credential.credential_id).is_some() {
            return Err(Error::BadRequest);
        }
        match self.find_user_id(user_id) {
            Some(i) => {
                proof {
                    let k = self.id_index(user_id);
                    assert(self.entries()[k].id == user_id);
                    assert(k == i);
                }
                let ghost pre = *self;
                let cid = credential.credential_id.clone();
                self.users[i].credentials.push(credential);
                proof {
                    lemma_wf_after_push(pre, *self, i as int, credential);
                }
                Ok(())
            },
            None => {
                if self.find_username(username).is_some() {
                    return Err(Error::UserExists);
                }
                let ghost pre = *self;
                let mut creds: Vec<Credential> = Vec::new();
                creds.push(credential);
                let entry = UserEntry {
                    id: user_id,
                    username: username.to_owned(),
                    credentials: creds,
                };
                self.users.push(entry);
                proof {
                    lemma_wf_after_new_entry(pre, *self, user_id, credential);
                }
                Ok(())
            },
        }
    }

    /// Updates the stored signature counter of this user's credential, but
    /// only to a strictly greater value: a presented counter at or below
    /// the stored one means a replayed or cloned assertion and fails with
    /// `CloneDetected`. An id that matches none of the user's credentials
    /// fails with `BadRequest`.
    pub fn bump_counter(&mut self, user_id: u128, credential_id: &Vec<u8>, new_counter: u32) -> (r:
        Result<(), Error>)
        requires
            old(self).wf(),
        ensures
            final(self).wf(),
            r is Err ==> *final(self) == *old(self),
            r == Err::<(), Error>(Error::BadRequest) <==> !(exists|i: int, j: int|
                old(self).cred_pos(i, j) && old(self).cred_id_at(i, j) == credential_id@ && old(
                    self,
                ).entries()[i].id == user_id),
            r == Err::<(), Error>(Error::CloneDetected) <==> (exists|i: int, j: int|
                old(self).cred_pos(i, j) && old(self).cred_id_at(i, j) == credential_id@ && old(
                    self,
                ).entries()[i].id == user_id && new_counter <= old(
                    self,
                ).entries()[i].credentials@[j].signature_counter),
            r is Ok <==> (exists|i: int, j: int|
                old(self).cred_pos(i, j) && old(self).cred_id_at(i, j) == credential_id@ && old(
                    self,
                ).entries()[i].id == user_id && new_counter > old(
                    self,
                ).entries()[i].credentials@[j].signature_counter),
            r is Ok ==> exists|i: int, j: int|
                {
                    &&& old(self).cred_pos(i, j)
                    &&& old(self).cred_id_at(i, j) == credential_id@
                    &&& old(self).entries()[i].id == user_id
                    &&& new_counter > old(self).entries()[i].credentials@[j].signature_counter
                    &&& counter_updated(*old(self), *final(self), i, j, new_counter)
                },
    {
        let p = match self.find_credential(credential_id) {
            Some(p) => p,
            None => {
                return Err(Error::BadRequest);
            },
        };
        let (i, j) = p;
        if self.users[i].id != user_id {
            proof {
                assert forall|a: int, b: int|
                    self.cred_pos(a, b) && self.cred_id_at(a, b) == credential_id@ implies !(
                self.entries()[a].id == user_id) by {
                    assert(a == i as int && b == j as int);
                }
            }
            return Err(Error::BadRequest);
        }
        let stored = self.users[i].credentials[j].signature_counter;
        if new_counter <= stored {
            proof {
                assert forall|a: int, b: int|
                    self.cred_pos(a, b) && self.cred_id_at(a, b) == credential_id@ && self.entries()[a].id
                        == user_id implies new_counter
                    <= self.entries()[a].credentials@[b].signature_counter by {
                    assert(a == i as int && b == j as int);
                }
            }
            return Err(Error::CloneDetected);
        }
        let ghost pre = *self;
        let owner = self.users[i].credentials[j].owner_id;
        let key = self.users[i].credentials[j].public_key.clone();
        let cid = self.users[i].credentials[j].credential_id.clone();
        let updated = Credential {
            credential_id: cid,
            public_key: key,
            signature_counter: new_counter,
            owner_id: owner,
        };
        self.users[i].credentials.set(j, updated);
        proof {
            lemma_wf_after_counter_update(pre, *self, i as int, j as int, new_counter);
            assert(counter_updated(pre, *self, i as int, j as int, new_counter));
        }
        Ok(())
    }
}

/// The registry `post` is `pre` with exactly the credential `c` appended to
/// the entry of the user `id`, and nothing else changed.
pub open spec fn credential_appended(pre: Registry, post: Registry, id: u128, c: Credential) -> bool {
    let k = pre.id_index(id);
    &&& pre.has_user_id(id)
    &&& post.entries().len() == pre.entries().len()
    &&& forall|i: int|
        0 <= i < pre.entries().len() && i != k ==> post.entries()[i] == pre.entries()[i]
    &&& post.entries()[k].id == pre.entries()[k].id
    &&& post.entries()[k].username == pre.entries()[k].username
    &&& post.entries()[k].credentials@ == pre.entries()[k].credentials@.push(c)
}

/// The registry `post` is `pre` with exactly one new entry appended: a new
/// user under `name` and `id` owning the single credential `c`.
pub open spec fn user_added(
    pre: Registry,
    post: Registry,
    name: Seq<char>,
    id: u128,
    c: Credential,
) -> bool {
    &&& post.entries().len() == pre.entries().len() + 1
    &&& forall|i: int| 0 <= i < pre.entries().len() ==> post.entries()[i] == pre.entries()[i]
    &&& post.entries()[pre.entries().len() as int].id == id
    &&& post.entries()[pre.entries().len() as int].username@ == name
    &&& post.entries()[pre.entries().len() as int].credentials@ =~= seq![c]
}

/// A finished registration recorded exactly one credential `c`: appended to
/// the entry of a user already known under `id`, or filed in a fresh
/// single-credential entry under `name` and `id` otherwise.
pub open spec fn registration_recorded(
    pre: Registry,
    post: Registry,
    name: Seq<char>,
    id: u128,
    c: Credential,
) -> bool {
    if pre.has_user_id(id) {
        credential_appended(pre, post, id, c)
    } else {
        user_added(pre, post, name, id, c)
    }
}

/// Two credentials agree field for field.
pub open spec fn creds_agree(a: Credential, b: Credential) -> bool {
    &&& a.credential_id@ == b.credential_id@
    &&& a.public_key@ == b.public_key@
    &&& a.signature_counter == b.signature_counter
    &&& a.owner_id == b.owner_id
}

/// The registry `post` is `pre` with only the signature counter of the
/// credential at `(i, j)` changed, to `c`.
pub open spec fn counter_updated(pre: Registry, post: Registry, i: int, j: int, c: u32) -> bool {
    &&& pre.cred_pos(i, j)
    &&& post.entries().len() == pre.entries().len()
    &&& forall|a: int| 0 <= a < pre.entries().len() && a != i ==> post.entries()[a] == pre.entries()[a]
    &&& post.entries()[i].id == pre.entries()[i].id
    &&& post.entries()[i].username == pre.entries()[i].username
    &&& post.entries()[i].credentials@.len() == pre.entries()[i].credentials@.len()
    &&& forall|b: int|
        0 <= b < pre.entries()[i].credentials@.len() && b != j ==> post.entries()[i].credentials@[b]
            == pre.entries()[i].credentials@[b]
    &&& creds_agree(
        post.entries()[i].credentials@[j],
        Credential {
            credential_id: pre.entries()[i].credentials@[j].credential_id,
            public_key: pre.entries()[i].credentials@[j].public_key,
            signature_counter: c,
            owner_id: pre.entries()[i].credentials@[j].owner_id,
        },
    )
}

/// A registration for a username never seen before yields exactly one new
/// user owning exactly one credential: one entry is appended, every prior
/// entry is untouched, and the username is registered afterwards — so a
/// second registration start for it meets `UserExists`.
pub proof fn lemma_new_user_registration(
    pre: Registry,
    post: Registry,
    name: Seq<char>,
    id: u128,
    c: Credential,
)
    requires
        pre.wf(),
        !pre.has_username(name),
        !pre.has_user_id(id),
        registration_recorded(pre, post, name, id, c),
    ensures
        post.entries().len() == pre.entries().len() + 1,
        forall|i: int| 0 <= i < pre.entries().len() ==> post.entries()[i] == pre.entries()[i],
        post.entries()[pre.entries().len() as int].username@ == name,
        post.entries()[pre.entries().len() as int].id == id,
        post.entries()[pre.entries().len() as int].credentials@.len() == 1,
        post.credentialed(name),
{
    let k = pre.entries().len() as int;
    assert(post.entries()[k].username@ == name && post.entries()[k].credentials@.len() == 1);
}

/// The stored signature counter of a credential strictly increases across
/// every successful counter bump, so it is non-decreasing across any
/// sequence of successful authentications.
pub proof fn lemma_counter_monotonic(pre: Registry, post: Registry, i: int, j: int, c: u32)
    requires
        pre.cred_pos(i, j),
        c > pre.entries()[i].credentials@[j].signature_counter,
        counter_updated(pre, post, i, j, c),
    ensures
        post.cred_pos(i, j),
        post.entries()[i].credentials@[j].signature_counter == c,
        post.entries()[i].credentials@[j].signature_counter > pre.entries()[i].credentials@[j].signature_counter,
{
}

/// A presented counter at or below the stored one always fails, whatever
/// the signature was worth: for a stored credential and any `c` at or
/// below its counter, the success condition of `bump_counter` is
/// unsatisfiable and its clone-detection condition holds, so the call
/// returns `CloneDetected`.
pub proof fn lemma_replay_rejected(r: Registry, i: int, j: int, c: u32)
    requires
        r.wf(),
        r.cred_pos(i, j),
        c <= r.entries()[i].credentials@[j].signature_counter,
    ensures
        !(exists|a: int, b: int|
            r.cred_pos(a, b) && r.cred_id_at(a, b) == r.cred_id_at(i, j) && r.entries()[a].id
                == r.entries()[i].id && c > r.entries()[a].credentials@[b].signature_counter),
        exists|a: int, b: int|
            r.cred_pos(a, b) && r.cred_id_at(a, b) == r.cred_id_at(i, j) && r.entries()[a].id
                == r.entries()[i].id && c <= r.entries()[a].credentials@[b].signature_counter,
{
    assert forall|a: int, b: int|
        r.cred_pos(a, b) && r.cred_id_at(a, b) == r.cred_id_at(i, j) implies a == i && b == j by {}
    assert(r.cred_pos(i, j) && r.cred_id_at(i, j) == r.cred_id_at(i, j) && r.entries()[i].id
        == r.entries()[i].id && c <= r.entries()[i].credentials@[j].signature_counter);
}

/// Compares two byte strings for equality.
fn compare_bytes(a: &Vec<u8>, b: &Vec<u8>) -> (r: bool)
    ensures
        r == (a@ == b@),
{
    if a.len() != b.len() {
        proof {
            assert(a@ != b@);
        }
        return false;
    }
    let n = a.len();
    for i in 0..n
        invariant
            n == a@.len() == b@.len(),
            forall|k: int| 0 <= k < i ==> a@[k] == b@[k],
    {
        if a[i] != b[i] {
            return false;
        }
    }
    proof {
        assert(a@ =~= b@);
    }
    true
}

/// Appending a credential with a fresh id under its owner keeps the
/// registry well formed.
proof fn lemma_wf_after_push(pre: Registry, post: Registry, k: int, credential: Credential)
    requires
        pre.wf(),
        0 <= k < pre.entries().len(),
        credential.owner_id == pre.entries()[k].id,
        !pre.has_credential(credential.credential_id@),
        post.entries().len() == pre.entries().len(),
        forall|i: int| 0 <= i < pre.entries().len() && i != k ==> post.entries()[i] == pre.entries()[i],
        post.entries()[k].id == pre.entries()[k].id,
        post.entries()[k].username == pre.entries()[k].username,
        post.entries()[k].credentials@ == pre.entries()[k].credentials@.push(credential),
    ensures
        post.wf(),
{
    let newj = pre.entries()[k].credentials@.len() as int;
    assert forall|i: int, j: int| post.cred_pos(i, j) implies #[trigger] post.entries()[i].credentials@[j].owner_id
        == post.entries()[i].id by {
        if i == k && j == newj {
        } else {
            assert(pre.cred_pos(i, j));
        }
    }
    assert forall|i1: int, j1: int, i2: int, j2: int|
        post.cred_pos(i1, j1) && post.cred_pos(i2, j2) && #[trigger] post.cred_id_at(i1, j1)
            == #[trigger] post.cred_id_at(i2, j2) implies i1 == i2 && j1 == j2 by {
        if i1 == k && j1 == newj {
            if !(i2 == k && j2 == newj) {
                assert(pre.cred_pos(i2, j2));
                assert(pre.cred_id_at(i2, j2) == post.cred_id_at(i2, j2));
                assert(pre.has_credential(post.cred_id_at(i2, j2)));
            }
        } else if i2 == k && j2 == newj {
            assert(pre.cred_pos(i1, j1));
            assert(pre.cred_id_at(i1, j1) == post.cred_id_at(i1, j1));
            assert(pre.has_credential(post.cred_id_at(i1, j1)));
        } else {
            assert(pre.cred_pos(i1, j1));
            assert(pre.cred_pos(i2, j2));
            assert(pre.cred_id_at(i1, j1) == post.cred_id_at(i1, j1));
            assert(pre.cred_id_at(i2, j2) == post.cred_id_at(i2, j2));
        }
    }
}

/// Appending a whole new entry, with a fresh id, a fresh username and one
/// fresh credential, keeps the registry well formed.
proof fn lemma_wf_after_new_entry(pre: Registry, post: Registry, user_id: u128, credential: Credential)
    requires
        pre.wf(),
        !pre.has_user_id(user_id),
        !pre.has_credential(credential.credential_id@),
        credential.owner_id == user_id,
        post.entries().len() == pre.entries().len() + 1,
        forall|i: int| 0 <= i < pre.entries().len() ==> post.entries()[i] == pre.entries()[i],
        post.entries()[pre.entries().len() as int].id == user_id,
        !pre.has_username(post.entries()[pre.entries().len() as int].username@),
        post.entries()[pre.entries().len() as int].credentials@ =~= seq![credential],
    ensures
        post.wf(),
{
    let newi = pre.entries().len() as int;
    assert forall|i: int, j: int| post.cred_pos(i, j) implies #[trigger] post.entries()[i].credentials@[j].owner_id
        == post.entries()[i].id by {
        if i == newi {
            assert(j == 0);
        } else {
            assert(pre.cred_pos(i, j));
        }
    }
    assert forall|i1: int, j1: int, i2: int, j2: int|
        post.cred_pos(i1, j1) && post.cred_pos(i2, j2) && #[trigger] post.cred_id_at(i1, j1)
            == #[trigger] post.cred_id_at(i2, j2) implies i1 == i2 && j1 == j2 by {
        if i1 == newi {
            assert(j1 == 0);
            if i2 != newi {
                assert(pre.cred_pos(i2, j2));
                assert(pre.cred_id_at(i2, j2) == post.cred_id_at(i2, j2));
                assert(pre.has_credential(post.cred_id_at(i2, j2)));
            }
        } else if i2 == newi {
            assert(j2 == 0);
            assert(pre.cred_pos(i1, j1));
            assert(pre.cred_id_at(i1, j1) == post.cred_id_at(i1, j1));
            assert(pre.has_credential(post.cred_id_at(i1, j1)));
        } else {
            assert(pre.cred_pos(i1, j1));
            assert(pre.cred_pos(i2, j2));
            assert(pre.cred_id_at(i1, j1) == post.cred_id_at(i1, j1));
            assert(pre.cred_id_at(i2, j2) == post.cred_id_at(i2, j2));
        }
    }
}

/// Rewriting one credential in place, with its id, key and owner kept,
/// keeps the registry well formed.
proof fn lemma_wf_after_counter_update(pre: Registry, post: Registry, k: int, l: int, c: u32)
    requires
        pre.wf(),
        pre.cred_pos(k, l),
        post.entries().len() == pre.entries().len(),
        forall|i: int| 0 <= i < pre.entries().len() && i != k ==> post.entries()[i] == pre.entries()[i],
        post.entries()[k].id == pre.entries()[k].id,
        post.entries()[k].username == pre.entries()[k].username,
        post.entries()[k].credentials@.len() == pre.entries()[k].credentials@.len(),
        forall|b: int|
            0 <= b < pre.entries()[k].credentials@.len() && b != l ==> post.entries()[k].credentials@[b]
                == pre.entries()[k].credentials@[b],
        post.entries()[k].credentials@[l].credential_id@ == pre.entries()[k].credentials@[l].credential_id@,
        post.entries()[k].credentials@[l].owner_id == pre.entries()[k].credentials@[l].owner_id,
    ensures
        post.wf(),
{
    assert forall|i: int, j: int| post.cred_pos(i, j) implies #[trigger] post.entries()[i].credentials@[j].owner_id
        == post.entries()[i].id by {
        assert(pre.cred_pos(i, j));
        if i == k && j == l {
        }
    }
    assert forall|i1: int, j1: int, i2: int, j2: int|
        post.cred_pos(i1, j1) && post.cred_pos(i2, j2) && #[trigger] post.cred_id_at(i1, j1)
            == #[trigger] post.cred_id_at(i2, j2) implies i1 == i2 && j1 == j2 by {
        assert(pre.cred_pos(i1, j1));
        assert(pre.cred_pos(i2, j2));
        assert(pre.cred_id_at(i1, j1) == post.cred_id_at(i1, j1));
        assert(pre.cred_id_at(i2, j2) == post.cred_id_at(i2, j2));
    }
}

} // verus!

