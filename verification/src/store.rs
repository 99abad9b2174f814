use vstd::prelude::*;

use crate::account::{Account, AccountView, User};
use crate::error::Error;

verus! {

/// The credential store's invariant: identifiers, usernames and emails are
/// each unique across all accounts.
pub open spec fn store_wf(s: Seq<AccountView>) -> bool {
    (forall|i: int, j: int|
        0 <= i < s.len() && 0 <= j < s.len() && i != j ==> (#[trigger] s[i].id) != (
        #[trigger] s[j].id)) && (forall|i: int, j: int|
        0 <= i < s.len() && 0 <= j < s.len() && i != j ==> (#[trigger] s[i].username) != (
        #[trigger] s[j].username)) && (forall|i: int, j: int|
        0 <= i < s.len() && 0 <= j < s.len() && i != j ==> (#[trigger] s[i].email) != (
        #[trigger] s[j].email))
}

pub open spec fn has_username(s: Seq<AccountView>, username: Seq<char>) -> bool {
    exists|i: int| 0 <= i < s.len() && (#[trigger] s[i].username) == username
}

pub open spec fn has_email(s: Seq<AccountView>, email: Seq<char>) -> bool {
    exists|i: int| 0 <= i < s.len() && (#[trigger] s[i].email) == email
}

pub open spec fn has_id(s: Seq<AccountView>, id: u128) -> bool {
    exists|i: int| 0 <= i < s.len() && (#[trigger] s[i].id) == id
}

/// The position of the account that carries `username`; meaningful only when
/// `has_username` holds, and unique under `store_wf`.
pub open spec fn username_index(s: Seq<AccountView>, username: Seq<char>) -> int {
    choose|i: int| 0 <= i < s.len() && (#[trigger] s[i].username) == username
}

pub open spec fn id_index(s: Seq<AccountView>, id: u128) -> int {
    choose|i: int| 0 <= i < s.len() && (#[trigger] s[i].id) == id
}

/// The unique account that carries `username` (under `store_wf`).
pub open spec fn account_of(s: Seq<AccountView>, username: Seq<char>) -> AccountView {
    s[username_index(s, username)]
}

/// The unique account that carries `id` (under `store_wf`).
pub open spec fn account_of_id(s: Seq<AccountView>, id: u128) -> AccountView {
    s[id_index(s, id)]
}

/// In a well-formed store, any position whose account carries `username` is
/// the position that `username_index` names.
pub proof fn lemma_username_index(s: Seq<AccountView>, username: Seq<char>, i: int)
    requires
        store_wf(s),
        0 <= i < s.len(),
        s[i].username == username,
    ensures
        has_username(s, username),
        username_index(s, username) == i,
        account_of(s, username) == s[i],
{
    assert(has_username(s, username));
    let j = username_index(s, username);
    assert(0 <= j < s.len() && s[j].username == username);
    if i != j {
        assert(s[i].username != s[j].username);
    }
}

/// In a well-formed store, any position whose account carries `id` is the
/// position that `id_index` names.
pub proof fn lemma_id_index(s: Seq<AccountView>, id: u128, i: int)
    requires
        store_wf(s),
        0 <= i < s.len(),
        s[i].id == id,
    ensures
        has_id(s, id),
        id_index(s, id) == i,
        account_of_id(s, id) == s[i],
{
    assert(has_id(s, id));
    let j = id_index(s, id);
    assert(0 <= j < s.len() && s[j].id == id);
    if i != j {
        assert(s[i].id != s[j].id);
    }
}

/// Appending an account with a fresh identifier, username and email keeps the
/// store well formed.
pub proof fn lemma_wf_push(s: Seq<AccountView>, a: AccountView)
    requires
        store_wf(s),
        !has_id(s, a.id),
        !has_username(s, a.username),
        !has_email(s, a.email),
    ensures
        store_wf(s.push(a)),
{
    let t = s.push(a);
    assert forall|i: int, j: int|
        0 <= i < t.len() && 0 <= j < t.len() && i != j implies (#[trigger] t[i].id) != (
    #[trigger] t[j].id) by {
        if i < s.len() && j < s.len() {
            assert(s[i].id != s[j].id);
        } else if i < s.len() {
            assert(t[j] == a);
            if s[i].id == a.id {
                assert(has_id(s, a.id));
            }
        } else {
            assert(t[i] == a);
            if s[j].id == a.id {
                assert(has_id(s, a.id));
            }
        }
    }
    assert forall|i: int, j: int|
        0 <= i < t.len() && 0 <= j < t.len() && i != j implies (#[trigger] t[i].username) != (
    #[trigger] t[j].username) by {
        if i < s.len() && j < s.len() {
            assert(s[i].username != s[j].username);
        } else if i < s.len() {
            assert(t[j] == a);
            if s[i].username == a.username {
                assert(has_username(s, a.username));
            }
        } else {
            assert(t[i] == a);
            if s[j].username == a.username {
                assert(has_username(s, a.username));
            }
        }
    }
    assert forall|i: int, j: int|
        0 <= i < t.len() && 0 <= j < t.len() && i != j implies (#[trigger] t[i].email) != (
    #[trigger] t[j].email) by {
        if i < s.len() && j < s.len() {
            assert(s[i].email != s[j].email);
        } else if i < s.len() {
            assert(t[j] == a);
            if s[i].email == a.email {
                assert(has_email(s, a.email));
            }
        } else {
            assert(t[i] == a);
            if s[j].email == a.email {
                assert(has_email(s, a.email));
            }
        }
    }
}

/// Replacing an account with one that keeps its identifier, username and
/// email keeps the store well formed.
pub proof fn lemma_wf_update(s: Seq<AccountView>, i: int, a: AccountView)
    requires
        store_wf(s),
        0 <= i < s.len(),
        a.id == s[i].id,
        a.username == s[i].username,
        a.email == s[i].email,
    ensures
        store_wf(s.update(i, a)),
{
    let t = s.update(i, a);
    assert forall|p: int, q: int|
        0 <= p < t.len() && 0 <= q < t.len() && p != q implies (#[trigger] t[p].id) != (
    #[trigger] t[q].id) by {
        assert(t[p].id == s[p].id && t[q].id == s[q].id);
        assert(s[p].id != s[q].id);
    }
    assert forall|p: int, q: int|
        0 <= p < t.len() && 0 <= q < t.len() && p != q implies (#[trigger] t[p].username) != (
    #[trigger] t[q].username) by {
        assert(t[p].username == s[p].username && t[q].username == s[q].username);
        assert(s[p].username != s[q].username);
    }
    assert forall|p: int, q: int|
        0 <= p < t.len() && 0 <= q < t.len() && p != q implies (#[trigger] t[p].email) != (
    #[trigger] t[q].email) by {
        assert(t[p].email == s[p].email && t[q].email == s[q].email);
        assert(s[p].email != s[q].email);
    }
}

/// Removing an account keeps the store well formed.
pub proof fn lemma_wf_remove(s: Seq<AccountView>, i: int)
    requires
        store_wf(s),
        0 <= i < s.len(),
    ensures
        store_wf(s.remove(i)),
{
    let t = s.remove(i);
    assert forall|p: int, q: int|
        0 <= p < t.len() && 0 <= q < t.len() && p != q implies (#[trigger] t[p].id) != (
    #[trigger] t[q].id) by {
        let p0 = if p < i { p } else { p + 1 };
        let q0 = if q < i { q } else { q + 1 };
        assert(t[p] == s[p0] && t[q] == s[q0]);
        assert(s[p0].id != s[q0].id);
    }
    assert forall|p: int, q: int|
        0 <= p < t.len() && 0 <= q < t.len() && p != q implies (#[trigger] t[p].username) != (
    #[trigger] t[q].username) by {
        let p0 = if p < i { p } else { p + 1 };
        let q0 = if q < i { q } else { q + 1 };
        assert(t[p] == s[p0] && t[q] == s[q0]);
        assert(s[p0].username != s[q0].username);
    }
    assert forall|p: int, q: int|
        0 <= p < t.len() && 0 <= q < t.len() && p != q implies (#[trigger] t[p].email) != (
    #[trigger] t[q].email) by {
        let p0 = if p < i { p } else { p + 1 };
        let q0 = if q < i { q } else { q + 1 };
        assert(t[p] == s[p0] && t[q] == s[q0]);
        assert(s[p0].email != s[q0].email);
    }
}

/// The persistence boundary for account records: existence checks by
/// username and email, insert, lookups, soft state updates and delete.
/// Uniqueness of identifier, username and email is enforced here, at the
/// storage layer, so callers that race on `insert` cannot both succeed.
pub struct CredentialStore {
    accounts: Vec<Account>,
}

impl View for CredentialStore {
    type V = Seq<AccountView>;

    closed spec fn view(&self) -> Seq<AccountView> {
        self.accounts@.map_values(|a: Account| a@)
    }
}

impl CredentialStore {
    /// An empty, well-formed store.
    pub fn new() -> (r: CredentialStore)
        ensures
            r@ == Seq::<AccountView>::empty(),
            store_wf(r@),
    {
        let r = CredentialStore { accounts: Vec::new() };
        proof {
            assert(r@ =~= Seq::<AccountView>::empty());
        }
        r
    }

    /// How many accounts the store holds.
    pub fn len(&self) -> (r: usize)
        ensures
            r == self@.len(),
    {
        self.accounts.len()
    }

    fn find_by_username(&self, username: &String) -> (r: Option<usize>)
        requires
            store_wf(self@),
        ensures
            match r {
                Some(i) => has_username(self@, username@) && username_index(self@, username@)
                    == i as int && i < self@.len(),
                None => !has_username(self@, username@),
            },
    {
        let n = self.accounts.len();
        let mut i: usize = 0;
        while i < n
            invariant
                store_wf(self@),
                n == self.accounts.len(),
                self@.len() == n,
                i <= n,
                forall|k: int| 0 <= k < i ==> #[trigger] self@[k].username != username@,
            decreases n - i,
        {
            if self.accounts[i].username == *username {
                proof {
                    assert(self@[i as int] == self.accounts@[i as int]@);
                    lemma_username_index(self@, username@, i as int);
                }
                return Some(i);
            }
            proof {
                assert(self@[i as int] == self.accounts@[i as int]@);
            }
            i = i + 1;
        }
        None
    }

    fn find_by_id(&self, id: u128) -> (r: Option<usize>)
        requires
            store_wf(self@),
        ensures
            match r {
                Some(i) => has_id(self@, id) && id_index(self@, id) == i as int && i
                    < self@.len(),
                None => !has_id(self@, id),
            },
    {
        let n = self.accounts.len();
        let mut i: usize = 0;
        while i < n
            invariant
                store_wf(self@),
                n == self.accounts.len(),
                self@.len() == n,
                i <= n,
                forall|k: int| 0 <= k < i ==> #[trigger] self@[k].id != id,
            decreases n - i,
        {
            if self.accounts[i].id == id {
                proof {
                    assert(self@[i as int] == self.accounts@[i as int]@);
                    lemma_id_index(self@, id, i as int);
                }
                return Some(i);
            }
            proof {
                assert(self@[i as int] == self.accounts@[i as int]@);
            }
            i = i + 1;
        }
        None
    }

    /// Existence probe: does an account with this username exist?
    pub fn check_username(&self, username: &String) -> (r: bool)
        requires
            store_wf(self@),
        ensures
            r == has_username(self@, username@),
    {
        self.find_by_username(username).is_some()
    }

    /// Existence probe: does an account with this email exist?
    pub fn check_email(&self, email: &String) -> (r: bool)
        requires
            store_wf(self@),
        ensures
            r == has_email(self@, email@),
    {
        let n = self.accounts.len();
        let mut i: usize = 0;
        while i < n
            invariant
                n == self.accounts.len(),
                self@.len() == n,
                i <= n,
                forall|k: int| 0 <= k < i ==> #[trigger] self@[k].email != email@,
            decreases n - i,
        {
            if self.accounts[i].email == *email {
                proof {
                    assert(self@[i as int] == self.accounts@[i as int]@);
                    assert(self@[i as int].email == email@);
                    assert(has_email(self@, email@));
                }
                return true;
            }
            proof {
                assert(self@[i as int] == self.accounts@[i as int]@);
            }
            i = i + 1;
        }
        false
    }

    /// Inserts a new account record. A taken username or email is a
    /// `Conflict`, the same outcome as losing a check-then-insert race; a
    /// colliding identifier is an internal error. On success the record is
    /// appended unchanged.
    pub fn insert(&mut self, account: Account) -> (r: Result<(), Error>)
        requires
            store_wf(old(self)@),
        ensures
            store_wf(final(self)@),
            r matches Ok(()) ==> !has_username(old(self)@, account@.username) && !has_email(
                old(self)@,
                account@.email,
            ) && !has_id(old(self)@, account@.id) && final(self)@ == old(self)@.push(account@),
            r matches Err(e) ==> final(self)@ == old(self)@ && ((e == Error::Conflict && (
            has_username(old(self)@, account@.username) || has_email(old(self)@, account@.email)))
                || (e == Error::InternalServerError && !has_username(
                old(self)@,
                account@.username,
            ) && !has_email(old(self)@, account@.email) && has_id(old(self)@, account@.id))),
    {
        if self.find_by_username(&account.username).is_some() || self.check_email(&account.email) {
            return Err(Error::Conflict);
        }
        if self.find_by_id(account.id).is_some() {
            return Err(Error::InternalServerError);
        }
        proof {
            lemma_wf_push(self@, account@);
        }
        let ghost pre = self@;
        let ghost a = account@;
        self.accounts.push(account);
        proof {
            assert(self@ =~= pre.push(a));
        }
        Ok(())
    }

    /// Looks up the identifier and stored password digest by username.
    pub fn get_hash(&self, username: &String) -> (r: Result<(u128, String), Error>)
        requires
            store_wf(self@),
        ensures
            r matches Ok(p) ==> has_username(self@, username@) && p.0 == account_of(
                self@,
                username@,
            ).id && p.1@ == account_of(self@, username@).password_hash,
            r matches Err(e) ==> e == Error::NotFound && !has_username(self@, username@),
            r is Ok <==> has_username(self@, username@),
    {
        match self.find_by_username(username) {
            Some(i) => {
                proof {
                    assert(self@[i as int] == self.accounts@[i as int]@);
                }
                Ok((self.accounts[i].id, self.accounts[i].password_hash.clone()))
            },
            None => Err(Error::NotFound),
        }
    }

    /// Looks up the public view of an account by identifier.
    pub fn get_user_by_id(&self, id: u128) -> (r: Result<User, Error>)
        requires
            store_wf(self@),
        ensures
            r matches Ok(u) ==> has_id(self@, id) && u.id == id && u.username@ == account_of_id(
                self@,
                id,
            ).username && u.email@ == account_of_id(self@, id).email && u.verified
                == account_of_id(self@, id).verified,
            r matches Err(e) ==> e == Error::NotFound && !has_id(self@, id),
            r is Ok <==> has_id(self@, id),
    {
        match self.find_by_id(id) {
            Some(i) => {
                proof {
                    assert(self@[i as int] == self.accounts@[i as int]@);
                }
                Ok(
                    User {
                        id: self.accounts[i].id,
                        username: self.accounts[i].username.clone(),
                        email: self.accounts[i].email.clone(),
                        verified: self.accounts[i].verified,
                    },
                )
            },
            None => Err(Error::NotFound),
        }
    }

    /// Looks up the verification token stored for a username.
    pub fn find_verification_token(&self, username: &String) -> (r: Result<String, Error>)
        requires
            store_wf(self@),
        ensures
            r matches Ok(t) ==> has_username(self@, username@) && t@ == account_of(
                self@,
                username@,
            ).verification_token,
            r matches Err(e) ==> e == Error::NotFound && !has_username(self@, username@),
            r is Ok <==> has_username(self@, username@),
    {
        match self.find_by_username(username) {
            Some(i) => {
                proof {
                    assert(self@[i as int] == self.accounts@[i as int]@);
                }
                Ok(self.accounts[i].verification_token.clone())
            },
            None => Err(Error::NotFound),
        }
    }

    /// Flips the account's verified flag to true; everything else is kept.
    pub fn set_verified(&mut self, username: &String) -> (r: Result<(), Error>)
        requires
            store_wf(old(self)@),
        ensures
            store_wf(final(self)@),
            !has_username(old(self)@, username@) ==> r == Err::<(), Error>(Error::NotFound)
                && final(self)@ == old(self)@,
            has_username(old(self)@, username@) ==> r == Ok::<(), Error>(()) && final(self)@
                == old(self)@.update(
                username_index(old(self)@, username@),
                AccountView { verified: true, ..account_of(old(self)@, username@) },
            ),
    {
        match self.find_by_username(username) {
            Some(i) => {
                let ghost pre = self@;
                let mut account = self.accounts.remove(i);
                account.verified = true;
                let ghost a = account@;
                self.accounts.insert(i, account);
                proof {
                    assert(a == AccountView { verified: true, ..pre[i as int] });
                    assert(self@ =~= pre.update(i as int, a));
                    lemma_wf_update(pre, i as int, a);
                }
                Ok(())
            },
            None => Err(Error::NotFound),
        }
    }

    /// Replaces the stored password digest for an identifier; reports whether
    /// a row was affected.
    pub fn update_password_hash(&mut self, id: u128, password_hash: String) -> (r: bool)
        requires
            store_wf(old(self)@),
        ensures
            store_wf(final(self)@),
            r == has_id(old(self)@, id),
            !has_id(old(self)@, id) ==> final(self)@ == old(self)@,
            has_id(old(self)@, id) ==> final(self)@ == old(self)@.update(
                id_index(old(self)@, id),
                AccountView { password_hash: password_hash@, ..account_of_id(old(self)@, id) },
            ),
    {
        let ghost ph = password_hash@;
        match self.find_by_id(id) {
            Some(i) => {
                let ghost pre = self@;
                let mut account = self.accounts.remove(i);
                account.password_hash = password_hash;
                let ghost a = account@;
                self.accounts.insert(i, account);
                proof {
                    assert(a == AccountView { password_hash: ph, ..pre[i as int] });
                    assert(self@ =~= pre.update(i as int, a));
                    lemma_wf_update(pre, i as int, a);
                }
                true
            },
            None => false,
        }
    }

    /// Removes the account with this identifier, if any; deleting an absent
    /// account is not an error.
    pub fn delete_user(&mut self, id: u128) -> (r: Result<(), Error>)
        requires
            store_wf(old(self)@),
        ensures
            store_wf(final(self)@),
            r is Ok,
            !has_id(old(self)@, id) ==> final(self)@ == old(self)@,
            has_id(old(self)@, id) ==> final(self)@ == old(self)@.remove(
                id_index(old(self)@, id),
            ),
    {
        match self.find_by_id(id) {
            Some(i) => {
                let ghost pre = self@;
                let _ = self.accounts.remove(i);
                proof {
                    assert(self@ =~= pre.remove(i as int));
                    lemma_wf_remove(pre, i as int);
                }
                Ok(())
            },
            None => Ok(()),
        }
    }
}

} // verus!
