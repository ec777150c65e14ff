//! Account rows and the session binding: one live (access, refresh) token pair per account.

use vstd::prelude::*;

verus! {

/// An account row: identity, credentials, and the currently bound token pair.
#[derive(Debug)]
pub struct User {
    /// Canonical text of the account's UUID.
    pub id: String,
    pub username: String,
    /// One-way hash of the password.
    pub password: String,
    pub full_name: String,
    /// Bound access token; empty until the first login.
    pub access_token: String,
    /// Bound refresh token; empty until the first login.
    pub refresh_token: String,
    /// Creation time, Unix seconds.
    pub create_time: i64,
    /// Soft-delete flag: a deleted account keeps its row but cannot authenticate.
    pub is_delete: bool,
}

/// Mathematical model of an account row.
pub struct UserView {
    pub id: Seq<char>,
    pub username: Seq<char>,
    pub password: Seq<char>,
    pub full_name: Seq<char>,
    pub access_token: Seq<char>,
    pub refresh_token: Seq<char>,
    pub create_time: i64,
    pub is_delete: bool,
}

impl View for User {
    type V = UserView;

    open spec fn view(&self) -> UserView {
        UserView {
            id: self.id@,
            username: self.username@,
            password: self.password@,
            full_name: self.full_name@,
            access_token: self.access_token@,
            refresh_token: self.refresh_token@,
            create_time: self.create_time,
            is_delete: self.is_delete,
        }
    }
}

impl User {
    /// A field-by-field copy.
    pub fn duplicate(&self) -> (r: User)
        ensures
            r@ == self@,
    {
        User {
            id: self.id.clone(),
            username: self.username.clone(),
            password: self.password.clone(),
            full_name: self.full_name.clone(),
            access_token: self.access_token.clone(),
            refresh_token: self.refresh_token.clone(),
            create_time: self.create_time,
            is_delete: self.is_delete,
        }
    }
}

/// Which half of the bound pair a presented token is compared against.
#[derive(PartialEq, Eq, Structural, Clone, Copy, Debug)]
pub enum TokenSlot {
    Access,
    Refresh,
}

/// The stored token of `u` in `slot`.
pub open spec fn slot_value(u: UserView, slot: TokenSlot) -> Seq<char> {
    match slot {
        TokenSlot::Access => u.access_token,
        TokenSlot::Refresh => u.refresh_token,
    }
}

/// No two rows share an id or a username.
pub open spec fn rows_unique(s: Seq<UserView>) -> bool {
    forall|i: int, j: int|
        0 <= i < s.len() && 0 <= j < s.len() && i != j ==> s[i].id != s[j].id && s[i].username
            != s[j].username
}

pub open spec fn has_username(s: Seq<UserView>, name: Seq<char>) -> bool {
    exists|i: int| 0 <= i < s.len() && s[i].username == name
}

pub open spec fn has_id(s: Seq<UserView>, id: Seq<char>) -> bool {
    exists|i: int| 0 <= i < s.len() && s[i].id == id
}

/// The rows after the pair (`access`, `refresh`) is bound to account `id`:
/// that row's pair is overwritten, every other field and row is kept.
pub open spec fn bind_rows(s: Seq<UserView>, id: Seq<char>, access: Seq<char>, refresh: Seq<char>) -> Seq<UserView> {
    s.map_values(
        |u: UserView|
            if u.id == id {
                UserView { access_token: access, refresh_token: refresh, ..u }
            } else {
                u
            },
    )
}

/// The stored token of account `id` in `slot` equals `token` exactly.
pub open spec fn is_bound_rows(s: Seq<UserView>, id: Seq<char>, token: Seq<char>, slot: TokenSlot) -> bool {
    exists|i: int| 0 <= i < s.len() && s[i].id == id && slot_value(s[i], slot) == token
}

/// Binding failed because no row has the given id.
#[derive(PartialEq, Eq, Structural, Clone, Copy, Debug)]
pub enum BindError {
    AccountNotFound,
}

/// Text equality of two string slices.
pub fn same_text(a: &str, b: &str) -> (r: bool)
    ensures
        r == (a@ == b@),
{
    let x = String::from_str(a);
    let y = String::from_str(b);
    x == y
}

/// The account table, holding at most one row per id and per username.
pub struct AccountStore {
    users: Vec<User>,
}

impl View for AccountStore {
    type V = Seq<UserView>;

    closed spec fn view(&self) -> Seq<UserView> {
        self.users@.map_values(|u: User| u@)
    }
}

impl AccountStore {
    pub open spec fn wf(&self) -> bool {
        rows_unique(self@)
    }

    /// An empty table.
    pub fn new() -> (r: AccountStore)
        ensures
            r@ == Seq::<UserView>::empty(),
            r.wf(),
    {
        let r = AccountStore { users: Vec::new() };
        assert(r@ =~= Seq::<UserView>::empty());
        r
    }

    /// Number of rows.
    pub fn len(&self) -> (r: usize)
        ensures
            r == self@.len(),
    {
        self.users.len()
    }

    /// The row at `i`.
    pub fn user(&self, i: usize) -> (r: &User)
        requires
            i < self@.len(),
        ensures
            r@ == self@[i as int],
    {
        &self.users[i]
    }

    /// The position of the row named `name`, if any.
    pub fn find_by_username(&self, name: &str) -> (r: Option<usize>)
        ensures
            r matches Some(i) ==> i < self@.len() && self@[i as int].username == name@,
            r is None <==> !has_username(self@, name@),
    {
        let mut i: usize = 0;
        while i < self.users.len()
            invariant
                i <= self.users@.len(),
                self@.len() == self.users@.len(),
                forall|k: int| 0 <= k < i ==> self@[k].username != name@,
            decreases self.users@.len() - i,
        {
            if same_text(self.users[i].username.as_str(), name) {
                assert(self@[i as int] == self.users@[i as int]@);
                return Some(i);
            }
            i = i + 1;
        }
        None
    }

    /// The position of the row with id `id`, if any.
    pub fn find_by_id(&self, id: &str) -> (r: Option<usize>)
        ensures
            r matches Some(i) ==> i < self@.len() && self@[i as int].id == id@,
            r is None <==> !has_id(self@, id@),
    {
        let mut i: usize = 0;
        while i < self.users.len()
            invariant
                i <= self.users@.len(),
                self@.len() == self.users@.len(),
                forall|k: int| 0 <= k < i ==> self@[k].id != id@,
            decreases self.users@.len() - i,
        {
            if same_text(self.users[i].id.as_str(), id) {
                assert(self@[i as int] == self.users@[i as int]@);
                return Some(i);
            }
            i = i + 1;
        }
        None
    }

    /// Adds `u` when neither its id nor its username is taken; reports whether it did.
    pub fn insert(&mut self, u: User) -> (r: bool)
        requires
            old(self).wf(),
        ensures
            final(self).wf(),
            r == (!has_id(old(self)@, u@.id) && !has_username(old(self)@, u@.username)),
            r ==> final(self)@ == old(self)@.push(u@),
            !r ==> final(self)@ == old(self)@,
    {
        if self.find_by_id(u.id.as_str()).is_some() {
            return false;
        }
        if self.find_by_username(u.username.as_str()).is_some() {
            return false;
        }
        let ghost before = self@;
        self.users.push(u);
        assert(self@ =~= before.push(u@));
        true
    }

    /// Overwrites the token pair bound to account `id` (last writer wins).
    pub fn bind(&mut self, id: &str, access: String, refresh: String) -> (r: Result<(), BindError>)
        requires
            old(self).wf(),
        ensures
            final(self).wf(),
            has_id(old(self)@, id@) ==> r is Ok && final(self)@ == bind_rows(
                old(self)@,
                id@,
                access@,
                refresh@,
            ),
            !has_id(old(self)@, id@) ==> r == Err::<(), BindError>(BindError::AccountNotFound)
                && final(self)@ == old(self)@,
    {
        match self.find_by_id(id) {
            None => Err(BindError::AccountNotFound),
            Some(i) => {
                let ghost before = self@;
                let old_row = self.users.remove(i);
                let row = User {
                    id: old_row.id,
                    username: old_row.username,
                    password: old_row.password,
                    full_name: old_row.full_name,
                    access_token: access,
                    refresh_token: refresh,
                    create_time: old_row.create_time,
                    is_delete: old_row.is_delete,
                };
                self.users.insert(i, row);
                assert forall|k: int| 0 <= k < before.len() && k != i implies before[k].id
                    != id@ by {
                    assert(rows_unique(before));
                }
                assert(self@ =~= bind_rows(before, id@, access@, refresh@));
                Ok(())
            },
        }
    }

    /// The token stored in `slot` of account `id` equals `token` exactly.
    pub fn is_bound(&self, id: &str, token: &str, slot: TokenSlot) -> (r: bool)
        requires
            self.wf(),
        ensures
            r == is_bound_rows(self@, id@, token@, slot),
    {
        match self.find_by_id(id) {
            None => false,
            Some(i) => {
                let u = &self.users[i];
                let stored = match slot {
                    TokenSlot::Access => u.access_token.as_str(),
                    TokenSlot::Refresh => u.refresh_token.as_str(),
                };
                let r = same_text(stored, token);
                assert(r ==> is_bound_rows(self@, id@, token@, slot));
                r
            },
        }
    }
}

} // verus!
