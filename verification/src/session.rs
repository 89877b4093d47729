//! Login sessions: which signed-in account each token stands for, and the
//! access checks made with a token.
use vstd::prelude::*;
use crate::text::same_text;

verus! {

/// A signed-in account as a session remembers it.
#[derive(Debug)]
pub struct AuthUser {
    pub id: String,
    pub username: String,
    pub display_name: String,
    pub role: String,
    pub employee_id: Option<String>,
    pub status: String,
    pub must_change_password: bool,
}

fn copy_text(s: &String) -> (r: String)
    ensures
        r == *s,
{
    s.clone()
}

impl AuthUser {
    /// An identical copy of the account.
    pub fn duplicate(&self) -> (r: AuthUser)
        ensures
            r == *self,
    {
        let employee_id = match &self.employee_id {
            Some(e) => Some(copy_text(e)),
            None => None,
        };
        AuthUser {
            id: copy_text(&self.id),
            username: copy_text(&self.username),
            display_name: copy_text(&self.display_name),
            role: copy_text(&self.role),
            employee_id,
            status: copy_text(&self.status),
            must_change_password: self.must_change_password,
        }
    }
}

/// The entries hold each token once, and they hold exactly the sessions
/// `m`.
pub open spec fn entries_match(entries: Seq<(String, AuthUser)>, m: Map<Seq<char>, AuthUser>) -> bool {
    &&& forall|i: int, j: int|
        0 <= i < j < entries.len() ==> #[trigger] entries[i].0@ != #[trigger] entries[j].0@
    &&& forall|i: int|
        0 <= i < entries.len() ==> m.contains_key((#[trigger] entries[i]).0@) && m[entries[i].0@]
            == entries[i].1
    &&& forall|k: Seq<char>|
        #[trigger] m.contains_key(k) ==> exists|i: int|
            0 <= i < entries.len() && (#[trigger] entries[i]).0@ == k
}

/// Removing the entry at `i` removes its token's session and keeps every
/// other entry, in order.
proof fn lemma_remove_entry(
    old_entries: Seq<(String, AuthUser)>,
    m: Map<Seq<char>, AuthUser>,
    i: int,
    entries: Seq<(String, AuthUser)>,
)
    requires
        entries_match(old_entries, m),
        0 <= i < old_entries.len(),
        entries == old_entries.remove(i),
    ensures
        entries_match(entries, m.remove(old_entries[i].0@)),
        forall|a: int| 0 <= a < i ==> #[trigger] entries[a] == old_entries[a],
{
    let key = old_entries[i].0@;
    let after = m.remove(key);
    assert forall|a: int| 0 <= a < entries.len() implies #[trigger] entries[a]
        == old_entries[if a < i {
        a
    } else {
        a + 1
    }] by {}
    assert forall|a: int, b: int|
        0 <= a < b < entries.len() implies #[trigger] entries[a].0@
        != #[trigger] entries[b].0@ by {
        let oa = if a < i {
            a
        } else {
            a + 1
        };
        let ob = if b < i {
            b
        } else {
            b + 1
        };
        assert(entries[a] == old_entries[oa]);
        assert(entries[b] == old_entries[ob]);
        assert(old_entries[oa].0@ != old_entries[ob].0@);
    }
    assert forall|a: int| 0 <= a < entries.len() implies after.contains_key(
        (#[trigger] entries[a]).0@,
    ) && after[entries[a].0@] == entries[a].1 by {
        let oa = if a < i {
            a
        } else {
            a + 1
        };
        assert(entries[a] == old_entries[oa]);
        assert(old_entries[oa].0@ != old_entries[i].0@);
    }
    assert forall|k: Seq<char>| #[trigger] after.contains_key(k) implies exists|j: int|
        0 <= j < entries.len() && (#[trigger] entries[j]).0@ == k by {
        let j = choose|j: int| 0 <= j < old_entries.len() && (#[trigger] old_entries[j]).0@ == k;
        assert(j != i);
        if j < i {
            assert(entries[j] == old_entries[j]);
        } else {
            assert(entries[j - 1] == old_entries[j]);
        }
    }
}

/// The open sessions, keyed by token.  Its view maps each token's text to
/// the account signed in with it.
pub struct SessionStore {
    entries: Vec<(String, AuthUser)>,
    sessions: Ghost<Map<Seq<char>, AuthUser>>,
}

impl View for SessionStore {
    type V = Map<Seq<char>, AuthUser>;

    closed spec fn view(&self) -> Map<Seq<char>, AuthUser> {
        self.sessions@
    }
}

impl SessionStore {
    /// Every token occurs once, and the entries are exactly the sessions.
    #[verifier::type_invariant]
    closed spec fn well_formed(self) -> bool {
        entries_match(self.entries@, self.sessions@)
    }

    /// No session is open.
    pub fn new() -> (r: SessionStore)
        ensures
            r@ == Map::<Seq<char>, AuthUser>::empty(),
    {
        SessionStore { entries: Vec::new(), sessions: Ghost(Map::empty()) }
    }

    /// Where the session of `token` sits among the entries.
    fn position(&self, token: &str) -> (r: Option<usize>)
        ensures
            match r {
                Some(i) => i < self.entries@.len() && self.entries@[i as int].0@ == token@,
                None => !self@.contains_key(token@),
            },
    {
        proof {
            use_type_invariant(self);
        }
        let mut i: usize = 0;
        while i < self.entries.len()
            invariant
                i <= self.entries@.len(),
                forall|j: int| 0 <= j < i ==> (#[trigger] self.entries@[j]).0@ != token@,
            decreases self.entries@.len() - i,
        {
            if same_text(self.entries[i].0.as_str(), token) {
                return Some(i);
            }
            i = i + 1;
        }
        None
    }

    /// The account signed in with `token`, if any.
    pub fn get(&self, token: &str) -> (r: Option<&AuthUser>)
        ensures
            match r {
                Some(u) => self@.contains_key(token@) && *u == self@[token@],
                None => !self@.contains_key(token@),
            },
    {
        proof {
            use_type_invariant(self);
        }
        match self.position(token) {
            Some(i) => Some(&self.entries[i].1),
            None => None,
        }
    }

    /// Opens (or replaces) the session of `token` for `user`.
    pub fn insert(&mut self, token: String, user: AuthUser)
        ensures
            final(self)@ == old(self)@.insert(token@, user),
    {
        let mut store = SessionStore::new();
        core::mem::swap(self, &mut store);
        proof {
            use_type_invariant(&store);
        }
        let ghost before = store.sessions@;
        let position = store.position(token.as_str());
        let SessionStore { mut entries, sessions } = store;
        let ghost key = token@;
        match position {
            Some(i) => {
                let ghost old_entries = entries@;
                let mut slot = (token, user);
                core::mem::swap(&mut entries[i], &mut slot);
                proof {
                    assert(entries@ == old_entries.update(i as int, entries@[i as int]));
                }
                let ghost after = before.insert(key, entries@[i as int].1);
                proof {
                    assert forall|a: int| 0 <= a < entries@.len() implies (#[trigger] entries@[a]).0@
                        == old_entries[a].0@ by {
                        if a != i {
                            assert(entries@[a] == old_entries[a]);
                        }
                    }
                    assert forall|a: int, b: int|
                        0 <= a < b < entries@.len() implies #[trigger] entries@[a].0@
                        != #[trigger] entries@[b].0@ by {
                        assert(old_entries[a].0@ != old_entries[b].0@);
                    }
                    assert forall|a: int| 0 <= a < entries@.len() implies after.contains_key(
                        (#[trigger] entries@[a]).0@,
                    ) && after[entries@[a].0@] == entries@[a].1 by {
                        if a != i {
                            assert(entries@[a] == old_entries[a]);
                            assert(old_entries[a].0@ != old_entries[i as int].0@);
                        }
                    }
                    assert forall|k: Seq<char>| #[trigger] after.contains_key(k) implies exists|
                        j: int,
                    | 0 <= j < entries@.len() && (#[trigger] entries@[j]).0@ == k by {
                        if k != key {
                            let j = choose|j: int|
                                0 <= j < old_entries.len() && (#[trigger] old_entries[j]).0@ == k;
                            assert(entries@[j].0@ == old_entries[j].0@);
                        } else {
                            assert(entries@[i as int].0@ == k);
                        }
                    }
                }
                assert(entries_match(entries@, after));
                *self = SessionStore { entries, sessions: Ghost(after) };
            },
            None => {
                let ghost old_entries = entries@;
                entries.push((token, user));
                let ghost after = before.insert(key, entries@[old_entries.len() as int].1);
                proof {
                    assert forall|k: Seq<char>| #[trigger] after.contains_key(k) implies exists|
                        j: int,
                    | 0 <= j < entries@.len() && (#[trigger] entries@[j]).0@ == k by {
                        if k != key {
                            let j = choose|j: int|
                                0 <= j < old_entries.len() && (#[trigger] old_entries[j]).0@ == k;
                            assert(entries@[j] == old_entries[j]);
                        } else {
                            assert(entries@[old_entries.len() as int].0@ == k);
                        }
                    }
                    assert forall|a: int, b: int|
                        0 <= a < b < entries@.len() implies #[trigger] entries@[a].0@
                        != #[trigger] entries@[b].0@ by {
                        if b == old_entries.len() {
                            assert(entries@[a] == old_entries[a]);
                        } else {
                            assert(entries@[a] == old_entries[a]);
                            assert(entries@[b] == old_entries[b]);
                        }
                    }
                    assert forall|a: int| 0 <= a < entries@.len() implies after.contains_key(
                        (#[trigger] entries@[a]).0@,
                    ) && after[entries@[a].0@] == entries@[a].1 by {
                        if a < old_entries.len() {
                            assert(entries@[a] == old_entries[a]);
                        }
                    }
                }
                assert(entries_match(entries@, after));
                *self = SessionStore { entries, sessions: Ghost(after) };
            },
        }
        let _ = sessions;
    }

    /// Closes the session of `token`, if there is one.
    pub fn remove(&mut self, token: &str)
        ensures
            final(self)@ == old(self)@.remove(token@),
    {
        let mut store = SessionStore::new();
        core::mem::swap(self, &mut store);
        proof {
            use_type_invariant(&store);
        }
        let ghost before = store.sessions@;
        let position = store.position(token);
        let SessionStore { mut entries, sessions } = store;
        match position {
            Some(i) => {
                let ghost old_entries = entries@;
                let ghost key = old_entries[i as int].0@;
                let _gone = entries.remove(i);
                let ghost after = before.remove(key);
                proof {
                    lemma_remove_entry(old_entries, before, i as int, entries@);
                }
                *self = SessionStore { entries, sessions: Ghost(after) };
            },
            None => {
                proof {
                    assert(before.remove(token@) =~= before);
                }
                *self = SessionStore { entries, sessions };
            },
        }
    }

    /// Closes every session of the account `account_id`.
    pub fn revoke_account(&mut self, account_id: &str)
        ensures
            final(self)@ == sessions_without_account(old(self)@, account_id@),
    {
        let mut store = SessionStore::new();
        core::mem::swap(self, &mut store);
        proof {
            use_type_invariant(&store);
        }
        let ghost before = store.sessions@;
        let SessionStore { mut entries, sessions } = store;
        let ghost mut current = before;
        let mut i: usize = 0;
        while i < entries.len()
            invariant
                i <= entries@.len(),
                entries_match(entries@, current),
                forall|k: Seq<char>|
                    #[trigger] current.contains_key(k) ==> before.contains_key(k) && current[k]
                        == before[k],
                forall|k: Seq<char>|
                    #[trigger] before.contains_key(k) && before[k].id@ != account_id@
                        ==> current.contains_key(k),
                forall|j: int| 0 <= j < i ==> (#[trigger] entries@[j]).1.id@ != account_id@,
            decreases entries@.len() - i,
        {
            if same_text(entries[i].1.id.as_str(), account_id) {
                let ghost old_entries = entries@;
                let ghost key = old_entries[i as int].0@;
                let _gone = entries.remove(i);
                proof {
                    let after = current.remove(key);
                    assert(current[key] == old_entries[i as int].1);
                    lemma_remove_entry(old_entries, current, i as int, entries@);
                    current = after;
                }
            } else {
                i = i + 1;
            }
        }
        proof {
            assert forall|k: Seq<char>| #[trigger] current.contains_key(k) implies before[k].id@
                != account_id@ by {
                let j = choose|j: int| 0 <= j < entries@.len() && (#[trigger] entries@[j]).0@ == k;
                assert(current[k] == entries@[j].1);
            }
            assert(current =~= sessions_without_account(before, account_id@));
        }
        let _ = sessions;
        *self = SessionStore { entries, sessions: Ghost(current) };
    }
}

/// The sessions `m` without those of the account `account_id`.
pub open spec fn sessions_without_account(m: Map<Seq<char>, AuthUser>, account_id: Seq<char>) -> Map<
    Seq<char>,
    AuthUser,
> {
    Map::new(|k: Seq<char>| m.contains_key(k) && m[k].id@ != account_id, |k: Seq<char>| m[k])
}

// ---------------------------------------------------------------------------
// Access checks
// ---------------------------------------------------------------------------

/// Why a request made with a token is turned away.
#[derive(Debug, PartialEq, Eq, Structural)]
pub enum AccessError {
    /// No session is open for the token (never signed in, or signed out).
    SessionExpired,
    /// The account is signed in but is not a manager.
    NotManager,
}

/// What a request with `token` is granted, given the open sessions `m`.
pub open spec fn session_access(m: Map<Seq<char>, AuthUser>, token: Seq<char>) -> Result<AuthUser, AccessError> {
    if m.contains_key(token) {
        Ok(m[token])
    } else {
        Err(AccessError::SessionExpired)
    }
}

/// What a request that needs a manager is granted.
pub open spec fn manager_access(m: Map<Seq<char>, AuthUser>, token: Seq<char>) -> Result<AuthUser, AccessError> {
    if !m.contains_key(token) {
        Err(AccessError::SessionExpired)
    } else if m[token].role@ != "manager"@ {
        Err(AccessError::NotManager)
    } else {
        Ok(m[token])
    }
}

/// The account signed in with `token`.
pub fn require_session(sessions: &SessionStore, token: &str) -> (r: Result<AuthUser, AccessError>)
    ensures
        r == session_access(sessions@, token@),
{
    match sessions.get(token) {
        Some(user) => Ok(user.duplicate()),
        None => Err(AccessError::SessionExpired),
    }
}

/// The account signed in with `token`, which must be a manager.
pub fn require_manager(sessions: &SessionStore, token: &str) -> (r: Result<AuthUser, AccessError>)
    ensures
        r == manager_access(sessions@, token@),
{
    let user = match require_session(sessions, token) {
        Ok(u) => u,
        Err(e) => return Err(e),
    };
    if !same_text(user.role.as_str(), "manager") {
        return Err(AccessError::NotManager);
    }
    Ok(user)
}

/// After signing in with a token, requests with that token act as the
/// account that signed in, and every other token keeps what it had.
pub proof fn law_sign_in_then_access(m: Map<Seq<char>, AuthUser>, token: Seq<char>, user: AuthUser, other: Seq<char>)
    ensures
        session_access(m.insert(token, user), token) == Ok::<AuthUser, AccessError>(user),
        other != token ==> session_access(m.insert(token, user), other) == session_access(m, other),
{
}

/// After signing out, the token no longer grants anything, and every other
/// token keeps what it had.
pub proof fn law_sign_out_ends_access(m: Map<Seq<char>, AuthUser>, token: Seq<char>, other: Seq<char>)
    ensures
        session_access(m.remove(token), token) == Err::<AuthUser, AccessError>(
            AccessError::SessionExpired,
        ),
        other != token ==> session_access(m.remove(token), other) == session_access(m, other),
{
}

/// After an account's sessions are revoked, no token grants that account,
/// and tokens of other accounts keep what they had.
pub proof fn law_revoked_account_has_no_access(m: Map<Seq<char>, AuthUser>, account_id: Seq<char>, token: Seq<char>)
    ensures
        session_access(sessions_without_account(m, account_id), token) matches Ok(u) ==> u.id@
            != account_id,
        m.contains_key(token) && m[token].id@ != account_id ==> session_access(
            sessions_without_account(m, account_id),
            token,
        ) == session_access(m, token),
{
}

/// A manager request is granted exactly when the token grants a manager
/// account, and then to that same account.
pub proof fn law_manager_access_refines_session_access(m: Map<Seq<char>, AuthUser>, token: Seq<char>)
    ensures
        manager_access(m, token) matches Ok(u) ==> session_access(m, token) == Ok::<
            AuthUser,
            AccessError,
        >(u) && u.role@ == "manager"@,
        session_access(m, token) matches Ok(u) && u.role@ == "manager"@ ==> manager_access(
            m,
            token,
        ) == session_access(m, token),
{
}

} // verus!
