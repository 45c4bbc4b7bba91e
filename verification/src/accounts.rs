//! The list of signed-in accounts and how logins, profile updates and
//! removals change it. The list is kept on disk by the caller
//! (`accounts.json`, one token file per account).

use vstd::prelude::*;

use crate::auth::{profile_name_of, OAuthToken, User};
use crate::goloom::{is_uuid_v4_text, new_uid};
use crate::text::{self, opt_str, trimmed};

verus! {

/// One signed-in account.
#[derive(Clone, Debug, PartialEq)]
pub struct Account {
    pub id: String,
    pub access_token: String,
    pub refresh_token: Option<String>,
    /// Unix seconds when the access token expires.
    pub expires_at: u64,
    pub display_name: Option<String>,
    pub avatar_url: Option<String>,
}

impl Account {
    /// An account with only its id and access token.
    pub fn new(id: String, access_token: String) -> (a: Self)
        ensures
            a.id == id,
            a.access_token == access_token,
            a.refresh_token is None,
            a.expires_at == 0,
            a.display_name is None,
            a.avatar_url is None,
    {
        Account { id, access_token, refresh_token: None, expires_at: 0, display_name: None, avatar_url: None }
    }
}

/// Position of the first account with id `id`.
pub open spec fn first_account(a: Seq<Account>, id: Seq<char>) -> Option<int> {
    if exists|k: int| 0 <= k < a.len() && #[trigger] a[k].id@ == id {
        Some(
            choose|k: int|
                0 <= k < a.len() && #[trigger] a[k].id@ == id && forall|j: int| 0 <= j < k ==> a[j].id@ != id,
        )
    } else {
        None
    }
}

proof fn lemma_first_account(a: Seq<Account>, id: Seq<char>, k: int)
    requires
        0 <= k < a.len(),
        a[k].id@ == id,
        forall|j: int| 0 <= j < k ==> a[j].id@ != id,
    ensures
        first_account(a, id) == Some(k),
{
    let c = choose|c: int|
        0 <= c < a.len() && #[trigger] a[c].id@ == id && forall|j: int| 0 <= j < c ==> a[j].id@ != id;
    assert(0 <= c < a.len() && a[c].id@ == id && forall|j: int| 0 <= j < c ==> a[j].id@ != id);
    if c < k {
        assert(a[c].id@ != id);
    } else if k < c {
        assert(a[k].id@ != id);
    }
}

fn find_account(a: &Vec<Account>, id: &str) -> (r: Option<usize>)
    ensures
        match r {
            Some(k) => k < a@.len() && first_account(a@, id@) == Some(k as int),
            None => first_account(a@, id@) is None && forall|j: int| 0 <= j < a@.len() ==> #[trigger] a@[j].id@ != id@,
        },
{
    let mut k: usize = 0;
    while k < a.len()
        invariant
            k <= a@.len(),
            forall|j: int| 0 <= j < k ==> #[trigger] a@[j].id@ != id@,
        decreases a@.len() - k,
    {
        if text::str_is(a[k].id.as_str(), id) {
            proof {
                lemma_first_account(a@, id@, k as int);
            }
            return Some(k);
        }
        k = k + 1;
    }
    None
}

/// Account ids are distinct.
pub open spec fn ids_distinct(a: Seq<Account>) -> bool {
    forall|i: int, j: int| 0 <= i < j < a.len() ==> #[trigger] a[i].id@ != #[trigger] a[j].id@
}

/// The token's expiry time can be computed without overflow.
pub open spec fn expiry_fits(t: OAuthToken) -> bool {
    t.received_at + t.expires_in <= u64::MAX
}

/// The id a login is stored under: the token's user id when it has one,
/// else the profile's id; a fresh random id when that is empty.
pub open spec fn login_id_source(token_user: Option<Seq<char>>, user_id: Seq<char>) -> Seq<char> {
    match token_user {
        Some(u) => u,
        None => user_id,
    }
}

pub fn login_account_id(token: &OAuthToken, user: &User) -> (id: String)
    ensures
        login_id_source(opt_str(token.user_id), user.id@).len() > 0 ==> id@ == login_id_source(
            opt_str(token.user_id),
            user.id@,
        ),
        login_id_source(opt_str(token.user_id), user.id@).len() == 0 ==> is_uuid_v4_text(id@),
{
    let candidate = match &token.user_id {
        Some(u) => u.clone(),
        None => user.id.clone(),
    };
    if candidate.as_str().is_empty() {
        new_uid()
    } else {
        candidate
    }
}

/// The account a login creates: the profile's display name (else first
/// name, else user name), its avatar, and the token's refresh token and
/// expiry.
pub open spec fn login_account_of(a: Account, id: Seq<char>, t: OAuthToken, u: User) -> bool {
    &&& a.id@ == id
    &&& a.access_token == t.access_token
    &&& opt_str(a.display_name) == match opt_str(u.display_name) {
        Some(n) => Some(n),
        None => match opt_str(u.first_name) {
            Some(f) => Some(f),
            None => opt_str(u.username),
        },
    }
    &&& a.avatar_url == u.avatar_id
    &&& a.expires_at == t.received_at + t.expires_in
    &&& a.refresh_token == t.refresh_token
}

fn copy_opt(s: &Option<String>) -> (r: Option<String>)
    ensures
        r == *s,
{
    match s {
        Some(v) => Some(v.clone()),
        None => None,
    }
}

fn copy_account(a: &Account) -> (r: Account)
    ensures
        r == *a,
{
    Account {
        id: a.id.clone(),
        access_token: a.access_token.clone(),
        refresh_token: copy_opt(&a.refresh_token),
        expires_at: a.expires_at,
        display_name: copy_opt(&a.display_name),
        avatar_url: copy_opt(&a.avatar_url),
    }
}

pub fn login_account(id: String, token: &OAuthToken, user: &User) -> (a: Account)
    requires
        expiry_fits(*token),
    ensures
        login_account_of(a, id@, *token, *user),
{
    let mut a = Account::new(id, token.access_token.clone());
    a.display_name = match &user.display_name {
        Some(n) => Some(n.clone()),
        None => match &user.first_name {
            Some(f) => Some(f.clone()),
            None => copy_opt(&user.username),
        },
    };
    a.avatar_url = copy_opt(&user.avatar_id);
    a.expires_at = token.received_at + token.expires_in;
    a.refresh_token = copy_opt(&token.refresh_token);
    a
}

/// An install from before accounts existed: its token becomes an account
/// under the token's user id, or a fresh random id.
pub fn legacy_account(token: &OAuthToken) -> (a: Account)
    requires
        expiry_fits(*token),
    ensures
        match token.user_id {
            Some(u) => a.id == u,
            None => is_uuid_v4_text(a.id@),
        },
        a.access_token == token.access_token,
        a.refresh_token == token.refresh_token,
        a.expires_at == token.received_at + token.expires_in,
        a.display_name is None,
        a.avatar_url is None,
{
    let id = match &token.user_id {
        Some(u) => u.clone(),
        None => new_uid(),
    };
    let mut a = Account::new(id, token.access_token.clone());
    a.refresh_token = copy_opt(&token.refresh_token);
    a.expires_at = token.received_at + token.expires_in;
    a
}

/// `after` is `before` with `a` in place of the first account with its id,
/// or with `a` appended when there is none.
pub open spec fn stored_as(before: Seq<Account>, a: Account, after: Seq<Account>) -> bool {
    match first_account(before, a.id@) {
        Some(k) => after == before.update(k, a),
        None => after == before.push(a),
    }
}

/// Stores an account: replaces the account with the same id, else appends.
pub fn store_account(accounts: &mut Vec<Account>, a: Account)
    ensures
        stored_as(old(accounts)@, a, final(accounts)@),
{
    match find_account(accounts, a.id.as_str()) {
        Some(k) => {
            accounts.set(k, a);
        },
        None => {
            accounts.push(a);
        },
    }
}

/// Storing an account keeps ids distinct, and the account can be found
/// under its id afterwards.
pub proof fn store_keeps_ids_distinct(before: Seq<Account>, a: Account, after: Seq<Account>)
    requires
        ids_distinct(before),
        stored_as(before, a, after),
    ensures
        ids_distinct(after),
        exists|k: int| 0 <= k < after.len() && #[trigger] after[k] == a,
{
    match first_account(before, a.id@) {
        Some(k) => {
            let c = choose|c: int|
                0 <= c < before.len() && #[trigger] before[c].id@ == a.id@ && forall|j: int|
                    0 <= j < c ==> before[j].id@ != a.id@;
            assert(k == c);
            assert forall|i: int, j: int| 0 <= i < j < after.len() implies #[trigger] after[i].id@ != #[trigger] after[j].id@ by {
                if i == k {
                    assert(before[k].id@ != before[j].id@);
                } else if j == k {
                    assert(before[i].id@ != before[k].id@);
                } else {
                    assert(before[i].id@ != before[j].id@);
                }
            }
            assert(after[k] == a);
        },
        None => {
            assert forall|i: int, j: int| 0 <= i < j < after.len() implies #[trigger] after[i].id@ != #[trigger] after[j].id@ by {
                if j == before.len() {
                    assert(after[i] == before[i]);
                    assert(!(0 <= i < before.len() && before[i].id@ == a.id@));
                } else {
                    assert(before[i].id@ != before[j].id@);
                }
            }
            assert(after[before.len() as int] == a);
        },
    }
}

/// A profile update of the account `id`: a non-blank name (trimmed) and a
/// non-empty avatar replace the account's; an unknown account is added
/// from the current token, keeping a non-blank name as given.
pub open spec fn profile_updated(before: Seq<Account>, id: Seq<char>, name: Option<Seq<char>>, avatar: Option<Seq<char>>, token: Option<OAuthToken>, after: Seq<Account>) -> bool {
    match first_account(before, id) {
        Some(k) => {
            let old_acc = before[k];
            &&& after.len() == before.len()
            &&& forall|j: int| 0 <= j < before.len() && j != k ==> after[j] == before[j]
            &&& after[k].id == old_acc.id && after[k].access_token == old_acc.access_token
                && after[k].refresh_token == old_acc.refresh_token && after[k].expires_at
                == old_acc.expires_at
            &&& opt_str(after[k].display_name) == match name {
                Some(n) => if trimmed(n).len() > 0 {
                    Some(trimmed(n))
                } else {
                    opt_str(old_acc.display_name)
                },
                None => opt_str(old_acc.display_name),
            }
            &&& opt_str(after[k].avatar_url) == match avatar {
                Some(v) => if v.len() > 0 {
                    Some(v)
                } else {
                    opt_str(old_acc.avatar_url)
                },
                None => opt_str(old_acc.avatar_url),
            }
        },
        None => {
            let added = after.last();
            &&& after.len() == before.len() + 1
            &&& after.drop_last() == before
            &&& added.id@ == id
            &&& added.access_token@ == match token {
                Some(t) => t.access_token@,
                None => Seq::empty(),
            }
            &&& opt_str(added.display_name) == match name {
                Some(n) => if trimmed(n).len() > 0 {
                    Some(n)
                } else {
                    None
                },
                None => None,
            }
            &&& opt_str(added.avatar_url) == match avatar {
                Some(v) => if v.len() > 0 {
                    Some(v)
                } else {
                    None
                },
                None => None,
            }
            &&& match token {
                Some(t) => added.refresh_token == t.refresh_token && added.expires_at == t.received_at
                    + t.expires_in,
                None => added.refresh_token is None && added.expires_at == 0,
            }
        },
    }
}

pub fn update_profile(
    accounts: &mut Vec<Account>,
    id: &str,
    name: Option<String>,
    avatar: Option<String>,
    token: Option<&OAuthToken>,
)
    requires
        token matches Some(t) ==> expiry_fits(*t),
    ensures
        profile_updated(
            old(accounts)@,
            id@,
            opt_str(name),
            opt_str(avatar),
            match token {
                Some(t) => Some(*t),
                None => None,
            },
            final(accounts)@,
        ),
{
    match find_account(accounts, id) {
        Some(k) => {
            let mut acc = copy_account(&accounts[k]);
            let ghost o = accounts@;
            match name {
                Some(n) => {
                    let t = text::trim(n.as_str());
                    if !t.as_str().is_empty() {
                        acc.display_name = Some(t);
                    }
                },
                None => {},
            }
            match avatar {
                Some(v) => {
                    if !v.as_str().is_empty() {
                        acc.avatar_url = Some(v);
                    }
                },
                None => {},
            }
            accounts.set(k, acc);
            assert forall|j: int| 0 <= j < o.len() && j != k implies accounts@[j] == o[j] by {}
        },
        None => {
            let access = match token {
                Some(t) => t.access_token.clone(),
                None => String::new(),
            };
            let mut acc = Account::new(id.to_owned(), access);
            acc.display_name = match name {
                Some(n) => if text::is_blank(n.as_str()) {
                    None
                } else {
                    Some(n)
                },
                None => None,
            };
            acc.avatar_url = match avatar {
                Some(v) => if v.as_str().is_empty() {
                    None
                } else {
                    Some(v)
                },
                None => None,
            };
            match token {
                Some(t) => {
                    acc.refresh_token = copy_opt(&t.refresh_token);
                    acc.expires_at = t.received_at + t.expires_in;
                },
                None => {},
            }
            let ghost o = accounts@;
            accounts.push(acc);
            proof {
                assert(accounts@.drop_last() =~= o);
            }
        },
    }
}

/// Removes the account `id`; an unknown id is refused.
pub fn remove_account(accounts: &mut Vec<Account>, id: &str) -> (r: Result<(), String>)
    ensures
        match first_account(old(accounts)@, id@) {
            Some(k) => r is Ok && final(accounts)@ == old(accounts)@.remove(k),
            None => (r matches Err(e) && e@ == "Account not found"@) && final(accounts)@ == old(
                accounts,
            )@,
        },
{
    match find_account(accounts, id) {
        Some(k) => {
            accounts.remove(k);
            Ok(())
        },
        None => Err("Account not found".to_owned()),
    }
}

/// Removing an account from a list with distinct ids leaves no account
/// with that id.
pub proof fn removed_account_is_gone(before: Seq<Account>, id: Seq<char>, k: int)
    requires
        ids_distinct(before),
        first_account(before, id) == Some(k),
    ensures
        forall|j: int| 0 <= j < before.remove(k).len() ==> #[trigger] before.remove(k)[j].id@ != id,
        ids_distinct(before.remove(k)),
{
    let c = choose|c: int|
        0 <= c < before.len() && #[trigger] before[c].id@ == id && forall|j: int| 0 <= j < c ==> before[j].id@ != id;
    assert(k == c);
    let after = before.remove(k);
    assert forall|j: int| 0 <= j < after.len() implies #[trigger] after[j].id@ != id by {
        if j < k {
            assert(after[j] == before[j]);
        } else {
            assert(after[j] == before[j + 1]);
            assert(before[k].id@ != before[j + 1].id@);
        }
    }
    assert forall|i: int, j: int| 0 <= i < j < after.len() implies #[trigger] after[i].id@ != #[trigger] after[j].id@ by {
        let oi = if i < k { i } else { i + 1 };
        let oj = if j < k { j } else { j + 1 };
        assert(after[i] == before[oi] && after[j] == before[oj]);
        assert(before[oi].id@ != before[oj].id@);
    }
}

/// The account to switch to; an unknown id is refused.
pub fn find_for_switch(accounts: &Vec<Account>, id: &str) -> (r: Result<Account, String>)
    ensures
        match first_account(accounts@, id@) {
            Some(k) => r == Ok::<Account, String>(accounts@[k]),
            None => r matches Err(e) && e@ == "Account not found: "@ + id@,
        },
{
    match find_account(accounts, id) {
        Some(k) => Ok(copy_account(&accounts[k])),
        None => {
            let mut m = "Account not found: ".to_owned();
            m.append(id);
            Err(m)
        },
    }
}

/// The account that is current after loading: the one already chosen, or
/// else the first account, if any.
pub fn initial_current(current: Option<String>, accounts: &Vec<Account>) -> (r: Option<String>)
    ensures
        r == match current {
            Some(c) => Some(c),
            None => if accounts@.len() > 0 {
                Some(accounts@[0].id)
            } else {
                None
            },
        },
{
    match current {
        Some(c) => Some(c),
        None => if accounts.len() > 0 {
            Some(accounts[0].id.clone())
        } else {
            None
        },
    }
}

/// Applies a fetched profile to the account `id`: its name (see
/// [`crate::auth::profile_name`]) and avatar, as a profile update does.
pub fn apply_user_profile(accounts: &mut Vec<Account>, id: &str, user: &User, token: Option<&OAuthToken>)
    requires
        token matches Some(t) ==> expiry_fits(*t),
    ensures
        profile_updated(
            old(accounts)@,
            id@,
            profile_name_of(*user),
            opt_str(user.avatar_id),
            match token {
                Some(t) => Some(*t),
                None => None,
            },
            final(accounts)@,
        ),
{
    let name = crate::auth::profile_name(user);
    let avatar = copy_opt(&user.avatar_id);
    update_profile(accounts, id, name, avatar, token);
}

} // verus!
