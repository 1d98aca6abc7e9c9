//! The account registry: the accounts known to this installation, the
//! active one, and the labels the account picker shows. Reading and writing
//! it on disk is the host's business.
use vstd::prelude::*;
use crate::text::{decimal, decimal_of, joined, owned};

verus! {

/// One messaging account.
#[derive(Debug, Clone)]
pub struct Account {
    pub id: String,
    pub phone: String,
    pub name: String,
}

/// All accounts, and the id of the active one (empty when none is).
#[derive(Debug, Clone)]
pub struct AccountRegistry {
    pub active: String,
    pub accounts: Vec<Account>,
}

/// The API credentials of the client application.
#[derive(Debug, Clone)]
pub struct Credentials {
    pub api_id: i32,
    pub api_hash: String,
}

/// `k` is the first position of an account whose id is `id`.
pub open spec fn first_account(accounts: Seq<Account>, id: Seq<char>, k: int) -> bool {
    &&& 0 <= k < accounts.len()
    &&& accounts[k].id@ == id
    &&& forall|j: int| 0 <= j < k ==> #[trigger] accounts[j].id@ != id
}

/// Whether some account has the id `id`.
pub open spec fn account_listed(accounts: Seq<Account>, id: Seq<char>) -> bool {
    exists|j: int| 0 <= j < accounts.len() && #[trigger] accounts[j].id@ == id
}

/// The id given to the `n`-th account: `account_` and `n` in decimal.
pub open spec fn account_id_for(n: nat) -> Seq<char> {
    seq!['a', 'c', 'c', 'o', 'u', 'n', 't', '_'] + decimal_of(n)
}

/// The picker label of an account: its name, then its phone in parentheses.
pub open spec fn account_label(a: Account) -> Seq<char> {
    a.name@ + seq![' ', '('] + a.phone@ + seq![')']
}

/// The name of the session file of an account.
pub open spec fn session_file_for(account_id: Seq<char>) -> Seq<char> {
    account_id + seq!['.', 'd', 'a', 't']
}

/// The name of the session file that belongs to `account_id`.
pub fn session_file_name(account_id: &str) -> (r: String)
    ensures
        r@ == session_file_for(account_id@),
{
    proof {
        reveal_strlit(".dat");
    }
    joined(account_id, ".dat")
}

impl Default for AccountRegistry {
    fn default() -> (r: AccountRegistry)
        ensures
            r.active@.len() == 0,
            r.accounts@.len() == 0,
    {
        AccountRegistry { active: String::new(), accounts: Vec::new() }
    }
}

impl AccountRegistry {
    /// The position of the first account with id `id`.
    pub fn account_index(&self, id: &str) -> (r: Option<usize>)
        ensures
            r is Some ==> first_account(self.accounts@, id@, r->0 as int),
            r is None ==> !account_listed(self.accounts@, id@),
    {
        let target = owned(id);
        let mut i: usize = 0;
        while i < self.accounts.len()
            invariant
                i <= self.accounts@.len(),
                target@ == id@,
                forall|j: int| 0 <= j < i ==> #[trigger] self.accounts@[j].id@ != id@,
            decreases self.accounts@.len() - i,
        {
            if self.accounts[i].id == target {
                return Some(i);
            }
            i += 1;
        }
        None
    }

    /// The active account, if it is listed.
    pub fn get_active_account(&self) -> (r: Option<&Account>)
        ensures
            r is Some ==> exists|k: int|
                first_account(self.accounts@, self.active@, k) && *r->0 == self.accounts@[k],
            r is None ==> !account_listed(self.accounts@, self.active@),
    {
        match self.account_index(self.active.as_str()) {
            Some(k) => Some(&self.accounts[k]),
            None => None,
        }
    }

    /// Lists a new account under the next free number and returns its id;
    /// the first account of an empty registry becomes the active one.
    pub fn add_account(&mut self, phone: String, name: String) -> (r: String)
        requires
            old(self).accounts@.len() < usize::MAX,
        ensures
            r@ == account_id_for(old(self).accounts@.len() + 1),
            final(self).accounts@.len() == old(self).accounts@.len() + 1,
            final(self).accounts@.drop_last() == old(self).accounts@,
            final(self).accounts@.last().id@ == r@,
            final(self).accounts@.last().phone == phone,
            final(self).accounts@.last().name == name,
            old(self).active@.len() == 0 ==> final(self).active@ == r@,
            old(self).active@.len() != 0 ==> final(self).active == old(self).active,
    {
        proof {
            reveal_strlit("account_");
        }
        let number = decimal(self.accounts.len() + 1);
        let id = joined("account_", number.as_str());
        self.accounts.push(Account { id: id.clone(), phone, name });
        proof {
            assert(self.accounts@.drop_last() =~= old(self).accounts@);
        }
        if self.active.as_str().is_empty() {
            self.active = id.clone();
        }
        id
    }

    /// Makes `account_id` the active account, when it is listed.
    pub fn set_active(&mut self, account_id: &str)
        ensures
            account_listed(old(self).accounts@, account_id@) ==> final(self).active@
                == account_id@,
            !account_listed(old(self).accounts@, account_id@) ==> final(self).active == old(self).active,
            final(self).accounts == old(self).accounts,
    {
        if self.account_index(account_id).is_some() {
            self.active = owned(account_id);
        }
    }

    /// Whether any account is listed.
    pub fn has_accounts(&self) -> (r: bool)
        ensures
            r == (self.accounts@.len() > 0),
    {
        self.accounts.len() > 0
    }

    /// The account at `index`, if in range.
    pub fn get_account_by_index(&self, index: usize) -> (r: Option<&Account>)
        ensures
            index < self.accounts@.len() ==> r is Some && *r->0 == self.accounts@[index as int],
            index >= self.accounts@.len() ==> r is None,
    {
        if index < self.accounts.len() {
            Some(&self.accounts[index])
        } else {
            None
        }
    }

    /// Records who logged in: the active account takes the phone and name;
    /// an empty registry gets its first account, which becomes active.
    pub fn record_login(&mut self, phone: String, name: String)
        requires
            old(self).accounts@.len() < usize::MAX,
        ensures
            old(self).accounts@.len() > 0 ==> {
                &&& final(self).active == old(self).active
                &&& forall|k: int|
                    first_account(old(self).accounts@, old(self).active@, k) ==> final(self).accounts@ == old(self).accounts@.update(
                        k,
                        Account { phone, name, ..old(self).accounts@[k] },
                    )
                &&& !account_listed(old(self).accounts@, old(self).active@) ==> final(self).accounts@ == old(self).accounts@
            },
            old(self).accounts@.len() == 0 ==> {
                &&& final(self).accounts@.len() == 1
                &&& final(self).accounts@[0].id@ == account_id_for(1)
                &&& final(self).accounts@[0].phone == phone
                &&& final(self).accounts@[0].name == name
                &&& final(self).active@ == account_id_for(1)
            },
    {
        if self.has_accounts() {
            match self.account_index(self.active.as_str()) {
                Some(k) => {
                    self.accounts[k].phone = phone;
                    self.accounts[k].name = name;
                    proof {
                        assert(self.accounts@ =~= old(self).accounts@.update(
                            k as int,
                            Account { phone, name, ..old(self).accounts@[k as int] },
                        ));
                        assert forall|j: int|
                            first_account(old(self).accounts@, old(self).active@, j) implies j
                            == k by {
                            if j < k {
                                assert(old(self).accounts@[j].id@ != old(self).active@);
                            } else if j > k {
                                assert(old(self).accounts@[k as int].id@ != old(self).active@);
                            }
                        }
                    }
                },
                None => {},
            }
        } else {
            let id = self.add_account(phone, name);
            proof {
                assert(self.accounts@[0] == self.accounts@.last());
                assert(account_listed(self.accounts@, id@));
            }
            self.set_active(id.as_str());
        }
    }

    /// The picker rows: each account's id with its label, in list order.
    pub fn account_labels(&self) -> (r: Vec<(String, String)>)
        ensures
            r@.len() == self.accounts@.len(),
            forall|i: int|
                0 <= i < r@.len() ==> (#[trigger] r@[i]).0 == self.accounts@[i].id && r@[i].1@
                    == account_label(self.accounts@[i]),
    {
        let mut out: Vec<(String, String)> = Vec::new();
        let mut i: usize = 0;
        while i < self.accounts.len()
            invariant
                i <= self.accounts@.len(),
                out@.len() == i,
                forall|j: int|
                    0 <= j < i ==> (#[trigger] out@[j]).0 == self.accounts@[j].id && out@[j].1@
                        == account_label(self.accounts@[j]),
            decreases self.accounts@.len() - i,
        {
            let a = &self.accounts[i];
            proof {
                reveal_strlit(" (");
                reveal_strlit(")");
            }
            let head = joined(a.name.as_str(), " (");
            let body = joined(head.as_str(), a.phone.as_str());
            let label = joined(body.as_str(), ")");
            proof {
                assert(label@ =~= account_label(self.accounts@[i as int]));
            }
            out.push((a.id.clone(), label));
            i += 1;
        }
        out
    }
}

} // verus!
