//! The credential store: accounts by name, each a map from field names to values.
//!
//! Every operation either succeeds and changes the map as its contract says, or
//! reports an error and leaves the map exactly as it was.

use vstd::prelude::*;
use crate::failure::{Failure, FailureView};
use crate::strmap::{
    distinct_keys,
    entries_map,
    lemma_entries_value,
    lemma_entries_within,
    lemma_submaps_are_equal,
    StrMap,
};
use crate::text::str_eq;

verus! {

/// The fields of one account, as a mathematical map.
pub type Fields = Map<Seq<char>, Seq<char>>;

/// All accounts, as a mathematical map.
pub type Accounts = Map<Seq<char>, Fields>;

/// The fields of one account.
pub type Account = StrMap<String>;

/// A store as plain values: each account's name with its fields.
pub type Listing = Vec<(String, Vec<(String, String)>)>;

/// Account `a` exists and has field `f`.
pub open spec fn has_field(m: Accounts, a: Seq<char>, f: Seq<char>) -> bool {
    m.contains_key(a) && m[a].contains_key(f)
}

/// The fields of account `a`, none if there is no such account.
pub open spec fn fields_of(m: Accounts, a: Seq<char>) -> Fields {
    if m.contains_key(a) {
        m[a]
    } else {
        Map::empty()
    }
}

/// `m` with field `f` of account `a` set to `v`; the account is created if need be.
pub open spec fn with_field(m: Accounts, a: Seq<char>, f: Seq<char>, v: Seq<char>) -> Accounts {
    m.insert(a, fields_of(m, a).insert(f, v))
}

/// `m` with field `f` of account `a` deleted.
pub open spec fn without_field(m: Accounts, a: Seq<char>, f: Seq<char>) -> Accounts {
    m.insert(a, m[a].remove(f))
}

/// `m` with account `a` moved to the name `b`, replacing what was there.
pub open spec fn with_renamed_account(m: Accounts, a: Seq<char>, b: Seq<char>) -> Accounts {
    m.remove(a).insert(b, m[a])
}

/// `m` with field `f` of account `a` moved to the name `g`, replacing what was there.
pub open spec fn with_renamed_field(
    m: Accounts,
    a: Seq<char>,
    f: Seq<char>,
    g: Seq<char>,
) -> Accounts {
    m.insert(a, m[a].remove(f).insert(g, m[a][f]))
}

/// A field that was set is there with its value, and nothing else changed, so
/// that setting it once more needs an overwrite.
pub proof fn lemma_field_is_set(m: Accounts, a: Seq<char>, f: Seq<char>, v: Seq<char>)
    ensures
        has_field(with_field(m, a, f, v), a, f),
        with_field(m, a, f, v)[a][f] == v,
        forall|b: Seq<char>, g: Seq<char>|
            (b != a || g != f) ==> has_field(with_field(m, a, f, v), b, g) == has_field(
                m,
                b,
                g,
            ),
        forall|b: Seq<char>, g: Seq<char>|
            (b != a || g != f) && has_field(m, b, g) ==> with_field(m, a, f, v)[b][g]
                == m[b][g],
{
}

/// No account of a store without accounts has a field.
pub proof fn lemma_empty_store_has_no_field(a: Seq<char>, f: Seq<char>)
    ensures
        !has_field(Map::<Seq<char>, Fields>::empty(), a, f),
{
}

/// A renamed account has its fields under the new name and, unless that is
/// the old one, is gone from the old name; the other accounts stay.
pub proof fn lemma_account_is_renamed(m: Accounts, a: Seq<char>, b: Seq<char>)
    requires
        m.contains_key(a),
    ensures
        with_renamed_account(m, a, b).contains_key(b),
        with_renamed_account(m, a, b)[b] == m[a],
        a != b ==> !with_renamed_account(m, a, b).contains_key(a),
        forall|c: Seq<char>|
            c != a && c != b ==> with_renamed_account(m, a, b).contains_key(c)
                == m.contains_key(c),
        forall|c: Seq<char>|
            c != a && c != b && m.contains_key(c) ==> with_renamed_account(m, a, b)[c]
                == m[c],
{
}

/// The accounts that a listing stands for: later entries win.
pub open spec fn listing_map(s: Seq<(String, Vec<(String, String)>)>) -> Accounts
    decreases s.len(),
{
    if s.len() == 0 {
        Map::empty()
    } else {
        listing_map(s.drop_last()).insert(s.last().0@, entries_map(s.last().1@))
    }
}

/// The listing names each account of `m` once, with each of its fields once.
pub open spec fn lists(s: Seq<(String, Vec<(String, String)>)>, m: Accounts) -> bool {
    &&& listing_map(s) == m
    &&& distinct_keys(s)
    &&& forall|i: int| 0 <= i < s.len() ==> distinct_keys(#[trigger] s[i].1@)
}

/// The in-memory credential store.
pub struct Store {
    accounts: StrMap<Account>,
}

impl View for Store {
    type V = Accounts;

    closed spec fn view(&self) -> Accounts {
        self.accounts@
    }
}

impl Store {
    /// A store without accounts.
    pub fn new() -> (r: Store)
        ensures
            r@ == Map::<Seq<char>, Fields>::empty(),
    {
        Store { accounts: StrMap::new() }
    }

    /// Sets field `field` of `account` to `value`, creating the account if it
    /// does not exist. An existing field is only replaced when `overwrite` is set.
    pub fn add(&mut self, account: &str, field: &str, value: String, overwrite: bool) -> (r: Result<
        (),
        Failure,
    >)
        ensures
            match r {
                Ok(_) => (overwrite || !has_field(old(self)@, account@, field@)) && final(self)@
                    == with_field(old(self)@, account@, field@, value@),
                Err(e) => !overwrite && has_field(old(self)@, account@, field@) && e@
                    == FailureView::FieldExists && final(self)@ == old(self)@,
            },
    {
        let conflict = match self.accounts.get(account) {
            Some(fields) => fields.contains_key(field),
            None => false,
        };
        if conflict && !overwrite {
            return Err(Failure::FieldExists);
        }
        let mut fields = match self.accounts.remove(account) {
            Some(fields) => fields,
            None => StrMap::new(),
        };
        fields.insert(field.to_owned(), value);
        self.accounts.insert(account.to_owned(), fields);
        Ok(())
    }

    /// The value of field `field` of `account`.
    pub fn get(&self, account: &str, field: &str) -> (r: Result<&String, Failure>)
        ensures
            match r {
                Ok(v) => has_field(self@, account@, field@) && v@ == self@[account@][field@],
                Err(e) => if self@.contains_key(account@) {
                    !self@[account@].contains_key(field@) && e@ == FailureView::FieldNotFound(
                        field@,
                    )
                } else {
                    e@ == FailureView::AccountNotFound(account@)
                },
            },
    {
        match self.accounts.get(account) {
            None => Err(Failure::AccountNotFound(account.to_owned())),
            Some(fields) => match fields.get(field) {
                None => Err(Failure::FieldNotFound(field.to_owned())),
                Some(value) => Ok(value),
            },
        }
    }

    /// All fields of `account`.
    pub fn get_account(&self, account: &str) -> (r: Result<&Account, Failure>)
        ensures
            match r {
                Ok(fields) => self@.contains_key(account@) && fields@ == self@[account@],
                Err(e) => !self@.contains_key(account@) && e@ == FailureView::AccountNotFound(
                    account@,
                ),
            },
    {
        match self.accounts.get(account) {
            None => Err(Failure::AccountNotFound(account.to_owned())),
            Some(fields) => Ok(fields),
        }
    }

    /// Replaces the value of an existing field; never creates one.
    pub fn set_value(&mut self, account: &str, field: &str, value: String) -> (r: Result<
        (),
        Failure,
    >)
        ensures
            match r {
                Ok(_) => has_field(old(self)@, account@, field@) && final(self)@ == with_field(
                    old(self)@,
                    account@,
                    field@,
                    value@,
                ),
                Err(e) => !has_field(old(self)@, account@, field@) && e@
                    == FailureView::FieldNotFound(field@) && final(self)@ == old(self)@,
            },
    {
        let present = match self.accounts.get(account) {
            Some(fields) => fields.contains_key(field),
            None => false,
        };
        if !present {
            return Err(Failure::FieldNotFound(field.to_owned()));
        }
        self.add(account, field, value, true)
    }

    /// Moves `account` to `new_name`. An account already under `new_name` is
    /// only replaced when `overwrite` is set; renaming an account to its own
    /// name changes nothing.
    pub fn rename(&mut self, account: &str, new_name: &str, overwrite: bool) -> (r: Result<
        (),
        Failure,
    >)
        ensures
            match r {
                Ok(_) => old(self)@.contains_key(account@) && final(self)@ == with_renamed_account(
                    old(self)@,
                    account@,
                    new_name@,
                ),
                Err(e) => final(self)@ == old(self)@ && if old(self)@.contains_key(account@) {
                    e@ == FailureView::NameCollision
                } else {
                    e@ == FailureView::AccountNotFound(account@)
                },
            },
            r is Err <==> !old(self)@.contains_key(account@) || (new_name@ != account@ && old(
                self,
            )@.contains_key(new_name@) && !overwrite),
    {
        if !self.accounts.contains_key(account) {
            return Err(Failure::AccountNotFound(account.to_owned()));
        }
        if !str_eq(account, new_name) && self.accounts.contains_key(new_name) && !overwrite {
            return Err(Failure::NameCollision);
        }
        match self.accounts.remove(account) {
            Some(fields) => {
                self.accounts.insert(new_name.to_owned(), fields);
            },
            None => {},
        }
        Ok(())
    }

    /// Moves field `field` of `account` to `new_field`, with the same rules as
    /// [`Store::rename`] within the account.
    pub fn rename_field(
        &mut self,
        account: &str,
        field: &str,
        new_field: &str,
        overwrite: bool,
    ) -> (r: Result<(), Failure>)
        ensures
            match r {
                Ok(_) => has_field(old(self)@, account@, field@) && final(self)@
                    == with_renamed_field(old(self)@, account@, field@, new_field@),
                Err(e) => final(self)@ == old(self)@ && if !old(self)@.contains_key(account@) {
                    e@ == FailureView::AccountNotFound(account@)
                } else if !old(self)@[account@].contains_key(field@) {
                    e@ == FailureView::FieldNotFound(field@)
                } else {
                    e@ == FailureView::NameCollision
                },
            },
            r is Err <==> !has_field(old(self)@, account@, field@) || (new_field@ != field@
                && has_field(old(self)@, account@, new_field@) && !overwrite),
    {
        match self.accounts.get(account) {
            None => {
                return Err(Failure::AccountNotFound(account.to_owned()));
            },
            Some(fields) => {
                if !fields.contains_key(field) {
                    return Err(Failure::FieldNotFound(field.to_owned()));
                }
                if !str_eq(field, new_field) && fields.contains_key(new_field) && !overwrite {
                    return Err(Failure::NameCollision);
                }
            },
        }
        match self.accounts.remove(account) {
            Some(mut fields) => {
                match fields.remove(field) {
                    Some(value) => {
                        fields.insert(new_field.to_owned(), value);
                    },
                    None => {},
                }
                self.accounts.insert(account.to_owned(), fields);
            },
            None => {},
        }
        Ok(())
    }

    /// Deletes field `field` of `account`; the account stays, even if empty.
    pub fn remove_field(&mut self, account: &str, field: &str) -> (r: Result<(), Failure>)
        ensures
            match r {
                Ok(_) => has_field(old(self)@, account@, field@) && final(self)@ == without_field(
                    old(self)@,
                    account@,
                    field@,
                ),
                Err(e) => !has_field(old(self)@, account@, field@) && e@
                    == FailureView::FieldNotFound(field@) && final(self)@ == old(self)@,
            },
    {
        let present = match self.accounts.get(account) {
            Some(fields) => fields.contains_key(field),
            None => false,
        };
        if !present {
            return Err(Failure::FieldNotFound(field.to_owned()));
        }
        match self.accounts.remove(account) {
            Some(mut fields) => {
                fields.remove(field);
                self.accounts.insert(account.to_owned(), fields);
            },
            None => {},
        }
        Ok(())
    }

    /// Deletes `account` with all its fields.
    pub fn remove_account(&mut self, account: &str) -> (r: Result<(), Failure>)
        ensures
            match r {
                Ok(_) => old(self)@.contains_key(account@) && final(self)@ == old(self)@.remove(
                    account@,
                ),
                Err(e) => !old(self)@.contains_key(account@) && e@ == FailureView::AccountNotFound(
                    account@,
                ) && final(self)@ == old(self)@,
            },
    {
        match self.accounts.remove(account) {
            Some(_) => Ok(()),
            None => Err(Failure::AccountNotFound(account.to_owned())),
        }
    }

    /// Every account with its fields, for listing: each account once, and
    /// each of its fields once.
    pub fn get_all(&self) -> (r: Listing)
        ensures
            lists(r@, self@),
    {
        let n = self.accounts.len();
        let mut out: Listing = Vec::new();
        let mut i: usize = 0;
        while i < n
            invariant
                i <= n,
                n == self.accounts.entries().len(),
                out@.len() == i,
                listing_map(out@) == entries_map(self.accounts.entries().take(i as int)),
                distinct_keys(self.accounts.entries()),
                forall|j: int|
                    0 <= j < i ==> (#[trigger] out@[j]).0 == self.accounts.entries()[j].0,
                forall|j: int| 0 <= j < i ==> distinct_keys(#[trigger] out@[j].1@),
            decreases n - i,
        {
            let name = self.accounts.key_at(i).clone();
            let fields = self.accounts.value_at(i).to_pairs();
            proof {
                let grown = out@.push((name, fields));
                assert(grown.drop_last() =~= out@);
                assert(self.accounts.entries().take(i + 1).drop_last()
                    =~= self.accounts.entries().take(i as int));
            }
            out.push((name, fields));
            i += 1;
        }
        assert(self.accounts.entries().take(n as int) =~= self.accounts.entries());
        out
    }

    /// The store that a listing stands for: of two accounts with one name, and
    /// of two fields with one name, the later wins.
    pub fn from_entries(listing: Listing) -> (r: Store)
        ensures
            r@ == listing_map(listing@),
    {
        let mut store = Store::new();
        let ghost all = listing@;
        for entry in it: listing
            invariant
                it.seq() == all,
                store@ == listing_map(all.take(it.index() as int)),
        {
            assert(all.take(it.index() + 1).drop_last() =~= all.take(it.index() as int));
            let fields = StrMap::from_pairs(entry.1);
            store.accounts.insert(entry.0, fields);
        }
        assert(all.take(all.len() as int) =~= all);
        store
    }

    /// A copy of the store.
    pub fn clone(&self) -> (r: Store)
        ensures
            r@ == self@,
    {
        Store::from_entries(self.get_all())
    }

    /// Whether every account of `self` is in `other` with the same fields.
    pub fn is_within(&self, other: &Store) -> (r: bool)
        ensures
            r == self@.submap_of(other@),
    {
        let n = self.accounts.len();
        let mut i: usize = 0;
        while i < n
            invariant
                i <= n,
                n == self.accounts.entries().len(),
                distinct_keys(self.accounts.entries()),
                self@ == entries_map(self.accounts.entries()),
                forall|j: int|
                    0 <= j < i ==> other@.contains_key(#[trigger] self.accounts.entries()[j].0@)
                        && other@[self.accounts.entries()[j].0@] == self.accounts.entries()[j].1@,
            decreases n - i,
        {
            proof {
                lemma_entries_value(self.accounts.entries(), i as int);
            }
            let same = match other.accounts.get(self.accounts.key_at(i).as_str()) {
                Some(fields) => fields.equals(self.accounts.value_at(i)),
                None => false,
            };
            if !same {
                return false;
            }
            i += 1;
        }
        proof {
            lemma_entries_within(self.accounts.entries(), other@);
        }
        true
    }

    /// Whether the two stores hold the same accounts with the same fields.
    pub fn equals(&self, other: &Store) -> (r: bool)
        ensures
            r == (self@ == other@),
    {
        let r = self.is_within(other) && other.is_within(self);
        proof {
            if r {
                lemma_submaps_are_equal(self@, other@);
            }
        }
        r
    }

    /// Deletes every account.
    pub fn remove_all(&mut self)
        ensures
            final(self)@ == Map::<Seq<char>, Fields>::empty(),
    {
        self.accounts = StrMap::new();
    }
}

} // verus!
