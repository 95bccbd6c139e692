//! The two keyed stores of the ledger: tokens by identifier, and operator
//! grants by owner and operator.

use vstd::prelude::*;

use crate::assoc::{
    lemma_to_map_at, lemma_to_map_dom, lemma_to_map_push, lemma_to_map_remove,
    lemma_to_map_update, to_map,
};
use crate::error::ContractError;
use crate::expiration::Expiration;
use crate::token::{TokenRecord, TokenRecordView};

verus! {

/// Token records by identifier. No two records share an identifier.
pub struct TokenStore {
    records: Vec<TokenRecord>,
}

impl View for TokenStore {
    type V = Map<Seq<char>, TokenRecordView>;

    /// The record stored under each identifier.
    closed spec fn view(&self) -> Map<Seq<char>, TokenRecordView> {
        to_map(self.keys(), self.values())
    }
}

impl TokenStore {
    closed spec fn keys(&self) -> Seq<Seq<char>> {
        self.records@.map_values(|record: TokenRecord| record.token_id@)
    }

    closed spec fn values(&self) -> Seq<TokenRecordView> {
        self.records@.map_values(|record: TokenRecord| record@)
    }

    #[verifier::type_invariant]
    closed spec fn distinct(&self) -> bool {
        self.keys().no_duplicates()
    }

    /// A store holds finitely many records, each under its own identifier.
    pub proof fn lemma_view(&self)
        ensures
            self@.dom().finite(),
            forall|token_id: Seq<char>| #[trigger]
                self@.contains_key(token_id) ==> self@[token_id].token_id == token_id,
    {
        lemma_to_map_dom(self.keys(), self.values());
        assert forall|token_id: Seq<char>| #[trigger]
            self@.contains_key(token_id) implies self@[token_id].token_id == token_id by {
            let i = self.keys().index_of(token_id);
            assert(self.keys()[i] == token_id);
        }
    }

    /// An empty store.
    pub fn new() -> (store: TokenStore)
        ensures
            store@ == Map::<Seq<char>, TokenRecordView>::empty(),
    {
        let store = TokenStore { records: Vec::new() };
        assert(store@ =~= Map::<Seq<char>, TokenRecordView>::empty());
        store
    }

    /// Where the record of `token_id` stands, if there is one.
    fn position(&self, token_id: &String) -> (at: Option<usize>)
        ensures
            match at {
                Some(i) => i < self.records.len() && self.keys()[i as int] == token_id@,
                None => !self.keys().contains(token_id@),
            },
    {
        let mut i: usize = 0;
        while i < self.records.len()
            invariant
                i <= self.records.len(),
                forall|j: int| 0 <= j < i ==> self.keys()[j] != token_id@,
            decreases self.records.len() - i,
        {
            if self.records[i].token_id == *token_id {
                return Some(i);
            }
            i += 1;
        }
        None
    }

    /// The record stored under `token_id`, if there is one.
    pub fn may_load(&self, token_id: &str) -> (token: Option<&TokenRecord>)
        ensures
            token.deep_view() == self@.get(token_id@),
    {
        proof {
            use_type_invariant(self);
        }
        let key = token_id.to_owned();
        match self.position(&key) {
            Some(i) => {
                proof {
                    lemma_to_map_at(self.keys(), self.values(), i as int);
                }
                Some(&self.records[i])
            },
            None => None,
        }
    }

    /// The record stored under `token_id`; `NotFound` if there is none.
    pub fn load(&self, token_id: &str) -> (token: Result<&TokenRecord, ContractError>)
        ensures
            match token {
                Ok(record) => self@.contains_key(token_id@) && record@ == self@[token_id@],
                Err(error) => !self@.contains_key(token_id@) && error == ContractError::NotFound,
            },
    {
        match self.may_load(token_id) {
            Some(record) => Ok(record),
            None => Err(ContractError::NotFound),
        }
    }

    /// Whether a record is stored under `token_id`.
    pub fn has(&self, token_id: &str) -> (present: bool)
        ensures
            present == self@.contains_key(token_id@),
    {
        self.may_load(token_id).is_some()
    }

    /// Stores `record` under its identifier, in place of what was there.
    pub fn save(&mut self, record: TokenRecord)
        ensures
            final(self)@ == old(self)@.insert(record.token_id@, record@),
    {
        proof {
            use_type_invariant(&*self);
        }
        let at = self.position(&record.token_id);
        let ghost keys = self.keys();
        let ghost values = self.values();
        let mut records: Vec<TokenRecord> = Vec::new();
        std::mem::swap(&mut records, &mut self.records);
        match at {
            Some(i) => {
                records.set(i, record);
                proof {
                    lemma_to_map_update(keys, values, i as int, record@);
                    assert(records@.map_values(|r: TokenRecord| r.token_id@) =~= keys);
                    assert(records@.map_values(|r: TokenRecord| r@) =~= values.update(
                        i as int,
                        record@,
                    ));
                }
            },
            None => {
                records.push(record);
                proof {
                    lemma_to_map_push(keys, values, record.token_id@, record@);
                    assert(records@.map_values(|r: TokenRecord| r.token_id@) =~= keys.push(
                        record.token_id@,
                    ));
                    assert(records@.map_values(|r: TokenRecord| r@) =~= values.push(record@));
                }
            },
        }
        self.records = records;
    }

    /// Removes the record stored under `token_id`, if there is one.
    pub fn remove(&mut self, token_id: &str)
        ensures
            final(self)@ == old(self)@.remove(token_id@),
    {
        proof {
            use_type_invariant(&*self);
        }
        let key = token_id.to_owned();
        let at = self.position(&key);
        let ghost keys = self.keys();
        let ghost values = self.values();
        match at {
            Some(i) => {
                let mut records: Vec<TokenRecord> = Vec::new();
                std::mem::swap(&mut records, &mut self.records);
                records.remove(i);
                proof {
                    lemma_to_map_remove(keys, values, i as int);
                    assert(records@.map_values(|r: TokenRecord| r.token_id@) =~= keys.remove(
                        i as int,
                    ));
                    assert(records@.map_values(|r: TokenRecord| r@) =~= values.remove(i as int));
                }
                self.records = records;
            },
            None => {
                assert(self@ =~= old(self)@.remove(token_id@));
            },
        }
    }

    /// How many records are stored.
    pub fn len(&self) -> (count: usize)
        ensures
            count == self@.dom().len(),
    {
        proof {
            use_type_invariant(self);
            lemma_to_map_dom(self.keys(), self.values());
        }
        self.records.len()
    }
}

/// Operator grants by owner and operator: each gives the operator leave to
/// act on every token of the owner until it expires.
pub struct OperatorStore {
    grants: Vec<OperatorGrant>,
}

struct OperatorGrant {
    owner: String,
    operator: String,
    expires: Expiration,
}

impl View for OperatorStore {
    type V = Map<(Seq<char>, Seq<char>), Expiration>;

    /// The expiration of the grant that each owner gave each operator.
    closed spec fn view(&self) -> Map<(Seq<char>, Seq<char>), Expiration> {
        to_map(self.keys(), self.values())
    }
}

impl OperatorStore {
    closed spec fn keys(&self) -> Seq<(Seq<char>, Seq<char>)> {
        self.grants@.map_values(|grant: OperatorGrant| (grant.owner@, grant.operator@))
    }

    closed spec fn values(&self) -> Seq<Expiration> {
        self.grants@.map_values(|grant: OperatorGrant| grant.expires)
    }

    #[verifier::type_invariant]
    closed spec fn distinct(&self) -> bool {
        self.keys().no_duplicates()
    }

    /// An empty store.
    pub fn new() -> (store: OperatorStore)
        ensures
            store@ == Map::<(Seq<char>, Seq<char>), Expiration>::empty(),
    {
        let store = OperatorStore { grants: Vec::new() };
        assert(store@ =~= Map::<(Seq<char>, Seq<char>), Expiration>::empty());
        store
    }

    /// Where the grant of `owner` to `operator` stands, if there is one.
    fn position(&self, owner: &String, operator: &String) -> (at: Option<usize>)
        ensures
            match at {
                Some(i) => i < self.grants.len() && self.keys()[i as int] == (owner@, operator@),
                None => !self.keys().contains((owner@, operator@)),
            },
    {
        let mut i: usize = 0;
        while i < self.grants.len()
            invariant
                i <= self.grants.len(),
                forall|j: int| 0 <= j < i ==> self.keys()[j] != (owner@, operator@),
            decreases self.grants.len() - i,
        {
            if self.grants[i].owner == *owner && self.grants[i].operator == *operator {
                return Some(i);
            }
            i += 1;
        }
        None
    }

    /// The expiration of the grant that `owner` gave `operator`, if there is
    /// one.
    pub fn may_load(&self, owner: &str, operator: &str) -> (expires: Option<Expiration>)
        ensures
            expires == self@.get((owner@, operator@)),
    {
        proof {
            use_type_invariant(self);
        }
        let owner_key = owner.to_owned();
        let operator_key = operator.to_owned();
        match self.position(&owner_key, &operator_key) {
            Some(i) => {
                proof {
                    lemma_to_map_at(self.keys(), self.values(), i as int);
                }
                Some(self.grants[i].expires)
            },
            None => None,
        }
    }

    /// Records that `owner` lets `operator` act until `expires`, in place of
    /// an earlier grant between the two.
    pub fn save(&mut self, owner: &str, operator: &str, expires: Expiration)
        ensures
            final(self)@ == old(self)@.insert((owner@, operator@), expires),
    {
        proof {
            use_type_invariant(&*self);
        }
        let grant = OperatorGrant { owner: owner.to_owned(), operator: operator.to_owned(), expires };
        let at = self.position(&grant.owner, &grant.operator);
        let ghost keys = self.keys();
        let ghost values = self.values();
        let mut grants: Vec<OperatorGrant> = Vec::new();
        std::mem::swap(&mut grants, &mut self.grants);
        match at {
            Some(i) => {
                grants.set(i, grant);
                proof {
                    lemma_to_map_update(keys, values, i as int, expires);
                    assert(grants@.map_values(|g: OperatorGrant| (g.owner@, g.operator@)) =~= keys);
                    assert(grants@.map_values(|g: OperatorGrant| g.expires) =~= values.update(
                        i as int,
                        expires,
                    ));
                }
            },
            None => {
                grants.push(grant);
                proof {
                    lemma_to_map_push(keys, values, (owner@, operator@), expires);
                    assert(grants@.map_values(|g: OperatorGrant| (g.owner@, g.operator@))
                        =~= keys.push((owner@, operator@)));
                    assert(grants@.map_values(|g: OperatorGrant| g.expires) =~= values.push(
                        expires,
                    ));
                }
            },
        }
        self.grants = grants;
    }

    /// Removes the grant that `owner` gave `operator`, if there is one.
    pub fn remove(&mut self, owner: &str, operator: &str)
        ensures
            final(self)@ == old(self)@.remove((owner@, operator@)),
    {
        proof {
            use_type_invariant(&*self);
        }
        let owner_key = owner.to_owned();
        let operator_key = operator.to_owned();
        let at = self.position(&owner_key, &operator_key);
        let ghost keys = self.keys();
        let ghost values = self.values();
        match at {
            Some(i) => {
                let mut grants: Vec<OperatorGrant> = Vec::new();
                std::mem::swap(&mut grants, &mut self.grants);
                grants.remove(i);
                proof {
                    lemma_to_map_remove(keys, values, i as int);
                    assert(grants@.map_values(|g: OperatorGrant| (g.owner@, g.operator@))
                        =~= keys.remove(i as int));
                    assert(grants@.map_values(|g: OperatorGrant| g.expires) =~= values.remove(
                        i as int,
                    ));
                }
                self.grants = grants;
            },
            None => {
                assert(self@ =~= old(self)@.remove((owner@, operator@)));
            },
        }
    }
}

} // verus!
