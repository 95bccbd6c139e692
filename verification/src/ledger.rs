//! The ledger: its counters, its tokens and its operator grants, with the
//! primitives of the base token library on them.

use vstd::prelude::*;

use crate::decimal::{decimal, to_decimal};
use crate::error::ContractError;
use crate::expiration::Expiration;
use crate::msg::{Extension, MetadataView, MintMsg, MintMsgView};
use crate::response::{outcome_view, Response};
use crate::store::{OperatorStore, TokenStore};
use crate::token::{ApprovalView, TokenRecord, TokenRecordView};

verus! {

/// The counter from which token identifiers are drawn. It only ever grows,
/// so no identifier is handed out twice.
#[derive(Clone, Copy, Debug, PartialEq, Eq, Structural)]
pub struct IdentifierAllocator {
    /// The number whose numeral the next token gets.
    pub next_identifier: u64,
}

impl IdentifierAllocator {
    /// The allocator of a new ledger: the first identifier is `"1"`.
    pub fn new() -> (allocator: IdentifierAllocator)
        ensures
            allocator.next_identifier == 1,
    {
        IdentifierAllocator { next_identifier: 1 }
    }

    /// Hands out the decimal numeral of the counter and advances the counter
    /// by one. The counter must not stand at its last value.
    pub fn allocate(&mut self) -> (token_id: String)
        requires
            old(self).next_identifier < u64::MAX,
        ensures
            token_id@ == decimal(old(self).next_identifier as nat),
            final(self).next_identifier == old(self).next_identifier + 1,
    {
        let token_id = to_decimal(self.next_identifier);
        self.next_identifier = self.next_identifier + 1;
        token_id
    }
}

/// The whole state of the token contract.
pub struct Ledger {
    /// Name of the collection.
    pub name: String,
    /// Symbol of the collection.
    pub symbol: String,
    /// The only identity that may mint.
    pub minter: String,
    /// Where the identifiers of new tokens come from.
    pub allocator: IdentifierAllocator,
    /// How many tokens exist.
    pub total_supply: u64,
    /// The tokens that exist, by identifier.
    pub tokens: TokenStore,
    /// The grants that owners gave to operators.
    pub operators: OperatorStore,
}

/// The state of the token contract, as mathematical values.
pub struct LedgerView {
    pub name: Seq<char>,
    pub symbol: Seq<char>,
    pub minter: Seq<char>,
    /// The number whose numeral the next token gets.
    pub next_identifier: nat,
    /// How many tokens exist, by the ledger's own count.
    pub total_supply: nat,
    pub tokens: Map<Seq<char>, TokenRecordView>,
    pub operators: Map<(Seq<char>, Seq<char>), Expiration>,
}

impl View for Ledger {
    type V = LedgerView;

    open spec fn view(&self) -> LedgerView {
        LedgerView {
            name: self.name@,
            symbol: self.symbol@,
            minter: self.minter@,
            next_identifier: self.allocator.next_identifier as nat,
            total_supply: self.total_supply as nat,
            tokens: self.tokens@,
            operators: self.operators@,
        }
    }
}

/// The record that the base library stores for a mint request.
pub open spec fn minted_record(msg: MintMsgView<Option<MetadataView>>) -> TokenRecordView {
    TokenRecordView {
        token_id: msg.token_id,
        owner: msg.owner,
        approvals: Seq::<ApprovalView>::empty(),
        token_uri: msg.token_uri,
        extension: msg.extension,
    }
}

/// What a mint reports: the action, who minted, and the new identifier.
pub open spec fn mint_response(sender: Seq<char>, token_id: Seq<char>) -> Seq<
    (Seq<char>, Seq<char>),
> {
    seq![("action"@, "mint"@), ("minter"@, sender), ("token_id"@, token_id)]
}

impl LedgerView {
    /// Every record stands under its own identifier, and there are finitely
    /// many. This holds of the view of every [`Ledger`].
    pub open spec fn well_formed(self) -> bool {
        &&& self.tokens.dom().finite()
        &&& forall|token_id: Seq<char>| #[trigger]
            self.tokens.contains_key(token_id) ==> self.tokens[token_id].token_id == token_id
    }

    /// The invariant of the ledger between operations: the supply counter
    /// counts the stored tokens, and every stored token has an identifier
    /// that the allocator has handed out already.
    pub open spec fn consistent(self) -> bool {
        &&& self.well_formed()
        &&& self.next_identifier >= 1
        &&& self.total_supply == self.tokens.dom().len()
        &&& forall|token_id: Seq<char>| #[trigger]
            self.tokens.contains_key(token_id) ==> exists|n: nat|
                1 <= n < self.next_identifier && token_id == #[trigger] decimal(n)
    }

    /// How the base library answers a mint request from `sender`: only the
    /// minter may mint, and only under an identifier that is free.
    pub open spec fn base_mint_outcome(
        self,
        sender: Seq<char>,
        msg: MintMsgView<Option<MetadataView>>,
    ) -> Result<Seq<(Seq<char>, Seq<char>)>, ContractError> {
        if sender != self.minter {
            Err(ContractError::Unauthorized)
        } else if self.tokens.contains_key(msg.token_id) {
            Err(ContractError::Claimed)
        } else {
            Ok(mint_response(sender, msg.token_id))
        }
    }

    /// The ledger after the base library has answered a mint request: on
    /// success one more record and one more in the supply, else no change.
    pub open spec fn after_base_mint(
        self,
        sender: Seq<char>,
        msg: MintMsgView<Option<MetadataView>>,
    ) -> LedgerView {
        if self.base_mint_outcome(sender, msg) is Ok {
            LedgerView {
                total_supply: self.total_supply + 1,
                tokens: self.tokens.insert(msg.token_id, minted_record(msg)),
                ..self
            }
        } else {
            self
        }
    }
}

impl Ledger {
    /// The view of a ledger is well formed.
    pub proof fn lemma_well_formed(&self)
        ensures
            self@.well_formed(),
    {
        self.tokens.lemma_view();
    }

    /// The base library's mint: stores a new record under the identifier that
    /// `msg` names and counts it, if `sender` is the minter and the identifier
    /// is free. The supply counter must have room for one more.
    pub fn mint(&mut self, sender: &str, msg: MintMsg<Extension>) -> (outcome: Result<
        Response,
        ContractError,
    >)
        requires
            old(self).total_supply < u64::MAX,
        ensures
            outcome_view(outcome) == old(self)@.base_mint_outcome(sender@, msg@),
            final(self)@ == old(self)@.after_base_mint(sender@, msg@),
    {
        if sender.to_owned() != self.minter {
            return Err(ContractError::Unauthorized);
        }
        if self.tokens.has(msg.token_id.as_str()) {
            return Err(ContractError::Claimed);
        }
        let response = Response::new().add_attribute("action", "mint").add_attribute(
            "minter",
            sender,
        ).add_attribute("token_id", msg.token_id.as_str());
        assert(response@ =~= mint_response(sender@, msg.token_id@));
        let record = TokenRecord {
            token_id: msg.token_id,
            owner: msg.owner,
            approvals: Vec::new(),
            token_uri: msg.token_uri,
            extension: msg.extension,
        };
        assert(record@ == minted_record(msg@)) by {
            assert(record@.approvals =~= Seq::<ApprovalView>::empty());
        }
        self.tokens.save(record);
        self.increment_supply();
        Ok(response)
    }

    /// Counts one more token and returns the new count. The counter must
    /// have room for one more.
    pub fn increment_supply(&mut self) -> (count: u64)
        requires
            old(self).total_supply < u64::MAX,
        ensures
            count == old(self).total_supply + 1,
            final(self)@ == (LedgerView { total_supply: old(self)@.total_supply + 1, ..old(self)@ }),
    {
        self.total_supply = self.total_supply + 1;
        self.total_supply
    }

    /// Counts one token fewer and returns the new count; `Consistency`, and
    /// no change, where the count is zero already.
    pub fn decrement_supply(&mut self) -> (count: Result<u64, ContractError>)
        ensures
            old(self).total_supply > 0 ==> count == Ok::<u64, ContractError>(
                (old(self).total_supply - 1) as u64,
            ) && final(self)@ == (LedgerView {
                total_supply: (old(self)@.total_supply - 1) as nat,
                ..old(self)@
            }),
            old(self).total_supply == 0 ==> count == Err::<u64, ContractError>(
                ContractError::Consistency,
            ) && final(self)@ == old(self)@,
    {
        if self.total_supply == 0 {
            return Err(ContractError::Consistency);
        }
        self.total_supply = self.total_supply - 1;
        Ok(self.total_supply)
    }
}

} // verus!
