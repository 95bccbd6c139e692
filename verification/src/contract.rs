//! The operations of the token contract: set-up, mint, burn, and the
//! dispatch of every other message to the base token library.

use vstd::prelude::*;

use crate::auth::{can_send, check_can_send};
use crate::decimal::decimal;
use crate::error::ContractError;
use crate::expiration::{BlockInfo, Expiration};
use crate::ledger::{IdentifierAllocator, Ledger, LedgerView};
use crate::msg::{
    BaseExecuteMsg, ExecuteMsg, ExecuteMsgView, Extension, InstantiateMsg, MetadataView, MintMsg,
    MintMsgInput, MintMsgInputView, MintMsgView,
};
use crate::response::{outcome_view, Response};
use crate::store::{OperatorStore, TokenStore};
use crate::token::TokenRecordView;

verus! {

/// What a burn reports: the action and the identifier of the burnt token.
pub open spec fn burn_response(token_id: Seq<char>) -> Seq<(Seq<char>, Seq<char>)> {
    seq![("action"@, "burn"@), ("token_id"@, token_id)]
}

impl LedgerView {
    /// The ledger right after set-up: no token, no grant, and `"1"` as the
    /// first identifier.
    pub open spec fn fresh(name: Seq<char>, symbol: Seq<char>, minter: Seq<char>) -> LedgerView {
        LedgerView {
            name,
            symbol,
            minter,
            next_identifier: 1,
            total_supply: 0,
            tokens: Map::<Seq<char>, TokenRecordView>::empty(),
            operators: Map::<(Seq<char>, Seq<char>), Expiration>::empty(),
        }
    }

    /// What is asked of the base library for a mint request: the request
    /// under the numeral of the identifier counter.
    pub open spec fn mint_request(
        self,
        msg: MintMsgInputView<Option<MetadataView>>,
    ) -> MintMsgView<Option<MetadataView>> {
        MintMsgView {
            token_id: decimal(self.next_identifier),
            owner: msg.owner,
            token_uri: msg.token_uri,
            extension: msg.extension,
        }
    }

    /// How a mint request from `sender` ends.
    pub open spec fn mint_outcome(
        self,
        sender: Seq<char>,
        msg: MintMsgInputView<Option<MetadataView>>,
    ) -> Result<Seq<(Seq<char>, Seq<char>)>, ContractError> {
        self.base_mint_outcome(sender, self.mint_request(msg))
    }

    /// The ledger after a mint request from `sender`. The identifier counter
    /// has advanced whether or not the mint succeeded.
    pub open spec fn after_mint(
        self,
        sender: Seq<char>,
        msg: MintMsgInputView<Option<MetadataView>>,
    ) -> LedgerView {
        (LedgerView { next_identifier: self.next_identifier + 1, ..self }).after_base_mint(
            sender,
            self.mint_request(msg),
        )
    }

    /// How a request of `sender` to burn `token_id` in `block` ends.
    pub open spec fn burn_outcome(
        self,
        block: BlockInfo,
        sender: Seq<char>,
        token_id: Seq<char>,
    ) -> Result<Seq<(Seq<char>, Seq<char>)>, ContractError> {
        if !self.tokens.contains_key(token_id) {
            Err(ContractError::NotFound)
        } else if !can_send(self.operators, self.tokens[token_id], sender, block) {
            Err(ContractError::Unauthorized)
        } else if self.total_supply == 0 {
            Err(ContractError::Consistency)
        } else {
            Ok(burn_response(token_id))
        }
    }

    /// The ledger after a request of `sender` to burn `token_id` in `block`:
    /// without the token and with one less in the supply where the burn
    /// succeeded, unchanged where it failed.
    pub open spec fn after_burn(
        self,
        block: BlockInfo,
        sender: Seq<char>,
        token_id: Seq<char>,
    ) -> LedgerView {
        if self.burn_outcome(block, sender, token_id) is Ok {
            LedgerView {
                total_supply: (self.total_supply - 1) as nat,
                tokens: self.tokens.remove(token_id),
                ..self
            }
        } else {
            self
        }
    }
}

/// How a message was dealt with.
#[derive(Clone, Debug, PartialEq)]
pub enum Handled {
    /// The ledger carried the operation out itself.
    Done(Response),
    /// The message is one for the base token library, which has yet to act.
    Forward(BaseExecuteMsg),
}

/// What a [`Handled`] says, as plain text.
pub enum HandledView {
    Done(Seq<(Seq<char>, Seq<char>)>),
    Forward(ExecuteMsgView),
}

impl View for Handled {
    type V = HandledView;

    open spec fn view(&self) -> HandledView {
        match *self {
            Handled::Done(response) => HandledView::Done(response@),
            Handled::Forward(msg) => HandledView::Forward(msg@),
        }
    }
}

/// What the outcome of a dispatch says, as plain text.
pub open spec fn handled_view(outcome: Result<Handled, ContractError>) -> Result<
    HandledView,
    ContractError,
> {
    match outcome {
        Ok(handled) => Ok(handled@),
        Err(error) => Err(error),
    }
}

/// The outcome of an operation that the ledger carried out itself, as the
/// outcome of a dispatch.
pub open spec fn done(outcome: Result<Seq<(Seq<char>, Seq<char>)>, ContractError>) -> Result<
    HandledView,
    ContractError,
> {
    match outcome {
        Ok(response) => Ok(HandledView::Done(response)),
        Err(error) => Err(error),
    }
}

impl LedgerView {
    /// How a message from `sender` in `block` ends.
    pub open spec fn execute_outcome(
        self,
        block: BlockInfo,
        sender: Seq<char>,
        msg: ExecuteMsgView,
    ) -> Result<HandledView, ContractError> {
        match msg {
            ExecuteMsgView::Burn { token_id } => done(self.burn_outcome(block, sender, token_id)),
            ExecuteMsgView::Mint(mint) => done(self.mint_outcome(sender, mint)),
            _ => Ok(HandledView::Forward(msg)),
        }
    }

    /// The ledger after a message from `sender` in `block`. A message for
    /// the base library leaves it as it is: that library has yet to act.
    pub open spec fn after_execute(
        self,
        block: BlockInfo,
        sender: Seq<char>,
        msg: ExecuteMsgView,
    ) -> LedgerView {
        match msg {
            ExecuteMsgView::Burn { token_id } => self.after_burn(block, sender, token_id),
            ExecuteMsgView::Mint(mint) => self.after_mint(sender, mint),
            _ => self,
        }
    }
}

/// Sets a ledger up: no token, no grant, `"1"` as the first identifier, and
/// the minter that `msg` names.
pub fn instantiate(msg: InstantiateMsg) -> (ledger: Ledger)
    ensures
        ledger@ == LedgerView::fresh(msg.name@, msg.symbol@, msg.minter@),
        ledger@.consistent(),
{
    let ledger = Ledger {
        name: msg.name,
        symbol: msg.symbol,
        minter: msg.minter,
        allocator: IdentifierAllocator::new(),
        total_supply: 0,
        tokens: TokenStore::new(),
        operators: OperatorStore::new(),
    };
    proof {
        ledger.lemma_well_formed();
    }
    ledger
}

/// Carries out a mint or a burn, and hands every other message on to the
/// base token library untouched. For a mint, the two counters must have room
/// for one more.
pub fn execute(ledger: &mut Ledger, block: &BlockInfo, sender: &str, msg: ExecuteMsg) -> (outcome:
    Result<Handled, ContractError>)
    requires
        msg is Mint ==> old(ledger).allocator.next_identifier < u64::MAX && old(ledger).total_supply
            < u64::MAX,
    ensures
        handled_view(outcome) == old(ledger)@.execute_outcome(*block, sender@, msg@),
        final(ledger)@ == old(ledger)@.after_execute(*block, sender@, msg@),
{
    match msg {
        ExecuteMsg::Burn { token_id } => {
            let response = execute_burn(ledger, block, sender, token_id)?;
            Ok(Handled::Done(response))
        },
        ExecuteMsg::Mint(mint) => {
            let response = execute_mint(ledger, sender, mint)?;
            Ok(Handled::Done(response))
        },
        other => Ok(Handled::Forward(BaseExecuteMsg::from(other))),
    }
}

/// Mints a token for the owner that `msg` names, under the next identifier
/// of the allocator. The caller cannot choose the identifier. The allocator
/// advances even where the base library then refuses the mint. The two
/// counters must have room for one more.
pub fn execute_mint(ledger: &mut Ledger, sender: &str, msg: MintMsgInput<Extension>) -> (outcome:
    Result<Response, ContractError>)
    requires
        old(ledger).allocator.next_identifier < u64::MAX,
        old(ledger).total_supply < u64::MAX,
    ensures
        outcome_view(outcome) == old(ledger)@.mint_outcome(sender@, msg@),
        final(ledger)@ == old(ledger)@.after_mint(sender@, msg@),
{
    let token_id = ledger.allocator.allocate();
    ledger.mint(
        sender,
        MintMsg { token_id, owner: msg.owner, token_uri: msg.token_uri, extension: msg.extension },
    )
}

/// Burns the token `token_id` if `sender` may act as its owner in `block`:
/// removes its record and takes one off the supply, both or neither.
pub fn execute_burn(ledger: &mut Ledger, block: &BlockInfo, sender: &str, token_id: String) -> (outcome:
    Result<Response, ContractError>)
    ensures
        outcome_view(outcome) == old(ledger)@.burn_outcome(*block, sender@, token_id@),
        final(ledger)@ == old(ledger)@.after_burn(*block, sender@, token_id@),
{
    let token = ledger.tokens.load(token_id.as_str())?;
    check_can_send(ledger, block, sender, token)?;
    ledger.decrement_supply()?;
    ledger.tokens.remove(token_id.as_str());
    let response = Response::new().add_attribute("action", "burn").add_attribute(
        "token_id",
        token_id.as_str(),
    );
    assert(response@ =~= burn_response(token_id@));
    Ok(response)
}

} // verus!
