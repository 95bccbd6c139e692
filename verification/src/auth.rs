//! Who may act as the owner of a token.

use vstd::prelude::*;

use crate::error::ContractError;
use crate::expiration::{BlockInfo, Expiration};
use crate::ledger::Ledger;
use crate::token::{ApprovalView, TokenRecord, TokenRecordView};

verus! {

/// Whether `approval` lets `sender` act in `block`: it names the sender and
/// has not expired.
pub open spec fn approval_permits(approval: ApprovalView, sender: Seq<char>, block: BlockInfo) -> bool {
    approval.spender == sender && !approval.expires.expired_at(block)
}

/// Whether some approval on `token` lets `sender` act in `block`.
pub open spec fn approved(token: TokenRecordView, sender: Seq<char>, block: BlockInfo) -> bool {
    exists|i: int|
        0 <= i < token.approvals.len() && approval_permits(
            #[trigger] token.approvals[i],
            sender,
            block,
        )
}

/// Whether an operator grant, looked up for the owner and the sender, lets
/// the sender act in `block`. An expired grant counts as no grant.
pub open spec fn operator_permits(grant: Option<Expiration>, block: BlockInfo) -> bool {
    match grant {
        Some(expires) => !expires.expired_at(block),
        None => false,
    }
}

/// Whether `sender` may act as the owner of `token` in `block`: as the owner,
/// through an unexpired approval on the token, or through an unexpired grant
/// of the owner to the sender as operator.
pub open spec fn can_send(
    operators: Map<(Seq<char>, Seq<char>), Expiration>,
    token: TokenRecordView,
    sender: Seq<char>,
    block: BlockInfo,
) -> bool {
    ||| token.owner == sender
    ||| approved(token, sender, block)
    ||| operator_permits(operators.get((token.owner, sender)), block)
}

/// Whether some approval on `token` lets `sender` act in `block`.
fn has_approval(token: &TokenRecord, sender: &String, block: &BlockInfo) -> (found: bool)
    ensures
        found == approved(token@, sender@, *block),
{
    let mut i: usize = 0;
    while i < token.approvals.len()
        invariant
            i <= token.approvals.len(),
            forall|j: int| 0 <= j < i ==> !approval_permits(token@.approvals[j], sender@, *block),
        decreases token.approvals.len() - i,
    {
        let approval = &token.approvals[i];
        if approval.spender == *sender && !approval.is_expired(block) {
            assert(approval_permits(token@.approvals[i as int], sender@, *block));
            return true;
        }
        i += 1;
    }
    false
}

/// Decides on an operator grant that was looked up: `Unauthorized` where
/// there is none or it has expired.
pub fn check_operator(grant: Option<Expiration>, block: &BlockInfo) -> (verdict: Result<
    (),
    ContractError,
>)
    ensures
        verdict == if operator_permits(grant, *block) {
            Ok::<(), ContractError>(())
        } else {
            Err(ContractError::Unauthorized)
        },
{
    match grant {
        Some(expires) => {
            if expires.is_expired(block) {
                Err(ContractError::Unauthorized)
            } else {
                Ok(())
            }
        },
        None => Err(ContractError::Unauthorized),
    }
}

/// Decides whether `sender` may act as the owner of `token` in `block`. The
/// owner is asked first, then the approvals on the token, and the operator
/// grants of `ledger` last. Nothing is changed.
pub fn check_can_send(ledger: &Ledger, block: &BlockInfo, sender: &str, token: &TokenRecord) -> (verdict:
    Result<(), ContractError>)
    ensures
        verdict == if can_send(ledger@.operators, token@, sender@, *block) {
            Ok::<(), ContractError>(())
        } else {
            Err(ContractError::Unauthorized)
        },
{
    let caller = sender.to_owned();
    if token.owner == caller {
        return Ok(());
    }
    if has_approval(token, &caller, block) {
        return Ok(());
    }
    let grant = ledger.operators.may_load(token.owner.as_str(), sender);
    check_operator(grant, block)
}

} // verus!
