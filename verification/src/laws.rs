//! What holds of the ledger over whole histories of mints and burns.

use vstd::prelude::*;

use crate::auth::{approval_permits, approved, operator_permits};
use crate::contract::burn_response;
use crate::decimal::{decimal, lemma_decimal_injective};
use crate::error::ContractError;
use crate::expiration::{BlockInfo, Expiration};
use crate::ledger::LedgerView;
use crate::msg::{MetadataView, MintMsgInputView};

verus! {

/// One request to the ledger, as plain values.
pub enum Call {
    /// `sender` asks for a mint.
    Mint { sender: Seq<char>, msg: MintMsgInputView<Option<MetadataView>> },
    /// `sender` asks in `block` that `token_id` be burnt.
    Burn { block: BlockInfo, sender: Seq<char>, token_id: Seq<char> },
}

impl LedgerView {
    /// Whether `call` succeeds on this ledger.
    pub open spec fn call_succeeds(self, call: Call) -> bool {
        match call {
            Call::Mint { sender, msg } => self.mint_outcome(sender, msg) is Ok,
            Call::Burn { block, sender, token_id } => self.burn_outcome(
                block,
                sender,
                token_id,
            ) is Ok,
        }
    }

    /// The ledger after `call`.
    pub open spec fn after_call(self, call: Call) -> LedgerView {
        match call {
            Call::Mint { sender, msg } => self.after_mint(sender, msg),
            Call::Burn { block, sender, token_id } => self.after_burn(block, sender, token_id),
        }
    }

    /// The ledger after `calls`, made one after the other.
    pub open spec fn after_calls(self, calls: Seq<Call>) -> LedgerView
        decreases calls.len(),
    {
        if calls.len() == 0 {
            self
        } else {
            self.after_calls(calls.drop_last()).after_call(calls.last())
        }
    }

    /// The identifier that `call`, a mint, draws from the allocator of this
    /// ledger.
    pub open spec fn identifier_drawn(self, call: Call) -> Seq<char>
        recommends
            call is Mint,
    {
        match call {
            Call::Mint { sender, msg } => self.mint_request(msg).token_id,
            Call::Burn { block, sender, token_id } => Seq::<char>::empty(),
        }
    }

    /// Whether `token_id` was handed out earlier and is stored no longer.
    pub open spec fn retired(self, token_id: Seq<char>) -> bool {
        &&& !self.tokens.contains_key(token_id)
        &&& exists|n: nat| 1 <= n < self.next_identifier && token_id == #[trigger] decimal(n)
    }
}

/// How many of `calls` ask for a mint.
pub open spec fn mint_attempts(calls: Seq<Call>) -> nat
    decreases calls.len(),
{
    if calls.len() == 0 {
        0
    } else if calls.last() is Mint {
        mint_attempts(calls.drop_last()) + 1
    } else {
        mint_attempts(calls.drop_last())
    }
}

/// Whether the last of `calls`, made on `start` after those before it, is a
/// mint that succeeds.
pub open spec fn ends_in_mint(start: LedgerView, calls: Seq<Call>) -> bool {
    calls.len() > 0 && calls.last() is Mint && start.after_calls(calls.drop_last()).call_succeeds(
        calls.last(),
    )
}

/// Whether the last of `calls`, made on `start` after those before it, is a
/// burn that succeeds.
pub open spec fn ends_in_burn(start: LedgerView, calls: Seq<Call>) -> bool {
    calls.len() > 0 && calls.last() is Burn && start.after_calls(calls.drop_last()).call_succeeds(
        calls.last(),
    )
}

/// How many mints succeed when `calls` are made on `start`.
pub open spec fn mints_succeeded(start: LedgerView, calls: Seq<Call>) -> nat
    decreases calls.len(),
{
    if calls.len() == 0 {
        0
    } else if ends_in_mint(start, calls) {
        mints_succeeded(start, calls.drop_last()) + 1
    } else {
        mints_succeeded(start, calls.drop_last())
    }
}

/// How many burns succeed when `calls` are made on `start`.
pub open spec fn burns_succeeded(start: LedgerView, calls: Seq<Call>) -> nat
    decreases calls.len(),
{
    if calls.len() == 0 {
        0
    } else if ends_in_burn(start, calls) {
        burns_succeeded(start, calls.drop_last()) + 1
    } else {
        burns_succeeded(start, calls.drop_last())
    }
}

/// The identifiers of the tokens that are minted when `calls` are made on
/// `start`, in the order of the calls.
pub open spec fn minted(start: LedgerView, calls: Seq<Call>) -> Seq<Seq<char>>
    decreases calls.len(),
{
    if calls.len() == 0 {
        Seq::<Seq<char>>::empty()
    } else if ends_in_mint(start, calls) {
        minted(start, calls.drop_last()).push(
            start.after_calls(calls.drop_last()).identifier_drawn(calls.last()),
        )
    } else {
        minted(start, calls.drop_last())
    }
}

/// Whether every mint that succeeds, when `calls` are made on `start`, comes
/// before every mint that fails.
pub open spec fn no_mint_fails_before_one_succeeds(start: LedgerView, calls: Seq<Call>) -> bool
    decreases calls.len(),
{
    if calls.len() == 0 {
        true
    } else if ends_in_mint(start, calls) {
        &&& no_mint_fails_before_one_succeeds(start, calls.drop_last())
        &&& mint_attempts(calls.drop_last()) == mints_succeeded(start, calls.drop_last())
    } else {
        no_mint_fails_before_one_succeeds(start, calls.drop_last())
    }
}

/// A mint or a burn keeps the invariant of the ledger, and the identifier
/// counter never goes back.
pub proof fn law_call_keeps_consistency(ledger: LedgerView, call: Call)
    requires
        ledger.consistent(),
    ensures
        ledger.after_call(call).consistent(),
        ledger.after_call(call).next_identifier >= ledger.next_identifier,
{
    let after = ledger.after_call(call);
    match call {
        Call::Mint { sender, msg } => {
            lemma_fresh_identifier(ledger);
            assert forall|id: Seq<char>| #[trigger] after.tokens.contains_key(id) implies exists|
                n: nat,
            |
                1 <= n < after.next_identifier && id == #[trigger] decimal(n) by {
                if ledger.tokens.contains_key(id) {
                    let n = choose|n: nat|
                        1 <= n < ledger.next_identifier && id == #[trigger] decimal(n);
                    assert(1 <= n < after.next_identifier && id == decimal(n));
                } else {
                    let n = ledger.next_identifier;
                    assert(1 <= n < after.next_identifier && id == decimal(n));
                }
            }
        },
        Call::Burn { block, sender, token_id } => {
            if ledger.burn_outcome(block, sender, token_id) is Ok {
                assert forall|id: Seq<char>| #[trigger]
                    after.tokens.contains_key(id) implies exists|n: nat|
                    1 <= n < after.next_identifier && id == #[trigger] decimal(n) by {
                    assert(ledger.tokens.contains_key(id));
                }
            }
        },
    }
}

/// On a consistent ledger no token is stored under the numeral of the
/// identifier counter.
pub proof fn lemma_fresh_identifier(ledger: LedgerView)
    requires
        ledger.consistent(),
    ensures
        !ledger.tokens.contains_key(decimal(ledger.next_identifier)),
{
    let token_id = decimal(ledger.next_identifier);
    if ledger.tokens.contains_key(token_id) {
        let n = choose|n: nat| 1 <= n < ledger.next_identifier && token_id == #[trigger] decimal(n);
        lemma_decimal_injective(n, ledger.next_identifier);
    }
}

/// On a consistent ledger a mint is refused only to a sender that is not
/// the minter: the identifier that the allocator hands out is never taken.
pub proof fn law_mint_succeeds_for_the_minter(
    ledger: LedgerView,
    sender: Seq<char>,
    msg: MintMsgInputView<Option<MetadataView>>,
)
    requires
        ledger.consistent(),
    ensures
        ledger.mint_outcome(sender, msg) == if sender == ledger.minter {
            Ok::<Seq<(Seq<char>, Seq<char>)>, ContractError>(
                crate::ledger::mint_response(sender, decimal(ledger.next_identifier)),
            )
        } else {
            Err(ContractError::Unauthorized)
        },
{
    lemma_fresh_identifier(ledger);
}

/// Mints and burns leave the operator grants, the minter and the names of
/// the collection alone, and keep the invariant of the ledger.
pub proof fn law_calls_keep_consistency(start: LedgerView, calls: Seq<Call>)
    ensures
        start.after_calls(calls).operators == start.operators,
        start.after_calls(calls).minter == start.minter,
        start.after_calls(calls).name == start.name,
        start.after_calls(calls).symbol == start.symbol,
        start.after_calls(calls).next_identifier >= start.next_identifier,
        start.consistent() ==> start.after_calls(calls).consistent(),
    decreases calls.len(),
{
    if calls.len() > 0 {
        law_calls_keep_consistency(start, calls.drop_last());
        if start.consistent() {
            law_call_keeps_consistency(start.after_calls(calls.drop_last()), calls.last());
        }
    }
}

/// The identifier counter counts the mints that were asked for, whether they
/// succeeded or not.
pub proof fn law_counter_counts_attempts(start: LedgerView, calls: Seq<Call>)
    ensures
        start.after_calls(calls).next_identifier == start.next_identifier + mint_attempts(calls),
    decreases calls.len(),
{
    if calls.len() > 0 {
        law_counter_counts_attempts(start, calls.drop_last());
    }
}

/// After any mints and burns the supply is what it was, plus the mints that
/// succeeded, minus the burns that succeeded; never were more tokens burnt
/// than there were.
pub proof fn law_supply_accounting(start: LedgerView, calls: Seq<Call>)
    ensures
        start.after_calls(calls).total_supply == start.total_supply + mints_succeeded(start, calls)
            - burns_succeeded(start, calls),
        burns_succeeded(start, calls) <= start.total_supply + mints_succeeded(start, calls),
    decreases calls.len(),
{
    if calls.len() > 0 {
        law_supply_accounting(start, calls.drop_last());
    }
}

/// As many identifiers are minted as mints succeed.
pub proof fn lemma_minted_len(start: LedgerView, calls: Seq<Call>)
    ensures
        minted(start, calls).len() == mints_succeeded(start, calls),
    decreases calls.len(),
{
    if calls.len() > 0 {
        lemma_minted_len(start, calls.drop_last());
    }
}

/// The mints that succeed get the numerals of the identifier counter and of
/// the numbers that follow it, one after the other in the order of the calls,
/// whatever burns come between them, as long as no mint fails before one that
/// succeeds. On a new ledger, whose counter is one, these are "1", "2", "3"
/// and so on.
pub proof fn law_identifiers_sequential(start: LedgerView, calls: Seq<Call>)
    requires
        no_mint_fails_before_one_succeeds(start, calls),
    ensures
        minted(start, calls) == Seq::new(
            mints_succeeded(start, calls),
            |k: int| decimal((start.next_identifier + k) as nat),
        ),
        start.next_identifier == 1 ==> forall|k: int|
            0 <= k < mints_succeeded(start, calls) ==> #[trigger] minted(start, calls)[k]
                == decimal((k + 1) as nat),
    decreases calls.len(),
{
    lemma_minted_len(start, calls);
    if calls.len() > 0 {
        let before = calls.drop_last();
        law_identifiers_sequential(start, before);
        lemma_minted_len(start, before);
        law_counter_counts_attempts(start, before);
    }
    assert(minted(start, calls) =~= Seq::new(
        mints_succeeded(start, calls),
        |k: int| decimal((start.next_identifier + k) as nat),
    ));
}

/// The identifier counter is higher after a mint than it was before it,
/// whatever else was asked for meanwhile.
proof fn lemma_counter_grows(start: LedgerView, calls: Seq<Call>, i: int, j: int)
    requires
        0 <= i < j <= calls.len(),
        calls[i] is Mint,
    ensures
        start.after_calls(calls.take(i)).next_identifier < start.after_calls(
            calls.take(j),
        ).next_identifier,
    decreases j - i,
{
    assert(calls.take(j).drop_last() == calls.take(j - 1));
    assert(calls.take(j).last() == calls[j - 1]);
    if i < j - 1 {
        lemma_counter_grows(start, calls, i, j - 1);
    }
}

/// No identifier is drawn twice: of two mints, whether they succeed or not,
/// the later draws the numeral of a higher number than the earlier, and so
/// another identifier.
pub proof fn law_identifiers_never_repeat(start: LedgerView, calls: Seq<Call>, i: int, j: int)
    requires
        0 <= i < j < calls.len(),
        calls[i] is Mint,
        calls[j] is Mint,
    ensures
        start.after_calls(calls.take(i)).next_identifier < start.after_calls(
            calls.take(j),
        ).next_identifier,
        start.after_calls(calls.take(i)).identifier_drawn(calls[i]) != start.after_calls(
            calls.take(j),
        ).identifier_drawn(calls[j]),
{
    let at_i = start.after_calls(calls.take(i)).next_identifier;
    let at_j = start.after_calls(calls.take(j)).next_identifier;
    lemma_counter_grows(start, calls, i, j);
    if decimal(at_i) == decimal(at_j) {
        lemma_decimal_injective(at_i, at_j);
    }
}

/// An identifier that was handed out and is stored no longer never comes
/// back, whatever is minted and burnt.
pub proof fn law_retired_for_good(start: LedgerView, calls: Seq<Call>, token_id: Seq<char>)
    requires
        start.consistent(),
        start.retired(token_id),
    ensures
        start.after_calls(calls).retired(token_id),
    decreases calls.len(),
{
    if calls.len() > 0 {
        let before = start.after_calls(calls.drop_last());
        law_retired_for_good(start, calls.drop_last(), token_id);
        law_calls_keep_consistency(start, calls.drop_last());
        let n = choose|n: nat| 1 <= n < before.next_identifier && token_id == #[trigger] decimal(n);
        if token_id == decimal(before.next_identifier) {
            lemma_decimal_injective(n, before.next_identifier);
        }
        law_call_keeps_consistency(before, calls.last());
        assert(1 <= n < before.after_call(calls.last()).next_identifier && token_id == decimal(n));
    }
}

/// The owner of a token can always burn it: the token is then gone, the
/// supply is one less, and whatever is minted and burnt afterwards, a
/// further burn of the same identifier finds no token.
pub proof fn law_owner_burns(
    ledger: LedgerView,
    block: BlockInfo,
    token_id: Seq<char>,
    later: Seq<Call>,
    again_in: BlockInfo,
    again_by: Seq<char>,
)
    requires
        ledger.consistent(),
        ledger.tokens.contains_key(token_id),
    ensures
        ({
            let owner = ledger.tokens[token_id].owner;
            let burnt = ledger.after_burn(block, owner, token_id);
            &&& ledger.burn_outcome(block, owner, token_id) == Ok::<
                Seq<(Seq<char>, Seq<char>)>,
                ContractError,
            >(burn_response(token_id))
            &&& burnt.tokens == ledger.tokens.remove(token_id)
            &&& burnt.total_supply == ledger.total_supply - 1
            &&& burnt.after_calls(later).burn_outcome(again_in, again_by, token_id) == Err::<
                Seq<(Seq<char>, Seq<char>)>,
                ContractError,
            >(ContractError::NotFound)
            &&& burnt.after_calls(later).after_burn(again_in, again_by, token_id)
                == burnt.after_calls(later)
        }),
{
    let owner = ledger.tokens[token_id].owner;
    let burnt = ledger.after_burn(block, owner, token_id);
    assert(ledger.tokens.dom().contains(token_id));
    assert(ledger.total_supply > 0) by {
        if ledger.tokens.dom().len() == 0 {
            assert(ledger.tokens.dom() =~= Set::<Seq<char>>::empty());
        }
    }
    law_call_keeps_consistency(ledger, Call::Burn { block, sender: owner, token_id });
    let n = choose|n: nat| 1 <= n < ledger.next_identifier && token_id == #[trigger] decimal(n);
    assert(1 <= n < burnt.next_identifier && token_id == decimal(n));
    law_retired_for_good(burnt, later, token_id);
}

/// A caller who is not the owner, holds no unexpired approval on the token
/// and has no unexpired grant as operator cannot burn it: the burn is
/// refused as unauthorized and the ledger stays as it was.
pub proof fn law_stranger_cannot_burn(
    ledger: LedgerView,
    block: BlockInfo,
    sender: Seq<char>,
    token_id: Seq<char>,
)
    requires
        ledger.tokens.contains_key(token_id),
        sender != ledger.tokens[token_id].owner,
        !approved(ledger.tokens[token_id], sender, block),
        !operator_permits(ledger.operators.get((ledger.tokens[token_id].owner, sender)), block),
    ensures
        ledger.burn_outcome(block, sender, token_id) == Err::<
            Seq<(Seq<char>, Seq<char>)>,
            ContractError,
        >(ContractError::Unauthorized),
        ledger.after_burn(block, sender, token_id) == ledger,
{
}

/// A caller who holds an approval on a token can burn it in every block in
/// which the approval has not expired.
pub proof fn law_approval_permits_burn(
    ledger: LedgerView,
    block: BlockInfo,
    sender: Seq<char>,
    token_id: Seq<char>,
    i: int,
)
    requires
        ledger.consistent(),
        ledger.tokens.contains_key(token_id),
        0 <= i < ledger.tokens[token_id].approvals.len(),
        ledger.tokens[token_id].approvals[i].spender == sender,
        !ledger.tokens[token_id].approvals[i].expires.expired_at(block),
    ensures
        ledger.burn_outcome(block, sender, token_id) == Ok::<
            Seq<(Seq<char>, Seq<char>)>,
            ContractError,
        >(burn_response(token_id)),
{
    assert(approval_permits(ledger.tokens[token_id].approvals[i], sender, block));
    assert(ledger.tokens.dom().contains(token_id));
    if ledger.tokens.dom().len() == 0 {
        assert(ledger.tokens.dom() =~= Set::<Seq<char>>::empty());
    }
}

/// A caller whose only leave to act on a token is one approval is refused
/// as unauthorized in every block in which that approval has expired.
pub proof fn law_expired_approval_refuses_burn(
    ledger: LedgerView,
    block: BlockInfo,
    sender: Seq<char>,
    token_id: Seq<char>,
    i: int,
)
    requires
        ledger.tokens.contains_key(token_id),
        0 <= i < ledger.tokens[token_id].approvals.len(),
        ledger.tokens[token_id].approvals[i].spender == sender,
        ledger.tokens[token_id].approvals[i].expires.expired_at(block),
        sender != ledger.tokens[token_id].owner,
        forall|j: int|
            0 <= j < ledger.tokens[token_id].approvals.len() && j != i
                ==> #[trigger] ledger.tokens[token_id].approvals[j].spender != sender,
        !operator_permits(ledger.operators.get((ledger.tokens[token_id].owner, sender)), block),
    ensures
        ledger.burn_outcome(block, sender, token_id) == Err::<
            Seq<(Seq<char>, Seq<char>)>,
            ContractError,
        >(ContractError::Unauthorized),
        ledger.after_burn(block, sender, token_id) == ledger,
{
}

/// What has expired stays expired: in a block that is neither lower nor
/// earlier.
pub proof fn law_expiration_is_final(expires: Expiration, block: BlockInfo, later: BlockInfo)
    requires
        expires.expired_at(block),
        later.height >= block.height,
        later.time.0 >= block.time.0,
    ensures
        expires.expired_at(later),
{
}

/// An operator whose grant has no expiration can burn every token of the
/// owner who gave it, in every block: the tokens that exist and those that
/// are minted later, whatever else is minted and burnt meanwhile.
pub proof fn law_operator_without_expiration(
    ledger: LedgerView,
    owner: Seq<char>,
    operator: Seq<char>,
    calls: Seq<Call>,
    block: BlockInfo,
    token_id: Seq<char>,
)
    requires
        ledger.consistent(),
        ledger.operators.contains_key((owner, operator)),
        ledger.operators[(owner, operator)] == Expiration::Never,
        ledger.after_calls(calls).tokens.contains_key(token_id),
        ledger.after_calls(calls).tokens[token_id].owner == owner,
    ensures
        ledger.after_calls(calls).burn_outcome(block, operator, token_id) == Ok::<
            Seq<(Seq<char>, Seq<char>)>,
            ContractError,
        >(burn_response(token_id)),
{
    let later = ledger.after_calls(calls);
    law_calls_keep_consistency(ledger, calls);
    assert(later.tokens.dom().contains(token_id));
    if later.tokens.dom().len() == 0 {
        assert(later.tokens.dom() =~= Set::<Seq<char>>::empty());
    }
}

} // verus!
