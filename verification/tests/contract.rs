use nft_ledger::{
    check_can_send, check_operator, execute, execute_burn, execute_mint, instantiate, Approval,
    Attribute, BaseExecuteMsg, BlockInfo, ContractError, ExecuteMsg, Expiration, Handled,
    InstantiateMsg, Ledger, Metadata, MintMsg, MintMsgInput, Response, Timestamp, TokenRecord,
    Trait,
};

const CREATOR: &str = "creator";

fn new_ledger() -> Ledger {
    instantiate(InstantiateMsg {
        name: "SpaceShips".to_string(),
        symbol: "SPACE".to_string(),
        minter: CREATOR.to_string(),
    })
}

fn block(height: u64, nanos: u64) -> BlockInfo {
    BlockInfo { height, time: Timestamp::from_nanos(nanos) }
}

fn mint_for(owner: &str) -> MintMsgInput<Option<Metadata>> {
    MintMsgInput { owner: owner.to_string(), token_uri: None, extension: None }
}

fn attributes(pairs: &[(&str, &str)]) -> Response {
    Response {
        attributes: pairs
            .iter()
            .map(|(key, value)| Attribute { key: key.to_string(), value: value.to_string() })
            .collect(),
    }
}

fn token_id_of(response: &Response) -> String {
    response.attributes[2].value.clone()
}

/// Gives `spender` an approval on `token_id`, as the base library would.
fn approve(ledger: &mut Ledger, token_id: &str, spender: &str, expires: Expiration) {
    let mut token = ledger.tokens.load(token_id).unwrap().clone();
    token.approvals.push(Approval { spender: spender.to_string(), expires });
    ledger.tokens.save(token);
}

#[test]
fn use_metadata_extension() {
    let mut ledger = new_ledger();

    let token_id = "Enterprise";
    let mint_msg = MintMsg {
        token_id: token_id.to_string(),
        owner: "john".to_string(),
        token_uri: Some("https://starships.example.com/Starship/Enterprise.json".into()),
        extension: Some(Metadata {
            description: Some("Spaceship with Warp Drive".into()),
            name: Some("Starship USS Enterprise".to_string()),
            ..Metadata::default()
        }),
    };
    ledger.mint(CREATOR, mint_msg.clone()).unwrap();

    let res = ledger.tokens.load(token_id).unwrap();
    assert_eq!(res.token_uri, mint_msg.token_uri);
    assert_eq!(res.extension, mint_msg.extension);
}

#[test]
fn new_ledger_is_empty_and_starts_at_one() {
    let ledger = new_ledger();
    assert_eq!(ledger.name, "SpaceShips");
    assert_eq!(ledger.symbol, "SPACE");
    assert_eq!(ledger.minter, CREATOR);
    assert_eq!(ledger.allocator.next_identifier, 1);
    assert_eq!(ledger.total_supply, 0);
    assert_eq!(ledger.tokens.len(), 0);
    assert_eq!(ledger.operators.may_load("alice", "bob"), None);
}

#[test]
fn mints_get_sequential_identifiers() {
    let mut ledger = new_ledger();
    for n in 1..=25u64 {
        let response = execute_mint(&mut ledger, CREATOR, mint_for("alice")).unwrap();
        assert_eq!(token_id_of(&response), n.to_string());
        assert_eq!(ledger.total_supply, n);
        assert_eq!(ledger.allocator.next_identifier, n + 1);
        assert!(ledger.tokens.has(&n.to_string()));
    }
    assert_eq!(ledger.tokens.len(), 25);
}

#[test]
fn mint_reports_action_minter_and_identifier() {
    let mut ledger = new_ledger();
    let response = execute_mint(&mut ledger, CREATOR, mint_for("alice")).unwrap();
    assert_eq!(
        response,
        attributes(&[("action", "mint"), ("minter", CREATOR), ("token_id", "1")])
    );
}

#[test]
fn mint_stores_what_was_asked_for() {
    let mut ledger = new_ledger();
    let extension = Some(Metadata {
        name: Some("Starship USS Enterprise".to_string()),
        attributes: Some(vec![Trait {
            display_type: None,
            trait_type: "drive".to_string(),
            value: "warp".to_string(),
        }]),
        ..Metadata::default()
    });
    let msg = MintMsgInput {
        owner: "john".to_string(),
        token_uri: Some("https://starships.example.com/Starship/Enterprise.json".to_string()),
        extension: extension.clone(),
    };
    execute_mint(&mut ledger, CREATOR, msg).unwrap();
    assert_eq!(
        ledger.tokens.load("1"),
        Ok(&TokenRecord {
            token_id: "1".to_string(),
            owner: "john".to_string(),
            approvals: vec![],
            token_uri: Some("https://starships.example.com/Starship/Enterprise.json".to_string()),
            extension,
        })
    );
}

#[test]
fn only_the_minter_mints() {
    let mut ledger = new_ledger();
    assert_eq!(
        execute_mint(&mut ledger, "mallory", mint_for("mallory")),
        Err(ContractError::Unauthorized)
    );
    assert_eq!(ledger.total_supply, 0);
    assert_eq!(ledger.tokens.len(), 0);
}

#[test]
fn failed_mint_still_advances_the_counter() {
    let mut ledger = new_ledger();
    assert_eq!(
        execute_mint(&mut ledger, "mallory", mint_for("mallory")),
        Err(ContractError::Unauthorized)
    );
    assert_eq!(ledger.allocator.next_identifier, 2);
    let response = execute_mint(&mut ledger, CREATOR, mint_for("alice")).unwrap();
    assert_eq!(token_id_of(&response), "2");
    assert!(!ledger.tokens.has("1"));
    assert!(ledger.tokens.has("2"));
    assert_eq!(ledger.total_supply, 1);
}

#[test]
fn mint_under_a_taken_identifier_is_claimed() {
    let mut ledger = new_ledger();
    // A record that did not come from the allocator stands in its way.
    ledger.tokens.save(TokenRecord {
        token_id: "1".to_string(),
        owner: "squatter".to_string(),
        approvals: vec![],
        token_uri: None,
        extension: None,
    });
    assert_eq!(execute_mint(&mut ledger, CREATOR, mint_for("alice")), Err(ContractError::Claimed));
    assert_eq!(ledger.tokens.load("1").unwrap().owner, "squatter");
    assert_eq!(ledger.total_supply, 0);
    assert_eq!(ledger.allocator.next_identifier, 2);
    // The next identifier is free again.
    let response = execute_mint(&mut ledger, CREATOR, mint_for("alice")).unwrap();
    assert_eq!(token_id_of(&response), "2");
}

#[test]
fn base_mint_refuses_a_taken_identifier() {
    let mut ledger = new_ledger();
    let msg = MintMsg {
        token_id: "Enterprise".to_string(),
        owner: "john".to_string(),
        token_uri: None,
        extension: None,
    };
    ledger.mint(CREATOR, msg.clone()).unwrap();
    assert_eq!(ledger.mint(CREATOR, msg.clone()), Err(ContractError::Claimed));
    assert_eq!(ledger.mint("john", msg), Err(ContractError::Unauthorized));
    assert_eq!(ledger.total_supply, 1);
}

#[test]
fn owner_burns_and_the_token_is_gone() {
    let mut ledger = new_ledger();
    execute_mint(&mut ledger, CREATOR, mint_for("alice")).unwrap();
    let response = execute_burn(&mut ledger, &block(1, 1), "alice", "1".to_string()).unwrap();
    assert_eq!(response, attributes(&[("action", "burn"), ("token_id", "1")]));
    assert!(!ledger.tokens.has("1"));
    assert_eq!(ledger.total_supply, 0);
    assert_eq!(
        execute_burn(&mut ledger, &block(1, 1), "alice", "1".to_string()),
        Err(ContractError::NotFound)
    );
    assert_eq!(ledger.total_supply, 0);
}

#[test]
fn burnt_identifier_is_not_handed_out_again() {
    let mut ledger = new_ledger();
    execute_mint(&mut ledger, CREATOR, mint_for("alice")).unwrap();
    execute_burn(&mut ledger, &block(1, 1), "alice", "1".to_string()).unwrap();
    let response = execute_mint(&mut ledger, CREATOR, mint_for("alice")).unwrap();
    assert_eq!(token_id_of(&response), "2");
    assert_eq!(
        execute_burn(&mut ledger, &block(1, 1), "alice", "1".to_string()),
        Err(ContractError::NotFound)
    );
}

#[test]
fn burn_of_an_unknown_token_is_not_found() {
    let mut ledger = new_ledger();
    assert_eq!(
        execute_burn(&mut ledger, &block(1, 1), CREATOR, "1".to_string()),
        Err(ContractError::NotFound)
    );
    execute_mint(&mut ledger, CREATOR, mint_for("alice")).unwrap();
    assert_eq!(
        execute_burn(&mut ledger, &block(1, 1), "alice", "2".to_string()),
        Err(ContractError::NotFound)
    );
    assert_eq!(
        execute_burn(&mut ledger, &block(1, 1), "alice", "".to_string()),
        Err(ContractError::NotFound)
    );
    assert_eq!(ledger.total_supply, 1);
}

#[test]
fn stranger_cannot_burn_and_nothing_changes() {
    let mut ledger = new_ledger();
    execute_mint(&mut ledger, CREATOR, mint_for("alice")).unwrap();
    let before = ledger.tokens.load("1").unwrap().clone();
    assert_eq!(
        execute_burn(&mut ledger, &block(1, 1), "mallory", "1".to_string()),
        Err(ContractError::Unauthorized)
    );
    // Not even the minter may burn what it minted for another.
    assert_eq!(
        execute_burn(&mut ledger, &block(1, 1), CREATOR, "1".to_string()),
        Err(ContractError::Unauthorized)
    );
    assert_eq!(ledger.tokens.load("1"), Ok(&before));
    assert_eq!(ledger.total_supply, 1);
    assert_eq!(ledger.allocator.next_identifier, 2);
}

#[test]
fn approved_spender_burns_until_the_height_is_reached() {
    let mut ledger = new_ledger();
    execute_mint(&mut ledger, CREATOR, mint_for("alice")).unwrap();
    approve(&mut ledger, "1", "bob", Expiration::AtHeight(100));
    assert_eq!(
        execute_burn(&mut ledger, &block(100, 0), "bob", "1".to_string()),
        Err(ContractError::Unauthorized)
    );
    assert_eq!(
        execute_burn(&mut ledger, &block(2000, 0), "bob", "1".to_string()),
        Err(ContractError::Unauthorized)
    );
    assert!(ledger.tokens.has("1"));
    assert!(execute_burn(&mut ledger, &block(99, 0), "bob", "1".to_string()).is_ok());
    assert!(!ledger.tokens.has("1"));
}

#[test]
fn approved_spender_burns_until_the_time_is_reached() {
    let mut ledger = new_ledger();
    execute_mint(&mut ledger, CREATOR, mint_for("alice")).unwrap();
    approve(&mut ledger, "1", "bob", Expiration::AtTime(Timestamp::from_nanos(5_000)));
    assert_eq!(
        execute_burn(&mut ledger, &block(1, 5_000), "bob", "1".to_string()),
        Err(ContractError::Unauthorized)
    );
    assert!(execute_burn(&mut ledger, &block(1_000_000, 4_999), "bob", "1".to_string()).is_ok());
}

#[test]
fn approval_is_for_one_spender_and_one_token() {
    let mut ledger = new_ledger();
    execute_mint(&mut ledger, CREATOR, mint_for("alice")).unwrap();
    execute_mint(&mut ledger, CREATOR, mint_for("alice")).unwrap();
    approve(&mut ledger, "1", "bob", Expiration::Never);
    assert_eq!(
        execute_burn(&mut ledger, &block(1, 1), "carol", "1".to_string()),
        Err(ContractError::Unauthorized)
    );
    assert_eq!(
        execute_burn(&mut ledger, &block(1, 1), "bob", "2".to_string()),
        Err(ContractError::Unauthorized)
    );
    assert!(execute_burn(&mut ledger, &block(1, 1), "bob", "1".to_string()).is_ok());
}

#[test]
fn a_later_unexpired_approval_counts_beside_an_expired_one() {
    let mut ledger = new_ledger();
    execute_mint(&mut ledger, CREATOR, mint_for("alice")).unwrap();
    approve(&mut ledger, "1", "bob", Expiration::AtHeight(5));
    approve(&mut ledger, "1", "carol", Expiration::AtHeight(5));
    approve(&mut ledger, "1", "bob", Expiration::AtHeight(50));
    assert_eq!(
        execute_burn(&mut ledger, &block(10, 0), "carol", "1".to_string()),
        Err(ContractError::Unauthorized)
    );
    assert!(execute_burn(&mut ledger, &block(10, 0), "bob", "1".to_string()).is_ok());
}

#[test]
fn operator_without_expiration_burns_present_and_future_tokens() {
    let mut ledger = new_ledger();
    execute_mint(&mut ledger, CREATOR, mint_for("alice")).unwrap();
    ledger.operators.save("alice", "olga", Expiration::Never);
    execute_mint(&mut ledger, CREATOR, mint_for("alice")).unwrap();
    execute_mint(&mut ledger, CREATOR, mint_for("bob")).unwrap();
    assert!(execute_burn(&mut ledger, &block(1, 1), "olga", "1".to_string()).is_ok());
    assert!(
        execute_burn(&mut ledger, &block(u64::MAX, u64::MAX), "olga", "2".to_string()).is_ok()
    );
    // The grant is alice's: it does not reach the token of bob.
    assert_eq!(
        execute_burn(&mut ledger, &block(1, 1), "olga", "3".to_string()),
        Err(ContractError::Unauthorized)
    );
    // Once the grant is taken back, the operator is a stranger.
    execute_mint(&mut ledger, CREATOR, mint_for("alice")).unwrap();
    ledger.operators.remove("alice", "olga");
    assert_eq!(
        execute_burn(&mut ledger, &block(1, 1), "olga", "4".to_string()),
        Err(ContractError::Unauthorized)
    );
}

#[test]
fn expired_operator_is_refused_like_a_stranger() {
    let mut ledger = new_ledger();
    execute_mint(&mut ledger, CREATOR, mint_for("alice")).unwrap();
    ledger.operators.save("alice", "olga", Expiration::AtHeight(10));
    assert_eq!(
        execute_burn(&mut ledger, &block(10, 0), "olga", "1".to_string()),
        Err(ContractError::Unauthorized)
    );
    assert_eq!(
        execute_burn(&mut ledger, &block(10, 0), "nobody", "1".to_string()),
        Err(ContractError::Unauthorized)
    );
    assert!(execute_burn(&mut ledger, &block(9, 0), "olga", "1".to_string()).is_ok());
}

#[test]
fn operator_grant_has_a_direction() {
    let mut ledger = new_ledger();
    execute_mint(&mut ledger, CREATOR, mint_for("alice")).unwrap();
    // olga lets alice act for her, not the other way round.
    ledger.operators.save("olga", "alice", Expiration::Never);
    assert_eq!(
        execute_burn(&mut ledger, &block(1, 1), "olga", "1".to_string()),
        Err(ContractError::Unauthorized)
    );
}

#[test]
fn burn_with_an_empty_supply_counter_is_a_consistency_failure() {
    let mut ledger = new_ledger();
    ledger.tokens.save(TokenRecord {
        token_id: "1".to_string(),
        owner: "alice".to_string(),
        approvals: vec![],
        token_uri: None,
        extension: None,
    });
    assert_eq!(ledger.total_supply, 0);
    assert_eq!(
        execute_burn(&mut ledger, &block(1, 1), "alice", "1".to_string()),
        Err(ContractError::Consistency)
    );
    // Nothing was removed.
    assert!(ledger.tokens.has("1"));
    assert_eq!(ledger.total_supply, 0);
    // Authorization is decided first.
    assert_eq!(
        execute_burn(&mut ledger, &block(1, 1), "mallory", "1".to_string()),
        Err(ContractError::Unauthorized)
    );
}

#[test]
fn supply_counter_goes_up_and_down_by_one() {
    let mut ledger = new_ledger();
    assert_eq!(ledger.decrement_supply(), Err(ContractError::Consistency));
    assert_eq!(ledger.total_supply, 0);
    assert_eq!(ledger.increment_supply(), 1);
    assert_eq!(ledger.increment_supply(), 2);
    assert_eq!(ledger.decrement_supply(), Ok(1));
    assert_eq!(ledger.decrement_supply(), Ok(0));
    assert_eq!(ledger.decrement_supply(), Err(ContractError::Consistency));
}

#[test]
fn supply_is_mints_minus_burns() {
    let mut ledger = new_ledger();
    let mut mints: u64 = 0;
    let mut burns: u64 = 0;
    for round in 0..40u64 {
        let minter = if round % 5 == 4 { "mallory" } else { CREATOR };
        if execute_mint(&mut ledger, minter, mint_for("alice")).is_ok() {
            mints += 1;
        }
        assert_eq!(ledger.total_supply, mints - burns);
        if round % 3 == 0 {
            let caller = if round % 2 == 0 { "alice" } else { "mallory" };
            let token_id = (round / 2 + 1).to_string();
            if execute_burn(&mut ledger, &block(round, round), caller, token_id).is_ok() {
                burns += 1;
            }
        }
        assert_eq!(ledger.total_supply, mints - burns);
        assert_eq!(ledger.tokens.len() as u64, mints - burns);
        assert_eq!(ledger.allocator.next_identifier, round + 2);
    }
    assert_eq!(mints, 32);
    assert!(burns > 0);
}

#[test]
fn alice_and_bob_scenario() {
    let mut ledger = new_ledger();
    let now = block(12_345, 1_571_797_419_879_305_533);

    let first = execute_mint(&mut ledger, CREATOR, mint_for("alice")).unwrap();
    assert_eq!(token_id_of(&first), "1");
    let second = execute_mint(&mut ledger, CREATOR, mint_for("bob")).unwrap();
    assert_eq!(token_id_of(&second), "2");
    assert_eq!(ledger.total_supply, 2);

    assert!(execute_burn(&mut ledger, &now, "alice", "1".to_string()).is_ok());
    assert_eq!(ledger.total_supply, 1);

    assert_eq!(
        execute_burn(&mut ledger, &now, "alice", "2".to_string()),
        Err(ContractError::Unauthorized)
    );
    assert_eq!(ledger.total_supply, 1);
    assert!(ledger.tokens.has("2"));

    assert!(execute_burn(&mut ledger, &now, "bob", "2".to_string()).is_ok());
    assert_eq!(ledger.total_supply, 0);
    assert_eq!(ledger.tokens.len(), 0);
}

#[test]
fn check_can_send_asks_owner_approvals_and_operators() {
    let mut ledger = new_ledger();
    ledger.operators.save("alice", "olga", Expiration::AtHeight(30));
    let token = TokenRecord {
        token_id: "1".to_string(),
        owner: "alice".to_string(),
        approvals: vec![
            Approval { spender: "bob".to_string(), expires: Expiration::AtHeight(20) },
            Approval { spender: "carol".to_string(), expires: Expiration::Never },
        ],
        token_uri: None,
        extension: None,
    };
    let early = block(10, 0);
    let late = block(30, 0);
    assert_eq!(check_can_send(&ledger, &early, "alice", &token), Ok(()));
    assert_eq!(check_can_send(&ledger, &late, "alice", &token), Ok(()));
    assert_eq!(check_can_send(&ledger, &early, "bob", &token), Ok(()));
    assert_eq!(check_can_send(&ledger, &late, "bob", &token), Err(ContractError::Unauthorized));
    assert_eq!(check_can_send(&ledger, &late, "carol", &token), Ok(()));
    assert_eq!(check_can_send(&ledger, &early, "olga", &token), Ok(()));
    assert_eq!(check_can_send(&ledger, &late, "olga", &token), Err(ContractError::Unauthorized));
    assert_eq!(check_can_send(&ledger, &early, "mallory", &token), Err(ContractError::Unauthorized));
    assert_eq!(check_can_send(&ledger, &early, "", &token), Err(ContractError::Unauthorized));
}

#[test]
fn check_operator_wants_an_unexpired_grant() {
    let now = block(10, 10);
    assert_eq!(check_operator(None, &now), Err(ContractError::Unauthorized));
    assert_eq!(check_operator(Some(Expiration::AtHeight(10)), &now), Err(ContractError::Unauthorized));
    assert_eq!(check_operator(Some(Expiration::AtHeight(11)), &now), Ok(()));
    assert_eq!(
        check_operator(Some(Expiration::AtTime(Timestamp::from_nanos(9))), &now),
        Err(ContractError::Unauthorized)
    );
    assert_eq!(check_operator(Some(Expiration::AtTime(Timestamp::from_nanos(11))), &now), Ok(()));
    assert_eq!(check_operator(Some(Expiration::Never), &now), Ok(()));
}

#[test]
fn execute_carries_out_mint_and_burn() {
    let mut ledger = new_ledger();
    let now = block(1, 1);
    let minted = execute(&mut ledger, &now, CREATOR, ExecuteMsg::Mint(mint_for("alice")));
    assert_eq!(
        minted,
        Ok(Handled::Done(attributes(&[
            ("action", "mint"),
            ("minter", CREATOR),
            ("token_id", "1")
        ])))
    );
    assert_eq!(
        execute(&mut ledger, &now, "bob", ExecuteMsg::Burn { token_id: "1".to_string() }),
        Err(ContractError::Unauthorized)
    );
    assert_eq!(
        execute(&mut ledger, &now, "alice", ExecuteMsg::Burn { token_id: "1".to_string() }),
        Ok(Handled::Done(attributes(&[("action", "burn"), ("token_id", "1")])))
    );
    assert_eq!(
        execute(&mut ledger, &now, "alice", ExecuteMsg::Burn { token_id: "1".to_string() }),
        Err(ContractError::NotFound)
    );
    assert_eq!(
        execute(&mut ledger, &now, "mallory", ExecuteMsg::Mint(mint_for("mallory"))),
        Err(ContractError::Unauthorized)
    );
}

#[test]
fn execute_forwards_every_other_message_and_leaves_the_ledger_alone() {
    let mut ledger = new_ledger();
    let now = block(1, 1);
    execute_mint(&mut ledger, CREATOR, mint_for("alice")).unwrap();
    let forwarded = execute(
        &mut ledger,
        &now,
        "alice",
        ExecuteMsg::TransferNft { recipient: "bob".to_string(), token_id: "1".to_string() },
    );
    assert_eq!(
        forwarded,
        Ok(Handled::Forward(BaseExecuteMsg::TransferNft {
            recipient: "bob".to_string(),
            token_id: "1".to_string(),
        }))
    );
    let forwarded = execute(
        &mut ledger,
        &now,
        "mallory",
        ExecuteMsg::ApproveAll { operator: "mallory".to_string(), expires: None },
    );
    assert_eq!(
        forwarded,
        Ok(Handled::Forward(BaseExecuteMsg::ApproveAll {
            operator: "mallory".to_string(),
            expires: None,
        }))
    );
    assert_eq!(ledger.tokens.load("1").unwrap().owner, "alice");
    assert_eq!(ledger.operators.may_load("mallory", "mallory"), None);
    assert_eq!(ledger.total_supply, 1);
    assert_eq!(ledger.allocator.next_identifier, 2);
}

#[test]
fn response_keeps_attributes_in_order() {
    let response = Response::new().add_attribute("a", "1").add_attribute("b", "2");
    assert_eq!(response, attributes(&[("a", "1"), ("b", "2")]));
    assert_eq!(Response::new(), attributes(&[]));
}
