use comet::budget::{
    MIN_GAS_FOR_FT_TRANSFER, MIN_GAS_FOR_FT_TRANSFER_CALL, MIN_GAS_FOR_SWAP, MIN_GAS_FOR_WITHDRAW,
    MIN_GAS_FOR_WITHDRAW_CALLBACK, ONE_TERA,
};
use comet::dispatch::{check_route, check_routes, DepositError, DepositPlan, SwapChain};
use comet::settle::{settle_swap_outcome, CallbackError, PromiseOutcome, Settlement, SwapOutcome};
use comet::structs::{DexRoute, RefRoute, SwapAction, TokenReceiverMessage};
use comet::whitelist::is_whitelisted_dex;
use comet::xss::{
    CallAction, CallTarget, ChainContext, ExtSelf, FungibleToken, PromiseCall, RefExchange,
    ONE_YOCTO,
};
use comet::{classify_outcome, CometContract};

fn s(x: &str) -> String {
    x.to_string()
}

fn action(token_in: &str, token_out: &str) -> SwapAction {
    SwapAction {
        pool_id: 7,
        token_in: s(token_in),
        amount_in: Some(100),
        token_out: s(token_out),
        min_amount_out: 90,
    }
}

fn route(dex: &str, actions: Vec<SwapAction>) -> DexRoute {
    DexRoute { dex: s(dex), token_in: s("x.near"), actions }
}

fn execute(referral_id: Option<String>, routes: Vec<DexRoute>) -> Option<TokenReceiverMessage> {
    Some(TokenReceiverMessage::Execute { referral_id, routes })
}

fn deposit(msg: Option<TokenReceiverMessage>) -> Result<DepositPlan, DepositError> {
    let mut contract = CometContract::new();
    contract.ft_on_transfer(s("alice.near"), 100, msg, s("comet.near"))
}

fn callback(results: Vec<PromiseOutcome>) -> Result<Settlement, CallbackError> {
    CometContract::new().callback_swap_result(
        s("alice.near"),
        s("ref"),
        s("y.near"),
        s("x.near"),
        100,
        results,
    )
}

fn assert_settles(settlement: &Settlement, token: &str, amount: u128) {
    assert_eq!(settlement.withdraw.receiver_id, "ref");
    assert_eq!(settlement.withdraw.attached_deposit, 1);
    assert_eq!(settlement.withdraw.gas, MIN_GAS_FOR_WITHDRAW);
    assert_eq!(
        settlement.withdraw.action,
        CallAction::Withdraw { token_id: s(token), amount, unregister: Some(false) }
    );
    assert_eq!(settlement.transfer.receiver_id, token);
    assert_eq!(settlement.transfer.attached_deposit, 1);
    assert_eq!(settlement.transfer.gas, MIN_GAS_FOR_FT_TRANSFER);
    assert_eq!(
        settlement.transfer.action,
        CallAction::FtTransfer { receiver_id: s("alice.near"), amount, memo: None }
    );
}

fn assert_chain(chain: &SwapChain, dex: &str, token_in: &str, token_out: &str, actions: &[SwapAction]) {
    assert_eq!(chain.transfer.receiver_id, token_in);
    assert_eq!(chain.transfer.gas, MIN_GAS_FOR_FT_TRANSFER_CALL);
    assert_eq!(chain.transfer.attached_deposit, 1);
    assert_eq!(
        chain.transfer.action,
        CallAction::FtTransferCall { receiver_id: s(dex), amount: 100, memo: None, msg: String::new() }
    );
    assert_eq!(chain.swap.receiver_id, dex);
    assert_eq!(chain.swap.gas, MIN_GAS_FOR_SWAP);
    match &chain.swap.action {
        CallAction::Swap { actions: a, .. } => assert_eq!(a.as_slice(), actions),
        other => panic!("not a swap: {:?}", other),
    }
    assert_eq!(chain.callback.receiver_id, "comet.near");
    assert_eq!(chain.callback.gas, MIN_GAS_FOR_WITHDRAW_CALLBACK);
    assert_eq!(
        chain.callback.action,
        CallAction::CallbackSwapResult {
            context: ChainContext {
                destination: s("alice.near"),
                dex_id: s(dex),
                output_token: s(token_out),
                input_token: s(token_in),
                input_amount: 100,
            },
        }
    );
}

#[test]
fn scenario_successful_swap_settles_output() {
    let plan = deposit(execute(None, vec![route("ref", vec![action("x.near", "y.near")])])).unwrap();
    assert_eq!(plan.chains.len(), 1);
    assert_eq!(plan.unused_amount, 0);
    let settlement = callback(vec![PromiseOutcome::Successful(b"\"95\"".to_vec())]).unwrap();
    assert_settles(&settlement, "y.near", 95);
}

#[test]
fn scenario_failed_swap_refunds_input() {
    let settlement = callback(vec![PromiseOutcome::Failed]).unwrap();
    assert_settles(&settlement, "x.near", 100);
}

#[test]
fn scenario_unknown_dex_aborts() {
    let r = deposit(execute(None, vec![route("unknown-dex", vec![action("x.near", "y.near")])]));
    assert_eq!(r.clone().unwrap_err(), DepositError::NotWhitelistedDex);
    assert_eq!(r.unwrap_err().message(), "Not a whitelisted DEX");
}

#[test]
fn scenario_undecodable_instruction_aborts() {
    let r = deposit(None);
    assert_eq!(r.clone().unwrap_err(), DepositError::IncorrectFormat);
    assert_eq!(r.unwrap_err().message(), "incorrect format");
}

#[test]
fn scenario_undecodable_swap_payload_aborts() {
    let r = callback(vec![PromiseOutcome::Successful(b"not an amount".to_vec())]);
    assert!(matches!(r, Err(CallbackError::WrongValueReceived)));
    assert_eq!(CallbackError::WrongValueReceived.message(), "ERR_WRONG_VAL_RECEIVED");
}

#[test]
fn bare_number_payload_is_not_an_amount() {
    let r = callback(vec![PromiseOutcome::Successful(b"95".to_vec())]);
    assert!(matches!(r, Err(CallbackError::WrongValueReceived)));
}

#[test]
fn large_amount_decodes() {
    let payload = format!("\"{}\"", u128::MAX);
    let settlement = callback(vec![PromiseOutcome::Successful(payload.into_bytes())]).unwrap();
    assert_settles(&settlement, "y.near", u128::MAX);
}

#[test]
fn classify_decodes_payload() {
    assert_eq!(
        classify_outcome(PromiseOutcome::Successful(b"\"12\"".to_vec())),
        SwapOutcome::Successful(Some(12))
    );
    assert_eq!(
        classify_outcome(PromiseOutcome::Successful(b"\"-1\"".to_vec())),
        SwapOutcome::Successful(None)
    );
    assert_eq!(classify_outcome(PromiseOutcome::Failed), SwapOutcome::Failed);
    assert_eq!(classify_outcome(PromiseOutcome::NotReady), SwapOutcome::NotReady);
}

#[test]
fn callback_requires_exactly_one_result() {
    assert!(matches!(callback(vec![]), Err(CallbackError::TooManyResults)));
    let two = vec![PromiseOutcome::Failed, PromiseOutcome::Failed];
    assert!(matches!(callback(two), Err(CallbackError::TooManyResults)));
    assert_eq!(CallbackError::TooManyResults.message(), "ERR_TOO_MANY_RESULTS");
}

#[test]
fn callback_rejects_not_ready_result() {
    assert!(matches!(callback(vec![PromiseOutcome::NotReady]), Err(CallbackError::ResultNotReady)));
}

#[test]
fn settle_from_decoded_outcome() {
    let ctx = ChainContext {
        destination: s("alice.near"),
        dex_id: s("ref"),
        output_token: s("y.near"),
        input_token: s("x.near"),
        input_amount: 100,
    };
    let ok = settle_swap_outcome(ctx.clone(), SwapOutcome::Successful(Some(0))).unwrap();
    assert_settles(&ok, "y.near", 0);
    let refund = settle_swap_outcome(ctx.clone(), SwapOutcome::Failed).unwrap();
    assert_settles(&refund, "x.near", 100);
    assert!(matches!(
        settle_swap_outcome(ctx, SwapOutcome::Successful(None)),
        Err(CallbackError::WrongValueReceived)
    ));
}

#[test]
fn chain_carries_route_and_referral() {
    let actions = vec![action("x.near", "m.near"), action("m.near", "y.near")];
    let plan = deposit(execute(Some(s("friend.near")), vec![route("jumbo", actions.clone())])).unwrap();
    assert_eq!(plan.chains.len(), 1);
    assert_chain(&plan.chains[0], "jumbo", "x.near", "y.near", &actions);
    match &plan.chains[0].swap.action {
        CallAction::Swap { referral_id, .. } => assert_eq!(referral_id.as_deref(), Some("friend.near")),
        other => panic!("not a swap: {:?}", other),
    }
}

#[test]
fn one_chain_per_route_in_order() {
    let first = vec![action("x.near", "y.near")];
    let second = vec![action("z.near", "w.near")];
    let plan = deposit(execute(
        None,
        vec![route("ref", first.clone()), route("jumbo", second.clone())],
    ))
    .unwrap();
    assert_eq!(plan.chains.len(), 2);
    assert_eq!(plan.unused_amount, 0);
    assert_chain(&plan.chains[0], "ref", "x.near", "y.near", &first);
    assert_chain(&plan.chains[1], "jumbo", "z.near", "w.near", &second);
}

#[test]
fn any_bad_route_refuses_the_whole_deposit() {
    let r = deposit(execute(
        None,
        vec![route("ref", vec![action("x.near", "y.near")]), route("evil", vec![action("x.near", "y.near")])],
    ));
    assert_eq!(r.unwrap_err(), DepositError::NotWhitelistedDex);
}

#[test]
fn empty_routes_are_malformed() {
    assert_eq!(deposit(execute(None, vec![])).unwrap_err(), DepositError::IncorrectFormat);
}

#[test]
fn route_without_actions_is_malformed() {
    let r = deposit(execute(None, vec![route("ref", vec![])]));
    assert_eq!(r.unwrap_err(), DepositError::IncorrectFormat);
    assert_eq!(check_route(&route("ref", vec![])), Some(DepositError::IncorrectFormat));
}

#[test]
fn first_refused_route_decides_the_error() {
    let routes = vec![route("nope", vec![action("x.near", "y.near")]), route("ref", vec![])];
    assert_eq!(check_routes(&routes), Some(DepositError::NotWhitelistedDex));
    let routes = vec![route("ref", vec![]), route("nope", vec![action("x.near", "y.near")])];
    assert_eq!(check_routes(&routes), Some(DepositError::IncorrectFormat));
    let routes = vec![route("ref", vec![action("x.near", "y.near")])];
    assert_eq!(check_routes(&routes), None);
}

#[test]
fn replayed_deposit_is_planned_again() {
    let msg = execute(None, vec![route("ref", vec![action("x.near", "y.near")])]);
    let mut contract = CometContract::new();
    let first = contract.ft_on_transfer(s("alice.near"), 100, msg.clone(), s("comet.near")).unwrap();
    let second = contract.ft_on_transfer(s("alice.near"), 100, msg, s("comet.near")).unwrap();
    assert_eq!(first.chains.len(), 1);
    assert_eq!(first, second);
    assert_eq!(contract, CometContract::new());
}

#[test]
fn whitelist_holds_ref_and_jumbo_only() {
    assert!(is_whitelisted_dex(&s("ref")));
    assert!(is_whitelisted_dex(&s("jumbo")));
    assert!(!is_whitelisted_dex(&s("unknown-dex")));
    assert!(!is_whitelisted_dex(&s("Ref")));
    assert!(!is_whitelisted_dex(&s("")));
}

#[test]
fn budget_table_values() {
    assert_eq!(ONE_TERA, 1_000_000_000_000);
    assert_eq!(MIN_GAS_FOR_FT_TRANSFER_CALL, 60 * ONE_TERA);
    assert_eq!(MIN_GAS_FOR_SWAP, 20 * ONE_TERA);
    assert_eq!(MIN_GAS_FOR_WITHDRAW, 80 * ONE_TERA);
    assert_eq!(MIN_GAS_FOR_FT_TRANSFER, 30 * ONE_TERA);
    assert_eq!(MIN_GAS_FOR_WITHDRAW_CALLBACK, 135 * ONE_TERA);
    assert!(MIN_GAS_FOR_WITHDRAW + MIN_GAS_FOR_FT_TRANSFER < MIN_GAS_FOR_WITHDRAW_CALLBACK);
    assert_eq!(ONE_YOCTO, 1);
}

#[test]
fn call_target_builds_calls() {
    let t = CallTarget { account_id: s("token.near"), attached_deposit: 1, gas: 5 };
    let expect = |action: CallAction| PromiseCall { receiver_id: s("token.near"), attached_deposit: 1, gas: 5, action };
    assert_eq!(
        t.ft_balance_of(s("bob.near")),
        expect(CallAction::FtBalanceOf { account_id: s("bob.near") })
    );
    assert_eq!(
        t.ft_resolve_transfer(s("a.near"), s("b.near"), 3),
        expect(CallAction::FtResolveTransfer { sender_id: s("a.near"), receiver_id: s("b.near"), amount: 3 })
    );
    assert_eq!(
        t.ft_transfer(s("b.near"), 4, Some(s("memo"))),
        expect(CallAction::FtTransfer { receiver_id: s("b.near"), amount: 4, memo: Some(s("memo")) })
    );
    assert_eq!(
        t.withdraw(s("y.near"), 9, Some(true)),
        expect(CallAction::Withdraw { token_id: s("y.near"), amount: 9, unregister: Some(true) })
    );
    let cb = t.callback_swap_result(s("d"), s("ref"), s("o"), s("i"), 2);
    assert_eq!(
        cb.action,
        CallAction::CallbackSwapResult {
            context: ChainContext {
                destination: s("d"),
                dex_id: s("ref"),
                output_token: s("o"),
                input_token: s("i"),
                input_amount: 2,
            },
        }
    );
}

#[test]
fn ref_route_holds_its_fields() {
    let r = RefRoute { force: 1, referral_id: None, actions: vec![action("x.near", "y.near")] };
    assert_eq!(r.clone(), r);
    assert_eq!(r.actions[0].amount_in, Some(100));
}
