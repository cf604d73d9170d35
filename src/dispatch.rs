use vstd::prelude::*;
use crate::budget::{MIN_GAS_FOR_FT_TRANSFER_CALL, MIN_GAS_FOR_SWAP, MIN_GAS_FOR_WITHDRAW_CALLBACK};
use crate::structs::{DexRoute, TokenReceiverMessage};
use crate::whitelist::{is_whitelisted, is_whitelisted_dex};
use crate::xss::{
    CallAction, CallTarget, ExtSelf, FungibleToken, PromiseCall, RefExchange, ONE_YOCTO,
};

verus! {

/// Why a deposit is rejected before any call is scheduled.
#[derive(PartialEq, Eq, Structural, Clone, Copy, Debug)]
pub enum DepositError {
    /// The payload is not a routing instruction with at least one route, each
    /// with at least one action.
    IncorrectFormat,
    /// A route names a DEX outside the whitelist.
    NotWhitelistedDex,
}

impl DepositError {
    /// The diagnostic with which the deposit call aborts.
    pub fn message(&self) -> (r: &'static str)
        ensures
            r@ == match *self {
                DepositError::IncorrectFormat => "incorrect format"@,
                DepositError::NotWhitelistedDex => "Not a whitelisted DEX"@,
            },
    {
        match self {
            DepositError::IncorrectFormat => "incorrect format",
            DepositError::NotWhitelistedDex => "Not a whitelisted DEX",
        }
    }
}

/// The three calls scheduled for one route: the deposit goes to the DEX, the DEX
/// swaps, and this contract reconciles the outcome.
#[derive(Clone, Debug, PartialEq, Eq)]
pub struct SwapChain {
    pub transfer: PromiseCall,
    pub swap: PromiseCall,
    pub callback: PromiseCall,
}

/// What a deposit with a valid instruction turns into: one chain per route, in
/// the order of the routes, and the part of the deposit handed back unused.
#[derive(Clone, Debug, PartialEq, Eq)]
pub struct DepositPlan {
    pub chains: Vec<SwapChain>,
    pub unused_amount: u128,
}

/// The reason a single route is refused, if any.
pub open spec fn route_error(route: DexRoute) -> Option<DepositError> {
    if route.actions@.len() == 0 {
        Some(DepositError::IncorrectFormat)
    } else if !is_whitelisted(route.dex@) {
        Some(DepositError::NotWhitelistedDex)
    } else {
        None
    }
}

/// The reason of the first refused route at position `i` or later.
pub open spec fn first_route_error(routes: Seq<DexRoute>, i: int) -> Option<DepositError>
    decreases routes.len() - i,
{
    if i < 0 || i >= routes.len() {
        None
    } else if route_error(routes[i]) is Some {
        route_error(routes[i])
    } else {
        first_route_error(routes, i + 1)
    }
}

/// The reason a list of routes is refused, if any: it is empty, or one of its
/// routes is refused (the first such route decides).
pub open spec fn routes_error(routes: Seq<DexRoute>) -> Option<DepositError> {
    if routes.len() == 0 {
        Some(DepositError::IncorrectFormat)
    } else {
        first_route_error(routes, 0)
    }
}

/// Two optional accounts name the same account, or are both absent.
pub open spec fn same_optional_account(a: Option<String>, b: Option<String>) -> bool {
    match (a, b) {
        (Some(x), Some(y)) => x@ == y@,
        (None, None) => true,
        _ => false,
    }
}

/// `c` is the chain for `route`: the deposit of `amount` goes from the route's
/// input token to the DEX, the DEX runs the route's actions with the referral,
/// and the callback on `self_id` carries the context that settles with `sender`.
pub open spec fn chain_for(
    c: SwapChain,
    sender: Seq<char>,
    amount: u128,
    referral_id: Option<String>,
    route: DexRoute,
    self_id: Seq<char>,
) -> bool {
    &&& c.transfer.receiver_id@ == route.input_token()
    &&& c.transfer.attached_deposit == ONE_YOCTO
    &&& c.transfer.gas == MIN_GAS_FOR_FT_TRANSFER_CALL
    &&& match c.transfer.action {
        CallAction::FtTransferCall { receiver_id, amount: a, memo, msg } => {
            receiver_id@ == route.dex@ && a == amount && memo is None && msg@.len() == 0
        },
        _ => false,
    }
    &&& c.swap.receiver_id@ == route.dex@
    &&& c.swap.attached_deposit == ONE_YOCTO
    &&& c.swap.gas == MIN_GAS_FOR_SWAP
    &&& match c.swap.action {
        CallAction::Swap { actions, referral_id: r } => {
            actions@ == route.actions@ && same_optional_account(r, referral_id)
        },
        _ => false,
    }
    &&& c.callback.receiver_id@ == self_id
    &&& c.callback.attached_deposit == ONE_YOCTO
    &&& c.callback.gas == MIN_GAS_FOR_WITHDRAW_CALLBACK
    &&& match c.callback.action {
        CallAction::CallbackSwapResult { context } => {
            &&& context.destination@ == sender
            &&& context.dex_id@ == route.dex@
            &&& context.output_token@ == route.output_token()
            &&& context.input_token@ == route.input_token()
            &&& context.input_amount == amount
        },
        _ => false,
    }
}

/// What a deposit of `amount` by `sender` with the decoded instruction `msg`
/// (`None` when the payload did not decode) owes: a rejection for a malformed
/// instruction or a non-whitelisted DEX, else exactly one chain per route with
/// the whole deposit consumed.
pub open spec fn deposit_planned(
    sender: Seq<char>,
    amount: u128,
    msg: Option<TokenReceiverMessage>,
    self_id: Seq<char>,
    r: Result<DepositPlan, DepositError>,
) -> bool {
    match msg {
        None => r == Err::<DepositPlan, DepositError>(DepositError::IncorrectFormat),
        Some(TokenReceiverMessage::Execute { referral_id, routes }) => match routes_error(routes@) {
            Some(e) => r == Err::<DepositPlan, DepositError>(e),
            None => match r {
                Ok(plan) => {
                    &&& plan.unused_amount == 0
                    &&& plan.chains@.len() == routes@.len()
                    &&& forall|i: int|
                        0 <= i < routes@.len() ==> chain_for(
                            #[trigger] plan.chains@[i],
                            sender,
                            amount,
                            referral_id,
                            routes@[i],
                            self_id,
                        )
                },
                Err(_) => false,
            },
        },
    }
}

proof fn lemma_no_route_error_from(routes: Seq<DexRoute>, i: int)
    requires
        0 <= i <= routes.len(),
        first_route_error(routes, i) is None,
    ensures
        forall|j: int| i <= j < routes.len() ==> (#[trigger] route_error(routes[j])) is None,
    decreases routes.len() - i,
{
    if i < routes.len() {
        lemma_no_route_error_from(routes, i + 1);
    }
}

/// A deposit that is accepted consumes the whole amount and schedules exactly
/// one chain per route, each ending in a reconciliation callback on this
/// contract that carries the sender and the deposited amount; a deposit that is
/// refused schedules nothing.
pub proof fn lemma_one_callback_per_route(
    sender: Seq<char>,
    amount: u128,
    msg: Option<TokenReceiverMessage>,
    self_id: Seq<char>,
    r: Result<DepositPlan, DepositError>,
)
    requires
        deposit_planned(sender, amount, msg, self_id, r),
    ensures
        r is Ok ==> match msg {
            Some(TokenReceiverMessage::Execute { referral_id, routes }) => {
                let plan = r->Ok_0;
                &&& plan.unused_amount == 0
                &&& plan.chains@.len() == routes@.len()
                &&& forall|i: int|
                    0 <= i < plan.chains@.len() ==> {
                        let cb = (#[trigger] plan.chains@[i]).callback;
                        &&& cb.receiver_id@ == self_id
                        &&& match cb.action {
                            CallAction::CallbackSwapResult { context } => {
                                context.destination@ == sender && context.input_amount == amount
                            },
                            _ => false,
                        }
                    }
            },
            None => false,
        },
{
    match msg {
        Some(TokenReceiverMessage::Execute { referral_id, routes }) => {
            if r is Ok {
                let plan = r->Ok_0;
                assert forall|i: int| 0 <= i < plan.chains@.len() implies {
                    let cb = (#[trigger] plan.chains@[i]).callback;
                    &&& cb.receiver_id@ == self_id
                    &&& match cb.action {
                        CallAction::CallbackSwapResult { context } => {
                            context.destination@ == sender && context.input_amount == amount
                        },
                        _ => false,
                    }
                } by {
                    assert(chain_for(plan.chains@[i], sender, amount, referral_id, routes@[i], self_id));
                }
            }
        },
        None => {},
    }
}

proof fn lemma_refused_route_refuses_all(routes: Seq<DexRoute>, i: int)
    requires
        0 <= i < routes.len(),
        route_error(routes[i]) is Some,
    ensures
        routes_error(routes) is Some,
{
    if first_route_error(routes, 0) is None {
        lemma_no_route_error_from(routes, 0);
    }
}

/// A deposit whose instruction names a DEX outside the whitelist in any route is
/// refused as a whole: no call is scheduled, to that DEX or to any other.
pub proof fn lemma_non_whitelisted_dex_aborts(
    sender: Seq<char>,
    amount: u128,
    referral_id: Option<String>,
    routes: Vec<DexRoute>,
    self_id: Seq<char>,
    r: Result<DepositPlan, DepositError>,
    i: int,
)
    requires
        deposit_planned(
            sender,
            amount,
            Some(TokenReceiverMessage::Execute { referral_id, routes }),
            self_id,
            r,
        ),
        0 <= i < routes@.len(),
        !is_whitelisted(routes@[i].dex@),
    ensures
        r is Err,
{
    lemma_refused_route_refuses_all(routes@, i);
}

/// A deposit whose payload is malformed (it did not decode, it has no route, or
/// a route has no action) is refused as a whole and no route is processed; the
/// first two are reported as a format error.
pub proof fn lemma_malformed_instruction_aborts(
    sender: Seq<char>,
    amount: u128,
    msg: Option<TokenReceiverMessage>,
    self_id: Seq<char>,
    r: Result<DepositPlan, DepositError>,
)
    requires
        deposit_planned(sender, amount, msg, self_id, r),
    ensures
        msg is None ==> r == Err::<DepositPlan, DepositError>(DepositError::IncorrectFormat),
        match msg {
            Some(TokenReceiverMessage::Execute { referral_id, routes }) => {
                &&& routes@.len() == 0 ==> r == Err::<DepositPlan, DepositError>(
                    DepositError::IncorrectFormat,
                )
                &&& (exists|i: int| 0 <= i < routes@.len() && routes@[i].actions@.len() == 0)
                    ==> r is Err
            },
            None => true,
        },
{
    match msg {
        Some(TokenReceiverMessage::Execute { referral_id, routes }) => {
            if exists|i: int| 0 <= i < routes@.len() && routes@[i].actions@.len() == 0 {
                let i = choose|i: int| 0 <= i < routes@.len() && routes@[i].actions@.len() == 0;
                lemma_refused_route_refuses_all(routes@, i);
            }
        },
        None => {},
    }
}

/// Nothing is deduplicated: the same deposit handled twice is planned twice,
/// in full and in the same way, so each gives its own chains and settlements.
pub proof fn lemma_replay_plans_again(
    sender: Seq<char>,
    amount: u128,
    msg: Option<TokenReceiverMessage>,
    self_id: Seq<char>,
    first: Result<DepositPlan, DepositError>,
    second: Result<DepositPlan, DepositError>,
)
    requires
        deposit_planned(sender, amount, msg, self_id, first),
        deposit_planned(sender, amount, msg, self_id, second),
    ensures
        first is Ok <==> second is Ok,
        first is Err ==> first == second,
        first is Ok ==> match msg {
            Some(TokenReceiverMessage::Execute { referral_id, routes }) => {
                &&& first->Ok_0.chains@.len() == routes@.len()
                &&& second->Ok_0.chains@.len() == routes@.len()
                &&& forall|i: int|
                    0 <= i < routes@.len() ==> chain_for(
                        #[trigger] second->Ok_0.chains@[i],
                        sender,
                        amount,
                        referral_id,
                        routes@[i],
                        self_id,
                    )
            },
            None => false,
        },
{
}

/// The reason a route is refused, if any.
pub fn check_route(route: &DexRoute) -> (r: Option<DepositError>)
    ensures
        r == route_error(*route),
{
    if route.actions.len() == 0 {
        Some(DepositError::IncorrectFormat)
    } else if !is_whitelisted_dex(&route.dex) {
        Some(DepositError::NotWhitelistedDex)
    } else {
        None
    }
}

/// The reason a list of routes is refused, if any; when there is none, every
/// route has an action and a whitelisted DEX.
pub fn check_routes(routes: &Vec<DexRoute>) -> (r: Option<DepositError>)
    ensures
        r == routes_error(routes@),
        r is None ==> forall|j: int| 0 <= j < routes@.len() ==> (#[trigger] route_error(routes@[j])) is None,
{
    if routes.len() == 0 {
        return Some(DepositError::IncorrectFormat);
    }
    let mut i: usize = 0;
    while i < routes.len()
        invariant
            0 <= i <= routes@.len(),
            first_route_error(routes@, i as int) == first_route_error(routes@, 0),
        decreases routes@.len() - i,
    {
        let e = check_route(&routes[i]);
        if e.is_some() {
            return e;
        }
        i = i + 1;
    }
    proof {
        lemma_no_route_error_from(routes@, 0);
    }
    None
}

fn clone_account(a: &Option<String>) -> (r: Option<String>)
    ensures
        same_optional_account(r, *a),
{
    match a {
        Some(s) => Some(s.clone()),
        None => None,
    }
}

/// Builds the chain of calls for one route.
pub fn build_chain(
    sender: &String,
    amount: u128,
    referral_id: &Option<String>,
    route: DexRoute,
    self_id: &String,
) -> (c: SwapChain)
    requires
        route.actions@.len() > 0,
    ensures
        chain_for(c, sender@, amount, *referral_id, route, self_id@),
{
    let n = route.actions.len();
    let token_in = route.actions[0].token_in.clone();
    let token_out = route.actions[n - 1].token_out.clone();
    let ledger = CallTarget {
        account_id: token_in.clone(),
        attached_deposit: ONE_YOCTO,
        gas: MIN_GAS_FOR_FT_TRANSFER_CALL,
    };
    let transfer = ledger.ft_transfer_call(route.dex.clone(), amount, None, String::new());
    let dex = CallTarget {
        account_id: route.dex.clone(),
        attached_deposit: ONE_YOCTO,
        gas: MIN_GAS_FOR_SWAP,
    };
    let swap = dex.swap(route.actions, clone_account(referral_id));
    let this = CallTarget {
        account_id: self_id.clone(),
        attached_deposit: ONE_YOCTO,
        gas: MIN_GAS_FOR_WITHDRAW_CALLBACK,
    };
    let callback = this.callback_swap_result(sender.clone(), route.dex, token_out, token_in, amount);
    SwapChain { transfer, swap, callback }
}

/// Turns a deposit and its decoded instruction into the chains to schedule, or
/// refuses it as a whole.
pub fn plan_deposit(
    sender_id: &String,
    amount: u128,
    msg: Option<TokenReceiverMessage>,
    current_account_id: &String,
) -> (r: Result<DepositPlan, DepositError>)
    ensures
        deposit_planned(sender_id@, amount, msg, current_account_id@, r),
{
    let (referral_id, routes) = match msg {
        Some(TokenReceiverMessage::Execute { referral_id, routes }) => (referral_id, routes),
        None => {
            return Err(DepositError::IncorrectFormat);
        },
    };
    match check_routes(&routes) {
        Some(e) => {
            return Err(e);
        },
        None => {},
    }
    let ghost all = routes@;
    let mut rest = routes;
    let mut chains: Vec<SwapChain> = Vec::new();
    while rest.len() > 0
        invariant
            chains@.len() + rest@.len() == all.len(),
            rest@ == all.subrange(chains@.len() as int, all.len() as int),
            forall|j: int| 0 <= j < all.len() ==> (#[trigger] route_error(all[j])) is None,
            forall|j: int|
                0 <= j < chains@.len() ==> chain_for(
                    #[trigger] chains@[j],
                    sender_id@,
                    amount,
                    referral_id,
                    all[j],
                    current_account_id@,
                ),
        decreases rest@.len(),
    {
        let ghost k = chains@.len() as int;
        let route = rest.remove(0);
        assert(route == all[k]);
        assert(route_error(all[k]) is None);
        let chain = build_chain(sender_id, amount, &referral_id, route, current_account_id);
        chains.push(chain);
    }
    Ok(DepositPlan { chains, unused_amount: 0 })
}

} // verus!
