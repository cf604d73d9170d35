use vstd::prelude::*;
use crate::budget::{MIN_GAS_FOR_FT_TRANSFER, MIN_GAS_FOR_WITHDRAW};
use crate::xss::{CallAction, CallTarget, ChainContext, FungibleToken, PromiseCall, RefExchange, ONE_YOCTO};

verus! {

/// The outcome of an asynchronous call as the runtime reports it.
#[derive(Clone, Debug, PartialEq, Eq)]
pub enum PromiseOutcome {
    NotReady,
    Successful(Vec<u8>),
    Failed,
}

/// The outcome of the swap step once its payload has been decoded:
/// `Successful(None)` is a successful call whose payload is not an amount.
#[derive(PartialEq, Eq, Structural, Clone, Copy, Debug)]
pub enum SwapOutcome {
    NotReady,
    Successful(Option<u128>),
    Failed,
}

/// Why the reconciliation callback aborts.
#[derive(PartialEq, Eq, Structural, Clone, Copy, Debug)]
pub enum CallbackError {
    /// The callback did not see exactly one prior result.
    TooManyResults,
    /// The prior result was not ready.
    ResultNotReady,
    /// The swap succeeded but its payload is not an amount.
    WrongValueReceived,
}

impl CallbackError {
    /// The diagnostic with which the callback aborts.
    pub fn message(&self) -> (r: &'static str)
        ensures
            r@ == match *self {
                CallbackError::TooManyResults => "ERR_TOO_MANY_RESULTS"@,
                CallbackError::ResultNotReady => "ERR_RESULT_NOT_READY"@,
                CallbackError::WrongValueReceived => "ERR_WRONG_VAL_RECEIVED"@,
            },
    {
        match self {
            CallbackError::TooManyResults => "ERR_TOO_MANY_RESULTS",
            CallbackError::ResultNotReady => "ERR_RESULT_NOT_READY",
            CallbackError::WrongValueReceived => "ERR_WRONG_VAL_RECEIVED",
        }
    }
}

/// The tail that returns value to the original sender: a withdrawal from the
/// DEX, followed by a transfer of the same token and amount.
#[derive(Clone, Debug, PartialEq, Eq)]
pub struct Settlement {
    pub withdraw: PromiseCall,
    pub transfer: PromiseCall,
}

/// `s` withdraws `amount` of `token` from the chain's DEX, keeping the balance
/// record, and then transfers that same `amount` of `token` to the original sender.
pub open spec fn settles(s: Settlement, ctx: ChainContext, token: Seq<char>, amount: u128) -> bool {
    &&& s.withdraw.receiver_id@ == ctx.dex_id@
    &&& s.withdraw.attached_deposit == ONE_YOCTO
    &&& s.withdraw.gas == MIN_GAS_FOR_WITHDRAW
    &&& match s.withdraw.action {
        CallAction::Withdraw { token_id, amount: a, unregister } => {
            token_id@ == token && a == amount && unregister == Some(false)
        },
        _ => false,
    }
    &&& s.transfer.receiver_id@ == token
    &&& s.transfer.attached_deposit == ONE_YOCTO
    &&& s.transfer.gas == MIN_GAS_FOR_FT_TRANSFER
    &&& match s.transfer.action {
        CallAction::FtTransfer { receiver_id, amount: a, memo } => {
            receiver_id@ == ctx.destination@ && a == amount && memo is None
        },
        _ => false,
    }
}

/// What the callback owes for each outcome of the swap step: the swapped output
/// at the decoded amount, a full refund of the input, or an abort.
pub open spec fn reconciled(
    ctx: ChainContext,
    outcome: SwapOutcome,
    r: Result<Settlement, CallbackError>,
) -> bool {
    match outcome {
        SwapOutcome::NotReady => r == Err::<Settlement, CallbackError>(CallbackError::ResultNotReady),
        SwapOutcome::Successful(None) => r == Err::<Settlement, CallbackError>(
            CallbackError::WrongValueReceived,
        ),
        SwapOutcome::Successful(Some(a)) => match r {
            Ok(s) => settles(s, ctx, ctx.output_token@, a),
            Err(_) => false,
        },
        SwapOutcome::Failed => match r {
            Ok(s) => settles(s, ctx, ctx.input_token@, ctx.input_amount),
            Err(_) => false,
        },
    }
}

/// Decides the settlement of a chain from the decoded outcome of its swap step.
pub fn settle_swap_outcome(context: ChainContext, outcome: SwapOutcome) -> (r: Result<
    Settlement,
    CallbackError,
>)
    ensures
        reconciled(context, outcome, r),
{
    let (token, amount) = match outcome {
        SwapOutcome::NotReady => {
            return Err(CallbackError::ResultNotReady);
        },
        SwapOutcome::Successful(decoded) => match decoded {
            Some(amount_out) => (context.output_token, amount_out),
            None => {
                return Err(CallbackError::WrongValueReceived);
            },
        },
        SwapOutcome::Failed => (context.input_token, context.input_amount),
    };
    let dex = CallTarget {
        account_id: context.dex_id,
        attached_deposit: ONE_YOCTO,
        gas: MIN_GAS_FOR_WITHDRAW,
    };
    let withdraw = dex.withdraw(token.clone(), amount, Some(false));
    let ledger = CallTarget {
        account_id: token,
        attached_deposit: ONE_YOCTO,
        gas: MIN_GAS_FOR_FT_TRANSFER,
    };
    let transfer = ledger.ft_transfer(context.destination, amount, None);
    Ok(Settlement { withdraw, transfer })
}

/// Whatever the swap step reported, a settlement that the callback issues pays
/// the original sender either the expected output token at the decoded amount,
/// or the original input token at the original input amount; the withdrawal and
/// the transfer always move the same token and amount.
pub proof fn lemma_settlement_is_output_or_refund(
    ctx: ChainContext,
    outcome: SwapOutcome,
    s: Settlement,
)
    requires
        reconciled(ctx, outcome, Ok(s)),
    ensures
        (exists|a: u128| outcome == SwapOutcome::Successful(Some(a)) && settles(s, ctx, ctx.output_token@, a))
            || (outcome == SwapOutcome::Failed && settles(s, ctx, ctx.input_token@, ctx.input_amount)),
{
    match outcome {
        SwapOutcome::Successful(Some(a)) => {
            assert(outcome == SwapOutcome::Successful(Some(a)) && settles(s, ctx, ctx.output_token@, a));
        },
        _ => {},
    }
}

} // verus!
