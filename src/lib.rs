pub mod budget;
pub mod dispatch;
pub mod settle;
pub mod structs;
pub mod whitelist;
pub mod xss;

use vstd::prelude::*;
use crate::dispatch::{deposit_planned, plan_deposit, DepositError, DepositPlan};
use crate::settle::{
    reconciled, settle_swap_outcome, CallbackError, PromiseOutcome, Settlement, SwapOutcome,
};
use crate::structs::TokenReceiverMessage;
use crate::xss::ChainContext;

verus! {

/// What a successful swap call's payload decodes to as an amount, if anything.
pub uninterp spec fn json_u128_of(bytes: Seq<u8>) -> Option<u128>;

/// Relies on near_sdk::serde_json::from_slice into near_sdk::json_types::U128:
/// the payload is read as a JSON string holding a base-10 `u128`; the outcome
/// depends on the bytes alone.
#[verifier::external_body]
fn decode_amount(bytes: &Vec<u8>) -> (r: Option<u128>)
    ensures
        r == json_u128_of(bytes@),
{
    match near_sdk::serde_json::from_slice::<near_sdk::json_types::U128>(bytes) {
        Ok(v) => Some(v.0),
        Err(_) => None,
    }
}

/// The swap step's outcome as the callback classifies it.
pub open spec fn swap_outcome_of(p: PromiseOutcome) -> SwapOutcome {
    match p {
        PromiseOutcome::NotReady => SwapOutcome::NotReady,
        PromiseOutcome::Successful(bytes) => SwapOutcome::Successful(json_u128_of(bytes@)),
        PromiseOutcome::Failed => SwapOutcome::Failed,
    }
}

/// Decodes the payload of the swap step's outcome.
pub fn classify_outcome(p: PromiseOutcome) -> (r: SwapOutcome)
    ensures
        r == swap_outcome_of(p),
{
    match p {
        PromiseOutcome::NotReady => SwapOutcome::NotReady,
        PromiseOutcome::Successful(bytes) => SwapOutcome::Successful(decode_amount(&bytes)),
        PromiseOutcome::Failed => SwapOutcome::Failed,
    }
}

/// The swap router. It holds no state: every deposit is handled on its own.
#[derive(Clone, Copy, Debug, PartialEq, Eq, Structural, Default)]
pub struct CometContract {}

impl CometContract {
    /// A router.
    pub fn new() -> (r: CometContract) {
        CometContract {  }
    }

    /// The reconciliation callback of a chain. `results` are the outcomes of the
    /// calls that precede it; there must be exactly one, the swap step's.
    pub fn callback_swap_result(
        self,
        destination: String,
        dex_id: String,
        output_token: String,
        input_token: String,
        input_amount: u128,
        results: Vec<PromiseOutcome>,
    ) -> (r: Result<Settlement, CallbackError>)
        ensures
            results@.len() != 1 ==> r == Err::<Settlement, CallbackError>(
                CallbackError::TooManyResults,
            ),
            results@.len() == 1 ==> reconciled(
                (ChainContext { destination, dex_id, output_token, input_token, input_amount }),
                swap_outcome_of(results@[0]),
                r,
            ),
    {
        if results.len() != 1 {
            return Err(CallbackError::TooManyResults);
        }
        let mut results = results;
        let outcome = classify_outcome(results.remove(0));
        let context = ChainContext { destination, dex_id, output_token, input_token, input_amount };
        settle_swap_outcome(context, outcome)
    }

    /// Handles a deposit of `amount` by `sender_id` whose instruction decoded to
    /// `msg` (`None` when the payload is not a routing instruction).
    /// `current_account_id` is this contract's own account, which receives the
    /// callbacks.
    pub fn ft_on_transfer(
        &mut self,
        sender_id: String,
        amount: u128,
        msg: Option<TokenReceiverMessage>,
        current_account_id: String,
    ) -> (r: Result<DepositPlan, DepositError>)
        ensures
            *final(self) == *old(self),
            deposit_planned(sender_id@, amount, msg, current_account_id@, r),
    {
        plan_deposit(&sender_id, amount, msg, &current_account_id)
    }
}

} // verus!
