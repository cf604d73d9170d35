use vstd::prelude::*;

verus! {

/// One teragas, the unit in which the allowances below are written.
pub const ONE_TERA: u64 = 1_000_000_000_000;

/// Gas attached to the transfer of the deposit to the DEX.
pub const MIN_GAS_FOR_FT_TRANSFER_CALL: u64 = 60 * ONE_TERA;

/// Gas attached to the swap on the DEX.
pub const MIN_GAS_FOR_SWAP: u64 = 20 * ONE_TERA;

/// Gas attached to the withdrawal from the DEX during settlement.
pub const MIN_GAS_FOR_WITHDRAW: u64 = 80 * ONE_TERA;

/// Gas attached to the final transfer to the original sender.
pub const MIN_GAS_FOR_FT_TRANSFER: u64 = 30 * ONE_TERA;

/// Gas attached to the reconciliation callback: enough for the withdraw and
/// transfer it schedules, plus its own execution.
pub const MIN_GAS_FOR_WITHDRAW_CALLBACK: u64 = MIN_GAS_FOR_WITHDRAW + MIN_GAS_FOR_FT_TRANSFER + 25
    * ONE_TERA;

/// The callback's allowance covers the whole settlement tail it schedules
/// (withdraw, then transfer) and leaves a positive margin for its own work.
pub proof fn lemma_callback_budget_covers_settlement()
    ensures
        MIN_GAS_FOR_WITHDRAW + MIN_GAS_FOR_FT_TRANSFER < MIN_GAS_FOR_WITHDRAW_CALLBACK,
{
}

} // verus!
