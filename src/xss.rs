use vstd::prelude::*;
use crate::structs::SwapAction;

verus! {

/// What a chain carries forward to its reconciliation callback. Every field is
/// fixed when the chain is built and only copied afterwards.
#[derive(Clone, Debug, PartialEq, Eq)]
pub struct ChainContext {
    /// The account that made the deposit and receives the settlement.
    pub destination: String,
    /// The DEX that performed the swap.
    pub dex_id: String,
    /// The token expected out of the swap.
    pub output_token: String,
    /// The token that was deposited.
    pub input_token: String,
    /// The amount that was deposited.
    pub input_amount: u128,
}

/// A method of a remote contract together with its arguments.
#[derive(Clone, Debug, PartialEq, Eq)]
pub enum CallAction {
    FtTransfer { receiver_id: String, amount: u128, memo: Option<String> },
    FtTransferCall { receiver_id: String, amount: u128, memo: Option<String>, msg: String },
    FtResolveTransfer { sender_id: String, receiver_id: String, amount: u128 },
    FtBalanceOf { account_id: String },
    Swap { actions: Vec<SwapAction>, referral_id: Option<String> },
    Withdraw { token_id: String, amount: u128, unregister: Option<bool> },
    CallbackSwapResult { context: ChainContext },
}

/// An asynchronous call to be scheduled: the account it goes to, the deposit and
/// gas attached to it, and the method with its arguments.
#[derive(Clone, Debug, PartialEq, Eq)]
pub struct PromiseCall {
    pub receiver_id: String,
    pub attached_deposit: u128,
    pub gas: u64,
    pub action: CallAction,
}

/// The deposit attached to every call of a chain.
pub const ONE_YOCTO: u128 = 1;

/// An account to call, with the deposit and gas that every call to it carries.
#[derive(Clone, Debug, PartialEq, Eq)]
pub struct CallTarget {
    pub account_id: String,
    pub attached_deposit: u128,
    pub gas: u64,
}

/// Whether `c` is a call that goes to `t` with `t`'s deposit and gas.
pub open spec fn addressed_to(c: PromiseCall, t: CallTarget) -> bool {
    &&& c.receiver_id == t.account_id
    &&& c.attached_deposit == t.attached_deposit
    &&& c.gas == t.gas
}

/// The interface of a fungible-token contract.
pub trait FungibleToken {
    fn ft_transfer(&self, receiver_id: String, amount: u128, memo: Option<String>) -> PromiseCall;

    fn ft_transfer_call(
        &self,
        receiver_id: String,
        amount: u128,
        memo: Option<String>,
        msg: String,
    ) -> PromiseCall;

    fn ft_resolve_transfer(&self, sender_id: String, receiver_id: String, amount: u128) -> PromiseCall;

    fn ft_balance_of(&self, account_id: String) -> PromiseCall;
}

/// The interface that this contract offers to itself.
pub trait ExtSelf {
    fn callback_swap_result(
        &self,
        destination: String,
        dex_id: String,
        output_token: String,
        input_token: String,
        input_amount: u128,
    ) -> PromiseCall;
}

/// The interface of a DEX contract.
pub trait RefExchange {
    fn swap(&self, actions: Vec<SwapAction>, referral_id: Option<String>) -> PromiseCall;

    fn withdraw(&self, token_id: String, amount: u128, unregister: Option<bool>) -> PromiseCall;
}

impl CallTarget {
    fn call(&self, action: CallAction) -> (r: PromiseCall)
        ensures
            addressed_to(r, *self),
            r.action == action,
    {
        PromiseCall {
            receiver_id: self.account_id.clone(),
            attached_deposit: self.attached_deposit,
            gas: self.gas,
            action,
        }
    }
}

impl FungibleToken for CallTarget {
    fn ft_transfer(&self, receiver_id: String, amount: u128, memo: Option<String>) -> (r: PromiseCall)
        ensures
            addressed_to(r, *self),
            r.action == (CallAction::FtTransfer { receiver_id, amount, memo }),
    {
        self.call(CallAction::FtTransfer { receiver_id, amount, memo })
    }

    fn ft_transfer_call(
        &self,
        receiver_id: String,
        amount: u128,
        memo: Option<String>,
        msg: String,
    ) -> (r: PromiseCall)
        ensures
            addressed_to(r, *self),
            r.action == (CallAction::FtTransferCall { receiver_id, amount, memo, msg }),
    {
        self.call(CallAction::FtTransferCall { receiver_id, amount, memo, msg })
    }

    fn ft_resolve_transfer(&self, sender_id: String, receiver_id: String, amount: u128) -> (r:
        PromiseCall)
        ensures
            addressed_to(r, *self),
            r.action == (CallAction::FtResolveTransfer { sender_id, receiver_id, amount }),
    {
        self.call(CallAction::FtResolveTransfer { sender_id, receiver_id, amount })
    }

    fn ft_balance_of(&self, account_id: String) -> (r: PromiseCall)
        ensures
            addressed_to(r, *self),
            r.action == (CallAction::FtBalanceOf { account_id }),
    {
        self.call(CallAction::FtBalanceOf { account_id })
    }
}

impl ExtSelf for CallTarget {
    fn callback_swap_result(
        &self,
        destination: String,
        dex_id: String,
        output_token: String,
        input_token: String,
        input_amount: u128,
    ) -> (r: PromiseCall)
        ensures
            addressed_to(r, *self),
            r.action == (CallAction::CallbackSwapResult {
                context: ChainContext { destination, dex_id, output_token, input_token, input_amount },
            }),
    {
        let context = ChainContext { destination, dex_id, output_token, input_token, input_amount };
        self.call(CallAction::CallbackSwapResult { context })
    }
}

impl RefExchange for CallTarget {
    fn swap(&self, actions: Vec<SwapAction>, referral_id: Option<String>) -> (r: PromiseCall)
        ensures
            addressed_to(r, *self),
            r.action == (CallAction::Swap { actions, referral_id }),
    {
        self.call(CallAction::Swap { actions, referral_id })
    }

    fn withdraw(&self, token_id: String, amount: u128, unregister: Option<bool>) -> (r: PromiseCall)
        ensures
            addressed_to(r, *self),
            r.action == (CallAction::Withdraw { token_id, amount, unregister }),
    {
        self.call(CallAction::Withdraw { token_id, amount, unregister })
    }
}

} // verus!
