use vstd::prelude::*;

verus! {

/// One pool-level exchange step performed by a DEX.
#[derive(Clone, Debug, PartialEq, Eq)]
pub struct SwapAction {
    /// Pool which should be used for swapping.
    pub pool_id: u64,
    /// Token to swap from.
    pub token_in: String,
    /// Amount to exchange.
    /// If amount_in is None, it will take amount_out from previous step.
    /// Will fail if amount_in is None on the first step.
    pub amount_in: Option<u128>,
    /// Token to swap into.
    pub token_out: String,
    /// Required minimum amount of token_out.
    pub min_amount_out: u128,
}

/// One DEX-directed leg of a routing instruction.
#[derive(Clone, Debug, PartialEq, Eq)]
pub struct DexRoute {
    /// DEX which should be used for swapping.
    pub dex: String,
    /// Token to swap from.
    pub token_in: String,
    /// Internal actions for the DEX contract.
    pub actions: Vec<SwapAction>,
}

/// The instruction that the Ref exchange takes with a deposit.
#[derive(Clone, Debug, PartialEq, Eq)]
pub struct RefRoute {
    pub force: u8,
    pub referral_id: Option<String>,
    pub actions: Vec<SwapAction>,
}

/// The decoded message that comes with a deposit.
#[derive(Clone, Debug, PartialEq, Eq)]
pub enum TokenReceiverMessage {
    Execute { referral_id: Option<String>, routes: Vec<DexRoute> },
}

impl DexRoute {
    /// The token that enters the route: the input token of its first action.
    pub open spec fn input_token(self) -> Seq<char> {
        self.actions@[0].token_in@
    }

    /// The token that leaves the route: the output token of its last action.
    pub open spec fn output_token(self) -> Seq<char> {
        self.actions@[self.actions@.len() - 1].token_out@
    }
}

} // verus!
