//! Accounts that sign transactions, and what they pay for them.

use vstd::prelude::*;

verus! {

/// An amount of one denomination.
#[derive(Clone, Debug, PartialEq, Eq)]
pub struct Coin {
    pub denom: String,
    pub amount: u128,
}

/// Mathematical model of a [`Coin`].
pub struct CoinView {
    pub denom: Seq<char>,
    pub amount: u128,
}

impl View for Coin {
    type V = CoinView;

    open spec fn view(&self) -> CoinView {
        CoinView { denom: self.denom@, amount: self.amount }
    }
}

impl DeepView for Coin {
    type V = CoinView;

    open spec fn deep_view(&self) -> CoinView {
        self@
    }
}

/// How the fee of a transaction is set.
#[derive(Clone, Debug, PartialEq, Eq)]
pub enum FeeSetting {
    /// The fee follows from a simulation of the transaction: the gas it used,
    /// times `gas_adjustment_permille / 1000`, at `gas_price` per unit.
    Auto { gas_price: Coin, gas_adjustment_permille: u64 },
    /// The fee is fixed.
    Custom { amount: Coin, gas_limit: u64 },
}

/// Mathematical model of a [`FeeSetting`].
pub enum FeeSettingView {
    Auto { gas_price: CoinView, gas_adjustment_permille: u64 },
    Custom { amount: CoinView, gas_limit: u64 },
}

impl View for FeeSetting {
    type V = FeeSettingView;

    open spec fn view(&self) -> FeeSettingView {
        match *self {
            FeeSetting::Auto { gas_price, gas_adjustment_permille } => FeeSettingView::Auto {
                gas_price: gas_price@,
                gas_adjustment_permille,
            },
            FeeSetting::Custom { amount, gas_limit } => FeeSettingView::Custom {
                amount: amount@,
                gas_limit,
            },
        }
    }
}

impl DeepView for FeeSetting {
    type V = FeeSettingView;

    open spec fn deep_view(&self) -> FeeSettingView {
        self@
    }
}

/// An account that signs transactions, as far as the client keeps it: its
/// address on the chain, its fee setting, and the sequence number that its
/// next transaction carries. The key itself stays with whoever signs.
///
/// The sequence number only ever grows, by one for each transaction of the
/// account that entered a block.
#[derive(Clone, Debug, PartialEq, Eq)]
pub struct SigningAccount {
    address: String,
    fee_setting: FeeSetting,
    sequence: u64,
}

/// Mathematical model of a [`SigningAccount`].
pub struct SigningAccountView {
    pub address: Seq<char>,
    pub fee_setting: FeeSettingView,
    pub sequence: u64,
}

impl SigningAccountView {
    /// The same account after `n` more of its transactions entered a block.
    pub open spec fn advanced(self, n: nat) -> SigningAccountView
        recommends
            self.sequence + n <= u64::MAX,
    {
        SigningAccountView { sequence: (self.sequence + n) as u64, ..self }
    }
}

impl View for SigningAccount {
    type V = SigningAccountView;

    closed spec fn view(&self) -> SigningAccountView {
        SigningAccountView {
            address: self.address@,
            fee_setting: self.fee_setting@,
            sequence: self.sequence,
        }
    }
}

impl DeepView for SigningAccount {
    type V = SigningAccountView;

    open spec fn deep_view(&self) -> SigningAccountView {
        self@
    }
}

impl SigningAccount {
    /// An account that has sent nothing yet.
    pub fn new(address: String, fee_setting: FeeSetting) -> (account: Self)
        ensures
            account@ == (SigningAccountView {
                address: address@,
                fee_setting: fee_setting@,
                sequence: 0,
            }),
    {
        SigningAccount { address, fee_setting, sequence: 0 }
    }

    /// The same account with another fee setting.
    pub fn with_fee_setting(self, fee_setting: FeeSetting) -> (account: Self)
        ensures
            account@ == (SigningAccountView { fee_setting: fee_setting@, ..self@ }),
    {
        SigningAccount {
            address: self.address,
            fee_setting,
            sequence: self.sequence,
        }
    }

    /// The same account as the chain knows it after `sequence` of its
    /// transactions.
    pub fn with_sequence(self, sequence: u64) -> (account: Self)
        ensures
            account@ == (SigningAccountView { sequence, ..self@ }),
    {
        SigningAccount {
            address: self.address,
            fee_setting: self.fee_setting,
            sequence,
        }
    }

    pub fn address(&self) -> (address: String)
        ensures
            address@ == self@.address,
    {
        self.address.clone()
    }

    pub fn fee_setting(&self) -> (fee_setting: &FeeSetting)
        ensures
            fee_setting@ == self@.fee_setting,
    {
        &self.fee_setting
    }

    /// The sequence number that the next transaction of this account
    /// carries.
    pub fn sequence(&self) -> (sequence: u64)
        ensures
            sequence == self@.sequence,
    {
        self.sequence
    }

    /// Records that one more transaction of this account entered a block.
    pub fn advance_sequence(&mut self)
        requires
            old(self)@.sequence < u64::MAX,
        ensures
            final(self)@ == old(self)@.advanced(1),
    {
        self.sequence = self.sequence + 1;
    }
}

} // verus!
