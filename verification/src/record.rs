//! Plain records: what comes in, and what an account remembers.
//!
//! Money is counted in whole ten-thousandths of a currency unit, so four
//! fractional digits are exact and no rounding ever happens inside the ledger.

use vstd::prelude::*;
use crate::kind::Type;

verus! {

/// One decoded input row.
#[derive(Clone, Copy, Debug, PartialEq, Eq, Structural)]
pub struct ClientTransaction {
    /// Client the row is addressed to.
    pub id: u16,
    /// What the row asks for.
    pub transaction_type: Type,
    /// Identifier of the transaction, or of the one referred to.
    pub tx: u32,
    /// Amount in ten-thousandths; only deposits and withdrawals use it.
    pub amount: Option<i64>,
}

/// What an account keeps of an accepted deposit or withdrawal.
#[derive(Clone, Copy, Debug, PartialEq, Eq, Structural)]
pub struct Transaction {
    /// Amount that was applied, in ten-thousandths.
    pub amount: i64,
    /// Set by a dispute; nothing clears it again.
    pub is_under_dispute: bool,
}

impl ClientTransaction {
    /// A row carries a negative amount.
    pub open spec fn has_negative_amount(self) -> bool {
        self.amount matches Some(a) && a < 0
    }

    /// Exec counterpart of [`ClientTransaction::has_negative_amount`].
    pub fn is_negative(&self) -> (r: bool)
        ensures
            r == self.has_negative_amount(),
    {
        match self.amount {
            Some(a) => a < 0,
            None => false,
        }
    }
}

} // verus!
