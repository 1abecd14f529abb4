//! The closed set of transaction kinds and their canonical names.

use vstd::prelude::*;
use vstd::string::StringExecFns;

verus! {

/// What a transaction asks the ledger to do.
#[derive(Clone, Copy, Debug, PartialEq, Eq, Structural)]
pub enum Type {
    Deposit,
    Withdrawal,
    Dispute,
    Resolve,
    ChargeBack,
}

/// Why a text could not be read.
#[derive(Debug)]
pub enum Error {
    /// The text names no transaction kind; it is carried along.
    InvalidTransactionType(String),
}

impl Error {
    /// The text of the error message, before the rejected token.
    pub open spec fn prefix() -> Seq<char> {
        "Invalid transation type "@
    }

    /// The message for a reader: a fixed introduction, then the rejected token.
    pub fn message(&self) -> (text: String)
        ensures
            self matches Error::InvalidTransactionType(token) && text@ == Error::prefix() + token@,
    {
        match self {
            Error::InvalidTransactionType(token) => "Invalid transation type ".to_owned().concat(
                token.as_str(),
            ),
        }
    }
}

impl Type {
    /// True for the two kinds that move money and carry an amount.
    pub open spec fn is_monetary(self) -> bool {
        self == Type::Deposit || self == Type::Withdrawal
    }

    /// The canonical, case-sensitive name of a kind.
    pub open spec fn name(self) -> Seq<char> {
        match self {
            Type::Deposit => "deposit"@,
            Type::Withdrawal => "withdrawal"@,
            Type::Dispute => "dispute"@,
            Type::Resolve => "resolve"@,
            Type::ChargeBack => "chargeback"@,
        }
    }

    /// The kind that `text` names, if it names one.
    pub open spec fn parse(text: Seq<char>) -> Option<Type> {
        if text == Type::Deposit.name() {
            Some(Type::Deposit)
        } else if text == Type::Withdrawal.name() {
            Some(Type::Withdrawal)
        } else if text == Type::Dispute.name() {
            Some(Type::Dispute)
        } else if text == Type::Resolve.name() {
            Some(Type::Resolve)
        } else if text == Type::ChargeBack.name() {
            Some(Type::ChargeBack)
        } else {
            None
        }
    }

    /// The canonical name as an owned string.
    pub fn as_string(self) -> (text: String)
        ensures
            text@ == self.name(),
    {
        match self {
            Type::Deposit => "deposit".to_owned(),
            Type::Withdrawal => "withdrawal".to_owned(),
            Type::Dispute => "dispute".to_owned(),
            Type::Resolve => "resolve".to_owned(),
            Type::ChargeBack => "chargeback".to_owned(),
        }
    }

    /// Reads a kind from its canonical name. Any other text is rejected and
    /// handed back in the error.
    pub fn from_str(s: &str) -> (r: Result<Type, Error>)
        ensures
            match r {
                Ok(kind) => Type::parse(s@) == Some(kind),
                Err(Error::InvalidTransactionType(token)) => Type::parse(s@) is None && token@
                    == s@,
            },
    {
        let text = s.to_owned();
        if text == "deposit".to_owned() {
            Ok(Type::Deposit)
        } else if text == "withdrawal".to_owned() {
            Ok(Type::Withdrawal)
        } else if text == "dispute".to_owned() {
            Ok(Type::Dispute)
        } else if text == "resolve".to_owned() {
            Ok(Type::Resolve)
        } else if text == "chargeback".to_owned() {
            Ok(Type::ChargeBack)
        } else {
            Err(Error::InvalidTransactionType(text))
        }
    }
}

/// Reading the canonical name of a kind gives that kind back: the five names
/// are pairwise different.
pub proof fn lemma_name_round_trip(kind: Type)
    ensures
        Type::parse(kind.name()) == Some(kind),
{
    reveal_strlit("deposit");
    reveal_strlit("withdrawal");
    reveal_strlit("dispute");
    reveal_strlit("resolve");
    reveal_strlit("chargeback");
    assert("deposit"@[1] != "dispute"@[1]);
    assert("deposit"@[0] != "resolve"@[0]);
    assert("dispute"@[0] != "resolve"@[0]);
    assert("withdrawal"@[0] != "chargeback"@[0]);
    assert("deposit"@.len() != "withdrawal"@.len());
    assert("deposit"@.len() != "chargeback"@.len());
}

} // verus!
