//! Why a request on a trade is turned down.

use crate::serve::response::{not_found_text, ApiResponse};
use vstd::prelude::*;

verus! {

/// The record that a request named and that does not exist, with the id
/// under which it was looked for.
#[derive(Clone, Copy, Debug, PartialEq, Eq, Structural)]
pub enum Missing {
    Owner(i32),
    Possession(i32),
    Trade(u64),
}

/// The rule that a request breaks.
#[derive(Clone, Copy, Debug, PartialEq, Eq, Structural)]
pub enum Refusal {
    /// A trade needs two owners, and this one, with the id given, is unknown.
    UnknownTrader(i32),
    /// Both sides of a new trade are the same owner.
    SameTraderTwice,
    /// The acting owner is no side of the trade.
    TraderNotInTrade,
    /// The possession offered belongs to somebody else.
    OwnershipMismatch,
}

/// What the persistent store reported when a transaction failed.
#[derive(Clone, Debug, PartialEq, Eq)]
pub struct StoreError {
    pub message: String,
}

/// Every way in which a request on a trade can fail.
#[derive(Clone, Debug, PartialEq, Eq)]
pub enum TradeError {
    /// A record that the request names does not exist.
    NotFound(Missing),
    /// The request breaks a rule; nothing was changed.
    InvalidRequest(Refusal),
    /// The store did not commit the exchange; the trade is still open.
    ExecutionFailure(StoreError),
}

impl TradeError {
    /// The status code under which this failure is reported: 404 for a
    /// record that is not there, 400 for a request that breaks a rule, 500
    /// for an exchange that the store did not commit.
    pub open spec fn status(self) -> u16 {
        match self {
            TradeError::NotFound(_) => 404,
            TradeError::InvalidRequest(_) => 400,
            TradeError::ExecutionFailure(_) => 500,
        }
    }

    /// The status code under which this failure is reported.
    pub fn status_code(&self) -> (code: u16)
        ensures
            code == self.status(),
    {
        match self {
            TradeError::NotFound(_) => 404,
            TradeError::InvalidRequest(_) => 400,
            TradeError::ExecutionFailure(_) => 500,
        }
    }

    /// The message that tells a caller of this failure.
    pub open spec fn message_text(self) -> Seq<char> {
        match self {
            TradeError::NotFound(Missing::Owner(id)) => not_found_text("Owner"@, id as int),
            TradeError::NotFound(Missing::Possession(id)) => not_found_text(
                "Possession"@,
                id as int,
            ),
            TradeError::NotFound(Missing::Trade(id)) => not_found_text("Trade"@, id as int),
            TradeError::InvalidRequest(Refusal::UnknownTrader(id)) => not_found_text(
                "Trader"@,
                id as int,
            ),
            TradeError::InvalidRequest(Refusal::SameTraderTwice) => {
                "Cannot create trade with same trader on both sides"@
            },
            TradeError::InvalidRequest(Refusal::TraderNotInTrade) => {
                "Trader is not part of the trade"@
            },
            TradeError::InvalidRequest(Refusal::OwnershipMismatch) => {
                "Possession does not belong to the owner"@
            },
            TradeError::ExecutionFailure(failure) => "Error executing trade: "@ + failure.message@,
        }
    }

    /// The answer that tells a caller of this failure.
    pub fn response(&self) -> (response: ApiResponse)
        ensures
            response.message@ == self.message_text(),
    {
        match self {
            TradeError::NotFound(Missing::Owner(id)) => ApiResponse::not_found("Owner", *id),
            TradeError::NotFound(Missing::Possession(id)) => ApiResponse::not_found(
                "Possession",
                *id,
            ),
            TradeError::NotFound(Missing::Trade(id)) => ApiResponse::trade_not_found(*id),
            TradeError::InvalidRequest(Refusal::UnknownTrader(id)) => ApiResponse::not_found(
                "Trader",
                *id,
            ),
            TradeError::InvalidRequest(Refusal::SameTraderTwice) => ApiResponse::new(
                "Cannot create trade with same trader on both sides",
            ),
            TradeError::InvalidRequest(Refusal::TraderNotInTrade) => ApiResponse::new(
                "Trader is not part of the trade",
            ),
            TradeError::InvalidRequest(Refusal::OwnershipMismatch) => ApiResponse::new(
                "Possession does not belong to the owner",
            ),
            TradeError::ExecutionFailure(failure) => {
                let mut message = String::from_str("Error executing trade: ");
                message.append(failure.message.as_str());
                ApiResponse { message }
            },
        }
    }
}

} // verus!
