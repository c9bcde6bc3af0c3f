use crate::address::Address;
use vstd::prelude::*;
use vstd::utf8::encode_utf8;

verus! {

/// Longest token name, in encoded bytes.
pub const MAX_NAME_LEN: usize = 50;

/// Longest token symbol, in encoded bytes.
pub const MAX_SYMBOL_LEN: usize = 10;

/// Length of the record-kind tag that precedes a stored record.
pub const RECORD_TAG_LEN: usize = 8;

#[derive(Clone, Copy, Debug, PartialEq, Eq, Structural)]
pub enum ErrorCode {
    /// The caller is not the identity the action requires.
    Unauthorized,
    /// Trading was enabled before.
    TradingAlreadyEnabled,
    /// The supply is zero.
    InvalidSupply,
    /// A record already lives at the address derived from the creator and name.
    DuplicateIssuance,
    /// Derivation found no address off the curve.
    AddressDerivationExhausted,
    /// The ledger refused to create or mint.
    ExternalLedgerRejected,
    /// The name or the symbol is longer than its stored bound.
    FieldTooLong,
    /// No record lives at the given address.
    AccountNotInitialized,
    /// The revenue counter would exceed `u64::MAX`.
    RevenueOverflow,
}

/// The metadata record of one issued token.
#[derive(Debug)]
pub struct TokenData {
    pub creator: Address,
    pub name: String,
    pub symbol: String,
    pub supply: u64,
    pub decimals: u8,
    pub created_at: i64,
    pub trading_enabled: bool,
    pub total_revenue_distributed: u64,
}

/// UTF-8 bytes of a string.
pub open spec fn bytes_of(s: String) -> Seq<u8> {
    encode_utf8(s@)
}

impl TokenData {
    /// Stored size of the fields, without the record-kind tag.
    pub const SIZE: usize = 32 + 4 + 50 + 4 + 10 + 8 + 1 + 8 + 1 + 8;

    /// The name and symbol fit their stored bounds.
    pub open spec fn well_formed(&self) -> bool {
        bytes_of(self.name).len() <= MAX_NAME_LEN && bytes_of(self.symbol).len() <= MAX_SYMBOL_LEN
    }

    pub open spec fn enable_result(&self, caller: Seq<u8>) -> Result<(), ErrorCode> {
        if caller != self.creator@ {
            Err(ErrorCode::Unauthorized)
        } else if self.trading_enabled {
            Err(ErrorCode::TradingAlreadyEnabled)
        } else {
            Ok(())
        }
    }

    /// The record after `enable_result(caller)`: only the flag moves, and only on success.
    pub open spec fn after_enable(self, caller: Seq<u8>) -> TokenData {
        if self.enable_result(caller) is Ok {
            TokenData { trading_enabled: true, ..self }
        } else {
            self
        }
    }

    pub open spec fn revenue_result(&self, authority: Seq<u8>, amount: u64) -> Result<(), ErrorCode> {
        if authority != self.creator@ {
            Err(ErrorCode::Unauthorized)
        } else if self.total_revenue_distributed + amount > u64::MAX {
            Err(ErrorCode::RevenueOverflow)
        } else {
            Ok(())
        }
    }

    /// The record after `revenue_result(authority, amount)`: only the counter
    /// moves, by exactly `amount`, and only on success.
    pub open spec fn after_revenue(self, authority: Seq<u8>, amount: u64) -> TokenData {
        if self.revenue_result(authority, amount) is Ok {
            TokenData {
                total_revenue_distributed: (self.total_revenue_distributed + amount) as u64,
                ..self
            }
        } else {
            self
        }
    }

    /// Moves the record from created to trading enabled, for its creator only.
    pub fn enable_trading(&mut self, caller: &Address) -> (r: Result<(), ErrorCode>)
        ensures
            r == old(self).enable_result(caller@),
            *final(self) == old(self).after_enable(caller@),
    {
        if !(self.creator == *caller) {
            return Err(ErrorCode::Unauthorized);
        }
        if self.trading_enabled {
            return Err(ErrorCode::TradingAlreadyEnabled);
        }
        self.trading_enabled = true;
        Ok(())
    }

    /// Adds `amount` to the running total of distributed revenue, for the
    /// creator only.
    pub fn record_revenue(&mut self, authority: &Address, amount: u64) -> (r: Result<(), ErrorCode>)
        ensures
            r == old(self).revenue_result(authority@, amount),
            *final(self) == old(self).after_revenue(authority@, amount),
    {
        if !(self.creator == *authority) {
            return Err(ErrorCode::Unauthorized);
        }
        if amount > u64::MAX - self.total_revenue_distributed {
            return Err(ErrorCode::RevenueOverflow);
        }
        self.total_revenue_distributed = self.total_revenue_distributed + amount;
        Ok(())
    }
}

} // verus!
