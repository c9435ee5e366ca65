//! The error taxonomy of the execution layer. The control loop matches on
//! the kind: validation, risk and ledger conflicts are recovered locally,
//! exchange failures abandon the signal, configuration faults are fatal.

use vstd::prelude::*;
use vstd::string::StringExecFns;

verus! {

/// Why the risk engine turned a trade down, or that it did not.
#[derive(Clone, Copy, PartialEq, Eq, Structural, Debug)]
pub enum RiskReason {
    /// All checks passed.
    Passed,
    /// Raw confidence under the configured floor.
    ConfidenceBelowMinimum,
    /// The rolling 24 h window already holds the maximum number of trades.
    DailyLimitExceeded,
    /// Session PnL fell below the drawdown limit.
    DrawdownExceeded,
    /// The same asset was traded too recently.
    CooldownActive,
    /// The sized position would be worth more than the cap.
    PositionValueExceeded,
    /// The asset already used its daily quota.
    AssetDailyCapExceeded,
    /// Volatility-adjusted confidence under its floor.
    AdjustedConfidenceTooLow,
}

/// Which bracket leg failed after the entry had already filled.
#[derive(Clone, Copy, PartialEq, Eq, Structural, Debug)]
pub enum BracketLeg {
    StopLoss,
    TakeProfit1,
    TakeProfit2,
    TakeProfit3,
}

/// Every failure the execution layer distinguishes.
#[derive(Debug)]
pub enum ExecError {
    /// Missing or empty credentials, or an invalid mode.
    ConfigError,
    /// A signal of bad structure, or one too old.
    ValidationError,
    /// The risk engine said no.
    RiskRejection(RiskReason),
    /// Transport failure after all retries.
    ExchangeUnreachable,
    /// The exchange answered with a non-zero code.
    ExchangeRejected { code: String, body: String },
    /// A success response without an order id.
    MalformedExchangeResponse,
    /// The entry filled but a bracket leg could not be placed.
    PartialExecution { entry_id: String, failed_leg: BracketLeg },
    /// A position is already open for the asset.
    LedgerConflict,
    /// The fills or metrics file could not be written.
    IoError,
}

impl RiskReason {
    /// A human-readable reason, as the risk report carries it.
    pub fn message(&self, asset: &str) -> (r: String)
        ensures
            self is Passed ==> r@ == "Risk checks passed"@,
            self is ConfidenceBelowMinimum ==> r@ == "Confidence below minimum"@,
            self is DailyLimitExceeded ==> r@ == "Daily trade limit exceeded"@,
            self is DrawdownExceeded ==> r@ == "Session drawdown exceeds limit"@,
            self is CooldownActive ==> r@ == "Cooldown active for "@ + asset@,
            self is PositionValueExceeded ==> r@ == "Position value exceeds limit"@,
            self is AssetDailyCapExceeded ==> r@ == "Daily limit for asset exceeded"@,
            self is AdjustedConfidenceTooLow ==> r@
                == "Volatility-adjusted confidence too low"@,
    {
        match self {
            RiskReason::Passed => "Risk checks passed".to_owned(),
            RiskReason::ConfidenceBelowMinimum => "Confidence below minimum".to_owned(),
            RiskReason::DailyLimitExceeded => "Daily trade limit exceeded".to_owned(),
            RiskReason::DrawdownExceeded => "Session drawdown exceeds limit".to_owned(),
            RiskReason::CooldownActive => "Cooldown active for ".to_owned().concat(asset),
            RiskReason::PositionValueExceeded => "Position value exceeds limit".to_owned(),
            RiskReason::AssetDailyCapExceeded => "Daily limit for asset exceeded".to_owned(),
            RiskReason::AdjustedConfidenceTooLow => {
                "Volatility-adjusted confidence too low".to_owned()
            },
        }
    }
}

} // verus!
