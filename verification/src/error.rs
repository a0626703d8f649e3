use vstd::prelude::*;

verus! {

/// Adapter-side failures. Each maps to the custom program-error code
/// given by [`AdapterError::code`]; the codes start at 100 so they stay
/// disjoint from [`YdeltaError`].
#[derive(Debug, Clone, Copy, PartialEq, Eq, Structural)]
pub enum AdapterError {
    /// Post-CPI atom delta deviated from the predicted value by more than 1 atom.
    UnexpectedAtomDelta,
    /// Account is not owned by the expected program or fails the layout check.
    InvalidIntegrationAccount,
    /// Oracle publish time is outside the freshness window.
    OracleStale,
    /// Oracle setup is recognized but not supported.
    OracleSetupUnsupported,
    /// Inflated confidence interval exceeds the bank's maximum.
    OracleMaxConfidenceExceeded,
    /// Oracle account key or owner does not match the bank configuration.
    OracleAccountMismatch,
    /// Oracle price or a derived value was zero or negative.
    OracleNonPositive,
}

impl AdapterError {
    /// Custom program-error code of the variant.
    pub open spec fn spec_code(self) -> u32 {
        match self {
            AdapterError::UnexpectedAtomDelta => 100,
            AdapterError::InvalidIntegrationAccount => 101,
            AdapterError::OracleStale => 102,
            AdapterError::OracleSetupUnsupported => 103,
            AdapterError::OracleMaxConfidenceExceeded => 104,
            AdapterError::OracleAccountMismatch => 105,
            AdapterError::OracleNonPositive => 106,
        }
    }

    /// Custom program-error code of the variant (100 through 106).
    pub fn code(&self) -> (c: u32)
        ensures
            c == self.spec_code(),
    {
        match self {
            AdapterError::UnexpectedAtomDelta => 100,
            AdapterError::InvalidIntegrationAccount => 101,
            AdapterError::OracleStale => 102,
            AdapterError::OracleSetupUnsupported => 103,
            AdapterError::OracleMaxConfidenceExceeded => 104,
            AdapterError::OracleAccountMismatch => 105,
            AdapterError::OracleNonPositive => 106,
        }
    }
}

/// Program-level failures raised by the protocol rules.
#[derive(Debug, Clone, Copy, PartialEq, Eq, Structural)]
pub enum YdeltaError {
    /// An argument or a piece of state violates a rule of the instruction.
    InvalidArgument,
    /// A fee-configuration value is out of bounds.
    InvalidFeeConfig,
    /// An intermediate value does not fit its type.
    MathOverflow,
    /// A sub-vault LTV parameter is out of range.
    SubVaultLtvOutOfRange,
    /// A sub-vault term parameter is invalid.
    SubVaultTermInvalid,
    /// A sub-vault is winding down and refuses the operation.
    SubVaultSunset,
    /// The sub-vault cannot pay out the requested atoms from idle liquidity.
    VaultInsufficientIdleAtoms,
    /// An account does not match what the instruction expects.
    IncorrectAccount,
    /// A risk-profile LTV parameter is out of range.
    VaultProfileLtvOutOfRange,
    /// A risk-profile term parameter is invalid.
    VaultProfileTermInvalid,
    /// The liquidator's or keeper's token balance cannot cover the payment.
    LiquidatorPaymentInsufficient,
    /// The signer is not the market admin.
    MarketAdminRequired,
    /// The signer is not the global-vault admin.
    VaultAdminRequired,
    /// The signer is not the protocol admin.
    ProtocolAdminRequired,
    /// The signer is not the curator of the risk profile or sub-vault.
    VaultCuratorRequired,
    /// The signer is not the pending holder of the role, or none is pending.
    PendingAdminMismatch,
    /// The risk profile already holds seats in its maximum number of markets.
    VaultProfileAllowedMarketsExceeded,
    /// A market seat still carries loans, orders or unswept shares.
    SeatHasOpenObligations,
    /// The request exceeds what the seat may withdraw.
    InsufficientWithdrawableBalance,
    /// The withdrawal request is malformed.
    InvalidWithdrawAccounts,
    /// The deposit request is malformed.
    InvalidDepositAccounts,
    /// The loan has not reached maturity.
    LoanNotMatured,
    /// The signer does not own the order or seat.
    OrderNotOwnedBySigner,
    /// An order's term exceeds the risk profile's maximum term.
    VaultOrderTermExceedsProfileMax,
    /// The risk profile is winding down and refuses the operation.
    VaultProfileSunset,
    /// The risk profile still carries balances.
    VaultProfileNotEmpty,
    /// The sub-vault must be winding down first.
    SubVaultNotSunset,
    /// A Token-2022 mint carries an extension the program does not support.
    Token2022UnsupportedExtension,
    /// The loan's remaining term does not allow the operation.
    TermNotCompatible,
    /// The collateral does not cover the debt at the origination LTV.
    CollateralBelowMatchLTV,
    /// The vault has handed out every sub-vault id.
    SubVaultIdExists,
    /// The loan's LTV is within its liquidation threshold.
    LoanStillSolvent,
}

/// Every failure the library reports.
#[derive(Debug, Clone, Copy, PartialEq, Eq, Structural)]
pub enum Error {
    /// A lending-protocol or oracle adapter refused the input.
    Adapter(AdapterError),
    /// A protocol rule refused the input.
    Ydelta(YdeltaError),
    /// An arithmetic result does not fit its type, or a divisor is zero.
    ArithmeticOverflow,
    /// An outside program refused, with this Solana error code (the
    /// `u64` form of its `ProgramError`).
    Program(u64),
}

} // verus!
