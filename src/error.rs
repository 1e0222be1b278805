use vstd::prelude::*;

verus! {

/// Every failure an operation on a tip jar can report.
#[derive(Debug, Clone, Copy, PartialEq, Eq, Structural)]
pub enum TipJarError {
    /// The jar does not take tips at the moment.
    InactiveTipJar,
    /// A tip amount must be greater than zero.
    InvalidAmount,
    /// The visibility option is not one the jar knows.
    InvalidVisibility,
    /// The jar does not hold enough to pay this out.
    InsufficientFunds,
    /// Only the owner may perform this action.
    Unauthorized,
    /// A running total would leave its range.
    UnexpectedTransactionFailure,
    /// A single withdrawal may not exceed the per-call ceiling.
    WithdrawalLimitExceeded,
    /// A memo may hold at most one hundred bytes.
    MemoTooLong,
    /// The jar is already in the requested state.
    RedundantStatusChange,
    /// A goal must be greater than zero.
    InvalidGoal,
    /// A description may hold at most two hundred bytes.
    DescriptionTooLong,
    /// A category may hold at most one hundred bytes.
    CategoryTooLong,
    /// The tip history has no room left.
    TipHistoryFull,
    /// The jar still holds a balance.
    NonEmptyJarClosure,
    /// The operation is not allowed while tips are coming in.
    OperationDuringActiveTips,
}

} // verus!
