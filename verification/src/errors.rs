use vstd::prelude::*;

verus! {

/// Every way an engine operation can reject its input. Each operation's
/// contract says exactly which inputs produce which variant; a rejected
/// call leaves all records untouched.
#[derive(Clone, Copy, Debug, PartialEq, Eq, Structural)]
pub enum ErrorCode {
    InvalidBasename,
    InvalidDisplayName,
    InvalidAgentName,
    ContractPaused,
    AmountTooSmall,
    MessageTooLong,
    FeeTooHigh,
}

} // verus!
