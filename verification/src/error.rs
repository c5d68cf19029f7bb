use vstd::prelude::*;

verus! {

/// Every failure the contract logic can surface. Each error aborts the
/// whole invocation; the host rolls back any staged state mutation.
#[derive(Clone, Debug, PartialEq)]
pub enum ContractError {
    /// Passthrough for an underlying host or storage failure.
    Std { message: String },
    /// An admin operation was invoked by a caller other than the admin.
    Unauthorized {},
    /// The primary-asset route was taken but no primary asset arrived.
    NoLunaReceived {},
    /// The secondary-asset route was taken but no secondary asset arrived.
    NoUstcReceived {},
    /// A reply carried a correlation tag the contract never issues.
    UnknownReplyId { id: u64 },
    /// An updated tax rate was outside 0..=10000.
    InvalidTaxRate {},
    /// The command payload was unparseable and no funds were attached.
    InvalidMessage {},
}

} // verus!
