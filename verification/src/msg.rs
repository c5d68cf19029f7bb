use vstd::prelude::*;

verus! {

/// Input to contract initialization. The tax rate is deliberately not
/// bound-checked here: only the update path validates it.
pub struct InstantiateMsg {
    pub swap_pool_address: String,
    pub tax_rate: u64,
}

/// The structured command payload of an invocation. Attached funds take
/// priority over the parsed command: a command is only consulted when no
/// recognized asset arrived with the call.
pub enum ExecuteMsg {
    /// Explicit no-op trigger; meaningful only together with attached funds.
    Receive {},
    /// Admin operation: overwrite the swap venue address.
    UpdateSwapPoolAddress { address: String },
    /// Admin operation: set a new tax rate, bounded by 10000.
    UpdateTaxRate { tax_rate: u64 },
}

/// The read-only query surface.
pub enum QueryMsg {
    /// Return the full configuration record; queries have no access control.
    Config {},
}

} // verus!
