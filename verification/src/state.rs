use vstd::prelude::*;

verus! {

/// The contract's singleton configuration: the identity allowed to run the
/// admin operations, the address of the external swap venue, and the tax
/// rate in hundredths of a percent (2500 means 25%).
///
/// The tax rate is validated only when it is updated, not when the contract
/// is instantiated, so a stored rate above 10000 is possible; the secondary
/// routing path clamps it defensively.
#[derive(Clone, Debug, PartialEq)]
pub struct Config {
    pub admin: String,
    pub swap_pool_address: String,
    pub tax_rate: u64,
}

/// Mathematical model of a configuration record.
pub ghost struct ConfigView {
    pub admin: Seq<char>,
    pub swap_pool_address: Seq<char>,
    pub tax_rate: u64,
}

impl View for Config {
    type V = ConfigView;

    open spec fn view(&self) -> ConfigView {
        ConfigView {
            admin: self.admin@,
            swap_pool_address: self.swap_pool_address@,
            tax_rate: self.tax_rate,
        }
    }
}

} // verus!
