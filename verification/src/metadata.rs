use vstd::prelude::*;

verus! {

/// The number of decimal places the token's human-readable representation
/// uses. Fixed by convention; the ledger itself only ever works in whole
/// base units.
pub const DECIMALS: u8 = 18;

/// Human-readable token metadata. The ledger's accounting never reads it.
#[derive(Debug)]
pub struct Erc20Metadata {
    pub token_name: String,
    pub token_symbol: String,
}

impl Erc20Metadata {
    pub fn constructor(name: String, symbol: String) -> (r: Erc20Metadata)
        ensures
            r.token_name == name,
            r.token_symbol == symbol,
    {
        Erc20Metadata { token_name: name, token_symbol: symbol }
    }

    pub fn name(&self) -> (r: String)
        ensures
            r == self.token_name,
    {
        self.token_name.clone()
    }

    pub fn symbol(&self) -> (r: String)
        ensures
            r == self.token_symbol,
    {
        self.token_symbol.clone()
    }

    pub fn decimals(&self) -> (r: u8)
        ensures
            r == DECIMALS,
    {
        DECIMALS
    }
}

} // verus!
