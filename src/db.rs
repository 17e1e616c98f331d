use vstd::prelude::*;

use crate::text::{decimal, u64_to_decimal};

verus! {

/// The database that holds the service's collections.
pub const DATABASE_NAME: &'static str = "snapit";

/// The collection of minted tokens.
pub const COLLECTION_NAME: &'static str = "snapit-nft-testnet";

/// The collection of settings documents.
pub const SETTINGS_COLLECTION_NAME: &'static str = "settings";

/// The collection-level metadata shown for the contract.
#[derive(Clone, Debug)]
pub struct ContractMetadata {
    pub name: String,
    pub description: String,
    pub image: String,
    pub external_link: String,
    pub collaborators: Vec<String>,
}

/// The settings document that holds the contract metadata.
#[derive(Clone, Debug)]
pub struct SettingsContractMetadata {
    pub metadata: ContractMetadata,
}

/// The key under which a token is stored: its id in decimal.
pub fn token_key(token_id: u64) -> (r: String)
    ensures
        r@ == decimal(token_id as nat),
{
    u64_to_decimal(token_id)
}

/// The keys of several tokens, in order.
pub fn token_keys(token_ids: &Vec<u64>) -> (r: Vec<String>)
    ensures
        r@.len() == token_ids@.len(),
        forall|i: int| 0 <= i < r@.len() ==> #[trigger] r@[i]@ == decimal(token_ids@[i] as nat),
{
    let mut out: Vec<String> = Vec::new();
    let mut i: usize = 0;
    while i < token_ids.len()
        invariant
            i <= token_ids@.len(),
            out@.len() == i,
            forall|k: int| 0 <= k < i ==> #[trigger] out@[k]@ == decimal(token_ids@[k] as nat),
        decreases token_ids@.len() - i,
    {
        out.push(token_key(token_ids[i]));
        i = i + 1;
    }
    out
}

} // verus!
