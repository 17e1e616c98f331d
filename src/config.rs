use vstd::prelude::*;

verus! {

/// The service's settings, read once at start and shared by reference.
#[derive(Clone, Debug)]
pub struct Constants {
    pub nft_address: String,
    pub auction_address: String,
    pub private_key: String,
    pub chain_url: String,
    pub chain_id: u64,
    pub graph_url_nft: String,
    pub graph_url_auction: String,
    pub etherscan_api_key: String,
    pub mongo_atlas_username: String,
    pub mongo_atlas_password: String,
    pub alchemy_api_key: String,
    pub jwt_secret: String,
}

} // verus!
