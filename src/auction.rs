use vstd::prelude::*;

verus! {

/// A bid as the auction index reports it.
#[derive(Clone, Debug)]
pub struct GraphResultBid {
    pub token_id: u64,
    pub price: String,
    pub bidder: String,
    pub block_timestamp: u64,
}

/// A bid as this service reports it.
#[derive(Clone, Debug)]
pub struct Bid {
    pub token_id: u64,
    pub price: String,
    pub bidder: String,
    pub block_timestamp: u64,
}

/// Carries a bid of the index over into the service's own shape, field by field.
pub fn convert_camel_to_snake_bid(camel_case_data: GraphResultBid) -> (r: Bid)
    ensures
        r.token_id == camel_case_data.token_id,
        r.price == camel_case_data.price,
        r.bidder == camel_case_data.bidder,
        r.block_timestamp == camel_case_data.block_timestamp,
{
    Bid {
        token_id: camel_case_data.token_id,
        price: camel_case_data.price,
        bidder: camel_case_data.bidder,
        block_timestamp: camel_case_data.block_timestamp,
    }
}

/// An auction exists when its owner is not the zero address.
pub fn auction_exists(owner: &[u8; 20]) -> (r: bool)
    ensures
        r == exists|i: int| 0 <= i < 20 && owner@[i] != 0,
{
    let mut i: usize = 0;
    while i < 20
        invariant
            i <= 20,
            forall|k: int| 0 <= k < i ==> owner@[k] == 0,
        decreases 20 - i,
    {
        if owner[i] != 0 {
            return true;
        }
        i = i + 1;
    }
    false
}

} // verus!
