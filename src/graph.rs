use vstd::prelude::*;
use vstd::string::StringExecFns;

use crate::text::{is_u64_numeral, numeral_value, parse_u64};

verus! {

/// Text of the owner-tokens query before the owner address.
pub const OWNER_TOKENS_HEAD: &'static str = "{\n            tokenBalances(where: {owner: \"";

/// Text of the owner-tokens query after the owner address.
pub const OWNER_TOKENS_TAIL: &'static str = "\"}) {\n              token {\n                id\n                metadataUri\n              }\n            }\n          }";

/// Text of the token-owner query before the token id.
pub const TOKEN_OWNER_HEAD: &'static str = "{\n          tokenBalances(where: {token_: {id: ";

/// Text of the token-owner query after the token id.
pub const TOKEN_OWNER_TAIL: &'static str = "}}) {\n            owner\n          }\n        }";

/// Text of the bid-history query before the token id.
pub const AUCTION_BIDS_HEAD: &'static str = "{\n        bids(\n          orderBy: blockTimestamp\n          orderDirection: desc\n          where: {tokenId: \"";

/// Text of the bid-history query between the token id and the start time.
pub const AUCTION_BIDS_AFTER_TOKEN: &'static str = "\", blockTimestamp_gte: \"";

/// Text of the bid-history query between the start time and the end time.
pub const AUCTION_BIDS_AFTER_START: &'static str = "\",  blockTimestamp_lte: \"";

/// Text of the bid-history query after the end time.
pub const AUCTION_BIDS_TAIL: &'static str = "\" }\n        ) {\n          tokenId\n          price\n          bidder\n          blockTimestamp\n        }\n      }";

/// The owner reported when the index names none.
pub const DEFAULT_OWNER: &'static str = "default";

/// The GraphQL query for the token balances held by `owner`.
pub open spec fn owner_tokens_query(owner: Seq<char>) -> Seq<char> {
    OWNER_TOKENS_HEAD@ + owner + OWNER_TOKENS_TAIL@
}

/// The GraphQL query for the owner of token `token_id`.
pub open spec fn token_owner_query(token_id: Seq<char>) -> Seq<char> {
    TOKEN_OWNER_HEAD@ + token_id + TOKEN_OWNER_TAIL@
}

/// The GraphQL query for the bids on `token_id` between two block times, newest first.
pub open spec fn auction_bid_query(token_id: Seq<char>, start: Seq<char>, end: Seq<char>) -> Seq<
    char,
> {
    AUCTION_BIDS_HEAD@ + token_id + AUCTION_BIDS_AFTER_TOKEN@ + start + AUCTION_BIDS_AFTER_START@
        + end + AUCTION_BIDS_TAIL@
}

/// Builds the GraphQL query for the token balances held by `owner_address`.
pub fn graphql_owner_tokens_query(owner_address: &str) -> (r: String)
    ensures
        r@ == owner_tokens_query(owner_address@),
{
    let mut q = String::from_str(OWNER_TOKENS_HEAD);
    q.append(owner_address);
    q.append(OWNER_TOKENS_TAIL);
    q
}

/// Builds the GraphQL query for the owner of token `token_id`.
pub fn graphql_token_owner_query(token_id: &str) -> (r: String)
    ensures
        r@ == token_owner_query(token_id@),
{
    let mut q = String::from_str(TOKEN_OWNER_HEAD);
    q.append(token_id);
    q.append(TOKEN_OWNER_TAIL);
    q
}

/// Builds the GraphQL query for the bids on `token_id` placed between
/// `start_time` and `end_time`.
pub fn graphql_auction_bid_query(token_id: &str, start_time: &str, end_time: &str) -> (r: String)
    ensures
        r@ == auction_bid_query(token_id@, start_time@, end_time@),
{
    let mut q = String::from_str(AUCTION_BIDS_HEAD);
    q.append(token_id);
    q.append(AUCTION_BIDS_AFTER_TOKEN);
    q.append(start_time);
    q.append(AUCTION_BIDS_AFTER_START);
    q.append(end_time);
    q.append(AUCTION_BIDS_TAIL);
    q
}

/// The owner named by the first token balance of an answer, or `DEFAULT_OWNER`.
pub fn owner_or_default(owner: Option<&str>) -> (r: String)
    ensures
        match owner {
            Some(o) => r@ == o@,
            None => r@ == DEFAULT_OWNER@,
        },
{
    match owner {
        Some(o) => o.to_owned(),
        None => DEFAULT_OWNER.to_owned(),
    }
}

/// The numbers among `ids`, in order; ids that are no decimal `u64` are skipped.
pub open spec fn parsed_token_ids(ids: Seq<Seq<char>>) -> Seq<u64>
    decreases ids.len(),
{
    if ids.len() == 0 {
        seq![]
    } else if is_u64_numeral(ids.last()) {
        parsed_token_ids(ids.drop_last()).push(numeral_value(ids.last()) as u64)
    } else {
        parsed_token_ids(ids.drop_last())
    }
}

/// The views of a list of strings.
pub open spec fn views_of(ids: Seq<String>) -> Seq<Seq<char>> {
    ids.map_values(|s: String| s@)
}

/// Reads the token ids that an index returned as text.
pub fn token_ids(ids: &Vec<String>) -> (r: Vec<u64>)
    ensures
        r@ == parsed_token_ids(views_of(ids@)),
{
    let mut out: Vec<u64> = Vec::new();
    let mut i: usize = 0;
    while i < ids.len()
        invariant
            i <= ids@.len(),
            out@ == parsed_token_ids(views_of(ids@).take(i as int)),
        decreases ids@.len() - i,
    {
        let ghost before = views_of(ids@).take(i as int);
        let ghost after = views_of(ids@).take(i + 1);
        assert(after.drop_last() =~= before);
        assert(after.last() == ids@[i as int]@);
        match parse_u64(ids[i].as_str()) {
            Some(v) => out.push(v),
            None => {},
        }
        i = i + 1;
    }
    assert(views_of(ids@).take(i as int) =~= views_of(ids@));
    out
}

} // verus!
