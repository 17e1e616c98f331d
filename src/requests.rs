use vstd::prelude::*;
use vstd::string::StringExecFns;

use crate::text::{
    decimal, is_u64_numeral, numeral_value, parse_u64, str_eq, trim_end_all, trim_end_matches,
    u64_to_decimal,
};

verus! {

/// Query parameters of a token lookup: whether to add the id and the owner.
#[derive(Clone, Debug)]
pub struct GetNftQueryParams {
    pub with_id: Option<String>,
    pub with_owner: Option<String>,
}

/// Query parameters of a lookup of the tokens held by an address.
#[derive(Clone, Debug)]
pub struct GetOwnerTokensQueryParams {
    pub owner_address: String,
}

/// Query parameters of a lookup of marketplace sales.
#[derive(Clone, Debug)]
pub struct GetNFTMarketSalesQueryParams {
    pub token_id: Option<u64>,
    pub page_key: Option<String>,
    pub limit: Option<u32>,
}

/// Query parameters of the marketplace-sales endpoint of the NFT indexer.
#[derive(Clone, Debug)]
pub struct AlchemyNftSalesEndpointQueryParams {
    pub from_block: Option<String>,
    pub order: Option<String>,
    pub marketplace: String,
    pub contract_address: Option<String>,
    pub token_id: Option<String>,
    pub buyer_address: Option<String>,
    pub seller_address: Option<String>,
    pub limit: Option<u32>,
    pub page_key: Option<String>,
}

/// What a token path asks for.
#[derive(Clone, Debug)]
pub enum TokenRequest {
    /// The collection's own metadata.
    ContractMetadata,
    /// One token, by number, with the text that named it.
    Token { id: u64, key: String },
    /// Nothing this service serves.
    NotFound,
}

/// The suffix that token paths may carry.
pub const JSON_SUFFIX: &'static str = ".json";

/// The path that names the collection's metadata.
pub const CONTRACT_METADATA_ID: &'static str = "contract-metadata";

/// The block in which the token contract was deployed; sales start there.
pub const CONTRACT_DEPLOY_BLOCK: &'static str = "5484602";

/// The number of sales returned when the caller sets no limit.
pub const DEFAULT_SALES_LIMIT: u32 = 10;

/// The order in which sales are listed.
pub const SALES_ORDER: &'static str = "desc";

/// The marketplace whose sales are listed.
pub const SALES_MARKETPLACE: &'static str = "seaport";

/// The start of the sales endpoint's address, before the API key.
pub const ALCHEMY_SALES_URL_HEAD: &'static str = "https://eth-mainnet.g.alchemy.com/nft/v3/";

/// The end of the sales endpoint's address, after the API key.
pub const ALCHEMY_SALES_URL_TAIL: &'static str = "/getNFTSales";

/// A query flag is set when its value is exactly "true".
pub fn query_flag(value: &Option<String>) -> (r: bool)
    ensures
        r == (value matches Some(v) && v@ == "true"@),
{
    match value {
        Some(v) => str_eq(v.as_str(), "true"),
        None => false,
    }
}

/// The mathematical value of a `TokenRequest`.
pub enum TokenRequestModel {
    ContractMetadata,
    Token(u64, Seq<char>),
    NotFound,
}

impl View for TokenRequest {
    type V = TokenRequestModel;

    open spec fn view(&self) -> TokenRequestModel {
        match self {
            TokenRequest::ContractMetadata => TokenRequestModel::ContractMetadata,
            TokenRequest::Token { id, key } => TokenRequestModel::Token(*id, key@),
            TokenRequest::NotFound => TokenRequestModel::NotFound,
        }
    }
}

/// The meaning of a token path such as "12.json": every trailing ".json" is
/// dropped; "contract-metadata" names the collection's metadata; a decimal
/// `u64` names a token; anything else is not found.
pub open spec fn token_request_of(path: Seq<char>) -> TokenRequestModel {
    let stem = trim_end_all(path, JSON_SUFFIX@);
    if stem == CONTRACT_METADATA_ID@ {
        TokenRequestModel::ContractMetadata
    } else if is_u64_numeral(stem) {
        TokenRequestModel::Token(numeral_value(stem) as u64, stem)
    } else {
        TokenRequestModel::NotFound
    }
}

/// Reads a token path.
pub fn token_request(id_json: &str) -> (r: TokenRequest)
    ensures
        r@ == token_request_of(id_json@),
{
    let stem = trim_end_matches(id_json, JSON_SUFFIX);
    if str_eq(stem.as_str(), CONTRACT_METADATA_ID) {
        return TokenRequest::ContractMetadata;
    }
    match parse_u64(stem.as_str()) {
        Some(id) => TokenRequest::Token { id, key: stem },
        None => TokenRequest::NotFound,
    }
}

/// The sales query for a caller's parameters: sales on `SALES_MARKETPLACE`
/// since `CONTRACT_DEPLOY_BLOCK`, newest first, for the token given (in
/// decimal) or for all, at most `limit` or `DEFAULT_SALES_LIMIT` of them,
/// from the page given.
pub fn nft_sales_query(params: GetNFTMarketSalesQueryParams) -> (r:
    AlchemyNftSalesEndpointQueryParams)
    ensures
        r.from_block matches Some(b) && b@ == CONTRACT_DEPLOY_BLOCK@,
        r.order matches Some(o) && o@ == SALES_ORDER@,
        r.marketplace@ == SALES_MARKETPLACE@,
        r.contract_address is None,
        r.buyer_address is None,
        r.seller_address is None,
        match params.token_id {
            Some(id) => r.token_id matches Some(t) && t@ == decimal(id as nat),
            None => r.token_id is None,
        },
        r.limit == Some(
            match params.limit {
                Some(l) => l,
                None => DEFAULT_SALES_LIMIT,
            },
        ),
        r.page_key == params.page_key,
{
    let limit = match params.limit {
        Some(l) => l,
        None => DEFAULT_SALES_LIMIT,
    };
    let token_id = match params.token_id {
        Some(id) => Some(u64_to_decimal(id)),
        None => None,
    };
    AlchemyNftSalesEndpointQueryParams {
        from_block: Some(CONTRACT_DEPLOY_BLOCK.to_owned()),
        order: Some(SALES_ORDER.to_owned()),
        marketplace: SALES_MARKETPLACE.to_owned(),
        contract_address: None,
        token_id,
        buyer_address: None,
        seller_address: None,
        limit: Some(limit),
        page_key: params.page_key,
    }
}

/// The address of the sales endpoint for an API key.
pub fn alchemy_sales_url(api_key: &str) -> (r: String)
    ensures
        r@ == ALCHEMY_SALES_URL_HEAD@ + api_key@ + ALCHEMY_SALES_URL_TAIL@,
{
    let mut url = String::from_str(ALCHEMY_SALES_URL_HEAD);
    url.append(api_key);
    url.append(ALCHEMY_SALES_URL_TAIL);
    url
}

} // verus!
