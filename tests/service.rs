use snapit_api::auction::{auction_exists, convert_camel_to_snake_bid, GraphResultBid};
use snapit_api::auth::{jwt_from_header, test_caller};
use snapit_api::chain::{mock_tx_result, SendTransactionResult, TxHashSchema};
use snapit_api::db::{token_key, token_keys};
use snapit_api::error::{rejection_reply, RejectionKind, ServerError};
use snapit_api::graph::{
    graphql_auction_bid_query, graphql_owner_tokens_query, graphql_token_owner_query,
    owner_or_default, token_ids,
};
use snapit_api::requests::{
    alchemy_sales_url, nft_sales_query, query_flag, token_request, GetNFTMarketSalesQueryParams,
    TokenRequest,
};
use snapit_api::routes::{echo, EchoRequest};
use snapit_api::text::{parse_u64, trim_end_matches, trim_start_matches, u64_to_decimal};

#[test]
fn owner_tokens_query_text() {
    let q = graphql_owner_tokens_query("0xabc");
    let expected = "{\n            tokenBalances(where: {owner: \"0xabc\"}) {\n              token {\n                id\n                metadataUri\n              }\n            }\n          }";
    assert_eq!(q, expected);
}

#[test]
fn token_owner_query_text() {
    let q = graphql_token_owner_query("12");
    let expected = "{\n          tokenBalances(where: {token_: {id: 12}}) {\n            owner\n          }\n        }";
    assert_eq!(q, expected);
}

#[test]
fn auction_bid_query_text() {
    let q = graphql_auction_bid_query("5", "100", "200");
    let expected = "{\n        bids(\n          orderBy: blockTimestamp\n          orderDirection: desc\n          where: {tokenId: \"5\", blockTimestamp_gte: \"100\",  blockTimestamp_lte: \"200\" }\n        ) {\n          tokenId\n          price\n          bidder\n          blockTimestamp\n        }\n      }";
    assert_eq!(q, expected);
}

#[test]
fn decimal_text() {
    assert_eq!(u64_to_decimal(0), "0");
    assert_eq!(u64_to_decimal(123456789), "123456789");
    assert_eq!(u64_to_decimal(u64::MAX), "18446744073709551615");
    assert_eq!(token_key(42), "42");
    assert_eq!(token_keys(&vec![1, 20, 300]), vec!["1", "20", "300"]);
}

#[test]
fn numerals_parse_like_std() {
    for s in ["0", "42", "+7", "18446744073709551615", "", "+", "-1", "4a", " 4", "18446744073709551616"] {
        assert_eq!(parse_u64(s), s.parse::<u64>().ok(), "{}", s);
    }
}

#[test]
fn trimming_repeats() {
    assert_eq!(trim_end_matches("5.json.json", ".json"), "5");
    assert_eq!(trim_end_matches("json", ".json"), "json");
    assert_eq!(trim_start_matches("Bearer Bearer x", "Bearer "), "x");
    assert_eq!(trim_start_matches("abc", ""), "abc");
}

#[test]
fn token_ids_skip_non_numbers() {
    let ids = vec!["1".to_string(), "x".to_string(), "30".to_string(), "".to_string()];
    assert_eq!(token_ids(&ids), vec![1, 30]);
    assert_eq!(token_ids(&vec![]), Vec::<u64>::new());
}

#[test]
fn owner_defaults() {
    assert_eq!(owner_or_default(Some("0x1")), "0x1");
    assert_eq!(owner_or_default(None), "default");
}

#[test]
fn token_paths() {
    assert!(matches!(token_request("contract-metadata.json"), TokenRequest::ContractMetadata));
    assert!(matches!(token_request("contract-metadata"), TokenRequest::ContractMetadata));
    match token_request("12.json") {
        TokenRequest::Token { id, key } => {
            assert_eq!(id, 12);
            assert_eq!(key, "12");
        }
        other => panic!("expected a token, got {:?}", other),
    }
    assert!(matches!(token_request("abc.json"), TokenRequest::NotFound));
    assert!(matches!(token_request(""), TokenRequest::NotFound));
}

#[test]
fn query_flags() {
    assert!(query_flag(&Some("true".to_string())));
    assert!(!query_flag(&Some("TRUE".to_string())));
    assert!(!query_flag(&Some("1".to_string())));
    assert!(!query_flag(&None));
}

#[test]
fn sales_query_defaults() {
    let q = nft_sales_query(GetNFTMarketSalesQueryParams { token_id: None, page_key: None, limit: None });
    assert_eq!(q.from_block.as_deref(), Some("5484602"));
    assert_eq!(q.order.as_deref(), Some("desc"));
    assert_eq!(q.marketplace, "seaport");
    assert_eq!(q.limit, Some(10));
    assert_eq!(q.token_id, None);
    assert_eq!(q.contract_address, None);
    assert_eq!(q.page_key, None);
}

#[test]
fn sales_query_with_values() {
    let q = nft_sales_query(GetNFTMarketSalesQueryParams {
        token_id: Some(77),
        page_key: Some("next".to_string()),
        limit: Some(3),
    });
    assert_eq!(q.token_id.as_deref(), Some("77"));
    assert_eq!(q.page_key.as_deref(), Some("next"));
    assert_eq!(q.limit, Some(3));
}

#[test]
fn sales_url() {
    assert_eq!(alchemy_sales_url("KEY"), "https://eth-mainnet.g.alchemy.com/nft/v3/KEY/getNFTSales");
}

#[test]
fn bearer_tokens() {
    assert_eq!(jwt_from_header(Some("Bearer abc")).unwrap(), "abc");
    assert_eq!(jwt_from_header(None).unwrap_err().reason, "no auth header");
    assert_eq!(jwt_from_header(Some("Basic abc")).unwrap_err().reason, "invalid auth header");
    assert_eq!(jwt_from_header(Some("Bearer ")).unwrap(), "");
}

#[test]
fn test_token_shortcut() {
    assert_eq!(test_caller("APITEST").as_deref(), Some("test"));
    assert_eq!(test_caller("APITEST2"), None);
}

#[test]
fn rejection_replies() {
    let r = rejection_reply(&RejectionKind::NotFound);
    assert_eq!((r.status, r.message.as_str()), (404, "Not Found"));
    let r = rejection_reply(&RejectionKind::Server(ServerError::new("jwt token not valid")));
    assert_eq!((r.status, r.message.as_str()), (401, "jwt token not valid"));
    let r = rejection_reply(&RejectionKind::InvalidQuery);
    assert_eq!((r.status, r.message.as_str()), (400, "Invalid Query"));
    let r = rejection_reply(&RejectionKind::Unhandled);
    assert_eq!((r.status, r.message.as_str()), (500, "Internal Server Error"));
}

#[test]
fn mock_results() {
    match mock_tx_result(Some(true)) {
        SendTransactionResult::Receipt(r) => {
            assert_eq!(r.transaction_hash, "0xTRXHASH");
            assert_eq!(r.block_number, Some(1));
            assert_eq!(r.status, Some(0));
            assert_eq!(r.effective_gas_price.as_deref(), Some("GASPRICEinGWEI"));
        }
        _ => panic!("expected a receipt"),
    }
    for w in [None, Some(false)] {
        match mock_tx_result(w) {
            SendTransactionResult::Hash(h) => {
                let mut expected = [0u8; 32];
                expected[24..].copy_from_slice(&123456789u64.to_be_bytes());
                assert_eq!(h.0, expected);
            }
            _ => panic!("expected a hash"),
        }
    }
}

#[test]
fn low_u64_hash() {
    let h = TxHashSchema::from_low_u64_be(0x0102030405060708);
    assert_eq!(&h.0[24..], &[1, 2, 3, 4, 5, 6, 7, 8]);
    assert!(h.0[..24].iter().all(|b| *b == 0));
}

#[test]
fn zero_owner_means_no_auction() {
    assert!(!auction_exists(&[0u8; 20]));
    let mut a = [0u8; 20];
    a[19] = 1;
    assert!(auction_exists(&a));
}

#[test]
fn bid_fields_carry_over() {
    let b = convert_camel_to_snake_bid(GraphResultBid {
        token_id: 3,
        price: "1000".to_string(),
        bidder: "0xb".to_string(),
        block_timestamp: 99,
    });
    assert_eq!((b.token_id, b.price.as_str(), b.bidder.as_str(), b.block_timestamp), (3, "1000", "0xb", 99));
}

#[test]
fn echo_returns_message() {
    let r = echo(EchoRequest { message: "hi".to_string() });
    assert_eq!(r.message, "hi");
}
