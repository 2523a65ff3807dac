use jupiter_swap_api_client::extra_args::ExtraArgs;
use jupiter_swap_api_client::quote::{InternalQuoteRequest, QuoteRequest, SwapMode};

const SOL: &str = "So11111111111111111111111111111111111111112";
const USDC: &str = "EPjFWdd5AufqSSqeM2qN1xzybapC8G4wEGGkZwyTDt1v";

fn pair(key: &str, value: &str) -> (String, String) {
    (key.to_string(), value.to_string())
}

fn names(list: &[&str]) -> Vec<String> {
    list.iter().map(|name| name.to_string()).collect()
}

fn plain_request() -> QuoteRequest {
    QuoteRequest {
        input_mint: SOL.to_string(),
        output_mint: USDC.to_string(),
        amount: 1_000_000,
        swap_mode: None,
        slippage_bps: 50,
        platform_fee_bps: None,
        fee_account: None,
        dexes: None,
        excluded_dexes: None,
        only_direct_routes: None,
        as_legacy_transaction: None,
        restrict_intermediate_tokens: None,
        max_accounts: None,
        quote_args: None,
    }
}

fn full_request() -> QuoteRequest {
    let mut quote_args = ExtraArgs::new();
    quote_args.insert("experimentalRouting".to_string(), "on".to_string());
    QuoteRequest {
        input_mint: SOL.to_string(),
        output_mint: USDC.to_string(),
        amount: u64::MAX,
        swap_mode: Some(SwapMode::ExactOut),
        slippage_bps: 65_535,
        platform_fee_bps: Some(255),
        fee_account: Some("FeeAccount1111".to_string()),
        dexes: Some(names(&["Orca", "Raydium"])),
        excluded_dexes: Some(names(&["Phoenix"])),
        only_direct_routes: Some(true),
        as_legacy_transaction: Some(false),
        restrict_intermediate_tokens: Some(true),
        max_accounts: Some(64),
        quote_args: Some(quote_args),
    }
}

#[test]
fn shaping_keeps_every_modelled_field() {
    let internal = InternalQuoteRequest::from(full_request());
    assert_eq!(
        internal,
        InternalQuoteRequest {
            input_mint: SOL.to_string(),
            output_mint: USDC.to_string(),
            amount: u64::MAX,
            swap_mode: Some(SwapMode::ExactOut),
            slippage_bps: 65_535,
            platform_fee_bps: Some(255),
            fee_account: Some("FeeAccount1111".to_string()),
            dexes: Some("Orca,Raydium".to_string()),
            excluded_dexes: Some("Phoenix".to_string()),
            only_direct_routes: Some(true),
            as_legacy_transaction: Some(false),
            restrict_intermediate_tokens: Some(true),
            max_accounts: Some(64),
        }
    );
}

#[test]
fn shaping_leaves_absent_fields_absent() {
    let internal = InternalQuoteRequest::from(plain_request());
    assert_eq!(internal.input_mint, SOL);
    assert_eq!(internal.output_mint, USDC);
    assert_eq!(internal.amount, 1_000_000);
    assert_eq!(internal.slippage_bps, 50);
    assert_eq!(internal.swap_mode, None);
    assert_eq!(internal.platform_fee_bps, None);
    assert_eq!(internal.fee_account, None);
    assert_eq!(internal.dexes, None);
    assert_eq!(internal.excluded_dexes, None);
    assert_eq!(internal.only_direct_routes, None);
    assert_eq!(internal.as_legacy_transaction, None);
    assert_eq!(internal.restrict_intermediate_tokens, None);
    assert_eq!(internal.max_accounts, None);
}

#[test]
fn shaping_a_borrowed_request_gives_the_same_shape() {
    let request = full_request();
    assert_eq!(InternalQuoteRequest::from(&request), InternalQuoteRequest::from(request.clone()));
    let request = plain_request();
    assert_eq!(InternalQuoteRequest::from(&request), InternalQuoteRequest::from(request.clone()));
}

#[test]
fn shaping_through_into() {
    let internal: InternalQuoteRequest = full_request().into();
    assert_eq!(internal.dexes, Some("Orca,Raydium".to_string()));
}

#[test]
fn an_empty_list_of_names_is_present_and_empty() {
    let mut request = plain_request();
    request.dexes = Some(vec![]);
    let internal = InternalQuoteRequest::from(request);
    assert_eq!(internal.dexes, Some(String::new()));
    assert_eq!(internal.excluded_dexes, None);
}

#[test]
fn the_query_of_a_plain_request_holds_the_required_fields_only() {
    let internal = InternalQuoteRequest::from(plain_request());
    assert_eq!(
        internal.query_pairs(),
        vec![
            pair("inputMint", SOL),
            pair("outputMint", USDC),
            pair("amount", "1000000"),
            pair("slippageBps", "50"),
        ]
    );
}

#[test]
fn the_query_of_a_full_request_holds_every_field_in_order() {
    let internal = InternalQuoteRequest::from(full_request());
    assert_eq!(
        internal.query_pairs(),
        vec![
            pair("inputMint", SOL),
            pair("outputMint", USDC),
            pair("amount", "18446744073709551615"),
            pair("swapMode", "ExactOut"),
            pair("slippageBps", "65535"),
            pair("platformFeeBps", "255"),
            pair("feeAccount", "FeeAccount1111"),
            pair("dexes", "Orca,Raydium"),
            pair("excludedDexes", "Phoenix"),
            pair("onlyDirectRoutes", "true"),
            pair("asLegacyTransaction", "false"),
            pair("restrictIntermediateTokens", "true"),
            pair("maxAccounts", "64"),
        ]
    );
}

#[test]
fn the_query_writes_zero_amounts() {
    let mut request = plain_request();
    request.amount = 0;
    request.slippage_bps = 0;
    request.platform_fee_bps = Some(0);
    request.max_accounts = Some(0);
    let pairs = InternalQuoteRequest::from(request).query_pairs();
    assert_eq!(
        pairs,
        vec![
            pair("inputMint", SOL),
            pair("outputMint", USDC),
            pair("amount", "0"),
            pair("slippageBps", "0"),
            pair("platformFeeBps", "0"),
            pair("maxAccounts", "0"),
        ]
    );
}

#[test]
fn swap_modes_have_their_wire_names() {
    assert_eq!(SwapMode::ExactIn.as_str(), "ExactIn");
    assert_eq!(SwapMode::ExactOut.as_str(), "ExactOut");
    let mut request = plain_request();
    request.swap_mode = Some(SwapMode::ExactIn);
    let pairs = InternalQuoteRequest::from(request).query_pairs();
    assert_eq!(pairs[3], pair("swapMode", "ExactIn"));
}

#[test]
fn requests_that_differ_in_one_field_differ_in_shape() {
    let base = InternalQuoteRequest::from(full_request());
    let mut other = full_request();
    other.amount -= 1;
    assert_ne!(InternalQuoteRequest::from(other), base);
    let mut other = full_request();
    other.dexes = Some(names(&["Orca", "Raydium", "Phoenix"]));
    assert_ne!(InternalQuoteRequest::from(other), base);
    let mut other = full_request();
    other.excluded_dexes = None;
    assert_ne!(InternalQuoteRequest::from(other), base);
    let mut other = full_request();
    other.only_direct_routes = Some(false);
    assert_ne!(InternalQuoteRequest::from(other), base);
}

#[test]
fn the_open_ended_arguments_are_no_part_of_the_shape() {
    let mut other = full_request();
    other.quote_args = None;
    assert_eq!(InternalQuoteRequest::from(other), InternalQuoteRequest::from(full_request()));
}

#[test]
fn a_comma_in_a_name_reads_as_two_names() {
    let mut one = plain_request();
    one.dexes = Some(names(&["a,b"]));
    let mut two = plain_request();
    two.dexes = Some(names(&["a", "b"]));
    assert_eq!(InternalQuoteRequest::from(one), InternalQuoteRequest::from(two));
}

#[test]
fn the_query_has_one_parameter_for_each_field_that_is_present() {
    assert_eq!(InternalQuoteRequest::from(plain_request()).query_pairs().len(), 4);
    assert_eq!(InternalQuoteRequest::from(full_request()).query_pairs().len(), 13);
    let mut request = plain_request();
    request.fee_account = Some("Fee".to_string());
    request.max_accounts = Some(20);
    assert_eq!(InternalQuoteRequest::from(request).query_pairs().len(), 6);
}
