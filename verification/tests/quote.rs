use jupiter_swap_api_client::decimal::Decimal;
use jupiter_swap_api_client::error::{DecodeError, ErrorKind};
use jupiter_swap_api_client::json::{Json, Number};
use jupiter_swap_api_client::pubkey::Pubkey;
use jupiter_swap_api_client::quote::{
    has_distinct_names, ComputeUnitScore, InternalQuoteRequest, PlatformFee, QuoteArgs,
    QuoteRequest, QuoteResponse, SwapInfo, SwapMode, SwapModeError,
};

const USDC: &str = "EPjFWdd5AufqSSqeM2qN1xzybapC8G4wEGGkZwyTDt1v";
const WSOL: &str = "So11111111111111111111111111111111111111112";

fn key(text: &str) -> Pubkey {
    Pubkey::from_str(text).unwrap()
}

fn object(members: Vec<(&str, Json)>) -> Json {
    Json::Object(members.into_iter().map(|(key, value)| (key.to_string(), value)).collect())
}

fn without(j: &Json, key: &str) -> Json {
    match j {
        Json::Object(members) => {
            Json::Object(members.iter().filter(|(k, _)| k != key).cloned().collect())
        }
        other => other.clone(),
    }
}

fn with(j: &Json, key: &str, value: Json) -> Json {
    match without(j, key) {
        Json::Object(mut members) => {
            members.push((key.to_string(), value));
            Json::Object(members)
        }
        other => other,
    }
}

fn error(kind: ErrorKind, field: &'static str) -> DecodeError {
    DecodeError { kind, field }
}

fn sample_request() -> QuoteRequest {
    QuoteRequest {
        input_mint: key(WSOL),
        output_mint: key(USDC),
        amount: 1_000_000,
        slippage_bps: 50,
        swap_mode: None,
        dexes: Some("Orca,Raydium".to_string()),
        max_accounts: Some(64),
        quote_type: Some("fast".to_string()),
        quote_args: QuoteArgs::new(vec![("depth".to_string(), "3".to_string())]),
        compute_unit_score: Some(ComputeUnitScore {
            max_penalty_bps: Some(Number::Binary64(12.5f64.to_bits())),
        }),
        routing_constraints: Some("none".to_string()),
        token_category_based_intermediate_tokens: Some(true),
        ..QuoteRequest::default()
    }
}

#[test]
fn swap_mode_from_str_takes_the_two_names() {
    assert_eq!(SwapMode::from_str("ExactIn"), Ok(SwapMode::ExactIn));
    assert_eq!(SwapMode::from_str("ExactOut"), Ok(SwapMode::ExactOut));
}

#[test]
fn swap_mode_from_str_rejects_any_other_name() {
    for name in ["Sideways", "exactIn", "EXACTIN", "ExactIn ", "", "ExactInOut", "Exact"] {
        assert_eq!(
            SwapMode::from_str(name),
            Err(SwapModeError { text: name.to_string() }),
            "{:?}",
            name
        );
    }
}

#[test]
fn swap_mode_error_names_the_rejected_text() {
    let e = SwapMode::from_str("Sideways").unwrap_err();
    assert_eq!(e.text, "Sideways");
    assert_eq!(e.message(), "Sideways is not a valid SwapMode");
    assert_eq!(SwapMode::from_str("").unwrap_err().message(), " is not a valid SwapMode");
    assert_eq!(
        SwapMode::from_str("exactOut").unwrap_err().message(),
        "exactOut is not a valid SwapMode"
    );
}

#[test]
fn swap_mode_decoded_from_sideways_fails_and_takes_no_default() {
    assert_eq!(
        SwapMode::deserialize(&Json::string("Sideways")),
        Err(error(ErrorKind::UnrecognizedVariant, ""))
    );
    assert_eq!(
        SwapMode::deserialize(&Json::Null),
        Err(error(ErrorKind::UnexpectedType, ""))
    );
}

#[test]
fn swap_mode_round_trips_and_defaults_to_exact_in() {
    assert_eq!(SwapMode::default(), SwapMode::ExactIn);
    for mode in [SwapMode::ExactIn, SwapMode::ExactOut] {
        assert_eq!(SwapMode::deserialize(&mode.serialize()), Ok(mode));
    }
    assert_eq!(SwapMode::ExactIn.serialize(), Json::string("ExactIn"));
    assert_eq!(SwapMode::ExactOut.serialize(), Json::string("ExactOut"));
}

#[test]
fn projection_keeps_the_shared_fields_and_drops_the_rest() {
    let request = QuoteRequest {
        input_mint: key(WSOL),
        output_mint: key(USDC),
        amount: 1_000_000,
        slippage_bps: 50,
        swap_mode: None,
        ..QuoteRequest::default()
    };
    let internal = InternalQuoteRequest::from(request.clone());
    assert_eq!(internal.input_mint, request.input_mint);
    assert_eq!(internal.output_mint, request.output_mint);
    assert_eq!(internal.amount, 1_000_000);
    assert_eq!(internal.slippage_bps, 50);
    assert_eq!(internal.swap_mode, None);
    assert_eq!(
        internal,
        InternalQuoteRequest {
            input_mint: key(WSOL),
            output_mint: key(USDC),
            amount: 1_000_000,
            slippage_bps: 50,
            ..InternalQuoteRequest::default()
        }
    );
}

#[test]
fn projection_of_a_full_request() {
    let request = QuoteRequest {
        swap_mode: Some(SwapMode::ExactOut),
        auto_slippage: Some(true),
        max_auto_slippage_bps: Some(300),
        compute_auto_slippage: true,
        auto_slippage_collision_usd_value: Some(1_000),
        minimize_slippage: Some(false),
        platform_fee_bps: Some(20),
        excluded_dexes: Some("Phoenix".to_string()),
        only_direct_routes: Some(true),
        as_legacy_transaction: Some(false),
        restrict_intermediate_tokens: Some(true),
        prefer_liquid_dexes: Some(true),
        ..sample_request()
    };
    let internal: InternalQuoteRequest = request.clone().into();
    assert_eq!(
        internal,
        InternalQuoteRequest {
            input_mint: request.input_mint,
            output_mint: request.output_mint,
            amount: request.amount,
            swap_mode: Some(SwapMode::ExactOut),
            slippage_bps: 50,
            auto_slippage: Some(true),
            max_auto_slippage_bps: Some(300),
            compute_auto_slippage: true,
            auto_slippage_collision_usd_value: Some(1_000),
            minimize_slippage: Some(false),
            platform_fee_bps: Some(20),
            dexes: Some("Orca,Raydium".to_string()),
            excluded_dexes: Some("Phoenix".to_string()),
            only_direct_routes: Some(true),
            as_legacy_transaction: Some(false),
            restrict_intermediate_tokens: Some(true),
            max_accounts: Some(64),
            quote_type: Some("fast".to_string()),
            prefer_liquid_dexes: Some(true),
        }
    );
}

#[test]
fn internal_request_document_has_no_trace_of_what_was_dropped() {
    let internal = InternalQuoteRequest::from(sample_request());
    let written = internal.serialize();
    for key in [
        "quoteArgs",
        "computeUnitScore",
        "routingConstraints",
        "tokenCategoryBasedIntermediateTokens",
    ] {
        assert_eq!(written.get(key), None, "{}", key);
    }
    assert_eq!(written.get("quoteType"), Some(&Json::string("fast")));
    assert_eq!(written.get("amount"), Some(&Json::string("1000000")));
    match written {
        Json::Object(members) => assert_eq!(members.len(), 19),
        other => panic!("{:?}", other),
    }
}

#[test]
fn quote_request_document() {
    let written = sample_request().serialize();
    assert_eq!(
        written,
        object(vec![
            ("inputMint", Json::string(WSOL)),
            ("outputMint", Json::string(USDC)),
            ("amount", Json::string("1000000")),
            ("swapMode", Json::Null),
            ("slippageBps", Json::unsigned(50)),
            ("autoSlippage", Json::Null),
            ("maxAutoSlippageBps", Json::Null),
            ("computeAutoSlippage", Json::Bool(false)),
            ("autoSlippageCollisionUsdValue", Json::Null),
            ("minimizeSlippage", Json::Null),
            ("platformFeeBps", Json::Null),
            ("dexes", Json::string("Orca,Raydium")),
            ("excludedDexes", Json::Null),
            ("onlyDirectRoutes", Json::Null),
            ("asLegacyTransaction", Json::Null),
            ("restrictIntermediateTokens", Json::Null),
            ("maxAccounts", Json::unsigned(64)),
            ("quoteType", Json::string("fast")),
            ("quoteArgs", object(vec![("depth", Json::string("3"))])),
            ("preferLiquidDexes", Json::Null),
            (
                "computeUnitScore",
                object(vec![("maxPenaltyBps", Json::Number(Number::Binary64(12.5f64.to_bits())))]),
            ),
            ("routingConstraints", Json::string("none")),
            ("tokenCategoryBasedIntermediateTokens", Json::Bool(true)),
        ])
    );
}

#[test]
fn quote_request_amount_above_two_to_the_53_keeps_every_digit() {
    let request = QuoteRequest { amount: u64::MAX, ..sample_request() };
    assert_eq!(request.serialize().get("amount"), Some(&Json::string("18446744073709551615")));
}

#[test]
fn compute_unit_score_document() {
    assert_eq!(
        ComputeUnitScore { max_penalty_bps: None }.serialize(),
        object(vec![("maxPenaltyBps", Json::Null)])
    );
    assert_eq!(ComputeUnitScore::default(), ComputeUnitScore { max_penalty_bps: None });
}

#[test]
fn platform_fee_round_trips() {
    let fee = PlatformFee { amount: 9_007_199_254_740_993, fee_bps: 255 };
    let written = fee.serialize();
    assert_eq!(
        written,
        object(vec![("amount", Json::string("9007199254740993")), ("feeBps", Json::unsigned(255))])
    );
    assert_eq!(PlatformFee::deserialize(&written), Ok(fee));
}

#[test]
fn platform_fee_rejections_name_the_member() {
    let good = PlatformFee { amount: 1, fee_bps: 2 }.serialize();
    assert_eq!(
        PlatformFee::deserialize(&with(&good, "amount", Json::unsigned(1))),
        Err(error(ErrorKind::UnexpectedType, "amount"))
    );
    assert_eq!(
        PlatformFee::deserialize(&with(&good, "amount", Json::string("1.0"))),
        Err(error(ErrorKind::MalformedAmount, "amount"))
    );
    assert_eq!(
        PlatformFee::deserialize(&without(&good, "amount")),
        Err(error(ErrorKind::MissingField, "amount"))
    );
    assert_eq!(
        PlatformFee::deserialize(&with(&good, "feeBps", Json::unsigned(256))),
        Err(error(ErrorKind::UnexpectedType, "feeBps"))
    );
    assert_eq!(
        PlatformFee::deserialize(&without(&good, "feeBps")),
        Err(error(ErrorKind::MissingField, "feeBps"))
    );
    assert_eq!(
        PlatformFee::deserialize(&Json::Array(vec![])),
        Err(error(ErrorKind::UnexpectedType, ""))
    );
    let both_bad = object(vec![("feeBps", Json::Null), ("amount", Json::Null)]);
    assert_eq!(
        PlatformFee::deserialize(&both_bad),
        Err(error(ErrorKind::UnexpectedType, "amount"))
    );
}

fn sample_swap_info() -> SwapInfo {
    SwapInfo {
        amm_key: key("2gPihUTjt3FJqf1VpidgrY5cZ6PuyMccGVwQHRfjMPZG"),
        label: "Orca".to_string(),
        input_mint: key(WSOL),
        output_mint: key(USDC),
        in_amount: 1_000_000_000,
        out_amount: 150_250_000,
        fee_amount: 3_000,
        fee_mint: key(WSOL),
    }
}

#[test]
fn swap_info_round_trips() {
    let info = sample_swap_info();
    let written = info.serialize();
    assert_eq!(
        written,
        object(vec![
            ("ammKey", Json::string("2gPihUTjt3FJqf1VpidgrY5cZ6PuyMccGVwQHRfjMPZG")),
            ("label", Json::string("Orca")),
            ("inputMint", Json::string(WSOL)),
            ("outputMint", Json::string(USDC)),
            ("inAmount", Json::string("1000000000")),
            ("outAmount", Json::string("150250000")),
            ("feeAmount", Json::string("3000")),
            ("feeMint", Json::string(WSOL)),
        ])
    );
    assert_eq!(SwapInfo::deserialize(&written), Ok(info));
}

#[test]
fn swap_info_rejections() {
    let good = sample_swap_info().serialize();
    assert_eq!(
        SwapInfo::deserialize(&with(&good, "ammKey", Json::string("not-a-key"))),
        Err(error(ErrorKind::MalformedIdentifier, "ammKey"))
    );
    assert_eq!(
        SwapInfo::deserialize(&with(&good, "feeMint", Json::unsigned(5))),
        Err(error(ErrorKind::UnexpectedType, "feeMint"))
    );
    assert_eq!(
        SwapInfo::deserialize(&with(&good, "outAmount", Json::string("-5"))),
        Err(error(ErrorKind::MalformedAmount, "outAmount"))
    );
    assert_eq!(
        SwapInfo::deserialize(&without(&good, "label")),
        Err(error(ErrorKind::MissingField, "label"))
    );
    assert_eq!(
        SwapInfo::deserialize(&with(&good, "label", Json::Null)),
        Err(error(ErrorKind::UnexpectedType, "label"))
    );
    assert_eq!(SwapInfo::deserialize(&Json::Null), Err(error(ErrorKind::UnexpectedType, "")));
}

#[test]
fn swap_info_default_is_all_zero() {
    let info = SwapInfo::default();
    assert_eq!(info.amm_key, Pubkey::new_from_array([0; 32]));
    assert_eq!(info.label, "");
    assert_eq!(info.in_amount, 0);
}

fn sample_response() -> QuoteResponse {
    QuoteResponse {
        input_mint: key(WSOL),
        in_amount: 1_000_000_000,
        output_mint: key(USDC),
        out_amount: 150_250_000,
        other_amount_threshold: 149_498_750,
        swap_mode: SwapMode::ExactIn,
        slippage_bps: 50,
        computed_auto_slippage: None,
        uses_quote_minimizing_slippage: None,
        platform_fee: None,
        price_impact_pct: Decimal::from_str("0.0012").unwrap(),
        route_plan: Json::Array(vec![object(vec![
            ("swapInfo", sample_swap_info().serialize()),
            ("percent", Json::unsigned(100)),
        ])]),
        context_slot: 277_929_733,
        time_taken: Number::Binary64(0.0421f64.to_bits()),
    }
}

#[test]
fn quote_response_round_trips_and_leaves_out_the_unset_slippage_fields() {
    let response = sample_response();
    let written = response.serialize();
    assert_eq!(written.get("computedAutoSlippage"), None);
    assert_eq!(written.get("usesQuoteMinimizingSlippage"), None);
    assert_eq!(written.get("platformFee"), Some(&Json::Null));
    assert_eq!(written.get("priceImpactPct"), Some(&Json::string("0.0012")));
    assert_eq!(written.get("inAmount"), Some(&Json::string("1000000000")));
    assert_eq!(written.get("swapMode"), Some(&Json::string("ExactIn")));
    assert_eq!(written.get("routePlan"), Some(&response.route_plan));
    match &written {
        Json::Object(members) => {
            let keys: Vec<&str> = members.iter().map(|(k, _)| k.as_str()).collect();
            assert_eq!(
                keys,
                vec![
                    "inputMint",
                    "inAmount",
                    "outputMint",
                    "outAmount",
                    "otherAmountThreshold",
                    "swapMode",
                    "slippageBps",
                    "platformFee",
                    "priceImpactPct",
                    "routePlan",
                    "contextSlot",
                    "timeTaken",
                ]
            );
        }
        other => panic!("{:?}", other),
    }
    assert_eq!(QuoteResponse::deserialize(&written), Ok(response));
}

#[test]
fn quote_response_with_every_field_set_round_trips() {
    let response = QuoteResponse {
        computed_auto_slippage: Some(75),
        uses_quote_minimizing_slippage: Some(true),
        platform_fee: Some(PlatformFee { amount: 1_500, fee_bps: 10 }),
        swap_mode: SwapMode::ExactOut,
        ..sample_response()
    };
    let written = response.serialize();
    assert_eq!(written.get("computedAutoSlippage"), Some(&Json::unsigned(75)));
    assert_eq!(written.get("usesQuoteMinimizingSlippage"), Some(&Json::Bool(true)));
    assert_eq!(QuoteResponse::deserialize(&written), Ok(response));
}

#[test]
fn quote_response_slot_and_time_default_to_zero() {
    let written = sample_response().serialize();
    let trimmed = without(&without(&written, "contextSlot"), "timeTaken");
    let response = QuoteResponse::deserialize(&trimmed).unwrap();
    assert_eq!(response.context_slot, 0);
    assert_eq!(response.time_taken, Number::Binary64(0.0f64.to_bits()));
    assert_eq!(response.time_taken, Number::Binary64(0));
}

#[test]
fn quote_response_rejections() {
    let good = sample_response().serialize();
    assert_eq!(
        QuoteResponse::deserialize(&with(&good, "swapMode", Json::string("Sideways"))),
        Err(error(ErrorKind::UnrecognizedVariant, "swapMode"))
    );
    assert_eq!(
        QuoteResponse::deserialize(&without(&good, "swapMode")),
        Err(error(ErrorKind::MissingField, "swapMode"))
    );
    assert_eq!(
        QuoteResponse::deserialize(&with(&good, "priceImpactPct", Json::string("a lot"))),
        Err(error(ErrorKind::MalformedDecimal, "priceImpactPct"))
    );
    assert_eq!(
        QuoteResponse::deserialize(&with(
            &good,
            "priceImpactPct",
            Json::Number(Number::Binary64(0.5f64.to_bits()))
        )),
        Err(error(ErrorKind::UnexpectedType, "priceImpactPct"))
    );
    assert_eq!(
        QuoteResponse::deserialize(&with(&good, "priceImpactPct", Json::Bool(true))),
        Err(error(ErrorKind::UnexpectedType, "priceImpactPct"))
    );
    assert_eq!(
        QuoteResponse::deserialize(&with(
            &good,
            "platformFee",
            object(vec![("amount", Json::string("x")), ("feeBps", Json::unsigned(1))])
        )),
        Err(error(ErrorKind::MalformedAmount, "amount"))
    );
    assert_eq!(
        QuoteResponse::deserialize(&with(&good, "platformFee", Json::unsigned(1))),
        Err(error(ErrorKind::UnexpectedType, "platformFee"))
    );
    assert_eq!(
        QuoteResponse::deserialize(&with(&good, "inputMint", Json::string("???"))),
        Err(error(ErrorKind::MalformedIdentifier, "inputMint"))
    );
    assert_eq!(
        QuoteResponse::deserialize(&without(&good, "routePlan")),
        Err(error(ErrorKind::MissingField, "routePlan"))
    );
    assert_eq!(
        QuoteResponse::deserialize(&with(&good, "contextSlot", Json::string("1"))),
        Err(error(ErrorKind::UnexpectedType, "contextSlot"))
    );
    assert_eq!(
        QuoteResponse::deserialize(&with(&good, "timeTaken", Json::Null)),
        Err(error(ErrorKind::UnexpectedType, "timeTaken"))
    );
    assert_eq!(
        QuoteResponse::deserialize(&with(&good, "slippageBps", Json::unsigned(70_000))),
        Err(error(ErrorKind::UnexpectedType, "slippageBps"))
    );
}

#[test]
fn quote_response_takes_null_for_the_optional_fields() {
    let good = sample_response().serialize();
    let nulled = with(
        &with(&good, "computedAutoSlippage", Json::Null),
        "usesQuoteMinimizingSlippage",
        Json::Null,
    );
    assert_eq!(QuoteResponse::deserialize(&nulled), Ok(sample_response()));
}

#[test]
fn extra_arguments_are_a_map() {
    let pair = |name: &str, value: &str| (name.to_string(), value.to_string());
    assert!(has_distinct_names(&vec![]));
    assert!(has_distinct_names(&vec![pair("a", "1")]));
    assert!(has_distinct_names(&vec![pair("a", "1"), pair("b", "1"), pair("c", "1")]));
    assert!(!has_distinct_names(&vec![pair("a", "1"), pair("b", "2"), pair("a", "3")]));
    assert!(!has_distinct_names(&vec![pair("a", "1"), pair("a", "1")]));
    assert!(!has_distinct_names(&vec![pair("b", "1"), pair("a", "1"), pair("a", "2")]));
    let args = QuoteArgs::new(vec![pair("depth", "3"), pair("width", "4")]).unwrap();
    assert_eq!(args.entries(), &vec![pair("depth", "3"), pair("width", "4")]);
    assert_eq!(args.clone(), args);
    assert_eq!(QuoteArgs::new(vec![]).unwrap().entries().len(), 0);
    assert_eq!(QuoteArgs::new(vec![pair("depth", "3"), pair("depth", "4")]), None);
    let request = QuoteRequest { quote_args: Some(args), ..sample_request() };
    assert_eq!(
        request.serialize().get("quoteArgs"),
        Some(&object(vec![("depth", Json::string("3")), ("width", Json::string("4"))]))
    );
}

#[test]
fn request_defaults() {
    let request = QuoteRequest::default();
    assert_eq!(request.input_mint, Pubkey::new_from_array([0; 32]));
    assert_eq!(request.amount, 0);
    assert_eq!(request.slippage_bps, 0);
    assert!(!request.compute_auto_slippage);
    assert_eq!(request.swap_mode, None);
    assert_eq!(request.quote_args, None);
    assert_eq!(request.compute_unit_score, None);
    assert_eq!(InternalQuoteRequest::from(request), InternalQuoteRequest::default());
}

#[test]
fn price_impact_is_taken_from_an_integer_number() {
    let good = sample_response().serialize();
    let response =
        QuoteResponse::deserialize(&with(&good, "priceImpactPct", Json::unsigned(12))).unwrap();
    assert_eq!(response.price_impact_pct, Decimal::new(12, 0).unwrap());
    assert_eq!(response.price_impact_pct.to_string(), "12");
    let response = QuoteResponse::deserialize(&with(
        &good,
        "priceImpactPct",
        Json::Number(Number::Negative(-3)),
    ))
    .unwrap();
    assert_eq!(response.price_impact_pct, Decimal::new(-3, 0).unwrap());
    let response = QuoteResponse::deserialize(&with(
        &good,
        "priceImpactPct",
        Json::unsigned(u64::MAX),
    ))
    .unwrap();
    assert_eq!(response.price_impact_pct.to_string(), "18446744073709551615");
}

#[test]
fn parts_of_hops_and_answers_are_read_back() {
    assert!(sample_swap_info().identifiers_round_trip());
    assert!(SwapInfo::default().identifiers_round_trip());
    assert!(sample_response().parts_round_trip());
}
