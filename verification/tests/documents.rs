use jupiter_swap_api_client::error::ErrorKind;
use jupiter_swap_api_client::json::{Json, Number};
use jupiter_swap_api_client::quote::{QuoteResponse, SwapMode};
use jupiter_swap_api_client::transaction_config::{
    ComputeUnitPriceMicroLamports, KeyedUiAccount, PrioritizationFeeLamports, PriorityLevel,
    TransactionConfig,
};
use serde_json::Value;

fn from_value(value: &Value) -> Json {
    match value {
        Value::Null => Json::Null,
        Value::Bool(b) => Json::Bool(*b),
        Value::Number(n) => Json::Number(match (n.as_u64(), n.as_i64(), n.as_f64()) {
            (Some(u), _, _) => Number::Unsigned(u),
            (None, Some(i), _) => Number::Negative(i),
            (None, None, Some(f)) => Number::Binary64(f.to_bits()),
            (None, None, None) => unreachable!(),
        }),
        Value::String(s) => Json::Str(s.clone()),
        Value::Array(items) => Json::Array(items.iter().map(from_value).collect()),
        Value::Object(members) => {
            Json::Object(members.iter().map(|(k, v)| (k.clone(), from_value(v))).collect())
        }
    }
}

fn to_value(j: &Json) -> Value {
    match j {
        Json::Null => Value::Null,
        Json::Bool(b) => Value::Bool(*b),
        Json::Number(Number::Unsigned(u)) => Value::from(*u),
        Json::Number(Number::Negative(i)) => Value::from(*i),
        Json::Number(Number::Binary64(bits)) => Value::from(f64::from_bits(*bits)),
        Json::Str(s) => Value::String(s.clone()),
        Json::Array(items) => Value::Array(items.iter().map(to_value).collect()),
        Json::Object(members) => {
            Value::Object(members.iter().map(|(k, v)| (k.clone(), to_value(v))).collect())
        }
    }
}

fn parse(text: &str) -> Json {
    from_value(&serde_json::from_str::<Value>(text).unwrap())
}

fn print(j: &Json) -> String {
    serde_json::to_string(&to_value(j)).unwrap()
}

#[test]
fn empty_object_text_is_the_default_config() {
    assert_eq!(TransactionConfig::deserialize(&parse("{}")), Ok(TransactionConfig::default()));
}

#[test]
fn six_fee_shapes_as_text() {
    let cases = [
        (r#"{"autoMultiplier":3}"#, PrioritizationFeeLamports::AutoMultiplier(3)),
        (r#"{"jitoTipLamports":18446744073709551615}"#, PrioritizationFeeLamports::JitoTipLamports(u64::MAX)),
        (
            r#"{"priorityLevelWithMaxLamports":{"priorityLevel":"medium","maxLamports":1000,"global":true}}"#,
            PrioritizationFeeLamports::PriorityLevelWithMaxLamports {
                priority_level: PriorityLevel::Medium,
                max_lamports: 1000,
                global: true,
            },
        ),
        (r#""auto""#, PrioritizationFeeLamports::Auto),
        (r#"5000"#, PrioritizationFeeLamports::Lamports(5000)),
        (r#""disabled""#, PrioritizationFeeLamports::Disabled),
    ];
    for (text, fee) in cases {
        assert_eq!(PrioritizationFeeLamports::deserialize(&parse(text)), Ok(fee), "{}", text);
        assert_eq!(to_value(&fee.serialize()), serde_json::from_str::<Value>(text).unwrap());
    }
}

#[test]
fn fee_numbers_that_are_no_unsigned_integers_have_no_shape() {
    for text in ["-1", "1.0", "1e3", "18446744073709551616", r#"{"autoMultiplier":3.0}"#] {
        assert_eq!(
            PrioritizationFeeLamports::deserialize(&parse(text)).map_err(|e| e.kind),
            Err(ErrorKind::UnrecognizedShape),
            "{}",
            text
        );
    }
}

#[test]
fn compute_unit_price_as_text() {
    assert_eq!(
        ComputeUnitPriceMicroLamports::deserialize(&parse(r#""auto""#)),
        Ok(ComputeUnitPriceMicroLamports::Auto)
    );
    assert_eq!(
        ComputeUnitPriceMicroLamports::deserialize(&parse("12")),
        Ok(ComputeUnitPriceMicroLamports::MicroLamports(12))
    );
    assert_eq!(
        ComputeUnitPriceMicroLamports::deserialize(&parse(r#""Auto""#)).map_err(|e| e.kind),
        Err(ErrorKind::UnrecognizedShape)
    );
    assert_eq!(print(&ComputeUnitPriceMicroLamports::Auto.serialize()), r#""auto""#);
    assert_eq!(print(&ComputeUnitPriceMicroLamports::MicroLamports(12).serialize()), "12");
}

#[test]
fn default_config_as_text() {
    assert_eq!(
        to_value(&TransactionConfig::default().serialize()),
        serde_json::from_str::<Value>(
            r#"{"wrapAndUnwrapSol":true,"allowOptimizedWrappedSolTokenAccount":false,
                "feeAccount":null,"destinationTokenAccount":null,"trackingAccount":null,
                "computeUnitPriceMicroLamports":null,"prioritizationFeeLamports":null,
                "dynamicComputeUnitLimit":false,"asLegacyTransaction":false,
                "useSharedAccounts":null,"useTokenLedger":false,
                "skipUserAccountsRpcCalls":false,"keyedUiAccounts":null,
                "programAuthorityId":null,"dynamicSlippage":null,
                "blockhashSlotsToExpiry":null,"correctLastValidBlockHeight":false}"#
        )
        .unwrap()
    );
}

#[test]
fn keyed_account_as_text_with_an_account_of_the_decoder() {
    let state = solana_account_decoder::UiAccount {
        lamports: 2_039_280,
        data: solana_account_decoder::UiAccountData::Binary(
            "AQID".to_string(),
            solana_account_decoder::UiAccountEncoding::Base64,
        ),
        owner: "TokenkegQfeZyiNwAJbNbGKPFXCWuBvf9Ss623VQ5DA".to_string(),
        executable: false,
        rent_epoch: 361,
        space: Some(3),
    };
    let mut members = vec![(
        "pubkey".to_string(),
        Json::string("EPjFWdd5AufqSSqeM2qN1xzybapC8G4wEGGkZwyTDt1v"),
    )];
    match from_value(&serde_json::to_value(&state).unwrap()) {
        Json::Object(state_members) => members.extend(state_members),
        other => panic!("{:?}", other),
    }
    let account = KeyedUiAccount::deserialize(&Json::Object(members)).unwrap();
    assert_eq!(account.params, None);
    let written = account.serialize();
    assert_eq!(written.get("params"), None);
    assert_eq!(KeyedUiAccount::deserialize(&written), Ok(account.clone()));
    let back: solana_account_decoder::UiAccount =
        serde_json::from_value(to_value(&Json::Object(account.ui_account.fields().clone())))
            .unwrap();
    assert_eq!(back, state);
}

#[test]
fn quote_response_as_text() {
    let text = r#"{
        "inputMint":"So11111111111111111111111111111111111111112",
        "inAmount":"9007199254740993",
        "outputMint":"EPjFWdd5AufqSSqeM2qN1xzybapC8G4wEGGkZwyTDt1v",
        "outAmount":"150250000",
        "otherAmountThreshold":"149498750",
        "swapMode":"ExactIn",
        "slippageBps":50,
        "platformFee":null,
        "priceImpactPct":"0.0012",
        "routePlan":[{"percent":100}],
        "contextSlot":277929733,
        "timeTaken":0.0421
    }"#;
    let response = QuoteResponse::deserialize(&parse(text)).unwrap();
    assert_eq!(response.in_amount, 9_007_199_254_740_993);
    assert_eq!(response.swap_mode, SwapMode::ExactIn);
    assert_eq!(response.price_impact_pct.to_string(), "0.0012");
    assert_eq!(response.time_taken, Number::Binary64(0.0421f64.to_bits()));
    assert_eq!(response.context_slot, 277_929_733);
    assert_eq!(
        to_value(&response.serialize()),
        serde_json::from_str::<Value>(text).unwrap()
    );
}
