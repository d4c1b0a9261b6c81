use jupiter_swap_api_client::error::{DecodeError, ErrorKind};
use jupiter_swap_api_client::json::{Json, Number};
use jupiter_swap_api_client::transaction_config;
use jupiter_swap_api_client::transaction_config::{
    ComputeUnitPriceMicroLamports, PrioritizationFeeLamports, PriorityLevel,
};

fn object(members: Vec<(&str, Json)>) -> Json {
    Json::Object(members.into_iter().map(|(key, value)| (key.to_string(), value)).collect())
}

fn unrecognized() -> DecodeError {
    DecodeError { kind: ErrorKind::UnrecognizedShape, field: "" }
}

fn level_with_cap(level: &str, cap: u64, global: bool) -> Json {
    object(vec![(
        "priorityLevelWithMaxLamports",
        object(vec![
            ("priorityLevel", Json::string(level)),
            ("maxLamports", Json::unsigned(cap)),
            ("global", Json::Bool(global)),
        ]),
    )])
}

#[test]
fn compute_unit_price_auto_round_trips_through_the_string_auto() {
    let written = ComputeUnitPriceMicroLamports::Auto.serialize();
    assert_eq!(written, Json::string("auto"));
    assert_eq!(
        ComputeUnitPriceMicroLamports::deserialize(&written),
        Ok(ComputeUnitPriceMicroLamports::Auto)
    );
}

#[test]
fn compute_unit_price_rejects_the_wrong_case() {
    assert_eq!(ComputeUnitPriceMicroLamports::deserialize(&Json::string("Auto")), Err(unrecognized()));
    assert_eq!(ComputeUnitPriceMicroLamports::deserialize(&Json::string("AUTO")), Err(unrecognized()));
    assert_eq!(ComputeUnitPriceMicroLamports::deserialize(&Json::string("auto ")), Err(unrecognized()));
    assert_eq!(ComputeUnitPriceMicroLamports::deserialize(&Json::string("")), Err(unrecognized()));
}

#[test]
fn compute_unit_price_rate_is_a_bare_number() {
    let price = ComputeUnitPriceMicroLamports::MicroLamports(u64::MAX);
    let written = price.serialize();
    assert_eq!(written, Json::Number(Number::Unsigned(u64::MAX)));
    assert_eq!(ComputeUnitPriceMicroLamports::deserialize(&written), Ok(price));
    assert_eq!(
        ComputeUnitPriceMicroLamports::deserialize(&Json::unsigned(0)),
        Ok(ComputeUnitPriceMicroLamports::MicroLamports(0))
    );
}

#[test]
fn compute_unit_price_rejects_other_shapes() {
    for j in [
        Json::Null,
        Json::Bool(true),
        Json::Number(Number::Negative(-1)),
        Json::Number(Number::Binary64(1.5f64.to_bits())),
        Json::string("5"),
        Json::Array(vec![]),
        object(vec![]),
        object(vec![("microLamports", Json::unsigned(5))]),
    ] {
        assert_eq!(ComputeUnitPriceMicroLamports::deserialize(&j), Err(unrecognized()), "{:?}", j);
    }
}

#[test]
fn prioritization_fee_auto_multiplier_shape() {
    let fee = PrioritizationFeeLamports::AutoMultiplier(3);
    let written = fee.serialize();
    assert_eq!(written, object(vec![("autoMultiplier", Json::unsigned(3))]));
    assert_eq!(PrioritizationFeeLamports::deserialize(&written), Ok(fee));
}

#[test]
fn prioritization_fee_jito_tip_shape() {
    let fee = PrioritizationFeeLamports::JitoTipLamports(10_000_000_000_000_000_000);
    let written = fee.serialize();
    assert_eq!(
        written,
        object(vec![("jitoTipLamports", Json::unsigned(10_000_000_000_000_000_000))])
    );
    assert_eq!(PrioritizationFeeLamports::deserialize(&written), Ok(fee));
}

#[test]
fn prioritization_fee_priority_level_shape() {
    for (level, name) in [
        (PriorityLevel::Medium, "medium"),
        (PriorityLevel::High, "high"),
        (PriorityLevel::VeryHigh, "veryHigh"),
    ] {
        for global in [false, true] {
            let fee = PrioritizationFeeLamports::PriorityLevelWithMaxLamports {
                priority_level: level,
                max_lamports: 4_000_000,
                global,
            };
            let written = fee.serialize();
            assert_eq!(written, level_with_cap(name, 4_000_000, global));
            assert_eq!(PrioritizationFeeLamports::deserialize(&written), Ok(fee));
        }
    }
}

#[test]
fn prioritization_fee_auto_shape() {
    let written = PrioritizationFeeLamports::Auto.serialize();
    assert_eq!(written, Json::string("auto"));
    assert_eq!(PrioritizationFeeLamports::deserialize(&written), Ok(PrioritizationFeeLamports::Auto));
}

#[test]
fn prioritization_fee_lamports_shape() {
    let fee = PrioritizationFeeLamports::Lamports(5_000);
    let written = fee.serialize();
    assert_eq!(written, Json::unsigned(5_000));
    assert_eq!(PrioritizationFeeLamports::deserialize(&written), Ok(fee));
}

#[test]
fn prioritization_fee_disabled_shape() {
    let written = PrioritizationFeeLamports::Disabled.serialize();
    assert_eq!(written, Json::string("disabled"));
    assert_eq!(
        PrioritizationFeeLamports::deserialize(&written),
        Ok(PrioritizationFeeLamports::Disabled)
    );
}

#[test]
fn prioritization_fee_default_is_auto() {
    assert_eq!(PrioritizationFeeLamports::default(), PrioritizationFeeLamports::Auto);
}

#[test]
fn priority_level_without_global_is_not_global() {
    let j = object(vec![(
        "priorityLevelWithMaxLamports",
        object(vec![("priorityLevel", Json::string("high")), ("maxLamports", Json::unsigned(7))]),
    )]);
    assert_eq!(
        PrioritizationFeeLamports::deserialize(&j),
        Ok(PrioritizationFeeLamports::PriorityLevelWithMaxLamports {
            priority_level: PriorityLevel::High,
            max_lamports: 7,
            global: false,
        })
    );
}

#[test]
fn priority_level_shape_passes_over_other_members_in_any_order() {
    let j = object(vec![(
        "priorityLevelWithMaxLamports",
        object(vec![
            ("global", Json::Bool(true)),
            ("note", Json::string("x")),
            ("maxLamports", Json::unsigned(9)),
            ("priorityLevel", Json::string("veryHigh")),
        ]),
    )]);
    assert_eq!(
        PrioritizationFeeLamports::deserialize(&j),
        Ok(PrioritizationFeeLamports::PriorityLevelWithMaxLamports {
            priority_level: PriorityLevel::VeryHigh,
            max_lamports: 9,
            global: true,
        })
    );
}

#[test]
fn prioritization_fee_rejects_what_has_no_shape() {
    for j in [
        Json::Null,
        Json::Bool(false),
        Json::string("Auto"),
        Json::string("Disabled"),
        Json::string("medium"),
        Json::Number(Number::Negative(-5)),
        Json::Number(Number::Binary64(2.5f64.to_bits())),
        Json::Array(vec![Json::unsigned(1)]),
        object(vec![]),
        object(vec![("autoMultiplier", Json::unsigned(u32::MAX as u64 + 1))]),
        object(vec![("autoMultiplier", Json::string("3"))]),
        object(vec![("AutoMultiplier", Json::unsigned(3))]),
        object(vec![("jitoTipLamports", Json::Number(Number::Negative(-1)))]),
        object(vec![("autoMultiplier", Json::unsigned(3)), ("jitoTipLamports", Json::unsigned(3))]),
        object(vec![("lamports", Json::unsigned(3))]),
        object(vec![("priorityLevelWithMaxLamports", Json::unsigned(3))]),
        object(vec![(
            "priorityLevelWithMaxLamports",
            object(vec![("priorityLevel", Json::string("high"))]),
        )]),
        object(vec![(
            "priorityLevelWithMaxLamports",
            object(vec![("maxLamports", Json::unsigned(3))]),
        )]),
        level_with_cap("High", 1, false),
        object(vec![(
            "priorityLevelWithMaxLamports",
            object(vec![
                ("priorityLevel", Json::string("high")),
                ("maxLamports", Json::unsigned(3)),
                ("global", Json::Null),
            ]),
        )]),
    ] {
        assert_eq!(PrioritizationFeeLamports::deserialize(&j), Err(unrecognized()), "{:?}", j);
    }
}

#[test]
fn auto_multiplier_takes_the_largest_u32() {
    let j = object(vec![("autoMultiplier", Json::unsigned(u32::MAX as u64))]);
    assert_eq!(
        PrioritizationFeeLamports::deserialize(&j),
        Ok(PrioritizationFeeLamports::AutoMultiplier(u32::MAX))
    );
}

#[test]
fn auto_probe_takes_the_word_only() {
    assert_eq!(transaction_config::auto(&Json::string("auto")), Ok(()));
    assert_eq!(
        transaction_config::auto(&Json::string("disabled")),
        Err(DecodeError { kind: ErrorKind::UnrecognizedVariant, field: "" })
    );
    assert_eq!(
        transaction_config::auto(&Json::unsigned(1)),
        Err(DecodeError { kind: ErrorKind::UnexpectedType, field: "" })
    );
}

#[test]
fn disabled_probe_takes_the_word_only() {
    assert_eq!(transaction_config::disabled(&Json::string("disabled")), Ok(()));
    assert_eq!(
        transaction_config::disabled(&Json::string("auto")),
        Err(DecodeError { kind: ErrorKind::UnrecognizedVariant, field: "" })
    );
    assert_eq!(
        transaction_config::disabled(&Json::Null),
        Err(DecodeError { kind: ErrorKind::UnexpectedType, field: "" })
    );
}

#[test]
fn priority_level_names() {
    assert_eq!(PriorityLevel::Medium.serialize(), Json::string("medium"));
    assert_eq!(PriorityLevel::High.serialize(), Json::string("high"));
    assert_eq!(PriorityLevel::VeryHigh.serialize(), Json::string("veryHigh"));
    assert_eq!(PriorityLevel::deserialize(&Json::string("veryHigh")), Ok(PriorityLevel::VeryHigh));
    assert_eq!(
        PriorityLevel::deserialize(&Json::string("VeryHigh")),
        Err(DecodeError { kind: ErrorKind::UnrecognizedVariant, field: "" })
    );
    assert_eq!(
        PriorityLevel::deserialize(&Json::unsigned(1)),
        Err(DecodeError { kind: ErrorKind::UnexpectedType, field: "" })
    );
}
