use jupiter_swap_api_client::extra_args::ExtraArgs;
use jupiter_swap_api_client::transaction_config::{BodyValue, ComputeUnitPrice, TransactionConfig};

fn flag(name: &str, value: bool) -> (String, BodyValue) {
    (name.to_string(), BodyValue::Flag(value))
}

fn number(name: &str, value: u64) -> (String, BodyValue) {
    (name.to_string(), BodyValue::Number(value))
}

fn text(name: &str, value: &str) -> (String, BodyValue) {
    (name.to_string(), BodyValue::Text(value.to_string()))
}

fn bare_config() -> TransactionConfig {
    TransactionConfig {
        wrap_and_unwrap_sol: false,
        create_destination_token_account: false,
        fee_payer: None,
        fee_account: None,
        compute_unit_price: None,
        dynamic_compute_unit_limit: false,
        extensions: ExtraArgs::new(),
    }
}

#[test]
fn a_bare_configuration_gives_its_three_flags() {
    assert_eq!(
        bare_config().members(),
        vec![
            flag("wrapAndUnwrapSol", false),
            flag("createDestinationTokenAccount", false),
            flag("dynamicComputeUnitLimit", false),
        ]
    );
}

#[test]
fn accounts_that_are_present_are_members() {
    let mut config = bare_config();
    config.wrap_and_unwrap_sol = true;
    config.fee_payer = Some("Payer111".to_string());
    config.fee_account = Some("Fee111".to_string());
    assert_eq!(
        config.members(),
        vec![
            flag("wrapAndUnwrapSol", true),
            flag("createDestinationTokenAccount", false),
            text("feePayer", "Payer111"),
            text("feeAccount", "Fee111"),
            flag("dynamicComputeUnitLimit", false),
        ]
    );
}

#[test]
fn a_fixed_price_is_one_number() {
    let mut config = bare_config();
    config.compute_unit_price = Some(ComputeUnitPrice::Fixed(25_000));
    assert_eq!(
        config.members(),
        vec![
            flag("wrapAndUnwrapSol", false),
            flag("createDestinationTokenAccount", false),
            number("computeUnitPriceMicroLamports", 25_000),
            flag("dynamicComputeUnitLimit", false),
        ]
    );
}

#[test]
fn an_estimated_price_is_the_word_auto_and_the_cap() {
    let mut config = bare_config();
    config.compute_unit_price = Some(ComputeUnitPrice::Auto { cap_lamports: u64::MAX });
    config.dynamic_compute_unit_limit = true;
    assert_eq!(
        config.members(),
        vec![
            flag("wrapAndUnwrapSol", false),
            flag("createDestinationTokenAccount", false),
            text("computeUnitPriceMicroLamports", "auto"),
            number("computeUnitPriceCapLamports", u64::MAX),
            flag("dynamicComputeUnitLimit", true),
        ]
    );
}

#[test]
fn extensions_follow_the_known_options_as_they_were_written() {
    let mut config = bare_config();
    config.extensions.insert("useSharedAccounts".to_string(), "true".to_string());
    config.extensions.insert("a new option".to_string(), "{\"x\": 1}".to_string());
    config.extensions.insert("useSharedAccounts".to_string(), "false".to_string());
    assert_eq!(
        config.members(),
        vec![
            flag("wrapAndUnwrapSol", false),
            flag("createDestinationTokenAccount", false),
            flag("dynamicComputeUnitLimit", false),
            text("useSharedAccounts", "false"),
            text("a new option", "{\"x\": 1}"),
        ]
    );
}

#[test]
fn an_extension_named_like_a_known_option_is_still_sent() {
    let mut config = bare_config();
    config.extensions.insert("feePayer".to_string(), "someone".to_string());
    let members = config.members();
    assert_eq!(members.len(), 4);
    assert_eq!(members[3], text("feePayer", "someone"));
}
