use jupiter_swap_api_client::route_plan_with_metadata::{
    Market, RouteLeg, RoutePlan, RoutePlanStep, RoutePlanWithMetadata, SwapInfo,
};
use jupiter_swap_api_client::swap::{
    AccountMeta, Instruction, SwapInstructionsResponse, SwapInstructionsResponseInternal,
};
use jupiter_swap_api_client::{normalized, ClientError};

fn step(label: &str, in_amount: u64, out_amount: u64, percent: u8) -> RoutePlanStep {
    RoutePlanStep {
        swap_info: SwapInfo {
            amm_key: format!("amm-{label}"),
            label: label.to_string(),
            input_mint: format!("in-{label}"),
            output_mint: format!("out-{label}"),
            in_amount,
            out_amount,
            fee_amount: 7,
            fee_mint: format!("fee-{label}"),
        },
        percent,
    }
}

fn leg(label: &str, in_amount: u64, out_amount: u64, percent: u8) -> RouteLeg {
    RouteLeg {
        market: Market { amm_key: format!("amm-{label}"), label: label.to_string() },
        input_mint: format!("in-{label}"),
        output_mint: format!("out-{label}"),
        in_amount,
        out_amount,
        fee_amount: 7,
        fee_mint: format!("fee-{label}"),
        percent,
    }
}

fn instruction(name: &str) -> Instruction {
    Instruction {
        program_id: format!("program-{name}"),
        accounts: vec![
            AccountMeta { pubkey: format!("payer-{name}"), is_signer: true, is_writable: true },
            AccountMeta { pubkey: format!("pool-{name}"), is_signer: false, is_writable: false },
        ],
        data: format!("data-{name}"),
    }
}

fn full_groups() -> SwapInstructionsResponseInternal {
    SwapInstructionsResponseInternal {
        compute_budget_instructions: vec![instruction("limit"), instruction("price")],
        setup_instructions: vec![instruction("create-ata")],
        token_ledger_instruction: Some(instruction("ledger")),
        swap_instruction: instruction("swap"),
        cleanup_instruction: Some(instruction("unwrap")),
        other_instructions: vec![instruction("tip-1"), instruction("tip-2")],
        address_lookup_table_addresses: vec!["table-1".to_string(), "table-2".to_string()],
        prioritization_fee_lamports: 5_000,
        compute_unit_limit: 1_400_000,
    }
}

#[test]
fn a_step_becomes_its_leg() {
    assert_eq!(RouteLeg::from(step("Orca", 100, 90, 60)), leg("Orca", 100, 90, 60));
}

#[test]
fn a_leg_becomes_its_step() {
    assert_eq!(RoutePlanStep::from(leg("Orca", 100, 90, 60)), step("Orca", 100, 90, 60));
}

#[test]
fn decoding_a_route_keeps_count_order_and_shares() {
    let wire = RoutePlanWithMetadata {
        steps: vec![step("Orca", 600, 55, 60), step("Raydium", 400, 36, 40), step("Phoenix", 91, 90, 100)],
    };
    let plan = RoutePlan::from(wire);
    assert_eq!(
        plan.legs,
        vec![leg("Orca", 600, 55, 60), leg("Raydium", 400, 36, 40), leg("Phoenix", 91, 90, 100)]
    );
    let shares: Vec<u8> = plan.legs.iter().map(|leg| leg.percent).collect();
    assert_eq!(shares, vec![60, 40, 100]);
}

#[test]
fn encoding_then_decoding_a_route_gives_the_route() {
    let plan = RoutePlan {
        legs: vec![leg("Orca", 600, 55, 60), leg("Raydium", 400, 36, 40), leg("Phoenix", 91, 90, 100)],
    };
    let wire = RoutePlanWithMetadata::from(plan.clone());
    assert_eq!(wire.steps.len(), 3);
    assert_eq!(wire.steps[1].percent, 40);
    assert_eq!(RoutePlan::from(wire), plan);
}

#[test]
fn decoding_then_encoding_a_route_gives_the_wire_route() {
    let wire = RoutePlanWithMetadata {
        steps: vec![step("a", 0, 0, 0), step("b", u64::MAX, u64::MAX, 255)],
    };
    assert_eq!(RoutePlanWithMetadata::from(RoutePlan::from(wire.clone())), wire);
}

#[test]
fn the_empty_route_converts_to_the_empty_route() {
    assert_eq!(RoutePlan::from(RoutePlanWithMetadata { steps: vec![] }), RoutePlan { legs: vec![] });
    assert_eq!(
        RoutePlanWithMetadata::from(RoutePlan { legs: vec![] }),
        RoutePlanWithMetadata { steps: vec![] }
    );
}

#[test]
fn instructions_come_out_as_one_list_in_order() {
    let response = SwapInstructionsResponse::from(full_groups());
    assert_eq!(response.instructions.len(), 8);
    assert_eq!(
        response.instructions,
        vec![
            instruction("limit"),
            instruction("price"),
            instruction("create-ata"),
            instruction("ledger"),
            instruction("swap"),
            instruction("unwrap"),
            instruction("tip-1"),
            instruction("tip-2"),
        ]
    );
}

#[test]
fn normalizing_keeps_the_other_fields() {
    let response = SwapInstructionsResponse::from(full_groups());
    assert_eq!(
        response.address_lookup_table_addresses,
        vec!["table-1".to_string(), "table-2".to_string()]
    );
    assert_eq!(response.prioritization_fee_lamports, 5_000);
    assert_eq!(response.compute_unit_limit, 1_400_000);
}

#[test]
fn the_swap_instruction_alone_gives_a_list_of_one() {
    let internal = SwapInstructionsResponseInternal {
        compute_budget_instructions: vec![],
        setup_instructions: vec![],
        token_ledger_instruction: None,
        swap_instruction: instruction("swap"),
        cleanup_instruction: None,
        other_instructions: vec![],
        address_lookup_table_addresses: vec![],
        prioritization_fee_lamports: 0,
        compute_unit_limit: 0,
    };
    let response = SwapInstructionsResponse::from(internal);
    assert_eq!(response.instructions, vec![instruction("swap")]);
}

#[test]
fn absent_optional_instructions_leave_no_gap() {
    let mut internal = full_groups();
    internal.token_ledger_instruction = None;
    internal.cleanup_instruction = None;
    let response: SwapInstructionsResponse = internal.into();
    assert_eq!(
        response.instructions,
        vec![
            instruction("limit"),
            instruction("price"),
            instruction("create-ata"),
            instruction("swap"),
            instruction("tip-1"),
            instruction("tip-2"),
        ]
    );
}

#[test]
fn a_decoded_answer_is_normalized() {
    let result = normalized(Ok(full_groups()));
    assert_eq!(result.unwrap(), SwapInstructionsResponse::from(full_groups()));
}

#[test]
fn an_undecodable_answer_is_a_deserialization_error() {
    let result = normalized(Err("missing field `swapInstruction`".to_string()));
    match result {
        Err(ClientError::DeserializationError(text)) => {
            assert_eq!(text, "missing field `swapInstruction`")
        }
        other => panic!("unexpected: {other:?}"),
    }
}
