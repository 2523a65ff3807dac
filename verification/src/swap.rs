//! Swap requests, and what the service answers to them: a whole transaction,
//! or the instructions to build one from.

use crate::quote::QuoteResponse;
use crate::transaction_config::{config_members, members_of, BodyValue, TransactionConfig};
use vstd::prelude::*;

verus! {

/// A request to turn a quote into a transaction for one user.
#[derive(Clone, Debug, PartialEq, Eq)]
pub struct SwapRequest {
    /// The address of the user who pays and signs.
    pub user_public_key: String,
    /// The quote, as the service gave it.
    pub quote_response: QuoteResponse,
    pub config: TransactionConfig,
}

/// The body of the request that carries a swap request: the user and the
/// quote as they are, and the configuration as the members that it adds.
#[derive(Clone, Debug, PartialEq, Eq)]
pub struct SwapBody<'a> {
    pub user_public_key: &'a String,
    pub quote_response: &'a QuoteResponse,
    /// The members of the configuration, the open-ended ones last.
    pub config: Vec<(String, BodyValue)>,
}

/// `body` is the body that carries `request`.
pub open spec fn is_body_of(body: SwapBody, request: &SwapRequest) -> bool {
    &&& *body.user_public_key == request.user_public_key
    &&& *body.quote_response == request.quote_response
    &&& members_of(body.config@) == config_members(request.config@)
}

impl SwapRequest {
    /// The body that carries this request.
    pub fn body(&self) -> (body: SwapBody<'_>)
        ensures
            is_body_of(body, self),
    {
        SwapBody {
            user_public_key: &self.user_public_key,
            quote_response: &self.quote_response,
            config: self.config.members(),
        }
    }
}

/// The transaction of a swap.
#[derive(Clone, Debug, PartialEq, Eq)]
pub struct SwapResponse {
    /// The transaction, in base64 as the service sent it.
    pub swap_transaction: String,
    /// The last block height at which the transaction can still land.
    pub last_valid_block_height: u64,
    pub prioritization_fee_lamports: u64,
}

/// An account that an instruction touches.
#[derive(Clone, Debug, PartialEq, Eq)]
pub struct AccountMeta {
    pub pubkey: String,
    pub is_signer: bool,
    pub is_writable: bool,
}

/// One instruction of a transaction.
#[derive(Clone, Debug, PartialEq, Eq)]
pub struct Instruction {
    pub program_id: String,
    pub accounts: Vec<AccountMeta>,
    /// The instruction's data, in base64 as the service sent it.
    pub data: String,
}

/// The instructions of a swap as the service sends them: in groups, by what
/// they are for.
#[derive(Clone, Debug, PartialEq, Eq)]
pub struct SwapInstructionsResponseInternal {
    pub compute_budget_instructions: Vec<Instruction>,
    pub setup_instructions: Vec<Instruction>,
    pub token_ledger_instruction: Option<Instruction>,
    pub swap_instruction: Instruction,
    pub cleanup_instruction: Option<Instruction>,
    pub other_instructions: Vec<Instruction>,
    pub address_lookup_table_addresses: Vec<String>,
    pub prioritization_fee_lamports: u64,
    pub compute_unit_limit: u32,
}

/// The instructions of a swap as a caller uses them: one list, in the order
/// in which they are to be executed.
#[derive(Clone, Debug, PartialEq, Eq)]
pub struct SwapInstructionsResponse {
    pub instructions: Vec<Instruction>,
    pub address_lookup_table_addresses: Vec<String>,
    pub prioritization_fee_lamports: u64,
    pub compute_unit_limit: u32,
}

/// An optional instruction as a list of none or one.
pub open spec fn optional_instruction(instruction: Option<Instruction>) -> Seq<Instruction> {
    match instruction {
        Some(i) => seq![i],
        None => Seq::empty(),
    }
}

/// Every instruction of the groups, in the order in which the service sends
/// the groups, and within a group in the order of the group.
pub open spec fn instruction_order(internal: SwapInstructionsResponseInternal) -> Seq<
    Instruction,
> {
    internal.compute_budget_instructions@ + internal.setup_instructions@ + optional_instruction(
        internal.token_ledger_instruction,
    ) + seq![internal.swap_instruction] + optional_instruction(internal.cleanup_instruction)
        + internal.other_instructions@
}

/// The number of instructions in the groups.
pub open spec fn instruction_count(internal: SwapInstructionsResponseInternal) -> nat {
    internal.compute_budget_instructions@.len() + internal.setup_instructions@.len()
        + optional_instruction(internal.token_ledger_instruction).len() + 1 + optional_instruction(
        internal.cleanup_instruction,
    ).len() + internal.other_instructions@.len()
}

/// `response` says what `internal` says, with the groups of `internal` as
/// one list in their order.
pub open spec fn flattens(
    response: SwapInstructionsResponse,
    internal: SwapInstructionsResponseInternal,
) -> bool {
    &&& response.instructions@ == instruction_order(internal)
    &&& response.address_lookup_table_addresses == internal.address_lookup_table_addresses
    &&& response.prioritization_fee_lamports == internal.prioritization_fee_lamports
    &&& response.compute_unit_limit == internal.compute_unit_limit
}

/// The list of a flattened answer has as many instructions as the groups
/// that it was made from.
pub proof fn lemma_flattening_keeps_the_count(
    response: SwapInstructionsResponse,
    internal: SwapInstructionsResponseInternal,
)
    requires
        flattens(response, internal),
    ensures
        response.instructions@.len() == instruction_count(internal),
{
}

/// In a flattened answer the instructions of a group stand in the order of
/// the group, and the groups in their order: the compute budget, the setup,
/// the token ledger, the swap, the cleanup, the rest.
pub proof fn lemma_flattening_keeps_the_order(
    response: SwapInstructionsResponse,
    internal: SwapInstructionsResponseInternal,
)
    requires
        flattens(response, internal),
    ensures
        forall|i: int|
            0 <= i < internal.compute_budget_instructions@.len() ==> response.instructions@[i]
                == internal.compute_budget_instructions@[i],
        forall|i: int|
            0 <= i < internal.setup_instructions@.len() ==> response.instructions@[
                internal.compute_budget_instructions@.len() + i
            ] == internal.setup_instructions@[i],
        response.instructions@[swap_position(internal)] == internal.swap_instruction,
        internal.token_ledger_instruction matches Some(ledger) ==> response.instructions@[
            swap_position(internal) - 1
        ] == ledger,
        internal.cleanup_instruction matches Some(cleanup) ==> response.instructions@[
            swap_position(internal) + 1
        ] == cleanup,
        forall|i: int|
            0 <= i < internal.other_instructions@.len() ==> response.instructions@[
                instruction_count(internal) - internal.other_instructions@.len() + i
            ] == internal.other_instructions@[i],
{
}

/// Where the swap instruction stands in the flattened list.
pub open spec fn swap_position(internal: SwapInstructionsResponseInternal) -> int {
    (internal.compute_budget_instructions@.len() + internal.setup_instructions@.len()
        + optional_instruction(internal.token_ledger_instruction).len()) as int
}

fn push_optional_instruction(instructions: &mut Vec<Instruction>, instruction: Option<Instruction>)
    ensures
        final(instructions)@ == old(instructions)@ + optional_instruction(instruction),
{
    let ghost before = instructions@;
    match instruction {
        Some(i) => {
            instructions.push(i);
            assert(instructions@ =~= before + seq![i]);
        },
        None => {
            assert(instructions@ =~= before + Seq::<Instruction>::empty());
        },
    }
}

impl From<SwapInstructionsResponseInternal> for SwapInstructionsResponse {
    /// Flattens the groups into one list and keeps the rest.
    fn from(internal: SwapInstructionsResponseInternal) -> (response: SwapInstructionsResponse)
        ensures
            flattens(response, internal),
            response.instructions@.len() == instruction_count(internal),
    {
        let mut instructions = internal.compute_budget_instructions;
        let mut setup = internal.setup_instructions;
        let mut other = internal.other_instructions;
        instructions.append(&mut setup);
        push_optional_instruction(&mut instructions, internal.token_ledger_instruction);
        let ghost before = instructions@;
        instructions.push(internal.swap_instruction);
        assert(instructions@ =~= before + seq![internal.swap_instruction]);
        push_optional_instruction(&mut instructions, internal.cleanup_instruction);
        instructions.append(&mut other);
        SwapInstructionsResponse {
            instructions,
            address_lookup_table_addresses: internal.address_lookup_table_addresses,
            prioritization_fee_lamports: internal.prioritization_fee_lamports,
            compute_unit_limit: internal.compute_unit_limit,
        }
    }
}

impl vstd::std_specs::convert::FromSpecImpl<SwapInstructionsResponseInternal> for SwapInstructionsResponse {
    /// The conversion builds a new list, which no specification value can
    /// name: its contract is the one on `from`.
    open spec fn obeys_from_spec() -> bool {
        false
    }

    open spec fn from_spec(internal: SwapInstructionsResponseInternal) -> SwapInstructionsResponse {
        arbitrary()
    }
}

} // verus!
