//! The route of a quote: the steps as the service writes them, and the legs
//! as a caller reads them.

use vstd::prelude::*;

verus! {

/// What the service tells of one swap on one market.
#[derive(Clone, Debug, PartialEq, Eq)]
pub struct SwapInfo {
    pub amm_key: String,
    pub label: String,
    pub input_mint: String,
    pub output_mint: String,
    pub in_amount: u64,
    pub out_amount: u64,
    pub fee_amount: u64,
    pub fee_mint: String,
}

/// One step of a route on the wire: the swap, and the share of the volume
/// that goes through it, in percent.
#[derive(Clone, Debug, PartialEq, Eq)]
pub struct RoutePlanStep {
    pub swap_info: SwapInfo,
    pub percent: u8,
}

/// A route on the wire: its steps in the order in which they are executed.
#[derive(Clone, Debug, PartialEq, Eq)]
pub struct RoutePlanWithMetadata {
    pub steps: Vec<RoutePlanStep>,
}

/// A market that a leg trades on.
#[derive(Clone, Debug, PartialEq, Eq)]
pub struct Market {
    pub amm_key: String,
    pub label: String,
}

/// One leg of a route as a caller reads it: a market, what is swapped there,
/// and the share of the volume that goes through it, in percent.
#[derive(Clone, Debug, PartialEq, Eq)]
pub struct RouteLeg {
    pub market: Market,
    pub input_mint: String,
    pub output_mint: String,
    pub in_amount: u64,
    pub out_amount: u64,
    pub fee_amount: u64,
    pub fee_mint: String,
    pub percent: u8,
}

/// A route as a caller reads it: its legs in the order in which they are
/// executed.
#[derive(Clone, Debug, PartialEq, Eq)]
pub struct RoutePlan {
    pub legs: Vec<RouteLeg>,
}

/// The leg that a step of the wire stands for.
pub open spec fn leg_of(step: RoutePlanStep) -> RouteLeg {
    RouteLeg {
        market: Market { amm_key: step.swap_info.amm_key, label: step.swap_info.label },
        input_mint: step.swap_info.input_mint,
        output_mint: step.swap_info.output_mint,
        in_amount: step.swap_info.in_amount,
        out_amount: step.swap_info.out_amount,
        fee_amount: step.swap_info.fee_amount,
        fee_mint: step.swap_info.fee_mint,
        percent: step.percent,
    }
}

/// The step of the wire that stands for a leg.
pub open spec fn step_of(leg: RouteLeg) -> RoutePlanStep {
    RoutePlanStep {
        swap_info: SwapInfo {
            amm_key: leg.market.amm_key,
            label: leg.market.label,
            input_mint: leg.input_mint,
            output_mint: leg.output_mint,
            in_amount: leg.in_amount,
            out_amount: leg.out_amount,
            fee_amount: leg.fee_amount,
            fee_mint: leg.fee_mint,
        },
        percent: leg.percent,
    }
}

/// The legs of a sequence of steps: one for each, in the same order.
pub open spec fn legs_of(steps: Seq<RoutePlanStep>) -> Seq<RouteLeg> {
    steps.map_values(|step: RoutePlanStep| leg_of(step))
}

/// The steps of a sequence of legs: one for each, in the same order.
pub open spec fn steps_of(legs: Seq<RouteLeg>) -> Seq<RoutePlanStep> {
    legs.map_values(|leg: RouteLeg| step_of(leg))
}

impl From<RoutePlanStep> for RouteLeg {
    /// Decodes one step.
    fn from(step: RoutePlanStep) -> (leg: RouteLeg)
        ensures
            leg == leg_of(step),
    {
        RouteLeg {
            market: Market { amm_key: step.swap_info.amm_key, label: step.swap_info.label },
            input_mint: step.swap_info.input_mint,
            output_mint: step.swap_info.output_mint,
            in_amount: step.swap_info.in_amount,
            out_amount: step.swap_info.out_amount,
            fee_amount: step.swap_info.fee_amount,
            fee_mint: step.swap_info.fee_mint,
            percent: step.percent,
        }
    }
}

impl vstd::std_specs::convert::FromSpecImpl<RoutePlanStep> for RouteLeg {
    open spec fn obeys_from_spec() -> bool {
        true
    }

    open spec fn from_spec(step: RoutePlanStep) -> RouteLeg {
        leg_of(step)
    }
}

impl From<RouteLeg> for RoutePlanStep {
    /// Encodes one leg.
    fn from(leg: RouteLeg) -> (step: RoutePlanStep)
        ensures
            step == step_of(leg),
    {
        RoutePlanStep {
            swap_info: SwapInfo {
                amm_key: leg.market.amm_key,
                label: leg.market.label,
                input_mint: leg.input_mint,
                output_mint: leg.output_mint,
                in_amount: leg.in_amount,
                out_amount: leg.out_amount,
                fee_amount: leg.fee_amount,
                fee_mint: leg.fee_mint,
            },
            percent: leg.percent,
        }
    }
}

impl vstd::std_specs::convert::FromSpecImpl<RouteLeg> for RoutePlanStep {
    open spec fn obeys_from_spec() -> bool {
        true
    }

    open spec fn from_spec(leg: RouteLeg) -> RoutePlanStep {
        step_of(leg)
    }
}

impl From<RoutePlanWithMetadata> for RoutePlan {
    /// Decodes a route: every step becomes its leg, in the same place.
    fn from(wire: RoutePlanWithMetadata) -> (plan: RoutePlan)
        ensures
            plan.legs@ == legs_of(wire.steps@),
            plan.legs@.len() == wire.steps@.len(),
            forall|i: int|
                0 <= i < wire.steps@.len() ==> (#[trigger] plan.legs@[i]).percent
                    == wire.steps@[i].percent,
    {
        let mut legs: Vec<RouteLeg> = Vec::new();
        let ghost steps = wire.steps@;
        for step in iter: wire.steps
            invariant
                iter.seq() == steps,
                legs@ == legs_of(steps.take(iter.index() as int)),
        {
            let leg = RouteLeg::from(step);
            legs.push(leg);
            assert(legs@ =~= legs_of(steps.take(iter.index() + 1)));
        }
        assert(steps.take(steps.len() as int) =~= steps);
        RoutePlan { legs }
    }
}

impl vstd::std_specs::convert::FromSpecImpl<RoutePlanWithMetadata> for RoutePlan {
    /// The conversion builds a new list, which no specification value can
    /// name: its contract is the one on `from`.
    open spec fn obeys_from_spec() -> bool {
        false
    }

    open spec fn from_spec(wire: RoutePlanWithMetadata) -> RoutePlan {
        arbitrary()
    }
}

impl From<RoutePlan> for RoutePlanWithMetadata {
    /// Encodes a route: every leg becomes its step, in the same place.
    fn from(plan: RoutePlan) -> (wire: RoutePlanWithMetadata)
        ensures
            wire.steps@ == steps_of(plan.legs@),
            wire.steps@.len() == plan.legs@.len(),
            forall|i: int|
                0 <= i < plan.legs@.len() ==> (#[trigger] wire.steps@[i]).percent
                    == plan.legs@[i].percent,
    {
        let mut steps: Vec<RoutePlanStep> = Vec::new();
        let ghost legs = plan.legs@;
        for leg in iter: plan.legs
            invariant
                iter.seq() == legs,
                steps@ == steps_of(legs.take(iter.index() as int)),
        {
            let step = RoutePlanStep::from(leg);
            steps.push(step);
            assert(steps@ =~= steps_of(legs.take(iter.index() + 1)));
        }
        assert(legs.take(legs.len() as int) =~= legs);
        RoutePlanWithMetadata { steps }
    }
}

impl vstd::std_specs::convert::FromSpecImpl<RoutePlan> for RoutePlanWithMetadata {
    /// The conversion builds a new list, which no specification value can
    /// name: its contract is the one on `from`.
    open spec fn obeys_from_spec() -> bool {
        false
    }

    open spec fn from_spec(plan: RoutePlan) -> RoutePlanWithMetadata {
        arbitrary()
    }
}

/// Decoding undoes encoding: the legs of the steps of a route are the route,
/// leg for leg, so the number of legs, their order and the share of each are
/// as they were.
pub proof fn lemma_encode_then_decode(legs: Seq<RouteLeg>)
    ensures
        legs_of(steps_of(legs)) == legs,
        steps_of(legs).len() == legs.len(),
        forall|i: int| 0 <= i < legs.len() ==> (#[trigger] steps_of(legs)[i]).percent == legs[i].percent,
{
    assert(legs_of(steps_of(legs)) =~= legs);
}

/// Encoding undoes decoding: the steps of the legs of a wire route are that
/// route, step for step, with every field that the service wrote.
pub proof fn lemma_decode_then_encode(steps: Seq<RoutePlanStep>)
    ensures
        steps_of(legs_of(steps)) == steps,
        legs_of(steps).len() == steps.len(),
        forall|i: int|
            0 <= i < steps.len() ==> (#[trigger] legs_of(steps)[i]).percent == steps[i].percent,
{
    assert(steps_of(legs_of(steps)) =~= steps);
}

} // verus!
