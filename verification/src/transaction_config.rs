//! How the service is to build the transaction of a swap, and how that is
//! said in the body of a request.
//!
//! The configuration has the options that the client knows and a mapping for
//! those that it does not. In the body both are members of one object: first
//! the known options under their wire names, then the mapping, each key with
//! its value as the caller wrote them.

use crate::extra_args::{pairs_of, ExtraArgs, Pairs};
use crate::text::optional_text;
use vstd::prelude::*;
use vstd::string::StringExecFns;

verus! {

/// How the price of a compute unit is set.
#[derive(Clone, Copy, Debug, PartialEq, Eq)]
pub enum ComputeUnitPrice {
    /// This many micro-lamports for each compute unit.
    Fixed(u64),
    /// Whatever the service estimates, up to a cap in lamports.
    Auto { cap_lamports: u64 },
}

/// The options of transaction building that the client knows, and a mapping
/// for those that it does not.
#[derive(Clone, Debug, PartialEq, Eq)]
pub struct TransactionConfig {
    /// Wrap the native asset before the swap and unwrap it after.
    pub wrap_and_unwrap_sol: bool,
    /// Create the destination token account where it is missing.
    pub create_destination_token_account: bool,
    /// The account that pays the fees, where it is not the user.
    pub fee_payer: Option<String>,
    /// The account that collects the platform fee.
    pub fee_account: Option<String>,
    /// No priority fee where `None`.
    pub compute_unit_price: Option<ComputeUnitPrice>,
    /// Let the service size the compute-unit limit by simulation.
    pub dynamic_compute_unit_limit: bool,
    /// Options that the service knows and this client does not.
    pub extensions: ExtraArgs,
}

/// The value of one member of a request body.
#[derive(Clone, Debug, PartialEq, Eq)]
pub enum BodyValue {
    Flag(bool),
    Number(u64),
    Text(String),
}

/// What a [`BodyValue`] holds.
pub enum BodyValueView {
    Flag(bool),
    Number(u64),
    Text(Seq<char>),
}

impl View for BodyValue {
    type V = BodyValueView;

    open spec fn view(&self) -> BodyValueView {
        match self {
            BodyValue::Flag(flag) => BodyValueView::Flag(*flag),
            BodyValue::Number(number) => BodyValueView::Number(*number),
            BodyValue::Text(text) => BodyValueView::Text(text@),
        }
    }
}

/// Members of a JSON object as mathematics: names and values, in order.
pub type Members = Seq<(Seq<char>, BodyValueView)>;

/// The members that a list of named values stands for.
pub open spec fn members_of(entries: Seq<(String, BodyValue)>) -> Members {
    entries.map_values(|entry: (String, BodyValue)| (entry.0@, entry.1@))
}

/// What a [`TransactionConfig`] holds.
pub struct TransactionConfigView {
    pub wrap_and_unwrap_sol: bool,
    pub create_destination_token_account: bool,
    pub fee_payer: Option<Seq<char>>,
    pub fee_account: Option<Seq<char>>,
    pub compute_unit_price: Option<ComputeUnitPrice>,
    pub dynamic_compute_unit_limit: bool,
    pub extensions: Pairs,
}

impl View for TransactionConfig {
    type V = TransactionConfigView;

    open spec fn view(&self) -> TransactionConfigView {
        TransactionConfigView {
            wrap_and_unwrap_sol: self.wrap_and_unwrap_sol,
            create_destination_token_account: self.create_destination_token_account,
            fee_payer: optional_text(self.fee_payer),
            fee_account: optional_text(self.fee_account),
            compute_unit_price: self.compute_unit_price,
            dynamic_compute_unit_limit: self.dynamic_compute_unit_limit,
            extensions: self.extensions@,
        }
    }
}

/// One member.
pub open spec fn member(name: Seq<char>, value: BodyValueView) -> Members {
    seq![(name, value)]
}

/// The member of an optional account: none where there is no account.
pub open spec fn account_member(name: Seq<char>, account: Option<Seq<char>>) -> Members {
    match account {
        Some(address) => seq![(name, BodyValueView::Text(address))],
        None => Seq::empty(),
    }
}

/// The members that say how the price of a compute unit is set: none for no
/// priority fee, the price for a fixed price, and for an estimated price the
/// word `auto` and the cap.
pub open spec fn price_members(price: Option<ComputeUnitPrice>) -> Members {
    match price {
        None => Seq::empty(),
        Some(ComputeUnitPrice::Fixed(micro_lamports)) => seq![
            ("computeUnitPriceMicroLamports"@, BodyValueView::Number(micro_lamports)),
        ],
        Some(ComputeUnitPrice::Auto { cap_lamports }) => seq![
            ("computeUnitPriceMicroLamports"@, BodyValueView::Text("auto"@)),
            ("computeUnitPriceCapLamports"@, BodyValueView::Number(cap_lamports)),
        ],
    }
}

/// The members of the open-ended options: each key with its value as text,
/// in the order of the mapping.
pub open spec fn extension_members(extensions: Pairs) -> Members {
    extensions.map_values(|pair: (Seq<char>, Seq<char>)| (pair.0, BodyValueView::Text(pair.1)))
}

/// The members of the options that the client knows, in the order of the
/// fields.
pub open spec fn known_members(config: TransactionConfigView) -> Members {
    member("wrapAndUnwrapSol"@, BodyValueView::Flag(config.wrap_and_unwrap_sol)) + member(
        "createDestinationTokenAccount"@,
        BodyValueView::Flag(config.create_destination_token_account),
    ) + account_member("feePayer"@, config.fee_payer) + account_member(
        "feeAccount"@,
        config.fee_account,
    ) + price_members(config.compute_unit_price) + member(
        "dynamicComputeUnitLimit"@,
        BodyValueView::Flag(config.dynamic_compute_unit_limit),
    )
}

/// What a configuration adds to the body of a request: the known options,
/// then the open-ended ones.
pub open spec fn config_members(config: TransactionConfigView) -> Members {
    known_members(config) + extension_members(config.extensions)
}

/// The open-ended options of a configuration reach the service as they are:
/// each of them is a member of the body, behind the known options, at its
/// place in the mapping, with the key and the value that the caller wrote.
pub proof fn lemma_extensions_reach_body(config: TransactionConfigView, i: int)
    requires
        0 <= i < config.extensions.len(),
    ensures
        config_members(config)[known_members(config).len() + i] == (
            config.extensions[i].0,
            BodyValueView::Text(config.extensions[i].1),
        ),
        config_members(config).len() == known_members(config).len() + config.extensions.len(),
{
}

/// Adds one member at the end of `members`.
fn push_member(members: &mut Vec<(String, BodyValue)>, name: String, value: BodyValue)
    ensures
        members_of(final(members)@) == members_of(old(members)@) + member(name@, value@),
{
    let ghost before = members@;
    members.push((name, value));
    assert(members_of(members@) =~= members_of(before) + member(name@, value@));
}

/// Adds the member of an optional account at the end of `members`.
fn push_account(members: &mut Vec<(String, BodyValue)>, name: &str, account: &Option<String>)
    ensures
        members_of(final(members)@) == members_of(old(members)@) + account_member(
            name@,
            optional_text(*account),
        ),
{
    let ghost before = members@;
    match account {
        Some(address) => {
            push_member(members, String::from_str(name), BodyValue::Text(address.clone()));
        },
        None => {
            assert(members_of(before) + Seq::<(Seq<char>, BodyValueView)>::empty() =~= members_of(
                before,
            ));
        },
    }
}

/// Adds the members of the price of a compute unit at the end of `members`.
fn push_price(members: &mut Vec<(String, BodyValue)>, price: Option<ComputeUnitPrice>)
    ensures
        members_of(final(members)@) == members_of(old(members)@) + price_members(price),
{
    let ghost before = members@;
    match price {
        None => {
            assert(members_of(before) + Seq::<(Seq<char>, BodyValueView)>::empty() =~= members_of(
                before,
            ));
        },
        Some(ComputeUnitPrice::Fixed(micro_lamports)) => {
            push_member(
                members,
                String::from_str("computeUnitPriceMicroLamports"),
                BodyValue::Number(micro_lamports),
            );
        },
        Some(ComputeUnitPrice::Auto { cap_lamports }) => {
            push_member(
                members,
                String::from_str("computeUnitPriceMicroLamports"),
                BodyValue::Text(String::from_str("auto")),
            );
            push_member(
                members,
                String::from_str("computeUnitPriceCapLamports"),
                BodyValue::Number(cap_lamports),
            );
            assert(members_of(members@) =~= members_of(before) + price_members(price));
        },
    }
}

impl TransactionConfig {
    /// The members that this configuration adds to the body of a request.
    pub fn members(&self) -> (members: Vec<(String, BodyValue)>)
        ensures
            members_of(members@) == config_members(self@),
    {
        let mut members: Vec<(String, BodyValue)> = Vec::new();
        assert(members_of(members@) =~= Seq::<(Seq<char>, BodyValueView)>::empty());
        push_member(
            &mut members,
            String::from_str("wrapAndUnwrapSol"),
            BodyValue::Flag(self.wrap_and_unwrap_sol),
        );
        push_member(
            &mut members,
            String::from_str("createDestinationTokenAccount"),
            BodyValue::Flag(self.create_destination_token_account),
        );
        push_account(&mut members, "feePayer", &self.fee_payer);
        push_account(&mut members, "feeAccount", &self.fee_account);
        push_price(&mut members, self.compute_unit_price);
        push_member(
            &mut members,
            String::from_str("dynamicComputeUnitLimit"),
            BodyValue::Flag(self.dynamic_compute_unit_limit),
        );
        assert(members_of(members@) =~= known_members(self@));
        let extensions = self.extensions.to_pairs();
        let ghost pairs = pairs_of(extensions@);
        let ghost known = members_of(members@);
        let mut i: usize = 0;
        while i < extensions.len()
            invariant
                i <= extensions.len(),
                pairs_of(extensions@) == pairs,
                members_of(members@) == known + extension_members(pairs.take(i as int)),
            decreases extensions.len() - i,
        {
            let ghost before = members@;
            let key = extensions[i].0.clone();
            let value = extensions[i].1.clone();
            assert(pairs[i as int] == (key@, value@));
            push_member(&mut members, key, BodyValue::Text(value));
            assert(members_of(members@) =~= known + extension_members(pairs.take(i + 1)));
            i += 1;
        }
        assert(pairs.take(extensions.len() as int) =~= pairs);
        members
    }
}

} // verus!
