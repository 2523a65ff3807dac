//! Quote requests: what a caller asks for, and the shape in which the
//! service is asked.

use crate::extra_args::{pairs_of, ExtraArgs, Pairs};
use crate::route_plan_with_metadata::RoutePlanWithMetadata;
use crate::text::{
    comma, decimal, decimal_string, join_with_commas, joined, lemma_joined_tells_list,
    names_separable, optional_text, texts,
};
use vstd::string::StringExecFns;
use vstd::prelude::*;

verus! {

/// Which of the two amounts of a swap the caller fixes.
#[derive(Clone, Copy, Debug, PartialEq, Eq)]
pub enum SwapMode {
    ExactIn,
    ExactOut,
}

/// A request for a quote, as the caller writes it.
#[derive(Clone, Debug, PartialEq, Eq)]
pub struct QuoteRequest {
    /// The asset that is given.
    pub input_mint: String,
    /// The asset that is wanted.
    pub output_mint: String,
    /// The amount, in the smallest unit of the asset that `swap_mode` fixes.
    pub amount: u64,
    pub swap_mode: Option<SwapMode>,
    /// The slippage that the caller tolerates, in basis points.
    pub slippage_bps: u16,
    /// The fee that the caller's platform takes, in basis points.
    pub platform_fee_bps: Option<u8>,
    /// The account that collects the platform fee.
    pub fee_account: Option<String>,
    /// The only exchanges to route through.
    pub dexes: Option<Vec<String>>,
    /// Exchanges to keep out of the route.
    pub excluded_dexes: Option<Vec<String>>,
    pub only_direct_routes: Option<bool>,
    pub as_legacy_transaction: Option<bool>,
    pub restrict_intermediate_tokens: Option<bool>,
    /// The most accounts that the route may touch.
    pub max_accounts: Option<u64>,
    /// Arguments that the service knows and this client does not.
    pub quote_args: Option<ExtraArgs>,
}

/// A quote request in the shape of the query string: every modelled field of
/// a [`QuoteRequest`], a list of names as one string with commas.
#[derive(Clone, Debug, PartialEq, Eq)]
pub struct InternalQuoteRequest {
    pub input_mint: String,
    pub output_mint: String,
    pub amount: u64,
    pub swap_mode: Option<SwapMode>,
    pub slippage_bps: u16,
    pub platform_fee_bps: Option<u8>,
    pub fee_account: Option<String>,
    pub dexes: Option<String>,
    pub excluded_dexes: Option<String>,
    pub only_direct_routes: Option<bool>,
    pub as_legacy_transaction: Option<bool>,
    pub restrict_intermediate_tokens: Option<bool>,
    pub max_accounts: Option<u64>,
}

/// The fee that a platform takes from a swap.
#[derive(Clone, Copy, Debug, PartialEq, Eq)]
pub struct PlatformFee {
    pub amount: u64,
    pub fee_bps: u8,
}

/// A quote, as the service gives it.
#[derive(Clone, Debug, PartialEq, Eq)]
pub struct QuoteResponse {
    pub input_mint: String,
    pub in_amount: u64,
    pub output_mint: String,
    pub out_amount: u64,
    /// The least that the swap may give (or the most that it may take) within
    /// the slippage.
    pub other_amount_threshold: u64,
    pub swap_mode: SwapMode,
    pub slippage_bps: u16,
    pub platform_fee: Option<PlatformFee>,
    /// The price impact in percent, a decimal fraction as the service wrote it.
    pub price_impact_pct: String,
    pub route_plan: RoutePlanWithMetadata,
    /// The slot at which the quote was computed.
    pub context_slot: u64,
}

/// What a [`QuoteRequest`] holds.
pub struct QuoteRequestView {
    pub input_mint: Seq<char>,
    pub output_mint: Seq<char>,
    pub amount: u64,
    pub swap_mode: Option<SwapMode>,
    pub slippage_bps: u16,
    pub platform_fee_bps: Option<u8>,
    pub fee_account: Option<Seq<char>>,
    pub dexes: Option<Seq<Seq<char>>>,
    pub excluded_dexes: Option<Seq<Seq<char>>>,
    pub only_direct_routes: Option<bool>,
    pub as_legacy_transaction: Option<bool>,
    pub restrict_intermediate_tokens: Option<bool>,
    pub max_accounts: Option<u64>,
    pub quote_args: Option<Pairs>,
}

/// What an [`InternalQuoteRequest`] holds.
pub struct InternalQuoteRequestView {
    pub input_mint: Seq<char>,
    pub output_mint: Seq<char>,
    pub amount: u64,
    pub swap_mode: Option<SwapMode>,
    pub slippage_bps: u16,
    pub platform_fee_bps: Option<u8>,
    pub fee_account: Option<Seq<char>>,
    pub dexes: Option<Seq<char>>,
    pub excluded_dexes: Option<Seq<char>>,
    pub only_direct_routes: Option<bool>,
    pub as_legacy_transaction: Option<bool>,
    pub restrict_intermediate_tokens: Option<bool>,
    pub max_accounts: Option<u64>,
}

/// The texts of an optional list of strings.
pub open spec fn optional_texts(strings: Option<Vec<String>>) -> Option<Seq<Seq<char>>> {
    match strings {
        Some(list) => Some(texts(list@)),
        None => None,
    }
}

/// The pairs of an optional mapping.
pub open spec fn optional_pairs(args: Option<ExtraArgs>) -> Option<Pairs> {
    match args {
        Some(a) => Some(a@),
        None => None,
    }
}

impl View for QuoteRequest {
    type V = QuoteRequestView;

    open spec fn view(&self) -> QuoteRequestView {
        QuoteRequestView {
            input_mint: self.input_mint@,
            output_mint: self.output_mint@,
            amount: self.amount,
            swap_mode: self.swap_mode,
            slippage_bps: self.slippage_bps,
            platform_fee_bps: self.platform_fee_bps,
            fee_account: optional_text(self.fee_account),
            dexes: optional_texts(self.dexes),
            excluded_dexes: optional_texts(self.excluded_dexes),
            only_direct_routes: self.only_direct_routes,
            as_legacy_transaction: self.as_legacy_transaction,
            restrict_intermediate_tokens: self.restrict_intermediate_tokens,
            max_accounts: self.max_accounts,
            quote_args: optional_pairs(self.quote_args),
        }
    }
}

impl View for InternalQuoteRequest {
    type V = InternalQuoteRequestView;

    open spec fn view(&self) -> InternalQuoteRequestView {
        InternalQuoteRequestView {
            input_mint: self.input_mint@,
            output_mint: self.output_mint@,
            amount: self.amount,
            swap_mode: self.swap_mode,
            slippage_bps: self.slippage_bps,
            platform_fee_bps: self.platform_fee_bps,
            fee_account: optional_text(self.fee_account),
            dexes: optional_text(self.dexes),
            excluded_dexes: optional_text(self.excluded_dexes),
            only_direct_routes: self.only_direct_routes,
            as_legacy_transaction: self.as_legacy_transaction,
            restrict_intermediate_tokens: self.restrict_intermediate_tokens,
            max_accounts: self.max_accounts,
        }
    }
}

/// A list of names as the query string holds it: one string, commas between
/// the names.
pub open spec fn joined_names(names: Option<Seq<Seq<char>>>) -> Option<Seq<char>> {
    match names {
        Some(list) => Some(joined(list, comma())),
        None => None,
    }
}

/// The wire shape of a quote request: each modelled field goes to the field
/// of the same name, a list of names joined with commas, everything else as it
/// is. The open-ended arguments are no part of it.
pub open spec fn shaped(request: QuoteRequestView) -> InternalQuoteRequestView {
    InternalQuoteRequestView {
        input_mint: request.input_mint,
        output_mint: request.output_mint,
        amount: request.amount,
        swap_mode: request.swap_mode,
        slippage_bps: request.slippage_bps,
        platform_fee_bps: request.platform_fee_bps,
        fee_account: request.fee_account,
        dexes: joined_names(request.dexes),
        excluded_dexes: joined_names(request.excluded_dexes),
        only_direct_routes: request.only_direct_routes,
        as_legacy_transaction: request.as_legacy_transaction,
        restrict_intermediate_tokens: request.restrict_intermediate_tokens,
        max_accounts: request.max_accounts,
    }
}

/// The modelled fields of a request: the request without its open-ended
/// arguments.
pub open spec fn modelled(request: QuoteRequestView) -> QuoteRequestView {
    QuoteRequestView { quote_args: None, ..request }
}

/// An optional list of names that can be read back from its joined form.
pub open spec fn optional_names_separable(names: Option<Seq<Seq<char>>>) -> bool {
    match names {
        Some(list) => names_separable(list),
        None => true,
    }
}

/// Shaping loses nothing: two requests with the same shape agree in every
/// modelled field. The lists of names must be such that commas can separate
/// them: no comma in a name, and not the list of one empty name.
pub proof fn lemma_shaping_is_lossless(a: QuoteRequestView, b: QuoteRequestView)
    requires
        optional_names_separable(a.dexes),
        optional_names_separable(a.excluded_dexes),
        optional_names_separable(b.dexes),
        optional_names_separable(b.excluded_dexes),
        shaped(a) == shaped(b),
    ensures
        modelled(a) == modelled(b),
{
    if a.dexes is Some {
        lemma_joined_tells_list(a.dexes->0, b.dexes->0);
    }
    if a.excluded_dexes is Some {
        lemma_joined_tells_list(a.excluded_dexes->0, b.excluded_dexes->0);
    }
}

/// Shaping adds nothing: an optional field is present in the shape exactly
/// if it is present in the request.
pub proof fn lemma_shaping_adds_nothing(request: QuoteRequestView)
    ensures
        shaped(request).swap_mode is Some <==> request.swap_mode is Some,
        shaped(request).platform_fee_bps is Some <==> request.platform_fee_bps is Some,
        shaped(request).fee_account is Some <==> request.fee_account is Some,
        shaped(request).dexes is Some <==> request.dexes is Some,
        shaped(request).excluded_dexes is Some <==> request.excluded_dexes is Some,
        shaped(request).only_direct_routes is Some <==> request.only_direct_routes is Some,
        shaped(request).as_legacy_transaction is Some <==> request.as_legacy_transaction is Some,
        shaped(request).restrict_intermediate_tokens is Some
            <==> request.restrict_intermediate_tokens is Some,
        shaped(request).max_accounts is Some <==> request.max_accounts is Some,
{
}

fn clone_optional_string(string: &Option<String>) -> (copy: Option<String>)
    ensures
        optional_text(copy) == optional_text(*string),
{
    match string {
        Some(s) => Some(s.clone()),
        None => None,
    }
}

fn join_optional_names(names: &Option<Vec<String>>) -> (text: Option<String>)
    ensures
        optional_text(text) == joined_names(optional_texts(*names)),
{
    match names {
        Some(list) => Some(join_with_commas(list)),
        None => None,
    }
}

impl<'a> From<&'a QuoteRequest> for InternalQuoteRequest {
    /// Shapes a request for the query string.
    fn from(request: &'a QuoteRequest) -> (internal: InternalQuoteRequest)
        ensures
            internal@ == shaped(request@),
    {
        InternalQuoteRequest {
            input_mint: request.input_mint.clone(),
            output_mint: request.output_mint.clone(),
            amount: request.amount,
            swap_mode: request.swap_mode,
            slippage_bps: request.slippage_bps,
            platform_fee_bps: request.platform_fee_bps,
            fee_account: clone_optional_string(&request.fee_account),
            dexes: join_optional_names(&request.dexes),
            excluded_dexes: join_optional_names(&request.excluded_dexes),
            only_direct_routes: request.only_direct_routes,
            as_legacy_transaction: request.as_legacy_transaction,
            restrict_intermediate_tokens: request.restrict_intermediate_tokens,
            max_accounts: request.max_accounts,
        }
    }
}

impl<'a> vstd::std_specs::convert::FromSpecImpl<&'a QuoteRequest> for InternalQuoteRequest {
    /// The conversion builds new strings, which no specification value can
    /// name: its contract is the one on `from`, over views.
    open spec fn obeys_from_spec() -> bool {
        false
    }

    open spec fn from_spec(request: &'a QuoteRequest) -> InternalQuoteRequest {
        arbitrary()
    }
}

impl From<QuoteRequest> for InternalQuoteRequest {
    /// Shapes a request for the query string.
    fn from(request: QuoteRequest) -> (internal: InternalQuoteRequest)
        ensures
            internal@ == shaped(request@),
    {
        InternalQuoteRequest {
            input_mint: request.input_mint,
            output_mint: request.output_mint,
            amount: request.amount,
            swap_mode: request.swap_mode,
            slippage_bps: request.slippage_bps,
            platform_fee_bps: request.platform_fee_bps,
            fee_account: request.fee_account,
            dexes: join_optional_names(&request.dexes),
            excluded_dexes: join_optional_names(&request.excluded_dexes),
            only_direct_routes: request.only_direct_routes,
            as_legacy_transaction: request.as_legacy_transaction,
            restrict_intermediate_tokens: request.restrict_intermediate_tokens,
            max_accounts: request.max_accounts,
        }
    }
}

impl vstd::std_specs::convert::FromSpecImpl<QuoteRequest> for InternalQuoteRequest {
    /// The conversion builds new strings, which no specification value can
    /// name: its contract is the one on `from`, over views.
    open spec fn obeys_from_spec() -> bool {
        false
    }

    open spec fn from_spec(request: QuoteRequest) -> InternalQuoteRequest {
        arbitrary()
    }
}

/// How a flag is written in the query string.
pub open spec fn bool_text(flag: bool) -> Seq<char> {
    if flag {
        "true"@
    } else {
        "false"@
    }
}

/// How a swap mode is written in the query string.
pub open spec fn swap_mode_text(mode: SwapMode) -> Seq<char> {
    match mode {
        SwapMode::ExactIn => "ExactIn"@,
        SwapMode::ExactOut => "ExactOut"@,
    }
}

/// One query parameter.
pub open spec fn pair(name: Seq<char>, value: Seq<char>) -> Pairs {
    seq![(name, value)]
}

/// The query parameter of an optional field: none where the field is absent.
pub open spec fn optional_pair(name: Seq<char>, value: Option<Seq<char>>) -> Pairs {
    match value {
        Some(v) => seq![(name, v)],
        None => Seq::empty(),
    }
}

/// The decimal numeral of an optional number.
pub open spec fn optional_decimal(number: Option<u64>) -> Option<Seq<char>> {
    match number {
        Some(n) => Some(decimal(n as nat)),
        None => None,
    }
}

/// The text of an optional flag.
pub open spec fn optional_bool_text(flag: Option<bool>) -> Option<Seq<char>> {
    match flag {
        Some(b) => Some(bool_text(b)),
        None => None,
    }
}

/// The text of an optional swap mode.
pub open spec fn optional_swap_mode_text(mode: Option<SwapMode>) -> Option<Seq<char>> {
    match mode {
        Some(m) => Some(swap_mode_text(m)),
        None => None,
    }
}

/// An optional small number, widened.
pub open spec fn optional_u8(number: Option<u8>) -> Option<u64> {
    match number {
        Some(n) => Some(n as u64),
        None => None,
    }
}

/// The query parameters of a shaped request, in the order of its fields: a
/// field that is present gives one parameter under its wire name, a field
/// that is absent gives none.
pub open spec fn query_of(request: InternalQuoteRequestView) -> Pairs {
    pair("inputMint"@, request.input_mint) + pair("outputMint"@, request.output_mint) + pair(
        "amount"@,
        decimal(request.amount as nat),
    ) + optional_pair("swapMode"@, optional_swap_mode_text(request.swap_mode)) + pair(
        "slippageBps"@,
        decimal(request.slippage_bps as nat),
    ) + optional_pair("platformFeeBps"@, optional_decimal(optional_u8(request.platform_fee_bps)))
        + optional_pair("feeAccount"@, request.fee_account) + optional_pair(
        "dexes"@,
        request.dexes,
    ) + optional_pair("excludedDexes"@, request.excluded_dexes) + optional_pair(
        "onlyDirectRoutes"@,
        optional_bool_text(request.only_direct_routes),
    ) + optional_pair("asLegacyTransaction"@, optional_bool_text(request.as_legacy_transaction))
        + optional_pair(
        "restrictIntermediateTokens"@,
        optional_bool_text(request.restrict_intermediate_tokens),
    ) + optional_pair("maxAccounts"@, optional_decimal(request.max_accounts))
}

/// The number of parameters that an optional field gives: one or none.
pub open spec fn present<T>(field: Option<T>) -> nat {
    if field is Some {
        1
    } else {
        0
    }
}

/// The query holds one parameter for each of the four required fields and
/// one for each optional field that is present, and no other.
pub proof fn lemma_query_has_one_parameter_per_field(request: InternalQuoteRequestView)
    ensures
        query_of(request).len() == 4 + present(request.swap_mode) + present(
            request.platform_fee_bps,
        ) + present(request.fee_account) + present(request.dexes) + present(
            request.excluded_dexes,
        ) + present(request.only_direct_routes) + present(request.as_legacy_transaction)
            + present(request.restrict_intermediate_tokens) + present(request.max_accounts),
{
}

/// Adds one parameter at the end of `pairs`.
pub(crate) fn push_pair(pairs: &mut Vec<(String, String)>, name: &str, value: String)
    ensures
        pairs_of(final(pairs)@) == pairs_of(old(pairs)@) + pair(name@, value@),
{
    let ghost before = pairs@;
    let entry = (String::from_str(name), value);
    pairs.push(entry);
    assert(pairs_of(pairs@) =~= pairs_of(before) + pair(name@, value@));
}

/// Adds the parameter of an optional field at the end of `pairs`.
fn push_optional(pairs: &mut Vec<(String, String)>, name: &str, value: Option<String>)
    ensures
        pairs_of(final(pairs)@) == pairs_of(old(pairs)@) + optional_pair(
            name@,
            optional_text(value),
        ),
{
    let ghost before = pairs@;
    match value {
        Some(v) => {
            push_pair(pairs, name, v);
        },
        None => {
            assert(pairs_of(before) + Seq::<(Seq<char>, Seq<char>)>::empty() =~= pairs_of(before));
        },
    }
}

fn bool_string(flag: bool) -> (text: String)
    ensures
        text@ == bool_text(flag),
{
    if flag {
        String::from_str("true")
    } else {
        String::from_str("false")
    }
}

fn optional_bool_string(flag: Option<bool>) -> (text: Option<String>)
    ensures
        optional_text(text) == optional_bool_text(flag),
{
    match flag {
        Some(b) => Some(bool_string(b)),
        None => None,
    }
}

fn optional_decimal_string(number: Option<u64>) -> (text: Option<String>)
    ensures
        optional_text(text) == optional_decimal(number),
{
    match number {
        Some(n) => Some(decimal_string(n)),
        None => None,
    }
}

fn widened(number: Option<u8>) -> (wide: Option<u64>)
    ensures
        wide == optional_u8(number),
{
    match number {
        Some(n) => Some(n as u64),
        None => None,
    }
}

impl SwapMode {
    /// The name of the mode on the wire.
    pub fn as_str(&self) -> (name: &'static str)
        ensures
            name@ == swap_mode_text(*self),
    {
        match self {
            SwapMode::ExactIn => "ExactIn",
            SwapMode::ExactOut => "ExactOut",
        }
    }
}

fn optional_swap_mode_string(mode: Option<SwapMode>) -> (text: Option<String>)
    ensures
        optional_text(text) == optional_swap_mode_text(mode),
{
    match mode {
        Some(m) => Some(String::from_str(m.as_str())),
        None => None,
    }
}

impl InternalQuoteRequest {
    /// The query parameters that carry this request, in order.
    pub fn query_pairs(&self) -> (pairs: Vec<(String, String)>)
        ensures
            pairs_of(pairs@) == query_of(self@),
    {
        let mut pairs: Vec<(String, String)> = Vec::new();
        assert(pairs_of(pairs@) =~= Seq::<(Seq<char>, Seq<char>)>::empty());
        push_pair(&mut pairs, "inputMint", self.input_mint.clone());
        push_pair(&mut pairs, "outputMint", self.output_mint.clone());
        push_pair(&mut pairs, "amount", decimal_string(self.amount));
        push_optional(&mut pairs, "swapMode", optional_swap_mode_string(self.swap_mode));
        push_pair(&mut pairs, "slippageBps", decimal_string(self.slippage_bps as u64));
        push_optional(
            &mut pairs,
            "platformFeeBps",
            optional_decimal_string(widened(self.platform_fee_bps)),
        );
        push_optional(&mut pairs, "feeAccount", clone_optional_string(&self.fee_account));
        push_optional(&mut pairs, "dexes", clone_optional_string(&self.dexes));
        push_optional(&mut pairs, "excludedDexes", clone_optional_string(&self.excluded_dexes));
        push_optional(&mut pairs, "onlyDirectRoutes", optional_bool_string(self.only_direct_routes));
        push_optional(
            &mut pairs,
            "asLegacyTransaction",
            optional_bool_string(self.as_legacy_transaction),
        );
        push_optional(
            &mut pairs,
            "restrictIntermediateTokens",
            optional_bool_string(self.restrict_intermediate_tokens),
        );
        push_optional(&mut pairs, "maxAccounts", optional_decimal_string(self.max_accounts));
        assert(pairs_of(pairs@) =~= query_of(self@));
        pairs
    }
}

} // verus!
