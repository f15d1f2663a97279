//! The records that the platform keeps, each with its mathematical model.
//!
//! Every record `X` has a model `XView` made of integers, sequences and
//! options; `x@` is the model of `x`. Contracts speak of models only.

use crate::text::text_is;
use vstd::prelude::*;

verus! {

/// A copy of a list of texts.
pub fn clone_texts(texts: &Vec<String>) -> (copy: Vec<String>)
    ensures
        copy.deep_view() == texts.deep_view(),
{
    let copy = texts.clone();
    assert(copy.deep_view() =~= texts.deep_view());
    copy
}

/// A copy of an optional text.
pub fn clone_opt_text(text: &Option<String>) -> (copy: Option<String>)
    ensures
        copy.deep_view() == text.deep_view(),
{
    match text {
        Some(t) => Some(t.clone()),
        None => None,
    }
}

/// A copy of a byte string.
pub fn clone_bytes(bytes: &Vec<u8>) -> (copy: Vec<u8>)
    ensures
        copy@ == bytes@,
{
    let copy = bytes.clone();
    assert(copy@ =~= bytes@);
    copy
}

/// How one leg of a mint's cost is paid.
#[derive(Debug, PartialEq, Eq)]
pub enum PaymentType {
    /// Native currency sent to a recipient.
    Native,
    /// Fungible tokens moved from the payer to a recipient.
    Cw20,
    Cw721,
    /// Fungible tokens of the payer burned.
    Cw20Burn,
    Cw721Burn,
    Other(String),
}

/// The model of `PaymentType`.
pub enum PaymentTypeView {
    Native,
    Cw20,
    Cw721,
    Cw20Burn,
    Cw721Burn,
    Other(Seq<char>),
}

impl DeepView for PaymentType {
    type V = PaymentTypeView;

    open spec fn deep_view(&self) -> PaymentTypeView {
        match self {
            PaymentType::Native => PaymentTypeView::Native,
            PaymentType::Cw20 => PaymentTypeView::Cw20,
            PaymentType::Cw721 => PaymentTypeView::Cw721,
            PaymentType::Cw20Burn => PaymentTypeView::Cw20Burn,
            PaymentType::Cw721Burn => PaymentTypeView::Cw721Burn,
            PaymentType::Other(name) => PaymentTypeView::Other(name@),
        }
    }
}

impl View for PaymentType {
    type V = PaymentTypeView;

    open spec fn view(&self) -> PaymentTypeView {
        self.deep_view()
    }
}

impl Clone for PaymentType {
    fn clone(&self) -> (copy: Self)
        ensures
            copy@ == self@,
    {
        match self {
            PaymentType::Native => PaymentType::Native,
            PaymentType::Cw20 => PaymentType::Cw20,
            PaymentType::Cw721 => PaymentType::Cw721,
            PaymentType::Cw20Burn => PaymentType::Cw20Burn,
            PaymentType::Cw721Burn => PaymentType::Cw721Burn,
            PaymentType::Other(name) => PaymentType::Other(name.clone()),
        }
    }
}

/// One leg of a mint's cost: a kind, an amount per unit and the addresses
/// the kind needs. A native leg names its recipient; a token transfer names
/// its recipient and then the token contract; a token burn names the token
/// contract.
#[derive(Debug, PartialEq, Eq)]
pub struct Payment {
    pub payment_type: PaymentType,
    pub amount: Option<u128>,
    pub args: Vec<String>,
}

/// The model of `Payment`.
pub struct PaymentView {
    pub payment_type: PaymentTypeView,
    pub amount: Option<u128>,
    pub args: Seq<Seq<char>>,
}

impl PaymentView {
    /// Whether the platform knows how to settle this kind of leg.
    pub open spec fn supported(self) -> bool {
        self.payment_type is Native || self.payment_type is Cw20 || self.payment_type is Cw20Burn
    }

    /// How many addresses a leg of this kind names.
    pub open spec fn args_needed(self) -> nat {
        if self.payment_type is Cw20 {
            2
        } else {
            1
        }
    }

    /// Whether the leg carries what its kind needs: a strictly positive
    /// amount and its addresses, none of them empty.
    pub open spec fn complete(self) -> bool {
        &&& self.amount matches Some(a) && a > 0
        &&& self.args.len() >= self.args_needed()
        &&& forall|i: int| 0 <= i < self.args_needed() ==> (#[trigger] self.args[i]).len() > 0
    }

    /// The addresses that the leg's kind reads, as far as the leg names
    /// them; none for a kind that is not supported.
    pub open spec fn named_addresses(self) -> Seq<Seq<char>> {
        if !self.supported() {
            Seq::empty()
        } else if self.args.len() >= self.args_needed() {
            self.args.take(self.args_needed() as int)
        } else {
            self.args
        }
    }

    /// Whether the leg can be registered: supported and complete.
    pub open spec fn valid(self) -> bool {
        self.supported() && self.complete()
    }

    /// Whether the leg can be settled or turned down without a missing
    /// field: a supported leg is complete.
    pub open spec fn wf(self) -> bool {
        self.supported() ==> self.complete()
    }
}

impl DeepView for Payment {
    type V = PaymentView;

    open spec fn deep_view(&self) -> PaymentView {
        PaymentView {
            payment_type: self.payment_type@,
            amount: self.amount,
            args: self.args.deep_view(),
        }
    }
}

impl View for Payment {
    type V = PaymentView;

    open spec fn view(&self) -> PaymentView {
        self.deep_view()
    }
}

impl Clone for Payment {
    fn clone(&self) -> (copy: Self)
        ensures
            copy@ == self@,
    {
        Payment {
            payment_type: self.payment_type.clone(),
            amount: self.amount,
            args: clone_texts(&self.args),
        }
    }
}

impl Default for Payment {
    fn default() -> (payment: Payment)
        ensures
            payment@ == (PaymentView {
                payment_type: PaymentTypeView::Native,
                amount: None,
                args: Seq::empty(),
            }),
    {
        let payment = Payment { payment_type: PaymentType::Native, amount: None, args: Vec::new() };
        assert(payment.args.deep_view() =~= Seq::empty());
        payment
    }
}

/// What a wallet must hold to pass a gate.
#[derive(Debug, PartialEq, Eq)]
pub enum GateType {
    Cw20Gate,
    Cw721Gate,
    Other(String),
}

/// The model of `GateType`.
pub enum GateTypeView {
    Cw20Gate,
    Cw721Gate,
    Other(Seq<char>),
}

impl DeepView for GateType {
    type V = GateTypeView;

    open spec fn deep_view(&self) -> GateTypeView {
        match self {
            GateType::Cw20Gate => GateTypeView::Cw20Gate,
            GateType::Cw721Gate => GateTypeView::Cw721Gate,
            GateType::Other(name) => GateTypeView::Other(name@),
        }
    }
}

impl View for GateType {
    type V = GateTypeView;

    open spec fn view(&self) -> GateTypeView {
        self.deep_view()
    }
}

impl Clone for GateType {
    fn clone(&self) -> (copy: Self)
        ensures
            copy@ == self@,
    {
        match self {
            GateType::Cw20Gate => GateType::Cw20Gate,
            GateType::Cw721Gate => GateType::Cw721Gate,
            GateType::Other(name) => GateType::Other(name.clone()),
        }
    }
}

/// A holding requirement recorded with a group. Gates are stored and handed
/// back; no check reads them.
#[derive(Debug, PartialEq, Eq)]
pub struct Gate {
    pub gate_type: GateType,
    pub amount: Option<u128>,
    pub args: Vec<String>,
}

/// The model of `Gate`.
pub struct GateView {
    pub gate_type: GateTypeView,
    pub amount: Option<u128>,
    pub args: Seq<Seq<char>>,
}

impl DeepView for Gate {
    type V = GateView;

    open spec fn deep_view(&self) -> GateView {
        GateView { gate_type: self.gate_type@, amount: self.amount, args: self.args.deep_view() }
    }
}

impl View for Gate {
    type V = GateView;

    open spec fn view(&self) -> GateView {
        self.deep_view()
    }
}

impl Clone for Gate {
    fn clone(&self) -> (copy: Self)
        ensures
            copy@ == self@,
    {
        Gate {
            gate_type: self.gate_type.clone(),
            amount: self.amount,
            args: clone_texts(&self.args),
        }
    }
}

impl Default for Gate {
    fn default() -> (gate: Gate)
        ensures
            gate@ == (GateView {
                gate_type: GateTypeView::Cw20Gate,
                amount: None,
                args: Seq::empty(),
            }),
    {
        let gate = Gate { gate_type: GateType::Cw20Gate, amount: None, args: Vec::new() };
        assert(gate.args.deep_view() =~= Seq::empty());
        gate
    }
}

/// A copy of a list of payment legs.
pub fn clone_payments(payments: &Vec<Payment>) -> (copy: Vec<Payment>)
    ensures
        copy.deep_view() == payments.deep_view(),
{
    let copy = payments.clone();
    assert(copy.deep_view() =~= payments.deep_view());
    copy
}

/// A copy of a list of gates.
pub fn clone_gates(gates: &Vec<Gate>) -> (copy: Vec<Gate>)
    ensures
        copy.deep_view() == gates.deep_view(),
{
    let copy = gates.clone();
    assert(copy.deep_view() =~= gates.deep_view());
    copy
}

/// A named allowlist tranche of a collection, with its own window, quotas
/// and payment terms. The window is `[start_time, end_time)`, and an
/// `end_time` of 0 leaves it open for ever. A quota of 0 is no quota.
#[derive(Debug, PartialEq, Eq)]
pub struct MintGroup {
    pub name: String,
    pub merkle_root: Option<Vec<u8>>,
    pub max_mints_per_wallet: u128,
    pub reserved_supply: u128,
    pub start_time: u64,
    pub end_time: u64,
    pub payments: Vec<Payment>,
    pub batch_size: Option<u128>,
    pub gates: Vec<Gate>,
    pub gates_optional: Option<bool>,
}

/// The model of `MintGroup`.
pub struct MintGroupView {
    pub name: Seq<char>,
    pub merkle_root: Option<Seq<u8>>,
    pub max_mints_per_wallet: u128,
    pub reserved_supply: u128,
    pub start_time: u64,
    pub end_time: u64,
    pub payments: Seq<PaymentView>,
    pub batch_size: Option<u128>,
    pub gates: Seq<GateView>,
    pub gates_optional: Option<bool>,
}

impl MintGroupView {
    /// Whether every leg can be registered.
    pub open spec fn payments_valid(self) -> bool {
        forall|i: int| 0 <= i < self.payments.len() ==> (#[trigger] self.payments[i]).valid()
    }

    /// Whether the group declares a batch size above zero.
    pub open spec fn has_batch(self) -> bool {
        self.batch_size matches Some(b) && b > 0
    }

    /// Whether the group can serve a mint: its supported legs are complete,
    /// and in a fungible-batch collection it has a batch size.
    pub open spec fn wf(self, batched: bool) -> bool {
        &&& forall|i: int| 0 <= i < self.payments.len() ==> (#[trigger] self.payments[i]).wf()
        &&& batched ==> self.has_batch()
    }
}

impl DeepView for MintGroup {
    type V = MintGroupView;

    open spec fn deep_view(&self) -> MintGroupView {
        MintGroupView {
            name: self.name@,
            merkle_root: self.merkle_root.deep_view(),
            max_mints_per_wallet: self.max_mints_per_wallet,
            reserved_supply: self.reserved_supply,
            start_time: self.start_time,
            end_time: self.end_time,
            payments: self.payments.deep_view(),
            batch_size: self.batch_size,
            gates: self.gates.deep_view(),
            gates_optional: self.gates_optional,
        }
    }
}

impl View for MintGroup {
    type V = MintGroupView;

    open spec fn view(&self) -> MintGroupView {
        self.deep_view()
    }
}

impl Clone for MintGroup {
    fn clone(&self) -> (copy: Self)
        ensures
            copy@ == self@,
    {
        let merkle_root = match &self.merkle_root {
            Some(root) => Some(clone_bytes(root)),
            None => None,
        };
        assert(merkle_root.deep_view() =~= self.merkle_root.deep_view());
        MintGroup {
            name: self.name.clone(),
            merkle_root,
            max_mints_per_wallet: self.max_mints_per_wallet,
            reserved_supply: self.reserved_supply,
            start_time: self.start_time,
            end_time: self.end_time,
            payments: clone_payments(&self.payments),
            batch_size: self.batch_size,
            gates: clone_gates(&self.gates),
            gates_optional: self.gates_optional,
        }
    }
}

/// A copy of a list of groups.
pub fn clone_groups(groups: &Vec<MintGroup>) -> (copy: Vec<MintGroup>)
    ensures
        copy.deep_view() == groups.deep_view(),
{
    let copy = groups.clone();
    assert(copy.deep_view() =~= groups.deep_view());
    copy
}

/// How a fungible-batch collection presents itself.
#[derive(Debug, PartialEq, Eq)]
pub struct Marketing {
    pub project: Option<String>,
    pub description: Option<String>,
    pub logo: Option<String>,
}

/// The model of `Marketing`.
pub struct MarketingView {
    pub project: Option<Seq<char>>,
    pub description: Option<Seq<char>>,
    pub logo: Option<Seq<char>>,
}

impl DeepView for Marketing {
    type V = MarketingView;

    open spec fn deep_view(&self) -> MarketingView {
        MarketingView {
            project: self.project.deep_view(),
            description: self.description.deep_view(),
            logo: self.logo.deep_view(),
        }
    }
}

impl View for Marketing {
    type V = MarketingView;

    open spec fn view(&self) -> MarketingView {
        self.deep_view()
    }
}

impl Clone for Marketing {
    fn clone(&self) -> (copy: Self)
        ensures
            copy@ == self@,
    {
        Marketing {
            project: clone_opt_text(&self.project),
            description: clone_opt_text(&self.description),
            logo: clone_opt_text(&self.logo),
        }
    }
}

/// The extension block of a fungible-batch collection.
#[derive(Debug, PartialEq, Eq)]
pub struct Cw404Info {
    pub decimals: u8,
    pub max_supply: u128,
    pub max_edition: u64,
    pub tokens_per_nft: u128,
    pub marketing: Option<Marketing>,
}

/// The model of `Cw404Info`.
pub struct Cw404InfoView {
    pub decimals: u8,
    pub max_supply: u128,
    pub max_edition: u64,
    pub tokens_per_nft: u128,
    pub marketing: Option<MarketingView>,
}

impl DeepView for Cw404Info {
    type V = Cw404InfoView;

    open spec fn deep_view(&self) -> Cw404InfoView {
        Cw404InfoView {
            decimals: self.decimals,
            max_supply: self.max_supply,
            max_edition: self.max_edition,
            tokens_per_nft: self.tokens_per_nft,
            marketing: self.marketing.deep_view(),
        }
    }
}

impl View for Cw404Info {
    type V = Cw404InfoView;

    open spec fn view(&self) -> Cw404InfoView {
        self.deep_view()
    }
}

impl Clone for Cw404Info {
    fn clone(&self) -> (copy: Self)
        ensures
            copy@ == self@,
    {
        let marketing = match &self.marketing {
            Some(m) => Some(m.clone()),
            None => None,
        };
        Cw404Info {
            decimals: self.decimals,
            max_supply: self.max_supply,
            max_edition: self.max_edition,
            tokens_per_nft: self.tokens_per_nft,
            marketing,
        }
    }
}

/// The platform's settings: who runs it, the flat fee per minted unit,
/// whether new collections are taken, the next correlation id to hand out,
/// and the denomination that mints are paid in.
#[derive(Debug, PartialEq, Eq)]
pub struct Config {
    pub admin: String,
    pub fee: u128,
    pub registeration_open: bool,
    pub next_reply_id: u64,
    pub denom: String,
}

/// The model of `Config`.
pub struct ConfigView {
    pub admin: Seq<char>,
    pub fee: u128,
    pub registeration_open: bool,
    pub next_reply_id: u64,
    pub denom: Seq<char>,
}

impl DeepView for Config {
    type V = ConfigView;

    open spec fn deep_view(&self) -> ConfigView {
        ConfigView {
            admin: self.admin@,
            fee: self.fee,
            registeration_open: self.registeration_open,
            next_reply_id: self.next_reply_id,
            denom: self.denom@,
        }
    }
}

impl View for Config {
    type V = ConfigView;

    open spec fn view(&self) -> ConfigView {
        self.deep_view()
    }
}

impl Clone for Config {
    fn clone(&self) -> (copy: Self)
        ensures
            copy@ == self@,
    {
        Config {
            admin: self.admin.clone(),
            fee: self.fee,
            registeration_open: self.registeration_open,
            next_reply_id: self.next_reply_id,
            denom: self.denom.clone(),
        }
    }
}

/// The units that one wallet has minted in one group of one collection, in
/// the order they were minted.
#[derive(Debug, PartialEq, Eq)]
pub struct MintInfo {
    pub mints: Vec<u128>,
}

impl DeepView for MintInfo {
    type V = Seq<u128>;

    open spec fn deep_view(&self) -> Seq<u128> {
        self.mints@
    }
}

impl View for MintInfo {
    type V = Seq<u128>;

    open spec fn view(&self) -> Seq<u128> {
        self.mints@
    }
}

impl Clone for MintInfo {
    fn clone(&self) -> (copy: Self)
        ensures
            copy@ == self@,
    {
        let mints = self.mints.clone();
        assert(mints@ =~= self.mints@);
        MintInfo { mints }
    }
}

/// A revenue-share participant: who it is, and which percentage of the flat
/// fee goes to it.
#[derive(Debug, PartialEq, Eq)]
pub struct Partner {
    pub partner: String,
    pub fee_percent: u128,
}

/// The model of `Partner`.
pub struct PartnerView {
    pub partner: Seq<char>,
    pub fee_percent: u128,
}

impl PartnerView {
    /// A partner takes at most 99 percent.
    pub open spec fn wf(self) -> bool {
        self.fee_percent <= 99
    }
}

impl DeepView for Partner {
    type V = PartnerView;

    open spec fn deep_view(&self) -> PartnerView {
        PartnerView { partner: self.partner@, fee_percent: self.fee_percent }
    }
}

impl View for Partner {
    type V = PartnerView;

    open spec fn view(&self) -> PartnerView {
        self.deep_view()
    }
}

impl Clone for Partner {
    fn clone(&self) -> (copy: Self)
        ensures
            copy@ == self@,
    {
        Partner { partner: self.partner.clone(), fee_percent: self.fee_percent }
    }
}

/// The way a collection is minted, fixed by its chain tag and its token
/// standard tag.
#[derive(Debug, Clone, Copy, PartialEq, Eq, Structural)]
pub enum Strategy {
    /// Unique tokens on the native chain: chain `v1`, standard `721`.
    Native721,
    /// Unique tokens on the bridged chain: chain `v2`, standard `721`.
    Bridged721,
    /// Fungible batches on the native chain: chain `v1`, standard `404`.
    Native404,
}

/// The strategy that a pair of tags selects, if it selects one.
pub open spec fn strategy_of(chain: Seq<char>, standard: Seq<char>) -> Option<Strategy> {
    if chain == "v1"@ && standard == "721"@ {
        Some(Strategy::Native721)
    } else if chain == "v2"@ && standard == "721"@ {
        Some(Strategy::Bridged721)
    } else if chain == "v1"@ && standard == "404"@ {
        Some(Strategy::Native404)
    } else {
        None
    }
}

/// The strategy that a pair of tags selects, if it selects one.
pub fn select_strategy(chain: &String, standard: &String) -> (strategy: Option<Strategy>)
    ensures
        strategy == strategy_of(chain@, standard@),
{
    let native = text_is(chain, "v1");
    let bridged = text_is(chain, "v2");
    let unique = text_is(standard, "721");
    let batched = text_is(standard, "404");
    if native && unique {
        Some(Strategy::Native721)
    } else if bridged && unique {
        Some(Strategy::Bridged721)
    } else if native && batched {
        Some(Strategy::Native404)
    } else {
        None
    }
}

/// One launched collection.
#[derive(Debug, PartialEq, Eq)]
pub struct Collection {
    pub admin: String,
    pub chain: String,
    pub collection_type: String,
    pub collection_address: Option<String>,
    pub name: String,
    pub symbol: String,
    pub supply: u128,
    pub next_token: u128,
    pub mint_groups: Vec<MintGroup>,
    pub start_order: Option<u128>,
    pub frozen: bool,
    pub unfreeze_time: Option<u64>,
    pub hidden_metadata: bool,
    pub placeholder_token_uri: Option<String>,
    pub partner: Option<String>,
    pub cw404_info: Option<Cw404Info>,
}

/// The model of `Collection`.
pub struct CollectionView {
    pub admin: Seq<char>,
    pub chain: Seq<char>,
    pub collection_type: Seq<char>,
    pub collection_address: Option<Seq<char>>,
    pub name: Seq<char>,
    pub symbol: Seq<char>,
    pub supply: u128,
    pub next_token: u128,
    pub mint_groups: Seq<MintGroupView>,
    pub start_order: Option<u128>,
    pub frozen: bool,
    pub unfreeze_time: Option<u64>,
    pub hidden_metadata: bool,
    pub placeholder_token_uri: Option<Seq<char>>,
    pub partner: Option<Seq<char>>,
    pub cw404_info: Option<Cw404InfoView>,
}

/// Whether every group of `groups` can serve a mint.
pub open spec fn groups_wf(groups: Seq<MintGroupView>, batched: bool) -> bool {
    forall|i: int| 0 <= i < groups.len() ==> (#[trigger] groups[i]).wf(batched)
}

impl CollectionView {
    /// The strategy that the collection's tags select.
    pub open spec fn strategy(self) -> Option<Strategy> {
        strategy_of(self.chain, self.collection_type)
    }

    /// The number that the first unit carries.
    pub open spec fn first_token(self) -> int {
        match self.start_order {
            Some(first) => first as int,
            None => 0,
        }
    }

    /// How far the cursor has moved from the first unit.
    pub open spec fn issued(self) -> int {
        self.next_token - self.first_token()
    }

    /// Whether the collection minted in fungible batches.
    pub open spec fn batched(self) -> bool {
        self.strategy() == Some(Strategy::Native404)
    }

    /// The collection's invariant: its tags select a strategy, the cursor
    /// has not passed the supply counted from the first unit, and every
    /// group can serve a mint.
    pub open spec fn wf(self) -> bool {
        &&& self.strategy() is Some
        &&& 0 <= self.issued() <= self.supply
        &&& groups_wf(self.mint_groups, self.batched())
    }
}

impl DeepView for Collection {
    type V = CollectionView;

    open spec fn deep_view(&self) -> CollectionView {
        CollectionView {
            admin: self.admin@,
            chain: self.chain@,
            collection_type: self.collection_type@,
            collection_address: self.collection_address.deep_view(),
            name: self.name@,
            symbol: self.symbol@,
            supply: self.supply,
            next_token: self.next_token,
            mint_groups: self.mint_groups.deep_view(),
            start_order: self.start_order,
            frozen: self.frozen,
            unfreeze_time: self.unfreeze_time,
            hidden_metadata: self.hidden_metadata,
            placeholder_token_uri: self.placeholder_token_uri.deep_view(),
            partner: self.partner.deep_view(),
            cw404_info: self.cw404_info.deep_view(),
        }
    }
}

impl View for Collection {
    type V = CollectionView;

    open spec fn view(&self) -> CollectionView {
        self.deep_view()
    }
}

impl Clone for Collection {
    fn clone(&self) -> (copy: Self)
        ensures
            copy@ == self@,
    {
        let cw404_info = match &self.cw404_info {
            Some(info) => Some(info.clone()),
            None => None,
        };
        Collection {
            admin: self.admin.clone(),
            chain: self.chain.clone(),
            collection_type: self.collection_type.clone(),
            collection_address: clone_opt_text(&self.collection_address),
            name: self.name.clone(),
            symbol: self.symbol.clone(),
            supply: self.supply,
            next_token: self.next_token,
            mint_groups: clone_groups(&self.mint_groups),
            start_order: self.start_order,
            frozen: self.frozen,
            unfreeze_time: self.unfreeze_time,
            hidden_metadata: self.hidden_metadata,
            placeholder_token_uri: clone_opt_text(&self.placeholder_token_uri),
            partner: clone_opt_text(&self.partner),
            cw404_info,
        }
    }
}

impl Collection {
    /// The strategy that the collection's tags select.
    pub fn strategy(&self) -> (strategy: Option<Strategy>)
        ensures
            strategy == self@.strategy(),
    {
        select_strategy(&self.chain, &self.collection_type)
    }
}

} // verus!
