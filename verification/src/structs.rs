//! The instructions sent to collection contracts, token contracts and the
//! bridged chain, and the questions put to the bridged chain.
//!
//! These are the typed forms. Turning them into wire bytes is left to the
//! caller.

use vstd::prelude::*;

verus! {

/// What a new unique-token contract is created with.
#[derive(Debug, Clone, PartialEq, Eq)]
pub struct Cw2981InstantiateMsg {
    pub name: String,
    pub symbol: String,
    pub minter: String,
    pub is_immutable: bool,
    pub frozen: Option<bool>,
    pub unfreeze_time: Option<u64>,
    pub hidden_metadata: Option<bool>,
    pub placeholder_token_uri: Option<String>,
    pub base_uri: Option<String>,
    pub fixed_uri: bool,
    pub base_uri_suffix: Option<String>,
    pub royalty_percentage: Option<u64>,
    pub royalty_payment_address: Option<String>,
}

/// The model of `Cw2981InstantiateMsg`.
pub struct Cw2981InstantiateMsgView {
    pub name: Seq<char>,
    pub symbol: Seq<char>,
    pub minter: Seq<char>,
    pub is_immutable: bool,
    pub frozen: Option<bool>,
    pub unfreeze_time: Option<u64>,
    pub hidden_metadata: Option<bool>,
    pub placeholder_token_uri: Option<Seq<char>>,
    pub base_uri: Option<Seq<char>>,
    pub fixed_uri: bool,
    pub base_uri_suffix: Option<Seq<char>>,
    pub royalty_percentage: Option<u64>,
    pub royalty_payment_address: Option<Seq<char>>,
}

impl DeepView for Cw2981InstantiateMsg {
    type V = Cw2981InstantiateMsgView;

    open spec fn deep_view(&self) -> Cw2981InstantiateMsgView {
        Cw2981InstantiateMsgView {
            name: self.name@,
            symbol: self.symbol@,
            minter: self.minter@,
            is_immutable: self.is_immutable,
            frozen: self.frozen,
            unfreeze_time: self.unfreeze_time,
            hidden_metadata: self.hidden_metadata,
            placeholder_token_uri: self.placeholder_token_uri.deep_view(),
            base_uri: self.base_uri.deep_view(),
            fixed_uri: self.fixed_uri,
            base_uri_suffix: self.base_uri_suffix.deep_view(),
            royalty_percentage: self.royalty_percentage,
            royalty_payment_address: self.royalty_payment_address.deep_view(),
        }
    }
}

impl View for Cw2981InstantiateMsg {
    type V = Cw2981InstantiateMsgView;

    open spec fn view(&self) -> Cw2981InstantiateMsgView {
        self.deep_view()
    }
}

/// What the platform asks of a unique-token contract besides minting.
#[derive(Debug, Clone, PartialEq, Eq)]
pub enum Cw2981LHExecuteExtension {
    Unfreeze,
    Reveal,
    UpdateLighthouseData {
        placeholder_token_uri: Option<String>,
        base_uri: Option<String>,
        fixed_uri: bool,
        base_uri_suffix: Option<String>,
        default_royalty_percentage: Option<u64>,
        default_royalty_payment_address: Option<String>,
    },
}

/// The model of `Cw2981LHExecuteExtension`.
pub enum Cw2981LHExecuteExtensionView {
    Unfreeze,
    Reveal,
    UpdateLighthouseData {
        placeholder_token_uri: Option<Seq<char>>,
        base_uri: Option<Seq<char>>,
        fixed_uri: bool,
        base_uri_suffix: Option<Seq<char>>,
        default_royalty_percentage: Option<u64>,
        default_royalty_payment_address: Option<Seq<char>>,
    },
}

impl DeepView for Cw2981LHExecuteExtension {
    type V = Cw2981LHExecuteExtensionView;

    open spec fn deep_view(&self) -> Cw2981LHExecuteExtensionView {
        match self {
            Cw2981LHExecuteExtension::Unfreeze => Cw2981LHExecuteExtensionView::Unfreeze,
            Cw2981LHExecuteExtension::Reveal => Cw2981LHExecuteExtensionView::Reveal,
            Cw2981LHExecuteExtension::UpdateLighthouseData { placeholder_token_uri, base_uri, fixed_uri, base_uri_suffix, default_royalty_percentage, default_royalty_payment_address } => Cw2981LHExecuteExtensionView::UpdateLighthouseData {
                placeholder_token_uri: placeholder_token_uri.deep_view(),
                base_uri: base_uri.deep_view(),
                fixed_uri: *fixed_uri,
                base_uri_suffix: base_uri_suffix.deep_view(),
                default_royalty_percentage: *default_royalty_percentage,
                default_royalty_payment_address: default_royalty_payment_address.deep_view(),
            },
        }
    }
}

impl View for Cw2981LHExecuteExtension {
    type V = Cw2981LHExecuteExtensionView;

    open spec fn view(&self) -> Cw2981LHExecuteExtensionView {
        self.deep_view()
    }
}

/// The envelope of a request to a unique-token contract.
#[derive(Debug, Clone, PartialEq, Eq)]
pub enum Cw2981LHExecuteMsg {
    Extension {
        msg: Cw2981LHExecuteExtension,
    },
}

/// The model of `Cw2981LHExecuteMsg`.
pub enum Cw2981LHExecuteMsgView {
    Extension {
        msg: Cw2981LHExecuteExtensionView,
    },
}

impl DeepView for Cw2981LHExecuteMsg {
    type V = Cw2981LHExecuteMsgView;

    open spec fn deep_view(&self) -> Cw2981LHExecuteMsgView {
        match self {
            Cw2981LHExecuteMsg::Extension { msg } => Cw2981LHExecuteMsgView::Extension {
                msg: msg.deep_view(),
            },
        }
    }
}

impl View for Cw2981LHExecuteMsg {
    type V = Cw2981LHExecuteMsgView;

    open spec fn view(&self) -> Cw2981LHExecuteMsgView {
        self.deep_view()
    }
}

/// Who may mint from a fungible-batch contract, and up to which total.
#[derive(Debug, Clone, PartialEq, Eq)]
pub struct MinterResponse {
    pub minter: String,
    pub cap: Option<u128>,
}

/// The model of `MinterResponse`.
pub struct MinterResponseView {
    pub minter: Seq<char>,
    pub cap: Option<u128>,
}

impl DeepView for MinterResponse {
    type V = MinterResponseView;

    open spec fn deep_view(&self) -> MinterResponseView {
        MinterResponseView {
            minter: self.minter@,
            cap: self.cap,
        }
    }
}

impl View for MinterResponse {
    type V = MinterResponseView;

    open spec fn view(&self) -> MinterResponseView {
        self.deep_view()
    }
}

/// Whether transfers of a fungible-batch collection start frozen.
#[derive(Debug, Clone, PartialEq, Eq)]
pub struct FrozenData {
    pub frozen: bool,
    pub unfreeze_time: Option<u64>,
    pub whitelisted: Vec<String>,
}

/// The model of `FrozenData`.
pub struct FrozenDataView {
    pub frozen: bool,
    pub unfreeze_time: Option<u64>,
    pub whitelisted: Seq<Seq<char>>,
}

impl DeepView for FrozenData {
    type V = FrozenDataView;

    open spec fn deep_view(&self) -> FrozenDataView {
        FrozenDataView {
            frozen: self.frozen,
            unfreeze_time: self.unfreeze_time,
            whitelisted: self.whitelisted.deep_view(),
        }
    }
}

impl View for FrozenData {
    type V = FrozenDataView;

    open spec fn view(&self) -> FrozenDataView {
        self.deep_view()
    }
}

/// Where a collection's logo is found.
#[derive(Debug, Clone, PartialEq, Eq)]
pub enum Logo {
    Url(String),
}

/// The model of `Logo`.
pub enum LogoView {
    Url(Seq<char>),
}

impl DeepView for Logo {
    type V = LogoView;

    open spec fn deep_view(&self) -> LogoView {
        match self {
            Logo::Url(inner) => LogoView::Url(inner@),
        }
    }
}

impl View for Logo {
    type V = LogoView;

    open spec fn view(&self) -> LogoView {
        self.deep_view()
    }
}

/// How a new fungible-batch contract presents itself.
#[derive(Debug, Clone, PartialEq, Eq)]
pub struct InstantiateMarketingInfo {
    pub project: Option<String>,
    pub description: Option<String>,
    pub marketing: Option<String>,
    pub logo: Option<Logo>,
}

/// The model of `InstantiateMarketingInfo`.
pub struct InstantiateMarketingInfoView {
    pub project: Option<Seq<char>>,
    pub description: Option<Seq<char>>,
    pub marketing: Option<Seq<char>>,
    pub logo: Option<LogoView>,
}

impl DeepView for InstantiateMarketingInfo {
    type V = InstantiateMarketingInfoView;

    open spec fn deep_view(&self) -> InstantiateMarketingInfoView {
        InstantiateMarketingInfoView {
            project: self.project.deep_view(),
            description: self.description.deep_view(),
            marketing: self.marketing.deep_view(),
            logo: self.logo.deep_view(),
        }
    }
}

impl View for InstantiateMarketingInfo {
    type V = InstantiateMarketingInfoView;

    open spec fn view(&self) -> InstantiateMarketingInfoView {
        self.deep_view()
    }
}

/// What a new fungible-batch contract is created with.
#[derive(Debug, Clone, PartialEq, Eq)]
pub struct Cw404InstantiateMsg {
    pub name: String,
    pub symbol: String,
    pub decimals: u8,
    pub is_immutable: bool,
    pub base_uri: String,
    pub base_uri_suffix: Option<String>,
    pub max_edition: u64,
    pub tokens_per_nft: u128,
    pub mint: Option<MinterResponse>,
    pub frozen_data: Option<FrozenData>,
    pub admin: Option<String>,
    pub royalty_percentage: Option<u64>,
    pub royalty_payment_address: Option<String>,
    pub marketing: Option<InstantiateMarketingInfo>,
}

/// The model of `Cw404InstantiateMsg`.
pub struct Cw404InstantiateMsgView {
    pub name: Seq<char>,
    pub symbol: Seq<char>,
    pub decimals: u8,
    pub is_immutable: bool,
    pub base_uri: Seq<char>,
    pub base_uri_suffix: Option<Seq<char>>,
    pub max_edition: u64,
    pub tokens_per_nft: u128,
    pub mint: Option<MinterResponseView>,
    pub frozen_data: Option<FrozenDataView>,
    pub admin: Option<Seq<char>>,
    pub royalty_percentage: Option<u64>,
    pub royalty_payment_address: Option<Seq<char>>,
    pub marketing: Option<InstantiateMarketingInfoView>,
}

impl DeepView for Cw404InstantiateMsg {
    type V = Cw404InstantiateMsgView;

    open spec fn deep_view(&self) -> Cw404InstantiateMsgView {
        Cw404InstantiateMsgView {
            name: self.name@,
            symbol: self.symbol@,
            decimals: self.decimals,
            is_immutable: self.is_immutable,
            base_uri: self.base_uri@,
            base_uri_suffix: self.base_uri_suffix.deep_view(),
            max_edition: self.max_edition,
            tokens_per_nft: self.tokens_per_nft,
            mint: self.mint.deep_view(),
            frozen_data: self.frozen_data.deep_view(),
            admin: self.admin.deep_view(),
            royalty_percentage: self.royalty_percentage,
            royalty_payment_address: self.royalty_payment_address.deep_view(),
            marketing: self.marketing.deep_view(),
        }
    }
}

impl View for Cw404InstantiateMsg {
    type V = Cw404InstantiateMsgView;

    open spec fn view(&self) -> Cw404InstantiateMsgView {
        self.deep_view()
    }
}

/// What the platform asks of a fungible-batch contract.
#[derive(Debug, Clone, PartialEq, Eq)]
pub enum Cw404ExecuteMsg {
    Mint {
        recipient: String,
        amount: u128,
    },
    Unfreeze,
    Update404Data {
        base_uri: String,
        base_uri_suffix: Option<String>,
        max_edition: u64,
        royalty_percentage: Option<u64>,
        royalty_payment_address: Option<String>,
        frozen_whitelist: Option<Vec<String>>,
    },
    TransferOwnership {
        new_admin: String,
    },
}

/// The model of `Cw404ExecuteMsg`.
pub enum Cw404ExecuteMsgView {
    Mint {
        recipient: Seq<char>,
        amount: u128,
    },
    Unfreeze,
    Update404Data {
        base_uri: Seq<char>,
        base_uri_suffix: Option<Seq<char>>,
        max_edition: u64,
        royalty_percentage: Option<u64>,
        royalty_payment_address: Option<Seq<char>>,
        frozen_whitelist: Option<Seq<Seq<char>>>,
    },
    TransferOwnership {
        new_admin: Seq<char>,
    },
}

impl DeepView for Cw404ExecuteMsg {
    type V = Cw404ExecuteMsgView;

    open spec fn deep_view(&self) -> Cw404ExecuteMsgView {
        match self {
            Cw404ExecuteMsg::Mint { recipient, amount } => Cw404ExecuteMsgView::Mint {
                recipient: recipient@,
                amount: *amount,
            },
            Cw404ExecuteMsg::Unfreeze => Cw404ExecuteMsgView::Unfreeze,
            Cw404ExecuteMsg::Update404Data { base_uri, base_uri_suffix, max_edition, royalty_percentage, royalty_payment_address, frozen_whitelist } => Cw404ExecuteMsgView::Update404Data {
                base_uri: base_uri@,
                base_uri_suffix: base_uri_suffix.deep_view(),
                max_edition: *max_edition,
                royalty_percentage: *royalty_percentage,
                royalty_payment_address: royalty_payment_address.deep_view(),
                frozen_whitelist: frozen_whitelist.deep_view(),
            },
            Cw404ExecuteMsg::TransferOwnership { new_admin } => Cw404ExecuteMsgView::TransferOwnership {
                new_admin: new_admin@,
            },
        }
    }
}

impl View for Cw404ExecuteMsg {
    type V = Cw404ExecuteMsgView;

    open spec fn view(&self) -> Cw404ExecuteMsgView {
        self.deep_view()
    }
}

/// What the platform asks of a fungible-token contract on a payer's behalf.
#[derive(Debug, Clone, PartialEq, Eq)]
pub enum Cw20ExecuteMsg {
    TransferFrom {
        owner: String,
        recipient: String,
        amount: u128,
    },
    BurnFrom {
        owner: String,
        amount: u128,
    },
}

/// The model of `Cw20ExecuteMsg`.
pub enum Cw20ExecuteMsgView {
    TransferFrom {
        owner: Seq<char>,
        recipient: Seq<char>,
        amount: u128,
    },
    BurnFrom {
        owner: Seq<char>,
        amount: u128,
    },
}

impl DeepView for Cw20ExecuteMsg {
    type V = Cw20ExecuteMsgView;

    open spec fn deep_view(&self) -> Cw20ExecuteMsgView {
        match self {
            Cw20ExecuteMsg::TransferFrom { owner, recipient, amount } => Cw20ExecuteMsgView::TransferFrom {
                owner: owner@,
                recipient: recipient@,
                amount: *amount,
            },
            Cw20ExecuteMsg::BurnFrom { owner, amount } => Cw20ExecuteMsgView::BurnFrom {
                owner: owner@,
                amount: *amount,
            },
        }
    }
}

impl View for Cw20ExecuteMsg {
    type V = Cw20ExecuteMsgView;

    open spec fn view(&self) -> Cw20ExecuteMsgView {
        self.deep_view()
    }
}

/// A question to the bridged chain. The data of a static call is base64
/// text.
#[derive(Debug, Clone, PartialEq, Eq)]
pub enum EvmQuery {
    StaticCall {
        from: String,
        to: String,
        data: String,
    },
    GetEvmAddress {
        sei_address: String,
    },
    GetSeiAddress {
        evm_address: String,
    },
}

/// The model of `EvmQuery`.
pub enum EvmQueryView {
    StaticCall {
        from: Seq<char>,
        to: Seq<char>,
        data: Seq<char>,
    },
    GetEvmAddress {
        sei_address: Seq<char>,
    },
    GetSeiAddress {
        evm_address: Seq<char>,
    },
}

impl DeepView for EvmQuery {
    type V = EvmQueryView;

    open spec fn deep_view(&self) -> EvmQueryView {
        match self {
            EvmQuery::StaticCall { from, to, data } => EvmQueryView::StaticCall {
                from: from@,
                to: to@,
                data: data@,
            },
            EvmQuery::GetEvmAddress { sei_address } => EvmQueryView::GetEvmAddress {
                sei_address: sei_address@,
            },
            EvmQuery::GetSeiAddress { evm_address } => EvmQueryView::GetSeiAddress {
                evm_address: evm_address@,
            },
        }
    }
}

impl View for EvmQuery {
    type V = EvmQueryView;

    open spec fn view(&self) -> EvmQueryView {
        self.deep_view()
    }
}

/// The bridged-chain address of a native identity, and whether the two are
/// associated at all.
#[derive(Debug, Clone, PartialEq, Eq)]
pub struct GetEvmAddressResponse {
    pub evm_address: String,
    pub associated: bool,
}

/// The model of `GetEvmAddressResponse`.
pub struct GetEvmAddressResponseView {
    pub evm_address: Seq<char>,
    pub associated: bool,
}

impl DeepView for GetEvmAddressResponse {
    type V = GetEvmAddressResponseView;

    open spec fn deep_view(&self) -> GetEvmAddressResponseView {
        GetEvmAddressResponseView {
            evm_address: self.evm_address@,
            associated: self.associated,
        }
    }
}

impl View for GetEvmAddressResponse {
    type V = GetEvmAddressResponseView;

    open spec fn view(&self) -> GetEvmAddressResponseView {
        self.deep_view()
    }
}

/// The native identity behind a bridged-chain address, and whether the two
/// are associated at all.
#[derive(Debug, Clone, PartialEq, Eq)]
pub struct GetSeiAddressResponse {
    pub sei_address: String,
    pub associated: bool,
}

/// The model of `GetSeiAddressResponse`.
pub struct GetSeiAddressResponseView {
    pub sei_address: Seq<char>,
    pub associated: bool,
}

impl DeepView for GetSeiAddressResponse {
    type V = GetSeiAddressResponseView;

    open spec fn deep_view(&self) -> GetSeiAddressResponseView {
        GetSeiAddressResponseView {
            sei_address: self.sei_address@,
            associated: self.associated,
        }
    }
}

impl View for GetSeiAddressResponse {
    type V = GetSeiAddressResponseView;

    open spec fn view(&self) -> GetSeiAddressResponseView {
        self.deep_view()
    }
}

/// A call into the bridged chain. The data is base64 text.
#[derive(Debug, Clone, PartialEq, Eq)]
pub enum EvmMsg {
    CallEvm {
        to: String,
        value: u128,
        data: String,
    },
}

/// The model of `EvmMsg`.
pub enum EvmMsgView {
    CallEvm {
        to: Seq<char>,
        value: u128,
        data: Seq<char>,
    },
}

impl DeepView for EvmMsg {
    type V = EvmMsgView;

    open spec fn deep_view(&self) -> EvmMsgView {
        match self {
            EvmMsg::CallEvm { to, value, data } => EvmMsgView::CallEvm {
                to: to@,
                value: *value,
                data: data@,
            },
        }
    }
}

impl View for EvmMsg {
    type V = EvmMsgView;

    open spec fn view(&self) -> EvmMsgView {
        self.deep_view()
    }
}

/// The token numbers that a wallet holds, as a query reports them.
#[derive(Debug, Clone, PartialEq, Eq)]
pub struct MintInfo {
    pub mints: Vec<u32>,
}

/// A token that gates a mint.
#[derive(Debug, Clone, PartialEq, Eq)]
pub struct GatedInfo {
    pub contract_addr: String,
    pub token_id: String,
}

/// Whether a gating token was already minted against.
#[derive(Debug, Clone, PartialEq, Eq)]
pub struct GatedQueryResponse {
    pub token_id: String,
    pub minted: bool,
}

/// A question about gating tokens of one contract.
#[derive(Debug, Clone, PartialEq, Eq)]
pub struct GatedQuery {
    pub contract_address: String,
    pub token_ids: Vec<String>,
}

/// A question to a fungible-token contract.
#[derive(Debug, Clone, PartialEq, Eq)]
pub enum Cw20QueryMsg {
    Balance { address: String },
}

/// A balance as a fungible-token contract reports it.
#[derive(Debug, Clone, PartialEq, Eq)]
pub struct Cw20BalanceResponse {
    pub balance: u128,
}

/// A question to a unique-token contract.
#[derive(Debug, Clone, PartialEq, Eq)]
pub enum Cw721QueryMsg {
    OwnerOf { token_id: String, include_expired: Option<bool> },
}

/// When an approval ends: at a block height, at a time in nanoseconds, or
/// never.
#[derive(Debug, Clone, PartialEq, Eq)]
pub enum Expiration {
    AtHeight(u64),
    AtTime(u64),
    Never,
}

/// Leave to spend a token, and until when.
#[derive(Debug, Clone, PartialEq, Eq)]
pub struct Approval {
    pub spender: String,
    pub expires: Expiration,
}

/// The owner of a token as a unique-token contract reports it.
#[derive(Debug, Clone, PartialEq, Eq)]
pub struct Cw721OwnerOfResponse {
    pub owner: String,
    pub approvals: Vec<Approval>,
}

} // verus!
