//! What a request is called with and what it answers: the caller and the
//! funds, the time, and the instructions to carry out.

use crate::structs::{
    Cw20ExecuteMsg, Cw20ExecuteMsgView, Cw2981InstantiateMsg, Cw2981InstantiateMsgView,
    Cw2981LHExecuteMsg, Cw2981LHExecuteMsgView, Cw404ExecuteMsg, Cw404ExecuteMsgView,
    Cw404InstantiateMsg, Cw404InstantiateMsgView, EvmMsg, EvmMsgView,
};
use vstd::prelude::*;
use vstd::string::*;

verus! {

/// An amount of one native denomination.
#[derive(Debug, Clone, PartialEq, Eq)]
pub struct Coin {
    pub denom: String,
    pub amount: u128,
}

/// The model of `Coin`.
pub struct CoinView {
    pub denom: Seq<char>,
    pub amount: u128,
}

impl DeepView for Coin {
    type V = CoinView;

    open spec fn deep_view(&self) -> CoinView {
        CoinView {
            denom: self.denom@,
            amount: self.amount,
        }
    }
}

impl View for Coin {
    type V = CoinView;

    open spec fn view(&self) -> CoinView {
        self.deep_view()
    }
}

/// Who sent a request, and the funds attached to it.
#[derive(Debug, Clone, PartialEq, Eq)]
pub struct MessageInfo {
    pub sender: String,
    pub funds: Vec<Coin>,
}

/// The model of `MessageInfo`.
pub struct MessageInfoView {
    pub sender: Seq<char>,
    pub funds: Seq<CoinView>,
}

impl DeepView for MessageInfo {
    type V = MessageInfoView;

    open spec fn deep_view(&self) -> MessageInfoView {
        MessageInfoView {
            sender: self.sender@,
            funds: self.funds.deep_view(),
        }
    }
}

impl View for MessageInfo {
    type V = MessageInfoView;

    open spec fn view(&self) -> MessageInfoView {
        self.deep_view()
    }
}

/// The moment of a request in seconds, and the platform's own address.
#[derive(Debug, Clone, PartialEq, Eq)]
pub struct Env {
    pub block_time: u64,
    pub contract_address: String,
}

/// The model of `Env`.
pub struct EnvView {
    pub block_time: u64,
    pub contract_address: Seq<char>,
}

impl DeepView for Env {
    type V = EnvView;

    open spec fn deep_view(&self) -> EnvView {
        EnvView {
            block_time: self.block_time,
            contract_address: self.contract_address@,
        }
    }
}

impl View for Env {
    type V = EnvView;

    open spec fn view(&self) -> EnvView {
        self.deep_view()
    }
}

/// A note on what a request did.
#[derive(Debug, Clone, PartialEq, Eq)]
pub struct Attribute {
    pub key: String,
    pub value: String,
}

/// The model of `Attribute`.
pub struct AttributeView {
    pub key: Seq<char>,
    pub value: Seq<char>,
}

impl DeepView for Attribute {
    type V = AttributeView;

    open spec fn deep_view(&self) -> AttributeView {
        AttributeView {
            key: self.key@,
            value: self.value@,
        }
    }
}

impl View for Attribute {
    type V = AttributeView;

    open spec fn view(&self) -> AttributeView {
        self.deep_view()
    }
}

/// What a contract on the native chain is asked to do. A mint of a unique
/// token carries no token address of its own and empty royalty data.
#[derive(Debug, Clone, PartialEq, Eq)]
pub enum ExecutePayload {
    Cw20(Cw20ExecuteMsg),
    Cw404(Cw404ExecuteMsg),
    Cw2981(Cw2981LHExecuteMsg),
    Cw721Mint {
        token_id: String,
        owner: String,
    },
    Cw721TransferOwnership {
        new_owner: String,
    },
}

/// The model of `ExecutePayload`.
pub enum ExecutePayloadView {
    Cw20(Cw20ExecuteMsgView),
    Cw404(Cw404ExecuteMsgView),
    Cw2981(Cw2981LHExecuteMsgView),
    Cw721Mint {
        token_id: Seq<char>,
        owner: Seq<char>,
    },
    Cw721TransferOwnership {
        new_owner: Seq<char>,
    },
}

impl DeepView for ExecutePayload {
    type V = ExecutePayloadView;

    open spec fn deep_view(&self) -> ExecutePayloadView {
        match self {
            ExecutePayload::Cw20(inner) => ExecutePayloadView::Cw20(inner.deep_view()),
            ExecutePayload::Cw404(inner) => ExecutePayloadView::Cw404(inner.deep_view()),
            ExecutePayload::Cw2981(inner) => ExecutePayloadView::Cw2981(inner.deep_view()),
            ExecutePayload::Cw721Mint { token_id, owner } => ExecutePayloadView::Cw721Mint {
                token_id: token_id@,
                owner: owner@,
            },
            ExecutePayload::Cw721TransferOwnership { new_owner } => ExecutePayloadView::Cw721TransferOwnership {
                new_owner: new_owner@,
            },
        }
    }
}

impl View for ExecutePayload {
    type V = ExecutePayloadView;

    open spec fn view(&self) -> ExecutePayloadView {
        self.deep_view()
    }
}

/// What a new collection contract is created with.
#[derive(Debug, Clone, PartialEq, Eq)]
pub enum InstantiatePayload {
    Cw2981(Cw2981InstantiateMsg),
    Cw404(Cw404InstantiateMsg),
}

/// The model of `InstantiatePayload`.
pub enum InstantiatePayloadView {
    Cw2981(Cw2981InstantiateMsgView),
    Cw404(Cw404InstantiateMsgView),
}

impl DeepView for InstantiatePayload {
    type V = InstantiatePayloadView;

    open spec fn deep_view(&self) -> InstantiatePayloadView {
        match self {
            InstantiatePayload::Cw2981(inner) => InstantiatePayloadView::Cw2981(inner.deep_view()),
            InstantiatePayload::Cw404(inner) => InstantiatePayloadView::Cw404(inner.deep_view()),
        }
    }
}

impl View for InstantiatePayload {
    type V = InstantiatePayloadView;

    open spec fn view(&self) -> InstantiatePayloadView {
        self.deep_view()
    }
}

/// One instruction for the host: a transfer of native currency, a call of a
/// contract, the creation of a contract, a change of a contract's admin, or a
/// call into the bridged chain. Calls and creations attach no funds.
#[derive(Debug, Clone, PartialEq, Eq)]
pub enum CosmosMsg {
    BankSend {
        to_address: String,
        amount: Coin,
    },
    WasmExecute {
        contract_addr: String,
        msg: ExecutePayload,
    },
    WasmInstantiate {
        code_id: u64,
        msg: InstantiatePayload,
        admin: String,
        label: String,
    },
    WasmUpdateAdmin {
        contract_addr: String,
        admin: String,
    },
    Custom(EvmMsg),
}

/// The model of `CosmosMsg`.
pub enum CosmosMsgView {
    BankSend {
        to_address: Seq<char>,
        amount: CoinView,
    },
    WasmExecute {
        contract_addr: Seq<char>,
        msg: ExecutePayloadView,
    },
    WasmInstantiate {
        code_id: u64,
        msg: InstantiatePayloadView,
        admin: Seq<char>,
        label: Seq<char>,
    },
    WasmUpdateAdmin {
        contract_addr: Seq<char>,
        admin: Seq<char>,
    },
    Custom(EvmMsgView),
}

impl DeepView for CosmosMsg {
    type V = CosmosMsgView;

    open spec fn deep_view(&self) -> CosmosMsgView {
        match self {
            CosmosMsg::BankSend { to_address, amount } => CosmosMsgView::BankSend {
                to_address: to_address@,
                amount: amount.deep_view(),
            },
            CosmosMsg::WasmExecute { contract_addr, msg } => CosmosMsgView::WasmExecute {
                contract_addr: contract_addr@,
                msg: msg.deep_view(),
            },
            CosmosMsg::WasmInstantiate { code_id, msg, admin, label } => CosmosMsgView::WasmInstantiate {
                code_id: *code_id,
                msg: msg.deep_view(),
                admin: admin@,
                label: label@,
            },
            CosmosMsg::WasmUpdateAdmin { contract_addr, admin } => CosmosMsgView::WasmUpdateAdmin {
                contract_addr: contract_addr@,
                admin: admin@,
            },
            CosmosMsg::Custom(inner) => CosmosMsgView::Custom(inner.deep_view()),
        }
    }
}

impl View for CosmosMsg {
    type V = CosmosMsgView;

    open spec fn view(&self) -> CosmosMsgView {
        self.deep_view()
    }
}

/// When the host reports back on an instruction.
#[derive(Debug, Clone, Copy, PartialEq, Eq, Structural)]
pub enum ReplyOn {
    Always,
    Error,
    Success,
    Never,
}

/// An instruction with the correlation id under which the host reports
/// back.
#[derive(Debug, Clone, PartialEq, Eq)]
pub struct SubMsg {
    pub id: u64,
    pub msg: CosmosMsg,
    pub reply_on: ReplyOn,
}

/// The model of `SubMsg`.
pub struct SubMsgView {
    pub id: u64,
    pub msg: CosmosMsgView,
    pub reply_on: ReplyOn,
}

impl DeepView for SubMsg {
    type V = SubMsgView;

    open spec fn deep_view(&self) -> SubMsgView {
        SubMsgView {
            id: self.id,
            msg: self.msg.deep_view(),
            reply_on: self.reply_on,
        }
    }
}

impl View for SubMsg {
    type V = SubMsgView;

    open spec fn view(&self) -> SubMsgView {
        self.deep_view()
    }
}

/// The host's report that the contract created under a correlation id now
/// lives at an address.
#[derive(Debug, Clone, PartialEq, Eq)]
pub struct Reply {
    pub id: u64,
    pub contract_address: String,
}

/// The model of `Reply`.
pub struct ReplyView {
    pub id: u64,
    pub contract_address: Seq<char>,
}

impl DeepView for Reply {
    type V = ReplyView;

    open spec fn deep_view(&self) -> ReplyView {
        ReplyView {
            id: self.id,
            contract_address: self.contract_address@,
        }
    }
}

impl View for Reply {
    type V = ReplyView;

    open spec fn view(&self) -> ReplyView {
        self.deep_view()
    }
}

/// The answer to a request: instructions in the order they are to be
/// carried out, and notes.
#[derive(Debug, Clone, PartialEq, Eq)]
pub struct Response {
    pub messages: Vec<SubMsg>,
    pub attributes: Vec<Attribute>,
}

/// The model of `Response`.
pub struct ResponseView {
    pub messages: Seq<SubMsgView>,
    pub attributes: Seq<AttributeView>,
}

impl DeepView for Response {
    type V = ResponseView;

    open spec fn deep_view(&self) -> ResponseView {
        ResponseView {
            messages: self.messages.deep_view(),
            attributes: self.attributes.deep_view(),
        }
    }
}

impl View for Response {
    type V = ResponseView;

    open spec fn view(&self) -> ResponseView {
        self.deep_view()
    }
}

/// An instruction on which the host does not report back.
pub open spec fn plain(msg: CosmosMsgView) -> SubMsgView {
    SubMsgView { id: 0, msg, reply_on: ReplyOn::Never }
}

/// A note.
pub open spec fn note(key: Seq<char>, value: Seq<char>) -> AttributeView {
    AttributeView { key, value }
}

impl Response {
    /// An answer without instructions or notes.
    pub fn new() -> (response: Response)
        ensures
            response@.messages == Seq::<SubMsgView>::empty(),
            response@.attributes == Seq::<AttributeView>::empty(),
    {
        let response = Response { messages: Vec::new(), attributes: Vec::new() };
        assert(response@.messages =~= Seq::<SubMsgView>::empty());
        assert(response@.attributes =~= Seq::<AttributeView>::empty());
        response
    }

    /// Adds an instruction on which the host does not report back.
    pub fn add_message(&mut self, msg: CosmosMsg)
        ensures
            final(self)@.messages == old(self)@.messages.push(plain(msg@)),
            final(self)@.attributes == old(self)@.attributes,
    {
        self.messages.push(SubMsg { id: 0, msg, reply_on: ReplyOn::Never });
        assert(self@.messages =~= old(self)@.messages.push(plain(msg@)));
    }

    /// Adds an instruction with its correlation id.
    pub fn add_submessage(&mut self, msg: SubMsg)
        ensures
            final(self)@.messages == old(self)@.messages.push(msg@),
            final(self)@.attributes == old(self)@.attributes,
    {
        self.messages.push(msg);
        assert(self@.messages =~= old(self)@.messages.push(msg@));
    }

    /// Adds a note.
    pub fn add_attribute(&mut self, key: &str, value: String)
        ensures
            final(self)@.attributes == old(self)@.attributes.push(note(key@, value@)),
            final(self)@.messages == old(self)@.messages,
    {
        let key = String::from_str(key);
        self.attributes.push(Attribute { key, value });
        assert(self@.attributes =~= old(self)@.attributes.push(note(key@, value@)));
    }
}

} // verus!
