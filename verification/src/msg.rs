//! The messages that the ledger accepts, and the metadata a token carries.

use vstd::prelude::*;

use crate::expiration::Expiration;

verus! {

/// One attribute of a token's metadata.
#[derive(Clone, Debug, PartialEq)]
pub struct Trait {
    pub display_type: Option<String>,
    pub trait_type: String,
    pub value: String,
}

/// What a [`Trait`] says, as plain text.
pub struct TraitView {
    pub display_type: Option<Seq<char>>,
    pub trait_type: Seq<char>,
    pub value: Seq<char>,
}

impl DeepView for Trait {
    type V = TraitView;

    open spec fn deep_view(&self) -> TraitView {
        TraitView {
            display_type: self.display_type.deep_view(),
            trait_type: self.trait_type@,
            value: self.value@,
        }
    }
}

impl View for Trait {
    type V = TraitView;

    open spec fn view(&self) -> TraitView {
        self.deep_view()
    }
}

impl Default for Trait {
    /// A trait that says nothing.
    fn default() -> (attribute: Trait)
        ensures
            attribute@ == (TraitView {
                display_type: None,
                trait_type: Seq::<char>::empty(),
                value: Seq::<char>::empty(),
            }),
    {
        Trait { display_type: None, trait_type: String::new(), value: String::new() }
    }
}

/// Metadata stored with a token. The ledger carries it and never looks
/// inside.
#[derive(Clone, Debug, PartialEq)]
pub struct Metadata {
    pub image: Option<String>,
    pub image_data: Option<String>,
    pub external_url: Option<String>,
    pub description: Option<String>,
    pub name: Option<String>,
    pub attributes: Option<Vec<Trait>>,
    pub background_color: Option<String>,
    pub animation_url: Option<String>,
    pub youtube_url: Option<String>,
}

/// What a [`Metadata`] says, as plain text.
pub struct MetadataView {
    pub image: Option<Seq<char>>,
    pub image_data: Option<Seq<char>>,
    pub external_url: Option<Seq<char>>,
    pub description: Option<Seq<char>>,
    pub name: Option<Seq<char>>,
    pub attributes: Option<Seq<TraitView>>,
    pub background_color: Option<Seq<char>>,
    pub animation_url: Option<Seq<char>>,
    pub youtube_url: Option<Seq<char>>,
}

impl DeepView for Metadata {
    type V = MetadataView;

    open spec fn deep_view(&self) -> MetadataView {
        MetadataView {
            image: self.image.deep_view(),
            image_data: self.image_data.deep_view(),
            external_url: self.external_url.deep_view(),
            description: self.description.deep_view(),
            name: self.name.deep_view(),
            attributes: self.attributes.deep_view(),
            background_color: self.background_color.deep_view(),
            animation_url: self.animation_url.deep_view(),
            youtube_url: self.youtube_url.deep_view(),
        }
    }
}

impl View for Metadata {
    type V = MetadataView;

    open spec fn view(&self) -> MetadataView {
        self.deep_view()
    }
}

impl Default for Metadata {
    /// Metadata with every field absent.
    fn default() -> (metadata: Metadata)
        ensures
            metadata@ == (MetadataView {
                image: None,
                image_data: None,
                external_url: None,
                description: None,
                name: None,
                attributes: None,
                background_color: None,
                animation_url: None,
                youtube_url: None,
            }),
    {
        Metadata {
            image: None,
            image_data: None,
            external_url: None,
            description: None,
            name: None,
            attributes: None,
            background_color: None,
            animation_url: None,
            youtube_url: None,
        }
    }
}

/// The metadata slot of a token: present or not.
pub type Extension = Option<Metadata>;

/// A request to mint. It names no identifier: the ledger assigns one.
#[derive(Clone, Debug, PartialEq)]
pub struct MintMsgInput<T> {
    /// The owner of the newly minted token.
    pub owner: String,
    /// Reference to off-ledger data about the token.
    pub token_uri: Option<String>,
    /// Metadata stored with the token.
    pub extension: T,
}

/// What a [`MintMsgInput`] asks for, as plain text.
pub struct MintMsgInputView<V> {
    pub owner: Seq<char>,
    pub token_uri: Option<Seq<char>>,
    pub extension: V,
}

impl<T: DeepView> View for MintMsgInput<T> {
    type V = MintMsgInputView<T::V>;

    open spec fn view(&self) -> MintMsgInputView<T::V> {
        MintMsgInputView {
            owner: self.owner@,
            token_uri: self.token_uri.deep_view(),
            extension: self.extension.deep_view(),
        }
    }
}

/// A request to the base token library to mint under a given identifier.
#[derive(Clone, Debug, PartialEq)]
pub struct MintMsg<T> {
    /// The identifier of the new token.
    pub token_id: String,
    /// The owner of the newly minted token.
    pub owner: String,
    /// Reference to off-ledger data about the token.
    pub token_uri: Option<String>,
    /// Metadata stored with the token.
    pub extension: T,
}

/// What a [`MintMsg`] asks for, as plain text.
pub struct MintMsgView<V> {
    pub token_id: Seq<char>,
    pub owner: Seq<char>,
    pub token_uri: Option<Seq<char>>,
    pub extension: V,
}

impl<T: DeepView> View for MintMsg<T> {
    type V = MintMsgView<T::V>;

    open spec fn view(&self) -> MintMsgView<T::V> {
        MintMsgView {
            token_id: self.token_id@,
            owner: self.owner@,
            token_uri: self.token_uri.deep_view(),
            extension: self.extension.deep_view(),
        }
    }
}

/// What sets a ledger up.
#[derive(Clone, Debug, PartialEq)]
pub struct InstantiateMsg {
    /// Name of the collection.
    pub name: String,
    /// Symbol of the collection.
    pub symbol: String,
    /// The only identity that may mint.
    pub minter: String,
}

/// Every operation that can be asked of the ledger.
#[derive(Clone, Debug, PartialEq)]
pub enum ExecuteMsg {
    /// Destroy a token.
    Burn { token_id: String },
    /// Mint a new token under the next identifier.
    Mint(MintMsgInput<Extension>),
    /// Move a token to another account.
    TransferNft { recipient: String, token_id: String },
    /// Move a token to a contract and have it act on `msg`.
    SendNft { contract: String, token_id: String, msg: Vec<u8> },
    /// Let `spender` act on one token, forever if `expires` is not set.
    Approve { spender: String, token_id: String, expires: Option<Expiration> },
    /// Take back an approval.
    Revoke { spender: String, token_id: String },
    /// Let `operator` act on every token of the sender.
    ApproveAll { operator: String, expires: Option<Expiration> },
    /// Take back an operator grant.
    RevokeAll { operator: String },
}

/// What an [`ExecuteMsg`] or a [`BaseExecuteMsg`] asks for, as plain text.
pub enum ExecuteMsgView {
    Burn { token_id: Seq<char> },
    Mint(MintMsgInputView<Option<MetadataView>>),
    TransferNft { recipient: Seq<char>, token_id: Seq<char> },
    SendNft { contract: Seq<char>, token_id: Seq<char>, msg: Seq<u8> },
    Approve { spender: Seq<char>, token_id: Seq<char>, expires: Option<Expiration> },
    Revoke { spender: Seq<char>, token_id: Seq<char> },
    ApproveAll { operator: Seq<char>, expires: Option<Expiration> },
    RevokeAll { operator: Seq<char> },
}

impl ExecuteMsgView {
    /// Whether the message is one that the base token library handles:
    /// anything but a mint or a burn.
    pub open spec fn is_base(self) -> bool {
        !(self is Burn) && !(self is Mint)
    }
}

impl View for ExecuteMsg {
    type V = ExecuteMsgView;

    open spec fn view(&self) -> ExecuteMsgView {
        match *self {
            ExecuteMsg::Burn { token_id } => ExecuteMsgView::Burn { token_id: token_id@ },
            ExecuteMsg::Mint(mint) => ExecuteMsgView::Mint(mint@),
            ExecuteMsg::TransferNft { recipient, token_id } => ExecuteMsgView::TransferNft {
                recipient: recipient@,
                token_id: token_id@,
            },
            ExecuteMsg::SendNft { contract, token_id, msg } => ExecuteMsgView::SendNft {
                contract: contract@,
                token_id: token_id@,
                msg: msg@,
            },
            ExecuteMsg::Approve { spender, token_id, expires } => ExecuteMsgView::Approve {
                spender: spender@,
                token_id: token_id@,
                expires,
            },
            ExecuteMsg::Revoke { spender, token_id } => ExecuteMsgView::Revoke {
                spender: spender@,
                token_id: token_id@,
            },
            ExecuteMsg::ApproveAll { operator, expires } => ExecuteMsgView::ApproveAll {
                operator: operator@,
                expires,
            },
            ExecuteMsg::RevokeAll { operator } => ExecuteMsgView::RevokeAll { operator: operator@ },
        }
    }
}

impl ExecuteMsg {
    /// Whether the message is one that the base token library handles.
    pub fn is_base(&self) -> (base: bool)
        ensures
            base == self@.is_base(),
    {
        match self {
            ExecuteMsg::Burn { .. } => false,
            ExecuteMsg::Mint(_) => false,
            _ => true,
        }
    }
}

/// The operations that the base token library handles.
#[derive(Clone, Debug, PartialEq)]
pub enum BaseExecuteMsg {
    /// Move a token to another account.
    TransferNft { recipient: String, token_id: String },
    /// Move a token to a contract and have it act on `msg`.
    SendNft { contract: String, token_id: String, msg: Vec<u8> },
    /// Let `spender` act on one token, forever if `expires` is not set.
    Approve { spender: String, token_id: String, expires: Option<Expiration> },
    /// Take back an approval.
    Revoke { spender: String, token_id: String },
    /// Let `operator` act on every token of the sender.
    ApproveAll { operator: String, expires: Option<Expiration> },
    /// Take back an operator grant.
    RevokeAll { operator: String },
}

impl View for BaseExecuteMsg {
    type V = ExecuteMsgView;

    /// A base message is seen as the same message of the wider set.
    open spec fn view(&self) -> ExecuteMsgView {
        match *self {
            BaseExecuteMsg::TransferNft { recipient, token_id } => ExecuteMsgView::TransferNft {
                recipient: recipient@,
                token_id: token_id@,
            },
            BaseExecuteMsg::SendNft { contract, token_id, msg } => ExecuteMsgView::SendNft {
                contract: contract@,
                token_id: token_id@,
                msg: msg@,
            },
            BaseExecuteMsg::Approve { spender, token_id, expires } => ExecuteMsgView::Approve {
                spender: spender@,
                token_id: token_id@,
                expires,
            },
            BaseExecuteMsg::Revoke { spender, token_id } => ExecuteMsgView::Revoke {
                spender: spender@,
                token_id: token_id@,
            },
            BaseExecuteMsg::ApproveAll { operator, expires } => ExecuteMsgView::ApproveAll {
                operator: operator@,
                expires,
            },
            BaseExecuteMsg::RevokeAll { operator } => ExecuteMsgView::RevokeAll {
                operator: operator@,
            },
        }
    }
}

impl BaseExecuteMsg {
    /// Hands a message to the base token library as it is. A mint or a burn
    /// is not such a message.
    pub fn from(msg: ExecuteMsg) -> (base: BaseExecuteMsg)
        requires
            msg@.is_base(),
        ensures
            base@ == msg@,
    {
        match msg {
            ExecuteMsg::TransferNft { recipient, token_id } => BaseExecuteMsg::TransferNft {
                recipient,
                token_id,
            },
            ExecuteMsg::SendNft { contract, token_id, msg } => BaseExecuteMsg::SendNft {
                contract,
                token_id,
                msg,
            },
            ExecuteMsg::Approve { spender, token_id, expires } => BaseExecuteMsg::Approve {
                spender,
                token_id,
                expires,
            },
            ExecuteMsg::Revoke { spender, token_id } => BaseExecuteMsg::Revoke {
                spender,
                token_id,
            },
            ExecuteMsg::ApproveAll { operator, expires } => BaseExecuteMsg::ApproveAll {
                operator,
                expires,
            },
            ExecuteMsg::RevokeAll { operator } => BaseExecuteMsg::RevokeAll { operator },
            ExecuteMsg::Burn { .. } | ExecuteMsg::Mint(_) => unreached(),
        }
    }
}

} // verus!
