//! Token records and the approvals they carry.

use vstd::prelude::*;

use crate::expiration::{BlockInfo, Expiration};
use crate::msg::{Extension, MetadataView};

verus! {

/// Leave for one spender to act on one token, until it expires.
#[derive(Clone, Debug, PartialEq)]
pub struct Approval {
    /// The identity that may act on the token.
    pub spender: String,
    /// When the approval lapses.
    pub expires: Expiration,
}

/// What an [`Approval`] says, as plain text.
pub struct ApprovalView {
    pub spender: Seq<char>,
    pub expires: Expiration,
}

impl DeepView for Approval {
    type V = ApprovalView;

    open spec fn deep_view(&self) -> ApprovalView {
        ApprovalView { spender: self.spender@, expires: self.expires }
    }
}

impl View for Approval {
    type V = ApprovalView;

    open spec fn view(&self) -> ApprovalView {
        self.deep_view()
    }
}

impl Approval {
    /// Whether the approval has lapsed in `block`.
    pub fn is_expired(&self, block: &BlockInfo) -> (expired: bool)
        ensures
            expired == self.expires.expired_at(*block),
    {
        self.expires.is_expired(block)
    }
}

/// One token as the ledger stores it.
#[derive(Clone, Debug, PartialEq)]
pub struct TokenRecord {
    /// The identifier under which the token is stored. It never changes.
    pub token_id: String,
    /// Who controls the token.
    pub owner: String,
    /// Leave given to others to act on this token.
    pub approvals: Vec<Approval>,
    /// Reference to off-ledger data about the token.
    pub token_uri: Option<String>,
    /// Metadata stored with the token.
    pub extension: Extension,
}

/// What a [`TokenRecord`] says, as plain text.
pub struct TokenRecordView {
    pub token_id: Seq<char>,
    pub owner: Seq<char>,
    pub approvals: Seq<ApprovalView>,
    pub token_uri: Option<Seq<char>>,
    pub extension: Option<MetadataView>,
}

impl DeepView for TokenRecord {
    type V = TokenRecordView;

    open spec fn deep_view(&self) -> TokenRecordView {
        TokenRecordView {
            token_id: self.token_id@,
            owner: self.owner@,
            approvals: self.approvals.deep_view(),
            token_uri: self.token_uri.deep_view(),
            extension: self.extension.deep_view(),
        }
    }
}

impl View for TokenRecord {
    type V = TokenRecordView;

    open spec fn view(&self) -> TokenRecordView {
        self.deep_view()
    }
}

} // verus!
