//! A non-fungible token ledger with allocator-assigned identifiers.
//!
//! Tokens are minted under sequential decimal identifiers that callers cannot
//! choose, and burnt by whoever may act as their owner: the owner, a spender
//! holding an unexpired approval on the token, or an operator holding an
//! unexpired grant over all of the owner's tokens.
//!
//! - [`contract`] holds the operations: [`instantiate`], [`execute`],
//!   [`execute_mint`] and [`execute_burn`], each with the mathematical
//!   function that says what it returns and what it leaves behind.
//! - [`auth`] decides who may act as the owner of a token.
//! - [`ledger`] is the state they work on, with the counters and the mint
//!   of the base token library; [`store`] keeps its tokens and operator
//!   grants, and [`token`] says what a token record is.
//! - [`msg`], [`response`] and [`error`] are what goes in and what comes out.
//! - [`expiration`] measures grants against a block, and [`decimal`] writes
//!   identifiers.
//! - [`laws`] proves what holds over whole histories of mints and burns.

pub mod assoc;
pub mod auth;
pub mod contract;
pub mod decimal;
pub mod error;
pub mod expiration;
pub mod laws;
pub mod ledger;
pub mod msg;
pub mod response;
pub mod store;
pub mod token;

pub use crate::auth::{check_can_send, check_operator};
pub use crate::contract::{execute, execute_burn, execute_mint, instantiate, Handled};
pub use crate::decimal::to_decimal;
pub use crate::error::ContractError;
pub use crate::expiration::{BlockInfo, Expiration, Timestamp};
pub use crate::ledger::{IdentifierAllocator, Ledger};
pub use crate::msg::{
    BaseExecuteMsg, ExecuteMsg, Extension, InstantiateMsg, Metadata, MintMsg, MintMsgInput, Trait,
};
pub use crate::response::{Attribute, Response};
pub use crate::store::{OperatorStore, TokenStore};
pub use crate::token::{Approval, TokenRecord};
