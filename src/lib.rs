//! Pays out one fungible token from a single source account to many
//! recipients in one instruction, each recipient with its own amount.
//!
//! The routine that decides what happens is [`Distribution`]: the caller
//! hands it the amounts and the number of recipient accounts, performs each
//! [`Action`] it asks for (reading a recipient's data, issuing a checked
//! transfer) and reports the outcome back, until it says [`Action::Finish`].
mod account;
mod distribution;
mod error;

pub use account::{check_arity, check_recipient, is_token_account};
pub use error::{ErrorCode, SendError};
pub use distribution::{
    all_orders, lemma_order_determinism, lemma_positional_pairing, order_at, orders_before, Action, Distribution, DistributionView, Stage,
    TransferOrder,
};
