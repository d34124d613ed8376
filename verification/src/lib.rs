//! A digital will kept on a ledger.
//!
//! A will binds a creator, a beneficiary, a release time and two encrypted
//! shares of a secret. Its creator activates it and may revoke it; once the
//! release time has come, its beneficiary may claim it. The status of the
//! will is the one signal that others act on: a share held elsewhere is
//! released only for a will that is `Claimed`.
//!
//! - `account`: the will record and its bounds
//! - `status`, `error`, `identity`: the plain types it is made of
//! - `ledger`: the requests that create a will and move it on
//! - `layout`: the storage a will needs
//! - `address`: where the ledger keeps a will
//! - `clock`: the ledger's time
//! - `laws`: what holds of every will and every request

pub mod account;
pub mod address;
pub mod clock;
pub mod error;
pub mod identity;
pub mod laws;
pub mod layout;
pub mod ledger;
pub mod status;

pub use account::{WillAccount, MAX_DESCRIPTION_LEN, MAX_NAME_LEN, MAX_SHARE_LEN};
pub use address::will_address;
pub use error::{ClaimError, ErrorCode};
pub use identity::Identity;
pub use layout::{will_space, MAX_SPACE, MIN_SPACE};
pub use ledger::{activate_will, claim_will, claim_will_at, create_will, revoke_will};
pub use status::Status;
