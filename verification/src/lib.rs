//! The transactional-safety core of a flash-loan protocol.
//!
//! A borrower takes funds from a pooled reserve without collateral and must
//! return them, with a fee, before the enclosing atomic transaction ends.
//! Nothing is held in escrow and nothing is remembered between calls: a
//! borrow is allowed to stand only after it has found, in the list of calls
//! of its own transaction, that it comes first and that a matching repayment
//! comes last. The host executes a transaction wholly or not at all, so a
//! repayment that fails undoes the borrow with it.
//!
//! The crate moves no funds and reads no accounts. It is handed plain
//! values, decides, and hands back the transfer that the host is to perform.
//!
//! - [`address`]: identities of accounts and programs.
//! - [`error`]: the refusals.
//! - [`fee`]: the fee engine.
//! - [`instruction`]: the wire format of the two calls.
//! - [`authority`]: the derivation of the reserve authority.
//! - [`introspection`]: the calls of the current transaction.
//! - [`loan`]: the borrow and the repayment.

pub mod address;
pub mod authority;
pub mod error;
pub mod fee;
pub mod instruction;
pub mod introspection;
pub mod loan;

pub use address::Address;
pub use error::ProtocolError;
pub use loan::{borrow, repay, try_repay, BorrowStage, BorrowStep, Loan, Transfer};
