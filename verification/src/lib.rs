//! Client-side logic for driving a crowdfunding contract: addresses and their
//! bech32 form, the persisted interactor state, and the calls the interactor
//! sends.

pub mod address;
pub mod state;
pub mod interact;
pub mod deadline;
