use vstd::prelude::*;

pub mod iban;
pub mod ids;
pub mod payload;
pub mod records;
pub mod ledger;
pub mod handlers;
pub mod laws;


verus! {

/// Marker context for the bus consumer; the client callbacks that the bus
/// library drives with it live outside the verified core.
pub struct CustomContext;

} // verus!
