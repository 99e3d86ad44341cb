//! Course certificates and non-transferable reward tokens, modelled as
//! verified state machines over the contracts' instance storage.

pub mod bytes;
pub mod store;
pub mod certificate;
pub mod token;
pub mod certificate_laws;
pub mod token_laws;
