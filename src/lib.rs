//! The core of a credentials-provisioning peripheral: the status model, a
//! bounded broadcast of status texts to independent readers, and the
//! coordinator that runs one configuration attempt at a time.

pub mod channel;
pub mod coordinator;
pub mod status;
