//! The tuner side: status word, parameter enumerations, the property
//! catalog, the typed query protocol, and the batch bound.

pub mod data;
pub mod functions;
pub mod get;
pub mod ioctl;
pub mod property;
pub mod set;
