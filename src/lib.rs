//! Client library for submitting analytics events to a collection endpoint.
//!
//! The library builds everything that goes on the wire: the merged property
//! sets, the header set, and the typed event envelope. Sending the request is
//! left to the caller, who receives a fully checked envelope or an error.
pub mod device;
pub mod error;
pub mod event;
pub mod headers;
pub mod properties;
pub mod strmap;
pub mod tracker;
