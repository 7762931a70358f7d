//! The order-processing core of a food-ordering platform.
//!
//! The crate owns the life cycle of an order: it checks prices against the
//! restaurant's catalogue, guards every status change, walks the create-order
//! saga one decision at a time, and turns domain events into the requests
//! sent to the payment and restaurant-approval services.
//!
//! Nothing here talks to a database or a broker. The use cases in
//! [`service`] say what they need and are told what came back; [`mapper`]
//! and [`row`] give the messages and rows to send and store. Only [`fresh`]
//! reaches outside, for random identifiers and the time.
//!
//! Throughout, a UUID is held as the 128-bit number it stands for, money as
//! a whole number of minor units, and a point in time as seconds since the
//! Unix epoch.

pub mod domain_service;
pub mod dto;
pub mod entity;
pub mod error;
pub mod event;
pub mod fresh;
pub mod mapper;
pub mod message;
pub mod money;
pub mod row;
pub mod service;
pub mod value_object;
