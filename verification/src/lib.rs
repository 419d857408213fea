//! Verified core of a todo service and its REST gateway: the wire messages,
//! the paging model and the conversions between them, the todo entity and
//! its wire form, the service's request-handling decisions and error
//! reporting, and the gateway's request shaping.

pub mod logging;
pub mod model;
pub mod paging;
pub mod service;
pub mod text;
pub mod timestamp;
pub mod web;
pub mod wire;
