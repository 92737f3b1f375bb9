//! Client-side model of a remote proxy manager: the cached rule and provider
//! records, the rendering of their timestamps, and the decisions of the
//! diagnostics bootstrap.

pub mod logging;
pub mod models;
pub mod utils;
