pub mod proxy;
pub mod proxy_provider;
pub mod rule;
