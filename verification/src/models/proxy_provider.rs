use vstd::prelude::*;

use crate::models::proxy::Proxy;
use crate::utils::time::Timestamp;

verus! {

/// A named source of proxy definitions, as the remote manager reports it.
#[derive(Debug, Clone)]
pub struct ProxyProvider {
    pub name: String,
    pub vehicle_type: String,
    pub proxies: Vec<Proxy>,
    pub subscription_info: Option<SubscriptionInfo>,
    /// When the provider was last refreshed on the remote side.
    pub updated_at: Option<Timestamp>,
    /// Rendering of `updated_at`, kept by whoever displays the provider; never
    /// part of the remote record.
    pub updated_at_str: Option<Box<str>>,
}

/// Usage and quota of a subscription. The remote manager reports each counter
/// on its own, so each may be missing on its own.
#[derive(Debug, Clone)]
pub struct SubscriptionInfo {
    /// Bytes downloaded.
    pub download: Option<u64>,
    /// Bytes uploaded.
    pub upload: Option<u64>,
    /// Bytes the subscription allows in total.
    pub total: Option<u64>,
    /// When the subscription ends, in whole seconds since the epoch.
    pub expire: Option<u64>,
}

impl ProxyProvider {
    /// A provider as read from the remote record: the cached rendering is absent.
    pub fn new(
        name: String,
        vehicle_type: String,
        proxies: Vec<Proxy>,
        subscription_info: Option<SubscriptionInfo>,
        updated_at: Option<Timestamp>,
    ) -> (provider: ProxyProvider)
        ensures
            provider.name == name,
            provider.vehicle_type == vehicle_type,
            provider.proxies == proxies,
            provider.subscription_info == subscription_info,
            provider.updated_at == updated_at,
            provider.updated_at_str is None,
    {
        ProxyProvider {
            name,
            vehicle_type,
            proxies,
            subscription_info,
            updated_at,
            updated_at_str: None,
        }
    }
}

impl SubscriptionInfo {
    pub fn new(
        download: Option<u64>,
        upload: Option<u64>,
        total: Option<u64>,
        expire: Option<u64>,
    ) -> (info: SubscriptionInfo)
        ensures
            info.download == download,
            info.upload == upload,
            info.total == total,
            info.expire == expire,
    {
        SubscriptionInfo { download, upload, total, expire }
    }
}

} // verus!
