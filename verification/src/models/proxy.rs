use vstd::prelude::*;

verus! {

/// One proxy as a provider lists it.
///
/// The cache keeps the name only: the name is what ties a rule's target to an
/// entry of a provider.
#[derive(Debug, Clone)]
pub struct Proxy {
    pub name: String,
}

impl Proxy {
    pub fn new(name: String) -> (proxy: Proxy)
        ensures
            proxy.name == name,
    {
        Proxy { name }
    }
}

} // verus!
