use std::sync::atomic::AtomicBool;

use vstd::prelude::*;

use crate::utils::time::Timestamp;

verus! {

/// One routing directive of the remote manager: what to match, and where
/// matching traffic goes.
#[derive(Debug)]
pub struct Rule {
    /// The kind of match, such as a domain suffix or an address range.
    pub kind: String,
    pub payload: String,
    pub proxy: String,
    /// 0-based position of the rule in the remote list; present only when the
    /// remote manager numbers its rules.
    pub index: Option<usize>,
    /// Runtime metadata of the rule; present under the same condition as `index`.
    pub extra: Option<RuleExtra>,
    /// Number of sub-rules of a set-like rule; -1 where that does not apply.
    pub size: isize,
    /// What the user has chosen locally. It is not part of the remote record and
    /// says nothing of `extra.disabled`, the state last reported by the remote
    /// manager. Readers and writers on other threads share it through `&Rule`.
    pub disable_state: AtomicBool,
}

/// Runtime metadata that the remote manager keeps for a rule.
#[derive(Debug, Clone)]
pub struct RuleExtra {
    /// Whether the remote manager has the rule disabled.
    pub disabled: bool,
    /// How many times the rule has matched.
    pub hit_count: u64,
    /// When it last matched.
    pub hit_at: Option<Timestamp>,
    /// Rendering of `hit_at`, kept by whoever displays the rule; never part of
    /// the remote record.
    pub hit_at_str: Option<Box<str>>,
}

impl Rule {
    /// A rule as read from the remote record: the local flag starts cleared.
    pub fn new(
        kind: String,
        payload: String,
        proxy: String,
        index: Option<usize>,
        extra: Option<RuleExtra>,
        size: isize,
    ) -> (rule: Rule)
        ensures
            rule.kind == kind,
            rule.payload == payload,
            rule.proxy == proxy,
            rule.index == index,
            rule.extra == extra,
            rule.size == size,
    {
        Rule { kind, payload, proxy, index, extra, size, disable_state: AtomicBool::new(false) }
    }

    /// Whether the rule can be disabled at all: only a rule that the remote
    /// manager both numbers and annotates can.
    pub fn supports_disable(&self) -> (supported: bool)
        ensures
            supported <==> self.index is Some && self.extra is Some,
    {
        self.index.is_some() && self.extra.is_some()
    }
}

impl RuleExtra {
    /// Metadata as read from the remote record: the cached rendering is absent.
    pub fn new(disabled: bool, hit_count: u64, hit_at: Option<Timestamp>) -> (extra: RuleExtra)
        ensures
            extra.disabled == disabled,
            extra.hit_count == hit_count,
            extra.hit_at == hit_at,
            extra.hit_at_str is None,
    {
        RuleExtra { disabled, hit_count, hit_at, hit_at_str: None }
    }
}

} // verus!
