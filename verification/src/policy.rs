//! The owner's sharing rules and the resources they grant.
use crate::values::Plain;
use vstd::prelude::*;

verus! {

/// Processor, memory and disk of a worker or of its host.
#[derive(Clone, Copy, Debug, PartialEq, Eq, Structural)]
pub struct Resources {
    pub cpus: u16,
    pub memory_mib: u64,
    pub disk_gib: u64,
}

/// The owner's sharing rules. The schedule, idle and power rules are kept as the
/// text that the rule evaluator reads.
#[derive(Debug)]
pub struct Policy {
    pub enabled: bool,
    pub resources: Resources,
    pub drain_seconds: u32,
    pub allow_ci: bool,
    pub allow_services: bool,
    pub rules: String,
}

/// The content of a `Policy`.
#[verifier::ext_equal]
pub struct PolicyView {
    pub enabled: bool,
    pub resources: Resources,
    pub drain_seconds: u32,
    pub allow_ci: bool,
    pub allow_services: bool,
    pub rules: Seq<char>,
}

impl View for Policy {
    type V = PolicyView;

    open spec fn view(&self) -> PolicyView {
        PolicyView {
            enabled: self.enabled,
            resources: self.resources,
            drain_seconds: self.drain_seconds,
            allow_ci: self.allow_ci,
            allow_services: self.allow_services,
            rules: self.rules@,
        }
    }
}

impl Plain for Policy {
    fn duplicate(&self) -> (r: Self) {
        Policy {
            enabled: self.enabled,
            resources: self.resources,
            drain_seconds: self.drain_seconds,
            allow_ci: self.allow_ci,
            allow_services: self.allow_services,
            rules: self.rules.clone(),
        }
    }

    fn alike(&self, other: &Self) -> (r: bool) {
        self.enabled == other.enabled
            && self.resources == other.resources
            && self.drain_seconds == other.drain_seconds
            && self.allow_ci == other.allow_ci
            && self.allow_services == other.allow_services
            && self.rules.alike(&other.rules)
    }
}

impl Clone for Policy {
    fn clone(&self) -> (r: Self)
        ensures
            r@ == self@,
    {
        self.duplicate()
    }
}

} // verus!
