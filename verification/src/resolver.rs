//! The static name-resolution override subsystem.
//!
//! A [`StaticResolver`] is bound to one fixed address and answers every
//! lookup with it, ignoring the hostname and never touching a real
//! resolver.  A [`ResolutionPlan`] is the validated form of
//! [`crate::settings::DnsSettings`]: one binding per override entry, plus an
//! optional catch-all fallback resolver.  Per-hostname bindings always take
//! precedence over the fallback, by construction: they are distinct
//! bindings, not a priority list consulted at lookup time.
//!
//! Hostnames are compared exactly as given.  The underlying engine
//! lower-cases a bound hostname and matches case-insensitively on the
//! wire, so overrides should be supplied in lower case for this model and
//! the engine to agree.

use vstd::prelude::*;

use crate::addr::{is_ipv4_literal, ipv4_text, Ipv4};
use crate::addr::parse_ipv4;
use crate::error::RhttpError;
use crate::settings::{DnsOverride, DnsSettings};

verus! {

/// A resolution strategy bound to exactly one address: resolving any
/// hostname through it yields that address, immediately and infallibly.
#[derive(Clone, Copy, PartialEq, Eq, Structural, Debug)]
pub struct StaticResolver {
    pub address: Ipv4,
}

impl StaticResolver {
    /// Answers the lookup with the bound address, whatever the hostname.
    pub fn resolve(&self, _hostname: &str) -> (r: Ipv4)
        ensures
            r == self.address,
    {
        self.address
    }
}

/// One validated override: a hostname bound to its parsed address list.
#[derive(Clone, Debug)]
pub struct HostBinding {
    pub hostname: String,
    pub addresses: Vec<Ipv4>,
}

/// The validated resolution bindings derived from `DnsSettings`.
#[derive(Clone, Debug)]
pub struct ResolutionPlan {
    pub bindings: Vec<HostBinding>,
    pub fallback: Option<StaticResolver>,
}

/// Every address literal of this override parses.
pub open spec fn override_valid(o: DnsOverride) -> bool {
    forall|j: int| 0 <= j < o.addresses.len() ==> is_ipv4_literal(#[trigger] o.addresses[j]@)
}

/// Every literal of the settings parses: each override list and, when
/// present, the fallback.
pub open spec fn dns_valid(d: DnsSettings) -> bool {
    &&& forall|i: int| 0 <= i < d.overrides.len() ==> override_valid(#[trigger] d.overrides[i])
    &&& (d.fallback matches Some(f) ==> is_ipv4_literal(f@))
}

/// The literal at position `j` of override `i` is the first invalid one,
/// in the order the fail-fast pipeline reads them: every earlier override
/// is wholly valid and every earlier literal of this override parses.
pub open spec fn first_bad_literal_at(d: DnsSettings, literal: Seq<char>, i: int, j: int) -> bool {
    &&& 0 <= i < d.overrides@.len()
    &&& 0 <= j < d.overrides@[i].addresses@.len()
    &&& literal == d.overrides@[i].addresses@[j]@
    &&& !is_ipv4_literal(literal)
    &&& forall|k: int| 0 <= k < i ==> override_valid(#[trigger] d.overrides@[k])
    &&& forall|k: int| 0 <= k < j ==> is_ipv4_literal(#[trigger] d.overrides@[i].addresses@[k]@)
}

/// The binding that answers for `host`: the last override naming it wins.
pub open spec fn binding_for(bindings: Seq<HostBinding>, host: Seq<char>) -> Option<HostBinding>
    decreases bindings.len(),
{
    if bindings.len() == 0 {
        None
    } else if bindings.last().hostname@ == host {
        Some(bindings.last())
    } else {
        binding_for(bindings.drop_last(), host)
    }
}

/// What the plan resolves `host` to: the matching binding's addresses,
/// else the fallback's single address, else nothing.
pub open spec fn plan_lookup(plan: ResolutionPlan, host: Seq<char>) -> Option<Seq<Ipv4>> {
    match binding_for(plan.bindings@, host) {
        Some(b) => Some(b.addresses@),
        None => match plan.fallback {
            Some(r) => Some(seq![r.address]),
            None => None,
        },
    }
}

proof fn lemma_binding_for_cases(bindings: Seq<HostBinding>, host: Seq<char>)
    ensures
        (exists|i: int| 0 <= i < bindings.len() && #[trigger] bindings[i].hostname@ == host)
            ==> (binding_for(bindings, host) matches Some(b) && b.hostname@ == host),
        (forall|i: int| 0 <= i < bindings.len() ==> #[trigger] bindings[i].hostname@ != host)
            ==> binding_for(bindings, host).is_none(),
    decreases bindings.len(),
{
    if bindings.len() > 0 {
        lemma_binding_for_cases(bindings.drop_last(), host);
        if bindings.last().hostname@ == host {
        } else if exists|i: int|
            0 <= i < bindings.len() && #[trigger] bindings[i].hostname@ == host {
            let i = choose|i: int|
                0 <= i < bindings.len() && #[trigger] bindings[i].hostname@ == host;
            assert(bindings.drop_last()[i] == bindings[i]);
        }
    }
}

/// Law: a per-hostname binding always takes precedence over the fallback
/// for its hostname, and the fallback answers every hostname that no
/// binding names.
pub proof fn lemma_override_precedence(plan: ResolutionPlan, host: Seq<char>)
    ensures
        (exists|i: int| 0 <= i < plan.bindings@.len() && #[trigger] plan.bindings@[i].hostname@
            == host) ==> (plan_lookup(plan, host) matches Some(addrs)
            && (binding_for(plan.bindings@, host) matches Some(b) && b.hostname@ == host
            && addrs == b.addresses@)),
        (forall|i: int| 0 <= i < plan.bindings@.len() ==> #[trigger] plan.bindings@[i].hostname@
            != host) && plan.fallback.is_some() ==> plan_lookup(plan, host) == Some(
            seq![plan.fallback.unwrap().address],
        ),
        (forall|i: int| 0 <= i < plan.bindings@.len() ==> #[trigger] plan.bindings@[i].hostname@
            != host) && plan.fallback.is_none() ==> plan_lookup(plan, host).is_none(),
{
    lemma_binding_for_cases(plan.bindings@, host);
}

/// Validates the DNS settings into a resolution plan: parses the fallback
/// first, then every override list, aborting on the first bad literal.
pub fn plan_dns(d: &DnsSettings) -> (r: Result<ResolutionPlan, RhttpError>)
    ensures
        r.is_ok() <==> dns_valid(*d),
        r matches Ok(plan) ==> {
            &&& plan.fallback.is_some() == d.fallback.is_some()
            &&& (d.fallback matches Some(f) ==> f@ == ipv4_text(plan.fallback.unwrap().address))
            &&& plan.bindings@.len() == d.overrides@.len()
            &&& forall|i: int|
                0 <= i < d.overrides@.len() ==> {
                    &&& (#[trigger] plan.bindings@[i]).hostname@ == d.overrides@[i].hostname@
                    &&& plan.bindings@[i].addresses@.len() == d.overrides@[i].addresses@.len()
                    &&& forall|j: int|
                        0 <= j < d.overrides@[i].addresses@.len()
                            ==> #[trigger] d.overrides@[i].addresses@[j]@ == ipv4_text(
                            plan.bindings@[i].addresses@[j],
                        )
                }
        },
        r matches Err(e) ==> (e matches RhttpError::RhttpInvalidAddressError { literal, reason }
            && !is_ipv4_literal(literal@) && reason@.len() > 0 && ((d.fallback matches Some(f)
            && literal@ == f@) || exists|i: int, j: int| first_bad_literal_at(*d, literal@, i, j))
            && (d.fallback matches Some(f) ==> (is_ipv4_literal(f@) || literal@ == f@))),
{
    let fallback: Option<StaticResolver> = match &d.fallback {
        Some(f) => {
            match parse_ipv4(f.as_str()) {
                Some(ip) => Some(StaticResolver { address: ip }),
                None => {
                    proof {
                        reveal_strlit("not a literal IPv4 address");
                    }
                    return Err(
                        RhttpError::RhttpInvalidAddressError {
                            literal: f.clone(),
                            reason: "not a literal IPv4 address".to_owned(),
                        },
                    );
                },
            }
        },
        None => None,
    };
    let mut bindings: Vec<HostBinding> = Vec::new();
    let mut i: usize = 0;
    while i < d.overrides.len()
        invariant
            i <= d.overrides@.len(),
            bindings@.len() == i as int,
            fallback.is_some() == d.fallback.is_some(),
            d.fallback matches Some(f) ==> f@ == ipv4_text(fallback.unwrap().address),
            forall|k: int| 0 <= k < i as int ==> override_valid(#[trigger] d.overrides@[k]),
            forall|k: int|
                0 <= k < i as int ==> {
                    &&& (#[trigger] bindings@[k]).hostname@ == d.overrides@[k].hostname@
                    &&& bindings@[k].addresses@.len() == d.overrides@[k].addresses@.len()
                    &&& forall|j: int|
                        0 <= j < d.overrides@[k].addresses@.len()
                            ==> #[trigger] d.overrides@[k].addresses@[j]@ == ipv4_text(
                            bindings@[k].addresses@[j],
                        )
                },
        decreases d.overrides@.len() - i as int,
    {
        let o = &d.overrides[i];
        let mut addrs: Vec<Ipv4> = Vec::new();
        let mut j: usize = 0;
        while j < o.addresses.len()
            invariant
                j <= o.addresses@.len(),
                addrs@.len() == j as int,
                fallback.is_some() == d.fallback.is_some(),
                d.fallback matches Some(f) ==> f@ == ipv4_text(fallback.unwrap().address),
                forall|k: int| 0 <= k < i as int ==> override_valid(#[trigger] d.overrides@[k]),
                o == &d.overrides@[i as int],
                (i as int) < d.overrides@.len(),
                forall|k: int|
                    0 <= k < j as int ==> #[trigger] o.addresses@[k]@ == ipv4_text(addrs@[k]),
            decreases o.addresses@.len() - j as int,
        {
            match parse_ipv4(o.addresses[j].as_str()) {
                Some(ip) => addrs.push(ip),
                None => {
                    proof {
                        assert(!override_valid(d.overrides@[i as int]));
                        assert(!dns_valid(*d));
                        assert forall|k: int| 0 <= k < j as int implies is_ipv4_literal(
                            #[trigger] d.overrides@[i as int].addresses@[k]@,
                        ) by {
                            assert(d.overrides@[i as int].addresses@[k]@ == ipv4_text(addrs@[k]));
                        }
                        assert(first_bad_literal_at(
                            *d,
                            o.addresses@[j as int]@,
                            i as int,
                            j as int,
                        ));
                        if d.fallback is Some {
                            assert(d.fallback.unwrap()@ == ipv4_text(fallback.unwrap().address));
                            assert(is_ipv4_literal(d.fallback.unwrap()@));
                        }
                        reveal_strlit("not a literal IPv4 address");
                    }
                    return Err(
                        RhttpError::RhttpInvalidAddressError {
                            literal: o.addresses[j].clone(),
                            reason: "not a literal IPv4 address".to_owned(),
                        },
                    );
                },
            }
            j += 1;
        }
        proof {
            assert forall|jj: int| 0 <= jj < d.overrides@[i as int].addresses@.len()
                implies is_ipv4_literal(#[trigger] d.overrides@[i as int].addresses@[jj]@) by {
                assert(d.overrides@[i as int].addresses@[jj]@ == ipv4_text(addrs@[jj]));
            }
        }
        bindings.push(HostBinding { hostname: o.hostname.clone(), addresses: addrs });
        i += 1;
    }
    Ok(ResolutionPlan { bindings, fallback })
}

/// Resolves `hostname` in the plan: the matching binding's address list,
/// else the fallback address, else nothing.
pub fn lookup(plan: &ResolutionPlan, hostname: &String) -> (r: Option<Vec<Ipv4>>)
    ensures
        match r {
            Some(v) => plan_lookup(*plan, hostname@) == Some(v@),
            None => plan_lookup(*plan, hostname@).is_none(),
        },
{
    let mut i: usize = plan.bindings.len();
    proof {
        assert(plan.bindings@.subrange(0, plan.bindings@.len() as int) =~= plan.bindings@);
    }
    while i > 0
        invariant
            i <= plan.bindings@.len(),
            binding_for(plan.bindings@, hostname@) == binding_for(
                plan.bindings@.subrange(0, i as int),
                hostname@,
            ),
        decreases i,
    {
        proof {
            assert(plan.bindings@.subrange(0, i as int).last() == plan.bindings@[i as int - 1]);
            assert(plan.bindings@.subrange(0, i as int).drop_last() =~= plan.bindings@.subrange(
                0,
                i as int - 1,
            ));
        }
        if plan.bindings[i - 1].hostname == *hostname {
            let b = &plan.bindings[i - 1];
            let mut out: Vec<Ipv4> = Vec::new();
            let mut j: usize = 0;
            while j < b.addresses.len()
                invariant
                    j <= b.addresses@.len(),
                    b == &plan.bindings@[i as int - 1],
                    i as int - 1 < plan.bindings@.len(),
                    out@ =~= b.addresses@.subrange(0, j as int),
                decreases b.addresses@.len() - j as int,
            {
                out.push(b.addresses[j]);
                j += 1;
            }
            proof {
                assert(out@ =~= b.addresses@);
            }
            return Some(out);
        }
        i -= 1;
    }
    proof {
        assert(plan.bindings@.subrange(0, 0) =~= Seq::<HostBinding>::empty());
    }
    match &plan.fallback {
        Some(r) => {
            let mut out: Vec<Ipv4> = Vec::new();
            out.push(r.address);
            proof {
                assert(out@ =~= seq![r.address]);
            }
            Some(out)
        },
        None => None,
    }
}

} // verus!
