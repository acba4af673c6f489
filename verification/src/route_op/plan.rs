use crate::error::RouteOpError;
use crate::net::{IpAddress, Ipv4Address, Prefix};
use crate::route_op::entry::{
    addition_entry, build_addition, build_removal, chosen_gateway, removal_entry, select_gateway,
    Gateway, Platform, Route,
};
use vstd::prelude::*;

verus! {

/// The entry that adds a route to `prefix`, or why there can be none: no
/// gateway serves the prefix, or, where one does, the host named no
/// interface.
pub open spec fn planned_addition(
    prefix: Prefix,
    gateway: Gateway,
    interface: Result<u32, String>,
    platform: Platform,
) -> Result<Route, RouteOpError> {
    match chosen_gateway(prefix.addr(), gateway, platform) {
        None => Err(RouteOpError::NoGatewayError),
        Some(next_hop) => match interface {
            Err(detail) => Err(RouteOpError::GetInterfaceError(detail)),
            Ok(ifindex) => Ok(addition_entry(prefix, next_hop, ifindex)),
        },
    }
}

/// The entry that removes the route to `prefix`, or why there can be none:
/// the host named no interface.
pub open spec fn planned_removal(prefix: Prefix, interface: Result<u32, String>) -> Result<
    Route,
    RouteOpError,
> {
    match interface {
        Err(detail) => Err(RouteOpError::GetInterfaceError(detail)),
        Ok(ifindex) => Ok(removal_entry(prefix, ifindex)),
    }
}

/// The entries that add routes to `prefixes`, one for each and in their
/// order, or the reason why the first prefix that can have no entry has
/// none.
pub open spec fn planned_additions(
    prefixes: Seq<Prefix>,
    gateway: Gateway,
    interface: Result<u32, String>,
    platform: Platform,
) -> Result<Seq<Route>, RouteOpError>
    decreases prefixes.len(),
{
    if prefixes.len() == 0 {
        Ok(Seq::empty())
    } else {
        match planned_additions(prefixes.drop_last(), gateway, interface, platform) {
            Err(e) => Err(e),
            Ok(entries) => match planned_addition(prefixes.last(), gateway, interface, platform) {
                Err(e) => Err(e),
                Ok(entry) => Ok(entries.push(entry)),
            },
        }
    }
}

/// The entries that remove the routes to `prefixes`, one for each and in
/// their order, or the reason why there are none.
pub open spec fn planned_removals(prefixes: Seq<Prefix>, interface: Result<u32, String>) -> Result<
    Seq<Route>,
    RouteOpError,
>
    decreases prefixes.len(),
{
    if prefixes.len() == 0 {
        Ok(Seq::empty())
    } else {
        match planned_removals(prefixes.drop_last(), interface) {
            Err(e) => Err(e),
            Ok(entries) => match planned_removal(prefixes.last(), interface) {
                Err(e) => Err(e),
                Ok(entry) => Ok(entries.push(entry)),
            },
        }
    }
}

/// A plan that fails for the first prefixes of a list fails in the same
/// way for the whole list.
pub proof fn lemma_additions_fail_early(
    prefixes: Seq<Prefix>,
    gateway: Gateway,
    interface: Result<u32, String>,
    platform: Platform,
    n: int,
)
    requires
        0 <= n <= prefixes.len(),
        planned_additions(prefixes.take(n), gateway, interface, platform) is Err,
    ensures
        planned_additions(prefixes, gateway, interface, platform) == planned_additions(
            prefixes.take(n),
            gateway,
            interface,
            platform,
        ),
    decreases prefixes.len() - n,
{
    if n < prefixes.len() {
        assert(prefixes.take(n + 1).drop_last() == prefixes.take(n));
        lemma_additions_fail_early(prefixes, gateway, interface, platform, n + 1);
    } else {
        assert(prefixes.take(n) == prefixes);
    }
}

/// A plan has one entry for each prefix, the one planned for that prefix.
pub proof fn lemma_additions_each(
    prefixes: Seq<Prefix>,
    gateway: Gateway,
    interface: Result<u32, String>,
    platform: Platform,
)
    requires
        planned_additions(prefixes, gateway, interface, platform) is Ok,
    ensures
        planned_additions(prefixes, gateway, interface, platform)->Ok_0.len() == prefixes.len(),
        forall|i: int|
            0 <= i < prefixes.len() ==> planned_addition(
                #[trigger] prefixes[i],
                gateway,
                interface,
                platform,
            ) == Ok::<Route, RouteOpError>(
                planned_additions(prefixes, gateway, interface, platform)->Ok_0[i],
            ),
    decreases prefixes.len(),
{
    if prefixes.len() > 0 {
        lemma_additions_each(prefixes.drop_last(), gateway, interface, platform);
        let plan = planned_additions(prefixes, gateway, interface, platform)->Ok_0;
        assert forall|i: int| 0 <= i < prefixes.len() implies planned_addition(
            #[trigger] prefixes[i],
            gateway,
            interface,
            platform,
        ) == Ok::<Route, RouteOpError>(plan[i]) by {
            if i < prefixes.len() - 1 {
                assert(prefixes.drop_last()[i] == prefixes[i]);
            }
        }
    }
}

/// A plan of removals has one entry for each prefix, the one planned for
/// that prefix.
pub proof fn lemma_removals_each(prefixes: Seq<Prefix>, interface: Result<u32, String>)
    requires
        planned_removals(prefixes, interface) is Ok,
    ensures
        planned_removals(prefixes, interface)->Ok_0.len() == prefixes.len(),
        forall|i: int|
            0 <= i < prefixes.len() ==> planned_removal(#[trigger] prefixes[i], interface) == Ok::<
                Route,
                RouteOpError,
            >(planned_removals(prefixes, interface)->Ok_0[i]),
    decreases prefixes.len(),
{
    if prefixes.len() > 0 {
        lemma_removals_each(prefixes.drop_last(), interface);
        let plan = planned_removals(prefixes, interface)->Ok_0;
        assert forall|i: int| 0 <= i < prefixes.len() implies planned_removal(
            #[trigger] prefixes[i],
            interface,
        ) == Ok::<Route, RouteOpError>(plan[i]) by {
            if i < prefixes.len() - 1 {
                assert(prefixes.drop_last()[i] == prefixes[i]);
            }
        }
    }
}

/// With only an IPv4 gateway known, the entry for an IPv6 prefix goes
/// through that gateway where the platform allows it; where it does not,
/// there is no entry, for want of a gateway.
pub proof fn law_ipv4_gateway_for_ipv6_prefix(
    prefix: Prefix,
    v4: Ipv4Address,
    interface: Result<u32, String>,
    platform: Platform,
)
    requires
        prefix.addr() is V6,
    ensures
        platform.supports_ipv6_over_ipv4_gateway && interface is Ok ==> planned_addition(
            prefix,
            Gateway { v4: Some(v4), v6: None },
            interface,
            platform,
        ) == Ok::<Route, RouteOpError>(
            Route {
                destination: prefix.addr(),
                prefix: prefix.prefix_len(),
                gateway: Some(IpAddress::V4(v4)),
                ifindex: Some(interface->Ok_0),
            },
        ),
        !platform.supports_ipv6_over_ipv4_gateway ==> planned_addition(
            prefix,
            Gateway { v4: Some(v4), v6: None },
            interface,
            platform,
        ) == Err::<Route, RouteOpError>(RouteOpError::NoGatewayError),
{
}

/// Plans the addition of a route to `prefix`.
pub fn plan_addition(
    prefix: &Prefix,
    gateway: &Gateway,
    interface: &Result<u32, String>,
    platform: &Platform,
) -> (r: Result<Route, RouteOpError>)
    ensures
        r == planned_addition(*prefix, *gateway, *interface, *platform),
{
    let destination = prefix.addr();
    match select_gateway(&destination, gateway, platform) {
        Err(e) => Err(e),
        Ok(next_hop) => match interface {
            Err(detail) => Err(RouteOpError::GetInterfaceError(detail.clone())),
            Ok(ifindex) => Ok(build_addition(prefix, next_hop, *ifindex)),
        },
    }
}

/// Plans the removal of the route to `prefix`.
pub fn plan_removal(prefix: &Prefix, interface: &Result<u32, String>) -> (r: Result<
    Route,
    RouteOpError,
>)
    ensures
        r == planned_removal(*prefix, *interface),
{
    match interface {
        Err(detail) => Err(RouteOpError::GetInterfaceError(detail.clone())),
        Ok(ifindex) => Ok(build_removal(prefix, *ifindex)),
    }
}

/// Plans the additions of a batch before any of them is carried out: what
/// is missing for one prefix stops the batch as a whole.
pub fn plan_additions(
    prefixes: &[Prefix],
    gateway: &Gateway,
    interface: &Result<u32, String>,
    platform: &Platform,
) -> (r: Result<Vec<Route>, RouteOpError>)
    ensures
        match planned_additions(prefixes@, *gateway, *interface, *platform) {
            Ok(entries) => r is Ok && r->Ok_0@ == entries,
            Err(e) => r == Err::<Vec<Route>, RouteOpError>(e),
        },
{
    let mut entries: Vec<Route> = Vec::new();
    let mut i: usize = 0;
    while i < prefixes.len()
        invariant
            i <= prefixes@.len(),
            planned_additions(prefixes@.take(i as int), *gateway, *interface, *platform) == Ok::<
                Seq<Route>,
                RouteOpError,
            >(entries@),
        decreases prefixes.len() - i,
    {
        proof {
            assert(prefixes@.take(i + 1).drop_last() == prefixes@.take(i as int));
        }
        match plan_addition(&prefixes[i], gateway, interface, platform) {
            Err(e) => {
                proof {
                    lemma_additions_fail_early(
                        prefixes@,
                        *gateway,
                        *interface,
                        *platform,
                        i + 1,
                    );
                }
                return Err(e);
            },
            Ok(entry) => {
                entries.push(entry);
            },
        }
        i += 1;
    }
    proof {
        assert(prefixes@.take(prefixes@.len() as int) == prefixes@);
    }
    Ok(entries)
}

/// Plans the removals of a batch before any of them is carried out.
pub fn plan_removals(prefixes: &[Prefix], interface: &Result<u32, String>) -> (r: Result<
    Vec<Route>,
    RouteOpError,
>)
    ensures
        match planned_removals(prefixes@, *interface) {
            Ok(entries) => r is Ok && r->Ok_0@ == entries,
            Err(e) => r == Err::<Vec<Route>, RouteOpError>(e),
        },
{
    let mut entries: Vec<Route> = Vec::new();
    let mut i: usize = 0;
    while i < prefixes.len()
        invariant
            i <= prefixes@.len(),
            planned_removals(prefixes@.take(i as int), *interface) == Ok::<
                Seq<Route>,
                RouteOpError,
            >(entries@),
        decreases prefixes.len() - i,
    {
        proof {
            assert(prefixes@.take(i + 1).drop_last() == prefixes@.take(i as int));
        }
        match plan_removal(&prefixes[i], interface) {
            Err(e) => {
                proof {
                    lemma_removals_fail_early(prefixes@, *interface, i + 1);
                }
                return Err(e);
            },
            Ok(entry) => {
                entries.push(entry);
            },
        }
        i += 1;
    }
    proof {
        assert(prefixes@.take(prefixes@.len() as int) == prefixes@);
    }
    Ok(entries)
}

/// A plan of removals that fails for the first prefixes of a list fails in
/// the same way for the whole list.
pub proof fn lemma_removals_fail_early(
    prefixes: Seq<Prefix>,
    interface: Result<u32, String>,
    n: int,
)
    requires
        0 <= n <= prefixes.len(),
        planned_removals(prefixes.take(n), interface) is Err,
    ensures
        planned_removals(prefixes, interface) == planned_removals(prefixes.take(n), interface),
    decreases prefixes.len() - n,
{
    if n < prefixes.len() {
        assert(prefixes.take(n + 1).drop_last() == prefixes.take(n));
        lemma_removals_fail_early(prefixes, interface, n + 1);
    } else {
        assert(prefixes.take(n) == prefixes);
    }
}

} // verus!
