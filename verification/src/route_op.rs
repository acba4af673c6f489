pub mod batch;
pub mod entry;
pub mod host;
pub mod laws;
pub mod memo;
pub mod outcome;
pub mod plan;

use crate::error::{OsError, RouteOpError, RouteOpErrorView};
use crate::net::{IpAddress, Prefix};
use crate::route_op::batch::{first_failure, lemma_first_failure_from_begin, views, BatchResult};
use crate::route_op::entry::{
    first_v4_gateway, first_v6_gateway, gateway_of, FailurePolicy, Gateway, Platform, Route,
};
use crate::route_op::host::{
    add_outcome, counted_up, delete_outcome, lemma_adds_begin, lemma_deletes_begin,
    outcomes_of_adds, outcomes_of_deletes, table_after_add, table_after_adds,
    table_after_delete, table_after_deletes, Host, HostView,
};
use crate::route_op::memo::{Lookup, Slot};
use crate::route_op::outcome::{classify_add, classify_delete, settle, Outcome, OutcomeView};
use crate::route_op::plan::{
    plan_addition, plan_additions, plan_removal, plan_removals, planned_addition,
    planned_additions, planned_removal, planned_removals,
};
use vstd::prelude::*;

verus! {

/// Finds the host's default gateways in a listing of its routing table: for
/// each family the gateway of the first default route that names one.
pub fn get_gateway(routes: &[Route]) -> (gateway: Gateway)
    ensures
        gateway == gateway_of(routes@),
{
    let mut v4 = None;
    let mut v6 = None;
    let mut i: usize = 0;
    assert(routes@.skip(0) == routes@);
    while i < routes.len()
        invariant
            i <= routes.len(),
            first_v4_gateway(routes@) == (if v4 is Some {
                v4
            } else {
                first_v4_gateway(routes@.skip(i as int))
            }),
            first_v6_gateway(routes@) == (if v6 is Some {
                v6
            } else {
                first_v6_gateway(routes@.skip(i as int))
            }),
        decreases routes.len() - i,
    {
        let route = &routes[i];
        proof {
            assert(routes@.skip(i as int).drop_first() == routes@.skip(i + 1));
        }
        if route.destination.is_unspecified() {
            match route.gateway {
                Some(IpAddress::V4(a)) => {
                    if v4.is_none() {
                        v4 = Some(a);
                    }
                },
                Some(IpAddress::V6(a)) => {
                    if v6.is_none() {
                        v6 = Some(a);
                    }
                },
                None => {},
            }
        }
        if v4.is_some() && v6.is_some() {
            return Gateway { v4, v6 };
        }
        i += 1;
    }
    Gateway { v4, v6 }
}

/// What the engine keeps between its calls: the platform it runs on, what
/// it does when a route is refused, and the host's default gateways and
/// default interface once it has found them out. Each is looked up when it
/// is first needed and not again.
#[derive(Clone, Copy, Debug, PartialEq, Eq)]
pub struct Engine {
    pub platform: Platform,
    pub policy: FailurePolicy,
    pub gateway: Slot<Gateway>,
    pub interface: Slot<u32>,
}

/// The gateways that the engine goes by: those it knows, else those that a
/// listing of the host's routing table shows, if the table can be listed.
pub open spec fn gateway_seen(engine: Engine, host: HostView) -> Result<Gateway, OsError> {
    match engine.gateway {
        Slot::Ready(gateway) => Ok(gateway),
        _ => match host.listing_failure {
            Some(cause) => Err(cause),
            None => Ok(gateway_of(host.routes)),
        },
    }
}

/// The interface that the engine goes by: the one it knows, else the one
/// that the host names.
pub open spec fn interface_seen(engine: Engine, host: HostView) -> Result<u32, String> {
    match engine.interface {
        Slot::Ready(ifindex) => Ok(ifindex),
        _ => host.interface,
    }
}

/// The engine once it has asked for the gateways. Gateways that could not
/// be found out are asked for again the next time.
pub open spec fn with_gateway_resolved(engine: Engine, host: HostView) -> Engine {
    Engine {
        gateway: match gateway_seen(engine, host) {
            Ok(gateway) => Slot::Ready(gateway),
            Err(_) => Slot::Empty,
        },
        ..engine
    }
}

/// The engine once it has asked for the interface. An interface that the
/// host could not name is asked for again the next time.
pub open spec fn with_interface_resolved(engine: Engine, host: HostView) -> Engine {
    Engine {
        interface: match interface_seen(engine, host) {
            Ok(ifindex) => Slot::Ready(ifindex),
            Err(_) => Slot::Empty,
        },
        ..engine
    }
}

/// The host once the engine has asked for the gateways: its table was
/// listed if the engine did not know them.
pub open spec fn listed_for(engine: Engine, host: HostView) -> HostView {
    if engine.gateway is Ready {
        host
    } else {
        HostView { listings: counted_up(host.listings), ..host }
    }
}

/// The engine once it has asked for what an addition needs: the gateways,
/// and where those were found out the interface.
pub open spec fn resolved_for_addition(engine: Engine, host: HostView) -> Engine {
    match gateway_seen(engine, host) {
        Ok(_) => with_interface_resolved(with_gateway_resolved(engine, host), host),
        Err(_) => with_gateway_resolved(engine, host),
    }
}

/// The entries that add routes to `prefixes`, or why the batch can have
/// none: the table could not be listed for the gateways, or something is
/// missing for one of the prefixes.
pub open spec fn addition_plan(engine: Engine, host: HostView, prefixes: Seq<Prefix>) -> Result<
    Seq<Route>,
    RouteOpError,
> {
    match gateway_seen(engine, host) {
        Err(cause) => Err(RouteOpError::OpError(cause)),
        Ok(gateway) => planned_additions(
            prefixes,
            gateway,
            interface_seen(engine, host),
            engine.platform,
        ),
    }
}

/// How a batch leaves the engine and the host, and what it returns: the
/// outcome for each prefix in the order of the prefixes, or the error of
/// the batch.
pub struct Synced {
    pub engine: Engine,
    pub host: HostView,
    pub result: Result<Seq<OutcomeView>, RouteOpErrorView>,
}

/// The cause of the outcome at place `k`, which is a failure.
pub open spec fn cause_at(outcomes: Seq<OutcomeView>, k: int) -> RouteOpErrorView {
    RouteOpErrorView::OpError(outcomes[k]->Failed_0)
}

/// What adding routes to `prefixes` comes to.
///
/// A host that hands out no handle on its routing table is the error of
/// the batch. For no prefixes nothing is asked and nothing is done. Else
/// the engine finds out the host's gateways and interface, unless it knows
/// them, and plans one entry for each prefix. A table that cannot be listed
/// for the gateways, and what is missing for one prefix, is the error of
/// the batch, and the table stays as it was. Else the entries are handed to
/// the table in the order of the prefixes. Where the batch is to stop at a
/// refusal, the first route that the table refuses ends it: the cause is
/// the error of the batch, and the entries after it are not handed over.
pub open spec fn synchronized_add(engine: Engine, host: HostView, prefixes: Seq<Prefix>) -> Synced {
    if !host.open {
        Synced { engine, host, result: Err(RouteOpErrorView::HandleInitError) }
    } else if prefixes.len() == 0 {
        Synced { engine, host, result: Ok(Seq::empty()) }
    } else {
        let resolved = resolved_for_addition(engine, host);
        let listed = listed_for(engine, host);
        match addition_plan(engine, host, prefixes) {
            Err(e) => Synced { engine: resolved, host: listed, result: Err(e@) },
            Ok(plan) => {
                let outcomes = outcomes_of_adds(host.routes, plan);
                match first_failure(outcomes) {
                    Some(k) if engine.policy is Stop => Synced {
                        engine: resolved,
                        host: HostView {
                            routes: table_after_adds(host.routes, plan.take(k)),
                            ..listed
                        },
                        result: Err(cause_at(outcomes, k)),
                    },
                    _ => Synced {
                        engine: resolved,
                        host: HostView { routes: table_after_adds(host.routes, plan), ..listed },
                        result: Ok(outcomes),
                    },
                }
            },
        }
    }
}

/// What removing the routes to `prefixes` comes to.
///
/// A host that hands out no handle on its routing table is the error of
/// the batch. For no prefixes nothing is asked and nothing is done. Else
/// the engine finds out the host's interface, unless it knows it; a host
/// that names none is the error of the batch. Else one entry for each
/// prefix is handed to the table in the order of the prefixes. Where the
/// batch is to stop at a refusal, the first removal that the table refuses
/// ends it, as with additions.
pub open spec fn synchronized_remove(engine: Engine, host: HostView, prefixes: Seq<Prefix>) -> Synced {
    if !host.open {
        Synced { engine, host, result: Err(RouteOpErrorView::HandleInitError) }
    } else if prefixes.len() == 0 {
        Synced { engine, host, result: Ok(Seq::empty()) }
    } else {
        let resolved = with_interface_resolved(engine, host);
        match planned_removals(prefixes, interface_seen(engine, host)) {
            Err(e) => Synced { engine: resolved, host, result: Err(e@) },
            Ok(plan) => {
                let outcomes = outcomes_of_deletes(host.routes, plan);
                match first_failure(outcomes) {
                    Some(k) if engine.policy is Stop => Synced {
                        engine: resolved,
                        host: HostView {
                            routes: table_after_deletes(host.routes, plan.take(k)),
                            ..host
                        },
                        result: Err(cause_at(outcomes, k)),
                    },
                    _ => Synced {
                        engine: resolved,
                        host: HostView { routes: table_after_deletes(host.routes, plan), ..host },
                        result: Ok(outcomes),
                    },
                }
            },
        }
    }
}

/// What a batch returned, with each cause's message as a sequence of
/// characters.
pub open spec fn returned(r: Result<BatchResult, RouteOpError>) -> Result<
    Seq<OutcomeView>,
    RouteOpErrorView,
> {
    match r {
        Ok(result) => Ok(result@),
        Err(e) => Err(e@),
    }
}

impl Engine {
    /// An engine that knows nothing of the host yet, and whose batches go
    /// on when a route is refused.
    pub fn new(platform: Platform) -> (engine: Engine)
        ensures
            engine == (Engine {
                platform,
                policy: FailurePolicy::Continue,
                gateway: Slot::Empty,
                interface: Slot::Empty,
            }),
    {
        Engine {
            platform,
            policy: FailurePolicy::Continue,
            gateway: Slot::Empty,
            interface: Slot::Empty,
        }
    }

    /// An engine that knows the host's gateways and interface, and whose
    /// batches go on when a route is refused.
    pub fn with_cached(platform: Platform, gateway: Gateway, ifindex: u32) -> (engine: Engine)
        ensures
            engine == (Engine {
                platform,
                policy: FailurePolicy::Continue,
                gateway: Slot::Ready(gateway),
                interface: Slot::Ready(ifindex),
            }),
    {
        Engine {
            platform,
            policy: FailurePolicy::Continue,
            gateway: Slot::Ready(gateway),
            interface: Slot::Ready(ifindex),
        }
    }

    /// This engine with the given way to deal with a refused route.
    pub fn with_policy(self, policy: FailurePolicy) -> (engine: Engine)
        ensures
            engine == (Engine { policy, ..self }),
    {
        Engine { policy, ..self }
    }

    /// The host's default gateways: those found before, or else those
    /// that a listing of the host's table shows now, which are kept. A
    /// listing that fails is the error, and is tried again the next time.
    pub fn resolve_gateway(&mut self, host: &mut Host) -> (gateway: Result<Gateway, OsError>)
        ensures
            gateway == gateway_seen(*old(self), old(host)@),
            *final(self) == with_gateway_resolved(*old(self), old(host)@),
            final(host)@ == listed_for(*old(self), old(host)@),
    {
        match self.gateway.request() {
            Lookup::Hit(gateway) => Ok(gateway),
            _ => {
                match host.list() {
                    Ok(routes) => {
                        let gateway = get_gateway(routes.as_slice());
                        self.gateway.report(Some(gateway));
                        Ok(gateway)
                    },
                    Err(cause) => {
                        self.gateway.report(None);
                        Err(cause)
                    },
                }
            },
        }
    }

    /// The host's default interface: the one found before, or else the one
    /// that the host names now, which is kept.
    pub fn resolve_interface(&mut self, host: &Host) -> (interface: Result<u32, String>)
        ensures
            interface == interface_seen(*old(self), host@),
            *final(self) == with_interface_resolved(*old(self), host@),
    {
        match self.interface.request() {
            Lookup::Hit(ifindex) => Ok(ifindex),
            _ => {
                match host.default_interface() {
                    Ok(ifindex) => {
                        self.interface.report(Some(ifindex));
                        Ok(ifindex)
                    },
                    Err(detail) => {
                        self.interface.report(None);
                        Err(detail)
                    },
                }
            },
        }
    }
}

/// The entry that adds a route to `prefix`, or why there can be none: the
/// table could not be listed for the gateways, no gateway serves the
/// prefix, or the host names no interface.
pub open spec fn addition_entry_for(engine: Engine, host: HostView, prefix: Prefix) -> Result<
    Route,
    RouteOpError,
> {
    match gateway_seen(engine, host) {
        Err(cause) => Err(RouteOpError::OpError(cause)),
        Ok(gateway) => planned_addition(
            prefix,
            gateway,
            interface_seen(engine, host),
            engine.platform,
        ),
    }
}

/// Adds one route entry to the routing table.
///
/// The engine finds out the host's gateways and interface, unless it knows
/// them. A table that cannot be listed for the gateways, a prefix that no
/// gateway serves, and a host that names no interface, is an error. Else
/// the entry is handed to the table, and what the table answers is the
/// outcome: a route that was there already is ignored, any other refusal is
/// a failure of this route.
pub fn add_route(engine: &mut Engine, host: &mut Host, route: &Prefix) -> (r: Result<
    Outcome,
    RouteOpError,
>)
    ensures
        *final(engine) == resolved_for_addition(*old(engine), old(host)@),
        match addition_entry_for(*old(engine), old(host)@, *route) {
            Err(e) => r == Err::<Outcome, RouteOpError>(e) && final(host)@ == listed_for(
                *old(engine),
                old(host)@,
            ),
            Ok(entry) => {
                &&& r is Ok
                &&& r->Ok_0@ == add_outcome(old(host)@.routes, entry)
                &&& final(host)@ == (HostView {
                    routes: table_after_add(old(host)@.routes, entry),
                    ..listed_for(*old(engine), old(host)@)
                })
            },
        },
{
    let gateway = match engine.resolve_gateway(host) {
        Err(cause) => {
            return Err(RouteOpError::OpError(cause));
        },
        Ok(gateway) => gateway,
    };
    let interface = engine.resolve_interface(host);
    let platform = engine.platform;
    match plan_addition(route, &gateway, &interface, &platform) {
        Err(e) => Err(e),
        Ok(entry) => Ok(classify_add(host.add(&entry))),
    }
}

/// Deletes one route entry from the routing table.
///
/// The engine finds out the host's interface, unless it knows it. A host
/// that names no interface is an error. Else the entry is handed to the
/// table, and what the table answers is the outcome: a route that was not
/// there is ignored.
pub fn del_route(engine: &mut Engine, host: &mut Host, route: &Prefix) -> (r: Result<
    Outcome,
    RouteOpError,
>)
    ensures
        *final(engine) == with_interface_resolved(*old(engine), old(host)@),
        match planned_removal(*route, interface_seen(*old(engine), old(host)@)) {
            Err(e) => r == Err::<Outcome, RouteOpError>(e) && final(host)@ == old(host)@,
            Ok(entry) => {
                &&& r is Ok
                &&& r->Ok_0@ == delete_outcome(old(host)@.routes, entry)
                &&& final(host)@ == (HostView {
                    routes: table_after_delete(old(host)@.routes, entry),
                    ..old(host)@
                })
            },
        },
{
    let interface = engine.resolve_interface(host);
    match plan_removal(route, &interface) {
        Err(e) => Err(e),
        Ok(entry) => Ok(classify_delete(host.delete(&entry))),
    }
}

/// Adds multiple routes to the routing table.
///
/// A host that hands out no handle on its routing table is an error of
/// the batch. For a batch without prefixes nothing is asked and nothing is
/// done. Else the engine finds out the host's gateways and interface,
/// unless it knows them, and plans one entry for each prefix. A table that
/// cannot be listed for the gateways, and what is missing for one prefix,
/// is an error of the batch, and the table stays as it was. Else the
/// entries are handed to the table in the order of the prefixes, and the
/// result holds their outcomes in that order. A route that the table
/// refuses is counted and does not stop the batch.
#[verifier::loop_isolation(false)]
pub fn add_routes(engine: &mut Engine, host: &mut Host, routes: &[Prefix]) -> (r: Result<
    BatchResult,
    RouteOpError,
>)
    ensures
        (Synced { engine: *final(engine), host: final(host)@, result: returned(r) })
            == synchronized_add(*old(engine), old(host)@, routes@),
{
    if !host.is_open() {
        return Err(RouteOpError::HandleInitError);
    }
    if routes.len() == 0 {
        let result = BatchResult::from_outcomes(Vec::new());
        assert(result@ =~= Seq::<OutcomeView>::empty());
        return Ok(result);
    }
    let gateway = match engine.resolve_gateway(host) {
        Err(cause) => {
            return Err(RouteOpError::OpError(cause));
        },
        Ok(gateway) => gateway,
    };
    let interface = engine.resolve_interface(host);
    let platform = engine.platform;
    let plan = match plan_additions(routes, &gateway, &interface, &platform) {
        Err(e) => {
            return Err(e);
        },
        Ok(plan) => plan,
    };
    let ghost before = host@;
    let policy = engine.policy;
    let mut outcomes: Vec<Outcome> = Vec::new();
    let mut i: usize = 0;
    while i < plan.len()
        invariant
            i <= plan@.len(),
            host@ == (HostView {
                routes: table_after_adds(before.routes, plan@.take(i as int)),
                ..before
            }),
            views(outcomes@) == outcomes_of_adds(before.routes, plan@.take(i as int)),
            policy is Stop ==> first_failure(views(outcomes@)) is None,
        decreases plan.len() - i,
    {
        proof {
            assert(plan@.take(i + 1).drop_last() == plan@.take(i as int));
        }
        let outcome = classify_add(host.add(&plan[i]));
        let ghost earlier = outcomes@;
        proof {
            assert(views(earlier.push(outcome)) =~= views(earlier).push(outcome@));
            assert(views(earlier).push(outcome@).drop_last() == views(earlier));
        }
        match settle(outcome, policy) {
            Err(e) => {
                proof {
                    lemma_adds_begin(before.routes, plan@, i as int);
                    lemma_adds_begin(before.routes, plan@, i + 1);
                    lemma_first_failure_from_begin(
                        outcomes_of_adds(before.routes, plan@),
                        i as int,
                    );
                }
                return Err(e);
            },
            Ok(outcome) => {
                outcomes.push(outcome);
            },
        }
        i += 1;
    }
    proof {
        assert(plan@.take(plan@.len() as int) == plan@);
    }
    Ok(BatchResult::from_outcomes(outcomes))
}

/// Deletes multiple routes from the routing table.
///
/// A host that hands out no handle on its routing table is an error of
/// the batch. For a batch without prefixes nothing is asked and nothing is
/// done. Else the engine finds out the host's interface, unless it knows
/// it; a host that names none is an error of the batch. Else one entry for
/// each prefix is handed to the table in the order of the prefixes, and
/// the result holds their outcomes in that order.
#[verifier::loop_isolation(false)]
pub fn del_routes(engine: &mut Engine, host: &mut Host, routes: &[Prefix]) -> (r: Result<
    BatchResult,
    RouteOpError,
>)
    ensures
        (Synced { engine: *final(engine), host: final(host)@, result: returned(r) })
            == synchronized_remove(*old(engine), old(host)@, routes@),
{
    if !host.is_open() {
        return Err(RouteOpError::HandleInitError);
    }
    if routes.len() == 0 {
        let result = BatchResult::from_outcomes(Vec::new());
        assert(result@ =~= Seq::<OutcomeView>::empty());
        return Ok(result);
    }
    let interface = engine.resolve_interface(host);
    let plan = match plan_removals(routes, &interface) {
        Err(e) => {
            return Err(e);
        },
        Ok(plan) => plan,
    };
    let ghost before = host@;
    let policy = engine.policy;
    let mut outcomes: Vec<Outcome> = Vec::new();
    let mut i: usize = 0;
    while i < plan.len()
        invariant
            i <= plan@.len(),
            host@ == (HostView {
                routes: table_after_deletes(before.routes, plan@.take(i as int)),
                ..before
            }),
            views(outcomes@) == outcomes_of_deletes(before.routes, plan@.take(i as int)),
            policy is Stop ==> first_failure(views(outcomes@)) is None,
        decreases plan.len() - i,
    {
        proof {
            assert(plan@.take(i + 1).drop_last() == plan@.take(i as int));
        }
        let outcome = classify_delete(host.delete(&plan[i]));
        let ghost earlier = outcomes@;
        proof {
            assert(views(earlier.push(outcome)) =~= views(earlier).push(outcome@));
            assert(views(earlier).push(outcome@).drop_last() == views(earlier));
        }
        match settle(outcome, policy) {
            Err(e) => {
                proof {
                    lemma_deletes_begin(before.routes, plan@, i as int);
                    lemma_deletes_begin(before.routes, plan@, i + 1);
                    lemma_first_failure_from_begin(
                        outcomes_of_deletes(before.routes, plan@),
                        i as int,
                    );
                }
                return Err(e);
            },
            Ok(outcome) => {
                outcomes.push(outcome);
            },
        }
        i += 1;
    }
    proof {
        assert(plan@.take(plan@.len() as int) == plan@);
    }
    Ok(BatchResult::from_outcomes(outcomes))
}

} // verus!
