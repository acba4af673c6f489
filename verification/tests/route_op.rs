use chnroutes::error::{Error, OsError, OsErrorKind, RouteOpError};
use chnroutes::net::{IpAddress, Ipv4Address, Ipv6Address, Prefix};
use chnroutes::route_op::batch::{BatchResult, OutcomeCollector};
use chnroutes::route_op::entry::{
    build_addition, build_removal, select_gateway, FailurePolicy, Gateway, Platform, Route,
};
use chnroutes::route_op::host::Host;
use chnroutes::route_op::memo::{Lookup, Slot};
use chnroutes::route_op::outcome::{
    classify_add, classify_delete, settle, IgnoreReason, Outcome,
};
use chnroutes::route_op::plan::{plan_addition, plan_additions, plan_removals};
use chnroutes::route_op::{add_route, add_routes, del_route, del_routes, get_gateway, Engine};
use chnroutes::{down, up};

fn net(text: &str) -> Prefix {
    Prefix::from_text(text).unwrap()
}

fn v4(a: u8, b: u8, c: u8, d: u8) -> IpAddress {
    IpAddress::V4(Ipv4Address::new(a, b, c, d))
}

fn v6(bits: u128) -> IpAddress {
    IpAddress::V6(Ipv6Address(bits))
}

fn gateway_v4() -> Gateway {
    Gateway { v4: Some(Ipv4Address::new(192, 0, 2, 1)), v6: None }
}

fn engine() -> Engine {
    Engine::with_cached(Platform::strict(), gateway_v4(), 7)
}

fn host() -> Host {
    Host::new(Ok(7))
}

const ALREADY: Outcome = Outcome::Ignored(IgnoreReason::AlreadyExists);
const MISSING: Outcome = Outcome::Ignored(IgnoreReason::NotFound);

#[test]
fn test_get_gateway() {
    let mut host = host();
    host.add(&Route::new(v4(10, 0, 0, 0), 8).with_gateway(v4(10, 0, 0, 1))).unwrap();
    host.add(&Route::new(v4(0, 0, 0, 0), 0).with_gateway(v4(192, 168, 1, 1))).unwrap();
    let result = get_gateway(&host.list().unwrap());
    assert!(result.v4.is_some() || result.v6.is_some());
    assert_eq!(result, Gateway { v4: Some(Ipv4Address::new(192, 168, 1, 1)), v6: None });
}

#[test]
fn gateway_is_the_first_of_each_family() {
    let routes = vec![
        Route::new(v4(0, 0, 0, 0), 0),
        Route::new(v4(10, 0, 0, 0), 8).with_gateway(v4(10, 0, 0, 1)),
        Route::new(v6(0), 0).with_gateway(v6(0xfe80 << 112)),
        Route::new(v4(0, 0, 0, 0), 0).with_gateway(v4(192, 168, 1, 1)),
        Route::new(v4(0, 0, 0, 0), 1).with_gateway(v4(192, 168, 1, 2)),
        Route::new(v6(0), 0).with_gateway(v6(1)),
    ];
    let found = get_gateway(&routes);
    assert_eq!(found.v4, Some(Ipv4Address::new(192, 168, 1, 1)));
    assert_eq!(found.v6, Some(Ipv6Address(0xfe80 << 112)));
    assert_eq!(get_gateway(&routes[..2]), Gateway { v4: None, v6: None });
    assert_eq!(get_gateway(&[]), Gateway { v4: None, v6: None });
}

#[test]
fn gateway_of_the_other_family_on_a_default_route() {
    let routes = vec![Route::new(v6(0), 0).with_gateway(v4(192, 168, 1, 1))];
    assert_eq!(
        get_gateway(&routes),
        Gateway { v4: Some(Ipv4Address::new(192, 168, 1, 1)), v6: None }
    );
}

fn add_remove_route(dest: IpAddress, len: u8, gateway: Gateway) {
    let mut engine = Engine::with_cached(Platform::strict(), gateway, 7);
    let mut host = host();
    let prefix = Prefix::new(dest, len).unwrap();
    let _ = del_route(&mut engine, &mut host, &prefix);
    add_route(&mut engine, &mut host, &prefix).unwrap();
    assert!(host.entries().into_iter().any(|r| r.destination == dest));
    let removed = del_route(&mut engine, &mut host, &prefix).unwrap();
    assert_eq!(removed, Outcome::Applied);
    assert!(host.entries().is_empty());
}

#[test]
fn test_add_remove_route_v6() {
    let gateway = Gateway { v4: None, v6: Some(Ipv6Address(0xfe80 << 112 | 1)) };
    add_remove_route(v6(0x2001_0253 << 96), 32, gateway);
}

#[test]
fn test_add_remove_route_v4() {
    add_remove_route(v4(123, 123, 123, 123), 32, gateway_v4());
}

#[test]
fn two_prefixes_on_an_empty_table() {
    let mut engine = engine();
    let mut host = Host::new(Err("no interface".to_string()));
    let prefixes = vec![net("1.0.1.0/24"), net("1.0.2.0/23")];
    let result = add_routes(&mut engine, &mut host, &prefixes).unwrap();
    assert_eq!(result.outcomes(), &vec![Outcome::Applied, Outcome::Applied]);
    assert_eq!((result.applied(), result.ignored(), result.failed()), (2, 0, 0));
    assert_eq!(result.len(), 2);
    assert!(result.succeeded());
    let gateway = Some(v4(192, 0, 2, 1));
    assert_eq!(
        host.entries(),
        vec![
            Route { destination: v4(1, 0, 1, 0), prefix: 24, gateway, ifindex: Some(7) },
            Route { destination: v4(1, 0, 2, 0), prefix: 23, gateway, ifindex: Some(7) },
        ]
    );
    assert_eq!(host.listings(), 0);
}

#[test]
fn adding_what_is_there_is_ignored() {
    let mut engine = engine();
    let mut host = host();
    host.add(&Route::new(v4(1, 0, 1, 0), 24).with_gateway(v4(10, 0, 0, 1))).unwrap();
    let before = host.entries();
    let result = add_routes(&mut engine, &mut host, &[net("1.0.1.0/24")]).unwrap();
    assert_eq!(result.outcomes(), &vec![ALREADY]);
    assert_eq!((result.applied(), result.ignored(), result.failed()), (0, 1, 0));
    assert_eq!(host.entries(), before);
}

#[test]
fn removing_what_is_not_there_is_ignored() {
    let mut engine = engine();
    let mut host = host();
    host.add(&Route::new(v4(1, 0, 1, 0), 24).with_ifindex(7)).unwrap();
    let before = host.entries();
    let result = del_routes(&mut engine, &mut host, &[net("1.0.2.0/23")]).unwrap();
    assert_eq!(result.outcomes(), &vec![MISSING]);
    assert_eq!((result.applied(), result.ignored(), result.failed()), (0, 1, 0));
    assert_eq!(host.entries(), before);
}

#[test]
fn removal_names_the_interface() {
    let mut engine = engine();
    let mut host = host();
    host.add(&Route::new(v4(1, 0, 1, 0), 24).with_ifindex(8)).unwrap();
    let result = del_route(&mut engine, &mut host, &net("1.0.1.0/24")).unwrap();
    assert_eq!(result, MISSING);
    assert_eq!(host.entries().len(), 1);
    assert!(host.delete(&Route::new(v4(1, 0, 1, 0), 24)).is_ok());
    assert!(host.entries().is_empty());
}

#[test]
fn adding_twice_changes_nothing_more() {
    let mut engine = Engine::new(Platform::strict());
    let mut host = host();
    host.add(&Route::new(v4(0, 0, 0, 0), 0).with_gateway(v4(192, 0, 2, 1))).unwrap();
    let prefixes = vec![net("1.0.1.0/24"), net("1.0.2.0/23"), net("1.0.1.0/24")];
    let first = add_routes(&mut engine, &mut host, &prefixes).unwrap();
    assert_eq!(first.outcomes(), &vec![Outcome::Applied, Outcome::Applied, ALREADY]);
    let table = host.entries();
    let kept = engine;
    let second = add_routes(&mut engine, &mut host, &prefixes).unwrap();
    assert_eq!(second.outcomes(), &vec![ALREADY, ALREADY, ALREADY]);
    assert_eq!((second.applied(), second.ignored(), second.failed()), (0, 3, 0));
    assert_eq!(host.entries(), table);
    assert_eq!(engine, kept);
}

#[test]
fn adding_then_removing_restores_the_table() {
    let mut engine = Engine::new(Platform::strict());
    let mut host = host();
    host.add(&Route::new(v4(0, 0, 0, 0), 0).with_gateway(v4(192, 0, 2, 1))).unwrap();
    host.add(&Route::new(v4(10, 0, 0, 0), 8).with_ifindex(3)).unwrap();
    let before = host.entries();
    let prefixes = vec![net("1.0.1.0/24"), net("1.0.1.7/24"), net("1.0.2.0/23"), net("1.0.1.0/24")];
    let added = add_routes(&mut engine, &mut host, &prefixes).unwrap();
    assert_eq!((added.applied(), added.ignored(), added.failed()), (2, 1, 1));
    assert_eq!(host.entries().len(), 4);
    let removed = del_routes(&mut engine, &mut host, &prefixes).unwrap();
    assert_eq!(removed.outcomes(), &vec![Outcome::Applied, MISSING, Outcome::Applied, MISSING]);
    assert_eq!(host.entries(), before);
}

#[test]
fn gateways_are_asked_for_once() {
    let mut engine = Engine::new(Platform::strict());
    let mut host = host();
    host.add(&Route::new(v4(0, 0, 0, 0), 0).with_gateway(v4(192, 0, 2, 1))).unwrap();
    assert_eq!(host.listings(), 0);
    let first = engine.resolve_gateway(&mut host).unwrap();
    assert_eq!(host.listings(), 1);
    host.delete(&Route::new(v4(0, 0, 0, 0), 0)).unwrap();
    host.add(&Route::new(v4(0, 0, 0, 0), 0).with_gateway(v4(192, 0, 2, 99))).unwrap();
    let second = engine.resolve_gateway(&mut host).unwrap();
    assert_eq!(first, second);
    assert_eq!(first, gateway_v4());
    assert_eq!(host.listings(), 1);
    assert_eq!(engine.gateway, Slot::Ready(gateway_v4()));
}

#[test]
fn interface_is_asked_for_again_after_a_failure() {
    let mut engine = Engine::new(Platform::strict());
    let broken = Host::new(Err("no default interface".to_string()));
    assert_eq!(engine.resolve_interface(&broken), Err("no default interface".to_string()));
    assert_eq!(engine.interface, Slot::Empty);
    assert_eq!(engine.resolve_interface(&host()), Ok(7));
    assert_eq!(engine.interface, Slot::Ready(7));
    assert_eq!(engine.resolve_interface(&broken), Ok(7));
}

#[test]
fn slot_tells_one_caller_to_work() {
    let mut slot: Slot<u32> = Slot::new();
    assert_eq!(slot.get(), None);
    assert_eq!(slot.request(), Lookup::Miss);
    assert_eq!(slot.request(), Lookup::Busy);
    assert_eq!(slot.report(Some(5)), Some(5));
    assert_eq!(slot.request(), Lookup::Hit(5));
    assert_eq!(slot.request(), Lookup::Hit(5));
    assert_eq!(slot.report(Some(6)), Some(5));
    assert_eq!(slot.report(None), Some(5));
    assert_eq!(slot.get(), Some(5));
}

#[test]
fn slot_is_empty_again_after_a_failure() {
    let mut slot: Slot<u32> = Slot::new();
    assert_eq!(slot.request(), Lookup::Miss);
    assert_eq!(slot.report(None), None);
    assert_eq!(slot, Slot::Empty);
    assert_eq!(slot.request(), Lookup::Miss);
    assert_eq!(slot.report(Some(9)), Some(9));
    assert_eq!(slot, Slot::Ready(9));
}

#[test]
fn ipv6_route_over_the_ipv4_gateway() {
    let dest = v6(0x2001_0250 << 96);
    let chosen = select_gateway(&dest, &gateway_v4(), &Platform::with_ipv4_fallback());
    assert_eq!(chosen, Ok(v4(192, 0, 2, 1)));
    let chosen = select_gateway(&dest, &gateway_v4(), &Platform::strict());
    assert_eq!(chosen, Err(RouteOpError::NoGatewayError));
    let prefix = net("2001:250::/35");
    let entry = plan_addition(&prefix, &gateway_v4(), &Ok(7), &Platform::with_ipv4_fallback());
    assert_eq!(
        entry,
        Ok(Route {
            destination: dest,
            prefix: 35,
            gateway: Some(v4(192, 0, 2, 1)),
            ifindex: Some(7)
        })
    );
    let mut engine = Engine::with_cached(Platform::strict(), gateway_v4(), 7);
    let mut host = host();
    assert_eq!(add_route(&mut engine, &mut host, &prefix), Err(RouteOpError::NoGatewayError));
    assert!(host.entries().is_empty());
}

#[test]
fn gateway_of_the_own_family_comes_first() {
    let both = Gateway { v4: Some(Ipv4Address(1)), v6: Some(Ipv6Address(2)) };
    let fallback = Platform::with_ipv4_fallback();
    assert_eq!(select_gateway(&v6(9), &both, &fallback), Ok(v6(2)));
    assert_eq!(select_gateway(&v4(9, 9, 9, 9), &both, &fallback), Ok(IpAddress::V4(Ipv4Address(1))));
    let only_v6 = Gateway { v4: None, v6: Some(Ipv6Address(2)) };
    assert_eq!(
        select_gateway(&v4(9, 9, 9, 9), &only_v6, &fallback),
        Err(RouteOpError::NoGatewayError)
    );
    let none = Gateway { v4: None, v6: None };
    assert_eq!(select_gateway(&v6(9), &none, &fallback), Err(RouteOpError::NoGatewayError));
}

#[test]
fn outcomes_come_out_in_the_order_of_submission() {
    let failure = OsError::new(OsErrorKind::PermissionDenied, Some(1), "Operation not permitted");
    let mut collector = OutcomeCollector::new(3);
    assert_eq!(collector.len(), 3);
    assert!(!collector.is_complete());
    assert!(collector.record(2, Outcome::Failed(failure.clone())));
    assert!(collector.record(0, Outcome::Applied));
    assert!(!collector.is_complete());
    assert!(!collector.record(0, ALREADY));
    assert!(!collector.record(3, ALREADY));
    assert!(collector.record(1, ALREADY));
    assert!(collector.is_complete());
    let result = collector.finish().unwrap();
    assert_eq!(result.outcomes(), &vec![Outcome::Applied, ALREADY, Outcome::Failed(failure)]);
    assert_eq!((result.applied(), result.ignored(), result.failed()), (1, 1, 1));
    assert!(!result.succeeded());
}

#[test]
fn collector_that_lacks_an_outcome_gives_no_result() {
    let mut collector = OutcomeCollector::new(2);
    assert!(collector.record(1, Outcome::Applied));
    assert!(collector.finish().is_none());
    assert_eq!(OutcomeCollector::new(0).finish().unwrap().len(), 0);
}

#[test]
fn answers_to_an_addition() {
    assert_eq!(classify_add(Ok(())), Outcome::Applied);
    let linux = OsError::new(
        OsErrorKind::Other,
        None,
        "Received a netlink error message File exists (os error 17)",
    );
    assert_eq!(classify_add(Err(linux)), ALREADY);
    let windows = OsError::new(OsErrorKind::AlreadyExists, Some(5010), "5010: object exists");
    assert_eq!(classify_add(Err(windows)), ALREADY);
    let mac = OsError::new(OsErrorKind::AlreadyExists, None, "rtm_errno 17");
    assert_eq!(classify_add(Err(mac)), ALREADY);
    let denied = OsError::new(OsErrorKind::PermissionDenied, Some(1), "file exists");
    assert_eq!(classify_add(Err(denied.clone())), Outcome::Failed(denied));
    let other = OsError::new(OsErrorKind::Other, None, "Network is unreachable");
    assert_eq!(classify_add(Err(other.clone())), Outcome::Failed(other));
    let gone = OsError::new(OsErrorKind::NotFound, None, "not found");
    assert_eq!(classify_add(Err(gone.clone())), Outcome::Failed(gone));
}

#[test]
fn answers_to_a_removal() {
    assert_eq!(classify_delete(Ok(())), Outcome::Applied);
    let gone = OsError::new(OsErrorKind::NotFound, None, "No such process");
    assert_eq!(classify_delete(Err(gone)), MISSING);
    let exists = OsError::new(OsErrorKind::AlreadyExists, None, "exists");
    assert_eq!(classify_delete(Err(exists.clone())), Outcome::Failed(exists));
    let other = OsError::new(OsErrorKind::Other, None, "not found");
    assert_eq!(classify_delete(Err(other.clone())), Outcome::Failed(other));
}

#[test]
fn outcome_classes() {
    let failed = Outcome::Failed(OsError::new(OsErrorKind::Unlisted, None, ""));
    assert!(Outcome::Applied.is_applied() && !Outcome::Applied.is_ignored());
    assert!(ALREADY.is_ignored() && !ALREADY.is_failed());
    assert!(failed.is_failed() && !failed.is_applied());
}

#[test]
fn a_refused_route_does_not_stop_the_batch() {
    let mut engine = engine();
    let mut host = host();
    let prefixes = vec![net("1.0.1.9/24"), net("1.0.2.0/23")];
    let result = add_routes(&mut engine, &mut host, &prefixes).unwrap();
    let cause = OsError::new(OsErrorKind::InvalidInput, Some(22), "Invalid argument");
    assert_eq!(result.outcomes(), &vec![Outcome::Failed(cause), Outcome::Applied]);
    assert_eq!((result.applied(), result.ignored(), result.failed()), (1, 0, 1));
    assert!(!result.succeeded());
    assert_eq!(host.entries().len(), 1);
}

#[test]
fn a_refused_route_stops_a_batch_that_is_to_stop() {
    let mut engine = engine().with_policy(FailurePolicy::Stop);
    assert_eq!(engine.policy, FailurePolicy::Stop);
    assert_eq!(Engine::new(Platform::strict()).policy, FailurePolicy::Continue);
    let mut host = host();
    let prefixes = vec![net("1.0.2.0/23"), net("1.0.1.9/24"), net("1.0.4.0/22"), net("9.9.9.9/8")];
    let cause = OsError::new(OsErrorKind::InvalidInput, Some(22), "Invalid argument");
    assert_eq!(
        add_routes(&mut engine, &mut host, &prefixes),
        Err(RouteOpError::OpError(cause.clone()))
    );
    assert_eq!(host.entries().len(), 1);
    assert_eq!(host.entries()[0].destination, v4(1, 0, 2, 0));
    assert_eq!(
        up(&mut engine, &mut host, Ok(prefixes[1..].to_vec())),
        Err(Error::RouteOpError(RouteOpError::OpError(cause)))
    );
    assert_eq!(host.entries().len(), 1);
    let sound = vec![net("1.0.2.0/23"), net("1.0.4.0/22")];
    let added = add_routes(&mut engine, &mut host, &sound).unwrap();
    assert_eq!(added.outcomes(), &vec![ALREADY, Outcome::Applied]);
    let removed = del_routes(&mut engine, &mut host, &prefixes).unwrap();
    assert_eq!(removed.outcomes(), &vec![Outcome::Applied, MISSING, Outcome::Applied, MISSING]);
    assert!(host.entries().is_empty());
}

#[test]
fn what_becomes_of_an_outcome() {
    let cause = OsError::new(OsErrorKind::PermissionDenied, Some(1), "Operation not permitted");
    let failed = Outcome::Failed(cause.clone());
    assert_eq!(settle(failed.clone(), FailurePolicy::Continue), Ok(failed.clone()));
    assert_eq!(settle(failed, FailurePolicy::Stop), Err(RouteOpError::OpError(cause)));
    for policy in [FailurePolicy::Continue, FailurePolicy::Stop] {
        assert_eq!(settle(Outcome::Applied, policy), Ok(Outcome::Applied));
        assert_eq!(settle(ALREADY, policy), Ok(ALREADY));
        assert_eq!(settle(MISSING, policy), Ok(MISSING));
    }
}

#[test]
fn a_prefix_without_gateway_stops_the_batch() {
    let mut engine = Engine::new(Platform::strict());
    let mut host = host();
    host.add(&Route::new(v4(0, 0, 0, 0), 0).with_gateway(v4(192, 0, 2, 1))).unwrap();
    let before = host.entries();
    let prefixes = vec![net("1.0.1.0/24"), net("2001:250::/35"), net("1.0.2.0/23")];
    let result = add_routes(&mut engine, &mut host, &prefixes);
    assert_eq!(result, Err(RouteOpError::NoGatewayError));
    assert_eq!(host.entries(), before);
    assert_eq!(host.listings(), 1);
    assert_eq!(engine.gateway, Slot::Ready(gateway_v4()));
    assert_eq!(engine.interface, Slot::Ready(7));
}

#[test]
fn a_host_without_interface_stops_the_batch() {
    let mut engine = Engine::new(Platform::strict());
    let mut host = Host::new(Err("Local IP address not found".to_string()));
    let detail = || RouteOpError::GetInterfaceError("Local IP address not found".to_string());
    assert_eq!(del_routes(&mut engine, &mut host, &[net("1.0.1.0/24")]), Err(detail()));
    assert_eq!(del_route(&mut engine, &mut host, &net("1.0.1.0/24")), Err(detail()));
    assert_eq!(
        add_routes(&mut engine, &mut host, &[net("1.0.1.0/24")]),
        Err(RouteOpError::NoGatewayError)
    );
    host.add(&Route::new(v4(0, 0, 0, 0), 0).with_gateway(v4(192, 0, 2, 1))).unwrap();
    let mut engine = Engine::new(Platform::strict());
    assert_eq!(add_routes(&mut engine, &mut host, &[net("1.0.1.0/24")]), Err(detail()));
    assert_eq!(engine.interface, Slot::Empty);
    assert_eq!(host.entries().len(), 1);
}

#[test]
fn a_host_without_handle_stops_the_batch() {
    let mut engine = Engine::new(Platform::strict());
    let mut host = host();
    host.add(&Route::new(v4(0, 0, 0, 0), 0).with_gateway(v4(192, 0, 2, 1))).unwrap();
    assert!(host.is_open());
    host.set_open(false);
    let prefixes = [net("1.0.1.0/24")];
    assert_eq!(add_routes(&mut engine, &mut host, &prefixes), Err(RouteOpError::HandleInitError));
    assert_eq!(del_routes(&mut engine, &mut host, &prefixes), Err(RouteOpError::HandleInitError));
    assert_eq!(add_routes(&mut engine, &mut host, &[]), Err(RouteOpError::HandleInitError));
    assert_eq!(
        up(&mut engine, &mut host, Ok(prefixes.to_vec())),
        Err(Error::RouteOpError(RouteOpError::HandleInitError))
    );
    assert_eq!(engine, Engine::new(Platform::strict()));
    assert_eq!((host.listings(), host.entries().len()), (0, 1));
    host.set_open(true);
    assert!(add_routes(&mut engine, &mut host, &prefixes).is_ok());
}

#[test]
fn a_table_that_cannot_be_listed_stops_the_batch() {
    let mut engine = Engine::new(Platform::strict());
    let mut host = host();
    host.add(&Route::new(v4(0, 0, 0, 0), 0).with_gateway(v4(192, 0, 2, 1))).unwrap();
    let cause = OsError::new(OsErrorKind::Other, None, "Netlink error: connection closed");
    host.set_listing_failure(Some(cause.clone()));
    let prefixes = [net("1.0.1.0/24")];
    assert_eq!(
        add_routes(&mut engine, &mut host, &prefixes),
        Err(RouteOpError::OpError(cause.clone()))
    );
    assert_eq!(
        add_route(&mut engine, &mut host, &prefixes[0]),
        Err(RouteOpError::OpError(cause.clone()))
    );
    assert_eq!(host.list(), Err(cause));
    assert_eq!(engine, Engine::new(Platform::strict()));
    assert_eq!((host.listings(), host.entries().len()), (3, 1));
    assert!(del_routes(&mut engine, &mut host, &prefixes).is_ok());
    host.set_listing_failure(None);
    let added = add_routes(&mut engine, &mut host, &prefixes).unwrap();
    assert_eq!(added.outcomes(), &vec![Outcome::Applied]);
    assert_eq!(host.listings(), 4);
    let known = engine;
    host.set_listing_failure(Some(OsError::new(OsErrorKind::Other, None, "again")));
    assert_eq!(add_routes(&mut engine, &mut host, &prefixes).unwrap().outcomes(), &vec![ALREADY]);
    assert_eq!((engine, host.listings()), (known, 4));
}

#[test]
fn a_batch_without_prefixes_asks_nothing() {
    let mut engine = Engine::new(Platform::strict());
    let mut host = Host::new(Err("none".to_string()));
    let added = add_routes(&mut engine, &mut host, &[]).unwrap();
    assert_eq!((added.len(), added.applied(), added.ignored(), added.failed()), (0, 0, 0, 0));
    assert!(added.succeeded());
    let removed = del_routes(&mut engine, &mut host, &[]).unwrap();
    assert_eq!(removed.len(), 0);
    assert_eq!(engine, Engine::new(Platform::strict()));
    assert_eq!(host.listings(), 0);
}

#[test]
fn plans_hold_one_entry_for_each_prefix() {
    let prefixes = vec![net("1.0.1.0/24"), net("1.0.2.0/23")];
    let plan = plan_additions(&prefixes, &gateway_v4(), &Ok(7), &Platform::strict()).unwrap();
    assert_eq!(plan.len(), 2);
    assert_eq!(plan[1], build_addition(&prefixes[1], v4(192, 0, 2, 1), 7));
    assert_eq!(plan[1].gateway, Some(v4(192, 0, 2, 1)));
    let plan = plan_removals(&prefixes, &Ok(7)).unwrap();
    assert_eq!(plan[0], build_removal(&prefixes[0], 7));
    assert_eq!(
        plan[0],
        Route { destination: v4(1, 0, 1, 0), prefix: 24, gateway: None, ifindex: Some(7) }
    );
    let missing = Err("down".to_string());
    assert_eq!(
        plan_removals(&prefixes, &missing),
        Err(RouteOpError::GetInterfaceError("down".to_string()))
    );
    assert_eq!(plan_removals(&[], &missing), Ok(vec![]));
}

#[test]
fn table_refuses_what_it_has_and_what_is_no_network() {
    let mut host = host();
    let route = Route::new(v4(1, 0, 2, 0), 23).with_ifindex(7);
    assert!(!host.contains(&route));
    assert_eq!(host.add(&route), Ok(()));
    assert!(host.contains(&route));
    assert!(host.contains(&Route::new(v4(1, 0, 2, 0), 23)));
    assert!(!host.contains(&Route::new(v4(1, 0, 2, 0), 24)));
    assert_eq!(
        host.add(&route.with_ifindex(9)),
        Err(OsError::new(OsErrorKind::AlreadyExists, Some(17), "File exists"))
    );
    assert_eq!(
        host.add(&Route::new(v4(1, 0, 3, 0), 23)),
        Err(OsError::new(OsErrorKind::InvalidInput, Some(22), "Invalid argument"))
    );
    assert_eq!(
        host.delete(&Route::new(v4(1, 0, 3, 0), 24)),
        Err(OsError::new(OsErrorKind::NotFound, Some(3), "No such process"))
    );
    assert_eq!(host.entries(), vec![route]);
    assert_eq!(host.default_interface(), Ok(7));
}

#[test]
fn result_counts_each_class() {
    let cause = OsError::new(OsErrorKind::OutOfMemory, None, "rtm_errno 3436");
    let outcomes = vec![ALREADY, Outcome::Failed(cause), MISSING, Outcome::Applied, ALREADY];
    let result = BatchResult::from_outcomes(outcomes.clone());
    assert_eq!(result.outcomes(), &outcomes);
    assert_eq!((result.applied(), result.ignored(), result.failed()), (1, 3, 1));
    assert_eq!(result.len(), 5);
    assert_eq!(result.summary("added"), "Routes added: 1, ignored: 3, failed: 1.");
    let none = BatchResult::from_outcomes(Vec::new());
    assert_eq!(none.summary("removed"), "Routes removed: 0, ignored: 0, failed: 0.");
}

#[test]
fn up_and_down_hand_on_the_failure_of_the_source() {
    let mut engine = engine();
    let mut host = host();
    let failure = Error::NetworkError("timed out".to_string());
    assert_eq!(up(&mut engine, &mut host, Err(failure.clone())), Err(failure.clone()));
    assert_eq!(down(&mut engine, &mut host, Err(failure.clone())), Err(failure));
    assert!(host.entries().is_empty());
}

#[test]
fn up_and_down_bring_the_routes_in_and_out() {
    let mut engine = engine();
    let mut host = host();
    let prefixes = vec![net("1.0.1.0/24"), net("1.0.2.0/23")];
    let added = up(&mut engine, &mut host, Ok(prefixes.clone())).unwrap();
    assert_eq!((added.applied(), added.ignored(), added.failed()), (2, 0, 0));
    assert_eq!(host.entries().len(), 2);
    let removed = down(&mut engine, &mut host, Ok(prefixes)).unwrap();
    assert_eq!((removed.applied(), removed.ignored(), removed.failed()), (2, 0, 0));
    assert!(host.entries().is_empty());
    let mut strict = Engine::with_cached(Platform::strict(), gateway_v4(), 7);
    assert_eq!(
        up(&mut strict, &mut host, Ok(vec![net("2001:250::/35")])),
        Err(Error::RouteOpError(RouteOpError::NoGatewayError))
    );
}
