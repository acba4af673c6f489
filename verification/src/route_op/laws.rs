use crate::error::{RouteOpError, RouteOpErrorView};
use crate::net::Prefix;
use crate::route_op::batch::{
    all_known, count_failed, gathered, lemma_first_failure, lemma_none_failed, recorded_all,
};
use crate::route_op::entry::Route;
use crate::route_op::host::{
    acceptable, add_outcome, delete_matches, lemma_adds_len, lemma_delete_absent,
    lemma_deletes_len, lemma_wf_kept, outcomes_of_adds, outcomes_of_deletes, same_destination,
    table_after_adds, table_after_delete, table_after_deletes, table_has, table_wf, HostView,
};
use crate::route_op::outcome::{IgnoreReason, Outcome, OutcomeView};
use crate::route_op::plan::{
    lemma_additions_each, lemma_removals_each, planned_additions, planned_removal,
    planned_removals,
};
use crate::route_op::{
    addition_entry_for, addition_plan, gateway_seen, interface_seen, listed_for,
    synchronized_add, synchronized_remove, with_gateway_resolved, Engine, Synced,
};
use vstd::prelude::*;

verus! {

/// Whether a table holds a route to `prefix`.
pub open spec fn holds_prefix(routes: Seq<Route>, prefix: Prefix) -> bool {
    exists|i: int|
        0 <= i < routes.len() && (#[trigger] routes[i]).destination == prefix.addr()
            && routes[i].prefix == prefix.prefix_len()
}

/// An addition of a prefix that the table holds already is ignored, is no
/// error of the batch, and leaves the table as it is, whenever the host
/// hands out a handle and the entry can be planned: the gateways are known
/// or the table can be listed for them, a gateway serves the prefix, and
/// the host names an interface.
pub proof fn law_add_present_is_ignored(engine: Engine, host: HostView, prefix: Prefix)
    requires
        table_wf(host.routes),
        host.open,
        holds_prefix(host.routes, prefix),
        addition_entry_for(engine, host, prefix) is Ok,
    ensures
        synchronized_add(engine, host, seq![prefix]).result == Ok::<
            Seq<OutcomeView>,
            RouteOpErrorView,
        >(seq![OutcomeView::Ignored(IgnoreReason::AlreadyExists)]),
        synchronized_add(engine, host, seq![prefix]).host.routes == host.routes,
{
    reveal_with_fuel(planned_additions, 2);
    reveal_with_fuel(outcomes_of_adds, 2);
    reveal_with_fuel(table_after_adds, 2);
    let gateway = gateway_seen(engine, host)->Ok_0;
    let interface = interface_seen(engine, host);
    let routes = host.routes;
    let prefixes = seq![prefix];
    let plan = planned_additions(prefixes, gateway, interface, engine.platform)->Ok_0;
    lemma_first_failure(outcomes_of_adds(routes, plan));
}

/// A removal of a prefix that the table does not hold is ignored, and
/// leaves the host as it is, whenever the host hands out a handle and
/// names an interface.
pub proof fn law_remove_absent_is_ignored(engine: Engine, host: HostView, prefix: Prefix)
    requires
        host.open,
        !holds_prefix(host.routes, prefix),
        interface_seen(engine, host) is Ok,
    ensures
        synchronized_remove(engine, host, seq![prefix]).result == Ok::<
            Seq<OutcomeView>,
            RouteOpErrorView,
        >(seq![OutcomeView::Ignored(IgnoreReason::NotFound)]),
        synchronized_remove(engine, host, seq![prefix]).host == host,
{
    reveal_with_fuel(planned_removals, 2);
    reveal_with_fuel(outcomes_of_deletes, 2);
    reveal_with_fuel(table_after_deletes, 2);
    let interface = interface_seen(engine, host);
    let routes = host.routes;
    let entry = planned_removal(prefix, interface)->Ok_0;
    let prefixes = seq![prefix];
    let plan = planned_removals(prefixes, interface)->Ok_0;
    lemma_delete_absent(routes, entry);
    lemma_first_failure(outcomes_of_deletes(routes, plan));
}

/// The outcome of each addition of a plan is that of its entry on the
/// table as the entries before it left it.
pub proof fn lemma_outcomes_of_adds_each(routes: Seq<Route>, plan: Seq<Route>, k: int)
    requires
        0 <= k < plan.len(),
    ensures
        outcomes_of_adds(routes, plan).len() == plan.len(),
        outcomes_of_adds(routes, plan)[k] == add_outcome(
            table_after_adds(routes, plan.take(k)),
            plan[k],
        ),
    decreases plan.len(),
{
    let init = plan.drop_last();
    lemma_adds_len(routes, plan);
    lemma_adds_len(routes, init);
    if k < plan.len() - 1 {
        lemma_outcomes_of_adds_each(routes, init, k);
        assert(init.take(k) == plan.take(k));
    }
}

/// What additions make of a table: a table again, which begins with the
/// table as it was, has beyond that only entries of the plan, and holds a
/// route to the network of every entry of the plan that is acceptable.
pub proof fn lemma_adds_structure(routes: Seq<Route>, plan: Seq<Route>)
    requires
        table_wf(routes),
    ensures
        table_wf(table_after_adds(routes, plan)),
        table_after_adds(routes, plan).len() >= routes.len(),
        table_after_adds(routes, plan).take(routes.len() as int) == routes,
        forall|k: int|
            routes.len() <= k < table_after_adds(routes, plan).len() ==> plan.contains(
                #[trigger] table_after_adds(routes, plan)[k],
            ),
        forall|j: int|
            0 <= j < plan.len() && acceptable(#[trigger] plan[j]) ==> table_has(
                table_after_adds(routes, plan),
                plan[j],
            ),
    decreases plan.len(),
{
    let after = table_after_adds(routes, plan);
    if plan.len() > 0 {
        let init = plan.drop_last();
        let last = plan.last();
        let mid = table_after_adds(routes, init);
        lemma_adds_structure(routes, init);
        lemma_wf_kept(mid, last);
        assert forall|k: int| routes.len() <= k < after.len() implies plan.contains(
            #[trigger] after[k],
        ) by {
            if k < mid.len() {
                let j = choose|j: int| 0 <= j < init.len() && init[j] == mid[k];
            }
        }
        assert forall|j: int| 0 <= j < plan.len() && acceptable(#[trigger] plan[j]) implies table_has(
            after,
            plan[j],
        ) by {
            if j < init.len() {
                assert(init[j] == plan[j]);
                let i = choose|i: int| 0 <= i < mid.len() && same_destination(#[trigger] mid[i], plan[j]);
                assert(after[i] == mid[i]);
            } else {
                if !table_has(mid, last) {
                    assert(same_destination(after[mid.len() as int], last));
                }
            }
        }
    }
}

/// Additions of routes that the table holds are all ignored and leave the
/// table as it is.
pub proof fn lemma_adds_of_present(routes: Seq<Route>, plan: Seq<Route>)
    requires
        forall|j: int|
            0 <= j < plan.len() ==> acceptable(#[trigger] plan[j]) && table_has(routes, plan[j]),
    ensures
        table_after_adds(routes, plan) == routes,
        outcomes_of_adds(routes, plan) == Seq::new(
            plan.len(),
            |i: int| OutcomeView::Ignored(IgnoreReason::AlreadyExists),
        ),
    decreases plan.len(),
{
    if plan.len() > 0 {
        let init = plan.drop_last();
        lemma_adds_of_present(routes, init);
    }
}

/// Adding the same prefixes a second time changes nothing: where the first
/// batch went through and none of its routes was refused, the second batch
/// finds every route ignored as there already, and leaves the engine and
/// the host as the first batch left them.
pub proof fn law_add_twice(engine: Engine, host: HostView, prefixes: Seq<Prefix>)
    requires
        table_wf(host.routes),
        synchronized_add(engine, host, prefixes).result is Ok,
        count_failed(synchronized_add(engine, host, prefixes).result->Ok_0) == 0,
    ensures
        ({
            let first = synchronized_add(engine, host, prefixes);
            synchronized_add(first.engine, first.host, prefixes) == (Synced {
                result: Ok(
                    Seq::new(
                        prefixes.len(),
                        |i: int| OutcomeView::Ignored(IgnoreReason::AlreadyExists),
                    ),
                ),
                ..first
            })
        }),
{
    let first = synchronized_add(engine, host, prefixes);
    if prefixes.len() == 0 {
        assert(first.result->Ok_0 =~= Seq::new(
            prefixes.len(),
            |i: int| OutcomeView::Ignored(IgnoreReason::AlreadyExists),
        ));
    } else {
        let gateway = gateway_seen(engine, host)->Ok_0;
        let interface = interface_seen(engine, host);
        let plan = planned_additions(prefixes, gateway, interface, engine.platform)->Ok_0;
        lemma_additions_each(prefixes, gateway, interface, engine.platform);
        let after = table_after_adds(host.routes, plan);
        lemma_adds_structure(host.routes, plan);
        lemma_first_failure(outcomes_of_adds(host.routes, plan));
        lemma_none_failed(first.result->Ok_0);
        assert forall|j: int| 0 <= j < plan.len() implies acceptable(#[trigger] plan[j])
            && table_has(after, plan[j]) by {
            lemma_outcomes_of_adds_each(host.routes, plan, j);
        }
        lemma_adds_of_present(after, plan);
        lemma_first_failure(outcomes_of_adds(after, plan));
    }
}

/// A removal acts on each part of a table by itself.
pub proof fn lemma_delete_concat(a: Seq<Route>, b: Seq<Route>, request: Route)
    ensures
        table_after_delete(a + b, request) == table_after_delete(a, request) + table_after_delete(
            b,
            request,
        ),
    decreases b.len(),
{
    if b.len() > 0 {
        assert((a + b).drop_last() == a + b.drop_last());
        lemma_delete_concat(a, b.drop_last(), request);
    }
}

/// What a removal leaves was there before and is not meant by the request.
pub proof fn lemma_delete_keeps_only(routes: Seq<Route>, request: Route)
    ensures
        forall|k: int|
            0 <= k < table_after_delete(routes, request).len() ==> routes.contains(
                #[trigger] table_after_delete(routes, request)[k],
            ) && !delete_matches(table_after_delete(routes, request)[k], request),
    decreases routes.len(),
{
    if routes.len() > 0 {
        let init = routes.drop_last();
        let mid = table_after_delete(init, request);
        lemma_delete_keeps_only(init, request);
    }
}

/// What removals leave was there before and is not meant by any of the
/// requests.
pub proof fn lemma_deletes_keep_only(routes: Seq<Route>, plan: Seq<Route>)
    ensures
        forall|k: int|
            0 <= k < table_after_deletes(routes, plan).len() ==> routes.contains(
                #[trigger] table_after_deletes(routes, plan)[k],
            ) && forall|j: int|
                0 <= j < plan.len() ==> !delete_matches(
                    table_after_deletes(routes, plan)[k],
                    #[trigger] plan[j],
                ),
    decreases plan.len(),
{
    let after = table_after_deletes(routes, plan);
    if plan.len() > 0 {
        let init = plan.drop_last();
        let mid = table_after_deletes(routes, init);
        lemma_deletes_keep_only(routes, init);
        lemma_delete_keeps_only(mid, plan.last());
        assert forall|k: int| 0 <= k < after.len() implies routes.contains(#[trigger] after[k])
            && forall|j: int| 0 <= j < plan.len() ==> !delete_matches(after[k], #[trigger] plan[j]) by {
            assert forall|j: int| 0 <= j < plan.len() implies !delete_matches(
                after[k],
                #[trigger] plan[j],
            ) by {
                if j < init.len() {
                    assert(init[j] == plan[j]);
                }
            }
        }
    }
}

/// Removals leave alone the part of a table that none of the requests
/// means.
pub proof fn lemma_deletes_pass_over(kept: Seq<Route>, rest: Seq<Route>, plan: Seq<Route>)
    requires
        forall|i: int, j: int|
            0 <= i < kept.len() && 0 <= j < plan.len() ==> !delete_matches(
                #[trigger] kept[i],
                #[trigger] plan[j],
            ),
    ensures
        table_after_deletes(kept + rest, plan) == kept + table_after_deletes(rest, plan),
    decreases plan.len(),
{
    if plan.len() > 0 {
        let init = plan.drop_last();
        lemma_deletes_pass_over(kept, rest, init);
        let mid = table_after_deletes(rest, init);
        lemma_delete_concat(kept, mid, plan.last());
        lemma_delete_absent(kept, plan.last());
    }
}

/// Adding prefixes and then removing the same prefixes leaves the table as
/// it was before, where it held a route to none of them and the additions
/// went through.
pub proof fn law_add_then_remove(engine: Engine, host: HostView, prefixes: Seq<Prefix>)
    requires
        table_wf(host.routes),
        forall|i: int| 0 <= i < prefixes.len() ==> !holds_prefix(host.routes, #[trigger] prefixes[i]),
        synchronized_add(engine, host, prefixes).result is Ok,
    ensures
        ({
            let first = synchronized_add(engine, host, prefixes);
            let second = synchronized_remove(first.engine, first.host, prefixes);
            second.result is Ok && second.host.routes == host.routes
        }),
{
    if prefixes.len() > 0 {
        let gateway = gateway_seen(engine, host)->Ok_0;
        let interface = interface_seen(engine, host);
        let plan = planned_additions(prefixes, gateway, interface, engine.platform)->Ok_0;
        lemma_additions_each(prefixes, gateway, interface, engine.platform);
        lemma_removals_ok(prefixes, interface);
        let removals = planned_removals(prefixes, interface)->Ok_0;
        lemma_removals_each(prefixes, interface);
        let after = table_after_adds(host.routes, plan);
        lemma_adds_structure(host.routes, plan);
        lemma_first_failure(outcomes_of_adds(host.routes, plan));
        lemma_removals_never_fail(after, removals);
        lemma_first_failure(outcomes_of_deletes(after, removals));
        let kept = host.routes;
        let added = after.skip(kept.len() as int);
        assert(after == kept + added);
        assert forall|i: int, j: int|
            0 <= i < kept.len() && 0 <= j < removals.len() implies !delete_matches(
            #[trigger] kept[i],
            #[trigger] removals[j],
        ) by {
            if delete_matches(kept[i], removals[j]) {
                assert(holds_prefix(kept, prefixes[j]));
            }
        }
        lemma_deletes_pass_over(kept, added, removals);
        let left = table_after_deletes(added, removals);
        lemma_deletes_keep_only(added, removals);
        if left.len() > 0 {
            let entry = left[0];
            let j = choose|j: int| 0 <= j < plan.len() && plan[j] == entry;
            assert(planned_removal(prefixes[j], interface) == Ok::<Route, RouteOpError>(
                removals[j],
            ));
        }
    }
}

/// Where the host names an interface, removals can be planned for any
/// prefixes.
pub proof fn lemma_removals_ok(prefixes: Seq<Prefix>, interface: Result<u32, String>)
    requires
        interface is Ok,
    ensures
        planned_removals(prefixes, interface) is Ok,
    decreases prefixes.len(),
{
    if prefixes.len() > 0 {
        lemma_removals_ok(prefixes.drop_last(), interface);
    }
}

/// The completions of a batch when the prefix at place `order[k]` is the
/// `k`-th to complete, each with its outcome from `outcomes`.
pub open spec fn completions_in(outcomes: Seq<Outcome>, order: Seq<int>) -> Seq<(int, Outcome)> {
    Seq::new(order.len(), |k: int| (order[k], outcomes[order[k]]))
}

/// After the first `k` completions, exactly the prefixes that completed
/// have their outcomes.
proof fn lemma_recorded_so_far(outcomes: Seq<Outcome>, order: Seq<int>, k: int)
    requires
        0 <= k <= order.len(),
        order.no_duplicates(),
        forall|i: int| 0 <= i < order.len() ==> 0 <= #[trigger] order[i] < outcomes.len(),
    ensures
        recorded_all(
            Seq::new(outcomes.len(), |i: int| None::<Outcome>),
            completions_in(outcomes, order).take(k),
        ) == Seq::new(
            outcomes.len(),
            |i: int|
                if order.take(k).contains(i) {
                    Some(outcomes[i])
                } else {
                    None
                },
        ),
    decreases k,
{
    let empty = Seq::new(outcomes.len(), |i: int| None::<Outcome>);
    let completions = completions_in(outcomes, order);
    let now = recorded_all(empty, completions.take(k));
    let claimed = Seq::new(
        outcomes.len(),
        |i: int|
            if order.take(k).contains(i) {
                Some(outcomes[i])
            } else {
                None
            },
    );
    if k > 0 {
        lemma_recorded_so_far(outcomes, order, k - 1);
        assert(completions.take(k).drop_last() == completions.take(k - 1));
        let place = order[k - 1];
        let before = order.take(k - 1);
        let upto = order.take(k);
        assert(!before.contains(place)) by {
            if before.contains(place) {
                let m = choose|m: int| 0 <= m < before.len() && before[m] == place;
            }
        }
        assert forall|i: int| 0 <= i < outcomes.len() implies now[i] == claimed[i] by {
            if i == place {
                assert(upto[k - 1] == place);
            } else {
                if upto.contains(i) {
                    let m = choose|m: int| 0 <= m < upto.len() && upto[m] == i;
                }
                if before.contains(i) {
                    let m = choose|m: int| 0 <= m < before.len() && before[m] == i;
                }
            }
        }
    }
}

/// In whatever order the operations of a batch complete, the collector
/// ends with the outcome of each prefix at the place at which the prefix
/// was submitted. `order` is any rearrangement of the places: each occurs
/// in it, and none twice.
pub proof fn law_order_of_submission(outcomes: Seq<Outcome>, order: Seq<int>)
    requires
        order.no_duplicates(),
        forall|i: int| 0 <= i < order.len() ==> 0 <= #[trigger] order[i] < outcomes.len(),
        forall|i: int| 0 <= i < outcomes.len() ==> order.contains(i),
    ensures
        all_known(
            recorded_all(
                Seq::new(outcomes.len(), |i: int| None::<Outcome>),
                completions_in(outcomes, order),
            ),
        ),
        gathered(
            recorded_all(
                Seq::new(outcomes.len(), |i: int| None::<Outcome>),
                completions_in(outcomes, order),
            ),
        ) == outcomes,
{
    let completions = completions_in(outcomes, order);
    lemma_recorded_so_far(outcomes, order, order.len() as int);
    assert(completions.take(order.len() as int) == completions);
    assert(order.take(order.len() as int) == order);
}

/// Once the engine has found out the gateways it goes by what it found,
/// whatever the host's table shows later, and does not list the table
/// again.
pub proof fn law_gateway_asked_once(engine: Engine, host: HostView, later: HostView)
    requires
        gateway_seen(engine, host) is Ok,
    ensures
        gateway_seen(with_gateway_resolved(engine, host), later) == gateway_seen(engine, host),
        listed_for(with_gateway_resolved(engine, host), later) == later,
{
}

/// A batch that goes through has one outcome for each prefix.
pub proof fn law_one_outcome_for_each_prefix(engine: Engine, host: HostView, prefixes: Seq<Prefix>)
    ensures
        synchronized_add(engine, host, prefixes).result is Ok ==> synchronized_add(
            engine,
            host,
            prefixes,
        ).result->Ok_0.len() == prefixes.len(),
        synchronized_remove(engine, host, prefixes).result is Ok ==> synchronized_remove(
            engine,
            host,
            prefixes,
        ).result->Ok_0.len() == prefixes.len(),
{
    if prefixes.len() > 0 {
        let interface = interface_seen(engine, host);
        if addition_plan(engine, host, prefixes) is Ok {
            let gateway = gateway_seen(engine, host)->Ok_0;
            let plan = planned_additions(prefixes, gateway, interface, engine.platform)->Ok_0;
            lemma_additions_each(prefixes, gateway, interface, engine.platform);
            lemma_adds_len(host.routes, plan);
            lemma_first_failure(outcomes_of_adds(host.routes, plan));
        }
        if planned_removals(prefixes, interface) is Ok {
            let plan = planned_removals(prefixes, interface)->Ok_0;
            lemma_removals_each(prefixes, interface);
            lemma_deletes_len(host.routes, plan);
            lemma_first_failure(outcomes_of_deletes(host.routes, plan));
        }
    }
}

/// The table refuses no removal: a removal is applied or ignored.
pub proof fn lemma_removals_never_fail(routes: Seq<Route>, plan: Seq<Route>)
    ensures
        outcomes_of_deletes(routes, plan).len() == plan.len(),
        forall|k: int|
            0 <= k < plan.len() ==> !((#[trigger] outcomes_of_deletes(routes, plan)[k]) is Failed),
    decreases plan.len(),
{
    if plan.len() > 0 {
        let init = plan.drop_last();
        lemma_removals_never_fail(routes, init);
    }
}

} // verus!
