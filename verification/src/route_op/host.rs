use crate::error::{OsError, OsErrorKind, OsErrorView};
use crate::net::{check_network_address, is_network_address};
use crate::route_op::entry::Route;
use crate::route_op::outcome::{IgnoreReason, OutcomeView};
use vstd::prelude::*;

verus! {

/// Whether two routes lead to the same network.
pub open spec fn same_destination(a: Route, b: Route) -> bool {
    a.destination == b.destination && a.prefix == b.prefix
}

/// Whether a table holds a route to the network that `route` leads to.
pub open spec fn table_has(routes: Seq<Route>, route: Route) -> bool {
    exists|i: int| 0 <= i < routes.len() && same_destination(#[trigger] routes[i], route)
}

/// Whether a request for removal means `entry`: it names the entry's
/// network and, if it names an interface, the entry's interface.
pub open spec fn delete_matches(entry: Route, request: Route) -> bool {
    same_destination(entry, request) && (request.ifindex is None || entry.ifindex
        == request.ifindex)
}

/// Whether a table holds an entry that a request for removal means.
pub open spec fn table_matches(routes: Seq<Route>, request: Route) -> bool {
    exists|i: int| 0 <= i < routes.len() && delete_matches(#[trigger] routes[i], request)
}

/// What a routing table always is: each destination is a network address
/// of its prefix length, and no network has two routes.
pub open spec fn table_wf(routes: Seq<Route>) -> bool {
    &&& forall|i: int|
        0 <= i < routes.len() ==> is_network_address(
            (#[trigger] routes[i]).destination,
            routes[i].prefix,
        )
    &&& forall|i: int, j: int|
        0 <= i < j < routes.len() ==> !same_destination(#[trigger] routes[i], #[trigger] routes[j])
}

/// Whether the table takes `route` in: its destination is a network
/// address of its prefix length.
pub open spec fn acceptable(route: Route) -> bool {
    is_network_address(route.destination, route.prefix)
}

/// The table after a request to add `route`: the route comes last, unless
/// it is refused.
pub open spec fn table_after_add(routes: Seq<Route>, route: Route) -> Seq<Route> {
    if acceptable(route) && !table_has(routes, route) {
        routes.push(route)
    } else {
        routes
    }
}

/// The table without the entries that a request for removal means.
pub open spec fn table_after_delete(routes: Seq<Route>, request: Route) -> Seq<Route>
    decreases routes.len(),
{
    if routes.len() == 0 {
        routes
    } else if delete_matches(routes.last(), request) {
        table_after_delete(routes.drop_last(), request)
    } else {
        table_after_delete(routes.drop_last(), request).push(routes.last())
    }
}

/// The failure that answers a route whose destination is no network
/// address of its prefix length.
pub open spec fn invalid_argument() -> OsErrorView {
    OsErrorView {
        kind: OsErrorKind::InvalidInput,
        code: Some(22i32),
        message: "Invalid argument"@,
    }
}

/// The failure that answers a route to a network that has one already.
pub open spec fn file_exists() -> OsErrorView {
    OsErrorView { kind: OsErrorKind::AlreadyExists, code: Some(17i32), message: "File exists"@ }
}

/// The failure that answers the removal of a route that is not there.
pub open spec fn no_such_route() -> OsErrorView {
    OsErrorView { kind: OsErrorKind::NotFound, code: Some(3i32), message: "No such process"@ }
}

/// The failure, if any, that answers a request to add `route`.
pub open spec fn add_answer(routes: Seq<Route>, route: Route) -> Option<OsErrorView> {
    if !acceptable(route) {
        Some(invalid_argument())
    } else if table_has(routes, route) {
        Some(file_exists())
    } else {
        None
    }
}

/// The failure, if any, that answers a request for removal.
pub open spec fn delete_answer(routes: Seq<Route>, request: Route) -> Option<OsErrorView> {
    if table_matches(routes, request) {
        None
    } else {
        Some(no_such_route())
    }
}

/// How a request to add `route` ends.
pub open spec fn add_outcome(routes: Seq<Route>, route: Route) -> OutcomeView {
    if !acceptable(route) {
        OutcomeView::Failed(invalid_argument())
    } else if table_has(routes, route) {
        OutcomeView::Ignored(IgnoreReason::AlreadyExists)
    } else {
        OutcomeView::Applied
    }
}

/// How a request for removal ends.
pub open spec fn delete_outcome(routes: Seq<Route>, request: Route) -> OutcomeView {
    if table_matches(routes, request) {
        OutcomeView::Applied
    } else {
        OutcomeView::Ignored(IgnoreReason::NotFound)
    }
}

/// The table after the requests to add the routes of `plan`, one after the
/// other.
pub open spec fn table_after_adds(routes: Seq<Route>, plan: Seq<Route>) -> Seq<Route>
    decreases plan.len(),
{
    if plan.len() == 0 {
        routes
    } else {
        table_after_add(table_after_adds(routes, plan.drop_last()), plan.last())
    }
}

/// How the requests to add the routes of `plan`, one after the other, end.
pub open spec fn outcomes_of_adds(routes: Seq<Route>, plan: Seq<Route>) -> Seq<OutcomeView>
    decreases plan.len(),
{
    if plan.len() == 0 {
        Seq::empty()
    } else {
        outcomes_of_adds(routes, plan.drop_last()).push(
            add_outcome(table_after_adds(routes, plan.drop_last()), plan.last()),
        )
    }
}

/// The table after the requests for removal in `plan`, one after the
/// other.
pub open spec fn table_after_deletes(routes: Seq<Route>, plan: Seq<Route>) -> Seq<Route>
    decreases plan.len(),
{
    if plan.len() == 0 {
        routes
    } else {
        table_after_delete(table_after_deletes(routes, plan.drop_last()), plan.last())
    }
}

/// How the requests for removal in `plan`, one after the other, end.
pub open spec fn outcomes_of_deletes(routes: Seq<Route>, plan: Seq<Route>) -> Seq<OutcomeView>
    decreases plan.len(),
{
    if plan.len() == 0 {
        Seq::empty()
    } else {
        outcomes_of_deletes(routes, plan.drop_last()).push(
            delete_outcome(table_after_deletes(routes, plan.drop_last()), plan.last()),
        )
    }
}

/// The outcomes of the first entries of a plan are the first outcomes of
/// the plan.
pub proof fn lemma_adds_begin(routes: Seq<Route>, plan: Seq<Route>, n: int)
    requires
        0 <= n <= plan.len(),
    ensures
        outcomes_of_adds(routes, plan).len() == plan.len(),
        outcomes_of_adds(routes, plan.take(n)) == outcomes_of_adds(routes, plan).take(n),
    decreases plan.len() - n,
{
    if n < plan.len() {
        lemma_adds_begin(routes, plan, n + 1);
        assert(plan.take(n + 1).drop_last() == plan.take(n));
        assert(outcomes_of_adds(routes, plan).take(n + 1).drop_last() == outcomes_of_adds(
            routes,
            plan,
        ).take(n));
    } else {
        assert(plan.take(n) == plan);
        lemma_adds_len(routes, plan);
    }
}

/// A plan of additions has as many outcomes as entries.
pub proof fn lemma_adds_len(routes: Seq<Route>, plan: Seq<Route>)
    ensures
        outcomes_of_adds(routes, plan).len() == plan.len(),
    decreases plan.len(),
{
    if plan.len() > 0 {
        lemma_adds_len(routes, plan.drop_last());
    }
}

/// The outcomes of the first entries of a plan of removals are the first
/// outcomes of the plan.
pub proof fn lemma_deletes_begin(routes: Seq<Route>, plan: Seq<Route>, n: int)
    requires
        0 <= n <= plan.len(),
    ensures
        outcomes_of_deletes(routes, plan).len() == plan.len(),
        outcomes_of_deletes(routes, plan.take(n)) == outcomes_of_deletes(routes, plan).take(n),
    decreases plan.len() - n,
{
    if n < plan.len() {
        lemma_deletes_begin(routes, plan, n + 1);
        assert(plan.take(n + 1).drop_last() == plan.take(n));
        assert(outcomes_of_deletes(routes, plan).take(n + 1).drop_last() == outcomes_of_deletes(
            routes,
            plan,
        ).take(n));
    } else {
        assert(plan.take(n) == plan);
        lemma_deletes_len(routes, plan);
    }
}

/// A plan of removals has as many outcomes as entries.
pub proof fn lemma_deletes_len(routes: Seq<Route>, plan: Seq<Route>)
    ensures
        outcomes_of_deletes(routes, plan).len() == plan.len(),
    decreases plan.len(),
{
    if plan.len() > 0 {
        lemma_deletes_len(routes, plan.drop_last());
    }
}

/// A removal leaves a table without a matching entry as it is.
pub proof fn lemma_delete_absent(routes: Seq<Route>, request: Route)
    requires
        !table_matches(routes, request),
    ensures
        table_after_delete(routes, request) == routes,
    decreases routes.len(),
{
    if routes.len() > 0 {
        let init = routes.drop_last();
        lemma_delete_absent(init, request);
    }
}

/// A removal takes the one matching entry out of a table and leaves the
/// others in their order.
pub proof fn lemma_delete_present(routes: Seq<Route>, request: Route, i: int)
    requires
        table_wf(routes),
        0 <= i < routes.len(),
        delete_matches(routes[i], request),
    ensures
        table_after_delete(routes, request) == routes.remove(i),
    decreases routes.len(),
{
    let init = routes.drop_last();
    let last = routes.len() - 1;
    if i == last {
        lemma_delete_absent(init, request);
    } else {
        lemma_wf_drop_last(routes);
        lemma_delete_present(init, request, i);
    }
}

/// A table without its last entry is a table.
pub proof fn lemma_wf_drop_last(routes: Seq<Route>)
    requires
        table_wf(routes),
        routes.len() > 0,
    ensures
        table_wf(routes.drop_last()),
{
}

/// What a table is after an addition or a removal is a table again.
pub proof fn lemma_wf_kept(routes: Seq<Route>, route: Route)
    requires
        table_wf(routes),
    ensures
        table_wf(table_after_add(routes, route)),
        table_wf(table_after_delete(routes, route)),
{
    if table_matches(routes, route) {
        let i = choose|i: int| 0 <= i < routes.len() && delete_matches(#[trigger] routes[i], route);
        lemma_delete_present(routes, route, i);
        let removed = routes.remove(i);
        assert forall|a: int, b: int| 0 <= a < b < removed.len() implies !same_destination(
            #[trigger] removed[a],
            #[trigger] removed[b],
        ) by {
            let a0 = if a < i { a } else { a + 1 };
            let b0 = if b < i { b } else { b + 1 };
        }
        assert forall|a: int| 0 <= a < removed.len() implies is_network_address(
            (#[trigger] removed[a]).destination,
            removed[a].prefix,
        ) by {
            let a0 = if a < i { a } else { a + 1 };
        }
    } else {
        lemma_delete_absent(routes, route);
    }
}

/// The number that follows `n`, or `n` itself where there is none.
pub open spec fn counted_up(n: u64) -> u64 {
    if n < u64::MAX {
        (n + 1) as u64
    } else {
        n
    }
}

/// A host that exists in memory only: a routing table that answers as an
/// operating system's does, the default interface, and a count of how often
/// the table was listed. The host may be one that hands out no handle on
/// its routing table, or one that fails to list it.
#[derive(Debug)]
pub struct Host {
    routes: Vec<Route>,
    interface: Result<u32, String>,
    listings: u64,
    open: bool,
    listing_failure: Option<OsError>,
}

/// What a `Host` holds.
pub struct HostView {
    /// The routing table, in the order in which a listing shows it.
    pub routes: Seq<Route>,
    /// The index of the default interface, or why the host cannot name one.
    pub interface: Result<u32, String>,
    /// How often the table was listed.
    pub listings: u64,
    /// Whether the host hands out a handle on its routing table.
    pub open: bool,
    /// The failure that answers a listing of the table, where listings
    /// fail.
    pub listing_failure: Option<OsError>,
}

impl View for Host {
    type V = HostView;

    closed spec fn view(&self) -> HostView {
        HostView {
            routes: self.routes@,
            interface: self.interface,
            listings: self.listings,
            open: self.open,
            listing_failure: self.listing_failure,
        }
    }
}

impl Host {
    /// What holds of every host: its routing table is one.
    #[verifier::type_invariant]
    pub closed spec fn wf(&self) -> bool {
        table_wf(self.routes@)
    }

    /// The routing table of a host is one.
    pub proof fn law_table_wf(&self)
        requires
            self.wf(),
        ensures
            table_wf(self@.routes),
    {
    }

    /// A host with an empty routing table.
    pub fn new(interface: Result<u32, String>) -> (host: Host)
        ensures
            host@ == (HostView {
                routes: Seq::empty(),
                interface,
                listings: 0,
                open: true,
                listing_failure: None,
            }),
    {
        Host { routes: Vec::new(), interface, listings: 0, open: true, listing_failure: None }
    }

    /// Makes the listings of the table fail with the given failure, or
    /// work again.
    pub fn set_listing_failure(&mut self, failure: Option<OsError>)
        ensures
            final(self)@ == (HostView { listing_failure: failure, ..old(self)@ }),
    {
        proof {
            use_type_invariant(&*self);
        }
        self.listing_failure = failure;
    }

    /// Makes the host hand out handles on its routing table, or none.
    pub fn set_open(&mut self, open: bool)
        ensures
            final(self)@ == (HostView { open, ..old(self)@ }),
    {
        proof {
            use_type_invariant(&*self);
        }
        self.open = open;
    }

    /// Whether the host hands out a handle on its routing table.
    pub fn is_open(&self) -> (open: bool)
        ensures
            open == self@.open,
    {
        self.open
    }

    /// Lists the routing table, or fails to, and counts the listing.
    pub fn list(&mut self) -> (r: Result<Vec<Route>, OsError>)
        ensures
            match old(self)@.listing_failure {
                Some(cause) => r == Err::<Vec<Route>, OsError>(cause),
                None => r is Ok && r->Ok_0@ == old(self)@.routes,
            },
            final(self)@ == (HostView { listings: counted_up(old(self)@.listings), ..old(self)@ }),
    {
        proof {
            use_type_invariant(&*self);
        }
        if self.listings < u64::MAX {
            self.listings = self.listings + 1;
        }
        match &self.listing_failure {
            Some(cause) => Err(cause.clone()),
            None => Ok(self.entries()),
        }
    }

    /// The routing table as a listing would show it, without counting as
    /// one.
    pub fn entries(&self) -> (routes: Vec<Route>)
        ensures
            routes@ == self@.routes,
    {
        let mut routes: Vec<Route> = Vec::new();
        let mut i: usize = 0;
        while i < self.routes.len()
            invariant
                i <= self.routes@.len(),
                routes@ == self.routes@.take(i as int),
            decreases self.routes.len() - i,
        {
            routes.push(self.routes[i]);
            i += 1;
        }
        routes
    }

    /// How often the table was listed.
    pub fn listings(&self) -> (n: u64)
        ensures
            n == self@.listings,
    {
        self.listings
    }

    /// The index of the default interface, or why the host cannot name one.
    pub fn default_interface(&self) -> (r: Result<u32, String>)
        ensures
            r == self@.interface,
    {
        match &self.interface {
            Ok(index) => Ok(*index),
            Err(detail) => Err(detail.clone()),
        }
    }

    /// Where the table holds a route to the network that `route` leads to.
    fn position(&self, route: &Route) -> (at: Option<usize>)
        ensures
            match at {
                Some(i) => i < self@.routes.len() && same_destination(self@.routes[i as int], *route),
                None => !table_has(self@.routes, *route),
            },
    {
        let mut i: usize = 0;
        while i < self.routes.len()
            invariant
                i <= self.routes@.len(),
                forall|j: int| 0 <= j < i ==> !same_destination(#[trigger] self.routes@[j], *route),
            decreases self.routes.len() - i,
        {
            if self.routes[i].destination == route.destination && self.routes[i].prefix
                == route.prefix {
                return Some(i);
            }
            i += 1;
        }
        None
    }

    /// Whether the table holds a route to the network that `route` leads
    /// to.
    pub fn contains(&self, route: &Route) -> (b: bool)
        ensures
            b == table_has(self@.routes, *route),
    {
        self.position(route).is_some()
    }

    /// Adds `route` to the table, as the last entry. Refuses a destination
    /// that is no network address of its prefix length, and a network that
    /// has a route already.
    pub fn add(&mut self, route: &Route) -> (r: Result<(), OsError>)
        ensures
            final(self)@ == (HostView {
                routes: table_after_add(old(self)@.routes, *route),
                ..old(self)@
            }),
            match r {
                Ok(_) => add_answer(old(self)@.routes, *route) is None,
                Err(cause) => add_answer(old(self)@.routes, *route) == Some(cause@),
            },
    {
        proof {
            use_type_invariant(&*self);
            lemma_wf_kept(self@.routes, *route);
        }
        if !check_network_address(&route.destination, route.prefix) {
            return Err(OsError::new(OsErrorKind::InvalidInput, Some(22), "Invalid argument"));
        }
        if self.position(route).is_some() {
            return Err(OsError::new(OsErrorKind::AlreadyExists, Some(17), "File exists"));
        }
        let mut routes = self.entries();
        routes.push(*route);
        self.routes = routes;
        Ok(())
    }

    /// Removes the entry that `route` means. Reports a failure where the
    /// table has none.
    pub fn delete(&mut self, route: &Route) -> (r: Result<(), OsError>)
        ensures
            final(self)@ == (HostView {
                routes: table_after_delete(old(self)@.routes, *route),
                ..old(self)@
            }),
            match r {
                Ok(_) => delete_answer(old(self)@.routes, *route) is None,
                Err(cause) => delete_answer(old(self)@.routes, *route) == Some(cause@),
            },
    {
        proof {
            use_type_invariant(&*self);
            lemma_wf_kept(self@.routes, *route);
        }
        match self.position(route) {
            Some(i) => {
                let entry = self.routes[i];
                let named = match route.ifindex {
                    None => true,
                    Some(wanted) => match entry.ifindex {
                        Some(index) => index == wanted,
                        None => false,
                    },
                };
                if named {
                    proof {
                        lemma_delete_present(self@.routes, *route, i as int);
                    }
                    let mut routes = self.entries();
                    routes.remove(i);
                    self.routes = routes;
                    return Ok(());
                }
                proof {
                    assert(!table_matches(self@.routes, *route)) by {
                        if table_matches(self@.routes, *route) {
                            let j = choose|j: int|
                                0 <= j < self@.routes.len() && delete_matches(
                                    #[trigger] self@.routes[j],
                                    *route,
                                );
                        }
                    }
                }
            },
            None => {
                proof {
                    assert(!table_matches(self@.routes, *route)) by {
                        if table_matches(self@.routes, *route) {
                            let j = choose|j: int|
                                0 <= j < self@.routes.len() && delete_matches(
                                    #[trigger] self@.routes[j],
                                    *route,
                                );
                        }
                    }
                }
            },
        }
        proof {
            lemma_delete_absent(self@.routes, *route);
        }
        Err(OsError::new(OsErrorKind::NotFound, Some(3), "No such process"))
    }
}

} // verus!
