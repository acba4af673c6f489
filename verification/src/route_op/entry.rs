use crate::error::RouteOpError;
use crate::net::{IpAddress, Ipv4Address, Ipv6Address, Prefix};
use vstd::prelude::*;

verus! {

/// One entry of a routing table, or a request to add or remove one.
#[derive(Clone, Copy, Debug, PartialEq, Eq, Hash, Structural)]
pub struct Route {
    /// Network address of the destination. An all-zero destination marks a
    /// default route.
    pub destination: IpAddress,
    /// Length of the destination's network prefix.
    pub prefix: u8,
    /// The next hop.
    pub gateway: Option<IpAddress>,
    /// The interface through which the next hop is reached.
    pub ifindex: Option<u32>,
}

impl Route {
    /// A route to the given network, with neither gateway nor interface.
    pub fn new(destination: IpAddress, prefix: u8) -> (route: Route)
        ensures
            route == (Route { destination, prefix, gateway: None, ifindex: None }),
    {
        Route { destination, prefix, gateway: None, ifindex: None }
    }

    /// This route through the given next hop.
    pub fn with_gateway(self, gateway: IpAddress) -> (route: Route)
        ensures
            route == (Route { gateway: Some(gateway), ..self }),
    {
        Route { gateway: Some(gateway), ..self }
    }

    /// This route over the interface with the given index.
    pub fn with_ifindex(self, ifindex: u32) -> (route: Route)
        ensures
            route == (Route { ifindex: Some(ifindex), ..self }),
    {
        Route { ifindex: Some(ifindex), ..self }
    }
}

/// The host's default next hops, one for each family where it has one.
#[derive(Clone, Copy, Debug, PartialEq, Eq, Hash, Structural)]
pub struct Gateway {
    pub v4: Option<Ipv4Address>,
    pub v6: Option<Ipv6Address>,
}

/// What the platform allows that not every platform does.
#[derive(Clone, Copy, Debug, PartialEq, Eq, Hash, Structural)]
pub struct Platform {
    /// Whether a route to an IPv6 destination may go through a gateway that
    /// has an IPv4 address.
    pub supports_ipv6_over_ipv4_gateway: bool,
}

impl Platform {
    /// A platform on which every route needs a gateway of its own family.
    pub fn strict() -> (p: Platform)
        ensures
            !p.supports_ipv6_over_ipv4_gateway,
    {
        Platform { supports_ipv6_over_ipv4_gateway: false }
    }

    /// A platform on which an IPv6 route may fall back on the IPv4 gateway.
    pub fn with_ipv4_fallback() -> (p: Platform)
        ensures
            p.supports_ipv6_over_ipv4_gateway,
    {
        Platform { supports_ipv6_over_ipv4_gateway: true }
    }
}

/// What a batch does when the operating system refuses one of its routes.
#[derive(Clone, Copy, Debug, PartialEq, Eq, Hash, Structural)]
pub enum FailurePolicy {
    /// The refusal is the outcome of that route, and the batch goes on.
    Continue,
    /// The refusal ends the batch, and is its error. The routes before stay
    /// as the batch left them, and those after are not touched.
    Stop,
}

/// The gateway that a default route names, if `route` is one and names any.
pub open spec fn default_gateway(route: Route) -> Option<IpAddress> {
    if route.destination.unspecified() {
        route.gateway
    } else {
        None
    }
}

/// The IPv4 gateway of the first default route in `routes` that has one.
pub open spec fn first_v4_gateway(routes: Seq<Route>) -> Option<Ipv4Address>
    decreases routes.len(),
{
    if routes.len() == 0 {
        None
    } else {
        match default_gateway(routes.first()) {
            Some(IpAddress::V4(a)) => Some(a),
            _ => first_v4_gateway(routes.drop_first()),
        }
    }
}

/// The IPv6 gateway of the first default route in `routes` that has one.
pub open spec fn first_v6_gateway(routes: Seq<Route>) -> Option<Ipv6Address>
    decreases routes.len(),
{
    if routes.len() == 0 {
        None
    } else {
        match default_gateway(routes.first()) {
            Some(IpAddress::V6(a)) => Some(a),
            _ => first_v6_gateway(routes.drop_first()),
        }
    }
}

/// Whether `route` is a default route that names an IPv4 gateway.
pub open spec fn via_v4(route: Route) -> bool {
    default_gateway(route) matches Some(IpAddress::V4(_))
}

/// Whether `route` is a default route that names an IPv6 gateway.
pub open spec fn via_v6(route: Route) -> bool {
    default_gateway(route) matches Some(IpAddress::V6(_))
}

/// The IPv4 gateway found is that of a default route before which no
/// default route names an IPv4 gateway; and none is found only where no
/// default route names one.
pub proof fn law_first_v4_gateway(routes: Seq<Route>)
    ensures
        match first_v4_gateway(routes) {
            Some(a) => exists|i: int|
                0 <= i < routes.len() && default_gateway(#[trigger] routes[i]) == Some(
                    IpAddress::V4(a),
                ) && forall|j: int| 0 <= j < i ==> !via_v4(#[trigger] routes[j]),
            None => forall|i: int| 0 <= i < routes.len() ==> !via_v4(#[trigger] routes[i]),
        },
    decreases routes.len(),
{
    if routes.len() > 0 {
        let rest = routes.drop_first();
        law_first_v4_gateway(rest);
        match default_gateway(routes.first()) {
            Some(IpAddress::V4(_)) => {},
            _ => {
                match first_v4_gateway(rest) {
                    Some(a) => {
                        let i = choose|i: int|
                            0 <= i < rest.len() && default_gateway(#[trigger] rest[i]) == Some(
                                IpAddress::V4(a),
                            ) && forall|j: int| 0 <= j < i ==> !via_v4(#[trigger] rest[j]);
                        assert forall|j: int| 0 <= j < i + 1 implies !via_v4(
                            #[trigger] routes[j],
                        ) by {
                            if j > 0 {
                                assert(routes[j] == rest[j - 1]);
                            }
                        }
                    },
                    None => {
                        assert forall|i: int| 0 <= i < routes.len() implies !via_v4(
                            #[trigger] routes[i],
                        ) by {
                            if i > 0 {
                                assert(routes[i] == rest[i - 1]);
                            }
                        }
                    },
                }
            },
        }
    }
}

/// The IPv6 gateway found is that of a default route before which no
/// default route names an IPv6 gateway; and none is found only where no
/// default route names one.
pub proof fn law_first_v6_gateway(routes: Seq<Route>)
    ensures
        match first_v6_gateway(routes) {
            Some(a) => exists|i: int|
                0 <= i < routes.len() && default_gateway(#[trigger] routes[i]) == Some(
                    IpAddress::V6(a),
                ) && forall|j: int| 0 <= j < i ==> !via_v6(#[trigger] routes[j]),
            None => forall|i: int| 0 <= i < routes.len() ==> !via_v6(#[trigger] routes[i]),
        },
    decreases routes.len(),
{
    if routes.len() > 0 {
        let rest = routes.drop_first();
        law_first_v6_gateway(rest);
        match default_gateway(routes.first()) {
            Some(IpAddress::V6(_)) => {},
            _ => {
                match first_v6_gateway(rest) {
                    Some(a) => {
                        let i = choose|i: int|
                            0 <= i < rest.len() && default_gateway(#[trigger] rest[i]) == Some(
                                IpAddress::V6(a),
                            ) && forall|j: int| 0 <= j < i ==> !via_v6(#[trigger] rest[j]);
                        assert forall|j: int| 0 <= j < i + 1 implies !via_v6(
                            #[trigger] routes[j],
                        ) by {
                            if j > 0 {
                                assert(routes[j] == rest[j - 1]);
                            }
                        }
                    },
                    None => {
                        assert forall|i: int| 0 <= i < routes.len() implies !via_v6(
                            #[trigger] routes[i],
                        ) by {
                            if i > 0 {
                                assert(routes[i] == rest[i - 1]);
                            }
                        }
                    },
                }
            },
        }
    }
}

/// The default gateways that a listing of the routing table shows.
pub open spec fn gateway_of(routes: Seq<Route>) -> Gateway {
    Gateway { v4: first_v4_gateway(routes), v6: first_v6_gateway(routes) }
}

/// The next hop for a route to `destination`: the gateway of the
/// destination's own family, or for an IPv6 destination without one the
/// IPv4 gateway, where the platform allows that.
pub open spec fn chosen_gateway(
    destination: IpAddress,
    gateway: Gateway,
    platform: Platform,
) -> Option<IpAddress> {
    match destination {
        IpAddress::V4(_) => match gateway.v4 {
            Some(g) => Some(IpAddress::V4(g)),
            None => None,
        },
        IpAddress::V6(_) => match gateway.v6 {
            Some(g) => Some(IpAddress::V6(g)),
            None => if platform.supports_ipv6_over_ipv4_gateway {
                match gateway.v4 {
                    Some(g) => Some(IpAddress::V4(g)),
                    None => None,
                }
            } else {
                None
            },
        },
    }
}

/// The entry that adds a route to `prefix`.
pub open spec fn addition_entry(prefix: Prefix, gateway: IpAddress, ifindex: u32) -> Route {
    Route {
        destination: prefix.addr(),
        prefix: prefix.prefix_len(),
        gateway: Some(gateway),
        ifindex: Some(ifindex),
    }
}

/// The entry that removes the route to `prefix`. It names no gateway.
pub open spec fn removal_entry(prefix: Prefix, ifindex: u32) -> Route {
    Route {
        destination: prefix.addr(),
        prefix: prefix.prefix_len(),
        gateway: None,
        ifindex: Some(ifindex),
    }
}

/// Picks the next hop for a route to `destination`.
pub fn select_gateway(destination: &IpAddress, gateway: &Gateway, platform: &Platform) -> (r:
    Result<IpAddress, RouteOpError>)
    ensures
        match chosen_gateway(*destination, *gateway, *platform) {
            Some(g) => r == Ok::<IpAddress, RouteOpError>(g),
            None => r == Err::<IpAddress, RouteOpError>(RouteOpError::NoGatewayError),
        },
{
    match destination {
        IpAddress::V4(_) => match gateway.v4 {
            Some(g) => Ok(IpAddress::V4(g)),
            None => Err(RouteOpError::NoGatewayError),
        },
        IpAddress::V6(_) => match gateway.v6 {
            Some(g) => Ok(IpAddress::V6(g)),
            None => {
                if platform.supports_ipv6_over_ipv4_gateway {
                    match gateway.v4 {
                        Some(g) => Ok(IpAddress::V4(g)),
                        None => Err(RouteOpError::NoGatewayError),
                    }
                } else {
                    Err(RouteOpError::NoGatewayError)
                }
            },
        },
    }
}

/// Builds the entry that adds a route to `prefix`.
pub fn build_addition(prefix: &Prefix, gateway: IpAddress, ifindex: u32) -> (route: Route)
    ensures
        route == addition_entry(*prefix, gateway, ifindex),
{
    Route::new(prefix.addr(), prefix.prefix_len()).with_gateway(gateway).with_ifindex(ifindex)
}

/// Builds the entry that removes the route to `prefix`.
pub fn build_removal(prefix: &Prefix, ifindex: u32) -> (route: Route)
    ensures
        route == removal_entry(*prefix, ifindex),
{
    Route::new(prefix.addr(), prefix.prefix_len()).with_ifindex(ifindex)
}

/// With only an IPv4 gateway known, a route to an IPv6 destination goes
/// through that gateway where the platform allows it, and has no gateway
/// where it does not. A route to an IPv4 destination goes through the IPv4
/// gateway on every platform.
pub proof fn law_ipv4_gateway_fallback(destination: IpAddress, v4: Ipv4Address, platform: Platform)
    ensures
        destination is V6 && platform.supports_ipv6_over_ipv4_gateway ==> chosen_gateway(
            destination,
            Gateway { v4: Some(v4), v6: None },
            platform,
        ) == Some(IpAddress::V4(v4)),
        destination is V6 && !platform.supports_ipv6_over_ipv4_gateway ==> chosen_gateway(
            destination,
            Gateway { v4: Some(v4), v6: None },
            platform,
        ) is None,
        destination is V4 ==> chosen_gateway(
            destination,
            Gateway { v4: Some(v4), v6: None },
            platform,
        ) == Some(IpAddress::V4(v4)),
{
}

} // verus!
