pub mod cache;
pub mod error;
pub mod exec;
pub mod net;
pub mod route_op;
pub mod source;
pub mod target;
pub mod text;

pub use error::Error;
pub use source::Source;
pub use target::Target;

use crate::error::ErrorView;
use crate::net::Prefix;
use crate::route_op::batch::BatchResult;
use crate::route_op::host::Host;
use crate::route_op::outcome::OutcomeView;
use crate::route_op::{
    add_routes, del_routes, synchronized_add, synchronized_remove, Engine, Synced,
};
use vstd::prelude::*;

verus! {

/// What `up` and `down` return for what the batch returned: the outcomes,
/// or the error of the batch as an error of this library.
pub open spec fn surfaced(r: Result<BatchResult, Error>) -> Result<Seq<OutcomeView>, ErrorView> {
    match r {
        Ok(result) => Ok(result@),
        Err(e) => Err(e@),
    }
}

/// A batch's error as an error of this library.
pub open spec fn lifted(synced: Synced) -> Result<Seq<OutcomeView>, ErrorView> {
    match synced.result {
        Ok(outcomes) => Ok(outcomes),
        Err(e) => Err(ErrorView::RouteOpError(e)),
    }
}

/// Brings the routing table up to the prefixes that the source gave: adds
/// a route for each of them.
///
/// A failure of the source is handed on as it is, and nothing is touched.
/// Else the result is that of adding the routes.
pub fn up(engine: &mut Engine, host: &mut Host, source_ips: Result<Vec<Prefix>, Error>) -> (r:
    Result<BatchResult, Error>)
    ensures
        match source_ips {
            Err(e) => {
                &&& r == Err::<BatchResult, Error>(e)
                &&& *final(engine) == *old(engine)
                &&& final(host)@ == old(host)@
            },
            Ok(prefixes) => {
                let synced = synchronized_add(*old(engine), old(host)@, prefixes@);
                &&& surfaced(r) == lifted(synced)
                &&& *final(engine) == synced.engine
                &&& final(host)@ == synced.host
            },
        },
{
    match source_ips {
        Err(e) => Err(e),
        Ok(prefixes) => match add_routes(engine, host, prefixes.as_slice()) {
            Ok(result) => Ok(result),
            Err(e) => Err(Error::RouteOpError(e)),
        },
    }
}

/// Takes the routes to the prefixes that the source gave out of the
/// routing table.
///
/// A failure of the source is handed on as it is, and nothing is touched.
/// Else the result is that of removing the routes.
pub fn down(engine: &mut Engine, host: &mut Host, source_ips: Result<Vec<Prefix>, Error>) -> (r:
    Result<BatchResult, Error>)
    ensures
        match source_ips {
            Err(e) => {
                &&& r == Err::<BatchResult, Error>(e)
                &&& *final(engine) == *old(engine)
                &&& final(host)@ == old(host)@
            },
            Ok(prefixes) => {
                let synced = synchronized_remove(*old(engine), old(host)@, prefixes@);
                &&& surfaced(r) == lifted(synced)
                &&& *final(engine) == synced.engine
                &&& final(host)@ == synced.host
            },
        },
{
    match source_ips {
        Err(e) => Err(e),
        Ok(prefixes) => match del_routes(engine, host, prefixes.as_slice()) {
            Ok(result) => Ok(result),
            Err(e) => Err(Error::RouteOpError(e)),
        },
    }
}

} // verus!
