use crate::error::{CacheError, OsError};
use vstd::prelude::*;
use vstd::string::StringExecFns;

verus! {

/// The directory below the system's directory for temporary files in
/// which the cache files lie.
pub const CACHE_DIR: &'static str = "chnroutes";

/// A file Cache with an expire time, to store IP source file for a few (7)
/// days.
///
/// The cache itself touches no file. It knows the file's name and how long
/// its content stays good, and decides what follows from what was found on
/// disk.
#[derive(Debug, PartialEq, Eq)]
pub struct Cache {
    name: String,
    expire_nanos: u128,
}

impl Cache {
    /// The name of the cache file.
    pub closed spec fn spec_name(&self) -> Seq<char> {
        self.name@
    }

    /// For how many nanoseconds the content stays good.
    pub closed spec fn spec_expire_nanos(&self) -> u128 {
        self.expire_nanos
    }

    /// Whether content of the given age is still good. An age that could
    /// not be found out counts as too old.
    pub open spec fn fresh(&self, age_nanos: Option<u128>) -> bool {
        match age_nanos {
            Some(age) => age < self.spec_expire_nanos(),
            None => false,
        }
    }

    /// A cache in the file `name`, whose content stays good for
    /// `expire_nanos` nanoseconds.
    pub fn new(name: &str, expire_nanos: u128) -> (cache: Cache)
        ensures
            cache.spec_name() == name@,
            cache.spec_expire_nanos() == expire_nanos,
    {
        Cache { name: String::from_str(name), expire_nanos }
    }

    /// The name of the cache file.
    pub fn name(&self) -> (name: &str)
        ensures
            name@ == self.spec_name(),
    {
        self.name.as_str()
    }

    /// For how many nanoseconds the content stays good.
    pub fn expire_nanos(&self) -> (nanos: u128)
        ensures
            nanos == self.spec_expire_nanos(),
    {
        self.expire_nanos
    }

    /// Decides whether the content of the cache file is to be used, from
    /// the time in nanoseconds since the file was last written.
    pub fn is_fresh(&self, age_nanos: Option<u128>) -> (b: bool)
        ensures
            b == self.fresh(age_nanos),
    {
        match age_nanos {
            Some(age) => age < self.expire_nanos,
            None => false,
        }
    }

    /// What saving a text gives, once the file was written or could not
    /// be: the text, or the failure.
    pub fn save_str<'a>(&self, bytes: &'a str, written: Result<(), OsError>) -> (r: Result<
        &'a str,
        CacheError,
    >)
        ensures
            match written {
                Ok(_) => r == Ok::<&str, CacheError>(bytes),
                Err(cause) => r == Err::<&str, CacheError>(CacheError::IOError(cause)),
            },
    {
        match written {
            Ok(_) => Ok(bytes),
            Err(cause) => Err(CacheError::IOError(cause)),
        }
    }
}

} // verus!
