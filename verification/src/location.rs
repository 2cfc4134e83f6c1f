//! The location service handle.
use vstd::prelude::*;

verus! {

/// Stateless service that processes raw location data from clients.
#[derive(Debug, Clone, Copy, Default)]
pub struct LocationService;

impl LocationService {
    pub fn new() -> (s: Self)
        ensures
            s == LocationService,
    {
        LocationService
    }
}

} // verus!
