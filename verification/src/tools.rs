//! Typed argument models for the bundled tool capabilities. The capabilities
//! themselves call third-party weather and geocoding services and live with
//! the caller; the loop core hands them their input as JSON text, which they
//! decode into these shapes.
use vstd::prelude::*;

verus! {

/// Arguments of the geocoding capability: the city whose coordinates are
/// asked for.
#[derive(Debug)]
pub struct GetGeoLocationArgs {
    pub city: String,
}

} // verus!
