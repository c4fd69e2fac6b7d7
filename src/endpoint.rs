use vstd::prelude::*;

verus! {

/// Where the tunnel exits: country, city and relay host name, which the
/// daemon reports all together or not at all.
#[derive(Debug)]
pub struct GeoLocation {
    pub country: String,
    pub city: String,
    pub hostname: String,
}

/// What the daemon reports of a connected tunnel: an opaque descriptor of the
/// connection and, when known, the exit location.
#[derive(Debug)]
pub struct EndpointInfo {
    pub endpoint: String,
    pub location: Option<GeoLocation>,
}

impl PartialEq for GeoLocation {
    fn eq(&self, o: &GeoLocation) -> (r: bool) {
        self.country == o.country && self.city == o.city && self.hostname == o.hostname
    }
}

impl vstd::std_specs::cmp::PartialEqSpecImpl for GeoLocation {
    open spec fn obeys_eq_spec() -> bool {
        true
    }

    open spec fn eq_spec(&self, o: &GeoLocation) -> bool {
        same_location(self, o)
    }
}

/// Locations are the same when country, city and host agree letter for letter.
pub open spec fn same_location(a: &GeoLocation, b: &GeoLocation) -> bool {
    a.country@ == b.country@ && a.city@ == b.city@ && a.hostname@ == b.hostname@
}

impl Clone for GeoLocation {
    fn clone(&self) -> (r: GeoLocation)
        ensures
            r == *self,
    {
        GeoLocation {
            country: self.country.clone(),
            city: self.city.clone(),
            hostname: self.hostname.clone(),
        }
    }
}


/// Endpoints are the same when descriptor and location agree letter for letter.
pub open spec fn same_endpoint(a: &EndpointInfo, b: &EndpointInfo) -> bool {
    &&& a.endpoint@ == b.endpoint@
    &&& match (a.location, b.location) {
        (None, None) => true,
        (Some(x), Some(y)) => same_location(&x, &y),
        _ => false,
    }
}

impl PartialEq for EndpointInfo {
    fn eq(&self, o: &EndpointInfo) -> (r: bool) {
        if self.endpoint != o.endpoint {
            return false;
        }
        match (&self.location, &o.location) {
            (None, None) => true,
            (Some(x), Some(y)) => x == y,
            _ => false,
        }
    }
}

impl vstd::std_specs::cmp::PartialEqSpecImpl for EndpointInfo {
    open spec fn obeys_eq_spec() -> bool {
        true
    }

    open spec fn eq_spec(&self, o: &EndpointInfo) -> bool {
        same_endpoint(self, o)
    }
}

impl Clone for EndpointInfo {
    fn clone(&self) -> (r: EndpointInfo)
        ensures
            r == *self,
    {
        let location = match &self.location {
            Some(g) => Some(g.clone()),
            None => None,
        };
        EndpointInfo { endpoint: self.endpoint.clone(), location }
    }
}

} // verus!
