//! The backend capabilities a request can ask for, and the kinds of payload it can carry.

use vstd::prelude::*;

verus! {

/// A capability of the backend: the destination of a request.
#[derive(Clone, Copy, Debug, PartialEq, Eq, Structural)]
pub enum Endpoint {
    /// Routing over the best mix of modes of transport.
    Intermodal,
    /// Completion of station names.
    Guesser,
    /// Completion of street addresses.
    Address,
    /// The trains within a map section.
    RailVizGetTrains,
    /// The trips that given trains belong to.
    RailVizGetTrips,
    /// The period the loaded schedule covers.
    LookupScheduleInfo,
    /// The providers of shared vehicles.
    GbfsInfo,
    /// The departures and arrivals at a station.
    RailVizGetStation,
    /// Routing on foot.
    PprRoute,
    /// The connection that a trip is part of.
    TripId,
}

/// The kind of payload a request carries. The payload itself is passed on unread.
#[derive(Clone, Copy, Debug, PartialEq, Eq, Structural)]
pub enum ContentKind {
    /// A routing search between two places.
    IntermodalConnectionRequest,
    /// A routing search between two places, under its newer name.
    IntermodalRoutingRequest,
    /// A station name to complete.
    StationGuesserRequest,
    /// A street address to complete.
    AddressRequest,
    /// A map section to list trains in.
    RailVizTrainsRequest,
    /// Trains to list the trips of.
    RailVizTripsRequest,
    /// No payload.
    MotisNoMessage,
    /// A station to list events at.
    RailVizStationRequest,
    /// A walk to route.
    FootRoutingRequest,
    /// A trip to look up.
    TripId,
}

impl ContentKind {
    /// Whether the payload is a routing search, the one costly kind of request.
    pub open spec fn spec_is_routing_search(self) -> bool {
        self == ContentKind::IntermodalConnectionRequest || self
            == ContentKind::IntermodalRoutingRequest
    }

    /// Whether the payload is a routing search, the one costly kind of request.
    #[verifier::when_used_as_spec(spec_is_routing_search)]
    pub fn is_routing_search(self) -> (search: bool)
        ensures
            search == self.spec_is_routing_search(),
    {
        match self {
            ContentKind::IntermodalConnectionRequest | ContentKind::IntermodalRoutingRequest => true,
            _ => false,
        }
    }
}

} // verus!
