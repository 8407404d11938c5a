//! The network monitor: the rate engine fed from the system's interface
//! counters and clock.

use crate::network::engine::{
    distinct_names, poll_spec, windows_bounded, EngineView, InterfaceReading, NetworkData,
    RateEngine, ReadingView,
};
use std::time::{Duration, Instant};
use sysinfo::Networks;
use vstd::prelude::*;

verus! {

/// `Instant` of the standard library: a reading of the monotonic clock,
/// of which nothing is known but what its functions give.
#[verifier::external_type_specification]
#[verifier::external_body]
pub struct ExInstant(std::time::Instant);

/// The system's list of network interfaces, as sysinfo's `Networks` keeps
/// it: a map from each interface's name to its counters and addresses.
#[verifier::external_body]
struct InterfaceSource {
    networks: Networks,
}

/// `Networks::new` of sysinfo: a list that holds no interface yet.
#[verifier::external_body]
fn empty_source() -> (source: InterfaceSource) {
    InterfaceSource { networks: Networks::new() }
}

/// `Networks::refresh` of sysinfo, which reads the interfaces and their
/// counters anew from the system and drops those that are gone. Nothing is
/// claimed of what it finds.
#[verifier::external_body]
fn refresh_source(source: &mut InterfaceSource) {
    source.networks.refresh(true)
}

/// `Instant::now` of the standard library: the current reading of the
/// monotonic clock.
pub assume_specification[ std::time::Instant::now ]() -> (now: Instant);

/// `Instant::saturating_duration_since` of the standard library: the time
/// from `earlier` to `later`, zero where `earlier` is the later one.
pub assume_specification[ std::time::Instant::saturating_duration_since ](
    later: &Instant,
    earlier: Instant,
) -> (elapsed: Duration);

/// `Duration::as_nanos` of the standard library: the duration in whole
/// nanoseconds.
pub assume_specification[ std::time::Duration::as_nanos ](duration: &Duration) -> (nanos: u128);

/// Hands out what `source` lists, through `Networks::list` of sysinfo: for
/// each interface its name, the text of its MAC address and of each of its
/// IP networks, and its cumulative byte counters. sysinfo keeps the
/// interfaces in a map keyed by name, so no name comes twice; the order is
/// that of the map and is not fixed.
#[verifier::external_body]
fn interface_readings(source: &InterfaceSource) -> (readings: Vec<InterfaceReading>)
    ensures
        distinct_names(readings.deep_view()),
{
    let mut readings = Vec::new();
    for (name, data) in source.networks.list() {
        readings.push(
            InterfaceReading {
                name: name.clone(),
                mac_address: data.mac_address().to_string(),
                addresses: data.ip_networks().iter().map(|ip| ip.to_string()).collect(),
                total_received: data.total_received(),
                total_transmitted: data.total_transmitted(),
            },
        );
    }
    readings
}

/// Network statistics of this host, one poll at a time.
pub struct NetworkMonitor {
    source: InterfaceSource,
    started: Instant,
    engine: RateEngine,
}

impl View for NetworkMonitor {
    type V = EngineView;

    /// The state of the rate engine, with time counted in nanoseconds from
    /// the monitor's creation.
    closed spec fn view(&self) -> EngineView {
        self.engine@
    }
}

impl NetworkMonitor {
    /// The reading of the clock from which the monitor counts its time: the
    /// one taken at its creation.
    pub closed spec fn clock_origin(&self) -> Instant {
        self.started
    }

    /// A monitor that has seen no interface; its clock starts now.
    pub fn new() -> (monitor: NetworkMonitor)
        ensures
            monitor@ == (EngineView { last_poll_nanos: 0, histories: Map::empty() }),
    {
        NetworkMonitor {
            source: empty_source(),
            started: Instant::now(),
            engine: RateEngine::new(0),
        }
    }

    /// Polls the system once and returns what is shown of each interface.
    ///
    /// The interfaces and the clock are read from the system; what follows
    /// is one poll of the rate engine, with some time `now_nanos` and some
    /// readings in which no name comes twice. The origin from which time is
    /// counted stays where it was.
    pub fn get_network_info(&mut self) -> (shown: Vec<NetworkData>)
        ensures
            exists|now_nanos: u128, readings: Seq<ReadingView>|
                distinct_names(readings) && #[trigger] poll_spec(old(self)@, now_nanos, readings)
                    == (final(self)@, shown.deep_view()),
            windows_bounded(final(self)@.histories),
            final(self).clock_origin() == old(self).clock_origin(),
    {
        refresh_source(&mut self.source);
        let now: Instant = Instant::now();
        let now_nanos: u128 = now.saturating_duration_since(self.started).as_nanos();
        let readings = interface_readings(&self.source);
        let shown = self.engine.poll(now_nanos, &readings);
        assert(poll_spec(old(self)@, now_nanos, readings.deep_view()) == (self@, shown.deep_view()));
        shown
    }
}

} // verus!
