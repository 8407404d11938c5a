//! The state that one tick of the dashboard renews, and what ends its loop.

use crate::monitoring::cpu::{numbered, CpuInfo, CpuMonitor};
use crate::network::engine::{
    distinct_names, poll_spec, EngineView, NetworkData, ReadingView,
};
use crate::network::monitor::NetworkMonitor;
use crate::syst::infos::{get_system_info, SystemInfo};
use sysinfo::System;
use vstd::prelude::*;

verus! {

/// `System::refresh_all` of sysinfo reads everything about the system anew.
/// Nothing is claimed of what it finds.
pub assume_specification[ sysinfo::System::refresh_all ](system: &mut System);

/// How long the loop waits for input after each frame, in milliseconds.
pub const EVENT_WAIT_MILLIS: u64 = 250;

/// The dashboard's state: the static facts read at startup, the samplers
/// and the latest snapshot of each.
pub struct App {
    pub system_info: SystemInfo,
    pub sys: System,
    pub cpu_monitor: CpuMonitor,
    pub network_monitor: NetworkMonitor,
    pub cpu_data: Vec<CpuInfo>,
    pub network_data: Vec<NetworkData>,
}

impl App {
    /// A dashboard that has read the host's static facts and polled nothing
    /// yet.
    pub fn new() -> (app: App)
        ensures
            app.cpu_data@.len() == 0,
            app.network_data@.len() == 0,
            app.network_monitor@ == (EngineView { last_poll_nanos: 0, histories: Map::empty() }),
    {
        App {
            system_info: get_system_info(),
            sys: System::new_all(),
            cpu_monitor: CpuMonitor::new(),
            network_monitor: NetworkMonitor::new(),
            cpu_data: Vec::new(),
            network_data: Vec::new(),
        }
    }

    /// One tick: each sampler polls once, and its result becomes the latest
    /// snapshot. The CPU snapshot is what the CPU sampler's system lists
    /// after the tick, each core under its position; the network snapshot is
    /// what one poll of the network monitor shows. The static facts are not
    /// read again, and the network monitor's clock keeps its origin. The
    /// caller lets the system's minimum CPU update interval pass between
    /// ticks.
    pub fn tick(&mut self)
        ensures
            final(self).system_info == old(self).system_info,
            final(self).cpu_data.deep_view() == numbered(final(self).cpu_monitor@),
            final(self).network_monitor.clock_origin() == old(self).network_monitor.clock_origin(),
            forall|i: int|
                0 <= i < final(self).cpu_data.len() ==> (#[trigger] final(self).cpu_data@[i]).index
                    == i,
            exists|now_nanos: u128, readings: Seq<ReadingView>|
                distinct_names(readings) && #[trigger] poll_spec(
                    old(self).network_monitor@,
                    now_nanos,
                    readings,
                ) == (final(self).network_monitor@, final(self).network_data.deep_view()),
    {
        self.sys.refresh_all();
        self.cpu_data = self.cpu_monitor.get_cpu_info();
        self.network_data = self.network_monitor.get_network_info();
    }
}

/// A key event as the loop reads it.
pub struct KeyInput {
    /// The key went down (it was not released or repeated).
    pub pressed: bool,
    /// The character of the key, where it has one.
    pub character: Option<char>,
}

/// Whether `key` ends the loop: only a press of `q` does.
pub open spec fn is_quit(key: KeyInput) -> bool {
    key.pressed && key.character == Some('q')
}

/// Whether the loop ends after `event`, the key event of this round if
/// there was one. It goes on after anything but a press of `q`.
pub fn should_quit(event: &Option<KeyInput>) -> (quit: bool)
    ensures
        quit == (*event matches Some(key) && is_quit(key)),
{
    match event {
        Some(key) => key.pressed && match key.character {
            Some(c) => c == 'q',
            None => false,
        },
        None => false,
    }
}

} // verus!
