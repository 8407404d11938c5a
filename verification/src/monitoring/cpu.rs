//! The CPU sampler: the latest reading of every core, as the system gives
//! it, with no smoothing and no memory of earlier polls.

use sysinfo::System;
use vstd::prelude::*;

verus! {

/// What the system reports of one core.
pub struct CoreReading {
    pub name: String,
    /// The utilization in percent, as the bits of an IEEE 754 single.
    pub usage_bits: u32,
    /// The clock frequency in MHz.
    pub frequency: u64,
}

/// One core at one poll.
pub struct CpuInfo {
    /// The core's position in the poll, counted from zero.
    pub index: usize,
    pub name: String,
    /// The utilization in percent, as the bits of an IEEE 754 single.
    pub usage_bits: u32,
    /// The clock frequency in MHz.
    pub frequency: u64,
}

/// A `CpuInfo` as plain values.
pub struct CpuInfoView {
    pub index: usize,
    pub name: Seq<char>,
    pub usage_bits: u32,
    pub frequency: u64,
}

impl DeepView for CpuInfo {
    type V = CpuInfoView;

    open spec fn deep_view(&self) -> CpuInfoView {
        CpuInfoView {
            index: self.index,
            name: self.name@,
            usage_bits: self.usage_bits,
            frequency: self.frequency,
        }
    }
}

/// The readings of one poll as they are handed on: each under its position,
/// otherwise untouched.
pub open spec fn numbered(readings: Seq<CoreView>) -> Seq<CpuInfoView> {
    Seq::new(
        readings.len(),
        |i: int|
            CpuInfoView {
                index: i as usize,
                name: readings[i].name,
                usage_bits: readings[i].usage_bits,
                frequency: readings[i].frequency,
            },
    )
}

/// Numbers the readings of one poll by their position.
pub fn number_cores(readings: Vec<CoreReading>) -> (cores: Vec<CpuInfo>)
    ensures
        cores.deep_view() == numbered(readings.deep_view()),
{
    let mut cores: Vec<CpuInfo> = Vec::new();
    let mut i: usize = 0;
    while i < readings.len()
        invariant
            i <= readings.len(),
            cores.len() == i,
            forall|k: int| 0 <= k < i ==> (#[trigger] cores@[k]).deep_view() == numbered(readings.deep_view())[k],
        decreases readings.len() - i,
    {
        let reading = &readings[i];
        cores.push(
            CpuInfo {
                index: i,
                name: reading.name.clone(),
                usage_bits: reading.usage_bits,
                frequency: reading.frequency,
            },
        );
        i = i + 1;
    }
    cores
}

/// A system of sysinfo that reads the processors and nothing else, made by
/// `System::new_with_specifics` for the refresh kind that holds every CPU
/// detail.
#[verifier::external_body]
fn cpu_system() -> (system: System) {
    System::new_with_specifics(
        sysinfo::RefreshKind::nothing().with_cpu(sysinfo::CpuRefreshKind::everything()),
    )
}

/// Hands out what `System::cpus` of sysinfo lists: for each core, in the
/// list's order, its name, its usage and its frequency, each as the core's
/// own getter gives it, the usage as the bits of that number. The list is
/// kept in `system` and only read here, so it is `listed_cores(system)`.
#[verifier::external_body]
fn core_readings(system: &System) -> (readings: Vec<CoreReading>)
    ensures
        readings.deep_view() == listed_cores(*system),
{
    system.cpus().iter().map(
        |cpu| CoreReading {
            name: cpu.name().to_string(),
            usage_bits: cpu.cpu_usage().to_bits(),
            frequency: cpu.frequency(),
        },
    ).collect()
}

/// The CPU sampler.
pub struct CpuMonitor {
    system: System,
}

impl CpuMonitor {
    /// A sampler with a first reading taken.
    pub fn new() -> CpuMonitor {
        CpuMonitor { system: cpu_system() }
    }

    /// Reads every core anew and returns what the system then lists, each
    /// core verbatim under its position. No core listed: an empty result.
    ///
    /// Usage is measured between two reads: the caller lets the system's
    /// minimum update interval pass before each call.
    pub fn get_cpu_info(&mut self) -> (cores: Vec<CpuInfo>)
        ensures
            cores.deep_view() == numbered(final(self)@),
            forall|i: int| 0 <= i < cores.len() ==> (#[trigger] cores@[i]).index == i,
    {
        self.system.refresh_cpu_all();
        let readings = core_readings(&self.system);
        let cores = number_cores(readings);
        assert(cores.deep_view().len() == cores.len());
        assert forall|i: int| 0 <= i < cores.len() implies (#[trigger] cores@[i]).index == i by {
            assert(cores.deep_view()[i] == numbered(self@)[i]);
        }
        cores
    }
}

impl View for CpuMonitor {
    type V = Seq<CoreView>;

    /// What the sampler's system lists of every core, in the list's order.
    closed spec fn view(&self) -> Seq<CoreView> {
        listed_cores(self.system)
    }
}

/// A `CoreReading` as plain values.
pub struct CoreView {
    pub name: Seq<char>,
    pub usage_bits: u32,
    pub frequency: u64,
}

impl DeepView for CoreReading {
    type V = CoreView;

    open spec fn deep_view(&self) -> CoreView {
        CoreView { name: self.name@, usage_bits: self.usage_bits, frequency: self.frequency }
    }
}

/// What a system of sysinfo lists of its cores: name, usage bits and
/// frequency of each, in the order of `System::cpus`.
pub uninterp spec fn listed_cores(system: System) -> Seq<CoreView>;

/// `System::refresh_cpu_all` of sysinfo reads usage and frequency of every
/// core anew. Nothing is claimed of what it finds.
pub assume_specification[ sysinfo::System::refresh_cpu_all ](system: &mut System);

} // verus!
