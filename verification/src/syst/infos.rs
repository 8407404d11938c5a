//! The host's name, operating system, kernel, architecture and memory.

use sysinfo::System;
use vstd::prelude::*;

verus! {

/// `System` of sysinfo: what was read of the system, of which nothing is
/// known but what its functions give.
#[verifier::external_type_specification]
#[verifier::external_body]
pub struct ExSystem(sysinfo::System);

/// `System::new_all` of sysinfo: everything about the system, read once.
pub assume_specification[ sysinfo::System::new_all ]() -> (system: System);

/// `System::total_memory` of sysinfo: the size of the RAM in bytes.
pub assume_specification[ sysinfo::System::total_memory ](system: &System) -> (bytes: u64);

/// `System::host_name` of sysinfo: the host's name, where it can be had.
pub assume_specification[ sysinfo::System::host_name ]() -> (name: Option<String>);

/// `System::name` of sysinfo: the operating system's name, where it can be
/// had.
pub assume_specification[ sysinfo::System::name ]() -> (name: Option<String>);

/// `System::kernel_version` of sysinfo: the kernel's version, where it can
/// be had.
pub assume_specification[ sysinfo::System::kernel_version ]() -> (version: Option<String>);

/// `System::cpu_arch` of sysinfo: the name of the CPU architecture.
pub assume_specification[ sysinfo::System::cpu_arch ]() -> (arch: String);

/// Static facts about the host.
pub struct SystemInfo {
    pub host_name: String,
    pub os_name: String,
    pub cpu_architecture: String,
    pub kernel_version: String,
    pub total_memory: u64,
}

/// A `SystemInfo` as plain values.
pub struct SystemInfoView {
    pub host_name: Seq<char>,
    pub os_name: Seq<char>,
    pub cpu_architecture: Seq<char>,
    pub kernel_version: Seq<char>,
    pub total_memory: u64,
}

impl DeepView for SystemInfo {
    type V = SystemInfoView;

    open spec fn deep_view(&self) -> SystemInfoView {
        SystemInfoView {
            host_name: self.host_name@,
            os_name: self.os_name@,
            cpu_architecture: self.cpu_architecture@,
            kernel_version: self.kernel_version@,
            total_memory: self.total_memory,
        }
    }
}

/// The text of a fact that may be missing: empty where it is.
pub open spec fn text_or_empty(fact: Option<String>) -> Seq<char> {
    match fact {
        Some(text) => text@,
        None => Seq::empty(),
    }
}

fn or_empty(fact: Option<String>) -> (text: String)
    ensures
        text@ == text_or_empty(fact),
{
    match fact {
        Some(text) => text,
        None => String::new(),
    }
}

impl SystemInfo {
    /// The facts as they are kept: each as it was answered, a fact that
    /// could not be had as the empty text.
    pub fn from_facts(
        host_name: Option<String>,
        os_name: Option<String>,
        cpu_architecture: String,
        kernel_version: Option<String>,
        total_memory: u64,
    ) -> (info: SystemInfo)
        ensures
            info.host_name@ == text_or_empty(host_name),
            info.os_name@ == text_or_empty(os_name),
            info.cpu_architecture@ == cpu_architecture@,
            info.kernel_version@ == text_or_empty(kernel_version),
            info.total_memory == total_memory,
    {
        SystemInfo {
            host_name: or_empty(host_name),
            os_name: or_empty(os_name),
            cpu_architecture,
            kernel_version: or_empty(kernel_version),
            total_memory,
        }
    }
}

/// Asks the system for its static facts. Nothing is claimed of what the
/// system answers; `SystemInfo::from_facts` says how the answers are kept.
pub fn get_system_info() -> SystemInfo {
    let sys = System::new_all();
    SystemInfo::from_facts(
        System::host_name(),
        System::name(),
        System::cpu_arch(),
        System::kernel_version(),
        sys.total_memory(),
    )
}

} // verus!
