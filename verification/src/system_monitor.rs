//! The system monitor: point-in-time answers to how busy the machine is and
//! whether a meeting application is running.
//!
//! Every read samples the operating system again before it answers; nothing
//! is cached between calls. A read takes the monitor by `&mut`, so no two
//! reads of one monitor overlap and each answer comes from one sample.

use crate::probe::{
    available_memory_of, cpu_sampled_again, cpu_usage_bits_of, fully_sampled,
    memory_sampled_again, process_names_of, processes_sampled_again, read_cpu_usage_bits,
    read_process_names, refresh_all_processes, sampled_again, total_memory_of, used_memory_of,
};
use crate::signature::{any_meeting_process, has_meeting_name};
use crate::usage::{compute_memory_usage, memory_usage, CpuUsage, Percentage};
use sysinfo::System;
use vstd::prelude::*;

verus! {

/// The amount of used memory that a handle reports. A sample with more
/// available than total memory reports no used amount; it counts as nothing
/// in use.
pub open spec fn used_memory_reading(sys: System) -> nat {
    if available_memory_of(sys) <= total_memory_of(sys) {
        used_memory_of(sys) as nat
    } else {
        0
    }
}

/// Monitors CPU load, memory usage and running processes through one handle
/// to the operating system's resource and process tables, which it owns.
pub struct SystemMonitor {
    system: System,
}

impl SystemMonitor {
    /// The handle that the monitor owns, with the sample it last took.
    pub closed spec fn system(&self) -> System {
        self.system
    }

    /// A monitor with a handle of its own, made anew with everything sampled
    /// once.
    pub fn new() -> (monitor: SystemMonitor)
        ensures
            fully_sampled(monitor.system()),
    {
        SystemMonitor { system: System::new_all() }
    }

    /// Samples the CPU counters, and nothing else, once, and returns the
    /// aggregate CPU usage over all cores that the new sample holds, in
    /// percent.
    pub fn get_cpu_usage(&mut self) -> (usage: CpuUsage)
        ensures
            cpu_sampled_again(old(self).system(), final(self).system()),
            usage@ == cpu_usage_bits_of(final(self).system()),
    {
        self.system.refresh_cpu_usage();
        CpuUsage::from_bits(read_cpu_usage_bits(&self.system))
    }

    /// Samples the memory counters, and nothing else, once, and returns the
    /// share of used memory in all memory that the new sample holds. A total
    /// of zero gives a usage of exactly zero, and so does a sample with more
    /// available than total memory.
    pub fn get_memory_usage(&mut self) -> (usage: Percentage)
        ensures
            memory_sampled_again(old(self).system(), final(self).system()),
            usage@ == memory_usage(
                used_memory_reading(final(self).system()),
                total_memory_of(final(self).system()) as nat,
            ),
            total_memory_of(final(self).system()) == 0 ==> usage@.is_zero(),
            used_memory_reading(final(self).system()) <= total_memory_of(final(self).system())
                ==> usage@.in_range(),
    {
        self.system.refresh_memory();
        let total = self.system.total_memory();
        let available = self.system.available_memory();
        let used = if available <= total {
            self.system.used_memory()
        } else {
            0
        };
        compute_memory_usage(used, total)
    }

    /// Whether the foreground window covers the whole screen. No platform
    /// offers the detection yet, so the answer is always `false`: it means
    /// "not detected", not "not fullscreen".
    pub fn is_fullscreen(&self) -> (fullscreen: bool)
        ensures
            !fullscreen,
    {
        false
    }

    /// Samples the process table, and nothing else, once, and returns
    /// whether the name of a process in the new sample, in lowercase,
    /// contains a meeting signature.
    pub fn is_meeting_app(&mut self) -> (found: bool)
        ensures
            processes_sampled_again(old(self).system(), final(self).system()),
            found == has_meeting_name(process_names_of(final(self).system())),
    {
        refresh_all_processes(&mut self.system);
        let names = read_process_names(&self.system);
        any_meeting_process(&names)
    }

    /// Samples everything again, once: CPU, memory and the process table.
    pub fn refresh(&mut self)
        ensures
            sampled_again(old(self).system(), final(self).system()),
    {
        self.system.refresh_all();
    }
}

impl Default for SystemMonitor {
    /// The monitor that `new` gives.
    fn default() -> (monitor: SystemMonitor)
        ensures
            fully_sampled(monitor.system()),
    {
        SystemMonitor::new()
    }
}

} // verus!
