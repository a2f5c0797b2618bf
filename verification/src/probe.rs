//! The operating-system facility that the monitor samples: `sysinfo::System`.
//!
//! Nothing in this file is proved. Each item states what the library takes on
//! trust from `sysinfo`: a `System` is opaque, its readings are named, and so
//! is what each constructor and refresh leaves. What a refresh finds depends on
//! the operating system, so nothing is claimed of the readings it leaves.

use sysinfo::System;
use vstd::multiset::Multiset;
use vstd::prelude::*;

verus! {

/// `sysinfo::System`, carried as an opaque value.
#[verifier::external_type_specification]
#[verifier::external_body]
pub struct ExSystem(sysinfo::System);

/// The RAM size in bytes that `sys` last sampled: what `System::total_memory` reads.
pub uninterp spec fn total_memory_of(sys: System) -> u64;

/// The amount of available RAM in bytes that `sys` last sampled: what
/// `System::available_memory` reads.
pub uninterp spec fn available_memory_of(sys: System) -> u64;

/// The amount of used RAM in bytes that `sys` last sampled: what
/// `System::used_memory` reads, where it reads anything (see there).
pub uninterp spec fn used_memory_of(sys: System) -> u64;

/// The bit pattern of the single-precision aggregate CPU usage that `sys` last
/// computed: what `System::global_cpu_usage` reads.
pub uninterp spec fn cpu_usage_bits_of(sys: System) -> u32;

/// The names of the processes in the process table of `sys`, one entry per
/// process, each name as text.
pub uninterp spec fn process_names_of(sys: System) -> Multiset<Seq<char>>;

/// `sys` is a handle as `System::new_all` returns it: made anew, with memory,
/// CPU and the process table each sampled once.
pub uninterp spec fn fully_sampled(sys: System) -> bool;

/// `after` is a handle as `System::refresh_all` leaves it when called on
/// `before`: memory, CPU and the process table each sampled again.
pub uninterp spec fn sampled_again(before: System, after: System) -> bool;

/// `after` is a handle as `System::refresh_cpu_usage` leaves it when called on
/// `before`: the CPU counters sampled again, unless the sample before is too
/// recent to take a new one.
pub uninterp spec fn cpu_sampled_again(before: System, after: System) -> bool;

/// `after` is a handle as `System::refresh_memory` leaves it when called on
/// `before`: RAM and swap sampled again.
pub uninterp spec fn memory_sampled_again(before: System, after: System) -> bool;

/// `after` is a handle as `System::refresh_processes` leaves it when called on
/// `before` for all processes with dead ones removed: the process table
/// sampled again.
pub uninterp spec fn processes_sampled_again(before: System, after: System) -> bool;

/// `System::new_all`: a new `System` with everything loaded. The result is
/// named as such a handle; nothing is claimed of its readings.
pub assume_specification[ sysinfo::System::new_all ]() -> (sys: sysinfo::System)
    ensures
        fully_sampled(sys),
;

/// `System::refresh_all`: samples everything again. The handle it leaves is
/// named as that; nothing is claimed of its readings.
pub assume_specification[ sysinfo::System::refresh_all ](sys: &mut sysinfo::System)
    ensures
        sampled_again(*old(sys), *final(sys)),
;

/// `System::refresh_cpu_usage`: samples the CPU counters again. The handle it
/// leaves is named as that; nothing is claimed of its readings.
pub assume_specification[ sysinfo::System::refresh_cpu_usage ](sys: &mut sysinfo::System)
    ensures
        cpu_sampled_again(*old(sys), *final(sys)),
;

/// `System::refresh_memory`: samples RAM and swap again. The handle it leaves
/// is named as that; nothing is claimed of its readings.
pub assume_specification[ sysinfo::System::refresh_memory ](sys: &mut sysinfo::System)
    ensures
        memory_sampled_again(*old(sys), *final(sys)),
;

/// `System::total_memory`: returns the sampled RAM size and leaves `sys` as it is.
pub assume_specification[ sysinfo::System::total_memory ](sys: &sysinfo::System) -> (bytes: u64)
    ensures
        bytes == total_memory_of(*sys),
;

/// `System::available_memory`: returns the sampled amount of available RAM
/// and leaves `sys` as it is.
pub assume_specification[ sysinfo::System::available_memory ](sys: &sysinfo::System) -> (bytes: u64)
    ensures
        bytes == available_memory_of(*sys),
;

/// `System::used_memory`: returns the sampled amount of used RAM and leaves
/// `sys` as it is. On Linux and Windows it subtracts the available amount
/// from the total with the plain operator, and nothing there keeps the first
/// below the second, so a sample with more available than total memory is
/// left out: the call may panic on it.
pub assume_specification[ sysinfo::System::used_memory ](sys: &sysinfo::System) -> (bytes: u64)
    requires
        available_memory_of(*sys) <= total_memory_of(*sys),
    ensures
        bytes == used_memory_of(*sys),
;

/// `System::global_cpu_usage`, its single-precision result handed on as its bit
/// pattern.
#[verifier::external_body]
pub(crate) fn read_cpu_usage_bits(sys: &System) -> (bits: u32)
    ensures
        bits == cpu_usage_bits_of(*sys),
{
    sys.global_cpu_usage().to_bits()
}

/// `System::refresh_processes` for all processes, dead ones removed. The
/// handle it leaves is named as that; nothing is claimed of the process table
/// it holds.
#[verifier::external_body]
pub(crate) fn refresh_all_processes(sys: &mut System)
    ensures
        processes_sampled_again(*old(sys), *final(sys)),
{
    sys.refresh_processes(sysinfo::ProcessesToUpdate::All, true);
}

/// `System::processes` with `Process::name` of each entry, converted to text
/// (bytes that are not UTF-8 are replaced). The table is a hash map, so the
/// order of the result is not fixed; its entries are those of
/// `process_names_of`.
#[verifier::external_body]
pub(crate) fn read_process_names(sys: &System) -> (names: Vec<String>)
    ensures
        names.deep_view().to_multiset() == process_names_of(*sys),
{
    sys.processes().values().map(|process| process.name().to_string_lossy().into_owned()).collect()
}

} // verus!
