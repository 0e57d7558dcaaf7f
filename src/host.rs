//! The machine, read through sysinfo: the declarations here are trusted contracts of
//! sysinfo's own functions, and the functions below them are verified against those.

use vstd::prelude::*;

verus! {

#[verifier::external_type_specification]
#[verifier::external_body]
pub struct ExSystem(sysinfo::System);

#[verifier::external_type_specification]
#[verifier::external_body]
pub struct ExPid(sysinfo::Pid);

#[verifier::external_type_specification]
#[verifier::external_body]
pub struct ExProcess(sysinfo::Process);

/// sysinfo's snapshot of the machine: processes, memory and swap, read once.
pub assume_specification[ sysinfo::System::new_all ]() -> sysinfo::System;

/// sysinfo's process id from a `u32`.
pub assume_specification[ sysinfo::Pid::from_u32 ](v: u32) -> sysinfo::Pid;

/// sysinfo's lookup of a live process by id in a snapshot.
pub assume_specification<'a>[ sysinfo::System::process ](
    s: &'a sysinfo::System,
    pid: sysinfo::Pid,
) -> Option<&'a sysinfo::Process>;

/// sysinfo's kill signal; `true` when the signal was sent.
pub assume_specification[ sysinfo::Process::kill ](p: &sysinfo::Process) -> bool;

/// sysinfo's total RAM, in bytes.
pub assume_specification[ sysinfo::System::total_memory ](s: &sysinfo::System) -> u64;

/// sysinfo's used RAM, in bytes.
pub assume_specification[ sysinfo::System::used_memory ](s: &sysinfo::System) -> u64;

/// sysinfo's free RAM, in bytes.
pub assume_specification[ sysinfo::System::free_memory ](s: &sysinfo::System) -> u64;

/// sysinfo's available RAM, in bytes.
pub assume_specification[ sysinfo::System::available_memory ](s: &sysinfo::System) -> u64;

/// sysinfo's swap size, in bytes.
pub assume_specification[ sysinfo::System::total_swap ](s: &sysinfo::System) -> u64;

/// sysinfo's used swap, in bytes.
pub assume_specification[ sysinfo::System::used_swap ](s: &sysinfo::System) -> u64;

#[verifier::external_type_specification]
#[verifier::external_body]
pub struct ExDisks(sysinfo::Disks);

#[verifier::external_type_specification]
#[verifier::external_body]
pub struct ExDisk(sysinfo::Disk);

/// sysinfo's list of mounted disks, read once.
pub assume_specification[ sysinfo::Disks::new_with_refreshed_list ]() -> sysinfo::Disks;

/// sysinfo's disks of a list.
pub assume_specification<'a>[ sysinfo::Disks::list ](d: &'a sysinfo::Disks) -> &'a [sysinfo::Disk];

/// sysinfo's size of a disk, in bytes.
pub assume_specification[ sysinfo::Disk::total_space ](d: &sysinfo::Disk) -> u64;

/// sysinfo's available space of a disk, in bytes.
pub assume_specification[ sysinfo::Disk::available_space ](d: &sysinfo::Disk) -> u64;

/// Relies on sysinfo's `Disk::name`: the disk's name, as text (invalid UTF-8 replaced).
#[verifier::external_body]
pub(crate) fn disk_name(d: &sysinfo::Disk) -> String {
    d.name().to_string_lossy().into_owned()
}

/// Relies on sysinfo's `Disk::file_system`: the file system's name, as text.
#[verifier::external_body]
pub(crate) fn disk_file_system(d: &sysinfo::Disk) -> String {
    d.file_system().to_string_lossy().into_owned()
}

/// Relies on sysinfo's `Disk::mount_point`: the mount point, as text.
#[verifier::external_body]
pub(crate) fn disk_mount_point(d: &sysinfo::Disk) -> String {
    d.mount_point().to_string_lossy().into_owned()
}

/// Whether a process with id `pid` is in the OS process table now.
pub fn process_is_running(pid: u32) -> bool {
    let system = sysinfo::System::new_all();
    system.process(sysinfo::Pid::from_u32(pid)).is_some()
}

/// Sends the kill signal to process `pid`: `None` when no such process is running,
/// otherwise whether the signal was sent.
pub fn send_kill(pid: u32) -> Option<bool> {
    let system = sysinfo::System::new_all();
    match system.process(sysinfo::Pid::from_u32(pid)) {
        Some(p) => Some(p.kill()),
        None => None,
    }
}

} // verus!
