//! The system-command backends: native introspection, and the platform's own utilities.

use vstd::prelude::*;

use crate::decimal::{decimal_of, decimal_text};
use crate::host::{disk_file_system, disk_mount_point, disk_name, send_kill};
use crate::json::{
    entries_view, entry, items_view, lemma_entries_view_index, lemma_items_view_index, Json, JsonValue,
};
use crate::protocol::{text_object, text_object_value, CallOutcome, ToolCallResult};

verus! {

/// Input of the kill tool.
pub struct KillProcessInput {
    pub pid: u32,
}

/// Memory figures of the machine, in KiB.
#[derive(Debug)]
pub struct MemoryUsageOutput {
    pub total_memory_kb: u64,
    pub used_memory_kb: u64,
    pub free_memory_kb: u64,
    pub available_memory_kb: u64,
    pub swap_total_kb: u64,
    pub swap_used_kb: u64,
}

/// Space figures of one disk, in GiB.
pub struct DiskUsageInfo {
    pub name: String,
    pub total_space_gb: u64,
    pub available_space_gb: u64,
    pub file_system: String,
    pub mount_point: String,
}

pub struct DiskUsageOutput {
    pub disks: Vec<DiskUsageInfo>,
}

/// One open network connection or listening port.
pub struct PortConnection {
    pub protocol: String,
    pub local_address: String,
    pub local_port: u16,
    pub remote_address: String,
    pub remote_port: u16,
    pub status: String,
    pub pid: Option<u32>,
    pub process_name: Option<String>,
}

pub struct ListPortsOutput {
    pub connections: Vec<PortConnection>,
}

/// The payload `{"error": text}`.
pub open spec fn error_payload(text: Seq<char>) -> Json {
    text_object("error"@, text)
}

/// The payload `{"message": text}`.
pub open spec fn message_payload(text: Seq<char>) -> Json {
    text_object("message"@, text)
}

pub open spec fn killed_text(pid: nat) -> Seq<char> {
    "Process "@ + decimal_of(pid) + " killed successfully."@
}

pub open spec fn not_found_text(pid: nat) -> Seq<char> {
    "No process with PID "@ + decimal_of(pid) + " was found."@
}

pub open spec fn signal_refused_text(pid: nat) -> Seq<char> {
    "Failed to send the kill signal to process "@ + decimal_of(pid) + "."@
}

pub open spec fn kill_failed_text(pid: nat, stderr: Seq<char>) -> Seq<char> {
    "Failed to kill process "@ + decimal_of(pid) + ": "@ + stderr
}

pub open spec fn not_started_text(pid: nat, reason: Seq<char>) -> Seq<char> {
    "Failed to execute kill command for PID "@ + decimal_of(pid) + ": "@ + reason
}

pub open spec fn unsupported_os_text(os: Seq<char>) -> Seq<char> {
    "Unsupported operating system: "@ + os
}

pub open spec fn unsupported_text(backend: Seq<char>, capability: Seq<char>) -> Seq<char> {
    capability + " is not supported by the "@ + backend + " backend."@
}

/// The result of a native kill: `signal` is `None` when no process had the id, otherwise
/// whether the signal was sent.
pub open spec fn native_kill_outcome(pid: nat, signal: Option<bool>) -> CallOutcome {
    match signal {
        None => CallOutcome::Failure(error_payload(not_found_text(pid))),
        Some(true) => CallOutcome::Success(message_payload(killed_text(pid))),
        Some(false) => CallOutcome::Failure(error_payload(signal_refused_text(pid))),
    }
}

/// How an external command ended.
#[derive(Debug)]
pub enum CommandOutcome {
    /// The command ran; `success` tells its exit status, with what it printed.
    Completed { success: bool, stdout: String, stderr: String },
    /// The command could not be started.
    NotStarted { reason: String },
}

/// The payload of a kill command that ran and failed.
pub open spec fn kill_failure_payload(pid: nat, stdout: Seq<char>, stderr: Seq<char>) -> Json {
    Json::Object(
        seq![
            ("error"@, Json::Str(kill_failed_text(pid, stderr))),
            ("stdout"@, Json::Str(stdout)),
            ("stderr"@, Json::Str(stderr)),
        ],
    )
}

/// The result of an external kill command for `pid` that ended as `outcome`.
pub open spec fn external_kill_outcome(pid: nat, outcome: CommandOutcome) -> CallOutcome {
    match outcome {
        CommandOutcome::Completed { success, stdout, stderr } => if success {
            CallOutcome::Success(message_payload(killed_text(pid)))
        } else {
            CallOutcome::Failure(kill_failure_payload(pid, stdout@, stderr@))
        },
        CommandOutcome::NotStarted { reason } => CallOutcome::Failure(
            error_payload(not_started_text(pid, reason@)),
        ),
    }
}

/// A platform command to run.
#[derive(Debug)]
pub struct KillCommand {
    pub program: String,
    pub args: Vec<String>,
}

pub open spec fn strings_view(v: Seq<String>) -> Seq<Seq<char>> {
    v.map_values(|s: String| s@)
}

/// The program and arguments that kill `pid` on the OS named `os`, if it is supported.
pub open spec fn kill_command_spec(os: Seq<char>, pid: nat) -> Option<(Seq<char>, Seq<Seq<char>>)> {
    if os == "windows"@ {
        Some(("taskkill"@, seq!["/PID"@, decimal_of(pid), "/F"@]))
    } else if os == "linux"@ || os == "macos"@ {
        Some(("kill"@, seq!["-9"@, decimal_of(pid)]))
    } else {
        None
    }
}

/// What the external backend does next for a kill.
pub enum KillStep {
    /// Run this command, then hand its outcome to `finish_kill`.
    Run(KillCommand),
    /// Nothing to run: this is the result.
    Done(ToolCallResult),
}

fn error_value(text: String) -> (r: ToolCallResult)
    ensures
        r@ == CallOutcome::Failure(error_payload(text@)),
{
    ToolCallResult::Failure(text_object_value("error", text))
}

fn message_value(text: String) -> (r: ToolCallResult)
    ensures
        r@ == CallOutcome::Success(message_payload(text@)),
{
    ToolCallResult::Success(text_object_value("message", text))
}

fn unsupported(backend: &str, capability: &str) -> (r: ToolCallResult)
    ensures
        r@ == CallOutcome::Failure(error_payload(unsupported_text(backend@, capability@))),
{
    error_value(
        String::from_str(capability).concat(" is not supported by the ").concat(backend).concat(
            " backend.",
        ),
    )
}

/// The result of a native kill of `pid` (see `native_kill_outcome`).
pub fn native_kill_result(pid: u32, signal: Option<bool>) -> (r: ToolCallResult)
    ensures
        r@ == native_kill_outcome(pid as nat, signal),
{
    let dec = decimal_text(pid as u64);
    match signal {
        None => error_value(
            String::from_str("No process with PID ").concat(dec.as_str()).concat(" was found."),
        ),
        Some(true) => message_value(
            String::from_str("Process ").concat(dec.as_str()).concat(" killed successfully."),
        ),
        Some(false) => error_value(
            String::from_str("Failed to send the kill signal to process ").concat(
                dec.as_str(),
            ).concat("."),
        ),
    }
}

/// The backend that works through in-process OS introspection.
pub struct LibSystemCommand {}

impl LibSystemCommand {
    /// Kills process `pid` through the OS process table.
    pub fn kill_process(&self, input: KillProcessInput) -> (r: ToolCallResult)
        ensures
            exists|signal: Option<bool>| r@ == native_kill_outcome(input.pid as nat, signal),
    {
        let signal = send_kill(input.pid);
        native_kill_result(input.pid, signal)
    }

    pub fn list_processes(&self) -> (r: ToolCallResult)
        ensures
            r@ == CallOutcome::Failure(
                error_payload(unsupported_text("native"@, "list_processes"@)),
            ),
    {
        unsupported("native", "list_processes")
    }

    pub fn get_memory_usage(&self) -> (r: ToolCallResult)
        ensures
            exists|m: MemoryUsageOutput| #[trigger] m.wf() && r@ == CallOutcome::Success(m.json()),
    {
        let system = sysinfo::System::new_all();
        let out = MemoryUsageOutput::from_bytes(
            system.total_memory(),
            system.used_memory(),
            system.free_memory(),
            system.available_memory(),
            system.total_swap(),
            system.used_swap(),
        );
        let ghost m = out;
        let v = out.to_json();
        ToolCallResult::Success(v)
    }

    /// Space figures of every mounted disk.
    pub fn get_disk_usage(&self) -> (r: ToolCallResult)
        ensures
            exists|out: DiskUsageOutput| r@ == CallOutcome::Success(#[trigger] out.json()),
    {
        let disks = sysinfo::Disks::new_with_refreshed_list();
        let list = disks.list();
        let mut out = DiskUsageOutput { disks: Vec::new() };
        let mut i: usize = 0;
        while i < list.len()
            invariant
                forall|j: int|
                    0 <= j < out.disks@.len() ==> (#[trigger] out.disks@[j]).total_space_gb <= i64::MAX
                        && out.disks@[j].available_space_gb <= i64::MAX,
            decreases list@.len() - i,
        {
            let d = &list[i];
            out.disks.push(
                DiskUsageInfo::from_bytes(
                    disk_name(d),
                    d.total_space(),
                    d.available_space(),
                    disk_file_system(d),
                    disk_mount_point(d),
                ),
            );
            i = i + 1;
        }
        let ghost o = out;
        ToolCallResult::Success(out.to_json())
    }

    pub fn list_ports(&self) -> (r: ToolCallResult)
        ensures
            r@ == CallOutcome::Failure(error_payload(unsupported_text("native"@, "list_ports"@))),
    {
        unsupported("native", "list_ports")
    }
}

/// The backend that runs the platform's own utilities.
pub struct BinSystemCommand {
    /// The OS name, as `std::env::consts::OS` gives it.
    pub os: String,
}

impl BinSystemCommand {
    /// The command that kills `pid` on this backend's OS, if the OS is supported.
    pub fn kill_command(&self, pid: u32) -> (r: Option<KillCommand>)
        ensures
            match r {
                Some(c) => kill_command_spec(self.os@, pid as nat) == Some(
                    (c.program@, strings_view(c.args@)),
                ),
                None => kill_command_spec(self.os@, pid as nat) is None,
            },
    {
        let dec = decimal_text(pid as u64);
        if self.os == String::from_str("windows") {
            let mut args: Vec<String> = Vec::new();
            args.push(String::from_str("/PID"));
            args.push(dec);
            args.push(String::from_str("/F"));
            proof {
                assert(strings_view(args@) =~= seq!["/PID"@, decimal_of(pid as nat), "/F"@]);
            }
            Some(KillCommand { program: String::from_str("taskkill"), args })
        } else if self.os == String::from_str("linux") || self.os == String::from_str("macos") {
            let mut args: Vec<String> = Vec::new();
            args.push(String::from_str("-9"));
            args.push(dec);
            proof {
                assert(strings_view(args@) =~= seq!["-9"@, decimal_of(pid as nat)]);
            }
            Some(KillCommand { program: String::from_str("kill"), args })
        } else {
            None
        }
    }

    /// First step of a kill: the command to run, or the error for an unsupported OS.
    pub fn kill_process(&self, input: KillProcessInput) -> (r: KillStep)
        ensures
            match r {
                KillStep::Run(c) => kill_command_spec(self.os@, input.pid as nat) == Some(
                    (c.program@, strings_view(c.args@)),
                ),
                KillStep::Done(res) => kill_command_spec(self.os@, input.pid as nat) is None
                    && res@ == CallOutcome::Failure(error_payload(unsupported_os_text(self.os@))),
            },
    {
        match self.kill_command(input.pid) {
            Some(c) => KillStep::Run(c),
            None => KillStep::Done(
                error_value(String::from_str("Unsupported operating system: ").concat(self.os.as_str())),
            ),
        }
    }

    /// Last step of a kill: the result for the way the command ended.
    pub fn finish_kill(pid: u32, outcome: CommandOutcome) -> (r: ToolCallResult)
        ensures
            r@ == external_kill_outcome(pid as nat, outcome),
    {
        let ghost o = outcome;
        let dec = decimal_text(pid as u64);
        match outcome {
            CommandOutcome::Completed { success, stdout, stderr } => {
                if success {
                    message_value(
                        String::from_str("Process ").concat(dec.as_str()).concat(
                            " killed successfully.",
                        ),
                    )
                } else {
                    let text = String::from_str("Failed to kill process ").concat(
                        dec.as_str(),
                    ).concat(": ").concat(stderr.as_str());
                    let mut e: Vec<(String, JsonValue)> = Vec::new();
                    e.push(entry("error", JsonValue::Str(text)));
                    e.push(entry("stdout", JsonValue::Str(stdout)));
                    e.push(entry("stderr", JsonValue::Str(stderr)));
                    proof {
                        lemma_entries_view_index(e@);
                        assert(entries_view(e@) =~= kill_failure_payload(
                            pid as nat,
                            o->Completed_stdout@,
                            o->Completed_stderr@,
                        )->Object_0);
                    }
                    ToolCallResult::Failure(JsonValue::Object(e))
                }
            },
            CommandOutcome::NotStarted { reason } => error_value(
                String::from_str("Failed to execute kill command for PID ").concat(
                    dec.as_str(),
                ).concat(": ").concat(reason.as_str()),
            ),
        }
    }

    pub fn list_processes(&self) -> (r: ToolCallResult)
        ensures
            r@ == CallOutcome::Failure(
                error_payload(unsupported_text("external"@, "list_processes"@)),
            ),
    {
        unsupported("external", "list_processes")
    }

    pub fn get_memory_usage(&self) -> (r: ToolCallResult)
        ensures
            r@ == CallOutcome::Failure(
                error_payload(unsupported_text("external"@, "get_memory_usage"@)),
            ),
    {
        unsupported("external", "get_memory_usage")
    }

    pub fn get_disk_usage(&self) -> (r: ToolCallResult)
        ensures
            r@ == CallOutcome::Failure(
                error_payload(unsupported_text("external"@, "get_disk_usage"@)),
            ),
    {
        unsupported("external", "get_disk_usage")
    }

    pub fn list_ports(&self) -> (r: ToolCallResult)
        ensures
            r@ == CallOutcome::Failure(
                error_payload(unsupported_text("external"@, "list_ports"@)),
            ),
    {
        unsupported("external", "list_ports")
    }
}

pub open spec fn gib(bytes: u64) -> int {
    bytes as int / 1073741824
}

pub open spec fn disk_json(d: DiskUsageInfo) -> Json {
    Json::Object(
        seq![
            ("name"@, Json::Str(d.name@)),
            ("total_space_gb"@, Json::Int(d.total_space_gb as int)),
            ("available_space_gb"@, Json::Int(d.available_space_gb as int)),
            ("file_system"@, Json::Str(d.file_system@)),
            ("mount_point"@, Json::Str(d.mount_point@)),
        ],
    )
}

impl DiskUsageInfo {
    /// The figures of one disk from byte counts, in whole GiB.
    pub fn from_bytes(name: String, total: u64, available: u64, file_system: String, mount_point: String) -> (r: Self)
        ensures
            r.total_space_gb <= i64::MAX,
            r.available_space_gb <= i64::MAX,
            r.name == name,
            r.total_space_gb == gib(total),
            r.available_space_gb == gib(available),
            r.file_system == file_system,
            r.mount_point == mount_point,
    {
        DiskUsageInfo {
            name,
            total_space_gb: total / 1073741824,
            available_space_gb: available / 1073741824,
            file_system,
            mount_point,
        }
    }

    /// The JSON object of these figures, when they fit JSON integers.
    pub fn to_json(&self) -> (r: JsonValue)
        requires
            self.total_space_gb <= i64::MAX,
            self.available_space_gb <= i64::MAX,
        ensures
            r@ == disk_json(*self),
    {
        let mut e: Vec<(String, JsonValue)> = Vec::new();
        e.push(entry("name", JsonValue::Str(self.name.clone())));
        e.push(entry("total_space_gb", JsonValue::Int(self.total_space_gb as i64)));
        e.push(entry("available_space_gb", JsonValue::Int(self.available_space_gb as i64)));
        e.push(entry("file_system", JsonValue::Str(self.file_system.clone())));
        e.push(entry("mount_point", JsonValue::Str(self.mount_point.clone())));
        proof {
            lemma_entries_view_index(e@);
            assert(entries_view(e@) =~= disk_json(*self)->Object_0);
        }
        JsonValue::Object(e)
    }
}

impl DiskUsageOutput {
    /// `{"disks": [...]}`, one object per disk.
    pub open spec fn json(&self) -> Json {
        Json::Object(
            seq![("disks"@, Json::Array(Seq::new(self.disks@.len(), |i: int| disk_json(self.disks@[i]))))],
        )
    }

    /// The JSON object of these figures.
    pub fn to_json(&self) -> (r: JsonValue)
        requires
            forall|i: int|
                0 <= i < self.disks@.len() ==> (#[trigger] self.disks@[i]).total_space_gb <= i64::MAX
                    && self.disks@[i].available_space_gb <= i64::MAX,
        ensures
            r@ == self.json(),
    {
        let mut items: Vec<JsonValue> = Vec::new();
        let mut i: usize = 0;
        while i < self.disks.len()
            invariant
                i <= self.disks@.len(),
                items@.len() == i,
                forall|j: int|
                    0 <= j < self.disks@.len() ==> (#[trigger] self.disks@[j]).total_space_gb <= i64::MAX
                        && self.disks@[j].available_space_gb <= i64::MAX,
                forall|j: int| 0 <= j < i ==> (#[trigger] items@[j])@ == disk_json(self.disks@[j]),
            decreases self.disks@.len() - i,
        {
            items.push(self.disks[i].to_json());
            i = i + 1;
        }
        let ghost iv = items@;
        let mut e: Vec<(String, JsonValue)> = Vec::new();
        e.push(entry("disks", JsonValue::Array(items)));
        proof {
            lemma_items_view_index(iv);
            lemma_entries_view_index(e@);
            assert(items_view(iv) =~= Seq::new(self.disks@.len(), |i: int| disk_json(self.disks@[i])));
            assert(entries_view(e@) =~= self.json()->Object_0);
        }
        JsonValue::Object(e)
    }
}

pub open spec fn kib(bytes: u64) -> int {
    bytes as int / 1024
}

impl MemoryUsageOutput {
    /// Every figure fits a JSON integer.
    pub open spec fn wf(&self) -> bool {
        &&& self.total_memory_kb <= i64::MAX
        &&& self.used_memory_kb <= i64::MAX
        &&& self.free_memory_kb <= i64::MAX
        &&& self.available_memory_kb <= i64::MAX
        &&& self.swap_total_kb <= i64::MAX
        &&& self.swap_used_kb <= i64::MAX
    }

    /// The figures from byte counts, in whole KiB.
    pub fn from_bytes(total: u64, used: u64, free: u64, available: u64, swap_total: u64, swap_used: u64) -> (r: Self)
        ensures
            r.wf(),
            r.total_memory_kb == kib(total),
            r.used_memory_kb == kib(used),
            r.free_memory_kb == kib(free),
            r.available_memory_kb == kib(available),
            r.swap_total_kb == kib(swap_total),
            r.swap_used_kb == kib(swap_used),
    {
        MemoryUsageOutput {
            total_memory_kb: total / 1024,
            used_memory_kb: used / 1024,
            free_memory_kb: free / 1024,
            available_memory_kb: available / 1024,
            swap_total_kb: swap_total / 1024,
            swap_used_kb: swap_used / 1024,
        }
    }

    pub open spec fn json(&self) -> Json {
        Json::Object(
            seq![
                ("total_memory_kb"@, Json::Int(self.total_memory_kb as int)),
                ("used_memory_kb"@, Json::Int(self.used_memory_kb as int)),
                ("free_memory_kb"@, Json::Int(self.free_memory_kb as int)),
                ("available_memory_kb"@, Json::Int(self.available_memory_kb as int)),
                ("swap_total_kb"@, Json::Int(self.swap_total_kb as int)),
                ("swap_used_kb"@, Json::Int(self.swap_used_kb as int)),
            ],
        )
    }

    /// The JSON object of these figures.
    pub fn to_json(&self) -> (r: JsonValue)
        requires
            self.wf(),
        ensures
            r@ == self.json(),
    {
        let mut e: Vec<(String, JsonValue)> = Vec::new();
        e.push(entry("total_memory_kb", JsonValue::Int(self.total_memory_kb as i64)));
        e.push(entry("used_memory_kb", JsonValue::Int(self.used_memory_kb as i64)));
        e.push(entry("free_memory_kb", JsonValue::Int(self.free_memory_kb as i64)));
        e.push(entry("available_memory_kb", JsonValue::Int(self.available_memory_kb as i64)));
        e.push(entry("swap_total_kb", JsonValue::Int(self.swap_total_kb as i64)));
        e.push(entry("swap_used_kb", JsonValue::Int(self.swap_used_kb as i64)));
        proof {
            lemma_entries_view_index(e@);
            assert(entries_view(e@) =~= self.json()->Object_0);
        }
        JsonValue::Object(e)
    }
}

} // verus!
