//! The profile that a conversion builds up.
//!
//! A profile is a list of entries, in the order in which they were made.
//! Processes, threads and libraries are named by the index of the entry that
//! added them. Times are the raw times of the recording.

use crate::ids::DebugId;
use crate::stack::StackFrame;
use vstd::prelude::*;

verus! {

/// The contents of an optional string.
pub open spec fn opt_text(s: Option<String>) -> Option<Seq<char>> {
    match s {
        Some(s) => Some(s@),
        None => None,
    }
}

/// The contents of an optional string slice.
pub open spec fn opt_str(s: Option<&str>) -> Option<Seq<char>> {
    match s {
        Some(s) => Some(s@),
        None => None,
    }
}

/// The contents of an optional byte string.
pub open spec fn opt_bytes(b: Option<Vec<u8>>) -> Option<Seq<u8>> {
    match b {
        Some(b) => Some(b@),
        None => None,
    }
}

/// The contents of a list of strings.
pub open spec fn texts(list: Seq<String>) -> Seq<Seq<char>> {
    list.map_values(|s: String| s@)
}

/// A copy of an optional string.
pub fn copy_opt_text(s: &Option<String>) -> (r: Option<String>)
    ensures
        opt_text(r) == opt_text(*s),
{
    match s {
        Some(s) => Some(s.clone()),
        None => None,
    }
}

/// A kind of resident memory.
#[derive(Clone, Copy, Debug, PartialEq, Eq, Structural)]
pub enum RssStatMember {
    ResidentFileMappingPages,
    ResidentAnonymousPages,
    AnonymousSwapEntries,
    ResidentSharedMemoryPages,
}

/// Where the debug identifier of a library comes from.
#[derive(Debug)]
pub enum LibDebugId {
    /// There is none.
    Nil,
    /// It is derived from a build ID of the given byte order.
    FromBuildId { build_id: Vec<u8>, little_endian: bool },
    /// It was read from the library's file.
    Known(DebugId),
}

/// The contents of a [`LibDebugId`].
pub enum LibDebugIdView {
    Nil,
    FromBuildId { build_id: Seq<u8>, little_endian: bool },
    Known(DebugId),
}

impl View for LibDebugId {
    type V = LibDebugIdView;

    open spec fn view(&self) -> LibDebugIdView {
        match self {
            LibDebugId::Nil => LibDebugIdView::Nil,
            LibDebugId::FromBuildId { build_id, little_endian } => LibDebugIdView::FromBuildId {
                build_id: build_id@,
                little_endian: *little_endian,
            },
            LibDebugId::Known(id) => LibDebugIdView::Known(*id),
        }
    }
}

/// A library of the profile.
#[derive(Debug)]
pub struct LibraryRecord {
    pub name: String,
    pub debug_name: String,
    pub path: String,
    pub debug_path: String,
    pub debug_id: LibDebugId,
    pub code_id: Option<String>,
    /// Whether the symbol table of the running kernel belongs to the library.
    pub has_kernel_symbols: bool,
}

/// The contents of a [`LibraryRecord`].
pub struct LibraryRecordView {
    pub name: Seq<char>,
    pub debug_name: Seq<char>,
    pub path: Seq<char>,
    pub debug_path: Seq<char>,
    pub debug_id: LibDebugIdView,
    pub code_id: Option<Seq<char>>,
    pub has_kernel_symbols: bool,
}

impl View for LibraryRecord {
    type V = LibraryRecordView;

    open spec fn view(&self) -> LibraryRecordView {
        LibraryRecordView {
            name: self.name@,
            debug_name: self.debug_name@,
            path: self.path@,
            debug_path: self.debug_path@,
            debug_id: self.debug_id@,
            code_id: opt_text(self.code_id),
            has_kernel_symbols: self.has_kernel_symbols,
        }
    }
}

/// The address range of a mapped library.
#[derive(Clone, Copy, Debug, PartialEq, Eq, Structural)]
pub struct LibMapping {
    /// The address of the first mapped byte.
    pub start: u64,
    /// The address behind the last mapped byte.
    pub end: u64,
    /// The address of the first mapped byte relative to the library's base.
    pub relative_start: u32,
}

/// One entry of a profile.
#[derive(Debug)]
pub enum ProfileEntry {
    AddProcess { pid: i32 },
    AddThread { process: usize, tid: i32, is_main: bool },
    SetProcessName { process: usize, name: String },
    SetThreadName { thread: usize, name: String },
    SetProcessStart { process: usize, time: u64 },
    SetThreadStart { thread: usize, time: u64 },
    /// The process ended, and with it all of its threads.
    EndProcess { process: usize, time: u64 },
    EndThread { thread: usize, time: u64 },
    /// The product is named after a thread.
    SetProductFromThread { thread_name: String },
    /// `time` places the sample in the profile, `mono_time` orders it with the
    /// mappings. The stack starts with the outermost frame.
    AddSample {
        thread: usize,
        time: u64,
        mono_time: u64,
        stack: Vec<StackFrame>,
        cpu_delta_ns: u64,
        weight: i32,
    },
    AddRssStatMarker {
        thread: usize,
        time: u64,
        stack: Vec<StackFrame>,
        member: RssStatMember,
        size: i64,
        delta: i64,
    },
    AddOtherEventMarker { thread: usize, time: u64, stack: Vec<StackFrame>, attr_index: usize },
    /// The process's memory counter changed.
    AddMemoryCounterSample { process: usize, time: u64, delta: i64 },
    /// New functions may have shown up in the process's JITDUMP files.
    CheckJitdump { process: usize },
    AddJitdumpPath { process: usize, path: String, lookup_dir: Option<String> },
    AddLib { record: LibraryRecord },
    AddKernelLibMapping { lib: usize, mapping: LibMapping },
    AddLibMapping { process: usize, time: u64, lib: usize, mapping: LibMapping },
    /// The mapping of a file that holds a single JIT function.
    AddJitLibMapping {
        process: usize,
        time: u64,
        symbol_name: Option<String>,
        lib: usize,
        mapping: LibMapping,
    },
}

/// The contents of a [`ProfileEntry`].
pub enum EntryView {
    AddProcess { pid: i32 },
    AddThread { process: nat, tid: i32, is_main: bool },
    SetProcessName { process: nat, name: Seq<char> },
    SetThreadName { thread: nat, name: Seq<char> },
    SetProcessStart { process: nat, time: u64 },
    SetThreadStart { thread: nat, time: u64 },
    EndProcess { process: nat, time: u64 },
    EndThread { thread: nat, time: u64 },
    SetProductFromThread { thread_name: Seq<char> },
    AddSample {
        thread: nat,
        time: u64,
        mono_time: u64,
        stack: Seq<StackFrame>,
        cpu_delta_ns: u64,
        weight: i32,
    },
    AddRssStatMarker {
        thread: nat,
        time: u64,
        stack: Seq<StackFrame>,
        member: RssStatMember,
        size: i64,
        delta: i64,
    },
    AddOtherEventMarker { thread: nat, time: u64, stack: Seq<StackFrame>, attr_index: usize },
    AddMemoryCounterSample { process: nat, time: u64, delta: i64 },
    CheckJitdump { process: nat },
    AddJitdumpPath { process: nat, path: Seq<char>, lookup_dir: Option<Seq<char>> },
    AddLib { record: LibraryRecordView },
    AddKernelLibMapping { lib: nat, mapping: LibMapping },
    AddLibMapping { process: nat, time: u64, lib: nat, mapping: LibMapping },
    AddJitLibMapping {
        process: nat,
        time: u64,
        symbol_name: Option<Seq<char>>,
        lib: nat,
        mapping: LibMapping,
    },
}

impl View for ProfileEntry {
    type V = EntryView;

    open spec fn view(&self) -> EntryView {
        match *self {
            ProfileEntry::AddProcess { pid } => EntryView::AddProcess { pid },
            ProfileEntry::AddThread { process, tid, is_main } => EntryView::AddThread {
                process: process as nat,
                tid,
                is_main,
            },
            ProfileEntry::SetProcessName { process, name } => EntryView::SetProcessName {
                process: process as nat,
                name: name@,
            },
            ProfileEntry::SetThreadName { thread, name } => EntryView::SetThreadName {
                thread: thread as nat,
                name: name@,
            },
            ProfileEntry::SetProcessStart { process, time } => EntryView::SetProcessStart {
                process: process as nat,
                time,
            },
            ProfileEntry::SetThreadStart { thread, time } => EntryView::SetThreadStart {
                thread: thread as nat,
                time,
            },
            ProfileEntry::EndProcess { process, time } => EntryView::EndProcess {
                process: process as nat,
                time,
            },
            ProfileEntry::EndThread { thread, time } => EntryView::EndThread {
                thread: thread as nat,
                time,
            },
            ProfileEntry::SetProductFromThread { thread_name } => EntryView::SetProductFromThread {
                thread_name: thread_name@,
            },
            ProfileEntry::AddSample { thread, time, mono_time, stack, cpu_delta_ns, weight } => {
                EntryView::AddSample {
                    thread: thread as nat,
                    time,
                    mono_time,
                    stack: stack@,
                    cpu_delta_ns,
                    weight,
                }
            },
            ProfileEntry::AddRssStatMarker { thread, time, stack, member, size, delta } => {
                EntryView::AddRssStatMarker {
                    thread: thread as nat,
                    time,
                    stack: stack@,
                    member,
                    size,
                    delta,
                }
            },
            ProfileEntry::AddOtherEventMarker { thread, time, stack, attr_index } => {
                EntryView::AddOtherEventMarker {
                    thread: thread as nat,
                    time,
                    stack: stack@,
                    attr_index,
                }
            },
            ProfileEntry::AddMemoryCounterSample { process, time, delta } => {
                EntryView::AddMemoryCounterSample { process: process as nat, time, delta }
            },
            ProfileEntry::CheckJitdump { process } => EntryView::CheckJitdump {
                process: process as nat,
            },
            ProfileEntry::AddJitdumpPath { process, path, lookup_dir } => {
                EntryView::AddJitdumpPath {
                    process: process as nat,
                    path: path@,
                    lookup_dir: opt_text(lookup_dir),
                }
            },
            ProfileEntry::AddLib { record } => EntryView::AddLib { record: record@ },
            ProfileEntry::AddKernelLibMapping { lib, mapping } => {
                EntryView::AddKernelLibMapping { lib: lib as nat, mapping }
            },
            ProfileEntry::AddLibMapping { process, time, lib, mapping } => {
                EntryView::AddLibMapping { process: process as nat, time, lib: lib as nat, mapping }
            },
            ProfileEntry::AddJitLibMapping { process, time, symbol_name, lib, mapping } => {
                EntryView::AddJitLibMapping {
                    process: process as nat,
                    time,
                    symbol_name: opt_text(symbol_name),
                    lib: lib as nat,
                    mapping,
                }
            },
        }
    }
}

/// The contents of a list of entries.
pub open spec fn entries_view(entries: Seq<ProfileEntry>) -> Seq<EntryView> {
    entries.map_values(|e: ProfileEntry| e@)
}

/// A profile.
#[derive(Debug)]
pub struct Profile {
    /// The name of the profiled product.
    pub product: String,
    /// The sampling interval in nanoseconds.
    pub interval_ns: u64,
    /// The raw time that counts as the start of the profile.
    pub reference_timestamp: u64,
    /// The names of the recorded events, by attribute index.
    pub event_names: Vec<String>,
    /// The entries, in the order in which they were made.
    pub entries: Vec<ProfileEntry>,
}

} // verus!
