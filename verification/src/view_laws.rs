//! What contracts say of a value is what the value holds: nothing is lost or
//! mixed up between a value and its contents.

use crate::candidates::{
    candidates, CandidatePathInfo, CandidateView, FileLocation, FileLocationView,
};
use crate::converter::{settings_for, Converter, EventInterpretation, KernelSymbols, Settings};
use crate::dso::{DsoInfo, DsoKey, DsoKeyView};
use crate::helper::{FileSource, FileSourceView, SymbolManagerConfig};
use crate::library_info::{CodeKey, DebugKey, KnownLibs, LibraryInfo};
use crate::mappings::{MmapOutcome, MmapOutcomeView};
use crate::modules::{ModuleFacts, TextSource};
use crate::object_file::{
    segments_view, symbols_view, ObjectHeader, Segment, Symbol,
};
use crate::pe_mappings::{PeMappings, SuspectedPeMapping};
use crate::processes::{EndedProcess, EndedThread, Process, Recording, Thread};
use crate::profile::{
    entries_view, opt_bytes, opt_str, opt_text, texts, EntryView, LibDebugId, LibDebugIdView,
    LibraryRecord, ProfileEntry,
};
use crate::user_modules::{
    ModuleOutcome, ModuleOutcomeView, TextBytes, UnwindData, UnwindDataView, UnwindModule,
};
use vstd::prelude::*;

verus! {

/// Whether optional contents are those of an optional text.
pub open spec fn shows_text(contents: Option<Seq<char>>, text: Option<String>) -> bool {
    &&& contents is Some == text is Some
    &&& text is Some ==> contents->0 == text->0@
}

/// Whether optional contents are those of optional bytes.
pub open spec fn shows_bytes(contents: Option<Seq<u8>>, bytes: Option<Vec<u8>>) -> bool {
    &&& contents is Some == bytes is Some
    &&& bytes is Some ==> contents->0 == bytes->0@
}

/// Optional texts and bytes and lists of texts are shown as they are.
pub proof fn law_texts_are_shown(
    text: Option<String>,
    slice: Option<&str>,
    bytes: Option<Vec<u8>>,
    list: Seq<String>,
    i: int,
)
    ensures
        shows_text(opt_text(text), text),
        opt_str(slice) is Some == slice is Some,
        slice is Some ==> opt_str(slice)->0 == slice->0@,
        shows_bytes(opt_bytes(bytes), bytes),
        texts(list).len() == list.len(),
        0 <= i < list.len() ==> texts(list)[i] == list[i]@,
{
}

/// Every entry of a profile is shown as it is, and so is the list of them.
pub proof fn law_entries_are_shown(entries: Seq<ProfileEntry>, i: int)
    requires
        0 <= i < entries.len(),
    ensures
        entries_view(entries).len() == entries.len(),
        match (entries[i], entries_view(entries)[i]) {
            (ProfileEntry::AddProcess { pid: a }, EntryView::AddProcess { pid }) => a == pid,
            (
                ProfileEntry::AddThread { process: a, tid: b, is_main: c },
                EntryView::AddThread { process, tid, is_main },
            ) => a == process && b == tid && c == is_main,
            (
                ProfileEntry::SetProcessName { process: a, name: b },
                EntryView::SetProcessName { process, name },
            ) => a == process && b@ == name,
            (
                ProfileEntry::SetThreadName { thread: a, name: b },
                EntryView::SetThreadName { thread, name },
            ) => a == thread && b@ == name,
            (
                ProfileEntry::SetProcessStart { process: a, time: b },
                EntryView::SetProcessStart { process, time },
            ) => a == process && b == time,
            (
                ProfileEntry::SetThreadStart { thread: a, time: b },
                EntryView::SetThreadStart { thread, time },
            ) => a == thread && b == time,
            (
                ProfileEntry::EndProcess { process: a, time: b },
                EntryView::EndProcess { process, time },
            ) => a == process && b == time,
            (
                ProfileEntry::EndThread { thread: a, time: b },
                EntryView::EndThread { thread, time },
            ) => a == thread && b == time,
            (
                ProfileEntry::SetProductFromThread { thread_name: a },
                EntryView::SetProductFromThread { thread_name },
            ) => a@ == thread_name,
            (
                ProfileEntry::AddSample {
                    thread: a,
                    time: b,
                    mono_time: c,
                    stack: d,
                    cpu_delta_ns: e,
                    weight: f,
                },
                EntryView::AddSample { thread, time, mono_time, stack, cpu_delta_ns, weight },
            ) => {
                &&& a == thread && b == time && c == mono_time
                &&& d@ == stack && e == cpu_delta_ns && f == weight
            },
            (
                ProfileEntry::AddRssStatMarker {
                    thread: a,
                    time: b,
                    stack: c,
                    member: d,
                    size: e,
                    delta: f,
                },
                EntryView::AddRssStatMarker { thread, time, stack, member, size, delta },
            ) => {
                &&& a == thread && b == time && c@ == stack
                &&& d == member && e == size && f == delta
            },
            (
                ProfileEntry::AddOtherEventMarker { thread: a, time: b, stack: c, attr_index: d },
                EntryView::AddOtherEventMarker { thread, time, stack, attr_index },
            ) => a == thread && b == time && c@ == stack && d == attr_index,
            (
                ProfileEntry::AddMemoryCounterSample { process: a, time: b, delta: c },
                EntryView::AddMemoryCounterSample { process, time, delta },
            ) => a == process && b == time && c == delta,
            (
                ProfileEntry::CheckJitdump { process: a },
                EntryView::CheckJitdump { process },
            ) => a == process,
            (
                ProfileEntry::AddJitdumpPath { process: a, path: b, lookup_dir: c },
                EntryView::AddJitdumpPath { process, path, lookup_dir },
            ) => a == process && b@ == path && shows_text(lookup_dir, c),
            (ProfileEntry::AddLib { record: a }, EntryView::AddLib { record }) => a@ == record,
            (
                ProfileEntry::AddKernelLibMapping { lib: a, mapping: b },
                EntryView::AddKernelLibMapping { lib, mapping },
            ) => a == lib && b == mapping,
            (
                ProfileEntry::AddLibMapping { process: a, time: b, lib: c, mapping: d },
                EntryView::AddLibMapping { process, time, lib, mapping },
            ) => a == process && b == time && c == lib && d == mapping,
            (
                ProfileEntry::AddJitLibMapping {
                    process: a,
                    time: b,
                    symbol_name: c,
                    lib: d,
                    mapping: e,
                },
                EntryView::AddJitLibMapping { process, time, symbol_name, lib, mapping },
            ) => {
                &&& a == process && b == time && shows_text(symbol_name, c)
                &&& d == lib && e == mapping
            },
            _ => false,
        },
{
}

/// A library of a profile is shown as it is.
pub proof fn law_library_records_are_shown(record: LibraryRecord)
    ensures
        record@.name == record.name@,
        record@.debug_name == record.debug_name@,
        record@.path == record.path@,
        record@.debug_path == record.debug_path@,
        shows_text(record@.code_id, record.code_id),
        record@.has_kernel_symbols == record.has_kernel_symbols,
        match (record.debug_id, record@.debug_id) {
            (LibDebugId::Nil, LibDebugIdView::Nil) => true,
            (
                LibDebugId::FromBuildId { build_id: a, little_endian: b },
                LibDebugIdView::FromBuildId { build_id, little_endian },
            ) => a@ == build_id && b == little_endian,
            (LibDebugId::Known(a), LibDebugIdView::Known(b)) => a == b,
            _ => false,
        },
{
}

/// Threads, live and ended, are shown as they are.
pub proof fn law_threads_are_shown(thread: Thread, ended: EndedThread)
    ensures
        thread@.handle == thread.handle,
        shows_text(thread@.name, thread.name),
        thread@.last_sample_timestamp == thread.last_sample_timestamp,
        thread@.off_cpu_stack is Some == thread.off_cpu_stack is Some,
        thread.off_cpu_stack is Some ==> thread@.off_cpu_stack->0 == thread.off_cpu_stack->0@,
        thread@.context_switch_data == thread.context_switch_data,
        ended@.handle == ended.handle,
        ended@.name == ended.name@,
{
}

/// Processes, live and ended, are shown as they are, with all of their threads.
pub proof fn law_processes_are_shown(process: Process, ended: EndedProcess, tid: i32, i: int)
    ensures
        process@.handle == process.handle,
        shows_text(process@.name, process.name),
        process@.rss == process.rss,
        process@.main_thread == process.main_thread@,
        process@.threads.dom() == process.threads@.dom(),
        process.threads@.dom().contains(tid) ==> process@.threads[tid] == process.threads@[tid]@,
        process@.ended_threads.len() == process.ended_threads@.len(),
        0 <= i < process.ended_threads@.len() ==> process@.ended_threads[i]
            == process.ended_threads@[i]@,
        ended@.handle == ended.handle,
        ended@.main_thread == ended.main_thread,
        ended@.name == ended.name@,
{
    assert(process@.threads.dom() =~= process.threads@.dom());
}

/// The state of a conversion is shown as it is.
pub proof fn law_state_is_shown(converter: Converter, recording: Recording, pid: i32, i: int)
    requires
        recording == converter.recording,
    ensures
        converter@.settings == converter.settings,
        converter@.current_sample_time == converter.current_sample_time,
        converter@.have_product_name == converter.have_product_name,
        converter@.product_name_pending == converter.product_name_pending,
        converter@.suspected_pe_mappings == converter.suspected_pe_mappings@,
        converter@.recording.merge_threads == recording.merge_threads,
        converter@.recording.processes.dom() == recording.processes@.dom(),
        recording.processes@.dom().contains(pid) ==> converter@.recording.processes[pid]
            == recording.processes@[pid]@,
        converter@.recording.ended_processes.len() == recording.ended_processes@.len(),
        0 <= i < recording.ended_processes@.len() ==> converter@.recording.ended_processes[i]
            == recording.ended_processes@[i]@,
        converter@.recording.entries == entries_view(recording.entries@),
{
    assert(converter@.recording.processes.dom() =~= recording.processes@.dom());
}

/// The suspected PE images are shown as they are.
pub proof fn law_images_are_shown(images: PeMappings, image: SuspectedPeMapping, start: u64)
    ensures
        images@.dom() == images.by_start@.dom(),
        images.by_start@.dom().contains(start) ==> images@[start] == images.by_start@[start]@,
        image@.path == image.path@,
        image@.start == image.start,
        image@.size == image.size,
{
    assert(images@.dom() =~= images.by_start@.dom());
}

/// The settings of a conversion are those that it was started with. Off-CPU
/// samples are as far apart as samples are, and count as much, where samples
/// are taken by time; otherwise they are a millisecond apart and count for
/// nothing.
pub proof fn law_settings_are_those_given(
    settings: Settings,
    product: Seq<char>,
    build_ids: Map<DsoKeyView, DsoInfo>,
    linux_version: Option<Seq<char>>,
    first_sample_time: u64,
    little_endian: bool,
    extra_binary_artifact_dir: Option<Seq<char>>,
    interpretation: EventInterpretation,
    kernel_symbols: Option<KernelSymbols>,
    fold_recursive_prefix: bool,
)
    requires
        settings_for(
            settings,
            product,
            build_ids,
            linux_version,
            first_sample_time,
            little_endian,
            extra_binary_artifact_dir,
            interpretation,
            kernel_symbols,
            fold_recursive_prefix,
        ),
    ensures
        settings.product@ == product,
        settings.build_ids@ == build_ids,
        shows_text(linux_version, settings.linux_version),
        settings.reference_timestamp == first_sample_time,
        settings.little_endian == little_endian,
        shows_text(extra_binary_artifact_dir, settings.extra_binary_artifact_dir),
        settings.have_context_switches == interpretation.have_context_switches,
        settings.event_names@ == interpretation.event_names@,
        settings.kernel_symbols == kernel_symbols,
        settings.fold_recursive_prefix == fold_recursive_prefix,
        interpretation.sampling_is_time_based is Some ==> {
            let nanos = interpretation.sampling_is_time_based->0;
            &&& settings.interval_ns == nanos
            &&& settings.context_switch_handler.off_cpu_sampling_interval_ns == nanos
            &&& settings.off_cpu_weight_per_sample == 1
        },
        interpretation.sampling_is_time_based is None ==> {
            &&& settings.interval_ns == 1_000_000
            &&& settings.context_switch_handler.off_cpu_sampling_interval_ns == 1_000_000
            &&& settings.off_cpu_weight_per_sample == 0
        },
        settings.wf(),
{
}

/// What is read out of an object file is shown as it is.
pub proof fn law_parts_of_files_are_shown(
    header: ObjectHeader,
    segments: Seq<Segment>,
    symbols: Seq<Symbol>,
    source: TextSource,
    i: int,
)
    ensures
        header@.is_elf == header.is_elf,
        header@.is_64 == header.is_64,
        shows_bytes(header@.build_id, header.build_id),
        segments_view(segments).len() == segments.len(),
        0 <= i < segments.len() ==> {
            let segment = segments_view(segments)[i];
            &&& shows_bytes(segment.name, segments[i].name)
            &&& segment.address == segments[i].address
            &&& segment.file_range == segments[i].file_range
        },
        symbols_view(symbols).len() == symbols.len(),
        0 <= i < symbols.len() ==> {
            let symbol = symbols_view(symbols)[i];
            &&& symbol.is_text == symbols[i].is_text
            &&& shows_text(symbol.name, symbols[i].name)
        },
        source@.range == source.range,
        shows_bytes(source@.data, source.data),
{
}

/// What is known of an object file is shown as it is.
pub proof fn law_facts_are_shown(facts: ModuleFacts)
    ensures
        shows_bytes(facts@.build_id, facts.build_id),
        facts@.text == facts.text,
        facts@.text_env == facts.text_env,
        facts@.eh_frame == facts.eh_frame,
        facts@.eh_frame_hdr == facts.eh_frame_hdr,
        facts@.got == facts.got,
        shows_bytes(facts@.eh_frame_data, facts.eh_frame_data),
        shows_bytes(facts@.eh_frame_hdr_data, facts.eh_frame_hdr_data),
        facts@.text_source is Some == facts.text_source is Some,
        facts.text_source is Some ==> facts@.text_source->0 == facts.text_source->0@,
{
}

/// What the unwinder is told is shown as it is.
pub proof fn law_unwind_modules_are_shown(module: UnwindModule, text: TextBytes)
    ensures
        module@.path == module.path@,
        module@.avma_range == module.avma_range,
        module@.base_avma == module.base_avma,
        module@.base_svma == module.base_svma,
        module@.text == module.text,
        module@.text_env == module.text_env,
        module@.eh_frame == module.eh_frame,
        module@.eh_frame_hdr == module.eh_frame_hdr,
        module@.got == module.got,
        match (module.unwind_data, module@.unwind_data) {
            (UnwindData::Nothing, UnwindDataView::Nothing) => true,
            (UnwindData::EhFrame { eh_frame: a }, UnwindDataView::EhFrame { eh_frame }) => a@
                == eh_frame,
            (
                UnwindData::EhFrameHdrAndEhFrame { eh_frame_hdr: a, eh_frame: b },
                UnwindDataView::EhFrameHdrAndEhFrame { eh_frame_hdr, eh_frame },
            ) => a@ == eh_frame_hdr && b@ == eh_frame,
            _ => false,
        },
        module@.text_data is Some == module.text_data is Some,
        module.text_data is Some ==> module@.text_data->0 == module.text_data->0@,
        text@.data == text.data@,
        text@.range == text.range,
{
}

/// What is to be done next is shown as it is.
pub proof fn law_outcomes_are_shown(mapped: MmapOutcome, added: ModuleOutcome)
    ensures
        match (mapped, mapped@) {
            (MmapOutcome::Done, MmapOutcomeView::Done) => true,
            (MmapOutcome::AddKernelModule(a), MmapOutcomeView::AddKernelModule(b)) => a@ == b,
            (MmapOutcome::AddUserModule(a), MmapOutcomeView::AddUserModule(b)) => a@ == b,
            _ => false,
        },
        match (added, added@) {
            (ModuleOutcome::Done, ModuleOutcomeView::Done) => true,
            (ModuleOutcome::AddToUnwinder(a), ModuleOutcomeView::AddToUnwinder(b)) => a@ == b,
            (ModuleOutcome::OutOfRange, ModuleOutcomeView::OutOfRange) => true,
            (ModuleOutcome::TooLarge, ModuleOutcomeView::TooLarge) => true,
            (ModuleOutcome::Unpack, ModuleOutcomeView::Unpack) => true,
            _ => false,
        },
{
}

/// The keys of mapped binaries are shown as they are, so that different ones
/// are told apart.
pub proof fn law_keys_are_shown(key: DsoKey)
    ensures
        match (key, key@) {
            (DsoKey::Kernel, DsoKeyView::Kernel) => true,
            (DsoKey::GuestKernel, DsoKeyView::GuestKernel) => true,
            (DsoKey::Vdso32, DsoKeyView::Vdso32) => true,
            (DsoKey::VdsoX32, DsoKeyView::VdsoX32) => true,
            (DsoKey::Vdso64, DsoKeyView::Vdso64) => true,
            (DsoKey::Vsyscall, DsoKeyView::Vsyscall) => true,
            (DsoKey::KernelModule { name: a }, DsoKeyView::KernelModule { name }) => a@ == name,
            (
                DsoKey::User { file_name: a, full_path: b },
                DsoKeyView::User { file_name, full_path },
            ) => a@ == file_name && b@ == full_path,
            _ => false,
        },
{
}

/// The keys of libraries are shown as they are: each part of a key tells
/// libraries apart.
pub proof fn law_keys_of_libraries_are_shown(debug: DebugKey, code: CodeKey)
    ensures
        debug@.0 == debug.debug_name@,
        debug@.1 == debug.debug_id,
        shows_text(code@.0, code.name),
        code@.1 == code.code_id@,
{
}

/// The places of files are shown as they are, and so is the list of them.
pub proof fn law_places_are_shown(
    places: Seq<CandidatePathInfo>,
    location: FileLocation,
    source: FileSource,
    i: int,
)
    ensures
        candidates(places).len() == places.len(),
        0 <= i < places.len() ==> match (places[i], candidates(places)[i]) {
            (CandidatePathInfo::SingleFile(a), CandidateView::SingleFile(b)) => a@ == b,
            (
                CandidatePathInfo::InDyldCache { dyld_cache_path: a, dylib_path: b },
                CandidateView::InDyldCache { dyld_cache_path, dylib_path },
            ) => a@ == dyld_cache_path && b@ == dylib_path,
            _ => false,
        },
        match (location, location@) {
            (FileLocation::Path(a), FileLocationView::Path(b)) => a@ == b,
            (FileLocation::Custom(a), FileLocationView::Custom(b)) => a@ == b,
            _ => false,
        },
        match (source, source@) {
            (FileSource::LocalFile(a), FileSourceView::LocalFile(b)) => a@ == b,
            (FileSource::SymbolCache(a), FileSourceView::SymbolCache(b)) => a@ == b,
            (FileSource::BreakpadServers(a), FileSourceView::BreakpadServers(b)) => a@ == b,
            _ => false,
        },
{
}

/// What is known of libraries is shown as it is.
pub proof fn law_libraries_are_shown(info: LibraryInfo, known: KnownLibs)
    ensures
        shows_text(info@.debug_name, info.debug_name),
        info@.debug_id == info.debug_id,
        shows_text(info@.debug_path, info.debug_path),
        shows_text(info@.name, info.name),
        info@.code_id is Some == info.code_id is Some,
        info.code_id is Some ==> info@.code_id->0 == info.code_id->0@,
        shows_text(info@.path, info.path),
        shows_text(info@.arch, info.arch),
        known@.by_debug == known.by_debug@.map_values(|lib: LibraryInfo| lib@),
        known@.by_code == known.by_code@.map_values(|lib: LibraryInfo| lib@),
{
}

/// The directories of a configuration are shown as they are.
pub proof fn law_directories_are_shown(config: SymbolManagerConfig, i: int)
    ensures
        config.directories().len() == config.breakpad_directories_readonly@.len(),
        0 <= i < config.directories().len() ==> config.directories()[i]
            == config.breakpad_directories_readonly@[i]@,
        config.cache_dirs().len() == config.breakpad_servers@.len(),
        0 <= i < config.cache_dirs().len() ==> config.cache_dirs()[i]
            == config.breakpad_servers@[i].cache_dir@,
        config.has_symbol_cache() <==> config.nt_symbol_path is Some,
{
}

} // verus!
