//! What follows from mappings and added modules, in terms of the records and
//! of what is known of the files.

use crate::converter::{ConverterView, Settings};
use crate::dso::DsoKeyView;
use crate::ids::code_id_text;
use crate::jit::{is_injected_name, is_jitdump_path, jitdump_path};
use crate::mappings::{
    has_pe_extension, KernelModule, KernelModuleView, Mmap2FileId, Mmap2Record, MmapOutcomeView,
    MmapRecord, UserModule, UserModuleView,
};
use crate::modules::ModuleFactsView;
use crate::object_file::{image_size, pe_mapping_size, ImageKind, Section};
use crate::pe_mappings::{image_for_range, is_nearest_start, PeMappingView};
use crate::profile::{EntryView, LibDebugIdView, LibMapping, LibraryRecordView};
use crate::text::file_name_of;
use crate::text_laws::{is_plain_name, law_file_name_is_the_last_component};
use crate::user_modules::{
    library_name, AddressRange, FileInfo, ModuleOutcomeView, UnwindDataView,
};
use vstd::prelude::*;
use vstd::utf8::{decode_utf8, valid_utf8};

verus! {

/// Whether a module is taken from a mapping: the mapped addresses and where
/// they stand in the file.
pub open spec fn is_placed_like(module: UserModuleView, e: MmapRecord, timestamp: u64) -> bool {
    &&& module.pid == e.pid
    &&& module.mapping_start_file_offset == e.page_offset
    &&& module.mapping_start_avma == e.address
    &&& module.mapping_size == e.length
    &&& module.timestamp == timestamp
}

/// Whether a path and a build ID are those that a recording has for a file; one
/// that it does not know has the path of its mapping, and no build ID.
pub open spec fn are_known_of(
    settings: Settings,
    key: DsoKeyView,
    mapped_path: Seq<u8>,
    path: Seq<u8>,
    build_id: Option<Seq<u8>>,
) -> bool {
    &&& settings.build_ids@.dom().contains(key) ==> path == settings.build_ids@[key].path@
        && build_id == Some(settings.build_ids@[key].build_id@)
    &&& !settings.build_ids@.dom().contains(key) ==> path == mapped_path && build_id is None
}

/// Whether an executable mapping of the kernel is to be added to the kernel,
/// or one of a process to that process, is decided by the process ID alone,
/// whatever kind of file is mapped. What is added has the addresses of the
/// mapping. Mappings of data, and those of no file, are of no interest.
pub proof fn law_mapping_goes_where_it_was_made(
    settings: Settings,
    e: MmapRecord,
    key: Option<DsoKeyView>,
    timestamp: u64,
)
    ensures
        match settings.mmap_outcome(e, key, timestamp) {
            MmapOutcomeView::Done => !e.is_executable || key is None,
            MmapOutcomeView::AddKernelModule(module) => {
                &&& e.is_executable && key is Some
                &&& e.pid == -1
                &&& module.dso_key == key->0
                &&& module.base_address == e.address
                &&& module.len == e.length
                &&& are_known_of(settings, key->0, e.path@, module.path, module.build_id)
            },
            MmapOutcomeView::AddUserModule(module) => {
                &&& e.is_executable && key is Some
                &&& e.pid != -1
                &&& is_placed_like(module, e, timestamp)
                &&& are_known_of(settings, key->0, e.path@, module.path, module.build_id)
            },
        },
{
}

/// An executable mapping with a build ID always adds the file at its path to
/// its process, with that build ID. Without one the file has the build ID that
/// the recording knows for it, if any; the path stays that of the mapping.
/// Mappings of data, and those of no file, are of no interest.
pub proof fn law_second_kind_of_mapping_goes_to_its_process(
    settings: Settings,
    e: Mmap2Record,
    key: Option<DsoKeyView>,
    timestamp: u64,
)
    ensures
        match settings.mmap2_outcome(e, key, timestamp) {
            MmapOutcomeView::Done => e.protection & 4u32 == 0 || (e.file_id is InodeAndVersion
                && key is None),
            MmapOutcomeView::AddKernelModule(_) => false,
            MmapOutcomeView::AddUserModule(module) => {
                &&& e.protection & 4u32 != 0
                &&& module.pid == e.pid
                &&& module.path == e.path@
                &&& module.mapping_start_file_offset == e.page_offset
                &&& module.mapping_start_avma == e.address
                &&& module.mapping_size == e.length
                &&& module.timestamp == timestamp
                &&& match e.file_id {
                    Mmap2FileId::BuildId(build_id) => module.build_id == Some(build_id@),
                    Mmap2FileId::InodeAndVersion => {
                        &&& key is Some
                        &&& settings.build_ids@.dom().contains(key->0) ==> module.build_id == Some(
                            settings.build_ids@[key->0].build_id@,
                        )
                        &&& !settings.build_ids@.dom().contains(key->0) ==> module.build_id is None
                    },
                }
            },
        },
{
}

/// The two kinds of records agree on a file of a process that the recording
/// knows, where they say the same of it and the recording has its path.
pub proof fn law_kinds_of_mappings_agree(
    settings: Settings,
    a: MmapRecord,
    b: Mmap2Record,
    key: Option<DsoKeyView>,
    timestamp: u64,
)
    requires
        a.pid == b.pid,
        a.pid != -1,
        a.address == b.address,
        a.length == b.length,
        a.page_offset == b.page_offset,
        a.path@ == b.path@,
        a.is_executable == (b.protection & 4u32 != 0),
        b.file_id is InodeAndVersion,
        key is Some && settings.build_ids@.dom().contains(key->0)
            ==> settings.build_ids@[key->0].path@ == a.path@,
    ensures
        settings.mmap_outcome(a, key, timestamp) == settings.mmap2_outcome(b, key, timestamp),
{
}

/// Nothing of a module gets lost on the way into a record.
pub proof fn law_modules_show_all_they_hold(user: UserModule, kernel: KernelModule)
    ensures
        user@.pid == user.pid,
        user@.path == user.path@,
        user@.mapping_start_file_offset == user.mapping_start_file_offset,
        user@.mapping_start_avma == user.mapping_start_avma,
        user@.mapping_size == user.mapping_size,
        user@.timestamp == user.timestamp,
        user.build_id is None ==> user@.build_id is None,
        user.build_id is Some ==> user@.build_id == Some(user.build_id->0@),
        kernel@.dso_key == kernel.dso_key@,
        kernel@.base_address == kernel.base_address,
        kernel@.len == kernel.len,
        kernel@.path == kernel.path@,
        kernel.build_id is None ==> kernel@.build_id is None,
        kernel.build_id is Some ==> kernel@.build_id == Some(kernel.build_id->0@),
{
}

/// A file in any directory is a JITDUMP file if its name starts with `jit-` and
/// ends with `.dump`, and no other file is.
pub proof fn law_jitdump_files_are_told_by_their_names(
    dir: Seq<char>,
    name: Seq<char>,
    middle: Seq<char>,
)
    requires
        is_plain_name(name),
    ensures
        is_jitdump_path(dir.push('/') + name) == is_jitdump_path(name),
        name == seq!['j', 'i', 't', '-'] + middle + seq!['.', 'd', 'u', 'm', 'p']
            ==> is_jitdump_path(name),
        is_jitdump_path(name) ==> name.len() >= 5 && name.take(4) == seq!['j', 'i', 't', '-']
            && name.skip(name.len() - 5) == seq!['.', 'd', 'u', 'm', 'p'],
{
    law_file_name_is_the_last_component(dir, name);
    reveal_strlit("jit-");
    reveal_strlit(".dump");
    assert("jit-"@ =~= seq!['j', 'i', 't', '-']);
    assert(".dump"@ =~= seq!['.', 'd', 'u', 'm', 'p']);
    if name == seq!['j', 'i', 't', '-'] + middle + seq!['.', 'd', 'u', 'm', 'p'] {
        assert(name.take(4) =~= "jit-"@);
        assert(name.skip(name.len() - 5) =~= ".dump"@);
        assert("jit-"@.is_prefix_of(name));
        assert(".dump"@.is_suffix_of(name));
    }
    if is_jitdump_path(name) {
        assert(name.take(4) =~= "jit-"@);
        assert(name.skip(name.len() - 5) =~= ".dump"@);
    }
}

/// A path of bytes is that of a JITDUMP file if its text is, and it is the
/// text itself that is kept.
pub proof fn law_jitdump_path_is_kept_as_text(path: Seq<u8>)
    ensures
        jitdump_path(path) is Some <==> valid_utf8(path) && is_jitdump_path(decode_utf8(path)),
        jitdump_path(path) is Some ==> jitdump_path(path)->0 == decode_utf8(path),
{
}

/// The mapping of a JITDUMP file is put down for its process, with the
/// directory in which files are looked up, and has no other effect.
pub proof fn law_jitdump_mapping_is_put_down(
    state: ConverterView,
    pid: i32,
    path: Seq<u8>,
    page_offset: u64,
    address: u64,
    image: Option<Seq<u8>>,
)
    requires
        valid_utf8(path),
        is_jitdump_path(decode_utf8(path)),
        state.recording.processes.dom().contains(pid),
    ensures
        ({
            let after = state.after_mapping(pid, path, page_offset, address, image);
            &&& after.suspected_pe_mappings == state.suspected_pe_mappings
            &&& after.recording.processes == state.recording.processes
            &&& after.recording.entries.drop_last() == state.recording.entries
            &&& match after.recording.entries.last() {
                EntryView::AddJitdumpPath { process, path: text, lookup_dir } => {
                    &&& process == state.recording.processes[pid].handle
                    &&& text == decode_utf8(path)
                    &&& match state.settings.extra_binary_artifact_dir {
                        Some(dir) => lookup_dir == Some(dir@),
                        None => lookup_dir is None,
                    }
                },
                _ => false,
            }
        }),
{
    let after = state.after_mapping(pid, path, page_offset, address, image);
    assert(after.recording.entries.drop_last() =~= state.recording.entries);
}

/// Whether a path ends with a dot and three letters.
pub open spec fn has_extension(path: Seq<u8>, a: u8, b: u8, c: u8) -> bool {
    let n = path.len() as int;
    n >= 4 && path[n - 4] == 0x2e && path[n - 3] == a && path[n - 2] == b && path[n - 1] == c
}

/// The extensions of PE files are those of programs and libraries, in lower or
/// in upper case.
pub proof fn law_extensions_of_pe_files(path: Seq<u8>)
    ensures
        has_pe_extension(path) <==> {
            ||| has_extension(path, 0x65, 0x78, 0x65)
            ||| has_extension(path, 0x64, 0x6c, 0x6c)
            ||| has_extension(path, 0x45, 0x58, 0x45)
            ||| has_extension(path, 0x44, 0x4c, 0x4c)
        },
{
    lemma_extension(path, 0x65, 0x78, 0x65);
    lemma_extension(path, 0x64, 0x6c, 0x6c);
    lemma_extension(path, 0x45, 0x58, 0x45);
    lemma_extension(path, 0x44, 0x4c, 0x4c);
}

proof fn lemma_extension(path: Seq<u8>, a: u8, b: u8, c: u8)
    ensures
        seq![0x2eu8, a, b, c].is_suffix_of(path) == has_extension(path, a, b, c),
{
    let ending = seq![0x2eu8, a, b, c];
    let n = path.len() as int;
    if ending.is_suffix_of(path) {
        assert(path.subrange(n - 4, n) =~= ending);
        assert(path[n - 4] == path.subrange(n - 4, n)[0]);
        assert(path[n - 3] == path.subrange(n - 4, n)[1]);
        assert(path[n - 2] == path.subrange(n - 4, n)[2]);
        assert(path[n - 1] == path.subrange(n - 4, n)[3]);
    }
    if has_extension(path, a, b, c) {
        assert(path.subrange(n - 4, n) =~= ending);
    }
}

/// The mapping of the first page of a PE image is remembered with the image's
/// path and size, at the address of the mapping. All other images stay
/// remembered, and no other mapping has this effect.
pub proof fn law_first_page_of_an_image_is_remembered(
    state: ConverterView,
    pid: i32,
    path: Seq<u8>,
    page_offset: u64,
    address: u64,
    image: Option<Seq<u8>>,
)
    requires
        jitdump_path(path) is None,
    ensures
        ({
            let after = state.after_mapping(pid, path, page_offset, address, image);
            let is_image = page_offset == 0 && has_pe_extension(path) && valid_utf8(path)
                && image is Some && pe_mapping_size(image->0) is Some;
            &&& !is_image ==> after == state
            &&& is_image ==> {
                let images = after.suspected_pe_mappings;
                &&& images.dom() == state.suspected_pe_mappings.dom().insert(address)
                &&& images[address].path == decode_utf8(path)
                &&& images[address].start == address
                &&& images[address].size == pe_mapping_size(image->0)->0
                &&& images.remove(address) == state.suspected_pe_mappings.remove(address)
                &&& after.recording == state.recording
                &&& after.current_sample_time == state.current_sample_time
            }
        }),
{
    let images = state.after_mapping(pid, path, page_offset, address, image).suspected_pe_mappings;
    assert(images.remove(address) =~= state.suspected_pe_mappings.remove(address));
    assert(page_offset == 0 && has_pe_extension(path) && valid_utf8(path) && image is Some
        && pe_mapping_size(image->0) is Some ==> images.dom()
        =~= state.suspected_pe_mappings.dom().insert(address));
}

/// An image of any size is remembered under its path, if the path is text and
/// has the extension of a PE file; one without a size is not.
pub proof fn law_images_are_remembered_with_their_size(
    state: ConverterView,
    path: Seq<u8>,
    address: u64,
    image_size: Option<u64>,
)
    ensures
        !(has_pe_extension(path) && valid_utf8(path) && image_size is Some)
            ==> state.with_pe_image(path, address, image_size) == state,
        has_pe_extension(path) && valid_utf8(path) && image_size is Some ==> {
            let after = state.with_pe_image(path, address, image_size);
            let images = after.suspected_pe_mappings;
            &&& images.dom() == state.suspected_pe_mappings.dom().insert(address)
            &&& images[address].path == decode_utf8(path)
            &&& images[address].start == address
            &&& images[address].size == image_size->0
            &&& images.remove(address) == state.suspected_pe_mappings.remove(address)
            &&& after.recording == state.recording
        },
{
    let images = state.with_pe_image(path, address, image_size).suspected_pe_mappings;
    assert(images.remove(address) =~= state.suspected_pe_mappings.remove(address));
    assert(has_pe_extension(path) && valid_utf8(path) && image_size is Some ==> images.dom()
        =~= state.suspected_pe_mappings.dom().insert(address));
}

/// The size of an image is read by the headers of the file's own kind, and only
/// a PE file has one.
pub proof fn law_image_size_goes_by_the_kind_of_file(
    size32: Option<u32>,
    size64: Option<u32>,
)
    ensures
        match image_size(Some(ImageKind::Pe32), size32, size64) {
            Some(size) => size32 is Some && size == size32->0,
            None => size32 is None,
        },
        match image_size(Some(ImageKind::Pe64), size32, size64) {
            Some(size) => size64 is Some && size == size64->0,
            None => size64 is None,
        },
        image_size(Some(ImageKind::Other), size32, size64) is None,
        image_size(None, size32, size64) is None,
{
}

/// A range belongs to an image only if the image is the last one to start at or
/// before it, and holds it to its end.
pub proof fn law_range_outside_of_the_nearest_image_is_in_none(
    mappings: Map<u64, PeMappingView>,
    nearest: u64,
    address: u64,
    size: u64,
)
    ensures
        (forall|start: u64| #[trigger] mappings.dom().contains(start) ==> start > address)
            ==> image_for_range(mappings, address, size) is None,
        mappings.dom().contains(nearest) && nearest <= address && (forall|start: u64| #[trigger]
            mappings.dom().contains(start) && start <= address ==> start <= nearest) ==> {
            let image = mappings[nearest];
            &&& image.start <= address && address + size <= image.start + image.size
                ==> image_for_range(mappings, address, size) == Some(image)
            &&& !(image.start <= address && address + size <= image.start + image.size)
                ==> image_for_range(mappings, address, size) is None
        },
{
    if exists|start: u64| is_nearest_start(mappings, address, start) {
        let start = choose|start: u64| is_nearest_start(mappings, address, start);
        assert(mappings.dom().contains(start));
        if mappings.dom().contains(nearest) && nearest <= address && (forall|start: u64| #[trigger]
            mappings.dom().contains(start) && start <= address ==> start <= nearest) {
            assert(start == nearest);
        }
    } else if mappings.dom().contains(nearest) && nearest <= address && (forall|start: u64|
     #[trigger]
        mappings.dom().contains(start) && start <= address ==> start <= nearest) {
        assert(is_nearest_start(mappings, address, nearest));
    }
}

/// Whether an address is where the base of a file is in a process: where the
/// image starts that a PE file was found for, else what the file states as its
/// base, moved by the distance between stated and actual addresses.
pub open spec fn is_base(
    state: ConverterView,
    module: UserModuleView,
    info: FileInfo,
    base: u64,
) -> bool {
    let image = image_for_range(
        state.suspected_pe_mappings,
        module.mapping_start_avma,
        module.mapping_size,
    );
    if info.is_pe_image && image is Some {
        base == image->0.start
    } else {
        &&& info.vma_bias is Some
        &&& (base - info.base_svma - info.vma_bias->0) % 0x1_0000_0000_0000_0000 == 0
    }
}

/// Whether all that a section or the code occupies has addresses.
pub open spec fn ends_at_an_address(section: Option<Section>) -> bool {
    section is Some ==> section->0.address + section->0.size < 0x1_0000_0000_0000_0000
}

/// Whether all parts of a file have addresses.
pub open spec fn parts_have_addresses(facts: ModuleFactsView, base: u64) -> bool {
    &&& ends_at_an_address(facts.text)
    &&& ends_at_an_address(facts.text_env)
    &&& ends_at_an_address(facts.eh_frame)
    &&& ends_at_an_address(facts.eh_frame_hdr)
    &&& ends_at_an_address(facts.got)
    &&& facts.text_source is Some ==> base + facts.text_source->0.range.start
        + facts.text_source->0.range.size < 0x1_0000_0000_0000_0000
}

proof fn lemma_base(state: ConverterView, module: UserModuleView, info: FileInfo, base: u64)
    requires
        is_base(state, module, info, base),
    ensures
        state.base_avma(module, info) == Some(base),
{
    let image = image_for_range(
        state.suspected_pe_mappings,
        module.mapping_start_avma,
        module.mapping_size,
    );
    if !(info.is_pe_image && image is Some) {
        let sum = info.base_svma + info.vma_bias->0;
        let wrapped = info.base_svma.wrapping_add(info.vma_bias->0);
        assert(wrapped == sum || wrapped == sum - 0x1_0000_0000_0000_0000);
        let k = (base - sum) / 0x1_0000_0000_0000_0000;
        assert(base - sum == k * 0x1_0000_0000_0000_0000) by (nonlinear_arith)
            requires
                (base - sum) % 0x1_0000_0000_0000_0000 == 0,
                k == (base - sum) / 0x1_0000_0000_0000_0000,
        ;
        assert(k == 0 || k == -1);
    }
}

/// Whether a library is that of a user-space file: named after the file, at
/// its path, and without the symbols of the kernel.
pub open spec fn is_library_of_file(
    record: LibraryRecordView,
    path: Seq<char>,
    build_id: Option<Seq<u8>>,
) -> bool {
    let name = match file_name_of(path) {
        Some(name) => name,
        None => "<unknown>"@,
    };
    &&& record.name == name
    &&& record.debug_name == name
    &&& record.path == path
    &&& record.debug_path == path
    &&& !record.has_kernel_symbols
    &&& build_id is None ==> record.code_id is None
    &&& build_id is Some ==> record.code_id == Some(code_id_text(build_id->0))
}

/// Whether a mapping covers the addresses of a module, and an address in it
/// relative to the library is the distance to the library's base, as far as 32
/// bits hold it.
pub open spec fn maps_from_base(mapping: LibMapping, module: UserModuleView, base: int) -> bool {
    let distance = module.mapping_start_avma - base;
    &&& mapping.start == module.mapping_start_avma
    &&& mapping.end == module.mapping_start_avma + module.mapping_size
    &&& distance < 0x1_0000_0000 ==> base + mapping.relative_start == module.mapping_start_avma
    &&& (distance - mapping.relative_start) % 0x1_0000_0000 == 0
}

/// A file that is the mapped one, can be placed in the process and has a debug
/// identifier is added to the profile as a library, and mapped for its process
/// at the time of the mapping. What an address of the mapping is relative to
/// the library is its distance to the base of the file. A file that
/// `perf inject --jit` wrote is mapped as the one function that it holds.
pub proof fn law_added_library_is_placed_by_its_base(
    state: ConverterView,
    module: UserModuleView,
    info: FileInfo,
    facts: ModuleFactsView,
    jit_symbol: Option<Seq<char>>,
    base: u64,
)
    requires
        state.recording.processes.dom().contains(module.pid),
        module.mapping_start_avma + module.mapping_size <= u64::MAX,
        module.build_id is None || module.build_id == facts.build_id,
        is_base(state, module, info, base),
        base <= module.mapping_start_avma,
        parts_have_addresses(facts, base),
        info.debug_id is Some,
    ensures
        ({
            let n = state.recording.entries.len();
            let process_handle = state.recording.processes[module.pid].handle;
            let after = state.with_module(module, info, Some(facts), jit_symbol);
            let entries = after.recording.entries;
            &&& entries.len() == n + 2
            &&& entries.take(n as int) == state.recording.entries
            &&& match entries[n as int] {
                EntryView::AddLib { record } => {
                    &&& is_library_of_file(record, info.path@, facts.build_id)
                    &&& record.debug_id == LibDebugIdView::Known(info.debug_id->0)
                },
                _ => false,
            }
            &&& match entries[n as int + 1] {
                EntryView::AddLibMapping { process, time, lib, mapping } => {
                    &&& !is_injected_name(library_name(info.path@))
                    &&& process == process_handle
                    &&& time == module.timestamp
                    &&& lib == n
                    &&& maps_from_base(mapping, module, base as int)
                },
                EntryView::AddJitLibMapping { process, time, symbol_name, lib, mapping } => {
                    &&& is_injected_name(library_name(info.path@))
                    &&& process == process_handle
                    &&& time == module.timestamp
                    &&& symbol_name == jit_symbol
                    &&& lib == n
                    &&& maps_from_base(mapping, module, base as int)
                },
                _ => false,
            }
            &&& after.recording.processes == state.recording.processes
            &&& after.suspected_pe_mappings == state.suspected_pe_mappings
        }),
{
    lemma_base(state, module, info, base);
    let n = state.recording.entries.len() as int;
    let entries = state.with_module(module, info, Some(facts), jit_symbol).recording.entries;
    assert(entries.take(n) =~= state.recording.entries);
}

/// A file that is another one than was mapped, or that cannot be placed, is not
/// added, and the unwinder is not told about it.
pub proof fn law_wrong_file_is_not_added(
    state: ConverterView,
    module: UserModuleView,
    info: FileInfo,
    facts: Option<ModuleFactsView>,
    jit_symbol: Option<Seq<char>>,
)
    requires
        state.recording.processes.dom().contains(module.pid),
        ({
            ||| facts is None
            ||| module.build_id is Some && module.build_id != facts->0.build_id
            ||| forall|base: u64| !is_base(state, module, info, base)
        }),
    ensures
        state.with_module(module, info, facts, jit_symbol) == state,
        state.module_outcome(module, info, facts) is Done,
{
    if forall|base: u64| !is_base(state, module, info, base) {
        if state.base_avma(module, info) is Some {
            let base = state.base_avma(module, info)->0;
            let sum = info.base_svma + info.vma_bias->0;
            let wrapped = info.base_svma.wrapping_add(info.vma_bias->0);
            assert(wrapped == sum || wrapped == sum - 0x1_0000_0000_0000_0000);
            assert(is_base(state, module, info, base));
        }
    }
    assert(state.with_module(module, info, facts, jit_symbol) =~= state);
}

/// A file with a part that would lie behind all addresses, or that would start
/// before its own base, is not added.
pub proof fn law_file_behind_all_addresses_is_not_added(
    state: ConverterView,
    module: UserModuleView,
    info: FileInfo,
    facts: ModuleFactsView,
    jit_symbol: Option<Seq<char>>,
    base: u64,
)
    requires
        state.recording.processes.dom().contains(module.pid),
        module.build_id is None || module.build_id == facts.build_id,
        is_base(state, module, info, base),
        !parts_have_addresses(facts, base) || (info.debug_id is Some && base
            > module.mapping_start_avma),
    ensures
        state.with_module(module, info, Some(facts), jit_symbol) == state,
        state.module_outcome(module, info, Some(facts)) is OutOfRange,
{
    lemma_base(state, module, info, base);
    assert(state.with_module(module, info, Some(facts), jit_symbol) =~= state);
}

/// Whether a range is that of a section.
pub open spec fn is_range_of(range: Option<AddressRange>, section: Option<Section>) -> bool {
    match section {
        Some(section) => range is Some && range->0.start == section.address && range->0.end
            == section.address + section.size,
        None => range is None,
    }
}

/// The unwinder is told about every file that is placed, whether or not it has
/// a debug identifier: the mapped addresses, the base of the file in the
/// process and in the file, its sections, and the code with the addresses that
/// it has from the base on. Without a debug identifier nothing goes into the
/// profile.
pub proof fn law_unwinder_is_told_about_placed_files(
    state: ConverterView,
    module: UserModuleView,
    info: FileInfo,
    facts: ModuleFactsView,
    jit_symbol: Option<Seq<char>>,
    base: u64,
)
    requires
        state.recording.processes.dom().contains(module.pid),
        module.mapping_start_avma + module.mapping_size <= u64::MAX,
        module.build_id is None || module.build_id == facts.build_id,
        is_base(state, module, info, base),
        info.debug_id is Some ==> base <= module.mapping_start_avma,
        parts_have_addresses(facts, base),
    ensures
        match state.module_outcome(module, info, Some(facts)) {
            ModuleOutcomeView::AddToUnwinder(told) => {
                &&& told.path == info.path@
                &&& told.avma_range.start == module.mapping_start_avma
                &&& told.avma_range.end == module.mapping_start_avma + module.mapping_size
                &&& told.base_avma == base
                &&& told.base_svma == info.base_svma
                &&& is_range_of(told.text, facts.text)
                &&& is_range_of(told.text_env, facts.text_env)
                &&& is_range_of(told.eh_frame, facts.eh_frame)
                &&& is_range_of(told.eh_frame_hdr, facts.eh_frame_hdr)
                &&& is_range_of(told.got, facts.got)
                &&& match told.unwind_data {
                    UnwindDataView::Nothing => facts.eh_frame_data is None,
                    UnwindDataView::EhFrame { eh_frame } => facts.eh_frame_data == Some(eh_frame)
                        && facts.eh_frame_hdr_data is None,
                    UnwindDataView::EhFrameHdrAndEhFrame { eh_frame_hdr, eh_frame } => {
                        facts.eh_frame_data == Some(eh_frame) && facts.eh_frame_hdr_data == Some(
                            eh_frame_hdr,
                        )
                    },
                }
                &&& match told.text_data {
                    Some(text) => {
                        &&& facts.text_source is Some
                        &&& facts.text_source->0.data == Some(text.data)
                        &&& text.range.start == base + facts.text_source->0.range.start
                        &&& text.range.end - text.range.start == facts.text_source->0.range.size
                    },
                    None => facts.text_source is None || facts.text_source->0.data is None,
                }
            },
            _ => false,
        },
        info.debug_id is None ==> state.with_module(module, info, Some(facts), jit_symbol)
            == state,
{
    lemma_base(state, module, info, base);
    assert(info.debug_id is None ==> state.with_module(module, info, Some(facts), jit_symbol)
        =~= state);
}

/// A file that cannot be found is added as a library all the same, at its path
/// and with the build ID of the mapping. An address relative to it is taken to
/// be the place in the file.
pub proof fn law_missing_file_is_placed_by_its_file_offset(
    state: ConverterView,
    module: UserModuleView,
)
    requires
        state.recording.processes.dom().contains(module.pid),
        module.mapping_start_avma + module.mapping_size <= u64::MAX,
        module.mapping_start_file_offset <= module.mapping_start_avma,
    ensures
        ({
            let n = state.recording.entries.len();
            let after = state.with_missing_module(module);
            let entries = after.recording.entries;
            &&& entries.len() == n + 2
            &&& entries.take(n as int) == state.recording.entries
            &&& match entries[n as int] {
                EntryView::AddLib { record } => {
                    &&& is_library_of_file(record, decode_utf8(module.path), module.build_id)
                    &&& module.build_id is None ==> record.debug_id is Nil
                    &&& module.build_id is Some ==> record.debug_id == (
                    LibDebugIdView::FromBuildId {
                        build_id: module.build_id->0,
                        little_endian: true,
                    })
                },
                _ => false,
            }
            &&& match entries[n as int + 1] {
                EntryView::AddLibMapping { process, time, lib, mapping } => {
                    &&& process == state.recording.processes[module.pid].handle
                    &&& time == module.timestamp
                    &&& lib == n
                    &&& module.mapping_start_file_offset < 0x1_0000_0000 ==> mapping.relative_start
                        == module.mapping_start_file_offset
                    &&& maps_from_base(
                        mapping,
                        module,
                        module.mapping_start_avma - module.mapping_start_file_offset,
                    )
                },
                _ => false,
            }
            &&& after.recording.processes == state.recording.processes
            &&& after.suspected_pe_mappings == state.suspected_pe_mappings
        }),
{
    let n = state.recording.entries.len() as int;
    let entries = state.with_missing_module(module).recording.entries;
    assert(entries.take(n) =~= state.recording.entries);
}

/// A module of a process that is not there is added like one of the process
/// right after it was added.
pub proof fn law_modules_add_their_process(
    state: ConverterView,
    module: UserModuleView,
    info: FileInfo,
    facts: Option<ModuleFactsView>,
    jit_symbol: Option<Seq<char>>,
    data: Seq<u8>,
    path: Seq<u8>,
    page_offset: u64,
    address: u64,
)
    ensures
        ({
            let added = ConverterView {
                recording: state.recording.with_live_process(module.pid),
                ..state
            };
            &&& state.with_module(module, info, facts, jit_symbol) == added.with_module(
                module,
                info,
                facts,
                jit_symbol,
            )
            &&& state.with_missing_module(module) == added.with_missing_module(module)
            &&& state.module_outcome(module, info, facts) == added.module_outcome(
                module,
                info,
                facts,
            )
            &&& state.with_file(module, info, data) == added.with_file(module, info, data)
            &&& jitdump_path(path) is Some ==> state.after_mapping(
                module.pid,
                path,
                page_offset,
                address,
                Some(data),
            ) == added.after_mapping(module.pid, path, page_offset, address, Some(data))
            &&& jitdump_path(path) is Some ==> state.after_mapping(
                module.pid,
                path,
                page_offset,
                address,
                None,
            ) == added.after_mapping(module.pid, path, page_offset, address, None)
        }),
{
}

/// Whether a build ID is that of a part of the kernel: the one that the
/// recording knows comes first, then that of the running kernel where it is
/// mapped at the very address, then the one in the file.
pub open spec fn is_kernel_build_id(
    settings: Settings,
    module: KernelModuleView,
    file_build_id: Option<Seq<u8>>,
    build_id: Option<Seq<u8>>,
) -> bool {
    &&& module.build_id is Some ==> build_id == module.build_id
    &&& module.build_id is None && settings.kernel_symbols is Some
        && settings.kernel_symbols->0.base_avma == module.base_address ==> build_id == Some(
        settings.kernel_symbols->0.build_id@,
    )
    &&& module.build_id is None && !(settings.kernel_symbols is Some
        && settings.kernel_symbols->0.base_avma == module.base_address) ==> build_id
        == file_build_id
}

/// A part of the kernel is added as a library under the name of its key, and
/// mapped for the kernel from its base address on. The symbols of the running
/// kernel are used for the kernel itself only, where its build ID is that of
/// the running kernel, which must have disclosed its address.
pub proof fn law_kernel_module_is_mapped_for_the_kernel(
    state: ConverterView,
    module: KernelModuleView,
    file_build_id: Option<Seq<u8>>,
    build_id: Option<Seq<u8>>,
)
    requires
        module.base_address + module.len <= u64::MAX,
        is_kernel_build_id(state.settings, module, file_build_id, build_id),
    ensures
        ({
            let n = state.recording.entries.len();
            let after = state.with_kernel_module(module, file_build_id);
            let entries = after.recording.entries;
            &&& entries.len() == n + 2
            &&& entries.take(n as int) == state.recording.entries
            &&& match entries[n as int] {
                EntryView::AddLib { record } => {
                    &&& record.name == module.dso_key.name()
                    &&& record.debug_name == module.dso_key.name()
                    &&& record.path == decode_utf8(module.path)
                    &&& build_id is None ==> record.code_id is None && record.debug_id is Nil
                    &&& build_id is Some ==> record.code_id == Some(code_id_text(build_id->0))
                        && record.debug_id == (LibDebugIdView::FromBuildId {
                        build_id: build_id->0,
                        little_endian: state.settings.little_endian,
                    })
                    &&& record.has_kernel_symbols <==> {
                        &&& module.dso_key is Kernel
                        &&& state.settings.kernel_symbols is Some
                        &&& build_id == Some(state.settings.kernel_symbols->0.build_id@)
                        &&& state.settings.kernel_symbols->0.base_avma != 0
                    }
                },
                _ => false,
            }
            &&& match entries[n as int + 1] {
                EntryView::AddKernelLibMapping { lib, mapping } => {
                    &&& lib == n
                    &&& mapping.start == module.base_address
                    &&& mapping.end == module.base_address + module.len
                    &&& mapping.relative_start == 0
                },
                _ => false,
            }
            &&& after.recording.processes == state.recording.processes
            &&& after.suspected_pe_mappings == state.suspected_pe_mappings
        }),
{
    let n = state.recording.entries.len() as int;
    let entries = state.with_kernel_module(module, file_build_id).recording.entries;
    assert(entries.take(n) =~= state.recording.entries);
}

/// The debug file of the kernel is looked for under the version of the recorded
/// kernel, where the version is known; that of any other part is the part's own
/// file.
pub proof fn law_kernel_debug_file_goes_by_version(
    settings: Settings,
    module: KernelModuleView,
    file_build_id: Option<Seq<u8>>,
)
    ensures
        ({
            let path = decode_utf8(module.path);
            let debug_path = settings.kernel_library(module, file_build_id).debug_path;
            let is_kernel = "[kernel.kallsyms]"@.is_prefix_of(path);
            &&& settings.linux_version is Some && is_kernel ==> debug_path
                == "/usr/lib/debug/boot/vmlinux-"@ + settings.linux_version->0@
            &&& settings.linux_version is None || !is_kernel ==> debug_path == path
        }),
{
}

/// The names of the binaries that have no file of their own.
pub proof fn law_names_of_keys(text: Seq<char>, path: Seq<u8>)
    ensures
        DsoKeyView::Kernel.name() == "[kernel.kallsyms]"@,
        DsoKeyView::GuestKernel.name() == "[guest.kernel.kallsyms]"@,
        DsoKeyView::Vdso32.name() == "[vdso32]"@,
        DsoKeyView::VdsoX32.name() == "[vdsox32]"@,
        DsoKeyView::Vdso64.name() == "[vdso]"@,
        DsoKeyView::Vsyscall.name() == "[vsyscall]"@,
        (DsoKeyView::KernelModule { name: text }).name() == text,
        (DsoKeyView::User { file_name: text, full_path: path }).name() == text,
{
}

} // verus!
