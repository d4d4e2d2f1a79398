//! Adds mapped files to processes.

use crate::converter::{Converter, ConverterView};
use crate::ids::{code_id_of, DebugId};
use crate::jit::{first_code_symbol, is_injected_jit_name, is_injected_name, jit_function_name};
use crate::kernel_modules::{code_id_from, debug_id_from, debug_id_of};
use crate::mappings::{UserModule, UserModuleView};
use crate::modules::{
    are_module_facts, module_facts, module_layout, read_facts_with, read_module_facts,
    unwinding_too_large, unwinding_unbounded, ModuleFacts, ModuleFactsView, TextSourceView,
};
use crate::object_file::{
    header_view, object_symbols, parse_header, ObjectHeader, Section, UnpackError,
};
use crate::pe_mappings::image_for_range;
use crate::processes::RecordingView;
use crate::profile::{
    opt_bytes, opt_text, EntryView, LibDebugId, LibDebugIdView, LibMapping, LibraryRecord,
    LibraryRecordView, ProfileEntry,
};
use crate::text::{decode, file_name, file_name_of, same_bytes};
use vstd::prelude::*;
use vstd::utf8::{decode_utf8, valid_utf8};

verus! {

/// A range of addresses.
#[derive(Clone, Copy, Debug, PartialEq, Eq, Structural)]
pub struct AddressRange {
    pub start: u64,
    pub end: u64,
}

/// The unwinding information of a file.
#[derive(Debug)]
pub enum UnwindData {
    Nothing,
    EhFrame { eh_frame: Vec<u8> },
    EhFrameHdrAndEhFrame { eh_frame_hdr: Vec<u8>, eh_frame: Vec<u8> },
}

/// The contents of an [`UnwindData`].
pub enum UnwindDataView {
    Nothing,
    EhFrame { eh_frame: Seq<u8> },
    EhFrameHdrAndEhFrame { eh_frame_hdr: Seq<u8>, eh_frame: Seq<u8> },
}

impl View for UnwindData {
    type V = UnwindDataView;

    open spec fn view(&self) -> UnwindDataView {
        match self {
            UnwindData::Nothing => UnwindDataView::Nothing,
            UnwindData::EhFrame { eh_frame } => UnwindDataView::EhFrame { eh_frame: eh_frame@ },
            UnwindData::EhFrameHdrAndEhFrame { eh_frame_hdr, eh_frame } => {
                UnwindDataView::EhFrameHdrAndEhFrame {
                    eh_frame_hdr: eh_frame_hdr@,
                    eh_frame: eh_frame@,
                }
            },
        }
    }
}

/// The bytes of code, and the addresses that they would have if the whole
/// file were mapped.
#[derive(Debug)]
pub struct TextBytes {
    pub data: Vec<u8>,
    pub range: AddressRange,
}

/// The contents of a [`TextBytes`].
pub struct TextBytesView {
    pub data: Seq<u8>,
    pub range: AddressRange,
}

impl View for TextBytes {
    type V = TextBytesView;

    open spec fn view(&self) -> TextBytesView {
        TextBytesView { data: self.data@, range: self.range }
    }
}

/// What the unwinder is to know of a mapped file.
#[derive(Debug)]
pub struct UnwindModule {
    pub path: String,
    /// The mapped addresses.
    pub avma_range: AddressRange,
    /// The address of the file's base in the process.
    pub base_avma: u64,
    /// The address of the file's base as stated in the file.
    pub base_svma: u64,
    pub text: Option<AddressRange>,
    pub text_env: Option<AddressRange>,
    pub eh_frame: Option<AddressRange>,
    pub eh_frame_hdr: Option<AddressRange>,
    pub got: Option<AddressRange>,
    pub unwind_data: UnwindData,
    pub text_data: Option<TextBytes>,
}

/// The contents of an [`UnwindModule`].
#[verifier::ext_equal]
pub struct UnwindModuleView {
    pub path: Seq<char>,
    pub avma_range: AddressRange,
    pub base_avma: u64,
    pub base_svma: u64,
    pub text: Option<AddressRange>,
    pub text_env: Option<AddressRange>,
    pub eh_frame: Option<AddressRange>,
    pub eh_frame_hdr: Option<AddressRange>,
    pub got: Option<AddressRange>,
    pub unwind_data: UnwindDataView,
    pub text_data: Option<TextBytesView>,
}

impl View for UnwindModule {
    type V = UnwindModuleView;

    open spec fn view(&self) -> UnwindModuleView {
        UnwindModuleView {
            path: self.path@,
            avma_range: self.avma_range,
            base_avma: self.base_avma,
            base_svma: self.base_svma,
            text: self.text,
            text_env: self.text_env,
            eh_frame: self.eh_frame,
            eh_frame_hdr: self.eh_frame_hdr,
            got: self.got,
            unwind_data: self.unwind_data@,
            text_data: match self.text_data {
                Some(text) => Some(text@),
                None => None,
            },
        }
    }
}

/// Whether the end of a section is an address.
pub open spec fn section_fits(section: Option<Section>) -> bool {
    section is Some ==> section->0.address + section->0.size <= u64::MAX
}

/// The addresses of a section as stated in the file.
pub open spec fn svma_range(section: Option<Section>) -> Option<AddressRange> {
    match section {
        Some(section) => Some(
            AddressRange {
                start: section.address,
                end: (section.address + section.size) as u64,
            },
        ),
        None => None,
    }
}

/// Whether the end of the code is an address.
pub open spec fn text_fits(source: Option<TextSourceView>, base_avma: u64) -> bool {
    source is Some ==> base_avma + source->0.range.start + source->0.range.size <= u64::MAX
}

impl ModuleFactsView {
    /// Whether all of the file's parts end at an address.
    pub open spec fn fits(self, base_avma: u64) -> bool {
        &&& section_fits(self.text)
        &&& section_fits(self.text_env)
        &&& section_fits(self.eh_frame)
        &&& section_fits(self.eh_frame_hdr)
        &&& section_fits(self.got)
        &&& text_fits(self.text_source, base_avma)
    }

    /// The unwinding information. The header alone is of no use.
    pub open spec fn unwind_data(self) -> UnwindDataView {
        match (self.eh_frame_data, self.eh_frame_hdr_data) {
            (Some(eh_frame), Some(eh_frame_hdr)) => UnwindDataView::EhFrameHdrAndEhFrame {
                eh_frame_hdr,
                eh_frame,
            },
            (Some(eh_frame), None) => UnwindDataView::EhFrame { eh_frame },
            (None, _) => UnwindDataView::Nothing,
        }
    }

    /// The bytes of code, where they can be read.
    pub open spec fn text_data(self, base_avma: u64) -> Option<TextBytesView> {
        if self.text_source is Some && self.text_source->0.data is Some {
            let range = self.text_source->0.range;
            Some(
                TextBytesView {
                    data: self.text_source->0.data->0,
                    range: AddressRange {
                        start: (base_avma + range.start) as u64,
                        end: (base_avma + range.start + range.size) as u64,
                    },
                },
            )
        } else {
            None
        }
    }

    /// What the unwinder is to know of a file.
    pub open spec fn unwind_module(
        self,
        module: UserModuleView,
        path: Seq<char>,
        base_avma: u64,
        base_svma: u64,
    ) -> UnwindModuleView {
        UnwindModuleView {
            path,
            avma_range: AddressRange {
                start: module.mapping_start_avma,
                end: (module.mapping_start_avma + module.mapping_size) as u64,
            },
            base_avma,
            base_svma,
            text: svma_range(self.text),
            text_env: svma_range(self.text_env),
            eh_frame: svma_range(self.eh_frame),
            eh_frame_hdr: svma_range(self.eh_frame_hdr),
            got: svma_range(self.got),
            unwind_data: self.unwind_data(),
            text_data: self.text_data(base_avma),
        }
    }

    /// Whether the file is the one that a build ID belongs to.
    pub open spec fn is_file_for(self, build_id: Option<Seq<u8>>) -> bool {
        build_id_matches(build_id, self.build_id)
    }
}

/// Whether a file with the second build ID is the one that the first belongs
/// to. Without the first there is nothing to go by.
pub open spec fn build_id_matches(
    build_id: Option<Seq<u8>>,
    file_build_id: Option<Seq<u8>>,
) -> bool {
    build_id is None || file_build_id == build_id
}

/// Whether a file with the second build ID is the one that the first belongs
/// to.
fn check_build_id(build_id: &Option<Vec<u8>>, file_build_id: &Option<Vec<u8>>) -> (r: bool)
    ensures
        r == build_id_matches(opt_bytes(*build_id), opt_bytes(*file_build_id)),
{
    match (build_id, file_build_id) {
        (None, _) => true,
        (Some(build_id), Some(file_build_id)) => same_bytes(
            build_id.as_slice(),
            file_build_id.as_slice(),
        ),
        (Some(_), None) => false,
    }
}

/// Whether the end of a section is an address.
fn check_section_fits(section: &Option<Section>) -> (r: bool)
    ensures
        r == section_fits(*section),
{
    match section {
        Some(section) => section.address.checked_add(section.size).is_some(),
        None => true,
    }
}

/// The addresses of a section as stated in the file.
fn section_svma_range(section: &Option<Section>) -> (r: Option<AddressRange>)
    requires
        section_fits(*section),
    ensures
        r == svma_range(*section),
{
    match section {
        Some(section) => Some(
            AddressRange { start: section.address, end: section.address + section.size },
        ),
        None => None,
    }
}

impl ModuleFacts {
    /// Whether all of the file's parts end at an address.
    pub fn check_fits(&self, base_avma: u64) -> (r: bool)
        ensures
            r == self@.fits(base_avma),
    {
        let text_fits = match &self.text_source {
            Some(source) => match base_avma.checked_add(source.range.start) {
                Some(start) => start.checked_add(source.range.size).is_some(),
                None => false,
            },
            None => true,
        };
        text_fits && check_section_fits(&self.text) && check_section_fits(&self.text_env)
            && check_section_fits(&self.eh_frame) && check_section_fits(&self.eh_frame_hdr)
            && check_section_fits(&self.got)
    }

    /// Whether the file is the one that a build ID belongs to.
    pub fn verify_build_id(&self, build_id: &Option<Vec<u8>>) -> (r: bool)
        ensures
            r == self@.is_file_for(opt_bytes(*build_id)),
    {
        check_build_id(build_id, &self.build_id)
    }

    /// What the unwinder is to know of a file.
    pub fn into_unwind_module(
        self,
        module: &UserModule,
        path: &str,
        base_avma: u64,
        base_svma: u64,
    ) -> (r: UnwindModule)
        requires
            self@.fits(base_avma),
            module.mapping_start_avma + module.mapping_size <= u64::MAX,
        ensures
            r@ == self@.unwind_module(module@, path@, base_avma, base_svma),
    {
        let unwind_data = match (self.eh_frame_data, self.eh_frame_hdr_data) {
            (Some(eh_frame), Some(eh_frame_hdr)) => UnwindData::EhFrameHdrAndEhFrame {
                eh_frame_hdr,
                eh_frame,
            },
            (Some(eh_frame), None) => UnwindData::EhFrame { eh_frame },
            (None, _) => UnwindData::Nothing,
        };
        let text_data = match self.text_source {
            Some(source) => {
                let start: u64 = base_avma + source.range.start;
                let end: u64 = start + source.range.size;
                match source.data {
                    Some(data) => Some(TextBytes { data, range: AddressRange { start, end } }),
                    None => None,
                }
            },
            None => None,
        };
        UnwindModule {
            path: path.to_owned(),
            avma_range: AddressRange {
                start: module.mapping_start_avma,
                end: module.mapping_start_avma + module.mapping_size,
            },
            base_avma,
            base_svma,
            text: section_svma_range(&self.text),
            text_env: section_svma_range(&self.text_env),
            eh_frame: section_svma_range(&self.eh_frame),
            eh_frame_hdr: section_svma_range(&self.eh_frame_hdr),
            got: section_svma_range(&self.got),
            unwind_data,
            text_data,
        }
    }
}

/// The contents of an optional set of facts.
pub open spec fn facts_view(facts: Option<ModuleFacts>) -> Option<ModuleFactsView> {
    match facts {
        Some(facts) => Some(facts@),
        None => None,
    }
}

/// The name of a library: the file name of its path.
pub open spec fn library_name(path: Seq<char>) -> Seq<char> {
    match file_name_of(path) {
        Some(name) => name,
        None => "<unknown>"@,
    }
}

/// The name of a library: the file name of its path.
pub fn get_library_name(path: &str) -> (r: String)
    ensures
        r@ == library_name(path@),
{
    match file_name(path) {
        Some(name) => name.to_owned(),
        None => "<unknown>".to_owned(),
    }
}

/// A difference of addresses, cut down to its lower half.
pub open spec fn relative_address(distance: int) -> u32 {
    (distance % 0x1_0000_0000) as u32
}

/// A difference of addresses, cut down to its lower half.
fn truncated(distance: u64) -> (r: u32)
    ensures
        r == relative_address(distance as int),
{
    assert(distance as u32 == distance % 0x1_0000_0000) by (bit_vector);
    #[verifier::truncate]
    (distance as u32)
}

/// What is known of a mapped file besides its contents.
#[derive(Debug)]
pub struct FileInfo {
    /// The path at which the file was found.
    pub path: String,
    /// Whether it was found as the file of a suspected PE image.
    pub is_pe_image: bool,
    /// The address of the file's base as stated in the file.
    pub base_svma: u64,
    /// The distance between addresses in the process and addresses as stated
    /// in the file, if the mapping is one of a part that has such addresses.
    pub vma_bias: Option<u64>,
    /// The file's debug identifier.
    pub debug_id: Option<DebugId>,
}

/// What became of the attempt to read a mapped file.
#[derive(Debug)]
pub enum ModuleFile<'a> {
    /// There is no such file.
    NotFound,
    /// The file cannot be read.
    Unreadable,
    /// The file and its contents.
    Found { info: FileInfo, data: &'a [u8] },
}

/// What is to be done after a mapped file was added.
#[derive(Debug)]
pub enum ModuleOutcome {
    /// Nothing.
    Done,
    /// The unwinder is to be told about the file.
    AddToUnwinder(UnwindModule),
    /// The file is not added, since parts of it would not have addresses.
    OutOfRange,
    /// The file is not added, since its unwinding information is too large to
    /// be unpacked.
    TooLarge,
    /// The file is not added yet, since its unwinding information may be more
    /// than a decoder copes with. It is to be unpacked and handed to
    /// [`Converter::add_unpacked_module`].
    Unpack,
}

/// The contents of a [`ModuleOutcome`].
pub enum ModuleOutcomeView {
    Done,
    AddToUnwinder(UnwindModuleView),
    OutOfRange,
    TooLarge,
    Unpack,
}

impl View for ModuleOutcome {
    type V = ModuleOutcomeView;

    open spec fn view(&self) -> ModuleOutcomeView {
        match self {
            ModuleOutcome::Done => ModuleOutcomeView::Done,
            ModuleOutcome::AddToUnwinder(module) => ModuleOutcomeView::AddToUnwinder(module@),
            ModuleOutcome::OutOfRange => ModuleOutcomeView::OutOfRange,
            ModuleOutcome::TooLarge => ModuleOutcomeView::TooLarge,
            ModuleOutcome::Unpack => ModuleOutcomeView::Unpack,
        }
    }
}

impl UserModuleView {
    /// The address behind the last mapped byte.
    pub open spec fn end(self) -> u64 {
        (self.mapping_start_avma + self.mapping_size) as u64
    }

    /// The library for a file at the given path.
    pub open spec fn library(
        path: Seq<char>,
        debug_id: LibDebugIdView,
        build_id: Option<Seq<u8>>,
    ) -> LibraryRecordView {
        LibraryRecordView {
            name: library_name(path),
            debug_name: library_name(path),
            path,
            debug_path: path,
            debug_id,
            code_id: code_id_of(build_id),
            has_kernel_symbols: false,
        }
    }
}

impl RecordingView {
    /// The recording after a library was mapped into a live process. A file
    /// that `perf inject --jit` wrote stands for one function.
    pub open spec fn with_library(
        self,
        module: UserModuleView,
        record: LibraryRecordView,
        relative_start: u32,
        jit_symbol: Option<Option<Seq<char>>>,
    ) -> RecordingView {
        let process = self.processes[module.pid].handle;
        let lib = self.entries.len();
        let mapping = LibMapping {
            start: module.mapping_start_avma,
            end: module.end(),
            relative_start,
        };
        self.logged(EntryView::AddLib { record }).logged(
            match jit_symbol {
                Some(symbol_name) => EntryView::AddJitLibMapping {
                    process,
                    time: module.timestamp,
                    symbol_name,
                    lib,
                    mapping,
                },
                None => EntryView::AddLibMapping { process, time: module.timestamp, lib, mapping },
            },
        )
    }
}

impl ConverterView {
    /// The address of a mapped file's base in the process. For the file of a
    /// suspected PE image it is where the image starts, since the mapping may
    /// be an anonymous one.
    pub open spec fn base_avma(self, module: UserModuleView, info: FileInfo) -> Option<u64> {
        let image = image_for_range(
            self.suspected_pe_mappings,
            module.mapping_start_avma,
            module.mapping_size,
        );
        if info.is_pe_image && image is Some {
            Some(image->0.start)
        } else if info.vma_bias is Some {
            Some(info.base_svma.wrapping_add(info.vma_bias->0))
        } else {
            None
        }
    }

    /// Whether a file with the given properties is the mapped one and can be
    /// placed in the process.
    pub open spec fn is_placed(
        self,
        module: UserModuleView,
        info: FileInfo,
        facts: Option<ModuleFactsView>,
    ) -> bool {
        &&& facts is Some
        &&& facts->0.is_file_for(module.build_id)
        &&& self.base_avma(module, info) is Some
    }

    /// Whether all parts of a file have addresses, and the mapping does not
    /// start before the base of a file that goes into the profile.
    pub open spec fn has_addresses(
        self,
        module: UserModuleView,
        info: FileInfo,
        facts: ModuleFactsView,
    ) -> bool {
        let base_avma = self.base_avma(module, info)->0;
        facts.fits(base_avma) && (info.debug_id is Some ==> base_avma <= module.mapping_start_avma)
    }

    /// What is to be done after a file was added.
    pub open spec fn module_outcome(
        self,
        module: UserModuleView,
        info: FileInfo,
        facts: Option<ModuleFactsView>,
    ) -> ModuleOutcomeView {
        if !self.is_placed(module, info, facts) {
            ModuleOutcomeView::Done
        } else if !self.has_addresses(module, info, facts->0) {
            ModuleOutcomeView::OutOfRange
        } else {
            ModuleOutcomeView::AddToUnwinder(
                facts->0.unwind_module(
                    module,
                    info.path@,
                    self.base_avma(module, info)->0,
                    info.base_svma,
                ),
            )
        }
    }

    /// Whether the unwinding information of a file would be needed, and is not
    /// unpacked.
    pub open spec fn is_left_packed(
        self,
        module: UserModuleView,
        info: FileInfo,
        data: Seq<u8>,
    ) -> bool {
        self.is_placed(module, info, module_layout(data)) && (unwinding_too_large(data)
            || unwinding_unbounded(data))
    }

    /// Whether this is what is to be done after a file with the given contents
    /// was added. The contents determine it, but for what [`Unpacked`] leaves
    /// open of the unwinding information.
    ///
    /// [`Unpacked`]: crate::object_file::Unpacked
    pub open spec fn is_file_outcome(
        self,
        module: UserModuleView,
        info: FileInfo,
        data: Seq<u8>,
        outcome: ModuleOutcomeView,
    ) -> bool {
        if !self.is_placed(module, info, module_layout(data)) {
            outcome is Done
        } else if unwinding_too_large(data) {
            outcome is TooLarge
        } else if unwinding_unbounded(data) {
            outcome is Unpack
        } else {
            exists|facts: ModuleFactsView| #[trigger]
                are_module_facts(data, facts) && outcome == self.module_outcome(
                    module,
                    info,
                    Some(facts),
                )
        }
    }

    /// The state after a file with the given contents was added to a process. A
    /// file whose unwinding information is not unpacked is not added.
    pub open spec fn with_file(
        self,
        module: UserModuleView,
        info: FileInfo,
        data: Seq<u8>,
    ) -> ConverterView {
        self.with_module(
            module,
            info,
            if self.is_left_packed(module, info, data) {
                None
            } else {
                module_layout(data)
            },
            first_code_symbol(object_symbols(data)),
        )
    }

    /// The state after a file was added to a process. It goes into the profile
    /// if it has a debug identifier.
    pub open spec fn with_module(
        self,
        module: UserModuleView,
        info: FileInfo,
        facts: Option<ModuleFactsView>,
        jit_symbol: Option<Seq<char>>,
    ) -> ConverterView {
        let live = self.recording.with_live_process(module.pid);
        ConverterView {
            recording: if self.is_placed(module, info, facts) && self.has_addresses(
                module,
                info,
                facts->0,
            ) && info.debug_id is Some {
                live.with_library(
                    module,
                    UserModuleView::library(
                        info.path@,
                        LibDebugIdView::Known(info.debug_id->0),
                        facts->0.build_id,
                    ),
                    relative_address(
                        module.mapping_start_avma - self.base_avma(module, info)->0,
                    ),
                    if is_injected_name(library_name(info.path@)) {
                        Some(jit_symbol)
                    } else {
                        None
                    },
                )
            } else {
                live
            },
            ..self
        }
    }

    /// The state after a file that cannot be found was added to a process.
    /// Addresses as stated in the file are taken to be file offsets.
    pub open spec fn with_missing_module(self, module: UserModuleView) -> ConverterView {
        ConverterView {
            recording: self.recording.with_live_process(module.pid).with_library(
                module,
                UserModuleView::library(
                    decode_utf8(module.path),
                    debug_id_of(module.build_id, true),
                    module.build_id,
                ),
                relative_address(module.mapping_start_file_offset as int),
                None,
            ),
            ..self
        }
    }
}

impl Converter {
    /// Adds a library to a live process.
    fn add_library(
        &mut self,
        module: &UserModule,
        path: &str,
        debug_id: LibDebugId,
        build_id: &Option<Vec<u8>>,
        relative_start: u32,
        jit_symbol: Option<Option<String>>,
    )
        requires
            old(self)@.recording.processes.dom().contains(module.pid),
            module.mapping_start_avma + module.mapping_size <= u64::MAX,
        ensures
            final(self)@ == (ConverterView {
                recording: old(self)@.recording.with_library(
                    module@,
                    UserModuleView::library(path@, debug_id@, opt_bytes(*build_id)),
                    relative_start,
                    match jit_symbol {
                        Some(symbol_name) => Some(opt_text(symbol_name)),
                        None => None,
                    },
                ),
                ..old(self)@
            }),
    {
        let process: usize = self.recording.process(module.pid).handle;
        let lib: usize = self.recording.entries.len();
        assert(lib == self.recording@.entries.len());
        let record = LibraryRecord {
            name: get_library_name(path),
            debug_name: get_library_name(path),
            path: path.to_owned(),
            debug_path: path.to_owned(),
            debug_id,
            code_id: code_id_from(build_id),
            has_kernel_symbols: false,
        };
        self.recording.log(ProfileEntry::AddLib { record });
        let mapping = LibMapping {
            start: module.mapping_start_avma,
            end: module.mapping_start_avma + module.mapping_size,
            relative_start,
        };
        let time: u64 = module.timestamp;
        match jit_symbol {
            Some(symbol_name) => {
                self.recording.log(
                    ProfileEntry::AddJitLibMapping { process, time, symbol_name, lib, mapping },
                );
            },
            None => {
                self.recording.log(ProfileEntry::AddLibMapping { process, time, lib, mapping });
            },
        }
    }

    /// The address of a mapped file's base in the process.
    fn find_base_avma(&self, module: &UserModule, info: &FileInfo) -> (r: Option<u64>)
        ensures
            r == self@.base_avma(module@, *info),
    {
        if info.is_pe_image {
            if let Some(mapping) = self.suspected_pe_mappings.find(
                module.mapping_start_avma,
                module.mapping_size,
            ) {
                return Some(mapping.start);
            }
        }
        match info.vma_bias {
            Some(bias) => Some(info.base_svma.wrapping_add(bias)),
            None => None,
        }
    }

    /// Whether a file with the given header is the mapped one and can be placed
    /// in the process.
    pub fn places_file(
        &self,
        module: &UserModule,
        info: &FileInfo,
        header: &Option<ObjectHeader>,
    ) -> (r: bool)
        ensures
            r == (header is Some && build_id_matches(
                module@.build_id,
                header_view(*header)->0.build_id,
            ) && self@.base_avma(module@, *info) is Some),
    {
        match header {
            Some(header) => check_build_id(&module.build_id, &header.build_id)
                && self.find_base_avma(module, info).is_some(),
            None => false,
        }
    }

    /// Adds a file with the given properties to a process. `jit_symbol` is the
    /// name of the file's first function, which matters if `perf inject --jit`
    /// wrote the file.
    pub fn add_module_with_facts(
        &mut self,
        module: &UserModule,
        info: &FileInfo,
        facts: Option<ModuleFacts>,
        jit_symbol: Option<String>,
    ) -> (r: ModuleOutcome)
        requires
            module.mapping_start_avma + module.mapping_size <= u64::MAX,
        ensures
            old(self).wf() ==> final(self).wf(),
            r@ == old(self)@.module_outcome(module@, *info, facts_view(facts)),
            final(self)@ == old(self)@.with_module(
                module@,
                *info,
                facts_view(facts),
                opt_text(jit_symbol),
            ),
    {
        self.recording.ensure_process(module.pid);
        let facts = match facts {
            Some(facts) => facts,
            None => return ModuleOutcome::Done,
        };
        if !facts.verify_build_id(&module.build_id) {
            return ModuleOutcome::Done;
        }
        let base_avma: u64 = match self.find_base_avma(module, info) {
            Some(base_avma) => base_avma,
            None => return ModuleOutcome::Done,
        };
        if !facts.check_fits(base_avma) {
            return ModuleOutcome::OutOfRange;
        }
        if let Some(debug_id) = info.debug_id {
            if base_avma > module.mapping_start_avma {
                return ModuleOutcome::OutOfRange;
            }
            let relative_start: u32 = truncated(module.mapping_start_avma - base_avma);
            let name = get_library_name(info.path.as_str());
            let jit_symbol = if is_injected_jit_name(name.as_str()) {
                Some(jit_symbol)
            } else {
                None
            };
            self.add_library(
                module,
                info.path.as_str(),
                LibDebugId::Known(debug_id),
                &facts.build_id,
                relative_start,
                jit_symbol,
            );
        }
        ModuleOutcome::AddToUnwinder(
            facts.into_unwind_module(module, info.path.as_str(), base_avma, info.base_svma),
        )
    }

    /// Adds a file that cannot be found to a process.
    ///
    /// Without access to the file, some guesses are made. The right base
    /// address cannot be known without the section information which maps
    /// between addresses and file offsets, but often the two are the same.
    pub fn add_missing_module(&mut self, module: &UserModule)
        requires
            valid_utf8(module.path@),
            module.mapping_start_avma + module.mapping_size <= u64::MAX,
            module.mapping_start_file_offset <= module.mapping_start_avma,
        ensures
            old(self).wf() ==> final(self).wf(),
            final(self)@ == old(self)@.with_missing_module(module@),
    {
        self.recording.ensure_process(module.pid);
        let path = decode(module.path.as_slice()).unwrap();
        let base_avma: u64 = module.mapping_start_avma - module.mapping_start_file_offset;
        let relative_start: u32 = truncated(module.mapping_start_avma - base_avma);
        let debug_id = debug_id_from(&module.build_id, true);
        self.add_library(module, path, debug_id, &module.build_id, relative_start, None);
    }

    /// The path of the suspected PE image that a mapping lies in. This is the
    /// file to read where there is none at the mapping's own path.
    pub fn pe_image_path(&self, module: &UserModule) -> (r: Option<&str>)
        ensures
            r is Some == image_for_range(
                self@.suspected_pe_mappings,
                module.mapping_start_avma,
                module.mapping_size,
            ) is Some,
            r is Some ==> r->0@ == image_for_range(
                self@.suspected_pe_mappings,
                module.mapping_start_avma,
                module.mapping_size,
            )->0.path,
    {
        match self.suspected_pe_mappings.find(module.mapping_start_avma, module.mapping_size) {
            Some(mapping) => Some(mapping.path.as_str()),
            None => None,
        }
    }

    /// Adds a mapped file to a process, and gives what the unwinder is to know
    /// of it.
    pub fn add_module_to_process(&mut self, module: &UserModule, file: ModuleFile<'_>) -> (r:
        ModuleOutcome)
        requires
            valid_utf8(module.path@),
            module.mapping_start_avma + module.mapping_size <= u64::MAX,
            file is NotFound ==> module.mapping_start_file_offset <= module.mapping_start_avma,
        ensures
            old(self).wf() ==> final(self).wf(),
            match file {
                ModuleFile::NotFound | ModuleFile::Unreadable => r is Done,
                ModuleFile::Found { info, data } => old(self)@.is_file_outcome(
                    module@,
                    info,
                    data@,
                    r@,
                ),
            },
            final(self)@ == (match file {
                ModuleFile::NotFound => old(self)@.with_missing_module(module@),
                ModuleFile::Unreadable => ConverterView {
                    recording: old(self)@.recording.with_live_process(module.pid),
                    ..old(self)@
                },
                ModuleFile::Found { info, data } => old(self)@.with_file(module@, info, data@),
            }),
    {
        match file {
            ModuleFile::NotFound => {
                self.add_missing_module(module);
                ModuleOutcome::Done
            },
            ModuleFile::Unreadable => {
                self.recording.ensure_process(module.pid);
                ModuleOutcome::Done
            },
            ModuleFile::Found { info, data } => {
                let header = parse_header(data);
                // Verify the build ID and find the base address, before more is read.
                if !self.places_file(module, &info, &header) {
                    self.recording.ensure_process(module.pid);
                    return ModuleOutcome::Done;
                }
                match read_module_facts(data) {
                    Ok(facts) => self.add_read_module(module, &info, data, facts),
                    Err(error) => {
                        self.recording.ensure_process(module.pid);
                        match error {
                            UnpackError::TooLarge => ModuleOutcome::TooLarge,
                            UnpackError::Unbounded => ModuleOutcome::Unpack,
                        }
                    },
                }
            },
        }
    }

    /// Adds a mapped file whose unwinding information was unpacked already to a
    /// process, and gives what the unwinder is to know of it.
    pub fn add_unpacked_module(
        &mut self,
        module: &UserModule,
        info: &FileInfo,
        data: &[u8],
        eh_frame_data: Option<Vec<u8>>,
        eh_frame_hdr_data: Option<Vec<u8>>,
    ) -> (r: ModuleOutcome)
        requires
            module.mapping_start_avma + module.mapping_size <= u64::MAX,
        ensures
            old(self).wf() ==> final(self).wf(),
            r@ == old(self)@.module_outcome(
                module@,
                *info,
                module_facts(data@, opt_bytes(eh_frame_data), opt_bytes(eh_frame_hdr_data)),
            ),
            final(self)@ == old(self)@.with_module(
                module@,
                *info,
                module_facts(data@, opt_bytes(eh_frame_data), opt_bytes(eh_frame_hdr_data)),
                first_code_symbol(object_symbols(data@)),
            ),
    {
        let facts = read_facts_with(data, eh_frame_data, eh_frame_hdr_data);
        self.add_read_module(module, info, data, facts)
    }

    /// Adds a file whose properties were read to a process.
    fn add_read_module(
        &mut self,
        module: &UserModule,
        info: &FileInfo,
        data: &[u8],
        facts: Option<ModuleFacts>,
    ) -> (r: ModuleOutcome)
        requires
            module.mapping_start_avma + module.mapping_size <= u64::MAX,
        ensures
            r@ == old(self)@.module_outcome(module@, *info, facts_view(facts)),
            final(self)@ == old(self)@.with_module(
                module@,
                *info,
                facts_view(facts),
                first_code_symbol(object_symbols(data@)),
            ),
    {
        let name = get_library_name(info.path.as_str());
        let jit_symbol = if is_injected_jit_name(name.as_str()) {
            jit_function_name(data)
        } else {
            None
        };
        self.add_module_with_facts(module, info, facts, jit_symbol)
    }
}

} // verus!
