//! The kernel and its modules.

use crate::converter::{Converter, ConverterView, Settings};
use crate::dso::{DsoKey, DsoKeyView};
use crate::ids::{code_id_from_binary, code_id_of};
use crate::mappings::{KernelModule, KernelModuleView};
use crate::processes::RecordingView;
use crate::profile::{
    opt_bytes, opt_text, EntryView, LibDebugId, LibDebugIdView, LibMapping, LibraryRecord,
    LibraryRecordView, ProfileEntry,
};
use crate::text::{concat, copy_bytes, decode, same_bytes, starts_with};
use vstd::prelude::*;
use vstd::utf8::{decode_utf8, valid_utf8};

verus! {

/// The debug identifier that a build ID gives.
pub open spec fn debug_id_of(build_id: Option<Seq<u8>>, little_endian: bool) -> LibDebugIdView {
    match build_id {
        Some(build_id) => LibDebugIdView::FromBuildId { build_id, little_endian },
        None => LibDebugIdView::Nil,
    }
}

/// The debug identifier that a build ID gives.
pub fn debug_id_from(build_id: &Option<Vec<u8>>, little_endian: bool) -> (r: LibDebugId)
    ensures
        r@ == debug_id_of(opt_bytes(*build_id), little_endian),
{
    match build_id {
        Some(build_id) => LibDebugId::FromBuildId {
            build_id: copy_bytes(build_id.as_slice()),
            little_endian,
        },
        None => LibDebugId::Nil,
    }
}

/// The code identifier that a build ID gives.
pub fn code_id_from(build_id: &Option<Vec<u8>>) -> (r: Option<String>)
    ensures
        opt_text(r) == code_id_of(opt_bytes(*build_id)),
{
    match build_id {
        Some(build_id) => Some(code_id_from_binary(build_id.as_slice())),
        None => None,
    }
}

impl Settings {
    /// Whether a mapping is that of the running kernel.
    pub open spec fn is_running_kernel(self, module: KernelModuleView) -> bool {
        self.kernel_symbols is Some && self.kernel_symbols->0.base_avma == module.base_address
    }

    /// The build ID of a part of the kernel: the one that the recording has,
    /// else that of the running kernel if this is where it is mapped, else the
    /// one in the module's file.
    pub open spec fn kernel_build_id(
        self,
        module: KernelModuleView,
        file_build_id: Option<Seq<u8>>,
    ) -> Option<Seq<u8>> {
        if module.build_id is Some {
            module.build_id
        } else if self.is_running_kernel(module) {
            Some(self.kernel_symbols->0.build_id@)
        } else {
            file_build_id
        }
    }

    /// The path of the debug file of a part of the kernel. For the kernel
    /// itself it is a guess, from the kernel's version.
    pub open spec fn kernel_debug_path(self, path: Seq<char>) -> Seq<char> {
        if self.linux_version is Some && "[kernel.kallsyms]"@.is_prefix_of(path) {
            "/usr/lib/debug/boot/vmlinux-"@ + self.linux_version->0@
        } else {
            path
        }
    }

    /// Whether the symbols of the running kernel are those of a part of the
    /// kernel with the given build ID.
    pub open spec fn has_kernel_symbols(self, key: DsoKeyView, build_id: Option<Seq<u8>>) -> bool {
        &&& key is Kernel
        &&& build_id is Some
        &&& self.kernel_symbols is Some
        &&& build_id->0 == self.kernel_symbols->0.build_id@
        &&& self.kernel_symbols->0.base_avma != 0
    }

    /// The library for a part of the kernel.
    pub open spec fn kernel_library(
        self,
        module: KernelModuleView,
        file_build_id: Option<Seq<u8>>,
    ) -> LibraryRecordView {
        let build_id = self.kernel_build_id(module, file_build_id);
        LibraryRecordView {
            name: module.dso_key.name(),
            debug_name: module.dso_key.name(),
            path: decode_utf8(module.path),
            debug_path: self.kernel_debug_path(decode_utf8(module.path)),
            debug_id: debug_id_of(build_id, self.little_endian),
            code_id: code_id_of(build_id),
            has_kernel_symbols: self.has_kernel_symbols(module.dso_key, build_id),
        }
    }
}

impl RecordingView {
    /// The recording after a library was added to the kernel.
    pub open spec fn with_kernel_library(
        self,
        record: LibraryRecordView,
        start: u64,
        len: u64,
    ) -> RecordingView {
        self.logged(EntryView::AddLib { record }).logged(
            EntryView::AddKernelLibMapping {
                lib: self.entries.len(),
                mapping: LibMapping { start, end: (start + len) as u64, relative_start: 0 },
            },
        )
    }
}

impl ConverterView {
    /// The state after a part of the kernel was added.
    pub open spec fn with_kernel_module(
        self,
        module: KernelModuleView,
        file_build_id: Option<Seq<u8>>,
    ) -> ConverterView {
        ConverterView {
            recording: self.recording.with_kernel_library(
                self.settings.kernel_library(module, file_build_id),
                module.base_address,
                module.len,
            ),
            ..self
        }
    }
}

impl Settings {
    /// Whether the build ID of a part of the kernel is to be read from its file.
    pub fn wants_module_build_id(&self, module: &KernelModule) -> (r: bool)
        ensures
            r == (module@.build_id is None && !self.is_running_kernel(module@)),
    {
        if module.build_id.is_some() {
            return false;
        }
        match &self.kernel_symbols {
            Some(kernel_symbols) => kernel_symbols.base_avma != module.base_address,
            None => true,
        }
    }

    /// The build ID of a part of the kernel.
    fn find_kernel_build_id(&self, module: &KernelModule, file_build_id: Option<Vec<u8>>) -> (r:
        Option<Vec<u8>>)
        ensures
            opt_bytes(r) == self.kernel_build_id(module@, opt_bytes(file_build_id)),
    {
        match (&module.build_id, &self.kernel_symbols) {
            (Some(build_id), _) => Some(copy_bytes(build_id.as_slice())),
            (None, Some(kernel_symbols)) => {
                if kernel_symbols.base_avma == module.base_address {
                    Some(copy_bytes(kernel_symbols.build_id.as_slice()))
                } else {
                    file_build_id
                }
            },
            (None, None) => file_build_id,
        }
    }

    /// The path of the debug file of a part of the kernel.
    fn find_kernel_debug_path(&self, path: &str) -> (r: String)
        ensures
            r@ == self.kernel_debug_path(path@),
    {
        if let Some(linux_version) = &self.linux_version {
            if starts_with(path, "[kernel.kallsyms]") {
                // Take a guess at the vmlinux debug file path.
                return concat("/usr/lib/debug/boot/vmlinux-", linux_version.as_str());
            }
        }
        path.to_owned()
    }

    /// Whether the symbols of the running kernel are those of a part of the kernel.
    fn find_kernel_symbols(&self, key: &DsoKey, build_id: &Option<Vec<u8>>) -> (r: bool)
        ensures
            r == self.has_kernel_symbols(key@, opt_bytes(*build_id)),
    {
        match (key, build_id, &self.kernel_symbols) {
            (DsoKey::Kernel, Some(build_id), Some(kernel_symbols)) => same_bytes(
                build_id.as_slice(),
                kernel_symbols.build_id.as_slice(),
            ) && kernel_symbols.base_avma != 0,
            _ => false,
        }
    }
}

impl Converter {
    /// Adds a part of the kernel. `file_build_id` is the build ID in the
    /// module's file, which matters where [`Settings::wants_module_build_id`]
    /// says so.
    pub fn add_kernel_module(&mut self, module: &KernelModule, file_build_id: Option<Vec<u8>>)
        requires
            valid_utf8(module.path@),
            module.base_address + module.len <= u64::MAX,
        ensures
            old(self).wf() ==> final(self).wf(),
            final(self)@ == old(self)@.with_kernel_module(module@, opt_bytes(file_build_id)),
    {
        let path = decode(module.path.as_slice()).unwrap();
        let build_id = self.settings.find_kernel_build_id(module, file_build_id);
        let record = LibraryRecord {
            name: module.dso_key.name().to_owned(),
            debug_name: module.dso_key.name().to_owned(),
            path: path.to_owned(),
            debug_path: self.settings.find_kernel_debug_path(path),
            debug_id: debug_id_from(&build_id, self.settings.little_endian),
            code_id: code_id_from(&build_id),
            has_kernel_symbols: self.settings.find_kernel_symbols(&module.dso_key, &build_id),
        };
        let lib: usize = self.recording.entries.len();
        assert(lib == self.recording@.entries.len());
        self.recording.log(ProfileEntry::AddLib { record });
        self.recording.log(
            ProfileEntry::AddKernelLibMapping {
                lib,
                mapping: LibMapping {
                    start: module.base_address,
                    end: module.base_address + module.len,
                    relative_start: 0,
                },
            },
        );
    }
}

} // verus!
