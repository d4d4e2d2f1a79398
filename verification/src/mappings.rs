//! Mappings of files into the memory of processes.
//!
//! A mapping is either of no interest, or a file of which the profile is to
//! know. What is then asked for is a [`KernelModule`] or a [`UserModule`].

use crate::converter::{Converter, ConverterView, Settings};
use crate::dso::{detected_key, DsoInfo, DsoKey, DsoKeyView};
use crate::jit::{get_path_if_jitdump, jitdump_path};
use crate::object_file::{get_pe_mapping_size, pe_mapping_size};
use crate::pe_mappings::{PeMappingView, SuspectedPeMapping};
use crate::profile::{copy_opt_text, opt_bytes, opt_text, EntryView, ProfileEntry};
use crate::stack::CpuMode;
use crate::text::{bytes_end_with, copy_bytes, decode};
use vstd::prelude::*;
use vstd::utf8::{decode_utf8, valid_utf8};

verus! {

/// The bit of executable mappings in [`Mmap2Record::protection`].
pub const PROT_EXEC: u32 = 0b100;

/// A mapping.
#[derive(Debug)]
pub struct MmapRecord {
    /// The process, -1 for the kernel.
    pub pid: i32,
    pub address: u64,
    pub length: u64,
    /// The offset in the file of the first mapped byte.
    pub page_offset: u64,
    pub is_executable: bool,
    pub cpu_mode: CpuMode,
    pub path: Vec<u8>,
}

/// How a mapped file is identified.
#[derive(Debug)]
pub enum Mmap2FileId {
    BuildId(Vec<u8>),
    InodeAndVersion,
}

/// A mapping, with its protection and the identity of its file.
#[derive(Debug)]
pub struct Mmap2Record {
    pub pid: i32,
    pub address: u64,
    pub length: u64,
    /// The offset in the file of the first mapped byte.
    pub page_offset: u64,
    pub protection: u32,
    pub cpu_mode: CpuMode,
    pub file_id: Mmap2FileId,
    pub path: Vec<u8>,
}

/// A mapped part of the kernel.
#[derive(Debug)]
pub struct KernelModule {
    pub dso_key: DsoKey,
    pub base_address: u64,
    pub len: u64,
    pub build_id: Option<Vec<u8>>,
    pub path: Vec<u8>,
}

/// The contents of a [`KernelModule`].
pub struct KernelModuleView {
    pub dso_key: DsoKeyView,
    pub base_address: u64,
    pub len: u64,
    pub build_id: Option<Seq<u8>>,
    pub path: Seq<u8>,
}

impl View for KernelModule {
    type V = KernelModuleView;

    open spec fn view(&self) -> KernelModuleView {
        KernelModuleView {
            dso_key: self.dso_key@,
            base_address: self.base_address,
            len: self.len,
            build_id: opt_bytes(self.build_id),
            path: self.path@,
        }
    }
}

/// A file that is mapped into a process.
#[derive(Debug)]
pub struct UserModule {
    pub pid: i32,
    pub path: Vec<u8>,
    /// The offset in the file of the first mapped byte.
    pub mapping_start_file_offset: u64,
    /// The address of the first mapped byte.
    pub mapping_start_avma: u64,
    pub mapping_size: u64,
    pub build_id: Option<Vec<u8>>,
    pub timestamp: u64,
}

/// The contents of a [`UserModule`].
pub struct UserModuleView {
    pub pid: i32,
    pub path: Seq<u8>,
    pub mapping_start_file_offset: u64,
    pub mapping_start_avma: u64,
    pub mapping_size: u64,
    pub build_id: Option<Seq<u8>>,
    pub timestamp: u64,
}

impl View for UserModule {
    type V = UserModuleView;

    open spec fn view(&self) -> UserModuleView {
        UserModuleView {
            pid: self.pid,
            path: self.path@,
            mapping_start_file_offset: self.mapping_start_file_offset,
            mapping_start_avma: self.mapping_start_avma,
            mapping_size: self.mapping_size,
            build_id: opt_bytes(self.build_id),
            timestamp: self.timestamp,
        }
    }
}

/// What is to be done about a mapping.
#[derive(Debug)]
pub enum MmapOutcome {
    /// Nothing more.
    Done,
    /// A part of the kernel is to be added.
    AddKernelModule(KernelModule),
    /// A file is to be added to a process.
    AddUserModule(UserModule),
}

/// The contents of an [`MmapOutcome`].
pub enum MmapOutcomeView {
    Done,
    AddKernelModule(KernelModuleView),
    AddUserModule(UserModuleView),
}

impl View for MmapOutcome {
    type V = MmapOutcomeView;

    open spec fn view(&self) -> MmapOutcomeView {
        match self {
            MmapOutcome::Done => MmapOutcomeView::Done,
            MmapOutcome::AddKernelModule(module) => MmapOutcomeView::AddKernelModule(module@),
            MmapOutcome::AddUserModule(module) => MmapOutcomeView::AddUserModule(module@),
        }
    }
}

/// Whether a path has the extension of a PE file.
pub open spec fn has_pe_extension(path: Seq<u8>) -> bool {
    ||| seq![0x2eu8, 0x65, 0x78, 0x65].is_suffix_of(path)  // .exe
    ||| seq![0x2eu8, 0x64, 0x6c, 0x6c].is_suffix_of(path)  // .dll
    ||| seq![0x2eu8, 0x45, 0x58, 0x45].is_suffix_of(path)  // .EXE
    ||| seq![0x2eu8, 0x44, 0x4c, 0x4c].is_suffix_of(path)  // .DLL
}

/// Whether a path has the extension of a PE file.
pub fn filename_is_pe(path: &[u8]) -> (r: bool)
    ensures
        r == has_pe_extension(path@),
{
    let exe: [u8; 4] = [0x2e, 0x65, 0x78, 0x65];
    let dll: [u8; 4] = [0x2e, 0x64, 0x6c, 0x6c];
    let exe_upper: [u8; 4] = [0x2e, 0x45, 0x58, 0x45];
    let dll_upper: [u8; 4] = [0x2e, 0x44, 0x4c, 0x4c];
    assert(exe@ =~= seq![0x2eu8, 0x65, 0x78, 0x65]);
    assert(dll@ =~= seq![0x2eu8, 0x64, 0x6c, 0x6c]);
    assert(exe_upper@ =~= seq![0x2eu8, 0x45, 0x58, 0x45]);
    assert(dll_upper@ =~= seq![0x2eu8, 0x44, 0x4c, 0x4c]);
    bytes_end_with(path, exe.as_slice()) || bytes_end_with(path, dll.as_slice()) || bytes_end_with(
        path,
        exe_upper.as_slice(),
    ) || bytes_end_with(path, dll_upper.as_slice())
}

impl ConverterView {
    /// The state after a JITDUMP file was mapped.
    pub open spec fn with_jitdump_path(self, pid: i32, path: Seq<char>) -> ConverterView {
        let live = self.recording.with_live_process(pid);
        ConverterView {
            recording: live.logged(
                EntryView::AddJitdumpPath {
                    process: live.processes[pid].handle,
                    path,
                    lookup_dir: opt_text(self.settings.extra_binary_artifact_dir),
                },
            ),
            ..self
        }
    }

    /// The state after the first page of a file was mapped, for a file with
    /// the given size as an image.
    pub open spec fn with_pe_image(
        self,
        path: Seq<u8>,
        mapping_start_avma: u64,
        image_size: Option<u64>,
    ) -> ConverterView {
        if has_pe_extension(path) && valid_utf8(path) && image_size is Some {
            ConverterView {
                suspected_pe_mappings: self.suspected_pe_mappings.insert(
                    mapping_start_avma,
                    PeMappingView {
                        path: decode_utf8(path),
                        start: mapping_start_avma,
                        size: image_size->0,
                    },
                ),
                ..self
            }
        } else {
            self
        }
    }

    /// The state after a mapping. `image` holds the contents of the mapped
    /// file where it can be read.
    pub open spec fn after_mapping(
        self,
        pid: i32,
        path: Seq<u8>,
        page_offset: u64,
        address: u64,
        image: Option<Seq<u8>>,
    ) -> ConverterView {
        match jitdump_path(path) {
            Some(path) => self.with_jitdump_path(pid, path),
            None => if page_offset == 0 {
                self.with_pe_image(
                    path,
                    address,
                    match image {
                        Some(image) => pe_mapping_size(image),
                        None => None,
                    },
                )
            } else {
                self
            },
        }
    }
}

/// The contents of an optional byte slice.
pub open spec fn opt_slice(b: Option<&[u8]>) -> Option<Seq<u8>> {
    match b {
        Some(b) => Some(b@),
        None => None,
    }
}

/// Whether the contents of a mapped file decide about the mapping: they do for
/// the first page of what has the extension of a PE file.
pub fn wants_pe_image(path: &[u8], page_offset: u64) -> (r: bool)
    ensures
        r == (jitdump_path(path@) is None && page_offset == 0 && has_pe_extension(path@)
            && valid_utf8(path@)),
{
    page_offset == 0 && filename_is_pe(path) && get_path_if_jitdump(path).is_none() && decode(
        path,
    ).is_some()
}

impl Converter {
    /// Remembers that a file was mapped which is a PE image of the given size.
    pub fn remember_pe_image(
        &mut self,
        path_slice: &[u8],
        mapping_start_avma: u64,
        image_size: Option<u64>,
    )
        ensures
            old(self).wf() ==> final(self).wf(),
            final(self)@ == old(self)@.with_pe_image(path_slice@, mapping_start_avma, image_size),
    {
        if !filename_is_pe(path_slice) {
            return;
        }
        if let (Some(path), Some(size)) = (decode(path_slice), image_size) {
            self.suspected_pe_mappings.insert(
                SuspectedPeMapping { path: path.to_owned(), start: mapping_start_avma, size },
            );
        }
    }

    /// Remembers a mapping of the first page of a PE image, so that mappings
    /// of its other parts can be matched with the file. `image` holds the
    /// contents of the file where it can be read.
    pub fn check_for_pe_mapping(
        &mut self,
        path_slice: &[u8],
        mapping_start_avma: u64,
        image: Option<&[u8]>,
    )
        ensures
            old(self).wf() ==> final(self).wf(),
            final(self)@ == old(self)@.with_pe_image(
                path_slice@,
                mapping_start_avma,
                match image {
                    Some(image) => pe_mapping_size(image@),
                    None => None,
                },
            ),
    {
        // Do a quick extension check first, to avoid parsing every mapped file.
        if !filename_is_pe(path_slice) {
            return;
        }
        let image_size: Option<u64> = match image {
            Some(image) => get_pe_mapping_size(image),
            None => None,
        };
        self.remember_pe_image(path_slice, mapping_start_avma, image_size);
    }

    /// Handles what all mappings have in common. Says whether more is to be
    /// done about the mapping.
    fn handle_mapping(
        &mut self,
        pid: i32,
        path: &[u8],
        page_offset: u64,
        address: u64,
        image: Option<&[u8]>,
    ) -> (r: bool)
        ensures
            old(self).wf() ==> final(self).wf(),
            r == jitdump_path(path@) is None,
            final(self)@ == old(self)@.after_mapping(
                pid,
                path@,
                page_offset,
                address,
                opt_slice(image),
            ),
    {
        if let Some(jitdump_path) = get_path_if_jitdump(path) {
            let process: usize = self.recording.ensure_process(pid);
            let lookup_dir = copy_opt_text(&self.settings.extra_binary_artifact_dir);
            self.recording.log(
                ProfileEntry::AddJitdumpPath { process, path: jitdump_path.to_owned(), lookup_dir },
            );
            return false;
        }
        if page_offset == 0 {
            self.check_for_pe_mapping(path, address, image);
        }
        true
    }
}

impl Settings {
    /// The path and the build ID that the recording has for a key.
    pub open spec fn dso_info(self, key: DsoKeyView) -> Option<DsoInfo> {
        if self.build_ids@.dom().contains(key) {
            Some(self.build_ids@[key])
        } else {
            None
        }
    }

    /// What is to be done about an executable mapping of a file with the given
    /// key. Where the recording has a path and a build ID for the file, they
    /// are the ones to use.
    pub open spec fn mmap_outcome(
        self,
        e: MmapRecord,
        key: Option<DsoKeyView>,
        timestamp: u64,
    ) -> MmapOutcomeView {
        if !e.is_executable || key is None {
            MmapOutcomeView::Done
        } else {
            let info = self.dso_info(key->0);
            let build_id = match info {
                Some(info) => Some(info.build_id@),
                None => None,
            };
            let path = match info {
                Some(info) => info.path@,
                None => e.path@,
            };
            if e.pid == -1 {
                MmapOutcomeView::AddKernelModule(
                    KernelModuleView {
                        dso_key: key->0,
                        base_address: e.address,
                        len: e.length,
                        build_id,
                        path,
                    },
                )
            } else {
                MmapOutcomeView::AddUserModule(
                    UserModuleView {
                        pid: e.pid,
                        path,
                        mapping_start_file_offset: e.page_offset,
                        mapping_start_avma: e.address,
                        mapping_size: e.length,
                        build_id,
                        timestamp,
                    },
                )
            }
        }
    }

    /// What is to be done about an executable mapping of a file with the given
    /// key, which does not matter where the record has a build ID.
    pub open spec fn mmap2_outcome(
        self,
        e: Mmap2Record,
        key: Option<DsoKeyView>,
        timestamp: u64,
    ) -> MmapOutcomeView {
        if e.protection & PROT_EXEC == 0 || (e.file_id is InodeAndVersion && key is None) {
            MmapOutcomeView::Done
        } else {
            MmapOutcomeView::AddUserModule(
                UserModuleView {
                    pid: e.pid,
                    path: e.path@,
                    mapping_start_file_offset: e.page_offset,
                    mapping_start_avma: e.address,
                    mapping_size: e.length,
                    build_id: match e.file_id {
                        Mmap2FileId::BuildId(build_id) => Some(build_id@),
                        Mmap2FileId::InodeAndVersion => match self.dso_info(key->0) {
                            Some(info) => Some(info.build_id@),
                            None => None,
                        },
                    },
                    timestamp,
                },
            )
        }
    }

    /// Decides what is to be done about a mapping of a file with the given key.
    pub fn mmap_module(&self, e: &MmapRecord, key: Option<DsoKey>, timestamp: u64) -> (r:
        MmapOutcome)
        ensures
            r@ == self.mmap_outcome(*e, key_view(key), timestamp),
    {
        if !e.is_executable {
            return MmapOutcome::Done;
        }
        let dso_key = match key {
            Some(dso_key) => dso_key,
            None => return MmapOutcome::Done,
        };
        let mut build_id: Option<Vec<u8>> = None;
        let mut path = copy_bytes(e.path.as_slice());
        if let Some(dso_info) = self.build_ids.get(&dso_key) {
            build_id = Some(copy_bytes(dso_info.build_id.as_slice()));
            // Overwrite the path from the mmap record with the path from the build ID info.
            // These paths are usually the same, but in some cases the path from the build
            // ID info can be "better". For example, the synthesized mmap event for the
            // kernel vmlinux image usually has "[kernel.kallsyms]_text" whereas the build
            // ID info might have the full path to a kernel debug file.
            path = copy_bytes(dso_info.path.as_slice());
        }
        if e.pid == -1 {
            MmapOutcome::AddKernelModule(
                KernelModule {
                    dso_key,
                    base_address: e.address,
                    len: e.length,
                    build_id,
                    path,
                },
            )
        } else {
            MmapOutcome::AddUserModule(
                UserModule {
                    pid: e.pid,
                    path,
                    mapping_start_file_offset: e.page_offset,
                    mapping_start_avma: e.address,
                    mapping_size: e.length,
                    build_id,
                    timestamp,
                },
            )
        }
    }

    /// Decides what is to be done about a mapping of a file with the given key.
    pub fn mmap2_module(&self, e: &Mmap2Record, key: Option<DsoKey>, timestamp: u64) -> (r:
        MmapOutcome)
        ensures
            r@ == self.mmap2_outcome(*e, key_view(key), timestamp),
    {
        if e.protection & PROT_EXEC == 0 {
            // Ignore non-executable mappings.
            return MmapOutcome::Done;
        }
        let build_id: Option<Vec<u8>> = match (&e.file_id, key) {
            (Mmap2FileId::BuildId(build_id), _) => Some(copy_bytes(build_id.as_slice())),
            (Mmap2FileId::InodeAndVersion, None) => return MmapOutcome::Done,
            (Mmap2FileId::InodeAndVersion, Some(dso_key)) => match self.build_ids.get(&dso_key) {
                Some(dso_info) => Some(copy_bytes(dso_info.build_id.as_slice())),
                None => None,
            },
        };
        MmapOutcome::AddUserModule(
            UserModule {
                pid: e.pid,
                path: copy_bytes(e.path.as_slice()),
                mapping_start_file_offset: e.page_offset,
                mapping_start_avma: e.address,
                mapping_size: e.length,
                build_id,
                timestamp,
            },
        )
    }
}

/// The contents of an optional key.
pub open spec fn key_view(key: Option<DsoKey>) -> Option<DsoKeyView> {
    match key {
        Some(key) => Some(key@),
        None => None,
    }
}

impl Converter {
    /// Handles an MMAP record. `image` holds the contents of the mapped file,
    /// which matters where [`wants_pe_image`] says so. Gives what is to be
    /// done next.
    pub fn handle_mmap(&mut self, e: &MmapRecord, timestamp: u64, image: Option<&[u8]>) -> (r:
        MmapOutcome)
        ensures
            old(self).wf() ==> final(self).wf(),
            final(self)@ == old(self)@.after_mapping(
                e.pid,
                e.path@,
                e.page_offset,
                e.address,
                opt_slice(image),
            ),
            r@ == (if jitdump_path(e.path@) is Some {
                MmapOutcomeView::Done
            } else {
                old(self).settings.mmap_outcome(*e, detected_key(e.path@, e.cpu_mode), timestamp)
            }),
    {
        if !self.handle_mapping(e.pid, e.path.as_slice(), e.page_offset, e.address, image) {
            return MmapOutcome::Done;
        }
        if !e.is_executable {
            return MmapOutcome::Done;
        }
        let key = DsoKey::detect(e.path.as_slice(), e.cpu_mode);
        self.settings.mmap_module(e, key, timestamp)
    }

    /// Handles an MMAP2 record. `image` holds the contents of the mapped file,
    /// which matters where [`wants_pe_image`] says so. Gives what is to be
    /// done next.
    pub fn handle_mmap2(&mut self, e: &Mmap2Record, timestamp: u64, image: Option<&[u8]>) -> (r:
        MmapOutcome)
        ensures
            old(self).wf() ==> final(self).wf(),
            final(self)@ == old(self)@.after_mapping(
                e.pid,
                e.path@,
                e.page_offset,
                e.address,
                opt_slice(image),
            ),
            r@ == (if jitdump_path(e.path@) is Some {
                MmapOutcomeView::Done
            } else {
                old(self).settings.mmap2_outcome(*e, detected_key(e.path@, e.cpu_mode), timestamp)
            }),
    {
        if !self.handle_mapping(e.pid, e.path.as_slice(), e.page_offset, e.address, image) {
            return MmapOutcome::Done;
        }
        if e.protection & PROT_EXEC == 0 {
            return MmapOutcome::Done;
        }
        let key = DsoKey::detect(e.path.as_slice(), e.cpu_mode);
        self.settings.mmap2_module(e, key, timestamp)
    }
}

} // verus!
