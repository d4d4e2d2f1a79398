//! Keys for the mapped binaries of a recording, and the build IDs that the
//! recording knows for them.

use crate::keyed::{Key, KeyedList};
use crate::stack::CpuMode;
use crate::text::{same_bytes, same_text};
use linux_perf_data::linux_perf_event_reader::CpuMode as PerfMode;
use linux_perf_data::DsoKey as PerfKey;
use vstd::prelude::*;

verus! {

/// A canonicalized key for a mapped binary.
#[derive(Debug)]
pub enum DsoKey {
    Kernel,
    GuestKernel,
    Vdso32,
    VdsoX32,
    Vdso64,
    Vsyscall,
    /// A kernel module, by its name without the file extension.
    KernelModule { name: String },
    /// A user-space binary, by its file name and its full path.
    User { file_name: String, full_path: Vec<u8> },
}

/// The contents of a [`DsoKey`].
pub enum DsoKeyView {
    Kernel,
    GuestKernel,
    Vdso32,
    VdsoX32,
    Vdso64,
    Vsyscall,
    KernelModule { name: Seq<char> },
    User { file_name: Seq<char>, full_path: Seq<u8> },
}

impl View for DsoKey {
    type V = DsoKeyView;

    open spec fn view(&self) -> DsoKeyView {
        match self {
            DsoKey::Kernel => DsoKeyView::Kernel,
            DsoKey::GuestKernel => DsoKeyView::GuestKernel,
            DsoKey::Vdso32 => DsoKeyView::Vdso32,
            DsoKey::VdsoX32 => DsoKeyView::VdsoX32,
            DsoKey::Vdso64 => DsoKeyView::Vdso64,
            DsoKey::Vsyscall => DsoKeyView::Vsyscall,
            DsoKey::KernelModule { name } => DsoKeyView::KernelModule { name: name@ },
            DsoKey::User { file_name, full_path } => DsoKeyView::User {
                file_name: file_name@,
                full_path: full_path@,
            },
        }
    }
}

/// The key that `linux_perf_data::DsoKey::detect` gives a path that was mapped
/// in the given processor mode.
pub uninterp spec fn detected_key(path: Seq<u8>, cpu_mode: CpuMode) -> Option<DsoKeyView>;

/// The key of a mapped path, by `linux_perf_data::DsoKey::detect`: `None` for
/// what is no binary, such as an anonymous mapping. The result depends on
/// nothing but the path and the processor mode.
#[verifier::external_body]
fn detect_key(path: &[u8], cpu_mode: CpuMode) -> (r: Option<DsoKey>)
    ensures
        r is Some == detected_key(path@, cpu_mode) is Some,
        r is Some ==> r->0@ == detected_key(path@, cpu_mode)->0,
{
    let mode = match cpu_mode {
        CpuMode::Unknown => PerfMode::Unknown, CpuMode::Kernel => PerfMode::Kernel,
        CpuMode::User => PerfMode::User, CpuMode::Hypervisor => PerfMode::Hypervisor,
        CpuMode::GuestKernel => PerfMode::GuestKernel, CpuMode::GuestUser => PerfMode::GuestUser,
    };
    Some(match PerfKey::detect(path, mode)? {
        PerfKey::Kernel => DsoKey::Kernel, PerfKey::GuestKernel => DsoKey::GuestKernel,
        PerfKey::Vdso32 => DsoKey::Vdso32, PerfKey::VdsoX32 => DsoKey::VdsoX32,
        PerfKey::Vdso64 => DsoKey::Vdso64, PerfKey::Vsyscall => DsoKey::Vsyscall,
        PerfKey::KernelModule { name } => DsoKey::KernelModule { name },
        PerfKey::User { file_name, full_path } => DsoKey::User { file_name, full_path },
    })
}

impl DsoKeyView {
    /// The name of the binary, as a profiler would show it.
    pub open spec fn name(self) -> Seq<char> {
        match self {
            DsoKeyView::Kernel => "[kernel.kallsyms]"@,
            DsoKeyView::GuestKernel => "[guest.kernel.kallsyms]"@,
            DsoKeyView::Vdso32 => "[vdso32]"@,
            DsoKeyView::VdsoX32 => "[vdsox32]"@,
            DsoKeyView::Vdso64 => "[vdso]"@,
            DsoKeyView::Vsyscall => "[vsyscall]"@,
            DsoKeyView::KernelModule { name } => name,
            DsoKeyView::User { file_name, full_path: _ } => file_name,
        }
    }
}

impl DsoKey {
    /// The key for a path that was mapped in the given processor mode.
    pub fn detect(path: &[u8], cpu_mode: CpuMode) -> (r: Option<DsoKey>)
        ensures
            r is Some == detected_key(path@, cpu_mode) is Some,
            r is Some ==> r->0@ == detected_key(path@, cpu_mode)->0,
    {
        detect_key(path, cpu_mode)
    }

    /// The name string for this binary.
    pub fn name(&self) -> (r: &str)
        ensures
            r@ == self@.name(),
    {
        match self {
            DsoKey::Kernel => "[kernel.kallsyms]",
            DsoKey::GuestKernel => "[guest.kernel.kallsyms]",
            DsoKey::Vdso32 => "[vdso32]",
            DsoKey::VdsoX32 => "[vdsox32]",
            DsoKey::Vdso64 => "[vdso]",
            DsoKey::Vsyscall => "[vsyscall]",
            DsoKey::KernelModule { name } => name.as_str(),
            DsoKey::User { file_name, full_path: _ } => file_name.as_str(),
        }
    }
}

impl Key for DsoKey {
    fn same_key(&self, other: &DsoKey) -> (r: bool) {
        match (self, other) {
            (DsoKey::Kernel, DsoKey::Kernel) => true,
            (DsoKey::GuestKernel, DsoKey::GuestKernel) => true,
            (DsoKey::Vdso32, DsoKey::Vdso32) => true,
            (DsoKey::VdsoX32, DsoKey::VdsoX32) => true,
            (DsoKey::Vdso64, DsoKey::Vdso64) => true,
            (DsoKey::Vsyscall, DsoKey::Vsyscall) => true,
            (DsoKey::KernelModule { name: a }, DsoKey::KernelModule { name: b }) => same_text(
                a.as_str(),
                b.as_str(),
            ),
            (
                DsoKey::User { file_name: a, full_path: p },
                DsoKey::User { file_name: b, full_path: q },
            ) => same_text(a.as_str(), b.as_str()) && same_bytes(p.as_slice(), q.as_slice()),
            _ => false,
        }
    }
}

/// The file path and the build ID that a recording has for a binary.
#[derive(Debug)]
pub struct DsoInfo {
    pub path: Vec<u8>,
    pub build_id: Vec<u8>,
}

/// The build IDs of a recording.
pub type BuildIds = KeyedList<DsoKey, DsoInfo>;

} // verus!
