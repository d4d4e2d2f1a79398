use linux_perf_data::linux_perf_event_reader::CpuMode as PerfMode;
use linux_perf_data::DsoKey as PerfKey;
use samply::dso::{BuildIds, DsoInfo, DsoKey};
use samply::keyed::KeyedList;
use samply::stack::CpuMode;

#[test]
fn keys_and_names_are_those_of_perf() {
    let paths: [&[u8]; 12] = [
        b"[kernel.kallsyms]_text",
        b"[guest.kernel.kallsyms]",
        b"[vdso]",
        b"[vdso32]",
        b"[vdsox32]",
        b"[vsyscall]",
        b"/lib/modules/5.13/kernel/snd-seq-device.ko",
        b"[nvidia]",
        b"/usr/lib/libc.so.6",
        b"//anon",
        b"[stack]",
        b"vmlinux",
    ];
    let modes = [
        (CpuMode::Unknown, PerfMode::Unknown),
        (CpuMode::Kernel, PerfMode::Kernel),
        (CpuMode::User, PerfMode::User),
        (CpuMode::Hypervisor, PerfMode::Hypervisor),
        (CpuMode::GuestKernel, PerfMode::GuestKernel),
        (CpuMode::GuestUser, PerfMode::GuestUser),
    ];
    for path in paths {
        for (mode, perf_mode) in modes {
            let key = DsoKey::detect(path, mode);
            let expected = PerfKey::detect(path, perf_mode);
            assert_eq!(key.is_some(), expected.is_some());
            if let (Some(key), Some(expected)) = (key, expected) {
                assert_eq!(key.name(), expected.name());
            }
        }
    }
}

#[test]
fn user_keys_hold_the_path() {
    match DsoKey::detect(b"/usr/lib/libc.so.6", CpuMode::User) {
        Some(DsoKey::User { file_name, full_path }) => {
            assert_eq!(file_name, "libc.so.6");
            assert_eq!(full_path, b"/usr/lib/libc.so.6");
        }
        other => panic!("unexpected key {other:?}"),
    }
    assert!(matches!(
        DsoKey::detect(b"/lib/a.ko", CpuMode::Kernel),
        Some(DsoKey::KernelModule { name }) if name == "[a]"
    ));
}

fn info(path: &[u8], build_id: &[u8]) -> DsoInfo {
    DsoInfo { path: path.to_vec(), build_id: build_id.to_vec() }
}

#[test]
fn build_ids_are_found_by_the_contents_of_the_key() {
    let mut build_ids: BuildIds = KeyedList::new();
    let key = |path: &[u8]| DsoKey::detect(path, CpuMode::User).unwrap();
    build_ids.insert(key(b"/a/x"), info(b"/a/x", &[1]));
    build_ids.insert(key(b"/b/x"), info(b"/b/x", &[2]));
    build_ids.insert(DsoKey::Kernel, info(b"vmlinux", &[3]));
    assert_eq!(build_ids.get(&key(b"/a/x")).unwrap().build_id, vec![1]);
    assert_eq!(build_ids.get(&key(b"/b/x")).unwrap().build_id, vec![2]);
    assert_eq!(build_ids.get(&DsoKey::Kernel).unwrap().build_id, vec![3]);
    assert!(build_ids.get(&key(b"/c/x")).is_none());
    assert!(build_ids.get(&DsoKey::GuestKernel).is_none());
    build_ids.insert(key(b"/a/x"), info(b"/a/x", &[4]));
    assert_eq!(build_ids.get(&key(b"/a/x")).unwrap().build_id, vec![4]);
}
