use samply::converter::{Converter, EventInterpretation, KernelSymbols};
use samply::dso::{DsoInfo, DsoKey};
use samply::ids::DebugId;
use samply::jit::{
    bad_perf_jit_fix, correct_bad_perf_jit_so_file, first_text_symbol_name, get_path_if_jitdump,
    is_injected_jit_name, jit_function_name,
};
use samply::kernel_modules::debug_id_from;
use samply::keyed::KeyedList;
use samply::mappings::{
    filename_is_pe, wants_pe_image, KernelModule, Mmap2FileId, Mmap2Record, MmapOutcome, MmapRecord,
    UserModule,
};
use samply::modules::{
    find_text_place, find_text_segment, read_module_facts, ModuleFacts, TextPlace, TextSource,
};
use samply::object_file::{
    get_pe_mapping_size, select_image_size, unpack_section, FileRange, ImageKind, ObjectHeader,
    PackingFormat, Section, SectionPacking, Segment, Symbol, UnpackError,
};
use samply::pe_mappings::{PeMappings, SuspectedPeMapping};
use samply::profile::{LibDebugId, LibMapping, ProfileEntry};
use samply::stack::CpuMode;
use samply::user_modules::{
    AddressRange, FileInfo, ModuleFile, ModuleOutcome, UnwindData, UnwindModule,
};
use samply::zstd::{check_zstd_blocks, read_stated_sequences};

fn put16(out: &mut Vec<u8>, value: u16) {
    out.extend_from_slice(&value.to_le_bytes());
}

fn put32(out: &mut Vec<u8>, value: u32) {
    out.extend_from_slice(&value.to_le_bytes());
}

fn put64(out: &mut Vec<u8>, value: u64) {
    out.extend_from_slice(&value.to_le_bytes());
}

/// A section of a test file: its name, kind, address and data.
struct TestSection {
    name: &'static str,
    kind: u32,
    address: u64,
    data: Vec<u8>,
    link: u32,
    info: u32,
    entsize: u64,
    flags: u64,
}

fn section(name: &'static str, kind: u32, address: u64, data: Vec<u8>) -> TestSection {
    TestSection { name, kind, address, data, link: 0, info: 0, entsize: 0, flags: 2 }
}

/// A little 64 bit ELF file with the given sections, and with one segment at
/// the given file offset and address if there is to be one.
fn elf_file(mut sections: Vec<TestSection>, segment: Option<(u64, u64)>) -> Vec<u8> {
    let mut names = vec![0u8];
    let mut name_offsets = Vec::new();
    sections.push(section(".shstrtab", 3, 0, Vec::new()));
    for s in &sections {
        name_offsets.push(names.len() as u32);
        names.extend_from_slice(s.name.as_bytes());
        names.push(0);
    }
    sections.last_mut().unwrap().data = names;

    let phnum: u16 = if segment.is_some() { 1 } else { 0 };
    let mut body = Vec::new();
    let body_start = 0x40 + 0x38 * phnum as u64;
    let mut offsets = Vec::new();
    for s in &sections {
        while body.len() % 8 != 0 {
            body.push(0);
        }
        offsets.push(body_start + body.len() as u64);
        body.extend_from_slice(&s.data);
    }
    while body.len() % 8 != 0 {
        body.push(0);
    }

    let mut out = vec![0x7f, b'E', b'L', b'F', 2, 1, 1, 0, 0, 0, 0, 0, 0, 0, 0, 0];
    put16(&mut out, 3);
    put16(&mut out, 62);
    put32(&mut out, 1);
    put64(&mut out, 0);
    put64(&mut out, if phnum > 0 { 0x40 } else { 0 });
    put64(&mut out, body_start + body.len() as u64);
    put32(&mut out, 0);
    put16(&mut out, 0x40);
    put16(&mut out, 0x38);
    put16(&mut out, phnum);
    put16(&mut out, 0x40);
    put16(&mut out, sections.len() as u16 + 1);
    put16(&mut out, sections.len() as u16);
    if let Some((offset, address)) = segment {
        put32(&mut out, 1);
        put32(&mut out, 5);
        put64(&mut out, offset);
        put64(&mut out, address);
        put64(&mut out, address);
        put64(&mut out, 0x100);
        put64(&mut out, 0x100);
        put64(&mut out, 0x1000);
    }
    out.extend_from_slice(&body);
    out.extend_from_slice(&[0; 0x40]);
    for (i, s) in sections.iter().enumerate() {
        put32(&mut out, name_offsets[i]);
        put32(&mut out, s.kind);
        put64(&mut out, s.flags);
        put64(&mut out, s.address);
        put64(&mut out, offsets[i]);
        put64(&mut out, s.data.len() as u64);
        put32(&mut out, s.link);
        put32(&mut out, s.info);
        put64(&mut out, 1);
        put64(&mut out, s.entsize);
    }
    out
}

/// A section whose data is compressed in the given format, and which says that
/// it has the given size.
fn packed_section(name: &'static str, format: u32, stated_size: u64, packed: &[u8]) -> TestSection {
    let mut data = Vec::new();
    put32(&mut data, format);
    put32(&mut data, 0);
    put64(&mut data, stated_size);
    put64(&mut data, 1);
    data.extend_from_slice(packed);
    let mut section = section(name, 1, 0x3000, data);
    section.flags = 0x802;
    section
}

/// A Zstandard frame with a window of 1 KiB and the given blocks: their kind
/// and their contents.
fn zstd_frame(blocks: &[(u32, &[u8])]) -> Vec<u8> {
    let mut out = vec![0x28, 0xb5, 0x2f, 0xfd, 0x00, 0x00];
    for (i, (kind, contents)) in blocks.iter().enumerate() {
        let is_last = (i + 1 == blocks.len()) as u32;
        let header = is_last | (kind << 1) | ((contents.len() as u32) << 3);
        out.extend_from_slice(&header.to_le_bytes()[..3]);
        out.extend_from_slice(contents);
    }
    out
}

/// A compressed block that states many sequences, each of which copies as much
/// as a sequence can.
fn large_block() -> Vec<u8> {
    let mut block = vec![0, 0xff];
    put16(&mut block, 32_812 - 0x7f00);
    block.extend_from_slice(&[0x54, 0, 0, 52]);
    block.resize(65_632, 0xff);
    block.push(1);
    block
}

/// A section whose data is a zlib stream with the given contents, which says
/// that it has the given size.
fn zlib_section(name: &'static str, contents: &[u8], stated_size: u64) -> TestSection {
    let mut data = vec![0x78, 0x01, 0x01];
    put16(&mut data, contents.len() as u16);
    put16(&mut data, !(contents.len() as u16));
    data.extend_from_slice(contents);
    let mut a: u32 = 1;
    let mut b: u32 = 0;
    for byte in contents {
        a = (a + *byte as u32) % 65521;
        b = (b + a) % 65521;
    }
    data.extend_from_slice(&((b << 16) | a).to_be_bytes());
    packed_section(name, 1, stated_size, &data)
}

fn build_id_note(build_id: &[u8]) -> TestSection {
    let mut data = Vec::new();
    put32(&mut data, 4);
    put32(&mut data, build_id.len() as u32);
    put32(&mut data, 3);
    data.extend_from_slice(b"GNU\0");
    data.extend_from_slice(build_id);
    section(".note.gnu.build-id", 7, 0, data)
}

/// A symbol table with a data symbol and two functions. It has to be the
/// section with the given number, and the names the one behind it.
fn symbols(number: u32) -> Vec<TestSection> {
    let names = b"\0data\0first\0second\0".to_vec();
    let mut table = vec![0u8; 24];
    for (name, kind, address) in [(1u32, 1u8, 0x10u64), (6, 2, 0x20), (12, 2, 0x30)] {
        put32(&mut table, name);
        table.push(0x10 | kind);
        table.push(0);
        put16(&mut table, 1);
        put64(&mut table, address);
        put64(&mut table, 4);
    }
    let mut symtab = section(".symtab", 2, 0, table);
    symtab.link = number + 1;
    symtab.info = 1;
    symtab.entsize = 24;
    vec![symtab, section(".strtab", 3, 0, names)]
}

/// A little Mach-O file with a `__TEXT` segment of its first 16 bytes.
fn mach_o_file() -> Vec<u8> {
    let mut out = Vec::new();
    for value in [0xfeed_facfu32, 0x0100_0007, 3, 2, 2, 144, 0, 0] {
        put32(&mut out, value);
    }
    for (name, address, offset) in [(&b"__PAGE"[..], 0u64, 8u64), (&b"__TEXT"[..], 0x1000, 0)] {
        put32(&mut out, 0x19);
        put32(&mut out, 72);
        let mut padded = name.to_vec();
        padded.resize(16, 0);
        out.extend_from_slice(&padded);
        put64(&mut out, address);
        put64(&mut out, 0x1000);
        put64(&mut out, offset);
        put64(&mut out, 16);
        for value in [7u32, 5, 0, 0] {
            put32(&mut out, value);
        }
    }
    out
}

/// A little PE file with the given image size.
fn pe_file(is_64: bool, size_of_image: u32) -> Vec<u8> {
    let mut out = vec![b'M', b'Z'];
    out.resize(0x3c, 0);
    put32(&mut out, 0x40);
    out.extend_from_slice(b"PE\0\0");
    put16(&mut out, if is_64 { 0x8664 } else { 0x14c });
    put16(&mut out, 0);
    put32(&mut out, 0);
    put32(&mut out, 0);
    put32(&mut out, 0);
    let optional_size: u16 = if is_64 { 112 } else { 96 };
    put16(&mut out, optional_size);
    put16(&mut out, 0x22);
    let start = out.len();
    put16(&mut out, if is_64 { 0x20b } else { 0x10b });
    out.resize(start + 56, 0);
    put32(&mut out, size_of_image);
    out.resize(start + optional_size as usize, 0);
    out
}

fn converter(kernel_symbols: Option<KernelSymbols>, extra_dir: Option<&str>) -> Converter {
    let mut build_ids = KeyedList::new();
    build_ids.insert(
        DsoKey::Kernel,
        DsoInfo { path: b"/boot/vmlinux".to_vec(), build_id: vec![0xab, 0x01] },
    );
    build_ids.insert(
        DsoKey::detect(b"/usr/lib/liba.so", CpuMode::User).unwrap(),
        DsoInfo { path: b"/better/liba.so".to_vec(), build_id: vec![1, 2, 3] },
    );
    Converter::new(
        "product",
        false,
        build_ids,
        Some("5.13.0"),
        1000,
        false,
        extra_dir,
        EventInterpretation {
            sampling_is_time_based: Some(100),
            have_context_switches: false,
            event_names: vec![],
        },
        kernel_symbols,
        false,
        false,
    )
}

#[test]
fn jitdump_paths() {
    assert_eq!(get_path_if_jitdump(b"/tmp/jit-123.dump"), Some("/tmp/jit-123.dump"));
    assert_eq!(get_path_if_jitdump(b"jit-.dump"), Some("jit-.dump"));
    assert_eq!(get_path_if_jitdump(b"/tmp/jit-123.dump/"), Some("/tmp/jit-123.dump/"));
    assert_eq!(get_path_if_jitdump(b"/jit-1.dump/x"), None);
    assert_eq!(get_path_if_jitdump(b"/tmp/ajit-123.dump"), None);
    assert_eq!(get_path_if_jitdump(b"/tmp/jit-123.dumps"), None);
    assert_eq!(get_path_if_jitdump(&[b'j', b'i', b't', b'-', 0xff]), None);
    assert_eq!(get_path_if_jitdump(b""), None);
    assert_eq!(get_path_if_jitdump(b"/"), None);
}

#[test]
fn first_function_of_a_file() {
    let mut sections = vec![section(".text", 1, 0x20, vec![0x90; 32])];
    sections.append(&mut symbols(2));
    let data = elf_file(sections, None);
    assert_eq!(jit_function_name(&data).as_deref(), Some("first"));
    assert_eq!(jit_function_name(b"no object file"), None);
    let symbol = |is_text, name: Option<&str>| Symbol { is_text, name: name.map(str::to_owned) };
    assert_eq!(
        first_text_symbol_name(&vec![symbol(false, Some("a")), symbol(true, Some("b"))]).as_deref(),
        Some("b")
    );
    // The first function decides, even if its name cannot be read.
    assert_eq!(
        first_text_symbol_name(&vec![symbol(true, None), symbol(true, Some("b"))]),
        None
    );
    assert_eq!(first_text_symbol_name(&vec![symbol(false, Some("a"))]), None);
}

#[test]
fn names_of_injected_files() {
    assert!(is_injected_jit_name("jitted-12-3.so"));
    assert!(!is_injected_jit_name("jitted-12-3.o"));
    assert!(!is_injected_jit_name("ajitted-12-3.so"));
}

#[test]
fn bad_program_headers_are_corrected() {
    // The .text section stands behind the program header, its address does not.
    let text = || vec![section(".text", 1, 0x40, vec![0x90; 32])];
    let bad = elf_file(text(), Some((0, 0)));
    let fix = correct_bad_perf_jit_so_file(&bad, "/tmp/jitted-12-3.so").unwrap();
    assert_eq!(fix.fixed_path, "/tmp/jitted-12-3-fixed.so");
    assert!(fix.is_64);
    // Other files stay as they are.
    assert!(correct_bad_perf_jit_so_file(&bad, "/tmp/jitted-12-3.o").is_none());
    assert!(correct_bad_perf_jit_so_file(&bad, "jitted-12-3.so").is_none());
    let good = elf_file(text(), None);
    assert!(correct_bad_perf_jit_so_file(&good, "/tmp/jitted-12-3.so").is_none());
    let placed = elf_file(vec![section(".text", 1, 0x78, vec![0x90; 32])], Some((0, 0)));
    assert!(correct_bad_perf_jit_so_file(&placed, "/tmp/jitted-12-3.so").is_none());
    let elsewhere = elf_file(text(), Some((0, 0x1000)));
    assert!(correct_bad_perf_jit_so_file(&elsewhere, "/tmp/jitted-12-3.so").is_none());
    let no_text = elf_file(vec![section(".data", 1, 0x40, vec![1])], Some((0, 0)));
    assert!(correct_bad_perf_jit_so_file(&no_text, "/tmp/jitted-12-3.so").is_none());
    assert!(correct_bad_perf_jit_so_file(b"junk", "/tmp/jitted-12-3.so").is_none());
    assert!(correct_bad_perf_jit_so_file(&mach_o_file(), "/tmp/jitted-12-3.so").is_none());
}

#[test]
fn bad_program_headers_by_their_parts() {
    let header = |is_elf| Some(ObjectHeader { is_elf, is_64: false, build_id: None });
    let segment = |address, start| {
        vec![Segment { name: None, address, file_range: FileRange { start, size: 16 } }]
    };
    let text = |start| Some(Section {
        address: 0x40,
        size: 16,
        file_range: Some(FileRange { start, size: 16 }),
    });
    let path = "/a/jitted-1.so";
    let fix = bad_perf_jit_fix(&header(true), &segment(0, 0), text(0x80), path).unwrap();
    assert_eq!(fix.fixed_path, "/a/jitted-1-fixed.so");
    assert!(!fix.is_64);
    assert!(bad_perf_jit_fix(&header(false), &segment(0, 0), text(0x80), path).is_none());
    assert!(bad_perf_jit_fix(&None, &segment(0, 0), text(0x80), path).is_none());
    assert!(bad_perf_jit_fix(&header(true), &segment(1, 0), text(0x80), path).is_none());
    assert!(bad_perf_jit_fix(&header(true), &segment(0, 1), text(0x80), path).is_none());
    assert!(bad_perf_jit_fix(&header(true), &vec![], text(0x80), path).is_none());
    assert!(bad_perf_jit_fix(&header(true), &segment(0, 0), text(0x40), path).is_none());
    assert!(bad_perf_jit_fix(&header(true), &segment(0, 0), None, path).is_none());
    let no_range = Some(Section { address: 0x40, size: 16, file_range: None });
    assert!(bad_perf_jit_fix(&header(true), &segment(0, 0), no_range, path).is_none());
}

#[test]
fn image_sizes_of_pe_files() {
    assert_eq!(get_pe_mapping_size(&pe_file(true, 0x5000)), Some(0x5000));
    assert_eq!(get_pe_mapping_size(&pe_file(false, 0x7000)), Some(0x7000));
    assert_eq!(get_pe_mapping_size(&elf_file(vec![], None)), None);
    assert_eq!(get_pe_mapping_size(b"MZ"), None);
    assert_eq!(select_image_size(Some(ImageKind::Pe32), Some(1), Some(2)), Some(1));
    assert_eq!(select_image_size(Some(ImageKind::Pe64), Some(1), Some(2)), Some(2));
    assert_eq!(select_image_size(Some(ImageKind::Pe64), Some(1), None), None);
    assert_eq!(select_image_size(Some(ImageKind::Other), Some(1), Some(2)), None);
    assert_eq!(select_image_size(None, Some(1), Some(2)), None);
}

#[test]
fn pe_extensions() {
    for path in ["a.exe", "a.dll", "A.EXE", "A.DLL"] {
        assert!(filename_is_pe(path.as_bytes()));
    }
    for path in ["a.Exe", "a.so", "exe", ""] {
        assert!(!filename_is_pe(path.as_bytes()));
    }
    assert!(wants_pe_image(b"/a.exe", 0));
    assert!(!wants_pe_image(b"/a.exe", 0x1000));
    assert!(!wants_pe_image(b"/a.so", 0));
    assert!(!wants_pe_image(&[0xff, b'.', b'e', b'x', b'e'], 0));
}

#[test]
fn images_are_found_by_address() {
    let mut mappings = PeMappings::new();
    let mapping = |path: &str, start, size| SuspectedPeMapping { path: path.to_owned(), start, size };
    mappings.insert(mapping("a", 0x1000, 0x3000));
    mappings.insert(mapping("b", 0x8000, 0x1000));
    mappings.insert(mapping("c", 0x3000, 0x800));
    let find = |address, size| mappings.find(address, size).map(|m| m.path.clone());
    assert_eq!(find(0x1000, 0x3000).as_deref(), Some("a"));
    assert_eq!(find(0x1000, 0x3001), None);
    assert_eq!(find(0x2fff, 1).as_deref(), Some("a"));
    assert_eq!(find(0x3000, 0x800).as_deref(), Some("c"));
    // The last image in front of the range decides.
    assert_eq!(find(0x3900, 1), None);
    assert_eq!(find(0xfff, 1), None);
    assert_eq!(find(0x9000, 0).as_deref(), Some("b"));
    assert_eq!(find(u64::MAX, u64::MAX), None);
    mappings.insert(mapping("d", 0x8000, 0x10));
    assert_eq!(mappings.find(0x8000, 0x10).unwrap().path, "d");
    assert!(mappings.find(0x8000, 0x11).is_none());
}

fn mmap(pid: i32, path: &[u8], is_executable: bool) -> MmapRecord {
    MmapRecord {
        pid,
        address: 0x10_0000,
        length: 0x2000,
        page_offset: 0x1000,
        is_executable,
        cpu_mode: if pid == -1 { CpuMode::Kernel } else { CpuMode::User },
        path: path.to_vec(),
    }
}

fn mmap2(path: &[u8], protection: u32, file_id: Mmap2FileId) -> Mmap2Record {
    Mmap2Record {
        pid: 7,
        address: 0x10_0000,
        length: 0x2000,
        page_offset: 0x1000,
        protection,
        cpu_mode: CpuMode::User,
        file_id,
        path: path.to_vec(),
    }
}

#[test]
fn jitdump_mappings_are_put_down() {
    let mut c = converter(None, Some("/extra"));
    let e = mmap(7, b"/tmp/jit-7.dump", true);
    assert!(matches!(c.handle_mmap(&e, 2000, None), MmapOutcome::Done));
    let e = mmap2(b"/tmp/jit-8.dump", 4, Mmap2FileId::InodeAndVersion);
    assert!(matches!(c.handle_mmap2(&e, 2000, None), MmapOutcome::Done));
    for (index, expected) in [(2, "/tmp/jit-7.dump"), (3, "/tmp/jit-8.dump")] {
        match &c.recording.entries[index] {
            ProfileEntry::AddJitdumpPath { process: 0, path, lookup_dir: Some(dir) } => {
                assert_eq!(path, expected);
                assert_eq!(dir, "/extra");
            }
            other => panic!("unexpected entry {other:?}"),
        }
    }
}

#[test]
fn executable_mappings_are_to_be_added() {
    let mut c = converter(None, None);
    match c.handle_mmap(&mmap(7, b"/usr/lib/liba.so", true), 2000, None) {
        MmapOutcome::AddUserModule(module) => {
            assert_eq!(module.pid, 7);
            assert_eq!(module.path, b"/better/liba.so");
            assert_eq!(module.build_id, Some(vec![1, 2, 3]));
            assert_eq!(module.mapping_start_avma, 0x10_0000);
            assert_eq!(module.mapping_size, 0x2000);
            assert_eq!(module.mapping_start_file_offset, 0x1000);
            assert_eq!(module.timestamp, 2000);
        }
        other => panic!("unexpected outcome {other:?}"),
    }
    match c.handle_mmap(&mmap(7, b"/usr/lib/libb.so", true), 2000, None) {
        MmapOutcome::AddUserModule(module) => {
            assert_eq!(module.path, b"/usr/lib/libb.so");
            assert_eq!(module.build_id, None);
        }
        other => panic!("unexpected outcome {other:?}"),
    }
    match c.handle_mmap(&mmap(-1, b"[kernel.kallsyms]_text", true), 2000, None) {
        MmapOutcome::AddKernelModule(module) => {
            assert!(matches!(module.dso_key, DsoKey::Kernel));
            assert_eq!(module.path, b"/boot/vmlinux");
            assert_eq!(module.build_id, Some(vec![0xab, 0x01]));
            assert_eq!(module.base_address, 0x10_0000);
            assert_eq!(module.len, 0x2000);
        }
        other => panic!("unexpected outcome {other:?}"),
    }
    let e = mmap(7, b"/usr/lib/liba.so", false);
    assert!(matches!(c.handle_mmap(&e, 2000, None), MmapOutcome::Done));
    assert!(matches!(c.handle_mmap(&mmap(7, b"//anon", true), 2000, None), MmapOutcome::Done));
    assert!(c.recording.entries.is_empty());
}

#[test]
fn executable_mappings_with_an_identity() {
    let mut c = converter(None, None);
    match c.handle_mmap2(&mmap2(b"//anon", 5, Mmap2FileId::BuildId(vec![9])), 2000, None) {
        MmapOutcome::AddUserModule(module) => {
            assert_eq!(module.path, b"//anon");
            assert_eq!(module.build_id, Some(vec![9]));
        }
        other => panic!("unexpected outcome {other:?}"),
    }
    let e = mmap2(b"/usr/lib/liba.so", 4, Mmap2FileId::InodeAndVersion);
    match c.handle_mmap2(&e, 2000, None) {
        MmapOutcome::AddUserModule(module) => {
            // The path is that of the record.
            assert_eq!(module.path, b"/usr/lib/liba.so");
            assert_eq!(module.build_id, Some(vec![1, 2, 3]));
        }
        other => panic!("unexpected outcome {other:?}"),
    }
    let e = mmap2(b"/usr/lib/libb.so", 4, Mmap2FileId::InodeAndVersion);
    match c.handle_mmap2(&e, 2000, None) {
        MmapOutcome::AddUserModule(module) => assert_eq!(module.build_id, None),
        other => panic!("unexpected outcome {other:?}"),
    }
    let e = mmap2(b"//anon", 4, Mmap2FileId::InodeAndVersion);
    assert!(matches!(c.handle_mmap2(&e, 2000, None), MmapOutcome::Done));
    let e = mmap2(b"/usr/lib/liba.so", 3, Mmap2FileId::BuildId(vec![9]));
    assert!(matches!(c.handle_mmap2(&e, 2000, None), MmapOutcome::Done));
}

#[test]
fn mapped_pe_headers_are_remembered() {
    let mut c = converter(None, None);
    let image = pe_file(true, 0x5000);
    let mut e = mmap(7, b"/game.exe", false);
    e.address = 0x1_4000_0000;
    // Not the first page.
    c.handle_mmap(&e, 2000, Some(&image));
    assert!(c.suspected_pe_mappings.by_start.is_empty());
    e.page_offset = 0;
    c.handle_mmap(&e, 2000, None);
    assert!(c.suspected_pe_mappings.by_start.is_empty());
    c.handle_mmap(&e, 2000, Some(b"no PE file"));
    assert!(c.suspected_pe_mappings.by_start.is_empty());
    c.handle_mmap(&e, 2000, Some(&image));
    for (start, mapping) in &c.suspected_pe_mappings.by_start {
        assert_eq!(*start, mapping.start);
    }
    let module = user_module(b"//anon", 0x1_4000_1000, 0x4000, 0, None);
    assert_eq!(c.pe_image_path(&module), Some("/game.exe"));
    let module = user_module(b"//anon", 0x1_4000_1000, 0x4001, 0, None);
    assert_eq!(c.pe_image_path(&module), None);
    // Other files are not remembered.
    let mut e = mmap(7, b"/game.so", false);
    e.page_offset = 0;
    c.handle_mmap(&e, 2000, Some(&image));
    assert_eq!(c.suspected_pe_mappings.by_start.len(), 1);
}

fn kernel_module(path: &[u8], base_address: u64, build_id: Option<Vec<u8>>) -> KernelModule {
    KernelModule { dso_key: DsoKey::Kernel, base_address, len: 0x1000, build_id, path: path.to_vec() }
}

fn kernel_symbols(base_avma: u64) -> Option<KernelSymbols> {
    Some(KernelSymbols { base_avma, build_id: vec![0xab, 0x01] })
}

#[test]
fn kernel_is_added_with_its_symbols() {
    let mut c = converter(kernel_symbols(0x8000), None);
    let module = kernel_module(b"[kernel.kallsyms]_text", 0x8000, None);
    assert!(!c.settings.wants_module_build_id(&module));
    c.add_kernel_module(&module, Some(vec![0xff]));
    match &c.recording.entries[0] {
        ProfileEntry::AddLib { record } => {
            assert_eq!(record.name, "[kernel.kallsyms]");
            assert_eq!(record.debug_name, "[kernel.kallsyms]");
            assert_eq!(record.path, "[kernel.kallsyms]_text");
            assert_eq!(record.debug_path, "/usr/lib/debug/boot/vmlinux-5.13.0");
            assert_eq!(record.code_id.as_deref(), Some("ab01"));
            assert!(record.has_kernel_symbols);
            match &record.debug_id {
                LibDebugId::FromBuildId { build_id, little_endian: false } => {
                    assert_eq!(build_id, &vec![0xab, 0x01]);
                }
                other => panic!("unexpected identifier {other:?}"),
            }
        }
        other => panic!("unexpected entry {other:?}"),
    }
    let expected = LibMapping { start: 0x8000, end: 0x9000, relative_start: 0 };
    assert!(matches!(
        c.recording.entries[1],
        ProfileEntry::AddKernelLibMapping { lib: 0, mapping } if mapping == expected
    ));
}

fn added_record(c: &Converter) -> (String, Option<String>, bool) {
    match &c.recording.entries[0] {
        ProfileEntry::AddLib { record } => {
            (record.debug_path.clone(), record.code_id.clone(), record.has_kernel_symbols)
        }
        other => panic!("unexpected entry {other:?}"),
    }
}

#[test]
fn build_ids_of_kernel_modules() {
    // The recording's build ID comes first.
    let mut c = converter(kernel_symbols(0x8000), None);
    c.add_kernel_module(&kernel_module(b"/m.ko", 0x8000, Some(vec![0x77])), None);
    assert_eq!(added_record(&c), ("/m.ko".to_owned(), Some("77".to_owned()), false));
    // Elsewhere than the running kernel, the file decides.
    let mut c = converter(kernel_symbols(0x8000), None);
    let module = kernel_module(b"/m.ko", 0x9000, None);
    assert!(c.settings.wants_module_build_id(&module));
    c.add_kernel_module(&module, Some(vec![0x0f]));
    assert_eq!(added_record(&c), ("/m.ko".to_owned(), Some("0f".to_owned()), false));
    // Without any build ID there is no identifier.
    let mut c = converter(None, None);
    c.add_kernel_module(&module, None);
    assert_eq!(added_record(&c), ("/m.ko".to_owned(), None, false));
    assert!(matches!(debug_id_from(&None, true), LibDebugId::Nil));
    // The symbols of a kernel that does not disclose its address are of no use.
    let mut c = converter(kernel_symbols(0), None);
    c.add_kernel_module(&kernel_module(b"/m.ko", 0x9000, Some(vec![0xab, 0x01])), None);
    assert_eq!(added_record(&c), ("/m.ko".to_owned(), Some("ab01".to_owned()), false));
}

fn user_module(
    path: &[u8],
    start: u64,
    size: u64,
    file_offset: u64,
    build_id: Option<Vec<u8>>,
) -> UserModule {
    UserModule {
        pid: 7,
        path: path.to_vec(),
        mapping_start_file_offset: file_offset,
        mapping_start_avma: start,
        mapping_size: size,
        build_id,
        timestamp: 2000,
    }
}

const DEBUG_ID: DebugId = DebugId::Uuid { uuid: 5, appendix: 0 };

fn file_info(path: &str, vma_bias: Option<u64>, debug_id: Option<DebugId>) -> FileInfo {
    FileInfo {
        path: path.to_owned(),
        is_pe_image: false,
        base_svma: 0x400,
        vma_bias,
        debug_id,
    }
}

fn some_elf_file() -> Vec<u8> {
    elf_file(
        vec![
            section(".text", 1, 0x1000, vec![0x90, 0x91, 0x92, 0x93]),
            section("text_env", 1, 0x2000, vec![1; 8]),
            section(".eh_frame", 1, 0x3000, vec![2; 16]),
            section(".eh_frame_hdr", 1, 0x4000, vec![3; 24]),
            section(".got", 1, 0x5000, vec![4; 32]),
            build_id_note(&[0xca, 0xfe]),
        ],
        None,
    )
}

#[test]
fn facts_of_an_elf_file() {
    let facts = read_module_facts(&some_elf_file()).unwrap().unwrap();
    assert_eq!(facts.build_id, Some(vec![0xca, 0xfe]));
    let range = FileRange { start: 0x40, size: 4 };
    assert_eq!(facts.text, Some(Section { address: 0x1000, size: 4, file_range: Some(range) }));
    assert_eq!(facts.text_env.unwrap().address, 0x2000);
    assert_eq!(facts.eh_frame.unwrap().size, 16);
    assert_eq!(facts.eh_frame_hdr.unwrap().size, 24);
    assert_eq!(facts.got.unwrap().size, 32);
    assert_eq!(facts.eh_frame_data, Some(vec![2; 16]));
    assert_eq!(facts.eh_frame_hdr_data, Some(vec![3; 24]));
    let source = facts.text_source.unwrap();
    assert_eq!(source.range, range);
    assert_eq!(source.data, Some(vec![0x90, 0x91, 0x92, 0x93]));
    assert!(read_module_facts(b"junk").unwrap().is_none());
}

#[test]
fn facts_of_a_mach_o_file() {
    let data = mach_o_file();
    let facts = read_module_facts(&data).unwrap().unwrap();
    let source = facts.text_source.unwrap();
    assert_eq!(source.range, FileRange { start: 0, size: 16 });
    assert_eq!(source.data, Some(data[..16].to_vec()));
    assert_eq!(facts.text, None);
}

#[test]
fn compressed_sections_are_unpacked() {
    let contents: Vec<u8> = (1..=20).collect();
    let unpack = |packed: TestSection| unpack_section(&elf_file(vec![packed], None), ".eh_frame");
    let packed = |stated_size| zlib_section(".eh_frame", &contents, stated_size);
    assert_eq!(unpack(packed(20)), Ok(Some(contents.clone())));
    // A section may be shorter than it says; what is longer is cut off.
    assert_eq!(unpack(packed(100)), Ok(Some(contents.clone())));
    assert_eq!(unpack(packed(7)), Ok(Some(contents[..7].to_vec())));
    // An unknown format, a broken stream, and data that ends early.
    let mut unknown = packed(20);
    unknown.data[0] = 9;
    assert_eq!(unpack(unknown), Ok(None));
    let mut broken = packed(20);
    broken.data[24] = 0;
    assert_eq!(unpack(broken), Ok(None));
    assert_eq!(unpack(section(".eh_frame", 1, 0, vec![1, 2])), Ok(Some(vec![1, 2])));
    assert_eq!(unpack(section(".text", 1, 0, vec![1, 2])), Ok(None));
    assert_eq!(unpack_section(b"junk", ".eh_frame"), Ok(None));
    // No buffer is as large as that.
    assert_eq!(unpack(packed(isize::MAX as u64 + 1)), Err(UnpackError::TooLarge));
    assert_eq!(unpack(packed(usize::MAX as u64)), Err(UnpackError::TooLarge));
}

#[test]
fn zstandard_sections_are_unpacked() {
    let unpack = |stated_size, packed: &[u8]| {
        let section = packed_section(".eh_frame", 2, stated_size, packed);
        unpack_section(&elf_file(vec![section], None), ".eh_frame")
    };
    let frame = zstd_frame(&[(0, &[1, 2, 3]), (0, &[4])]);
    assert_eq!(unpack(4, &frame), Ok(Some(vec![1, 2, 3, 4])));
    // All of the contents count, whatever the stated size.
    assert_eq!(unpack(2, &frame), Ok(Some(vec![1, 2, 3, 4])));
    assert_eq!(unpack(4, &frame[..8]), Ok(None));
    assert_eq!(unpack(4, b"junk"), Ok(None));
    assert_eq!(unpack(isize::MAX as u64 + 1, &frame), Err(UnpackError::TooLarge));
    // More than 2^32 bytes in one block.
    let large = zstd_frame(&[(0, &[1, 2, 3, 4, 5, 6, 7, 8]), (2, &large_block())]);
    assert_eq!(unpack(8, &large), Err(UnpackError::Unbounded));
}

#[test]
fn bounds_on_zstandard_streams() {
    assert_eq!(read_stated_sequences(&large_block()), 32_812);
    assert!(!check_zstd_blocks(&zstd_frame(&[(2, &large_block())])));
    // Such a block in front of the last one counts as well.
    assert!(!check_zstd_blocks(&zstd_frame(&[(2, &large_block()), (0, &[1])])));
    // As many sequences in a shorter block.
    let mut short = large_block();
    short.truncate(65_399);
    assert!(check_zstd_blocks(&zstd_frame(&[(2, &short)])));
    // Fewer sequences in a block of that length.
    let mut few = large_block();
    few[2..4].copy_from_slice(&(32_700u16 - 0x7f00).to_le_bytes());
    assert!(check_zstd_blocks(&zstd_frame(&[(2, &few)])));
    few[2..4].copy_from_slice(&(32_701u16 - 0x7f00).to_le_bytes());
    assert!(!check_zstd_blocks(&zstd_frame(&[(2, &few)])));
    // What a decoder does not get to does not count.
    assert!(check_zstd_blocks(&zstd_frame(&[(3, &[]), (2, &large_block())])));
    assert!(check_zstd_blocks(&zstd_frame(&[(2, &large_block())])[..1000]));
    assert!(check_zstd_blocks(&large_block()));
    assert!(check_zstd_blocks(b""));
    // A frame of a single segment with a dictionary and a content size.
    let mut frame = vec![0x28, 0xb5, 0x2f, 0xfd, 0xa3];
    frame.extend_from_slice(&[0; 8]);
    frame.extend_from_slice(&zstd_frame(&[(2, &large_block())])[6..]);
    assert!(!check_zstd_blocks(&frame));
}

#[test]
fn stated_numbers_of_sequences() {
    // Plain and repeated literals, with headers of one to three bytes.
    assert_eq!(read_stated_sequences(&[2 << 3, 9, 9, 7, 0]), 7);
    assert_eq!(read_stated_sequences(&[0x24, 0, 9, 9, 0x81, 0x02, 0]), 0x102);
    assert_eq!(read_stated_sequences(&[0x1c, 0, 0, 9, 0xff, 1, 2, 0]), 0x7f00 + 0x201);
    assert_eq!(read_stated_sequences(&[1 | (31 << 3), 9, 7, 0]), 7);
    // Compressed literals, with headers of three to five bytes.
    assert_eq!(read_stated_sequences(&[2, 2 << 6, 0, 9, 9, 7, 0]), 7);
    assert_eq!(read_stated_sequences(&[2 | (2 << 2), 0, 2 << 2, 0, 9, 9, 7, 0]), 7);
    assert_eq!(read_stated_sequences(&[3 | (3 << 2), 0, 2 << 6, 0, 0, 9, 9, 7, 0]), 7);
    // Blocks that break off.
    assert_eq!(read_stated_sequences(&[]), 0);
    assert_eq!(read_stated_sequences(&[2 << 3, 9]), 0);
    assert_eq!(read_stated_sequences(&[0, 7]), 0);
    assert_eq!(read_stated_sequences(&[0, 0x81, 0x02]), 0);
    assert_eq!(read_stated_sequences(&[0, 0xff, 1, 2]), 0);
    assert_eq!(read_stated_sequences(&[2, 0]), 0);
}

#[test]
fn unwinding_information_can_be_unpacked_elsewhere() {
    let large = zstd_frame(&[(0, &[1, 2, 3, 4, 5, 6, 7, 8]), (2, &large_block())]);
    let data = elf_file(vec![packed_section(".eh_frame", 2, 8, &large)], None);
    let mut c = converter(None, None);
    let module = user_module(b"/lib/liba.so", 0x7001_0000, 0x3000, 0, None);
    let info = || file_info("/lib/liba.so", Some(0x7000_0000), Some(DEBUG_ID));
    let file = ModuleFile::Found { info: info(), data: &data };
    assert!(matches!(c.add_module_to_process(&module, file), ModuleOutcome::Unpack));
    assert_eq!(c.recording.entries.len(), 2);
    let outcome = c.add_unpacked_module(&module, &info(), &data, Some(vec![1, 2]), None);
    assert!(matches!(
        unwind_module(outcome).unwind_data,
        UnwindData::EhFrame { eh_frame } if eh_frame == vec![1, 2]
    ));
    assert_eq!(c.recording.entries.len(), 4);
    // Other files are still refused.
    let module = user_module(b"/lib/liba.so", 0x7001_0000, 0x3000, 0, Some(vec![1]));
    let outcome = c.add_unpacked_module(&module, &info(), &data, Some(vec![1, 2]), None);
    assert!(matches!(outcome, ModuleOutcome::Done));
}

#[test]
fn sizes_of_compressed_sections() {
    let packing = |format, unpacked_size| SectionPacking { format, unpacked_size };
    let max = isize::MAX as u64;
    for format in [PackingFormat::Zlib, PackingFormat::Zstandard] {
        assert!(!packing(format, max).check_too_large());
        assert!(packing(format, max + 1).check_too_large());
        assert!(!packing(format, max + 1).check_uncountable());
    }
    assert!(!packing(PackingFormat::Stored, u64::MAX).check_too_large());
    assert!(!packing(PackingFormat::Unknown, u64::MAX).check_too_large());
    assert_eq!(packing(PackingFormat::Zlib, 2).keep(vec![1, 2, 3]), vec![1, 2]);
    assert_eq!(packing(PackingFormat::Zlib, 4).keep(vec![1, 2, 3]), vec![1, 2, 3]);
    assert_eq!(packing(PackingFormat::Zstandard, 2).keep(vec![1, 2, 3]), vec![1, 2, 3]);
}

#[test]
fn refused_files_are_not_unpacked() {
    let data = elf_file(
        vec![
            zlib_section(".eh_frame", &[1, 2, 3], isize::MAX as u64 + 1),
            build_id_note(&[0xca, 0xfe]),
        ],
        None,
    );
    let add = |build_id, bias| {
        let mut c = converter(None, None);
        let module = user_module(b"/lib/liba.so", 0x7001_0000, 0x3000, 0, build_id);
        let info = file_info("/lib/liba.so", bias, Some(DEBUG_ID));
        let outcome = c.add_module_to_process(&module, ModuleFile::Found { info, data: &data });
        assert_eq!(c.recording.entries.len(), 2);
        outcome
    };
    assert!(matches!(add(Some(vec![1]), Some(0x7000_0000)), ModuleOutcome::Done));
    assert!(matches!(add(None, None), ModuleOutcome::Done));
    assert!(matches!(add(None, Some(0x7000_0000)), ModuleOutcome::TooLarge));
    assert!(matches!(add(Some(vec![0xca, 0xfe]), Some(0x7000_0000)), ModuleOutcome::TooLarge));
}

#[test]
fn compressed_unwinding_information_is_used() {
    let mut c = converter(None, None);
    let data = elf_file(vec![zlib_section(".eh_frame", &[5, 6, 7], 3)], None);
    let module = user_module(b"/lib/liba.so", 0x7001_0000, 0x3000, 0, None);
    let info = file_info("/lib/liba.so", Some(0x7000_0000), Some(DEBUG_ID));
    let outcome = c.add_module_to_process(&module, ModuleFile::Found { info, data: &data });
    assert!(matches!(
        unwind_module(outcome).unwind_data,
        UnwindData::EhFrame { eh_frame } if eh_frame == vec![5, 6, 7]
    ));
}

#[test]
fn corrected_files_are_not_corrected_again() {
    let text = || vec![section(".text", 1, 0x40, vec![0x90; 32])];
    let path = "/tmp/jitted-12-3.so";
    let fix = correct_bad_perf_jit_so_file(&elf_file(text(), Some((0, 0))), path).unwrap();
    let fixed = elf_file(text(), None);
    assert!(correct_bad_perf_jit_so_file(&fixed, &fix.fixed_path).is_none());
}

#[test]
fn places_of_code() {
    let segment = |name: Option<&[u8]>, start| Segment {
        name: name.map(<[u8]>::to_vec),
        address: 0,
        file_range: FileRange { start, size: 1 },
    };
    let text = Some(Section {
        address: 0,
        size: 1,
        file_range: Some(FileRange { start: 9, size: 1 }),
    });
    let segments = vec![segment(None, 1), segment(Some(b"__TEXT"), 2), segment(Some(b"__TEXT"), 3)];
    assert_eq!(find_text_segment(&segments), 1);
    assert_eq!(
        find_text_place(&segments, text),
        Some(TextPlace::Segment { index: 1, range: FileRange { start: 2, size: 1 } })
    );
    let segments = vec![segment(Some(b"__DATA"), 1)];
    assert_eq!(find_text_segment(&segments), 1);
    assert_eq!(
        find_text_place(&segments, text),
        Some(TextPlace::Section { range: FileRange { start: 9, size: 1 } })
    );
    assert_eq!(find_text_place(&segments, None), None);
    let no_range = Some(Section { address: 0, size: 1, file_range: None });
    assert_eq!(find_text_place(&segments, no_range), None);
}

fn unwind_module(outcome: ModuleOutcome) -> UnwindModule {
    match outcome {
        ModuleOutcome::AddToUnwinder(module) => module,
        other => panic!("unexpected outcome {other:?}"),
    }
}

#[test]
fn files_are_added_to_processes() {
    let mut c = converter(None, None);
    let data = some_elf_file();
    let module = user_module(b"/lib/liba.so", 0x7001_0000, 0x3000, 0, Some(vec![0xca, 0xfe]));
    let info = file_info("/found/liba.so", Some(0x7000_0000), Some(DEBUG_ID));
    let outcome = c.add_module_to_process(&module, ModuleFile::Found { info, data: &data });
    let unwind = unwind_module(outcome);
    assert_eq!(unwind.path, "/found/liba.so");
    assert_eq!(unwind.avma_range, AddressRange { start: 0x7001_0000, end: 0x7001_3000 });
    assert_eq!(unwind.base_avma, 0x7000_0400);
    assert_eq!(unwind.base_svma, 0x400);
    assert_eq!(unwind.text, Some(AddressRange { start: 0x1000, end: 0x1004 }));
    assert_eq!(unwind.text_env, Some(AddressRange { start: 0x2000, end: 0x2008 }));
    assert_eq!(unwind.eh_frame, Some(AddressRange { start: 0x3000, end: 0x3010 }));
    assert_eq!(unwind.eh_frame_hdr, Some(AddressRange { start: 0x4000, end: 0x4018 }));
    assert_eq!(unwind.got, Some(AddressRange { start: 0x5000, end: 0x5020 }));
    assert!(matches!(
        unwind.unwind_data,
        UnwindData::EhFrameHdrAndEhFrame { eh_frame_hdr, eh_frame }
            if eh_frame_hdr == vec![3; 24] && eh_frame == vec![2; 16]
    ));
    let text = unwind.text_data.unwrap();
    assert_eq!(text.data, vec![0x90, 0x91, 0x92, 0x93]);
    assert_eq!(text.range, AddressRange { start: 0x7000_0440, end: 0x7000_0444 });
    match &c.recording.entries[2] {
        ProfileEntry::AddLib { record } => {
            assert_eq!(record.name, "liba.so");
            assert_eq!(record.debug_name, "liba.so");
            assert_eq!(record.path, "/found/liba.so");
            assert_eq!(record.debug_path, "/found/liba.so");
            assert_eq!(record.code_id.as_deref(), Some("cafe"));
            assert!(matches!(record.debug_id, LibDebugId::Known(DEBUG_ID)));
        }
        other => panic!("unexpected entry {other:?}"),
    }
    let expected = LibMapping { start: 0x7001_0000, end: 0x7001_3000, relative_start: 0xfc00 };
    assert!(matches!(
        c.recording.entries[3],
        ProfileEntry::AddLibMapping { process: 0, time: 2000, lib: 2, mapping }
            if mapping == expected
    ));
}

#[test]
fn files_that_do_not_match_are_left_out() {
    let data = some_elf_file();
    let add = |build_id, bias, data: &[u8]| {
        let mut c = converter(None, None);
        let module = user_module(b"/lib/liba.so", 0x7001_0000, 0x3000, 0, build_id);
        let info = file_info("/lib/liba.so", bias, Some(DEBUG_ID));
        let outcome = c.add_module_to_process(&module, ModuleFile::Found { info, data });
        // The process is there in any case.
        assert!(c.recording.entries.len() >= 2);
        (matches!(outcome, ModuleOutcome::Done), c.recording.entries.len())
    };
    assert_eq!(add(None, Some(0x7000_0000), &data), (false, 4));
    assert_eq!(add(Some(vec![0xca]), Some(0x7000_0000), &data), (true, 2));
    assert_eq!(add(None, None, &data), (true, 2));
    assert_eq!(add(None, Some(0x7000_0000), b"junk"), (true, 2));
    let without_id = elf_file(vec![section(".text", 1, 0x1000, vec![0x90])], None);
    assert_eq!(add(None, Some(0x7000_0000), &without_id), (false, 4));
    assert_eq!(add(Some(vec![0xca, 0xfe]), Some(0x7000_0000), &without_id), (true, 2));
}

#[test]
fn unreadable_and_missing_files() {
    let mut c = converter(None, None);
    let module = user_module(b"/lib/liba.so", 0x1_7001_0000, 0x3000, 0x1_0000_2000, Some(vec![0xca]));
    assert!(matches!(
        c.add_module_to_process(&module, ModuleFile::Unreadable),
        ModuleOutcome::Done
    ));
    assert_eq!(c.recording.entries.len(), 2);
    assert!(matches!(
        c.add_module_to_process(&module, ModuleFile::NotFound),
        ModuleOutcome::Done
    ));
    match &c.recording.entries[2] {
        ProfileEntry::AddLib { record } => {
            assert_eq!(record.name, "liba.so");
            assert_eq!(record.path, "/lib/liba.so");
            assert_eq!(record.code_id.as_deref(), Some("ca"));
            // The identifier is read as a little endian one, whatever the machine.
            assert!(matches!(
                record.debug_id,
                LibDebugId::FromBuildId { little_endian: true, .. }
            ));
        }
        other => panic!("unexpected entry {other:?}"),
    }
    // Relative addresses are cut to 32 bits.
    let expected = LibMapping { start: 0x1_7001_0000, end: 0x1_7001_3000, relative_start: 0x2000 };
    assert!(matches!(
        c.recording.entries[3],
        ProfileEntry::AddLibMapping { lib: 2, mapping, .. } if mapping == expected
    ));
    let module = user_module(b"/", 0x1000, 0x1000, 0, None);
    c.add_module_to_process(&module, ModuleFile::NotFound);
    assert!(matches!(
        &c.recording.entries[4],
        ProfileEntry::AddLib { record }
            if record.name == "<unknown>" && matches!(record.debug_id, LibDebugId::Nil)
    ));
}

#[test]
fn files_without_a_debug_id_are_for_the_unwinder_only() {
    let mut c = converter(None, None);
    let module = user_module(b"/lib/liba.so", 0x7001_0000, 0x3000, 0, None);
    let info = file_info("/lib/liba.so", Some(0x7000_0000), None);
    let data = some_elf_file();
    unwind_module(c.add_module_to_process(&module, ModuleFile::Found { info, data: &data }));
    assert_eq!(c.recording.entries.len(), 2);
}

#[test]
fn injected_files_stand_for_a_function() {
    let mut c = converter(None, None);
    let mut sections = vec![section(".text", 1, 0x20, vec![0x90; 32])];
    sections.append(&mut symbols(2));
    let data = elf_file(sections, None);
    let module = user_module(b"/tmp/jitted-7-1.so", 0x7000_0440, 0x20, 0x40, None);
    let info = file_info("/tmp/jitted-7-1.so", Some(0x7000_0000), Some(DEBUG_ID));
    unwind_module(c.add_module_to_process(&module, ModuleFile::Found { info, data: &data }));
    match &c.recording.entries[3] {
        ProfileEntry::AddJitLibMapping { process: 0, time: 2000, symbol_name, lib: 2, mapping } => {
            assert_eq!(symbol_name.as_deref(), Some("first"));
            assert_eq!(mapping.relative_start, 0x40);
        }
        other => panic!("unexpected entry {other:?}"),
    }
}

#[test]
fn parts_of_pe_images_are_placed_by_the_header() {
    let mut c = converter(None, None);
    c.remember_pe_image(b"/game.exe", 0x1_4000_0000, Some(0x5000));
    let module = user_module(b"//anon", 0x1_4000_1000, 0x1000, 0, None);
    let mut info = file_info("/game.exe", Some(0x66), Some(DEBUG_ID));
    info.is_pe_image = true;
    let data = some_elf_file();
    let unwind =
        unwind_module(c.add_module_to_process(&module, ModuleFile::Found { info, data: &data }));
    assert_eq!(unwind.base_avma, 0x1_4000_0000);
    assert!(matches!(
        c.recording.entries[3],
        ProfileEntry::AddLibMapping { mapping, .. } if mapping.relative_start == 0x1000
    ));
}

fn facts() -> ModuleFacts {
    ModuleFacts {
        build_id: None,
        text: None,
        text_env: None,
        eh_frame: None,
        eh_frame_hdr: None,
        got: None,
        eh_frame_data: None,
        eh_frame_hdr_data: None,
        text_source: None,
    }
}

#[test]
fn files_without_addresses_are_left_out() {
    let module = user_module(b"/lib/liba.so", 0x7001_0000, 0x3000, 0, None);
    let add = |facts: ModuleFacts, info: FileInfo| {
        let mut c = converter(None, None);
        let outcome = c.add_module_with_facts(&module, &info, Some(facts), None);
        (matches!(outcome, ModuleOutcome::OutOfRange), c.recording.entries.len())
    };
    let info = || file_info("/lib/liba.so", Some(0x7000_0000), Some(DEBUG_ID));
    assert_eq!(add(facts(), info()), (false, 4));
    let wide = Some(Section { address: u64::MAX, size: 1, file_range: None });
    assert_eq!(add(ModuleFacts { got: wide, ..facts() }, info()), (true, 2));
    let far = TextSource { range: FileRange { start: u64::MAX - 1, size: 0 }, data: None };
    assert_eq!(add(ModuleFacts { text_source: Some(far), ..facts() }, info()), (true, 2));
    // A base behind the mapping only matters for the profile.
    let behind = |debug_id| file_info("/lib/liba.so", Some(0x8000_0000), debug_id);
    assert_eq!(add(facts(), behind(Some(DEBUG_ID))), (true, 2));
    assert_eq!(add(facts(), behind(None)), (false, 2));
    // Bases wrap around.
    let wrapped = file_info("/lib/liba.so", Some(u64::MAX), Some(DEBUG_ID));
    assert_eq!(add(facts(), wrapped), (false, 4));
}

#[test]
fn unwinding_information_needs_the_frames() {
    let module = user_module(b"/lib/liba.so", 0x7001_0000, 0x3000, 0, None);
    let only_frames = ModuleFacts { eh_frame_data: Some(vec![1]), ..facts() };
    assert!(matches!(
        only_frames.into_unwind_module(&module, "a", 0, 0).unwind_data,
        UnwindData::EhFrame { eh_frame } if eh_frame == vec![1]
    ));
    let only_header = ModuleFacts { eh_frame_hdr_data: Some(vec![1]), ..facts() };
    assert!(matches!(
        only_header.into_unwind_module(&module, "a", 0, 0).unwind_data,
        UnwindData::Nothing
    ));
    let unreadable =
        TextSource { range: FileRange { start: 0, size: 4 }, data: None };
    let no_text = ModuleFacts { text_source: Some(unreadable), ..facts() };
    assert!(no_text.into_unwind_module(&module, "a", 0, 0).text_data.is_none());
}

#[test]
fn build_ids_must_match() {
    let file = ModuleFacts { build_id: Some(vec![1, 2]), ..facts() };
    assert!(file.verify_build_id(&None));
    assert!(file.verify_build_id(&Some(vec![1, 2])));
    assert!(!file.verify_build_id(&Some(vec![1])));
    assert!(!facts().verify_build_id(&Some(vec![1, 2])));
    assert!(facts().verify_build_id(&None));
}
