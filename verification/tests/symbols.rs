use samply::candidates::{breakpad_sym_path, CandidatePathInfo, FileLocation};
use samply::helper::{
    BreakpadServer, DownloadStep, FileReadOnlyHelper, FileSource, Helper, SymbolManagerConfig,
};
use samply::ids::DebugId;
use samply::library_info::{CodeId, KnownLibs, LibraryInfo};

const ID: DebugId = DebugId::Uuid { uuid: 0x0123_4567_89ab_cdef_0011_2233_4455_6677, appendix: 0x1a };
const ID_TEXT: &str = "0123456789ABCDEF00112233445566771a";

fn no_info() -> LibraryInfo {
    LibraryInfo {
        debug_name: None,
        debug_id: None,
        debug_path: None,
        name: None,
        code_id: None,
        path: None,
        arch: None,
    }
}

fn some(text: &str) -> Option<String> {
    Some(text.to_owned())
}

fn config(nt_symbol_path: Option<&str>, dirs: &[&str], servers: &[(&str, &str)]) -> SymbolManagerConfig {
    SymbolManagerConfig {
        nt_symbol_path: nt_symbol_path.map(str::to_owned),
        breakpad_directories_readonly: dirs.iter().map(|dir| (*dir).to_owned()).collect(),
        breakpad_servers: servers
            .iter()
            .map(|(url, dir)| BreakpadServer { url: (*url).to_owned(), cache_dir: (*dir).to_owned() })
            .collect(),
    }
}

fn show(paths: &[CandidatePathInfo]) -> Vec<String> {
    paths
        .iter()
        .map(|path| match path {
            CandidatePathInfo::SingleFile(FileLocation::Path(path)) => path.clone(),
            CandidatePathInfo::SingleFile(FileLocation::Custom(custom)) => format!("<{custom}>"),
            CandidatePathInfo::InDyldCache { dyld_cache_path, dylib_path } => {
                format!("{dyld_cache_path}({dylib_path})")
            }
        })
        .collect()
}

#[test]
fn code_ids_consist_of_digits() {
    for text in ["", "ABcdef-09", "5E7f xyz", "äbc"] {
        let expected = debugid::CodeId::new(text.to_owned());
        assert_eq!(CodeId::new(text).as_str(), expected.as_str());
    }
    assert_eq!(CodeId::new("AB-c0").as_str(), "abc0");
    assert_eq!(CodeId::new("AB-c0").copy().as_str(), "abc0");
}

#[test]
fn missing_details_are_filled_in() {
    let mut info = no_info();
    info.name = some("a");
    info.path = some("/a");
    let mut other = no_info();
    other.name = some("b");
    other.debug_name = some("b.pdb");
    other.debug_id = Some(ID);
    other.debug_path = some("/b.pdb");
    other.code_id = Some(CodeId::new("12"));
    other.arch = some("x86_64");
    info.absorb(&other);
    assert_eq!(info.name.as_deref(), Some("a"));
    assert_eq!(info.path.as_deref(), Some("/a"));
    assert_eq!(info.debug_name.as_deref(), Some("b.pdb"));
    assert_eq!(info.debug_id, Some(ID));
    assert_eq!(info.debug_path.as_deref(), Some("/b.pdb"));
    assert_eq!(info.code_id.unwrap().as_str(), "12");
    assert_eq!(info.arch.as_deref(), Some("x86_64"));
}

fn known_lib() -> LibraryInfo {
    LibraryInfo {
        debug_name: some("xul.pdb"),
        debug_id: Some(ID),
        debug_path: some("C:/xul.pdb"),
        name: some("xul.dll"),
        code_id: Some(CodeId::new("5f00a1")),
        path: some("/usr/lib/xul.dll"),
        arch: some("x86_64"),
    }
}

#[test]
fn known_libraries_are_found_again() {
    let mut helper = Helper::with_config(config(None, &[], &[]));
    helper.add_known_lib(known_lib());
    let mut info = no_info();
    info.debug_name = some("xul.pdb");
    info.debug_id = Some(ID);
    helper.fill_in_library_info_details(&mut info);
    assert_eq!(format!("{info:?}"), format!("{:?}", known_lib()));

    let mut info = no_info();
    info.name = some("xul.dll");
    info.code_id = Some(CodeId::new("5F00A1"));
    helper.fill_in_library_info_details(&mut info);
    assert_eq!(format!("{info:?}"), format!("{:?}", known_lib()));

    // The name is part of the key.
    let mut info = no_info();
    info.code_id = Some(CodeId::new("5f00a1"));
    helper.fill_in_library_info_details(&mut info);
    assert!(info.path.is_none());
    let mut info = no_info();
    info.debug_name = some("other.pdb");
    info.debug_id = Some(ID);
    helper.fill_in_library_info_details(&mut info);
    assert!(info.path.is_none());
}

#[test]
fn libraries_without_a_name_are_found_by_code_id() {
    let mut known = KnownLibs::new();
    let mut lib = no_info();
    lib.code_id = Some(CodeId::new("aa"));
    lib.path = some("/first");
    known.add_lib(lib.copy());
    lib.path = some("/second");
    known.add_lib(lib);
    let mut info = no_info();
    info.code_id = Some(CodeId::new("aa"));
    known.fill_in(&mut info);
    assert_eq!(info.path.as_deref(), Some("/second"));
}

#[test]
fn one_lookup_leads_to_the_next() {
    let mut known = KnownLibs::new();
    let mut by_debug = no_info();
    by_debug.debug_name = some("a.pdb");
    by_debug.debug_id = Some(ID);
    by_debug.name = some("a.dll");
    by_debug.code_id = Some(CodeId::new("bb"));
    known.add_lib(by_debug);
    let mut by_code = no_info();
    by_code.name = some("a.dll");
    by_code.code_id = Some(CodeId::new("bb"));
    by_code.path = some("/a.dll");
    known.add_lib(by_code);
    let mut info = no_info();
    info.debug_name = some("a.pdb");
    info.debug_id = Some(ID);
    known.fill_in(&mut info);
    assert_eq!(info.path.as_deref(), Some("/a.dll"));
}

#[test]
fn paths_of_breakpad_symbols() {
    assert_eq!(
        breakpad_sym_path("/syms", "xul.pdb", ID),
        format!("/syms/xul.pdb/{ID_TEXT}/xul.sym")
    );
    assert_eq!(
        breakpad_sym_path("/syms/", "libxul.so", DebugId::Pdb20 { timestamp: 0xab, age: 0x1f }),
        "/syms/libxul.so/000000AB1f/libxul.so.sym"
    );
}

#[test]
fn all_places_for_a_pdb_file() {
    let servers = [("https://s1", "/c1"), ("https://s2", "/c2")];
    let helper = Helper::with_config(config(Some("srv*"), &["/d1"], &servers));
    let mut info = known_lib();
    info.path = some("/opt/xul.dll");
    let paths = helper.get_candidate_paths_for_debug_file(&info, None, None);
    assert_eq!(
        show(&paths),
        vec![
            "C:/xul.pdb".to_owned(),
            "/usr/lib/debug/.build-id/5f/00a1.debug".to_owned(),
            "/usr/bin/xul.pdb.debug".to_owned(),
            "/usr/bin/.debug/xul.pdb.debug".to_owned(),
            "/usr/lib/debug/usr/bin/xul.pdb.debug".to_owned(),
            format!("/d1/xul.pdb/{ID_TEXT}/xul.sym"),
            format!("/c1/xul.pdb/{ID_TEXT}/xul.sym"),
            format!("/c2/xul.pdb/{ID_TEXT}/xul.sym"),
            format!("<winsymbolserver:xul.pdb/{ID_TEXT}/xul.pdb>"),
            format!("<bpsymbolserver:xul.pdb/{ID_TEXT}/xul.sym>"),
            "/opt/xul.dll".to_owned(),
        ]
    );
    for path in &paths {
        if let CandidatePathInfo::SingleFile(location) = path {
            assert!(helper.can_open_file(location));
        }
    }
}

#[test]
fn places_for_a_system_library() {
    let helper = Helper::with_config(config(None, &[], &[]));
    let mut info = no_info();
    info.debug_name = some("libA.so");
    info.debug_path = some("/usr/lib/libA.so");
    info.path = some("/usr/lib/libA.so");
    info.code_id = Some(CodeId::new("ab"));
    let caches = [
        "/System/Volumes/Preboot/Cryptexes/OS/System/Library/dyld/dyld_shared_cache_arm64e",
        "/System/Volumes/Preboot/Cryptexes/OS/System/Library/dyld/dyld_shared_cache_x86_64",
        "/System/Library/dyld/dyld_shared_cache_arm64e",
        "/System/Library/dyld/dyld_shared_cache_x86_64h",
        "/System/Library/dyld/dyld_shared_cache_x86_64",
    ];
    let mut own = vec!["/usr/lib/libA.so".to_owned()];
    for cache in caches {
        own.push(format!("{cache}(/usr/lib/libA.so)"));
    }
    let mut expected = vec![
        "/usr/lib/libA.so.dbg".to_owned(),
        "/usr/bin/libA.so.debug".to_owned(),
        "/usr/bin/.debug/libA.so.debug".to_owned(),
        "/usr/lib/debug/usr/bin/libA.so.debug".to_owned(),
    ];
    expected.extend(own.clone());
    assert_eq!(show(&helper.get_candidate_paths_for_debug_file(&info, None, None)), expected);
    assert_eq!(show(&helper.get_candidate_paths_for_binary(&info)), own);
    info.path = some("/System/x");
    assert_eq!(helper.get_candidate_paths_for_binary(&info).len(), 6);
    info.path = some("/Users/x");
    assert_eq!(helper.get_candidate_paths_for_binary(&info).len(), 1);
}

#[test]
fn dsym_bundles_come_first() {
    let helper = Helper::with_config(config(None, &[], &[]));
    let mut info = no_info();
    info.debug_name = some("XUL");
    info.debug_path = some("/app/XUL");
    info.debug_id = Some(ID);
    let query = helper.dsym_query(&info);
    assert_eq!(query.debug_path.as_deref(), Some("/app/XUL"));
    assert_eq!(query.debug_id, Some(ID));
    let paths =
        helper.get_candidate_paths_for_debug_file(&info, Some("/app/XUL.dSYM"), Some("/x.dSYM"));
    assert_eq!(
        show(&paths)[..3],
        [
            "/app/XUL.dSYM".to_owned(),
            "/app/XUL.dSYM/Contents/Resources/DWARF/XUL".to_owned(),
            "/usr/bin/XUL.debug".to_owned(),
        ]
    );
    // Failing that, the identifier may lead to one.
    let paths = helper.get_candidate_paths_for_debug_file(&info, None, Some("/s/Fire.dSYM"));
    assert_eq!(
        show(&paths)[..3],
        [
            "/s/Fire.dSYM".to_owned(),
            "/s/Fire.dSYM/Contents/Resources/DWARF/Fire".to_owned(),
            "/usr/bin/XUL.debug".to_owned(),
        ]
    );
    let paths = helper.get_candidate_paths_for_debug_file(&info, None, Some("/s/.."));
    assert_eq!(show(&paths)[..2], ["/s/..".to_owned(), "/usr/bin/XUL.debug".to_owned()]);
    // Without an identifier there is nothing to go by.
    info.debug_id = None;
    assert!(helper.dsym_query(&info).debug_path.is_none());
    let paths =
        helper.get_candidate_paths_for_debug_file(&info, Some("/app/XUL.dSYM"), Some("/x.dSYM"));
    assert_eq!(show(&paths)[0], "/usr/bin/XUL.debug");
}

#[test]
fn candidates_of_a_known_library() {
    let mut helper = Helper::with_config(config(Some("srv*"), &[], &[]));
    helper.add_known_lib(known_lib());
    let mut info = no_info();
    info.name = some("xul.dll");
    info.code_id = Some(CodeId::new("5f00a1"));
    assert_eq!(
        show(&helper.get_candidate_paths_for_binary(&info))[..2],
        [
            "/usr/lib/xul.dll".to_owned(),
            "<winsymbolserver:xul.dll/5f00a1/xul.dll>".to_owned(),
        ]
    );
    // Nothing is known of nothing.
    assert!(helper.get_candidate_paths_for_binary(&no_info()).is_empty());
    assert!(helper.get_candidate_paths_for_debug_file(&no_info(), None, None).is_empty());
}

#[test]
fn build_ids_need_more_than_two_digits() {
    let helper = Helper::with_config(config(None, &[], &[]));
    let mut info = no_info();
    info.code_id = Some(CodeId::new("ab"));
    assert!(helper.get_candidate_paths_for_debug_file(&info, None, None).is_empty());
    info.code_id = Some(CodeId::new("abc"));
    assert_eq!(
        show(&helper.get_candidate_paths_for_debug_file(&info, None, None)),
        vec!["/usr/lib/debug/.build-id/ab/c.debug".to_owned()]
    );
}

#[test]
fn locations_lead_to_files() {
    let helper = Helper::with_config(config(Some("srv*"), &[], &[]));
    let path = FileLocation::Path("/a".to_owned());
    assert!(matches!(helper.open_file(&path), FileSource::LocalFile(p) if p == "/a"));
    let win = FileLocation::Custom("winsymbolserver:a/b/a".to_owned());
    assert!(matches!(helper.open_file(&win), FileSource::SymbolCache(p) if p == "a/b/a"));
    let bp = FileLocation::Custom("bpsymbolserver:a/b/a.sym".to_owned());
    assert!(matches!(helper.open_file(&bp), FileSource::BreakpadServers(p) if p == "a/b/a.sym"));
    let unknown = FileLocation::Custom("a/b".to_owned());
    assert!(!helper.can_open_file(&unknown));
    assert!(helper.can_open_file(&win));
    let helper = Helper::with_config(config(None, &[], &[]));
    assert!(!helper.can_open_file(&win));
    assert!(helper.can_open_file(&bp));
    assert_eq!(FileReadOnlyHelper.open_file(&path), "/a");
}

#[test]
fn downloads_go_where_they_are_looked_for() {
    let servers = [("https://s1", "/c1"), ("https://s2/", "/c2/")];
    let helper = Helper::with_config(config(None, &[], &servers));
    let rel_path = format!("xul.pdb/{ID_TEXT}/xul.sym");
    let first = helper.next_download(&rel_path, 0).unwrap();
    assert_eq!(first.url, format!("https://s1/{rel_path}"));
    assert_eq!(first.dest_path, breakpad_sym_path("/c1", "xul.pdb", ID));
    let second = helper.next_download(&rel_path, 1).unwrap();
    assert_eq!(second.url, format!("https://s2//{rel_path}"));
    assert_eq!(second.dest_path, breakpad_sym_path("/c2/", "xul.pdb", ID));
    assert!(helper.next_download(&rel_path, 2).is_none());
}

#[test]
fn first_server_with_the_file_ends_the_search() {
    let servers = [("https://s1", "/c1"), ("https://s2", "/c2")];
    let helper = Helper::with_config(config(None, &[], &servers));
    assert!(matches!(helper.after_download("a/b", 0, true), DownloadStep::Found));
    assert!(matches!(helper.after_download("a/b", 1, true), DownloadStep::Found));
    match helper.after_download("a/b", 0, false) {
        DownloadStep::Next(download) => {
            assert_eq!(download.url, "https://s2/a/b");
            assert_eq!(download.dest_path, "/c2/a/b");
        }
        other => panic!("unexpected step {other:?}"),
    }
    assert!(matches!(helper.after_download("a/b", 1, false), DownloadStep::NotFound));
    assert!(matches!(helper.after_download("a/b", usize::MAX, false), DownloadStep::NotFound));
}
