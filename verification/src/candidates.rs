//! Places where the files of a library may be.

use crate::ids::{breakpad, breakpad_text, DebugId};
use crate::library_info::CodeId;
use crate::text::{
    concat, concat3, ends_with, file_name, file_name_of, join, joined, starts_with,
    trim_end_matches, without_trailing,
};
use vstd::prelude::*;

verus! {

/// Where a file is.
#[derive(Debug)]
pub enum FileLocation {
    /// At a path.
    Path(String),
    /// At a place that is identified by a string.
    Custom(String),
}

/// The contents of a [`FileLocation`].
pub enum FileLocationView {
    Path(Seq<char>),
    Custom(Seq<char>),
}

impl View for FileLocation {
    type V = FileLocationView;

    open spec fn view(&self) -> FileLocationView {
        match self {
            FileLocation::Path(path) => FileLocationView::Path(path@),
            FileLocation::Custom(custom) => FileLocationView::Custom(custom@),
        }
    }
}

/// A place where a file may be.
#[derive(Debug)]
pub enum CandidatePathInfo {
    SingleFile(FileLocation),
    /// Inside of a macOS dyld shared cache.
    InDyldCache { dyld_cache_path: String, dylib_path: String },
}

/// The contents of a [`CandidatePathInfo`].
pub enum CandidateView {
    SingleFile(FileLocationView),
    InDyldCache { dyld_cache_path: Seq<char>, dylib_path: Seq<char> },
}

impl View for CandidatePathInfo {
    type V = CandidateView;

    open spec fn view(&self) -> CandidateView {
        match self {
            CandidatePathInfo::SingleFile(location) => CandidateView::SingleFile(location@),
            CandidatePathInfo::InDyldCache { dyld_cache_path, dylib_path } => {
                CandidateView::InDyldCache {
                    dyld_cache_path: dyld_cache_path@,
                    dylib_path: dylib_path@,
                }
            },
        }
    }
}

/// The contents of a list of places.
pub open spec fn candidates(list: Seq<CandidatePathInfo>) -> Seq<CandidateView> {
    list.map_values(|c: CandidatePathInfo| c@)
}

/// A file at a path.
pub open spec fn at_path(path: Seq<char>) -> CandidateView {
    CandidateView::SingleFile(FileLocationView::Path(path))
}

/// A file at a place that is identified by a string.
pub open spec fn at_custom(custom: Seq<char>) -> CandidateView {
    CandidateView::SingleFile(FileLocationView::Custom(custom))
}

/// Adds a file at a path.
pub(crate) fn push_path(paths: &mut Vec<CandidatePathInfo>, path: String)
    ensures
        candidates(final(paths)@) == candidates(old(paths)@).push(at_path(path@)),
{
    paths.push(CandidatePathInfo::SingleFile(FileLocation::Path(path)));
    assert(candidates(paths@) =~= candidates(old(paths)@).push(at_path(path@)));
}

/// Adds a file at a place that is identified by a string.
fn push_custom(paths: &mut Vec<CandidatePathInfo>, custom: String)
    ensures
        candidates(final(paths)@) == candidates(old(paths)@).push(at_custom(custom@)),
{
    paths.push(CandidatePathInfo::SingleFile(FileLocation::Custom(custom)));
    assert(candidates(paths@) =~= candidates(old(paths)@).push(at_custom(custom@)));
}

/// The path of the debug information file inside of a dSYM bundle.
pub open spec fn path_in_dsym(dsym_path: Seq<char>, name: Seq<char>) -> Seq<char> {
    joined(joined(joined(joined(dsym_path, "Contents"@), "Resources"@), "DWARF"@), name)
}

/// The path of the debug information file inside of a dSYM bundle.
fn join_in_dsym(dsym_path: &str, name: &str) -> (r: String)
    ensures
        r@ == path_in_dsym(dsym_path@, name@),
{
    let contents = join(dsym_path, "Contents");
    let resources = join(contents.as_str(), "Resources");
    let dwarf = join(resources.as_str(), "DWARF");
    join(dwarf.as_str(), name)
}

/// A dSYM bundle for a debug file of the given name, and the file inside of it.
pub open spec fn dsym_candidates(dsym_path: Seq<char>, name: Seq<char>) -> Seq<CandidateView> {
    seq![at_path(dsym_path), at_path(path_in_dsym(dsym_path, name))]
}

/// Files next to a debug file.
pub open spec fn sibling_candidates(debug_path: Seq<char>) -> Seq<CandidateView> {
    if ".so"@.is_suffix_of(debug_path) {
        seq![at_path(debug_path + ".dbg"@)]
    } else if ".pdb"@.is_suffix_of(debug_path) {
        seq![at_path(debug_path)]
    } else {
        Seq::empty()
    }
}

/// A dSYM bundle that was found by its identifier, and the file inside of it,
/// which is named like the bundle.
pub open spec fn found_dsym_candidates(dsym_path: Seq<char>) -> Seq<CandidateView> {
    match file_name_of(dsym_path) {
        Some(name) => dsym_candidates(dsym_path, without_trailing(name, ".dSYM"@)),
        None => seq![at_path(dsym_path)],
    }
}

/// The debug file that a build ID leads to.
pub open spec fn build_id_candidates(code_id: Seq<char>) -> Seq<CandidateView> {
    if code_id.len() > 2 {
        seq![
            at_path(
                "/usr/lib/debug/.build-id/"@ + code_id.take(2) + "/"@ + code_id.skip(2) + ".debug"@,
            ),
        ]
    } else {
        Seq::empty()
    }
}

/// The debug files that a guess at the debug link leads to.
pub open spec fn debug_link_candidates(debug_name: Seq<char>) -> Seq<CandidateView> {
    seq![
        at_path("/usr/bin/"@ + debug_name + ".debug"@),
        at_path("/usr/bin/.debug/"@ + debug_name + ".debug"@),
        at_path("/usr/lib/debug/usr/bin/"@ + debug_name + ".debug"@),
    ]
}

/// The name of the breakpad symbol file for a debug file.
pub open spec fn sym_file_name(debug_name: Seq<char>) -> Seq<char> {
    without_trailing(debug_name, ".pdb"@) + ".sym"@
}

/// The path of a breakpad symbol file in a directory.
pub open spec fn sym_path(dir: Seq<char>, debug_name: Seq<char>, debug_id: DebugId) -> Seq<char> {
    joined(joined(joined(dir, debug_name), breakpad_text(debug_id)), sym_file_name(debug_name))
}

/// The breakpad symbol files in several directories.
pub open spec fn sym_candidates(
    dirs: Seq<Seq<char>>,
    debug_name: Seq<char>,
    debug_id: DebugId,
) -> Seq<CandidateView> {
    dirs.map_values(|dir: Seq<char>| at_path(sym_path(dir, debug_name, debug_id)))
}

/// The prefix of what is looked up on a Windows symbol server.
pub open spec fn win_prefix() -> Seq<char> {
    "winsymbolserver:"@
}

/// The prefix of what is looked up on breakpad symbol servers.
pub open spec fn bp_prefix() -> Seq<char> {
    "bpsymbolserver:"@
}

/// The relative path of a file on a Windows symbol server.
pub open spec fn win_path(name: Seq<char>, id: Seq<char>) -> Seq<char> {
    name + "/"@ + id + "/"@ + name
}

/// The relative path of a symbol file on a breakpad symbol server.
pub open spec fn bp_path(debug_name: Seq<char>, debug_id: DebugId) -> Seq<char> {
    debug_name + "/"@ + breakpad_text(debug_id) + "/"@ + sym_file_name(debug_name)
}

/// The dyld shared caches of macOS.
pub open spec fn dyld_caches() -> Seq<Seq<char>> {
    seq![
        "/System/Volumes/Preboot/Cryptexes/OS/System/Library/dyld/dyld_shared_cache_arm64e"@,
        "/System/Volumes/Preboot/Cryptexes/OS/System/Library/dyld/dyld_shared_cache_x86_64"@,
        "/System/Library/dyld/dyld_shared_cache_arm64e"@,
        "/System/Library/dyld/dyld_shared_cache_x86_64h"@,
        "/System/Library/dyld/dyld_shared_cache_x86_64"@,
    ]
}

/// Whether a path may be that of a macOS system library.
pub open spec fn is_system_path(path: Seq<char>) -> bool {
    "/usr/"@.is_prefix_of(path) || "/System/"@.is_prefix_of(path)
}

/// The places in the dyld shared caches for a library.
pub open spec fn dyld_candidates(path: Seq<char>) -> Seq<CandidateView> {
    if is_system_path(path) {
        dyld_caches().map_values(
            |cache: Seq<char>|
                CandidateView::InDyldCache { dyld_cache_path: cache, dylib_path: path },
        )
    } else {
        Seq::empty()
    }
}

/// Adds a dSYM bundle and the file inside of it.
pub(crate) fn push_dsym(paths: &mut Vec<CandidatePathInfo>, dsym_path: &str, name: &str)
    ensures
        candidates(final(paths)@) == candidates(old(paths)@) + dsym_candidates(dsym_path@, name@),
{
    push_path(paths, dsym_path.to_owned());
    push_path(paths, join_in_dsym(dsym_path, name));
    assert(candidates(paths@) =~= candidates(old(paths)@) + dsym_candidates(dsym_path@, name@));
}

/// Adds files next to a debug file.
pub(crate) fn push_siblings(paths: &mut Vec<CandidatePathInfo>, debug_path: &str)
    ensures
        candidates(final(paths)@) == candidates(old(paths)@) + sibling_candidates(debug_path@),
{
    proof {
        lemma_so_is_not_pdb(debug_path@);
    }
    // Also consider .so.dbg files in the same directory.
    if ends_with(debug_path, ".so") {
        push_path(paths, concat(debug_path, ".dbg"));
    }
    if ends_with(debug_path, ".pdb") {
        // Get symbols from the pdb file.
        push_path(paths, debug_path.to_owned());
    }
    assert(candidates(paths@) =~= candidates(old(paths)@) + sibling_candidates(debug_path@));
}

proof fn lemma_so_is_not_pdb(path: Seq<char>)
    ensures
        !(".so"@.is_suffix_of(path) && ".pdb"@.is_suffix_of(path)),
{
    reveal_strlit(".so");
    reveal_strlit(".pdb");
    if ".so"@.is_suffix_of(path) && ".pdb"@.is_suffix_of(path) {
        assert(path.last() == ".so"@.last());
        assert(path.last() == ".pdb"@.last());
    }
}

/// Adds a dSYM bundle that was found by its identifier.
pub(crate) fn push_found_dsym(paths: &mut Vec<CandidatePathInfo>, dsym_path: &str)
    ensures
        candidates(final(paths)@) == candidates(old(paths)@) + found_dsym_candidates(dsym_path@),
{
    match file_name(dsym_path) {
        Some(name) => push_dsym(paths, dsym_path, trim_end_matches(name, ".dSYM")),
        None => {
            push_path(paths, dsym_path.to_owned());
            assert(candidates(paths@) =~= candidates(old(paths)@) + found_dsym_candidates(
                dsym_path@,
            ));
        },
    }
}

/// Adds the debug file that a build ID leads to.
pub(crate) fn push_build_id(paths: &mut Vec<CandidatePathInfo>, code_id: &CodeId)
    ensures
        candidates(final(paths)@) == candidates(old(paths)@) + build_id_candidates(code_id@),
{
    let code_id = code_id.as_str();
    let n: usize = code_id.unicode_len();
    if n > 2 {
        let two_chars = code_id.substring_char(0, 2);
        let rest = code_id.substring_char(2, n);
        assert(two_chars@ =~= code_id@.take(2));
        assert(rest@ =~= code_id@.skip(2));
        let dir = concat3("/usr/lib/debug/.build-id/", two_chars, "/");
        push_path(paths, concat3(dir.as_str(), rest, ".debug"));
    }
    assert(candidates(paths@) =~= candidates(old(paths)@) + build_id_candidates(code_id@));
}

/// Adds the debug files that a guess at the debug link leads to.
pub(crate) fn push_debug_links(paths: &mut Vec<CandidatePathInfo>, debug_name: &str)
    ensures
        candidates(final(paths)@) == candidates(old(paths)@) + debug_link_candidates(debug_name@),
{
    // Fake "debug link" support. We hardcode a "debug link name" of
    // `{debug_name}.debug`.
    push_path(paths, concat3("/usr/bin/", debug_name, ".debug"));
    push_path(paths, concat3("/usr/bin/.debug/", debug_name, ".debug"));
    push_path(paths, concat3("/usr/lib/debug/usr/bin/", debug_name, ".debug"));
    assert(candidates(paths@) =~= candidates(old(paths)@) + debug_link_candidates(debug_name@));
}

/// The name of the breakpad symbol file for a debug file.
fn make_sym_file_name(debug_name: &str) -> (r: String)
    ensures
        r@ == sym_file_name(debug_name@),
{
    concat(trim_end_matches(debug_name, ".pdb"), ".sym")
}

/// The path of a breakpad symbol file in a directory.
pub fn breakpad_sym_path(dir: &str, debug_name: &str, debug_id: DebugId) -> (r: String)
    ensures
        r@ == sym_path(dir@, debug_name@, debug_id),
{
    let with_name = join(dir, debug_name);
    let with_id = join(with_name.as_str(), breakpad(debug_id).as_str());
    join(with_id.as_str(), make_sym_file_name(debug_name).as_str())
}

/// Adds the breakpad symbol file in a directory.
pub(crate) fn push_sym(
    paths: &mut Vec<CandidatePathInfo>,
    dir: &str,
    debug_name: &str,
    debug_id: DebugId,
)
    ensures
        candidates(final(paths)@) == candidates(old(paths)@).push(
            at_path(sym_path(dir@, debug_name@, debug_id)),
        ),
{
    push_path(paths, breakpad_sym_path(dir, debug_name, debug_id));
}

/// Adds a file on a Windows symbol server.
pub(crate) fn push_on_win_server(paths: &mut Vec<CandidatePathInfo>, name: &str, id: &str)
    ensures
        candidates(final(paths)@) == candidates(old(paths)@).push(
            at_custom(win_prefix() + win_path(name@, id@)),
        ),
{
    let path = concat3(concat3(name, "/", id).as_str(), "/", name);
    push_custom(paths, concat("winsymbolserver:", path.as_str()));
}

/// Adds a symbol file on a breakpad symbol server.
pub(crate) fn push_on_bp_server(
    paths: &mut Vec<CandidatePathInfo>,
    debug_name: &str,
    debug_id: DebugId,
)
    ensures
        candidates(final(paths)@) == candidates(old(paths)@).push(
            at_custom(bp_prefix() + bp_path(debug_name@, debug_id)),
        ),
{
    let dir = concat3(debug_name, "/", breakpad(debug_id).as_str());
    let path = concat3(dir.as_str(), "/", make_sym_file_name(debug_name).as_str());
    push_custom(paths, concat("bpsymbolserver:", path.as_str()));
}

/// Adds a place in a dyld shared cache.
fn push_dyld_cache(paths: &mut Vec<CandidatePathInfo>, dyld_cache_path: &str, path: &str)
    ensures
        candidates(final(paths)@) == candidates(old(paths)@).push(
            CandidateView::InDyldCache { dyld_cache_path: dyld_cache_path@, dylib_path: path@ },
        ),
{
    let ghost entry = CandidateView::InDyldCache {
        dyld_cache_path: dyld_cache_path@,
        dylib_path: path@,
    };
    paths.push(
        CandidatePathInfo::InDyldCache {
            dyld_cache_path: dyld_cache_path.to_owned(),
            dylib_path: path.to_owned(),
        },
    );
    assert(candidates(paths@) =~= candidates(old(paths)@).push(entry));
}

/// Adds the places in the dyld shared caches for a library.
pub(crate) fn push_dyld_caches(paths: &mut Vec<CandidatePathInfo>, path: &str)
    ensures
        candidates(final(paths)@) == candidates(old(paths)@) + dyld_candidates(path@),
{
    // For macOS system libraries, also consult the dyld shared cache.
    if starts_with(path, "/usr/") || starts_with(path, "/System/") {
        push_dyld_cache(
            paths,
            "/System/Volumes/Preboot/Cryptexes/OS/System/Library/dyld/dyld_shared_cache_arm64e",
            path,
        );
        push_dyld_cache(
            paths,
            "/System/Volumes/Preboot/Cryptexes/OS/System/Library/dyld/dyld_shared_cache_x86_64",
            path,
        );
        push_dyld_cache(paths, "/System/Library/dyld/dyld_shared_cache_arm64e", path);
        push_dyld_cache(paths, "/System/Library/dyld/dyld_shared_cache_x86_64h", path);
        push_dyld_cache(paths, "/System/Library/dyld/dyld_shared_cache_x86_64", path);
    }
    assert(candidates(paths@) =~= candidates(old(paths)@) + dyld_candidates(path@));
}

} // verus!
