//! Where the files of libraries are looked for, place by place, and what is
//! known of libraries.

use crate::candidates::{
    debug_link_candidates, dyld_candidates, sym_candidates, CandidateView, FileLocationView,
};
use crate::helper::{
    binary_candidates, can_open, code_id_candidates, debug_file_candidates, debug_id_candidates,
    debug_name_candidates, debug_path_candidates, file_source, is_download, looks_for_dsym,
    own_candidates, symbol_candidates, BreakpadDownload, BreakpadServer, FileSourceView,
    SymbolManagerConfig,
};
use crate::ids::{
    breakpad_text, code_id_text, hex_digit, hex_minimal, hex_padded, DebugId,
};
use crate::library_info::{hex_text, is_hex_digit, lower_digit, KnownLibsView, LibraryInfoView};
use crate::text::{file_name_of, joined, without_trailing};
use crate::text_laws::law_starts_are_taken_away;
use vstd::prelude::*;

verus! {

/// Whether a place is the file at a path.
pub open spec fn is_at(place: CandidateView, path: Seq<char>) -> bool {
    place == CandidateView::SingleFile(FileLocationView::Path(path))
}

/// Whether a place is identified by a text.
pub open spec fn is_found_by(place: CandidateView, text: Seq<char>) -> bool {
    place == CandidateView::SingleFile(FileLocationView::Custom(text))
}

/// Whether a place is that of a library in a dyld shared cache.
pub open spec fn is_in_cache(place: CandidateView, cache: Seq<char>, path: Seq<char>) -> bool {
    place == (CandidateView::InDyldCache { dyld_cache_path: cache, dylib_path: path })
}

/// The path of the symbol file for a debug file below a directory.
pub open spec fn symbol_file_below(
    dir: Seq<char>,
    debug_name: Seq<char>,
    debug_id: DebugId,
) -> Seq<char> {
    joined(
        joined(joined(dir, debug_name), breakpad_text(debug_id)),
        without_trailing(debug_name, ".pdb"@) + ".sym"@,
    )
}

/// How many places there are of each sort, in the order in which they are
/// tried.
pub struct PlaceCounts {
    /// The dSYM bundle at the debug file's path, and the file in it.
    pub bundle: int,
    /// The file next to the debug file.
    pub sibling: int,
    /// The dSYM bundle with the debug file's identifier, and the file in it.
    pub found_bundle: int,
    /// The file for the build ID.
    pub build_id: int,
    /// The files for the debug link.
    pub links: int,
    /// The symbol files in directories.
    pub directories: int,
    /// The symbol files in the cache directories of servers.
    pub caches: int,
    /// The file on the Windows symbol server.
    pub windows: int,
    /// The file on the breakpad symbol servers.
    pub servers: int,
    /// The code file.
    pub own: int,
    /// The dyld shared caches.
    pub dyld: int,
}

/// One or none.
pub open spec fn one_if(there: bool) -> int {
    if there {
        1
    } else {
        0
    }
}

/// Whether a library may be one of the system's.
pub open spec fn is_of_system(path: Seq<char>) -> bool {
    "/usr/"@.is_prefix_of(path) || "/System/"@.is_prefix_of(path)
}

/// How many places for a debug file there are of each sort.
pub open spec fn place_counts(
    config: SymbolManagerConfig,
    info: LibraryInfoView,
    dsym: Option<Seq<char>>,
    found_dsym: Option<Seq<char>>,
) -> PlaceCounts {
    let has_path = info.debug_path is Some && info.debug_name is Some;
    let has_bundle = has_path && info.debug_id is Some && dsym is Some;
    let has_key = info.debug_name is Some && info.debug_id is Some;
    PlaceCounts {
        bundle: 2 * one_if(has_bundle),
        sibling: one_if(
            has_path && (".so"@.is_suffix_of(info.debug_path->0) || ".pdb"@.is_suffix_of(
                info.debug_path->0,
            )),
        ),
        found_bundle: if !has_bundle && info.debug_id is Some && found_dsym is Some {
            1 + one_if(file_name_of(found_dsym->0) is Some)
        } else {
            0
        },
        build_id: one_if(info.code_id is Some && info.code_id->0.len() > 2),
        links: 3 * one_if(info.debug_name is Some),
        directories: one_if(has_key) * config.breakpad_directories_readonly@.len(),
        caches: one_if(has_key) * config.breakpad_servers@.len(),
        windows: one_if(
            has_key && ".pdb"@.is_suffix_of(info.debug_name->0) && config.nt_symbol_path is Some,
        ),
        servers: one_if(has_key && config.breakpad_servers@.len() > 0),
        own: one_if(info.path is Some),
        dyld: 5 * one_if(info.path is Some && is_of_system(info.path->0)),
    }
}

proof fn lemma_symbols(config: SymbolManagerConfig, debug_name: Seq<char>, debug_id: DebugId)
    ensures
        ({
            let places = symbol_candidates(config, debug_name, debug_id);
            let d = config.breakpad_directories_readonly@.len() as int;
            let s = config.breakpad_servers@.len() as int;
            let w = one_if(".pdb"@.is_suffix_of(debug_name) && config.nt_symbol_path is Some);
            &&& places.len() == d + s + w + one_if(s > 0)
            &&& forall|i: int|
                0 <= i < d ==> is_at(
                    places[i],
                    symbol_file_below(
                        (#[trigger] config.breakpad_directories_readonly@[i])@,
                        debug_name,
                        debug_id,
                    ),
                )
            &&& forall|i: int|
                0 <= i < s ==> is_at(
                    places[d + i],
                    symbol_file_below(
                        (#[trigger] config.breakpad_servers@[i]).cache_dir@,
                        debug_name,
                        debug_id,
                    ),
                )
            &&& w == 1 ==> is_found_by(
                places[d + s],
                "winsymbolserver:"@ + (debug_name + "/"@ + breakpad_text(debug_id) + "/"@
                    + debug_name),
            )
            &&& s > 0 ==> is_found_by(
                places[d + s + w],
                "bpsymbolserver:"@ + (debug_name + "/"@ + breakpad_text(debug_id) + "/"@ + (
                without_trailing(debug_name, ".pdb"@) + ".sym"@)),
            )
        }),
{
    let places = symbol_candidates(config, debug_name, debug_id);
    let dirs = config.breakpad_directories_readonly@;
    let servers = config.breakpad_servers@;
    let in_dirs = sym_candidates(config.directories(), debug_name, debug_id);
    let in_caches = sym_candidates(config.cache_dirs(), debug_name, debug_id);
    let d = dirs.len() as int;
    assert forall|i: int| 0 <= i < d implies is_at(
        places[i],
        symbol_file_below((#[trigger] dirs[i])@, debug_name, debug_id),
    ) by {
        assert(places[i] == in_dirs[i]);
    }
    assert forall|i: int| 0 <= i < servers.len() implies is_at(
        places[d + i],
        symbol_file_below((#[trigger] servers[i]).cache_dir@, debug_name, debug_id),
    ) by {
        assert(places[d + i] == in_caches[i]);
    }
}

/// The places for a debug file that its own path and its identifier lead to:
/// first a dSYM bundle at the path, then a file next to the debug file, then a
/// dSYM bundle with the identifier, unless there was one already, then the
/// file for the build ID.
pub proof fn law_debug_files_are_looked_for_nearby_first(
    config: SymbolManagerConfig,
    info: LibraryInfoView,
    dsym: Option<Seq<char>>,
    found_dsym: Option<Seq<char>>,
)
    ensures
        ({
            let places = debug_file_candidates(config, info, dsym, found_dsym);
            let n = place_counts(config, info, dsym, found_dsym);
            let second = n.bundle;
            let third = second + n.sibling;
            let fourth = third + n.found_bundle;
            &&& places.len() >= fourth + n.build_id
            &&& n.bundle > 0 ==> is_at(places[0], dsym->0)
            &&& n.bundle > 0 ==> is_at(
                places[1],
                joined(
                    joined(joined(joined(dsym->0, "Contents"@), "Resources"@), "DWARF"@),
                    info.debug_name->0,
                ),
            )
            &&& n.sibling > 0 && ".so"@.is_suffix_of(info.debug_path->0) ==> is_at(
                places[second],
                info.debug_path->0 + ".dbg"@,
            )
            &&& n.sibling > 0 && !".so"@.is_suffix_of(info.debug_path->0) ==> is_at(
                places[second],
                info.debug_path->0,
            )
            &&& n.found_bundle > 0 ==> is_at(places[third], found_dsym->0)
            &&& n.found_bundle > 1 ==> is_at(
                places[third + 1],
                joined(
                    joined(joined(joined(found_dsym->0, "Contents"@), "Resources"@), "DWARF"@),
                    without_trailing(file_name_of(found_dsym->0)->0, ".dSYM"@),
                ),
            )
            &&& n.build_id > 0 ==> is_at(
                places[fourth],
                "/usr/lib/debug/.build-id/"@ + info.code_id->0.take(2) + "/"@
                    + info.code_id->0.skip(2) + ".debug"@,
            )
        }),
{
    let places = debug_file_candidates(config, info, dsym, found_dsym);
    let n = place_counts(config, info, dsym, found_dsym);
    let by_path = debug_path_candidates(info, dsym);
    let by_id = debug_id_candidates(info, dsym, found_dsym);
    let by_code = code_id_candidates(info);
    assert(by_path.len() == n.bundle + n.sibling);
    assert(by_id.len() == n.found_bundle);
    assert(by_code.len() == n.build_id);
    assert forall|i: int| 0 <= i < by_path.len() implies #[trigger] places[i] == by_path[i] by {}
    assert forall|i: int| 0 <= i < by_id.len() implies places[by_path.len() + i]
        == #[trigger] by_id[i] by {}
    assert forall|i: int| 0 <= i < by_code.len() implies places[by_path.len() + by_id.len() + i]
        == #[trigger] by_code[i] by {}
    if n.found_bundle > 0 {
        assert(places[by_path.len() as int] == by_id[0]);
        if n.found_bundle > 1 {
            assert(places[by_path.len() as int + 1] == by_id[1]);
        }
    }
    if n.build_id > 0 {
        assert(places[by_path.len() as int + by_id.len()] == by_code[0]);
    }
}

/// Behind those come the places that the name of the debug file leads to: the
/// files for the debug link, the symbol file below every directory with symbol
/// files, whatever else is configured, that below the cache directory of every
/// server, the file on the Windows symbol server for a PDB file, if there is
/// such a server, and the symbol file on the breakpad symbol servers, if there
/// are any.
pub proof fn law_symbol_files_are_looked_for_by_name(
    config: SymbolManagerConfig,
    info: LibraryInfoView,
    dsym: Option<Seq<char>>,
    found_dsym: Option<Seq<char>>,
)
    requires
        info.debug_name is Some,
    ensures
        ({
            let places = debug_file_candidates(config, info, dsym, found_dsym);
            let n = place_counts(config, info, dsym, found_dsym);
            let name = info.debug_name->0;
            let id = info.debug_id->0;
            let first = n.bundle + n.sibling + n.found_bundle + n.build_id;
            let in_dirs = first + 3;
            let in_caches = in_dirs + n.directories;
            let on_windows = in_caches + n.caches;
            let on_servers = on_windows + n.windows;
            &&& places.len() == on_servers + n.servers + n.own + n.dyld
            &&& is_at(places[first], "/usr/bin/"@ + name + ".debug"@)
            &&& is_at(places[first + 1], "/usr/bin/.debug/"@ + name + ".debug"@)
            &&& is_at(places[first + 2], "/usr/lib/debug/usr/bin/"@ + name + ".debug"@)
            &&& info.debug_id is Some ==> forall|i: int|
                0 <= i < config.breakpad_directories_readonly@.len() ==> is_at(
                    places[in_dirs + i],
                    symbol_file_below(
                        (#[trigger] config.breakpad_directories_readonly@[i])@,
                        name,
                        id,
                    ),
                )
            &&& info.debug_id is Some ==> forall|i: int|
                0 <= i < config.breakpad_servers@.len() ==> is_at(
                    places[in_caches + i],
                    symbol_file_below(
                        (#[trigger] config.breakpad_servers@[i]).cache_dir@,
                        name,
                        id,
                    ),
                )
            &&& n.windows > 0 ==> is_found_by(
                places[on_windows],
                "winsymbolserver:"@ + (name + "/"@ + breakpad_text(id) + "/"@ + name),
            )
            &&& n.servers > 0 ==> is_found_by(
                places[on_servers],
                "bpsymbolserver:"@ + (name + "/"@ + breakpad_text(id) + "/"@ + (without_trailing(
                    name,
                    ".pdb"@,
                ) + ".sym"@)),
            )
        }),
{
    let places = debug_file_candidates(config, info, dsym, found_dsym);
    let n = place_counts(config, info, dsym, found_dsym);
    let name = info.debug_name->0;
    let by_path = debug_path_candidates(info, dsym);
    let by_id = debug_id_candidates(info, dsym, found_dsym);
    let by_code = code_id_candidates(info);
    let named = debug_name_candidates(config, info);
    let own = own_candidates(info);
    let links = debug_link_candidates(name);
    let first = n.bundle + n.sibling + n.found_bundle + n.build_id;
    assert(by_path.len() == n.bundle + n.sibling);
    assert(by_id.len() == n.found_bundle);
    assert(by_code.len() == n.build_id);
    assert(own.len() == n.own + n.dyld);
    assert forall|i: int| 0 <= i < named.len() implies places[first + i] == #[trigger] named[i] by {
    }
    assert(places[first] == named[0] && named[0] == links[0]);
    assert(places[first + 1] == named[1] && named[1] == links[1]);
    assert(places[first + 2] == named[2] && named[2] == links[2]);
    if info.debug_id is Some {
        let id = info.debug_id->0;
        let symbols = symbol_candidates(config, name, id);
        lemma_symbols(config, name, id);
        let d = config.breakpad_directories_readonly@.len() as int;
        let s = config.breakpad_servers@.len() as int;
        assert(n.directories == d && n.caches == s);
        assert forall|i: int| 0 <= i < symbols.len() implies places[first + 3 + i]
            == #[trigger] symbols[i] by {
            assert(named[3 + i] == symbols[i]);
        }
        assert forall|i: int| 0 <= i < d implies is_at(
            places[first + 3 + i],
            symbol_file_below((#[trigger] config.breakpad_directories_readonly@[i])@, name, id),
        ) by {
            assert(places[first + 3 + i] == symbols[i]);
        }
        assert forall|i: int| 0 <= i < s implies is_at(
            places[first + 3 + d + i],
            symbol_file_below((#[trigger] config.breakpad_servers@[i]).cache_dir@, name, id),
        ) by {
            assert(places[first + 3 + (d + i)] == symbols[d + i]);
        }
        if n.windows > 0 {
            assert(places[first + 3 + (d + s)] == symbols[d + s]);
        }
        if n.servers > 0 {
            assert(places[first + 3 + (d + s + n.windows)] == symbols[d + s + n.windows]);
        }
    } else {
        assert(n.directories == 0 && n.caches == 0);
    }
}

/// Without a name of the debug file there are no such places.
pub proof fn law_nameless_debug_files_have_fewer_places(
    config: SymbolManagerConfig,
    info: LibraryInfoView,
    dsym: Option<Seq<char>>,
    found_dsym: Option<Seq<char>>,
)
    requires
        info.debug_name is None,
    ensures
        ({
            let n = place_counts(config, info, dsym, found_dsym);
            debug_file_candidates(config, info, dsym, found_dsym).len() == n.found_bundle
                + n.build_id + n.own + n.dyld
        }),
{
    let n = place_counts(config, info, dsym, found_dsym);
    assert(debug_path_candidates(info, dsym).len() == 0);
    assert(debug_id_candidates(info, dsym, found_dsym).len() == n.found_bundle);
    assert(code_id_candidates(info).len() == n.build_id);
    assert(own_candidates(info).len() == n.own + n.dyld);
}

/// Whether the places from one on are those in the dyld shared caches, with
/// those of the newest systems first.
pub open spec fn are_cache_places(places: Seq<CandidateView>, from: int, path: Seq<char>) -> bool {
    &&& is_in_cache(
        places[from],
        "/System/Volumes/Preboot/Cryptexes/OS/System/Library/dyld/dyld_shared_cache_arm64e"@,
        path,
    )
    &&& is_in_cache(
        places[from + 1],
        "/System/Volumes/Preboot/Cryptexes/OS/System/Library/dyld/dyld_shared_cache_x86_64"@,
        path,
    )
    &&& is_in_cache(places[from + 2], "/System/Library/dyld/dyld_shared_cache_arm64e"@, path)
    &&& is_in_cache(places[from + 3], "/System/Library/dyld/dyld_shared_cache_x86_64h"@, path)
    &&& is_in_cache(places[from + 4], "/System/Library/dyld/dyld_shared_cache_x86_64"@, path)
}

/// The last places for a debug file are the code file itself and, for a library
/// of the system, the dyld shared caches.
pub proof fn law_code_file_is_the_last_resort(
    config: SymbolManagerConfig,
    info: LibraryInfoView,
    dsym: Option<Seq<char>>,
    found_dsym: Option<Seq<char>>,
)
    requires
        info.path is Some,
    ensures
        ({
            let places = debug_file_candidates(config, info, dsym, found_dsym);
            let end = places.len() as int;
            let path = info.path->0;
            &&& !is_of_system(path) ==> end >= 1 && is_at(places[end - 1], path)
            &&& is_of_system(path) ==> end >= 6 && is_at(places[end - 6], path)
                && are_cache_places(places, end - 5, path)
        }),
{
    let places = debug_file_candidates(config, info, dsym, found_dsym);
    let end = places.len() as int;
    let own = own_candidates(info);
    let path = info.path->0;
    assert forall|i: int| 0 <= i < own.len() implies places[end - own.len() + i]
        == #[trigger] own[i] by {}
    if is_of_system(path) {
        assert(own.len() == 6);
        assert(places[end - 6] == own[0]);
        assert(places[end - 5] == own[1]);
        assert(places[end - 4] == own[2]);
        assert(places[end - 3] == own[3]);
        assert(places[end - 2] == own[4]);
        assert(places[end - 1] == own[5]);
    } else {
        assert(places[end - 1] == own[0]);
    }
}

/// The places for a code file: its own path, the Windows symbol server, if
/// there is one and the file has a name and an identifier, and, for a library
/// of the system, the dyld shared caches.
pub proof fn law_code_files_are_looked_for_at_their_path(
    config: SymbolManagerConfig,
    info: LibraryInfoView,
)
    ensures
        ({
            let places = binary_candidates(config, info);
            let own = one_if(info.path is Some);
            let on_windows = one_if(
                config.nt_symbol_path is Some && info.name is Some && info.code_id is Some,
            );
            let is_system = info.path is Some && is_of_system(info.path->0);
            &&& places.len() == own + on_windows + 5 * one_if(is_system)
            &&& info.path is Some ==> is_at(places[0], info.path->0)
            &&& on_windows > 0 ==> is_found_by(
                places[own],
                "winsymbolserver:"@ + (info.name->0 + "/"@ + info.code_id->0 + "/"@
                    + info.name->0),
            )
            &&& is_system ==> are_cache_places(places, own + on_windows, info.path->0)
        }),
{
    let places = binary_candidates(config, info);
    if info.path is Some {
        let caches = dyld_candidates(info.path->0);
        let from = places.len() - caches.len();
        assert forall|i: int| 0 <= i < caches.len() implies places[from + i]
            == #[trigger] caches[i] by {}
        if is_of_system(info.path->0) {
            assert(places[from + 0] == caches[0]);
            assert(places[from + 1] == caches[1]);
            assert(places[from + 2] == caches[2]);
            assert(places[from + 3] == caches[3]);
            assert(places[from + 4] == caches[4]);
        }
    }
}

/// Below an ordinary directory the symbol file stands in a directory of the
/// debug file's name, and in that in one of its identifier.
pub proof fn law_symbol_files_stand_below_name_and_identifier(
    dir: Seq<char>,
    debug_name: Seq<char>,
    debug_id: DebugId,
)
    requires
        dir.len() > 0,
        dir.last() != '/',
        debug_name.len() > 0,
        debug_name[0] != '/',
        debug_name.last() != '/',
    ensures
        symbol_file_below(dir, debug_name, debug_id) == dir + "/"@ + debug_name + "/"@
            + breakpad_text(debug_id) + "/"@ + without_trailing(debug_name, ".pdb"@) + ".sym"@,
{
    reveal_strlit("/");
    reveal_strlit(".sym");
    reveal_strlit(".pdb");
    crate::helper::lemma_breakpad_text_is_a_name(debug_id);
    crate::helper::lemma_without_trailing_is_prefix(debug_name, ".pdb"@);
    let stem = without_trailing(debug_name, ".pdb"@);
    let file = stem + ".sym"@;
    let id = breakpad_text(debug_id);
    assert(file[0] != '/') by {
        if stem.len() > 0 {
            assert(file[0] == stem[0]);
            assert(stem[0] == debug_name[0]);
        } else {
            assert(file[0] == ".sym"@[0]);
        }
    }
    let in_dir = joined(dir, debug_name);
    assert(in_dir == dir + "/"@ + debug_name);
    assert(in_dir.last() == debug_name.last());
    let in_name = joined(in_dir, id);
    assert(in_name == in_dir + "/"@ + id);
    assert(in_name.last() == id.last());
    assert(symbol_file_below(dir, debug_name, debug_id) == in_name + "/"@ + file);
    assert(symbol_file_below(dir, debug_name, debug_id) =~= dir + "/"@ + debug_name + "/"@ + id
        + "/"@ + stem + ".sym"@);
}

/// A path leads to the file at the path, a text with the mark of a symbol
/// server to the file on the server, and no other text to anything. A file on
/// the Windows symbol server can be asked for only if there is such a server.
pub proof fn law_locations_lead_to_files(
    config: SymbolManagerConfig,
    path: Seq<char>,
    text: Seq<char>,
)
    ensures
        file_source(FileLocationView::Path(path)) == Some(FileSourceView::LocalFile(path)),
        can_open(config, FileLocationView::Path(path)),
        file_source(FileLocationView::Custom("winsymbolserver:"@ + path)) == Some(
            FileSourceView::SymbolCache(path),
        ),
        can_open(config, FileLocationView::Custom("winsymbolserver:"@ + path))
            <==> config.nt_symbol_path is Some,
        file_source(FileLocationView::Custom("bpsymbolserver:"@ + path)) == Some(
            FileSourceView::BreakpadServers(path),
        ),
        can_open(config, FileLocationView::Custom("bpsymbolserver:"@ + path)),
        match file_source(FileLocationView::Custom(text)) {
            Some(FileSourceView::SymbolCache(rest)) => text == "winsymbolserver:"@ + rest,
            Some(FileSourceView::BreakpadServers(rest)) => text == "bpsymbolserver:"@ + rest,
            Some(FileSourceView::LocalFile(_)) => false,
            None => !can_open(config, FileLocationView::Custom(text)),
        },
{
    crate::helper::lemma_custom_sources(path);
    law_starts_are_taken_away("winsymbolserver:"@, path, text);
    law_starts_are_taken_away("bpsymbolserver:"@, path, text);
}

/// A file is downloaded from below the address of a server to below the
/// server's own cache directory, at the same relative path.
pub proof fn law_downloads_keep_the_relative_path(
    server: BreakpadServer,
    rel_path: Seq<char>,
    download: BreakpadDownload,
)
    requires
        is_download(server, rel_path, download),
    ensures
        download.url@ == server.url@.push('/') + rel_path,
        rel_path.len() > 0 && rel_path[0] != '/' && server.cache_dir@.len() > 0
            && server.cache_dir@.last() != '/' ==> download.dest_path@ == server.cache_dir@.push(
            '/',
        ) + rel_path,
{
    reveal_strlit("/");
    assert(server.url@ + "/"@ + rel_path =~= server.url@.push('/') + rel_path);
    assert(server.cache_dir@ + "/"@ + rel_path =~= server.cache_dir@.push('/') + rel_path);
}

/// A dSYM bundle at the debug file's path takes the path, the name and the
/// identifier of the debug file.
pub proof fn law_bundles_are_looked_for_with_path_name_and_identifier(info: LibraryInfoView)
    ensures
        looks_for_dsym(info) <==> info.debug_path is Some && info.debug_name is Some
            && info.debug_id is Some,
{
}

/// Whether a field is what it was, or else what it was filled in with.
pub open spec fn is_filled_from<T>(now: Option<T>, before: Option<T>, source: Option<T>) -> bool {
    &&& before is Some ==> now == before
    &&& before is None ==> now == source
}

/// Whether each field is what it was, or else what it was filled in with.
pub open spec fn all_filled_from(
    now: LibraryInfoView,
    before: LibraryInfoView,
    source: LibraryInfoView,
) -> bool {
    &&& is_filled_from(now.debug_name, before.debug_name, source.debug_name)
    &&& is_filled_from(now.debug_id, before.debug_id, source.debug_id)
    &&& is_filled_from(now.debug_path, before.debug_path, source.debug_path)
    &&& is_filled_from(now.name, before.name, source.name)
    &&& is_filled_from(now.code_id, before.code_id, source.code_id)
    &&& is_filled_from(now.path, before.path, source.path)
    &&& is_filled_from(now.arch, before.arch, source.arch)
}

/// Filling in takes over what is missing, field by field.
pub proof fn law_missing_fields_are_filled_in(info: LibraryInfoView, source: LibraryInfoView)
    ensures
        all_filled_from(info.absorbed(source), info, source),
{
}

/// A library is looked up by its debug file first. What this gives of the code
/// file is then used to look it up by its code file, and what the debug file
/// gave comes before what the code file gives.
pub proof fn law_debug_file_is_looked_up_before_the_code_file(
    known: KnownLibsView,
    info: LibraryInfoView,
    by_debug: LibraryInfoView,
)
    requires
        info.debug_name is Some && info.debug_id is Some ==> {
            let key = (info.debug_name->0, info.debug_id->0);
            &&& known.by_debug.dom().contains(key) ==> all_filled_from(
                by_debug,
                info,
                known.by_debug[key],
            )
            &&& !known.by_debug.dom().contains(key) ==> by_debug == info
        },
        info.debug_name is None || info.debug_id is None ==> by_debug == info,
    ensures
        by_debug.code_id is Some && known.by_code.dom().contains(
            (by_debug.name, by_debug.code_id->0),
        ) ==> all_filled_from(
            known.filled_in(info),
            by_debug,
            known.by_code[(by_debug.name, by_debug.code_id->0)],
        ),
        !(by_debug.code_id is Some && known.by_code.dom().contains(
            (by_debug.name, by_debug.code_id->0),
        )) ==> known.filled_in(info) == by_debug,
{
    assert(known.filled_by_debug(info) =~= by_debug);
}

/// A library is filed under the name and identifier of its debug file, if it
/// has both, and under those of its code file, if it has an identifier; in
/// place of what was filed there, and of nothing else.
pub proof fn law_libraries_are_filed_by_name_and_identifier(
    known: KnownLibsView,
    lib: LibraryInfoView,
)
    ensures
        ({
            let after = known.with_lib(lib);
            let key = (lib.debug_name->0, lib.debug_id->0);
            &&& lib.debug_name is Some && lib.debug_id is Some ==> {
                &&& after.by_debug.dom() == known.by_debug.dom().insert(key)
                &&& after.by_debug[key] == lib
                &&& after.by_debug.remove(key) == known.by_debug.remove(key)
            }
            &&& lib.debug_name is None || lib.debug_id is None ==> after.by_debug == known.by_debug
        }),
        ({
            let after = known.with_lib(lib);
            let key = (lib.name, lib.code_id->0);
            &&& lib.code_id is Some ==> {
                &&& after.by_code.dom() == known.by_code.dom().insert(key)
                &&& after.by_code[key] == lib
                &&& after.by_code.remove(key) == known.by_code.remove(key)
            }
            &&& lib.code_id is None ==> after.by_code == known.by_code
        }),
        KnownLibsView::empty().by_debug.dom() == Set::<(Seq<char>, DebugId)>::empty(),
        KnownLibsView::empty().by_code.dom() == Set::<(Option<Seq<char>>, Seq<char>)>::empty(),
{
    let after = known.with_lib(lib);
    let key = (lib.debug_name->0, lib.debug_id->0);
    assert(lib.debug_name is Some && lib.debug_id is Some ==> after.by_debug.remove(key)
        =~= known.by_debug.remove(key));
    assert(lib.debug_name is Some && lib.debug_id is Some ==> after.by_debug.dom()
        =~= known.by_debug.dom().insert(key));
    let code = (lib.name, lib.code_id->0);
    assert(lib.code_id is Some ==> after.by_code.remove(code) =~= known.by_code.remove(code));
    assert(lib.code_id is Some ==> after.by_code.dom() =~= known.by_code.dom().insert(code));
    assert(KnownLibsView::empty().by_debug.dom() =~= Set::<(Seq<char>, DebugId)>::empty());
    assert(KnownLibsView::empty().by_code.dom() =~= Set::<
        (Option<Seq<char>>, Seq<char>),
    >::empty());
}

/// The number that a hexadecimal digit stands for, none for other characters.
pub open spec fn digit_value(c: char) -> Option<int> {
    if '0' <= c && c <= '9' {
        Some(c as int - '0' as int)
    } else if 'a' <= c && c <= 'f' {
        Some(c as int - 'a' as int + 10)
    } else if 'A' <= c && c <= 'F' {
        Some(c as int - 'A' as int + 10)
    } else {
        None
    }
}

/// The number that hexadecimal digits stand for.
pub open spec fn number_of(digits: Seq<char>) -> int
    decreases digits.len(),
{
    if digits.len() == 0 {
        0
    } else {
        16 * number_of(digits.drop_last()) + digit_value(digits.last())->0
    }
}

/// Sixteen to the given power.
pub open spec fn sixteens(n: nat) -> int
    decreases n,
{
    if n == 0 {
        1
    } else {
        16 * sixteens((n - 1) as nat)
    }
}

/// Whether no digit is an upper case letter, or none is a lower case one.
pub open spec fn is_in_case(digits: Seq<char>, upper: bool) -> bool {
    forall|i: int|
        0 <= i < digits.len() ==> digit_value(#[trigger] digits[i]) is Some && if upper {
            digits[i] <= 'F'
        } else {
            digits[i] <= '9' || digits[i] >= 'a'
        }
}

proof fn lemma_digit(n: int, upper: bool)
    requires
        0 <= n < 16,
    ensures
        digit_value(hex_digit(n, upper)) == Some(n),
        is_in_case(seq![hex_digit(n, upper)], upper),
{
}

proof fn lemma_padded(n: nat, width: nat, upper: bool)
    requires
        n < sixteens(width),
    ensures
        hex_padded(n, width, upper).len() == width,
        number_of(hex_padded(n, width, upper)) == n,
        is_in_case(hex_padded(n, width, upper), upper),
    decreases width,
{
    if width > 0 {
        let shorter = hex_padded(n / 16, (width - 1) as nat, upper);
        lemma_padded(n / 16, (width - 1) as nat, upper);
        lemma_digit((n % 16) as int, upper);
        let all = hex_padded(n, width, upper);
        assert(all.drop_last() =~= shorter);
        assert forall|i: int| 0 <= i < all.len() implies digit_value(#[trigger] all[i]) is Some
            && if upper {
            all[i] <= 'F'
        } else {
            all[i] <= '9' || all[i] >= 'a'
        } by {
            if i < shorter.len() {
                assert(all[i] == shorter[i]);
            } else {
                assert(all[i] == seq![hex_digit((n % 16) as int, upper)][0]);
            }
        }
    }
}

proof fn lemma_minimal(n: nat, upper: bool)
    ensures
        hex_minimal(n, upper).len() > 0,
        number_of(hex_minimal(n, upper)) == n,
        is_in_case(hex_minimal(n, upper), upper),
        n > 0 ==> digit_value(hex_minimal(n, upper)[0]) != Some(0int),
        n == 0 ==> hex_minimal(n, upper).len() == 1,
    decreases n,
{
    reveal_with_fuel(number_of, 2);
    if n < 16 {
        lemma_digit(n as int, upper);
        let all = hex_minimal(n, upper);
        assert(all.drop_last() =~= Seq::<char>::empty());
        assert(all == seq![hex_digit(n as int, upper)]);
    } else {
        let shorter = hex_minimal(n / 16, upper);
        lemma_minimal(n / 16, upper);
        lemma_digit((n % 16) as int, upper);
        let all = hex_minimal(n, upper);
        assert(all.drop_last() =~= shorter);
        assert(all[0] == shorter[0]);
        assert forall|i: int| 0 <= i < all.len() implies digit_value(#[trigger] all[i]) is Some
            && if upper {
            all[i] <= 'F'
        } else {
            all[i] <= '9' || all[i] >= 'a'
        } by {
            if i < shorter.len() {
                assert(all[i] == shorter[i]);
            } else {
                assert(all[i] == seq![hex_digit((n % 16) as int, upper)][0]);
            }
        }
    }
}

/// The text of a debug identifier gives its two numbers back: the first stands
/// in 32 digits, or in eight for a PDB 2.0 identifier, in upper case, the
/// second in the digits behind it, in lower case and without leading zeros.
pub proof fn law_identifier_can_be_read_from_its_text(debug_id: DebugId)
    ensures
        ({
            let text = breakpad_text(debug_id);
            let (width, first, second) = match debug_id {
                DebugId::Uuid { uuid, appendix } => (32int, uuid as int, appendix as int),
                DebugId::Pdb20 { timestamp, age } => (8int, timestamp as int, age as int),
            };
            &&& text.len() > width
            &&& number_of(text.take(width)) == first
            &&& is_in_case(text.take(width), true)
            &&& number_of(text.skip(width)) == second
            &&& is_in_case(text.skip(width), false)
            &&& second > 0 ==> digit_value(text[width]) != Some(0int)
            &&& second == 0 ==> text.len() == width + 1
        }),
{
    let text = breakpad_text(debug_id);
    match debug_id {
        DebugId::Uuid { uuid, appendix } => {
            lemma_sixteens_32();
            lemma_padded(uuid as nat, 32, true);
            lemma_minimal(appendix as nat, false);
            assert(text.take(32) =~= hex_padded(uuid as nat, 32, true));
            assert(text.skip(32) =~= hex_minimal(appendix as nat, false));
        },
        DebugId::Pdb20 { timestamp, age } => {
            reveal_with_fuel(sixteens, 9);
            lemma_padded(timestamp as nat, 8, true);
            lemma_minimal(age as nat, false);
            assert(text.take(8) =~= hex_padded(timestamp as nat, 8, true));
            assert(text.skip(8) =~= hex_minimal(age as nat, false));
        },
    }
}

proof fn lemma_sixteens_32()
    ensures
        sixteens(32) == 0x1_0000_0000_0000_0000_0000_0000_0000_0000,
{
    reveal_with_fuel(sixteens, 33);
}

/// The text of a code identifier gives the bytes of the build ID back, two
/// lower case digits for each.
pub proof fn law_build_id_can_be_read_from_its_text(bytes: Seq<u8>, at: int)
    requires
        0 <= at < bytes.len(),
    ensures
        ({
            let text = code_id_text(bytes);
            &&& text.len() == 2 * bytes.len()
            &&& is_in_case(text, false)
            &&& 16 * digit_value(text[2 * at])->0 + digit_value(text[2 * at + 1])->0 == bytes[at]
        }),
{
    let text = code_id_text(bytes);
    assert forall|i: int| 0 <= i < text.len() implies digit_value(#[trigger] text[i]) is Some && (
    text[i] <= '9' || text[i] >= 'a') by {
        let b = bytes[i / 2] as int;
        lemma_digit(b / 16, false);
        lemma_digit(b % 16, false);
        assert(seq![hex_digit(b / 16, false)][0] == hex_digit(b / 16, false));
        assert(seq![hex_digit(b % 16, false)][0] == hex_digit(b % 16, false));
    }
    let b = bytes[at] as int;
    lemma_digit(b / 16, false);
    lemma_digit(b % 16, false);
    assert((2 * at) / 2 == at && (2 * at + 1) / 2 == at);
    assert((2 * at) % 2 == 0 && (2 * at + 1) % 2 == 1);
}

/// A code identifier consists of the hexadecimal digits of its text, in their
/// order and in lower case; all else is left out.
pub proof fn law_code_identifiers_consist_of_digits(text: Seq<char>, c: char)
    ensures
        hex_text(Seq::empty()) == Seq::<char>::empty(),
        digit_value(c) is None ==> hex_text(text.push(c)) == hex_text(text),
        digit_value(c) is Some ==> {
            let longer = hex_text(text.push(c));
            &&& longer.len() == hex_text(text).len() + 1
            &&& longer.drop_last() == hex_text(text)
            &&& digit_value(longer.last()) == digit_value(c)
            &&& longer.last() <= '9' || longer.last() >= 'a'
        },
{
    reveal(Seq::filter);
    let keep = |c: char| is_hex_digit(c);
    assert(text.push(c).drop_last() =~= text);
    assert(hex_text(Seq::empty()) =~= Seq::<char>::empty());
    let kept = text.filter(keep);
    if digit_value(c) is None {
        assert(text.push(c).filter(keep) == kept);
    } else {
        assert(text.push(c).filter(keep) == kept.push(c));
        let longer = hex_text(text.push(c));
        assert(longer =~= hex_text(text).push(lower_digit(c)));
        assert(longer.drop_last() =~= hex_text(text));
    }
}

} // verus!
