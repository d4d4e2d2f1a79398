//! Finds the files that hold the symbols of libraries.

use crate::candidates::{
    at_custom, at_path, bp_path, bp_prefix, build_id_candidates, candidates, debug_link_candidates,
    dsym_candidates, dyld_candidates, found_dsym_candidates, is_system_path, push_build_id,
    push_debug_links, push_dsym, push_dyld_caches, push_found_dsym, push_on_bp_server,
    push_on_win_server, push_path, push_siblings, push_sym, sibling_candidates, sym_candidates,
    sym_file_name, sym_path, win_path, win_prefix, CandidatePathInfo, CandidateView, FileLocation,
    FileLocationView,
};
use crate::ids::{breakpad, breakpad_text, hex_digit, hex_minimal, hex_padded, DebugId};
use crate::library_info::{KnownLibs, KnownLibsView, LibraryInfo, LibraryInfoView};
use crate::profile::{opt_str, texts};
use crate::text::{
    concat3, ends_with, join, joined, strip_prefix, without_prefix, without_trailing,
};
use vstd::prelude::*;

verus! {

/// A breakpad symbol server.
#[derive(Debug)]
pub struct BreakpadServer {
    pub url: String,
    /// The directory for the files of the server.
    pub cache_dir: String,
}

/// Where symbols are to be looked for.
#[derive(Debug)]
pub struct SymbolManagerConfig {
    /// The symbol path for Windows symbols, if there is one.
    pub nt_symbol_path: Option<String>,
    /// Directories with breakpad symbol files.
    pub breakpad_directories_readonly: Vec<String>,
    pub breakpad_servers: Vec<BreakpadServer>,
}

impl SymbolManagerConfig {
    /// The directories with breakpad symbol files.
    pub open spec fn directories(self) -> Seq<Seq<char>> {
        texts(self.breakpad_directories_readonly@)
    }

    /// The directories for the files of the breakpad symbol servers.
    pub open spec fn cache_dirs(self) -> Seq<Seq<char>> {
        self.breakpad_servers@.map_values(|server: BreakpadServer| server.cache_dir@)
    }

    /// Whether files can be got from a Windows symbol server.
    pub open spec fn has_symbol_cache(self) -> bool {
        self.nt_symbol_path is Some
    }

    /// Whether files can be got from a Windows symbol server.
    pub fn uses_symbol_cache(&self) -> (r: bool)
        ensures
            r == self.has_symbol_cache(),
    {
        self.nt_symbol_path.is_some()
    }
}

/// Finds the files of libraries.
pub struct Helper {
    pub config: SymbolManagerConfig,
    pub known_libs: KnownLibs,
}

/// Which dSYM bundles are to be looked for.
#[derive(Debug)]
pub struct DsymQuery {
    /// One for the debug file with this path.
    pub debug_path: Option<String>,
    /// One with this identifier.
    pub debug_id: Option<DebugId>,
}

/// The place that a location leads to.
#[derive(Debug)]
pub enum FileSource {
    /// The file at a path.
    LocalFile(String),
    /// A file that the Windows symbol cache is asked for.
    SymbolCache(String),
    /// A file that the breakpad symbol servers are asked for.
    BreakpadServers(String),
}

/// The contents of a [`FileSource`].
pub enum FileSourceView {
    LocalFile(Seq<char>),
    SymbolCache(Seq<char>),
    BreakpadServers(Seq<char>),
}

impl View for FileSource {
    type V = FileSourceView;

    open spec fn view(&self) -> FileSourceView {
        match self {
            FileSource::LocalFile(path) => FileSourceView::LocalFile(path@),
            FileSource::SymbolCache(path) => FileSourceView::SymbolCache(path@),
            FileSource::BreakpadServers(path) => FileSourceView::BreakpadServers(path@),
        }
    }
}

/// A file to be downloaded from a breakpad symbol server.
#[derive(Debug)]
pub struct BreakpadDownload {
    pub url: String,
    /// Where the file goes.
    pub dest_path: String,
}

/// Whether this is the download of a file from a breakpad symbol server.
pub open spec fn is_download(
    server: BreakpadServer,
    rel_path: Seq<char>,
    download: BreakpadDownload,
) -> bool {
    &&& download.url@ == server.url@ + "/"@ + rel_path
    &&& download.dest_path@ == joined(server.cache_dir@, rel_path)
}

/// A step of the search for a file on the breakpad symbol servers.
#[derive(Debug)]
pub enum DownloadStep {
    /// The file was found.
    Found,
    /// The file is to be downloaded from the next server.
    Next(BreakpadDownload),
    /// No server has the file.
    NotFound,
}

/// The place that a location leads to; `None` for a string that identifies
/// nothing.
pub open spec fn file_source(location: FileLocationView) -> Option<FileSourceView> {
    match location {
        FileLocationView::Path(path) => Some(FileSourceView::LocalFile(path)),
        FileLocationView::Custom(custom) => if without_prefix(custom, win_prefix()) is Some {
            Some(FileSourceView::SymbolCache(without_prefix(custom, win_prefix())->0))
        } else if without_prefix(custom, bp_prefix()) is Some {
            Some(FileSourceView::BreakpadServers(without_prefix(custom, bp_prefix())->0))
        } else {
            None
        },
    }
}

/// Whether a location leads to a file that can be asked for.
pub open spec fn can_open(config: SymbolManagerConfig, location: FileLocationView) -> bool {
    file_source(location) is Some && (file_source(location)->0 is SymbolCache
        ==> config.has_symbol_cache())
}

/// A simple helper for opening local files.
pub struct FileReadOnlyHelper;

impl FileReadOnlyHelper {
    /// The path of the file at a location.
    pub fn open_file<'a>(&self, location: &'a FileLocation) -> (path: &'a str)
        requires
            location is Path,
        ensures
            FileLocationView::Path(path@) == location@,
    {
        match location {
            FileLocation::Path(path) => path.as_str(),
            FileLocation::Custom(custom) => custom.as_str(),
        }
    }
}

/// Whether a dSYM bundle for the debug file is to be looked for.
pub open spec fn looks_for_dsym(info: LibraryInfoView) -> bool {
    info.debug_path is Some && info.debug_name is Some && info.debug_id is Some
}

/// The places for the debug file that its own path leads to. `dsym` is the
/// dSYM bundle that was found there.
pub open spec fn debug_path_candidates(info: LibraryInfoView, dsym: Option<Seq<char>>) -> Seq<
    CandidateView,
> {
    if info.debug_path is Some && info.debug_name is Some {
        (if info.debug_id is Some && dsym is Some {
            dsym_candidates(dsym->0, info.debug_name->0)
        } else {
            Seq::empty()
        }) + sibling_candidates(info.debug_path->0)
    } else {
        Seq::empty()
    }
}

/// The places for the debug file that its identifier leads to, unless a dSYM
/// bundle was found already.
pub open spec fn debug_id_candidates(
    info: LibraryInfoView,
    dsym: Option<Seq<char>>,
    found_dsym: Option<Seq<char>>,
) -> Seq<CandidateView> {
    if !(looks_for_dsym(info) && dsym is Some) && info.debug_id is Some && found_dsym is Some {
        found_dsym_candidates(found_dsym->0)
    } else {
        Seq::empty()
    }
}

/// The places for the debug file that a build ID leads to.
pub open spec fn code_id_candidates(info: LibraryInfoView) -> Seq<CandidateView> {
    match info.code_id {
        Some(code_id) => build_id_candidates(code_id),
        None => Seq::empty(),
    }
}

/// The places for the symbols of a debug file that its name and identifier
/// lead to.
pub open spec fn symbol_candidates(
    config: SymbolManagerConfig,
    debug_name: Seq<char>,
    debug_id: DebugId,
) -> Seq<CandidateView> {
    sym_candidates(config.directories(), debug_name, debug_id) + sym_candidates(
        config.cache_dirs(),
        debug_name,
        debug_id,
    ) + (if ".pdb"@.is_suffix_of(debug_name) && config.has_symbol_cache() {
        seq![at_custom(win_prefix() + win_path(debug_name, breakpad_text(debug_id)))]
    } else {
        Seq::empty()
    }) + (if config.breakpad_servers@.len() > 0 {
        seq![at_custom(bp_prefix() + bp_path(debug_name, debug_id))]
    } else {
        Seq::empty()
    })
}

/// The places for the debug file that its name leads to.
pub open spec fn debug_name_candidates(config: SymbolManagerConfig, info: LibraryInfoView) -> Seq<
    CandidateView,
> {
    match info.debug_name {
        Some(debug_name) => debug_link_candidates(debug_name) + (match info.debug_id {
            Some(debug_id) => symbol_candidates(config, debug_name, debug_id),
            None => Seq::empty(),
        }),
        None => Seq::empty(),
    }
}

/// The places for symbols in the code file itself.
pub open spec fn own_candidates(info: LibraryInfoView) -> Seq<CandidateView> {
    match info.path {
        Some(path) => seq![at_path(path)] + dyld_candidates(path),
        None => Seq::empty(),
    }
}

/// The places for the debug file of a library, in the order in which they are
/// to be tried. `dsym` is the dSYM bundle found for the debug file's path,
/// `found_dsym` the one found for its identifier.
pub open spec fn debug_file_candidates(
    config: SymbolManagerConfig,
    info: LibraryInfoView,
    dsym: Option<Seq<char>>,
    found_dsym: Option<Seq<char>>,
) -> Seq<CandidateView> {
    debug_path_candidates(info, dsym) + debug_id_candidates(info, dsym, found_dsym)
        + code_id_candidates(info) + debug_name_candidates(config, info) + own_candidates(info)
}

/// The places for the code file of a library, in the order in which they are
/// to be tried.
pub open spec fn binary_candidates(config: SymbolManagerConfig, info: LibraryInfoView) -> Seq<
    CandidateView,
> {
    (match info.path {
        Some(path) => seq![at_path(path)],
        None => Seq::empty(),
    }) + (if config.has_symbol_cache() && info.name is Some && info.code_id is Some {
        seq![at_custom(win_prefix() + win_path(info.name->0, info.code_id->0))]
    } else {
        Seq::empty()
    }) + (match info.path {
        Some(path) => dyld_candidates(path),
        None => Seq::empty(),
    })
}

impl Helper {
    /// A helper that knows no libraries.
    pub fn with_config(config: SymbolManagerConfig) -> (r: Helper)
        ensures
            r.config == config,
            r.known_libs@ == KnownLibsView::empty(),
    {
        Helper { config, known_libs: KnownLibs::new() }
    }

    /// Adds a library to the known ones.
    pub fn add_known_lib(&mut self, lib_info: LibraryInfo)
        ensures
            final(self).config == old(self).config,
            final(self).known_libs@ == old(self).known_libs@.with_lib(lib_info@),
    {
        self.known_libs.add_lib(lib_info);
    }

    /// Fills in what is known of a library.
    pub fn fill_in_library_info_details(&self, info: &mut LibraryInfo)
        ensures
            final(info)@ == self.known_libs@.filled_in(old(info)@),
    {
        self.known_libs.fill_in(info);
    }

    /// All that is known of a library.
    fn filled(&self, library_info: &LibraryInfo) -> (r: LibraryInfo)
        ensures
            r@ == self.known_libs@.filled_in(library_info@),
    {
        let mut info = library_info.copy();
        self.fill_in_library_info_details(&mut info);
        info
    }

    /// Which dSYM bundles for the debug file of a library are to be looked
    /// for: one at the debug file's path, else one with its identifier.
    pub fn dsym_query(&self, library_info: &LibraryInfo) -> (r: DsymQuery)
        ensures
            ({
                let info = self.known_libs@.filled_in(library_info@);
                &&& r.debug_id == info.debug_id
                &&& r.debug_path is Some == looks_for_dsym(info)
                &&& r.debug_path is Some ==> r.debug_path->0@ == info.debug_path->0
            }),
    {
        let info = self.filled(library_info);
        let wanted = info.debug_name.is_some() && info.debug_id.is_some();
        DsymQuery {
            debug_path: if wanted {
                info.debug_path
            } else {
                None
            },
            debug_id: info.debug_id,
        }
    }

    /// The place that a location leads to.
    pub fn open_file(&self, location: &FileLocation) -> (r: FileSource)
        requires
            can_open(self.config, location@),
        ensures
            Some(r@) == file_source(location@),
    {
        match location {
            FileLocation::Path(path) => FileSource::LocalFile(path.clone()),
            FileLocation::Custom(custom) => match strip_prefix(
                custom.as_str(),
                "winsymbolserver:",
            ) {
                Some(path) => FileSource::SymbolCache(path.to_owned()),
                None => {
                    let path = strip_prefix(custom.as_str(), "bpsymbolserver:").unwrap();
                    FileSource::BreakpadServers(path.to_owned())
                },
            },
        }
    }

    /// Whether a location leads to a file that can be asked for.
    pub fn can_open_file(&self, location: &FileLocation) -> (r: bool)
        ensures
            r == can_open(self.config, location@),
    {
        match location {
            FileLocation::Path(_) => true,
            FileLocation::Custom(custom) => {
                if strip_prefix(custom.as_str(), "winsymbolserver:").is_some() {
                    self.config.uses_symbol_cache()
                } else {
                    strip_prefix(custom.as_str(), "bpsymbolserver:").is_some()
                }
            },
        }
    }

    /// The attempt to download a file from the breakpad symbol servers after
    /// the given number of servers did not have it. The search starts with none.
    pub fn next_download(&self, rel_path: &str, failed: usize) -> (r: Option<BreakpadDownload>)
        ensures
            r is Some == (failed < self.config.breakpad_servers@.len()),
            r is Some ==> is_download(
                self.config.breakpad_servers@[failed as int],
                rel_path@,
                r->0,
            ),
    {
        if failed < self.config.breakpad_servers.len() {
            let server = &self.config.breakpad_servers[failed];
            Some(
                BreakpadDownload {
                    url: concat3(server.url.as_str(), "/", rel_path),
                    dest_path: join(server.cache_dir.as_str(), rel_path),
                },
            )
        } else {
            None
        }
    }

    /// What follows an attempt to download a file from the breakpad symbol
    /// servers, after the given number of servers did not have it. The first
    /// server that has the file ends the search; without one there is no file.
    pub fn after_download(&self, rel_path: &str, failed: usize, succeeded: bool) -> (r:
        DownloadStep)
        ensures
            succeeded ==> r is Found,
            !succeeded ==> match r {
                DownloadStep::Found => false,
                DownloadStep::Next(download) => failed + 1
                    < self.config.breakpad_servers@.len() && is_download(
                    self.config.breakpad_servers@[failed + 1],
                    rel_path@,
                    download,
                ),
                DownloadStep::NotFound => failed + 1 >= self.config.breakpad_servers@.len(),
            },
    {
        if succeeded {
            return DownloadStep::Found;
        }
        if failed >= self.config.breakpad_servers.len() {
            return DownloadStep::NotFound;
        }
        match self.next_download(rel_path, failed + 1) {
            Some(download) => DownloadStep::Next(download),
            None => DownloadStep::NotFound,
        }
    }

    /// Adds the places for the symbols of a debug file that its name and
    /// identifier lead to.
    fn push_symbol_candidates(
        &self,
        paths: &mut Vec<CandidatePathInfo>,
        debug_name: &str,
        debug_id: DebugId,
    )
        ensures
            candidates(final(paths)@) == candidates(old(paths)@) + symbol_candidates(
                self.config,
                debug_name@,
                debug_id,
            ),
    {
        let ghost before = candidates(paths@);
        // Search breakpad symbol directories.
        let dirs = &self.config.breakpad_directories_readonly;
        let ghost in_dirs = sym_candidates(self.config.directories(), debug_name@, debug_id);
        let mut i: usize = 0;
        while i < dirs.len()
            invariant
                i <= dirs.len(),
                dirs@ == self.config.breakpad_directories_readonly@,
                in_dirs == sym_candidates(self.config.directories(), debug_name@, debug_id),
                candidates(paths@) =~= before + in_dirs.take(i as int),
            decreases dirs.len() - i,
        {
            push_sym(paths, dirs[i].as_str(), debug_name, debug_id);
            i += 1;
        }
        assert(in_dirs.take(i as int) =~= in_dirs);
        let ghost searched = candidates(paths@);
        let servers = &self.config.breakpad_servers;
        let ghost in_caches = sym_candidates(self.config.cache_dirs(), debug_name@, debug_id);
        i = 0;
        while i < servers.len()
            invariant
                i <= servers.len(),
                servers@ == self.config.breakpad_servers@,
                in_caches == sym_candidates(self.config.cache_dirs(), debug_name@, debug_id),
                candidates(paths@) =~= searched + in_caches.take(i as int),
            decreases servers.len() - i,
        {
            push_sym(paths, servers[i].cache_dir.as_str(), debug_name, debug_id);
            i += 1;
        }
        assert(in_caches.take(i as int) =~= in_caches);
        if ends_with(debug_name, ".pdb") && self.config.uses_symbol_cache() {
            // We might find this pdb file with the help of a symbol server.
            // Construct a custom string to identify this pdb.
            push_on_win_server(paths, debug_name, breakpad(debug_id).as_str());
        }
        if servers.len() > 0 {
            // We might find a .sym file on a symbol server.
            // Construct a custom string to identify this file.
            push_on_bp_server(paths, debug_name, debug_id);
        }
        assert(candidates(paths@) =~= before + symbol_candidates(
            self.config,
            debug_name@,
            debug_id,
        ));
    }

    /// The places for the debug file of a library. `dsym` is the dSYM bundle
    /// found for the debug file's path, `found_dsym` the one found for its
    /// identifier; [`Helper::dsym_query`] says which of them matter.
    pub fn get_candidate_paths_for_debug_file(
        &self,
        library_info: &LibraryInfo,
        dsym: Option<&str>,
        found_dsym: Option<&str>,
    ) -> (r: Vec<CandidatePathInfo>)
        ensures
            candidates(r@) == debug_file_candidates(
                self.config,
                self.known_libs@.filled_in(library_info@),
                opt_str(dsym),
                opt_str(found_dsym),
            ),
    {
        let info = self.filled(library_info);
        let mut paths: Vec<CandidatePathInfo> = Vec::new();
        let mut got_dsym = false;
        assert(candidates(paths@) =~= Seq::empty());

        if let (Some(debug_path), Some(debug_name)) = (&info.debug_path, &info.debug_name) {
            // First, see if we can find a dSYM file for the binary.
            if let (Some(_), Some(dsym_path)) = (info.debug_id, dsym) {
                got_dsym = true;
                push_dsym(&mut paths, dsym_path, debug_name.as_str());
            }
            push_siblings(&mut paths, debug_path.as_str());
        }
        assert(candidates(paths@) =~= debug_path_candidates(info@, opt_str(dsym)));

        if !got_dsym {
            // Try a little harder to find a dSYM, just from the identifier. We can do this
            // even if we don't know this library.
            if let (Some(_), Some(dsym_path)) = (info.debug_id, found_dsym) {
                push_found_dsym(&mut paths, dsym_path);
            }
        }
        let ghost by_id = debug_path_candidates(info@, opt_str(dsym)) + debug_id_candidates(
            info@,
            opt_str(dsym),
            opt_str(found_dsym),
        );
        assert(candidates(paths@) =~= by_id);

        // Find debuginfo in /usr/lib/debug/.build-id/ etc.
        if let Some(code_id) = &info.code_id {
            push_build_id(&mut paths, code_id);
        }
        assert(candidates(paths@) =~= by_id + code_id_candidates(info@));

        if let Some(debug_name) = &info.debug_name {
            push_debug_links(&mut paths, debug_name.as_str());
            if let Some(debug_id) = info.debug_id {
                self.push_symbol_candidates(&mut paths, debug_name.as_str(), debug_id);
            }
        }
        assert(candidates(paths@) =~= by_id + code_id_candidates(info@) + debug_name_candidates(
            self.config,
            info@,
        ));

        if let Some(path) = &info.path {
            // Fall back to getting symbols from the binary itself.
            push_path(&mut paths, path.clone());
            push_dyld_caches(&mut paths, path.as_str());
        }
        assert(candidates(paths@) =~= by_id + code_id_candidates(info@) + debug_name_candidates(
            self.config,
            info@,
        ) + own_candidates(info@));
        paths
    }

    /// The places for the code file of a library.
    pub fn get_candidate_paths_for_binary(&self, library_info: &LibraryInfo) -> (r: Vec<
        CandidatePathInfo,
    >)
        ensures
            candidates(r@) == binary_candidates(
                self.config,
                self.known_libs@.filled_in(library_info@),
            ),
    {
        let info = self.filled(library_info);
        let mut paths: Vec<CandidatePathInfo> = Vec::new();
        assert(candidates(paths@) =~= Seq::empty());

        // Begin with the binary itself.
        if let Some(path) = &info.path {
            push_path(&mut paths, path.clone());
        }
        if let (Some(name), Some(code_id)) = (&info.name, &info.code_id) {
            if self.config.uses_symbol_cache() {
                // We might find this exe / dll file with the help of a symbol server.
                // Construct a custom string to identify this file.
                push_on_win_server(&mut paths, name.as_str(), code_id.as_str());
            }
        }
        if let Some(path) = &info.path {
            push_dyld_caches(&mut paths, path.as_str());
        }
        assert(candidates(paths@) =~= binary_candidates(self.config, info@));
        paths
    }
}

/// Whether all places in a list that are single files can be opened.
pub open spec fn all_can_be_opened(config: SymbolManagerConfig, list: Seq<CandidateView>) -> bool {
    forall|i: int|
        0 <= i < list.len() && (#[trigger] list[i]) is SingleFile ==> can_open(
            config,
            list[i]->SingleFile_0,
        )
}

proof fn lemma_openable_concat(
    config: SymbolManagerConfig,
    a: Seq<CandidateView>,
    b: Seq<CandidateView>,
)
    requires
        all_can_be_opened(config, a),
        all_can_be_opened(config, b),
    ensures
        all_can_be_opened(config, a + b),
{
    assert forall|i: int| 0 <= i < (a + b).len() && (#[trigger] (a + b)[i]) is SingleFile implies can_open(
        config,
        (a + b)[i]->SingleFile_0,
    ) by {
        if i < a.len() {
            assert((a + b)[i] == a[i]);
        } else {
            assert((a + b)[i] == b[i - a.len()]);
        }
    }
}

pub(crate) proof fn lemma_custom_sources(rel_path: Seq<char>)
    ensures
        file_source(FileLocationView::Custom(win_prefix() + rel_path)) == Some(
            FileSourceView::SymbolCache(rel_path),
        ),
        file_source(FileLocationView::Custom(bp_prefix() + rel_path)) == Some(
            FileSourceView::BreakpadServers(rel_path),
        ),
{
    reveal_strlit("winsymbolserver:");
    reveal_strlit("bpsymbolserver:");
    let win = win_prefix() + rel_path;
    let bp = bp_prefix() + rel_path;
    assert(win_prefix().is_prefix_of(win));
    assert(win.skip(win_prefix().len() as int) =~= rel_path);
    assert(bp_prefix().is_prefix_of(bp));
    assert(bp.skip(bp_prefix().len() as int) =~= rel_path);
    assert(bp[0] == 'b');
    assert(!win_prefix().is_prefix_of(bp)) by {
        if win_prefix().is_prefix_of(bp) {
            assert(bp[0] == win_prefix()[0]);
        }
    }
}

/// Every file that is named as a place for a library's files is one that can
/// be opened.
pub proof fn law_candidates_can_be_opened(
    config: SymbolManagerConfig,
    info: LibraryInfoView,
    dsym: Option<Seq<char>>,
    found_dsym: Option<Seq<char>>,
)
    ensures
        all_can_be_opened(config, debug_file_candidates(config, info, dsym, found_dsym)),
        all_can_be_opened(config, binary_candidates(config, info)),
{
    if info.debug_name is Some && info.debug_id is Some {
        let debug_name = info.debug_name->0;
        let debug_id = info.debug_id->0;
        lemma_custom_sources(win_path(debug_name, breakpad_text(debug_id)));
        lemma_custom_sources(bp_path(debug_name, debug_id));
        let in_dirs = sym_candidates(config.directories(), debug_name, debug_id);
        let in_caches = sym_candidates(config.cache_dirs(), debug_name, debug_id);
        let local = in_dirs + in_caches;
        lemma_openable_concat(config, in_dirs, in_caches);
        let win = if ".pdb"@.is_suffix_of(debug_name) && config.has_symbol_cache() {
            seq![at_custom(win_prefix() + win_path(debug_name, breakpad_text(debug_id)))]
        } else {
            Seq::empty()
        };
        let bp = if config.breakpad_servers@.len() > 0 {
            seq![at_custom(bp_prefix() + bp_path(debug_name, debug_id))]
        } else {
            Seq::empty()
        };
        lemma_openable_concat(config, local, win);
        lemma_openable_concat(config, local + win, bp);
        lemma_openable_concat(
            config,
            debug_link_candidates(debug_name),
            symbol_candidates(config, debug_name, debug_id),
        );
    }
    if info.debug_name is Some && info.debug_id is None {
        lemma_openable_concat(config, debug_link_candidates(info.debug_name->0), Seq::empty());
    }
    if info.name is Some && info.code_id is Some {
        lemma_custom_sources(win_path(info.name->0, info.code_id->0));
    }
    let by_path = debug_path_candidates(info, dsym);
    let by_id = debug_id_candidates(info, dsym, found_dsym);
    lemma_openable_concat(config, by_path, by_id);
    lemma_openable_concat(config, by_path + by_id, code_id_candidates(info));
    let named = debug_name_candidates(config, info);
    assert(all_can_be_opened(config, named));
    lemma_openable_concat(config, by_path + by_id + code_id_candidates(info), named);
    assert(all_can_be_opened(config, own_candidates(info)));
    lemma_openable_concat(
        config,
        by_path + by_id + code_id_candidates(info) + named,
        own_candidates(info),
    );
}

/// A location on a symbol server leads to the relative path that it was made
/// from.
pub proof fn law_server_locations_lead_to_their_path(rel_path: Seq<char>)
    ensures
        file_source(FileLocationView::Custom(win_prefix() + rel_path)) == Some(
            FileSourceView::SymbolCache(rel_path),
        ),
        file_source(FileLocationView::Custom(bp_prefix() + rel_path)) == Some(
            FileSourceView::BreakpadServers(rel_path),
        ),
{
    lemma_custom_sources(rel_path);
}

proof fn lemma_hex_digit_is_no_separator(n: int, upper: bool)
    requires
        0 <= n < 16,
    ensures
        hex_digit(n, upper) != '/',
{
}

proof fn lemma_hex_padded_is_a_name(n: nat, width: nat, upper: bool)
    requires
        width > 0,
    ensures
        hex_padded(n, width, upper).len() == width,
        hex_padded(n, width, upper)[0] != '/',
    decreases width,
{
    lemma_hex_digit_is_no_separator((n % 16) as int, upper);
    if width > 1 {
        lemma_hex_padded_is_a_name(n / 16, (width - 1) as nat, upper);
    } else {
        assert(hex_padded(n / 16, 0, upper) == Seq::<char>::empty());
    }
}

pub(crate) proof fn lemma_breakpad_text_is_a_name(debug_id: DebugId)
    ensures
        breakpad_text(debug_id).len() > 0,
        breakpad_text(debug_id)[0] != '/',
        breakpad_text(debug_id).last() != '/',
{
    let appendix = match debug_id {
        DebugId::Uuid { uuid, appendix } => {
            lemma_hex_padded_is_a_name(uuid as nat, 32, true);
            appendix as nat
        },
        DebugId::Pdb20 { timestamp, age } => {
            lemma_hex_padded_is_a_name(timestamp as nat, 8, true);
            age as nat
        },
    };
    assert(hex_minimal(appendix, false).len() > 0);
    assert(hex_minimal(appendix, false).last() == hex_digit((appendix % 16) as int, false));
    lemma_hex_digit_is_no_separator((appendix % 16) as int, false);
    assert(breakpad_text(debug_id).last() == hex_minimal(appendix, false).last());
}

pub(crate) proof fn lemma_without_trailing_is_prefix(text: Seq<char>, suffix: Seq<char>)
    ensures
        without_trailing(text, suffix).is_prefix_of(text),
    decreases text.len(),
{
    if suffix.len() > 0 && suffix.is_suffix_of(text) {
        lemma_without_trailing_is_prefix(text.take(text.len() - suffix.len()), suffix);
    }
}

/// A symbol file that was downloaded from a breakpad symbol server is stored
/// where it is looked for the next time, without the server: at the place in
/// the server's cache directory that the candidates for the debug file name.
pub proof fn law_downloaded_symbols_are_found_again(
    config: SymbolManagerConfig,
    server: int,
    debug_name: Seq<char>,
    debug_id: DebugId,
)
    requires
        0 <= server < config.breakpad_servers@.len(),
        debug_name.len() > 0,
        debug_name[0] != '/',
        debug_name.last() != '/',
    ensures
        symbol_candidates(config, debug_name, debug_id).contains(
            at_path(
                joined(
                    config.breakpad_servers@[server].cache_dir@,
                    bp_path(debug_name, debug_id),
                ),
            ),
        ),
        symbol_candidates(config, debug_name, debug_id).contains(
            at_custom(bp_prefix() + bp_path(debug_name, debug_id)),
        ),
{
    let dir = config.breakpad_servers@[server].cache_dir@;
    let id = breakpad_text(debug_id);
    let file = sym_file_name(debug_name);
    let rel_path = bp_path(debug_name, debug_id);
    lemma_breakpad_text_is_a_name(debug_id);
    reveal_strlit("/");
    reveal_strlit(".sym");
    reveal_strlit(".pdb");
    lemma_without_trailing_is_prefix(debug_name, ".pdb"@);
    let stem = without_trailing(debug_name, ".pdb"@);
    assert(file[0] != '/') by {
        if stem.len() > 0 {
            assert(file[0] == stem[0]);
            assert(stem[0] == debug_name[0]);
        } else {
            assert(file[0] == ".sym"@[0]);
        }
    }
    let in_dir = joined(dir, debug_name);
    assert(in_dir.last() == debug_name.last());
    let in_name = joined(in_dir, id);
    assert(in_name == in_dir + "/"@ + id);
    assert(in_name.last() == id.last());
    assert(sym_path(dir, debug_name, debug_id) == in_name + "/"@ + file);
    assert(rel_path[0] == debug_name[0]);
    assert(joined(dir, rel_path) =~= sym_path(dir, debug_name, debug_id));

    let all = symbol_candidates(config, debug_name, debug_id);
    let in_caches = sym_candidates(config.cache_dirs(), debug_name, debug_id);
    let before = sym_candidates(config.directories(), debug_name, debug_id).len() as int;
    assert(config.cache_dirs()[server] == dir);
    assert(in_caches[server] == at_path(sym_path(dir, debug_name, debug_id)));
    assert(all[before + server] == in_caches[server]);
    assert(all.last() == at_custom(bp_prefix() + rel_path));
    assert(all[all.len() - 1] == all.last());
}

/// The code file of a library is looked for at its own path in the first
/// place.
pub proof fn law_binary_comes_first(config: SymbolManagerConfig, info: LibraryInfoView)
    requires
        info.path is Some,
    ensures
        binary_candidates(config, info).len() > 0,
        binary_candidates(config, info)[0] == at_path(info.path->0),
{
}

/// A dSYM bundle at the debug file's path is tried in the first place, and the
/// code file itself in the last.
pub proof fn law_order_of_debug_file_candidates(
    config: SymbolManagerConfig,
    info: LibraryInfoView,
    dsym: Option<Seq<char>>,
    found_dsym: Option<Seq<char>>,
)
    ensures
        looks_for_dsym(info) && dsym is Some ==> dsym_candidates(
            dsym->0,
            info.debug_name->0,
        ).is_prefix_of(debug_file_candidates(config, info, dsym, found_dsym)),
        own_candidates(info).is_suffix_of(debug_file_candidates(config, info, dsym, found_dsym)),
{
    let all = debug_file_candidates(config, info, dsym, found_dsym);
    let own = own_candidates(info);
    assert(all.skip(all.len() - own.len()) =~= own);
    if looks_for_dsym(info) && dsym is Some {
        let bundle = dsym_candidates(dsym->0, info.debug_name->0);
        assert(all.take(bundle.len() as int) =~= bundle);
    }
}

/// Whether all places in a list that are in a dyld shared cache are for the
/// library at a path.
pub open spec fn dyld_only_for(path: Option<Seq<char>>, list: Seq<CandidateView>) -> bool {
    forall|i: int|
        0 <= i < list.len() && (#[trigger] list[i]) is InDyldCache ==> path is Some
            && is_system_path(path->0) && list[i]->dylib_path == path->0
}

/// The dyld shared caches are consulted for system libraries only, each for
/// the library's own path.
pub proof fn law_dyld_caches_are_for_system_libraries(
    config: SymbolManagerConfig,
    info: LibraryInfoView,
    dsym: Option<Seq<char>>,
    found_dsym: Option<Seq<char>>,
)
    ensures
        dyld_only_for(info.path, debug_file_candidates(config, info, dsym, found_dsym)),
        dyld_only_for(info.path, binary_candidates(config, info)),
{
    let path = info.path;
    let by_path = debug_path_candidates(info, dsym);
    let by_id = debug_id_candidates(info, dsym, found_dsym);
    let by_code = code_id_candidates(info);
    let named = debug_name_candidates(config, info);
    let own = own_candidates(info);
    assert(dyld_only_for(path, by_path));
    assert(dyld_only_for(path, by_id));
    assert(dyld_only_for(path, by_code));
    lemma_dyld_concat(path, by_path, by_id);
    lemma_dyld_concat(path, by_path + by_id, by_code);
    assert(dyld_only_for(path, named)) by {
        if info.debug_name is Some {
            let links = debug_link_candidates(info.debug_name->0);
            assert(dyld_only_for(path, links));
            if info.debug_id is Some {
                let symbols = symbol_candidates(config, info.debug_name->0, info.debug_id->0);
                assert(dyld_only_for(path, symbols));
                lemma_dyld_concat(path, links, symbols);
            } else {
                lemma_dyld_concat(path, links, Seq::empty());
            }
        }
    }
    lemma_dyld_concat(path, by_path + by_id + by_code, named);
    assert(dyld_only_for(path, own));
    lemma_dyld_concat(path, by_path + by_id + by_code + named, own);
    assert(dyld_only_for(path, binary_candidates(config, info)));
}

proof fn lemma_dyld_concat(path: Option<Seq<char>>, a: Seq<CandidateView>, b: Seq<CandidateView>)
    requires
        dyld_only_for(path, a),
        dyld_only_for(path, b),
    ensures
        dyld_only_for(path, a + b),
{
    assert forall|i: int| 0 <= i < (a + b).len() && (#[trigger] (a + b)[i]) is InDyldCache implies {
        &&& path is Some
        &&& is_system_path(path->0)
        &&& (a + b)[i]->dylib_path == path->0
    } by {
        if i < a.len() {
            assert((a + b)[i] == a[i]);
        } else {
            assert((a + b)[i] == b[i - a.len()]);
        }
    }
}

} // verus!
