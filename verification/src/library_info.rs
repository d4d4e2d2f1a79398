//! What is known of libraries, and where it is looked up.

use crate::ids::DebugId;
use crate::keyed::{Key, KeyedList};
use crate::profile::{copy_opt_text, opt_text};
use crate::text::same_text;
use vstd::prelude::*;

verus! {

/// Whether a character is a hexadecimal digit.
pub open spec fn is_hex_digit(c: char) -> bool {
    ('0' <= c && c <= '9') || ('a' <= c && c <= 'f') || ('A' <= c && c <= 'F')
}

/// Whether a character is a hexadecimal digit, and no upper case letter.
pub open spec fn is_lower_hex_digit(c: char) -> bool {
    ('0' <= c && c <= '9') || ('a' <= c && c <= 'f')
}

/// The lower case form of a hexadecimal digit.
pub open spec fn lower_digit(c: char) -> char {
    if 'A' <= c && c <= 'F' {
        (c as int - 'A' as int + 'a' as int) as char
    } else {
        c
    }
}

/// The hexadecimal digits of a text, in lower case.
pub open spec fn hex_text(text: Seq<char>) -> Seq<char> {
    text.filter(|c: char| is_hex_digit(c)).map_values(|c: char| lower_digit(c))
}

/// The text of a code identifier, as `debugid::CodeId::new` keeps it: the
/// hexadecimal digits of the given text, in lower case.
#[verifier::external_body]
fn code_id_digits(text: &str) -> (r: String)
    ensures
        r@ == hex_text(text@),
{
    debugid::CodeId::new(text.to_owned()).to_string()
}

/// Identifies a code file. The text of the identifier consists of lower case
/// hexadecimal digits.
#[derive(Debug)]
pub struct CodeId {
    text: String,
}

impl View for CodeId {
    type V = Seq<char>;

    closed spec fn view(&self) -> Seq<char> {
        self.text@
    }
}

/// Whether a text consists of lower case hexadecimal digits.
pub open spec fn is_lower_hex(text: Seq<char>) -> bool {
    forall|i: int| 0 <= i < text.len() ==> is_lower_hex_digit(#[trigger] text[i])
}

impl CodeId {
    #[verifier::type_invariant]
    spec fn has_digits_only(self) -> bool {
        is_lower_hex(self.text@)
    }

    /// The code identifier with the given text. What is no hexadecimal digit
    /// in it is left out.
    pub fn new(text: &str) -> (r: CodeId)
        ensures
            r@ == hex_text(text@),
    {
        let digits = code_id_digits(text);
        proof {
            let keep = |c: char| is_hex_digit(c);
            assert forall|i: int| 0 <= i < hex_text(text@).len() implies is_lower_hex_digit(
                #[trigger] hex_text(text@)[i],
            ) by {
                text@.lemma_filter_pred(keep, i);
            }
        }
        CodeId { text: digits }
    }

    /// The text of the identifier.
    pub fn as_str(&self) -> (r: &str)
        ensures
            r@ == self@,
            is_lower_hex(r@),
    {
        proof {
            use_type_invariant(self);
        }
        self.text.as_str()
    }

    /// A copy of the identifier.
    pub fn copy(&self) -> (r: CodeId)
        ensures
            r@ == self@,
    {
        proof {
            use_type_invariant(self);
        }
        CodeId { text: self.text.clone() }
    }
}

/// What is known of a library.
#[derive(Debug)]
pub struct LibraryInfo {
    pub debug_name: Option<String>,
    pub debug_id: Option<DebugId>,
    pub debug_path: Option<String>,
    pub name: Option<String>,
    pub code_id: Option<CodeId>,
    pub path: Option<String>,
    pub arch: Option<String>,
}

/// The contents of a [`LibraryInfo`].
#[verifier::ext_equal]
pub struct LibraryInfoView {
    pub debug_name: Option<Seq<char>>,
    pub debug_id: Option<DebugId>,
    pub debug_path: Option<Seq<char>>,
    pub name: Option<Seq<char>>,
    pub code_id: Option<Seq<char>>,
    pub path: Option<Seq<char>>,
    pub arch: Option<Seq<char>>,
}

/// The text of an optional code identifier.
pub open spec fn opt_code_id(code_id: Option<CodeId>) -> Option<Seq<char>> {
    match code_id {
        Some(code_id) => Some(code_id@),
        None => None,
    }
}

impl View for LibraryInfo {
    type V = LibraryInfoView;

    open spec fn view(&self) -> LibraryInfoView {
        LibraryInfoView {
            debug_name: opt_text(self.debug_name),
            debug_id: self.debug_id,
            debug_path: opt_text(self.debug_path),
            name: opt_text(self.name),
            code_id: opt_code_id(self.code_id),
            path: opt_text(self.path),
            arch: opt_text(self.arch),
        }
    }
}

/// The first of two values that is there.
pub open spec fn first_of<T>(a: Option<T>, b: Option<T>) -> Option<T> {
    if a is Some {
        a
    } else {
        b
    }
}

impl LibraryInfoView {
    /// What is known after another source was consulted: what was known
    /// before, and what was missing from that source.
    pub open spec fn absorbed(self, other: LibraryInfoView) -> LibraryInfoView {
        LibraryInfoView {
            debug_name: first_of(self.debug_name, other.debug_name),
            debug_id: first_of(self.debug_id, other.debug_id),
            debug_path: first_of(self.debug_path, other.debug_path),
            name: first_of(self.name, other.name),
            code_id: first_of(self.code_id, other.code_id),
            path: first_of(self.path, other.path),
            arch: first_of(self.arch, other.arch),
        }
    }
}

/// Fills a missing text in.
fn fill_text(text: &mut Option<String>, other: &Option<String>)
    ensures
        opt_text(*final(text)) == first_of(opt_text(*old(text)), opt_text(*other)),
{
    if text.is_none() {
        *text = copy_opt_text(other);
    }
}

/// A copy of an optional code identifier.
fn copy_opt_code_id(code_id: &Option<CodeId>) -> (r: Option<CodeId>)
    ensures
        opt_code_id(r) == opt_code_id(*code_id),
{
    match code_id {
        Some(code_id) => Some(code_id.copy()),
        None => None,
    }
}

impl LibraryInfo {
    /// Fills in what is missing and known to `other`.
    pub fn absorb(&mut self, other: &LibraryInfo)
        ensures
            final(self)@ == old(self)@.absorbed(other@),
    {
        fill_text(&mut self.debug_name, &other.debug_name);
        if self.debug_id.is_none() {
            self.debug_id = other.debug_id;
        }
        fill_text(&mut self.debug_path, &other.debug_path);
        fill_text(&mut self.name, &other.name);
        if self.code_id.is_none() {
            self.code_id = copy_opt_code_id(&other.code_id);
        }
        fill_text(&mut self.path, &other.path);
        fill_text(&mut self.arch, &other.arch);
    }

    /// A copy of what is known.
    pub fn copy(&self) -> (r: LibraryInfo)
        ensures
            r@ == self@,
    {
        LibraryInfo {
            debug_name: copy_opt_text(&self.debug_name),
            debug_id: self.debug_id,
            debug_path: copy_opt_text(&self.debug_path),
            name: copy_opt_text(&self.name),
            code_id: copy_opt_code_id(&self.code_id),
            path: copy_opt_text(&self.path),
            arch: copy_opt_text(&self.arch),
        }
    }
}

/// The name and the identifier of a debug file.
#[derive(Debug)]
pub struct DebugKey {
    pub debug_name: String,
    pub debug_id: DebugId,
}

impl View for DebugKey {
    type V = (Seq<char>, DebugId);

    open spec fn view(&self) -> (Seq<char>, DebugId) {
        (self.debug_name@, self.debug_id)
    }
}

impl Key for DebugKey {
    fn same_key(&self, other: &DebugKey) -> (r: bool) {
        same_text(self.debug_name.as_str(), other.debug_name.as_str()) && self.debug_id
            == other.debug_id
    }
}

/// The name, where there is one, and the identifier of a code file.
#[derive(Debug)]
pub struct CodeKey {
    pub name: Option<String>,
    pub code_id: CodeId,
}

impl View for CodeKey {
    type V = (Option<Seq<char>>, Seq<char>);

    open spec fn view(&self) -> (Option<Seq<char>>, Seq<char>) {
        (opt_text(self.name), self.code_id@)
    }
}

impl Key for CodeKey {
    fn same_key(&self, other: &CodeKey) -> (r: bool) {
        let same_name = match (&self.name, &other.name) {
            (Some(a), Some(b)) => same_text(a.as_str(), b.as_str()),
            (None, None) => true,
            _ => false,
        };
        same_name && same_text(self.code_id.as_str(), other.code_id.as_str())
    }
}

/// The libraries that are known.
pub struct KnownLibs {
    pub by_debug: KeyedList<DebugKey, LibraryInfo>,
    pub by_code: KeyedList<CodeKey, LibraryInfo>,
}

/// The contents of a [`KnownLibs`].
#[verifier::ext_equal]
pub struct KnownLibsView {
    pub by_debug: Map<(Seq<char>, DebugId), LibraryInfoView>,
    pub by_code: Map<(Option<Seq<char>>, Seq<char>), LibraryInfoView>,
}

impl View for KnownLibs {
    type V = KnownLibsView;

    open spec fn view(&self) -> KnownLibsView {
        KnownLibsView {
            by_debug: self.by_debug@.map_values(|info: LibraryInfo| info@),
            by_code: self.by_code@.map_values(|info: LibraryInfo| info@),
        }
    }
}

impl KnownLibsView {
    /// No libraries.
    pub open spec fn empty() -> KnownLibsView {
        KnownLibsView { by_debug: Map::empty(), by_code: Map::empty() }
    }

    /// The known libraries after another one was added. It is found by the
    /// name and identifier of its debug file, and by those of its code file,
    /// as far as it has them.
    pub open spec fn with_lib(self, lib: LibraryInfoView) -> KnownLibsView {
        KnownLibsView {
            by_debug: if lib.debug_name is Some && lib.debug_id is Some {
                self.by_debug.insert((lib.debug_name->0, lib.debug_id->0), lib)
            } else {
                self.by_debug
            },
            by_code: if lib.code_id is Some {
                self.by_code.insert((lib.name, lib.code_id->0), lib)
            } else {
                self.by_code
            },
        }
    }

    /// What is known of a library after its debug file was looked up.
    pub open spec fn filled_by_debug(self, info: LibraryInfoView) -> LibraryInfoView {
        if info.debug_name is Some && info.debug_id is Some && self.by_debug.dom().contains(
            (info.debug_name->0, info.debug_id->0),
        ) {
            info.absorbed(self.by_debug[(info.debug_name->0, info.debug_id->0)])
        } else {
            info
        }
    }

    /// What is known of a library after its code file was looked up.
    pub open spec fn filled_by_code(self, info: LibraryInfoView) -> LibraryInfoView {
        if info.code_id is Some && self.by_code.dom().contains((info.name, info.code_id->0)) {
            info.absorbed(self.by_code[(info.name, info.code_id->0)])
        } else {
            info
        }
    }

    /// What is known of a library after it was looked up.
    pub open spec fn filled_in(self, info: LibraryInfoView) -> LibraryInfoView {
        self.filled_by_code(self.filled_by_debug(info))
    }
}

impl KnownLibs {
    /// No libraries.
    pub fn new() -> (r: KnownLibs)
        ensures
            r@ == KnownLibsView::empty(),
    {
        let r = KnownLibs { by_debug: KeyedList::new(), by_code: KeyedList::new() };
        assert(r@ =~= KnownLibsView::empty());
        r
    }

    /// Adds a library.
    pub fn add_lib(&mut self, lib_info: LibraryInfo)
        ensures
            final(self)@ == old(self)@.with_lib(lib_info@),
    {
        let ghost before = self@;
        if let (Some(debug_name), Some(debug_id)) = (&lib_info.debug_name, lib_info.debug_id) {
            let key = DebugKey { debug_name: debug_name.clone(), debug_id };
            self.by_debug.insert(key, lib_info.copy());
        }
        assert(self@.by_debug =~= before.with_lib(lib_info@).by_debug);
        let code_id = copy_opt_code_id(&lib_info.code_id);
        if let Some(code_id) = code_id {
            let key = CodeKey { name: copy_opt_text(&lib_info.name), code_id };
            self.by_code.insert(key, lib_info);
        }
        assert(self@.by_code =~= before.with_lib(lib_info@).by_code);
    }

    /// Fills in what is missing of a library.
    pub fn fill_in(&self, info: &mut LibraryInfo)
        ensures
            final(info)@ == self@.filled_in(old(info)@),
    {
        // Look up the debug file.
        let debug_name = copy_opt_text(&info.debug_name);
        if let (Some(debug_name), Some(debug_id)) = (debug_name, info.debug_id) {
            if let Some(known_info) = self.by_debug.get(&DebugKey { debug_name, debug_id }) {
                info.absorb(known_info);
            }
        }
        // If all we have is the ELF build ID, maybe we have some paths.
        let code_id = copy_opt_code_id(&info.code_id);
        if let Some(code_id) = code_id {
            let key = CodeKey { name: copy_opt_text(&info.name), code_id };
            if let Some(known_info) = self.by_code.get(&key) {
                info.absorb(known_info);
            }
        }
    }
}

/// A library that was added is found again by its debug file: what is missing
/// of a library with its debug name and identifier is filled in from it.
pub proof fn law_added_lib_is_found_by_debug_file(
    known: KnownLibsView,
    lib: LibraryInfoView,
    info: LibraryInfoView,
)
    requires
        lib.debug_name is Some,
        lib.debug_id is Some,
        info.debug_name == lib.debug_name,
        info.debug_id == lib.debug_id,
    ensures
        known.with_lib(lib).filled_by_debug(info) == info.absorbed(lib),
{
}

/// A library that was added is found again by its code file.
pub proof fn law_added_lib_is_found_by_code_file(
    known: KnownLibsView,
    lib: LibraryInfoView,
    info: LibraryInfoView,
)
    requires
        lib.code_id is Some,
        info.name == lib.name,
        info.code_id == lib.code_id,
    ensures
        known.with_lib(lib).filled_by_code(info) == info.absorbed(lib),
{
}

/// Whether one has all that the other has.
pub open spec fn knows_at_least(a: LibraryInfoView, b: LibraryInfoView) -> bool {
    &&& b.debug_name is Some ==> a.debug_name == b.debug_name
    &&& b.debug_id is Some ==> a.debug_id == b.debug_id
    &&& b.debug_path is Some ==> a.debug_path == b.debug_path
    &&& b.name is Some ==> a.name == b.name
    &&& b.code_id is Some ==> a.code_id == b.code_id
    &&& b.path is Some ==> a.path == b.path
    &&& b.arch is Some ==> a.arch == b.arch
}

/// Looking a library up never changes what is known of it already.
pub proof fn law_filling_in_keeps_what_is_known(known: KnownLibsView, info: LibraryInfoView)
    ensures
        knows_at_least(known.filled_in(info), info),
{
}

/// Adding a library does not affect how other libraries are looked up.
pub proof fn law_other_libs_stay_known(
    known: KnownLibsView,
    lib: LibraryInfoView,
    info: LibraryInfoView,
)
    ensures
        (info.debug_name, info.debug_id) != (lib.debug_name, lib.debug_id) ==> known.with_lib(
            lib,
        ).filled_by_debug(info) == known.filled_by_debug(info),
        (info.name, info.code_id) != (lib.name, lib.code_id) ==> known.with_lib(lib).filled_by_code(
            info,
        ) == known.filled_by_code(info),
{
}

/// What was added of a library is given back in full to who knows no more than
/// the name and identifier of its debug file, or of its code file.
pub proof fn law_added_lib_is_given_back(
    known: KnownLibsView,
    lib: LibraryInfoView,
    info: LibraryInfoView,
)
    requires
        info.debug_path is None,
        info.path is None,
        info.arch is None,
        ({
            ||| {
                &&& lib.debug_name is Some && lib.debug_id is Some
                &&& info.debug_name == lib.debug_name && info.debug_id == lib.debug_id
                &&& info.name is None && info.code_id is None
            }
            ||| {
                &&& lib.code_id is Some
                &&& info.name == lib.name && info.code_id == lib.code_id
                &&& info.debug_name is None && info.debug_id is None
            }
        }),
    ensures
        known.with_lib(lib).filled_in(info) == lib,
{
    let after = known.with_lib(lib);
    if info.debug_name is Some {
        assert(after.filled_by_debug(info) =~= lib);
    }
    assert(after.filled_in(info) =~= lib);
}

} // verus!
