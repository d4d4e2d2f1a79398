//! What holds of paths and texts, in terms of the parts that they are put
//! together from.

use crate::text::{
    file_name_of, joined, last_component, occurs_in, without_prefix, without_trailing,
    without_trailing_dots,
};
use vstd::prelude::*;

verus! {

/// Whether a text can be the name of a file in a directory.
pub open spec fn is_plain_name(name: Seq<char>) -> bool {
    &&& name.len() > 0
    &&& forall|i: int| 0 <= i < name.len() ==> #[trigger] name[i] != '/'
    &&& name != seq!['.']
    &&& name != seq!['.', '.']
}

proof fn lemma_last_component(dir: Seq<char>, name: Seq<char>)
    requires
        dir.len() == 0 || dir.last() == '/',
        forall|i: int| 0 <= i < name.len() ==> #[trigger] name[i] != '/',
    ensures
        last_component(dir + name) == name,
    decreases name.len(),
{
    if name.len() == 0 {
        assert(dir + name =~= dir);
    } else {
        let shorter = name.drop_last();
        assert forall|i: int| 0 <= i < shorter.len() implies #[trigger] shorter[i] != '/' by {
            assert(shorter[i] == name[i]);
        }
        lemma_last_component(dir, shorter);
        assert((dir + name).drop_last() =~= dir + shorter);
        assert((dir + name).last() == name[name.len() - 1]);
        assert(shorter.push(name.last()) =~= name);
    }
}

proof fn lemma_named(dir: Seq<char>, name: Seq<char>)
    requires
        dir.len() == 0 || dir.last() == '/',
        is_plain_name(name),
    ensures
        without_trailing_dots(dir + name) == dir + name,
        file_name_of(dir + name) == Some(name),
{
    let path = dir + name;
    lemma_last_component(dir, name);
    assert(path.last() == name[name.len() - 1]);
    if path.last() == '.' && path.len() >= 2 && path[path.len() - 2] == '/' {
        if name.len() >= 2 {
            assert(path[path.len() - 2] == name[name.len() - 2]);
        }
        assert(name =~= seq!['.']);
    }
}

/// The file name of a path is what stands behind its last separator, wherever
/// the directory is; a separator at the end, and a `.` behind it, do not
/// matter.
pub proof fn law_file_name_is_the_last_component(dir: Seq<char>, name: Seq<char>)
    requires
        is_plain_name(name),
    ensures
        file_name_of(name) == Some(name),
        file_name_of(dir.push('/') + name) == Some(name),
        file_name_of((dir.push('/') + name).push('/')) == Some(name),
        file_name_of((dir.push('/') + name).push('/').push('.')) == Some(name),
{
    let path = dir.push('/') + name;
    lemma_named(Seq::empty(), name);
    assert(Seq::<char>::empty() + name =~= name);
    lemma_named(dir.push('/'), name);
    let closed_path = path.push('/');
    assert(closed_path.drop_last() =~= path);
    assert(without_trailing_dots(closed_path) == path);
    let dotted = closed_path.push('.');
    assert(dotted.drop_last() =~= closed_path);
    assert(dotted[dotted.len() - 2] == '/');
    assert(without_trailing_dots(dotted) == path);
}

/// Separators at the end of a path, and `.` components there, do not change its
/// file name.
pub proof fn law_trailing_separators_do_not_matter(path: Seq<char>)
    ensures
        file_name_of(path.push('/')) == file_name_of(path),
        file_name_of(path.push('/').push('.')) == file_name_of(path),
{
    let closed_path = path.push('/');
    assert(closed_path.drop_last() =~= path);
    let dotted = closed_path.push('.');
    assert(dotted.drop_last() =~= closed_path);
    assert(dotted[dotted.len() - 2] == '/');
}

/// A path that leads to a parent directory, or that is nothing but separators,
/// has no file name.
pub proof fn law_directories_have_no_file_name(dir: Seq<char>)
    ensures
        file_name_of(Seq::empty()) is None,
        file_name_of(seq!['/']) is None,
        file_name_of(seq!['.']) is None,
        file_name_of(seq!['.', '.']) is None,
        file_name_of(dir.push('/').push('.').push('.')) is None,
{
    assert(seq!['/'].drop_last() =~= Seq::<char>::empty());
    assert(without_trailing_dots(seq!['/']) == without_trailing_dots(Seq::empty()));
    lemma_last_component(Seq::empty(), seq!['.']);
    assert(Seq::<char>::empty() + seq!['.'] =~= seq!['.']);
    lemma_last_component(Seq::empty(), seq!['.', '.']);
    assert(Seq::<char>::empty() + seq!['.', '.'] =~= seq!['.', '.']);
    let path = dir.push('/').push('.').push('.');
    lemma_last_component(dir.push('/'), seq!['.', '.']);
    assert(dir.push('/') + seq!['.', '.'] =~= path);
    assert(path[path.len() - 2] == '.');
    assert(without_trailing_dots(path) == path);
}

proof fn lemma_name_of_path(path: Seq<char>)
    ensures
        forall|i: int|
            0 <= i < last_component(path).len() ==> #[trigger] last_component(path)[i] != '/',
        last_component(path).is_suffix_of(path),
    decreases path.len(),
{
    if path.len() > 0 && path.last() != '/' {
        let shorter = path.drop_last();
        lemma_name_of_path(shorter);
        let inner = last_component(shorter);
        assert forall|i: int| 0 <= i < last_component(path).len() implies #[trigger] last_component(
            path,
        )[i] != '/' by {
            if i < inner.len() {
                assert(last_component(path)[i] == inner[i]);
            }
        }
        assert(path.skip(path.len() - last_component(path).len()) =~= last_component(path)) by {
            assert(shorter.skip(shorter.len() - inner.len()) =~= inner);
            assert forall|i: int| 0 <= i < last_component(path).len() implies path[path.len()
                - last_component(path).len() + i] == last_component(path)[i] by {
                if i < inner.len() {
                    assert(shorter.skip(shorter.len() - inner.len())[i] == inner[i]);
                }
            }
        }
    }
}

/// A file name never holds a separator, and it is never empty, `.` or `..`.
pub proof fn law_file_names_are_plain(path: Seq<char>)
    requires
        file_name_of(path) is Some,
    ensures
        is_plain_name(file_name_of(path)->0),
{
    lemma_name_of_path(without_trailing_dots(path));
}

/// A relative path is put into a directory, with one separator between the
/// two; an absolute path stands for itself.
pub proof fn law_paths_are_joined_by_one_separator(dir: Seq<char>, part: Seq<char>)
    ensures
        part.len() > 0 && part[0] == '/' ==> joined(dir, part) == part,
        !(part.len() > 0 && part[0] == '/') && dir.len() > 0 && dir.last() != '/' ==> joined(
            dir,
            part,
        ) == dir.push('/') + part,
        !(part.len() > 0 && part[0] == '/') ==> joined(dir.push('/'), part) == dir.push('/')
            + part,
        !(part.len() > 0 && part[0] == '/') ==> joined(Seq::empty(), part) == part,
        is_plain_name(part) ==> file_name_of(joined(dir, part)) == Some(part),
{
    reveal_strlit("/");
    assert(dir + "/"@ + part =~= dir.push('/') + part);
    assert(Seq::<char>::empty() + part =~= part);
    if is_plain_name(part) {
        lemma_named(Seq::empty(), part);
        assert(part[0] != '/');
        lemma_named(dir.push('/'), part);
        if dir.len() == 0 {
            assert(joined(dir, part) =~= part);
        } else if dir.last() == '/' {
            lemma_named(dir, part);
        }
    }
}

/// All repetitions of an ending are taken away, and nothing else.
pub proof fn law_endings_are_taken_away(text: Seq<char>, ending: Seq<char>)
    requires
        ending.len() > 0,
    ensures
        without_trailing(text + ending, ending) == without_trailing(text, ending),
        !ending.is_suffix_of(text) ==> without_trailing(text, ending) == text,
{
    let longer = text + ending;
    assert(longer.skip(longer.len() - ending.len()) =~= ending);
    assert(longer.take(longer.len() - ending.len()) =~= text);
    assert(ending.is_suffix_of(longer));
}

/// What stands behind the start of a text is what it was put together from; a
/// text with another start has none.
pub proof fn law_starts_are_taken_away(start: Seq<char>, rest: Seq<char>, text: Seq<char>)
    ensures
        without_prefix(start + rest, start) == Some(rest),
        without_prefix(text, start) is Some ==> text == start + without_prefix(text, start)->0,
        text.len() < start.len() ==> without_prefix(text, start) is None,
{
    assert(start.is_prefix_of(start + rest)) by {
        assert((start + rest).take(start.len() as int) =~= start);
    }
    assert((start + rest).skip(start.len() as int) =~= rest);
    if without_prefix(text, start) is Some {
        assert(text.take(start.len() as int) =~= start);
        assert(text =~= start + text.skip(start.len() as int));
    }
}

/// A text occurs in all texts that it is a part of, and in no others.
pub proof fn law_parts_occur(before: Seq<char>, part: Seq<char>, behind: Seq<char>, text: Seq<char>)
    ensures
        occurs_in(part, before + part + behind),
        occurs_in(part, text) ==> exists|i: int|
            0 <= i <= text.len() - part.len() && #[trigger] text.subrange(i, i + part.len())
                == part,
{
    let whole = before + part + behind;
    let n = before.len() as int;
    assert(whole.skip(n).take(part.len() as int) =~= part);
    assert(part.is_prefix_of(whole.skip(n)));
    if occurs_in(part, text) {
        let i = choose|i: int| 0 <= i <= text.len() && part.is_prefix_of(#[trigger] text.skip(i));
        assert(text.skip(i).take(part.len() as int) =~= part);
        assert(text.subrange(i, i + part.len()) =~= part);
    }
}

} // verus!
