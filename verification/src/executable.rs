//! The search for an executable by its name.
//!
//! The search names the files that could be the executable, in the order in
//! which they are tried, and keeps those that the host found to be
//! executable files. Which files exist is the host's knowledge: it is
//! recorded in an [`ExecutableSearch`] beside the directories of the system
//! path and the extensions that the host tries for a name without one.

use vstd::prelude::*;
use crate::StandardPaths;
use crate::path::PathModel;
use crate::path::ResolvedPath;

verus! {

/// Whether `c` parts the directories of a path.
pub open spec fn is_separator(c: char) -> bool {
    c == '/' || c == '\\'
}

/// Whether nothing after the position `from` in `name` parts directories.
pub open spec fn spec_in_last_component(name: Seq<char>, from: int) -> bool {
    forall|j: int| from < j < name.len() ==> !is_separator(#[trigger] name[j])
}

/// Whether `name` carries an extension: a dot stands in its last component.
pub open spec fn spec_carries_extension(name: Seq<char>) -> bool {
    exists|i: int|
        0 <= i < name.len() && #[trigger] name[i] == '.' && spec_in_last_component(name, i)
}

/// The file names that are tried for `name`: the name alone where it
/// carries an extension or the host knows of none to try, else the name
/// followed by each extension in turn.
pub open spec fn spec_file_names(name: Seq<char>, extensions: Seq<Seq<char>>) -> Seq<Seq<char>> {
    if spec_carries_extension(name) || extensions.len() == 0 {
        seq![name]
    } else {
        Seq::new(extensions.len(), |i: int| name + extensions[i])
    }
}

/// The files of the given names directly below `dir`.
pub open spec fn spec_files_below(dir: PathModel, names: Seq<Seq<char>>) -> Seq<PathModel> {
    Seq::new(names.len(), |i: int| dir.push(names[i]))
}

/// The files of the given names below each of `dirs`: all of the first
/// directory before any of the second.
pub open spec fn spec_files_in(dirs: Seq<PathModel>, names: Seq<Seq<char>>) -> Seq<PathModel>
    decreases dirs.len(),
{
    if dirs.len() == 0 {
        Seq::empty()
    } else {
        spec_files_in(dirs.drop_last(), names) + spec_files_below(dirs.last(), names)
    }
}

/// How many characters of `list` stand before its first `separator`; all
/// of them where it holds none.
pub open spec fn spec_first_piece_len(list: Seq<char>, separator: char) -> nat
    decreases list.len(),
{
    if list.len() == 0 || list[0] == separator {
        0
    } else {
        1 + spec_first_piece_len(list.drop_first(), separator)
    }
}

/// The pieces into which the occurrences of `separator` part `list`, in
/// their order, without the empty ones.
pub open spec fn spec_split_list(list: Seq<char>, separator: char) -> Seq<Seq<char>>
    decreases list.len(),
{
    let n = spec_first_piece_len(list, separator) as int;
    let first = if n > 0 {
        seq![list.take(n)]
    } else {
        Seq::empty()
    };
    if n < list.len() {
        first + spec_split_list(list.skip(n + 1), separator)
    } else {
        first
    }
}

/// The first piece of a list ends at the first separator, or at the end of
/// the list.
pub proof fn lemma_first_piece_len(list: Seq<char>, separator: char, n: int)
    requires
        0 <= n <= list.len(),
        forall|j: int| 0 <= j < n ==> list[j] != separator,
        n < list.len() ==> list[n] == separator,
    ensures
        spec_first_piece_len(list, separator) == n,
    decreases n,
{
    if n > 0 {
        lemma_first_piece_len(list.drop_first(), separator, n - 1);
    }
}

/// The mathematical value of what the host knows for a search.
pub struct SearchModel {
    pub system_path: Seq<PathModel>,
    pub extensions: Seq<Seq<char>>,
    pub executables: Seq<PathModel>,
}

impl SearchModel {
    /// The test that a file is one that the host found to be executable.
    pub open spec fn found(self) -> spec_fn(PathModel) -> bool {
        |file: PathModel| self.executables.contains(file)
    }
}

/// The files that could be the executable `name`, in the order in which
/// they are tried. An absolute name is tried by itself; another name is
/// tried below each of `paths`, or below each directory of the system path
/// where `paths` is empty.
pub open spec fn spec_executable_candidates(
    name: Seq<char>,
    absolute: bool,
    paths: Seq<PathModel>,
    search: SearchModel,
) -> Seq<PathModel> {
    let names = spec_file_names(name, search.extensions);
    if absolute {
        Seq::new(names.len(), |i: int| PathModel::root(names[i]))
    } else if paths.len() == 0 {
        spec_files_in(search.system_path, names)
    } else {
        spec_files_in(paths, names)
    }
}

/// The candidates that the host found to be executable, in the order in
/// which they are tried; `None` where it found none.
pub open spec fn spec_find_executable(
    name: Seq<char>,
    absolute: bool,
    paths: Seq<PathModel>,
    search: SearchModel,
) -> Option<Seq<PathModel>> {
    let found = spec_executable_candidates(name, absolute, paths, search).filter(search.found());
    if found.len() == 0 {
        None
    } else {
        Some(found)
    }
}

/// The search finds the candidates that the host found to be executable
/// and no other file, and finds nothing exactly where no candidate is
/// executable.
pub proof fn lemma_search_finds_the_executable_candidates(
    name: Seq<char>,
    absolute: bool,
    paths: Seq<PathModel>,
    search: SearchModel,
    file: PathModel,
)
    ensures
        ({
            let candidates = spec_executable_candidates(name, absolute, paths, search);
            let wanted = candidates.contains(file) && search.executables.contains(file);
            match spec_find_executable(name, absolute, paths, search) {
                Some(found) => found.contains(file) == wanted,
                None => !wanted,
            }
        }),
{
    let candidates = spec_executable_candidates(name, absolute, paths, search);
    let kept = candidates.filter(search.found());
    if kept.contains(file) {
        let i = choose|i: int| 0 <= i < kept.len() && kept[i] == file;
        candidates.lemma_filter_pred(search.found(), i);
        candidates.lemma_filter_contains_rev(search.found(), file);
    }
    if candidates.contains(file) && search.executables.contains(file) {
        let i = choose|i: int| 0 <= i < candidates.len() && candidates[i] == file;
        candidates.lemma_filter_contains(search.found(), i);
    }
}

/// What the host knows for a search: the directories of its system path,
/// the extensions it tries for a name without one, and the files that it
/// found to be executable.
#[derive(Debug)]
pub struct ExecutableSearch {
    system_path: Vec<ResolvedPath>,
    extensions: Vec<String>,
    executables: Vec<ResolvedPath>,
}

impl View for ExecutableSearch {
    type V = SearchModel;

    closed spec fn view(&self) -> SearchModel {
        SearchModel {
            system_path: self.system_path.deep_view(),
            extensions: self.extensions.deep_view(),
            executables: self.executables.deep_view(),
        }
    }
}

impl ExecutableSearch {
    /// A host with the given system path and extensions, on which no
    /// executable has been found yet.
    pub fn new(system_path: Vec<ResolvedPath>, extensions: Vec<String>) -> (search:
        ExecutableSearch)
        ensures
            search@ == (SearchModel {
                system_path: system_path.deep_view(),
                extensions: extensions.deep_view(),
                executables: Seq::empty(),
            }),
    {
        let search = ExecutableSearch { system_path, extensions, executables: Vec::new() };
        assert(search.executables.deep_view() =~= Seq::<PathModel>::empty());
        search
    }

    /// Records that the host found `file` to be an executable file.
    pub fn add_executable(&mut self, file: ResolvedPath)
        ensures
            final(self)@ == (SearchModel {
                executables: old(self)@.executables.push(file@),
                ..old(self)@
            }),
    {
        let ghost before = self.executables.deep_view();
        self.executables.push(file);
        assert(self.executables.deep_view() =~= before.push(file@));
    }

    /// Whether the host found `file` to be an executable file.
    pub fn is_executable(&self, file: &ResolvedPath) -> (found: bool)
        ensures
            found == self@.executables.contains(file@),
    {
        let mut i: usize = 0;
        while i < self.executables.len()
            invariant
                i <= self.executables.len(),
                forall|k: int| 0 <= k < i ==> self.executables[k]@ != file@,
            decreases self.executables.len() - i,
        {
            if self.executables[i] == *file {
                assert(self.executables.deep_view()[i as int] == file@);
                return true;
            }
            i += 1;
        }
        assert forall|k: int| 0 <= k < self.executables.deep_view().len() implies
            self.executables.deep_view()[k] != file@ by {
            assert(self.executables.deep_view()[k] == self.executables[k]@);
        }
        false
    }
}

/// Whether `name` carries an extension.
pub fn carries_extension(name: &str) -> (carries: bool)
    ensures
        carries == spec_carries_extension(name@),
{
    let mut i: usize = name.unicode_len();
    while i > 0
        invariant
            i <= name@.len(),
            forall|j: int| i <= j < name@.len() ==> !is_separator(#[trigger] name@[j]),
            forall|j: int| i <= j < name@.len() ==> #[trigger] name@[j] != '.',
        decreases i,
    {
        let c = name.get_char(i - 1);
        if c == '.' {
            assert(spec_in_last_component(name@, i - 1));
            return true;
        }
        if c == '/' || c == '\\' {
            assert(!spec_carries_extension(name@)) by {
                assert forall|k: int|
                    0 <= k < name@.len() && #[trigger] name@[k] == '.' implies !spec_in_last_component(
                    name@,
                    k,
                ) by {
                    assert(k < i - 1);
                    assert(is_separator(name@[i - 1]));
                }
            }
            return false;
        }
        i -= 1;
    }
    false
}

/// The file names that are tried for `name` with the given extensions.
pub fn file_names(name: &str, extensions: &Vec<String>) -> (names: Vec<String>)
    ensures
        names.deep_view() == spec_file_names(name@, extensions.deep_view()),
{
    let mut names: Vec<String> = Vec::new();
    if carries_extension(name) || extensions.len() == 0 {
        names.push(name.to_owned());
        assert(names.deep_view() =~= seq![name@]);
    } else {
        let mut i: usize = 0;
        while i < extensions.len()
            invariant
                i <= extensions.len(),
                names.len() == i,
                forall|k: int| 0 <= k < i ==> names[k]@ == name@ + extensions[k]@,
            decreases extensions.len() - i,
        {
            names.push(name.to_owned().concat(extensions[i].as_str()));
            i += 1;
        }
        assert(names.deep_view() =~= spec_file_names(name@, extensions.deep_view()));
    }
    names
}

/// The pieces of `list` between the occurrences of `separator`, in their
/// order, without the empty ones: the extensions of `.com;.exe`, parted at
/// `;`, are `.com` and `.exe`.
pub fn split_list(list: &str, separator: char) -> (pieces: Vec<String>)
    ensures
        pieces.deep_view() == spec_split_list(list@, separator),
{
    let len = list.unicode_len();
    let mut pieces: Vec<String> = Vec::new();
    let mut from: usize = 0;
    let mut i: usize = 0;
    assert(pieces.deep_view() =~= Seq::<Seq<char>>::empty());
    assert(list@.skip(0) =~= list@);
    while i < len
        invariant
            from <= i <= len,
            len == list@.len(),
            forall|j: int| from <= j < i ==> list@[j] != separator,
            pieces.deep_view() + spec_split_list(list@.skip(from as int), separator)
                == spec_split_list(list@, separator),
        decreases len - i,
    {
        if list.get_char(i) == separator {
            let ghost rest = list@.skip(from as int);
            let ghost before = pieces.deep_view();
            proof {
                lemma_first_piece_len(rest, separator, i - from);
                assert(rest.skip(i - from + 1) =~= list@.skip(i + 1));
                assert(rest.take(i - from) =~= list@.subrange(from as int, i as int));
            }
            if from < i {
                pieces.push(list.substring_char(from, i).to_owned());
                assert(pieces.deep_view() =~= before.push(list@.subrange(from as int, i as int)));
            }
            assert(pieces.deep_view() + spec_split_list(list@.skip(i + 1), separator) =~= before
                + spec_split_list(rest, separator));
            from = i + 1;
        }
        i += 1;
    }
    let ghost rest = list@.skip(from as int);
    let ghost before = pieces.deep_view();
    proof {
        lemma_first_piece_len(rest, separator, len - from);
        assert(rest.take(len - from) =~= list@.subrange(from as int, len as int));
    }
    if from < len {
        pieces.push(list.substring_char(from, len).to_owned());
        assert(pieces.deep_view() =~= before.push(list@.subrange(from as int, len as int)));
    }
    assert(pieces.deep_view() =~= before + spec_split_list(rest, separator));
    pieces
}

/// Appends to `files` the files of the given names below each of `dirs`.
fn push_files_in(files: &mut Vec<ResolvedPath>, dirs: &Vec<ResolvedPath>, names: &Vec<String>)
    ensures
        final(files).deep_view() == old(files).deep_view() + spec_files_in(
            dirs.deep_view(),
            names.deep_view(),
        ),
{
    let ghost before = files.deep_view();
    let ghost all_dirs = dirs.deep_view();
    let ghost all_names = names.deep_view();
    let mut d: usize = 0;
    while d < dirs.len()
        invariant
            d <= dirs.len(),
            all_dirs == dirs.deep_view(),
            all_names == names.deep_view(),
            files.deep_view() == before + spec_files_in(all_dirs.take(d as int), all_names),
        decreases dirs.len() - d,
    {
        let ghost done = files.deep_view();
        let mut n: usize = 0;
        while n < names.len()
            invariant
                n <= names.len(),
                d < dirs.len(),
                all_dirs == dirs.deep_view(),
                all_names == names.deep_view(),
                files.deep_view() == done + spec_files_below(all_dirs[d as int], all_names).take(
                    n as int,
                ),
            decreases names.len() - n,
        {
            let ghost so_far = files.deep_view();
            let mut file = dirs[d].clone();
            file.push(names[n].as_str());
            files.push(file);
            assert(files.deep_view() =~= so_far.push(file@));
            assert(files.deep_view() =~= done + spec_files_below(all_dirs[d as int], all_names).take(
                n + 1,
            ));
            n += 1;
        }
        proof {
            let below = spec_files_below(all_dirs[d as int], all_names);
            assert(below.take(names.len() as int) =~= below);
            assert(all_dirs.take(d + 1).drop_last() =~= all_dirs.take(d as int));
            assert(all_dirs.take(d + 1).last() == all_dirs[d as int]);
            assert(files.deep_view() =~= before + spec_files_in(all_dirs.take(d + 1), all_names));
        }
        d += 1;
    }
    assert(all_dirs.take(dirs.len() as int) =~= all_dirs);
}

impl StandardPaths {
    /// The files that could be the executable `name`, in the order in which
    /// they are tried. `absolute` says whether the host takes `name` for an
    /// absolute path.
    pub fn executable_candidates(
        name: &str,
        absolute: bool,
        paths: &Vec<ResolvedPath>,
        search: &ExecutableSearch,
    ) -> (candidates: Vec<ResolvedPath>)
        ensures
            candidates.deep_view() == spec_executable_candidates(
                name@,
                absolute,
                paths.deep_view(),
                search@,
            ),
    {
        let names = file_names(name, &search.extensions);
        let mut candidates: Vec<ResolvedPath> = Vec::new();
        assert(candidates.deep_view() =~= Seq::<PathModel>::empty());
        if absolute {
            let mut i: usize = 0;
            while i < names.len()
                invariant
                    i <= names.len(),
                    candidates.len() == i,
                    forall|k: int| 0 <= k < i ==> candidates[k]@ == PathModel::root(names[k]@),
                decreases names.len() - i,
            {
                candidates.push(ResolvedPath::new(names[i].as_str()));
                i += 1;
            }
            assert(candidates.deep_view() =~= spec_executable_candidates(
                name@,
                absolute,
                paths.deep_view(),
                search@,
            ));
        } else if paths.len() == 0 {
            push_files_in(&mut candidates, &search.system_path, &names);
            assert(candidates.deep_view() =~= spec_files_in(search@.system_path, names.deep_view()));
        } else {
            push_files_in(&mut candidates, paths, &names);
            assert(candidates.deep_view() =~= spec_files_in(paths.deep_view(), names.deep_view()));
        }
        candidates
    }

    /// The executables called `name` in the directories `paths`, or in
    /// those of the system path where `paths` is empty, in the order of the
    /// directories; for an absolute `name`, that file itself. `None` where
    /// the host found no such executable.
    pub fn find_executable_in_paths(
        name: &str,
        absolute: bool,
        paths: Vec<ResolvedPath>,
        search: &ExecutableSearch,
    ) -> (found: Option<Vec<ResolvedPath>>)
        ensures
            found.deep_view() == spec_find_executable(name@, absolute, paths.deep_view(), search@),
    {
        let candidates = StandardPaths::executable_candidates(name, absolute, &paths, search);
        let ghost all = candidates.deep_view();
        let mut found: Vec<ResolvedPath> = Vec::new();
        assert(found.deep_view() =~= Seq::<PathModel>::empty());
        assert(all.take(0).filter(search@.found()) =~= Seq::<PathModel>::empty()) by {
            reveal(Seq::filter);
        }
        let mut i: usize = 0;
        while i < candidates.len()
            invariant
                i <= candidates.len(),
                all == candidates.deep_view(),
                found.deep_view() == all.take(i as int).filter(search@.found()),
            decreases candidates.len() - i,
        {
            let ghost kept = found.deep_view();
            proof {
                all.take(i as int).lemma_filter_push(all[i as int], search@.found());
                assert(all.take(i as int).push(all[i as int]) =~= all.take(i + 1));
            }
            if search.is_executable(&candidates[i]) {
                found.push(candidates[i].clone());
                assert(found.deep_view() =~= kept.push(all[i as int]));
            }
            i += 1;
        }
        assert(all.take(candidates.len() as int) =~= all);
        if found.len() == 0 {
            None
        } else {
            Some(found)
        }
    }

    /// The executables called `name` in the directories of the system path,
    /// in their order; for an absolute `name`, that file itself. `None`
    /// where the host found no such executable.
    pub fn find_executable(name: &str, absolute: bool, search: &ExecutableSearch) -> (found: Option<
        Vec<ResolvedPath>,
    >)
        ensures
            found.deep_view() == spec_find_executable(
                name@,
                absolute,
                Seq::<PathModel>::empty(),
                search@,
            ),
    {
        let paths: Vec<ResolvedPath> = Vec::new();
        assert(paths.deep_view() =~= Seq::<PathModel>::empty());
        StandardPaths::find_executable_in_paths(name, absolute, paths, search)
    }
}

} // verus!
