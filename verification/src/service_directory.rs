//! The cache of loaded modules, by name.

use crate::engine::{load_module, share};
use crate::fault::Fault;
use crate::text::chars_of;
use crate::variant::{artifact_extension, artifact_file_of};
use std::sync::Arc;
use vstd::prelude::*;

verus! {

/// The name under which the module in a file is cached: the file's name
/// without its extension, for a file that has the artifact extension behind a
/// name that is not empty.
pub open spec fn artifact_stem_of(file: Seq<char>) -> Option<Seq<char>> {
    if file.len() > 3 && file.subrange(file.len() - 3, file.len() as int) == artifact_extension() {
        Some(file.subrange(0, file.len() - 3))
    } else {
        None
    }
}

/// The path of a file in a directory.
pub open spec fn path_in(dir: Seq<char>, file: Seq<char>) -> Seq<char> {
    dir + seq!['/'] + file
}

/// Tells whether a directory entry is a compiled module, and under which name
/// it is cached.
pub fn artifact_stem(file: &str) -> (stem: Option<String>)
    ensures
        stem is Some <==> artifact_stem_of(file@) is Some,
        stem matches Some(s) ==> artifact_stem_of(file@) == Some(s@),
{
    let chars = chars_of(file);
    let n = chars.len();
    if n <= 3 {
        return None;
    }
    if chars[n - 3] == '.' && chars[n - 2] == 's' && chars[n - 1] == 'o' {
        assert(file@.subrange(n - 3, n as int) =~= artifact_extension());
        Some(file.substring_char(0, n - 3).to_owned())
    } else {
        proof {
            let tail = file@.subrange(n - 3, n as int);
            assert(tail[0] == file@[n - 3]);
            assert(tail[1] == file@[n - 2]);
            assert(tail[2] == file@[n - 1]);
        }
        None
    }
}

/// Composes the path of a file in a directory.
pub fn artifact_path(dir: &str, file: &str) -> (path: String)
    ensures
        path@ == path_in(dir@, file@),
{
    proof {
        reveal_strlit("/");
    }
    let mut path = dir.to_owned();
    path.append("/");
    path.append(file);
    path
}

/// A cached name is found again from the file name that is composed for it.
pub proof fn lemma_stem_of_composed_file(name: Seq<char>)
    requires
        name.len() > 0,
    ensures
        artifact_stem_of(artifact_file_of(name)) == Some(name),
{
    let file = artifact_file_of(name);
    assert(file.subrange(file.len() - 3, file.len() as int) =~= artifact_extension());
}

/// One cached module and the name that it is cached under.
struct Entry<H> {
    name: String,
    handle: H,
}

/// The modules that were loaded, each under its name.
pub struct ModuleRegistry<H> {
    entries: Vec<Entry<H>>,
}

/// The name of the entry at position `i`.
spec fn name_at<H>(entries: Seq<Entry<H>>, i: int) -> Seq<char> {
    entries[i].name@
}

/// The entry at position `i` of `entries` is cached under `name`.
spec fn holds<H>(entries: Seq<Entry<H>>, name: Seq<char>, i: int) -> bool {
    0 <= i < entries.len() && name_at(entries, i) == name
}

/// No two entries are cached under one name.
spec fn distinct_names<H>(entries: Seq<Entry<H>>) -> bool {
    forall|i: int, j: int|
        0 <= i < j < entries.len() ==> name_at(entries, i) != name_at(entries, j)
}

/// The modules of `entries`, by name.
spec fn entries_map<H>(entries: Seq<Entry<H>>) -> Map<Seq<char>, H> {
    Map::new(
        |k: Seq<char>| exists|i: int| holds(entries, k, i),
        |k: Seq<char>| entries[choose|i: int| holds(entries, k, i)].handle,
    )
}

/// Among distinct names, the module at a position is the one that the map
/// gives for the name at that position.
proof fn lemma_map_at<H>(entries: Seq<Entry<H>>, i: int)
    requires
        distinct_names(entries),
        0 <= i < entries.len(),
    ensures
        entries_map(entries).contains_key(entries[i].name@),
        entries_map(entries)[entries[i].name@] == entries[i].handle,
{
    let k = entries[i].name@;
    assert(holds(entries, k, i));
    let j = choose|j: int| holds(entries, k, j);
    assert(j == i);
}

/// Replacing the module at a position puts it under that position's name.
proof fn lemma_map_after_set<H>(before: Seq<Entry<H>>, i: int, entry: Entry<H>)
    requires
        distinct_names(before),
        0 <= i < before.len(),
        entry.name@ == before[i].name@,
    ensures
        distinct_names(before.update(i, entry)),
        entries_map(before.update(i, entry)) == entries_map(before).insert(
            entry.name@,
            entry.handle,
        ),
{
    let after = before.update(i, entry);
    let name = entry.name@;
    assert forall|a: int, b: int| 0 <= a < b < after.len() implies name_at(after, a) != name_at(
        after,
        b,
    ) by {
        assert(name_at(after, a) == name_at(before, a));
        assert(name_at(after, b) == name_at(before, b));
    }
    assert forall|k: Seq<char>|
        entries_map(after).contains_key(k) == entries_map(before).insert(
            name,
            entry.handle,
        ).contains_key(k) by {
        if entries_map(after).contains_key(k) {
            let j = choose|j: int| holds(after, k, j);
            assert(holds(before, k, j));
        }
        if entries_map(before).contains_key(k) {
            let j = choose|j: int| holds(before, k, j);
            assert(holds(after, k, j));
        }
        if k == name {
            assert(holds(after, k, i));
        }
    }
    assert forall|k: Seq<char>| entries_map(after).contains_key(k) implies entries_map(after)[k]
        == entries_map(before).insert(name, entry.handle)[k] by {
        let j = choose|j: int| holds(after, k, j);
        lemma_map_at(after, j);
        if j != i {
            lemma_map_at(before, j);
        }
    }
}

/// Appending a module under a name that is not there yet puts it under that
/// name.
proof fn lemma_map_after_push<H>(before: Seq<Entry<H>>, entry: Entry<H>)
    requires
        distinct_names(before),
        forall|i: int| !holds(before, entry.name@, i),
    ensures
        distinct_names(before.push(entry)),
        entries_map(before.push(entry)) == entries_map(before).insert(entry.name@, entry.handle),
{
    let after = before.push(entry);
    let name = entry.name@;
    let n = before.len() as int;
    assert forall|a: int, b: int| 0 <= a < b < after.len() implies name_at(after, a) != name_at(
        after,
        b,
    ) by {
        assert(name_at(after, a) == name_at(before, a));
        if b == n {
            assert(!holds(before, name, a));
        } else {
            assert(name_at(after, b) == name_at(before, b));
        }
    }
    assert forall|k: Seq<char>|
        entries_map(after).contains_key(k) == entries_map(before).insert(
            name,
            entry.handle,
        ).contains_key(k) by {
        if entries_map(after).contains_key(k) {
            let j = choose|j: int| holds(after, k, j);
            if j < n {
                assert(holds(before, k, j));
            }
        }
        if entries_map(before).contains_key(k) {
            let j = choose|j: int| holds(before, k, j);
            assert(holds(after, k, j));
        }
        if k == name {
            assert(holds(after, k, n));
        }
    }
    assert forall|k: Seq<char>| entries_map(after).contains_key(k) implies entries_map(after)[k]
        == entries_map(before).insert(name, entry.handle)[k] by {
        let j = choose|j: int| holds(after, k, j);
        lemma_map_at(after, j);
        if j < n {
            lemma_map_at(before, j);
        }
    }
}

/// Position of `name` among the entries, if it is there.
fn position<H>(entries: &Vec<Entry<H>>, name: &String) -> (found: Option<usize>)
    ensures
        found matches Some(i) ==> holds(entries@, name@, i as int),
        found is None ==> forall|i: int| !holds(entries@, name@, i),
{
    let mut i: usize = 0;
    while i < entries.len()
        invariant
            i <= entries.len(),
            forall|k: int| 0 <= k < i ==> !holds(entries@, name@, k),
        decreases entries.len() - i,
    {
        if entries[i].name == *name {
            return Some(i);
        }
        i += 1;
    }
    None
}

impl<H> View for ModuleRegistry<H> {
    type V = Map<Seq<char>, H>;

    closed spec fn view(&self) -> Map<Seq<char>, H> {
        entries_map(self.entries@)
    }
}

impl<H> ModuleRegistry<H> {
    #[verifier::type_invariant]
    spec fn well_formed(self) -> bool {
        distinct_names(self.entries@)
    }

    /// An empty registry.
    pub fn new() -> (registry: Self)
        ensures
            registry@ == Map::<Seq<char>, H>::empty(),
    {
        let registry = ModuleRegistry { entries: Vec::new() };
        registry
    }

    /// Looks a module up by its name.
    pub fn lookup(&self, name: &str) -> (found: Option<&H>)
        ensures
            match found {
                Some(handle) => lookup_in(self@, name@) == Some(*handle),
                None => lookup_in(self@, name@) is None,
            },
    {
        proof {
            use_type_invariant(self);
        }
        let owned = name.to_owned();
        match position(&self.entries, &owned) {
            Some(i) => {
                proof {
                    lemma_map_at(self.entries@, i as int);
                }
                Some(&self.entries[i].handle)
            },
            None => None,
        }
    }

    /// Puts a module under a name; a module that was there under that name
    /// is replaced.
    pub fn insert(&mut self, name: String, handle: H)
        ensures
            final(self)@ == old(self)@.insert(name@, handle),
    {
        proof {
            use_type_invariant(&*self);
        }
        let mut entries: Vec<Entry<H>> = Vec::new();
        std::mem::swap(&mut entries, &mut self.entries);
        let entry = Entry { name, handle };
        match position(&entries, &entry.name) {
            Some(i) => {
                proof {
                    lemma_map_after_set(entries@, i as int, entry);
                }
                entries.set(i, entry);
            },
            None => {
                proof {
                    lemma_map_after_push(entries@, entry);
                }
                entries.push(entry);
            },
        }
        self.entries = entries;
    }
}

/// What a lookup of `name` gives in a registry of that view.
pub open spec fn lookup_in<H>(registry: Map<Seq<char>, H>, name: Seq<char>) -> Option<H> {
    if registry.contains_key(name) {
        Some(registry[name])
    } else {
        None
    }
}

/// What became of one directory entry when the directory was loaded.
#[derive(Clone, Copy, Debug, PartialEq, Eq, Structural)]
pub enum LoadOutcome {
    /// The entry is no compiled module: it was not touched.
    Skipped,
    /// The module was loaded and is cached under the entry's stem.
    Loaded,
    /// The entry is a compiled module that could not be loaded.
    Failed,
}

/// What an attempt to load the module of that stem does to a registry.
pub open spec fn after_load<H, E>(
    before: Map<Seq<char>, H>,
    stem: Seq<char>,
    loaded: Result<H, E>,
) -> (LoadOutcome, Map<Seq<char>, H>) {
    match loaded {
        Ok(module) => (LoadOutcome::Loaded, before.insert(stem, module)),
        Err(_) => (LoadOutcome::Failed, before),
    }
}

/// Takes note of an attempt to load the module of that stem: a module that
/// was loaded is cached under the stem, in place of one that was there; a
/// failed attempt changes nothing.
pub fn record_load<H, E>(registry: &mut ModuleRegistry<H>, stem: String, loaded: Result<H, E>) -> (outcome:
    LoadOutcome)
    ensures
        (outcome, final(registry)@) == after_load(old(registry)@, stem@, loaded),
{
    match loaded {
        Ok(module) => {
            registry.insert(stem, module);
            LoadOutcome::Loaded
        },
        Err(_) => LoadOutcome::Failed,
    }
}

/// One of the first `upto` entries was loaded and is cached as `name`.
pub open spec fn loaded_as(
    files: Seq<Seq<char>>,
    outcomes: Seq<LoadOutcome>,
    upto: int,
    name: Seq<char>,
) -> bool {
    exists|i: int|
        0 <= i < upto && #[trigger] outcomes[i] == LoadOutcome::Loaded && artifact_stem_of(files[i])
            == Some(name)
}

/// How a registry that went from `before` to `after` relates to the first
/// `upto` entries of a directory and to what became of them: entries that are
/// no compiled modules were skipped and no others; the names in the registry
/// are those that were there and those that were loaded; a name that was not
/// loaded again keeps its module.
pub open spec fn load_consistent<H>(
    before: Map<Seq<char>, H>,
    after: Map<Seq<char>, H>,
    files: Seq<Seq<char>>,
    outcomes: Seq<LoadOutcome>,
    upto: int,
) -> bool {
    &&& forall|i: int|
        0 <= i < upto ==> (#[trigger] outcomes[i] == LoadOutcome::Skipped <==> artifact_stem_of(
            files[i],
        ) is None)
    &&& forall|name: Seq<char>| #[trigger]
        after.contains_key(name) <==> before.contains_key(name) || loaded_as(
            files,
            outcomes,
            upto,
            name,
        )
    &&& forall|name: Seq<char>|
        before.contains_key(name) && !loaded_as(files, outcomes, upto, name) ==> #[trigger] after[name]
            == before[name]
}

/// Loads every compiled module among the entries of a directory into the
/// registry, each under its stem. An entry that cannot be loaded is passed
/// over; a later entry of the same stem replaces an earlier one. Without a
/// listing, the directory could not be read, and that is the only failure.
pub fn load_dir(
    registry: &mut ModuleRegistry<Arc<lucet_runtime::DlModule>>,
    dir: &str,
    listing: Option<Vec<String>>,
) -> (report: Result<Vec<LoadOutcome>, Fault>)
    ensures
        match listing {
            None => report == Err::<Vec<LoadOutcome>, Fault>(Fault::DirectoryUnreadable)
                && final(registry)@ == old(registry)@,
            Some(files) => match report {
                Ok(outcomes) => outcomes.len() == files.len() && load_consistent(
                    old(registry)@,
                    final(registry)@,
                    files.deep_view(),
                    outcomes@,
                    files.len() as int,
                ),
                Err(_) => false,
            },
        },
{
    let files = match listing {
        None => {
            return Err(Fault::DirectoryUnreadable);
        },
        Some(files) => files,
    };
    let ghost names = files.deep_view();
    let mut outcomes: Vec<LoadOutcome> = Vec::new();
    let mut i: usize = 0;
    while i < files.len()
        invariant
            i <= files.len(),
            names == files.deep_view(),
            outcomes.len() == i,
            load_consistent(old(registry)@, registry@, names, outcomes@, i as int),
        decreases files.len() - i,
    {
        let ghost done = outcomes@;
        let outcome = match artifact_stem(files[i].as_str()) {
            None => LoadOutcome::Skipped,
            Some(stem) => {
                let path = artifact_path(dir, files[i].as_str());
                record_load(registry, stem, load_module(path.as_str()))
            },
        };
        outcomes.push(outcome);
        proof {
            let now = outcomes@;
            let stem = artifact_stem_of(names[i as int]);
            assert forall|name: Seq<char>|
                loaded_as(names, now, i + 1, name) <==> loaded_as(names, done, i as int, name) || (
                outcome == LoadOutcome::Loaded && stem == Some(name)) by {
                if loaded_as(names, now, i + 1, name) {
                    let k = choose|k: int|
                        0 <= k < i + 1 && #[trigger] now[k] == LoadOutcome::Loaded
                            && artifact_stem_of(names[k]) == Some(name);
                    if k < i {
                        assert(done[k] == now[k]);
                    }
                }
                if loaded_as(names, done, i as int, name) {
                    let k = choose|k: int|
                        0 <= k < i && #[trigger] done[k] == LoadOutcome::Loaded && artifact_stem_of(
                            names[k],
                        ) == Some(name);
                    assert(now[k] == done[k]);
                }
                if outcome == LoadOutcome::Loaded && stem == Some(name) {
                    assert(now[i as int] == LoadOutcome::Loaded);
                }
            }
            assert forall|k: int| 0 <= k < i + 1 implies (#[trigger] now[k] == LoadOutcome::Skipped
                <==> artifact_stem_of(names[k]) is None) by {
                if k < i {
                    assert(done[k] == now[k]);
                }
            }
        }
        i += 1;
    }
    Ok(outcomes)
}

/// Looks a shared value up by its name and hands out another pointer to it.
pub fn lookup_shared<T>(registry: &ModuleRegistry<Arc<T>>, name: &str) -> (found: Option<Arc<T>>)
    ensures
        found == lookup_in(registry@, name@),
{
    match registry.lookup(name) {
        Some(handle) => Some(share(handle)),
        None => None,
    }
}

/// Looks a module up by its name. Nothing is read from disk.
pub fn get_module(registry: &ModuleRegistry<Arc<lucet_runtime::DlModule>>, name: &str) -> (found:
    Option<Arc<lucet_runtime::DlModule>>)
    ensures
        found == lookup_in(registry@, name@),
{
    lookup_shared(registry, name)
}

/// Loads the module in the file at `path` anew. The registry has no part in
/// it: what comes back is shared with no other caller.
pub fn load_randomized(path: &str) -> (loaded: Result<Arc<lucet_runtime::DlModule>, Fault>)
    ensures
        loaded matches Err(fault) ==> fault == Fault::ArtifactLoadFailed,
{
    fresh_load_outcome(load_module(path))
}

/// What an attempt to load a module anew comes to: the module that was
/// loaded, or, whatever kept it from loading, the fault of a failed load.
pub fn fresh_load_outcome<H, E>(attempt: Result<H, E>) -> (loaded: Result<H, Fault>)
    ensures
        match attempt {
            Ok(module) => loaded == Ok::<H, Fault>(module),
            Err(_) => loaded == Err::<H, Fault>(Fault::ArtifactLoadFailed),
        },
{
    match attempt {
        Ok(module) => Ok(module),
        Err(_) => Err(Fault::ArtifactLoadFailed),
    }
}

/// After a directory was loaded into an empty registry, a lookup finds a
/// module under exactly the names of the entries that were loaded.
pub proof fn lemma_lookup_after_load<H>(
    after: Map<Seq<char>, H>,
    files: Seq<Seq<char>>,
    outcomes: Seq<LoadOutcome>,
    name: Seq<char>,
)
    requires
        load_consistent(Map::<Seq<char>, H>::empty(), after, files, outcomes, files.len() as int),
    ensures
        lookup_in(after, name) is Some <==> loaded_as(files, outcomes, files.len() as int, name),
{
    assert(after.contains_key(name) <==> Map::<Seq<char>, H>::empty().contains_key(name)
        || loaded_as(files, outcomes, files.len() as int, name));
}

} // verus!
