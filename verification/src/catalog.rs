use vstd::prelude::*;
use vstd::string::*;

use crate::chain::{spec_decode_doc, Chain, ChainV};
use crate::error::{Error, Kind};
use crate::filename::{parse_chain_file_name, spec_parse_file_name};

verus! {

/// One entry handed to the catalog build: a regular file's name and its
/// full contents.
pub struct ChainFile {
    pub name: String,
    pub contents: String,
}

/// Ghost image of a [`ChainFile`].
pub struct ChainFileV {
    pub name: Seq<char>,
    pub contents: Seq<char>,
}

impl View for ChainFile {
    type V = ChainFileV;

    open spec fn view(&self) -> ChainFileV {
        ChainFileV { name: self.name@, contents: self.contents@ }
    }
}

impl DeepView for ChainFile {
    type V = ChainFileV;

    open spec fn deep_view(&self) -> ChainFileV {
        self.view()
    }
}

/// Why a catalog build failed. Any of these conditions is fatal to the
/// whole build: a broken data source is not a recoverable runtime error.
#[derive(Debug)]
pub enum BuildError {
    /// A file name does not have the fixed `eip155-<id>.json` form.
    BadFileName(String),
    /// A file's contents do not decode; carries the name and the cause.
    Decode(String, Error),
    /// Two files encode the same chain id.
    DuplicateId(u64),
}

/// What building from given files comes to: the finished mapping, or the
/// first fatal condition met, scanning the files in order.
pub enum BuildOutcome {
    Built(Map<u64, ChainV>),
    BadName(Seq<char>),
    BadFile(Seq<char>),
    Duplicate(u64),
}

/// The build, resumed at file `i` with the mapping gathered so far.
pub open spec fn spec_build_from(files: Seq<ChainFileV>, i: int, acc: Map<u64, ChainV>) -> BuildOutcome
    decreases files.len() - i,
{
    if i >= files.len() {
        BuildOutcome::Built(acc)
    } else {
        match spec_parse_file_name(files[i].name) {
            None => BuildOutcome::BadName(files[i].name),
            Some(id) => match spec_decode_doc(files[i].contents) {
                None => BuildOutcome::BadFile(files[i].name),
                Some(cv) => if acc.contains_key(id) {
                    BuildOutcome::Duplicate(id)
                } else {
                    spec_build_from(files, i + 1, acc.insert(id, cv))
                },
            },
        }
    }
}

/// What building the catalog from the given files comes to.
pub open spec fn spec_build(files: Seq<ChainFileV>) -> BuildOutcome {
    spec_build_from(files, 0, Map::empty())
}

/// The mapping a list of keyed records denotes, later entries winning.
pub open spec fn entries_map(es: Seq<(u64, Chain)>) -> Map<u64, ChainV>
    decreases es.len(),
{
    if es.len() == 0 {
        Map::empty()
    } else {
        entries_map(es.drop_last()).insert(es.last().0, es.last().1@)
    }
}

/// A key is in the mapping exactly when some entry carries it.
proof fn lemma_entries_map_domain(es: Seq<(u64, Chain)>, k: u64)
    ensures
        entries_map(es).contains_key(k) <==> exists|i: int| 0 <= i < es.len() && es[i].0 == k,
    decreases es.len(),
{
    if es.len() > 0 {
        lemma_entries_map_domain(es.drop_last(), k);
        if es.last().0 == k {
            assert(es[es.len() - 1].0 == k);
        } else {
            if exists|i: int| 0 <= i < es.len() && es[i].0 == k {
                let i = choose|i: int| 0 <= i < es.len() && es[i].0 == k;
                assert(es.drop_last()[i].0 == k);
            }
            if exists|i: int| 0 <= i < es.drop_last().len() && es.drop_last()[i].0 == k {
                let i = choose|i: int| 0 <= i < es.drop_last().len() && es.drop_last()[i].0 == k;
                assert(es[i].0 == k);
            }
        }
    }
}

/// With unique keys, the mapping holds each entry's record at its key.
proof fn lemma_entries_map_at(es: Seq<(u64, Chain)>, i: int)
    requires
        0 <= i < es.len(),
        forall|a: int, b: int| 0 <= a < b < es.len() ==> es[a].0 != es[b].0,
    ensures
        entries_map(es).contains_key(es[i].0),
        entries_map(es)[es[i].0] == es[i].1@,
    decreases es.len(),
{
    if i == es.len() - 1 {
    } else {
        assert(es.drop_last()[i] == es[i]);
        lemma_entries_map_at(es.drop_last(), i);
        assert(es[es.len() - 1].0 != es[i].0);
    }
}

/// Finds the position of an id in the entry list.
fn find_entry(entries: &Vec<(u64, Chain)>, chain_id: u64) -> (r: Option<usize>)
    ensures
        match r {
            Some(i) => i < entries@.len() && entries@[i as int].0 == chain_id,
            None => forall|i: int| 0 <= i < entries@.len() ==> entries@[i].0 != chain_id,
        },
{
    let mut i: usize = 0;
    while i < entries.len()
        invariant
            0 <= i <= entries.len(),
            forall|j: int| 0 <= j < i ==> entries@[j].0 != chain_id,
        decreases entries.len() - i,
    {
        if entries[i].0 == chain_id {
            return Some(i);
        }
        i = i + 1;
    }
    None
}

/// The immutable catalog: one record per chain id.
pub struct Catalog {
    entries: Vec<(u64, Chain)>,
}

impl View for Catalog {
    type V = Map<u64, ChainV>;

    closed spec fn view(&self) -> Map<u64, ChainV> {
        entries_map(self.entries@)
    }
}

impl Catalog {
    /// Keys are unique by construction.
    #[verifier::type_invariant]
    spec fn inv(self) -> bool {
        forall|a: int, b: int|
            0 <= a < b < self.entries@.len() ==> self.entries@[a].0 != self.entries@[b].0
    }

    /// Builds the catalog from the regular files of the data directory,
    /// scanning them in the order given: each file name must encode a
    /// chain id, each file must decode to a record, and no id may occur
    /// twice. The first fatal condition met is reported; on success the
    /// catalog maps exactly the ids the file names encode.
    pub fn build(files: &Vec<ChainFile>) -> (r: Result<Catalog, BuildError>)
        ensures
            match r {
                Ok(cat) => spec_build(files.deep_view()) == BuildOutcome::Built(cat@),
                Err(e) => match e {
                    BuildError::BadFileName(n) => spec_build(files.deep_view())
                        == BuildOutcome::BadName(n@),
                    BuildError::Decode(n, err) => spec_build(files.deep_view())
                        == BuildOutcome::BadFile(n@) && err@.kind == Kind::Json,
                    BuildError::DuplicateId(id) => spec_build(files.deep_view())
                        == BuildOutcome::Duplicate(id),
                },
            },
    {
        let ghost fv = files.deep_view();
        let mut entries: Vec<(u64, Chain)> = Vec::new();
        let mut idx: usize = 0;
        while idx < files.len()
            invariant
                0 <= idx <= files.len(),
                fv == files.deep_view(),
                fv.len() == files@.len(),
                spec_build(fv) == spec_build_from(fv, idx as int, entries_map(entries@)),
                forall|a: int, b: int|
                    0 <= a < b < entries@.len() ==> entries@[a].0 != entries@[b].0,
            decreases files.len() - idx,
        {
            let file = &files[idx];
            proof {
                assert(fv[idx as int] == files@[idx as int].deep_view());
            }
            let id = match parse_chain_file_name(file.name.as_str()) {
                Some(id) => id,
                None => {
                    return Err(BuildError::BadFileName(file.name.clone()));
                },
            };
            let chain = match Chain::decode(file.contents.as_str()) {
                Ok(c) => c,
                Err(e) => {
                    return Err(BuildError::Decode(file.name.clone(), e));
                },
            };
            match find_entry(&entries, id) {
                Some(_) => {
                    proof {
                        lemma_entries_map_domain(entries@, id);
                    }
                    return Err(BuildError::DuplicateId(id));
                },
                None => {
                    proof {
                        lemma_entries_map_domain(entries@, id);
                    }
                    let ghost old_entries = entries@;
                    entries.push((id, chain));
                    proof {
                        assert(entries@.drop_last() =~= old_entries);
                        assert(entries@.last() == (id, chain));
                        assert(entries_map(entries@) == entries_map(old_entries).insert(
                            id,
                            chain@,
                        ));
                    }
                },
            }
            idx = idx + 1;
        }
        Ok(Catalog { entries })
    }

    /// Looks up a chain id, handing back an independent copy of the
    /// stored record; a missing id is a normal empty result.
    pub fn get(&self, chain_id: u64) -> (r: Option<Chain>)
        ensures
            match r {
                Some(c) => self@.contains_key(chain_id) && c@ == self@[chain_id],
                None => !self@.contains_key(chain_id),
            },
    {
        proof {
            use_type_invariant(self);
        }
        match find_entry(&self.entries, chain_id) {
            Some(i) => {
                proof {
                    lemma_entries_map_at(self.entries@, i as int);
                }
                Some(self.entries[i].1.clone())
            },
            None => {
                proof {
                    lemma_entries_map_domain(self.entries@, chain_id);
                }
                None
            },
        }
    }
}

/// What a build that finishes guarantees of every file not yet consumed
/// when resumed at `i` with the mapping `acc` gathered so far.
proof fn lemma_build_from_props(
    files: Seq<ChainFileV>,
    i: int,
    acc: Map<u64, ChainV>,
    m: Map<u64, ChainV>,
)
    requires
        0 <= i <= files.len(),
        spec_build_from(files, i, acc) == BuildOutcome::Built(m),
    ensures
        forall|j: int|
            i <= j < files.len() ==> (#[trigger] spec_parse_file_name(files[j].name)) is Some,
        forall|j: int|
            i <= j < files.len() ==> (#[trigger] spec_decode_doc(files[j].contents)) is Some,
        forall|j: int|
            i <= j < files.len() ==> m.contains_key(
                (#[trigger] spec_parse_file_name(files[j].name))->0,
            ) && m[spec_parse_file_name(files[j].name)->0] == spec_decode_doc(
                files[j].contents,
            )->0,
        forall|k: u64| #[trigger] acc.contains_key(k) ==> m.contains_key(k) && m[k] == acc[k],
        forall|j: int|
            i <= j < files.len() ==> !acc.contains_key(
                (#[trigger] spec_parse_file_name(files[j].name))->0,
            ),
        forall|j1: int, j2: int|
            i <= j1 < j2 < files.len() ==> (#[trigger] spec_parse_file_name(files[j1].name))->0
                != (#[trigger] spec_parse_file_name(files[j2].name))->0,
    decreases files.len() - i,
{
    if i < files.len() {
        let id = spec_parse_file_name(files[i].name)->0;
        let cv = spec_decode_doc(files[i].contents)->0;
        lemma_build_from_props(files, i + 1, acc.insert(id, cv), m);
        assert(!acc.contains_key(id));
        assert(acc.insert(id, cv).contains_key(id));
        assert(acc.insert(id, cv)[id] == cv);
        assert(m.contains_key(id) && m[id] == cv);
        assert forall|k: u64| #[trigger] acc.contains_key(k) implies m.contains_key(k) && m[k]
            == acc[k] by {
            assert(k != id);
            assert(acc.insert(id, cv).contains_key(k));
            assert(acc.insert(id, cv)[k] == acc[k]);
        }
        assert forall|j1: int, j2: int|
            i <= j1 < j2 < files.len() implies (#[trigger] spec_parse_file_name(
            files[j1].name,
        ))->0 != (#[trigger] spec_parse_file_name(files[j2].name))->0 by {
            if j1 == i {
                assert(!acc.insert(id, cv).contains_key(
                    spec_parse_file_name(files[j2].name)->0,
                ));
            }
        }
    }
}

/// A successful build reaches every file: the file's name parses, its
/// document decodes, and the catalog holds the decoded record at the id
/// the name encodes. When the record's embedded chain id agrees with the
/// file name, the record found at that id carries it.
pub proof fn lemma_built_covers(files: Seq<ChainFileV>, m: Map<u64, ChainV>, j: int)
    requires
        spec_build(files) == BuildOutcome::Built(m),
        0 <= j < files.len(),
    ensures
        spec_parse_file_name(files[j].name) is Some,
        spec_decode_doc(files[j].contents) is Some,
        m.contains_key(spec_parse_file_name(files[j].name)->0),
        m[spec_parse_file_name(files[j].name)->0] == spec_decode_doc(files[j].contents)->0,
        spec_decode_doc(files[j].contents)->0.chain_id == spec_parse_file_name(files[j].name)->0
            ==> m[spec_parse_file_name(files[j].name)->0].chain_id == spec_parse_file_name(
            files[j].name,
        )->0,
{
    lemma_build_from_props(files, 0, Map::empty(), m);
}

/// No two files of a successful build encode the same chain id: a data
/// set holding a duplicate id never builds.
pub proof fn lemma_built_ids_distinct(
    files: Seq<ChainFileV>,
    m: Map<u64, ChainV>,
    j1: int,
    j2: int,
)
    requires
        spec_build(files) == BuildOutcome::Built(m),
        0 <= j1 < j2 < files.len(),
    ensures
        spec_parse_file_name(files[j1].name)->0 != spec_parse_file_name(files[j2].name)->0,
{
    lemma_build_from_props(files, 0, Map::empty(), m);
}

impl Chain {
    /// Looks up a chain id in the catalog, handing back an independent
    /// copy of the stored record, or nothing when the id is absent.
    pub fn get(catalog: &Catalog, chain_id: u64) -> (r: Option<Chain>)
        ensures
            match r {
                Some(c) => catalog@.contains_key(chain_id) && c@ == catalog@[chain_id],
                None => !catalog@.contains_key(chain_id),
            },
    {
        catalog.get(chain_id)
    }
}

} // verus!
