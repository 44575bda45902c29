//! The index of cycles: finding, selecting, creating and importing.
//!
//! Nothing here reads or writes a file. An operation takes what the caller
//! read, decides, and hands back what is to be written.

use vstd::prelude::*;
use crate::cycle_store::{
    backfilled, empty_content, empty_cycle_data, ensured_content, text_or, CycleRecord,
};
use crate::error::StoreError;
use crate::ident::{
    candidate, format_timestamp, fresh_cycle_id, fresh_offset, is_fresh_offset,
    lemma_fresh_cycle_id_unused, lemma_fresh_offset_unique, lemma_some_candidate_unused, timestamp,
    uid_from, Ambient, CYCLE_ID_PREFIX,
};
use crate::model::{
    has_id, is_first_with_id, lemma_first_with_id_unique, lemma_position_of, position_of,
    stored_index, CycleData, CycleDataView, CycleMeta, CycleMetaView, IndexData, IndexView,
};
use crate::outside::{join_path, path_join};
use crate::paths::{display_path, normalize_path_for, sanitize_folder_name, sanitized};
use crate::text::{copy_str, lemma_digits_nonempty, tail, tail_of};

verus! {

/// Number of characters of the id that end the name of a cycle's folder.
pub const FOLDER_SUFFIX_LENGTH: usize = 6;

/// Name given to an imported cycle that has none.
pub const IMPORTED_CYCLE_NAME: &'static str = "Imported Cycle";

/// A cycle that was just created.
#[derive(Debug, Clone, PartialEq, Eq)]
pub struct CreatedCycle {
    /// The folder to create, as joined from the parent folder and the
    /// folder name. The entry holds the same path as it is shown.
    pub directory: String,
    /// The new entry of the index and the empty content to write.
    pub record: CycleRecord,
}

/// The index as it is handed out after reading: empty where no index file
/// exists, and with every folder path normalized for display otherwise.
pub open spec fn loaded_index(stored: Option<IndexView>, verbatim_paths: bool) -> IndexView {
    match stored {
        None => IndexView::empty(),
        Some(index) => IndexView {
            cycles: index.cycles.map_values(
                |cycle: CycleMetaView|
                    CycleMetaView {
                        folder_path: display_path(cycle.folder_path, verbatim_paths),
                        ..cycle
                    },
            ),
            ..index
        },
    }
}

/// Name of the folder of a new cycle: the sanitized name, an underscore and
/// the last six characters of the id.
pub open spec fn folder_name(name: Seq<char>, id: Seq<char>) -> Seq<char> {
    sanitized(name) + seq!['_'] + tail(id, FOLDER_SUFFIX_LENGTH as nat)
}

/// The folder that is created for a new cycle named `name` below `parent`.
pub open spec fn created_directory(
    cycles: Seq<CycleMetaView>,
    name: Seq<char>,
    parent: Seq<char>,
    ambient: Ambient,
) -> Seq<char> {
    path_join(parent, folder_name(name, fresh_cycle_id(cycles, ambient.random)))
}

/// The entry of a new cycle.
pub open spec fn created_meta(
    cycles: Seq<CycleMetaView>,
    name: Seq<char>,
    parent: Seq<char>,
    ambient: Ambient,
) -> CycleMetaView {
    CycleMetaView {
        id: fresh_cycle_id(cycles, ambient.random),
        name,
        created_at: timestamp(ambient.unix_seconds),
        folder_path: display_path(
            created_directory(cycles, name, parent, ambient),
            ambient.verbatim_paths,
        ),
    }
}

/// The index after the new cycle `meta` was added: it comes last, and it
/// is selected where no cycle was.
pub open spec fn index_with_created(index: IndexView, meta: CycleMetaView) -> IndexView {
    IndexView {
        cycles: index.cycles.push(meta),
        selected_cycle_id: match index.selected_cycle_id {
            Some(id) => Some(id),
            None => Some(meta.id),
        },
    }
}

/// The content that an import writes back: what the file held, with an
/// empty id replaced by a fresh one, an empty name by `Imported Cycle` and
/// an empty creation time by the present one.
pub open spec fn imported_content(
    cycles: Seq<CycleMetaView>,
    data: CycleDataView,
    ambient: Ambient,
) -> CycleDataView {
    backfilled(
        data,
        fresh_cycle_id(cycles, ambient.random),
        IMPORTED_CYCLE_NAME@,
        timestamp(ambient.unix_seconds),
    )
}

/// The entry of a cycle imported from `folder`.
pub open spec fn imported_meta(
    cycles: Seq<CycleMetaView>,
    folder: Seq<char>,
    data: CycleDataView,
    ambient: Ambient,
) -> CycleMetaView {
    let content = imported_content(cycles, data, ambient);
    CycleMetaView {
        id: content.id,
        name: content.name,
        created_at: content.created_at,
        folder_path: display_path(folder, ambient.verbatim_paths),
    }
}

/// `cycles` with the entry `meta` registered: it replaces the first entry
/// with its id, or comes last where there is none.
pub open spec fn registered(cycles: Seq<CycleMetaView>, meta: CycleMetaView) -> Seq<CycleMetaView> {
    if has_id(cycles, meta.id) {
        cycles.update(position_of(cycles, meta.id), meta)
    } else {
        cycles.push(meta)
    }
}

/// The index after the cycle `meta` was imported: registered and selected.
pub open spec fn index_with_imported(index: IndexView, meta: CycleMetaView) -> IndexView {
    IndexView { cycles: registered(index.cycles, meta), selected_cycle_id: Some(meta.id) }
}

/// The position of the first cycle with the id `cycle_id`, if there is one.
pub fn position(index: &IndexData, cycle_id: &str) -> (found: Option<usize>)
    ensures
        match found {
            Some(i) => is_first_with_id(index@.cycles, cycle_id@, i as int) && i as int
                == position_of(index@.cycles, cycle_id@),
            None => !has_id(index@.cycles, cycle_id@),
        },
{
    let mut i: usize = 0;
    while i < index.cycles.len()
        invariant
            i <= index.cycles.len(),
            forall|j: int| 0 <= j < i ==> (#[trigger] index@.cycles[j]).id != cycle_id@,
        decreases index.cycles.len() - i,
    {
        if *index.cycles[i].id.as_str() == *cycle_id {
            proof {
                assert(index@.cycles[i as int].id == cycle_id@);
                assert(is_first_with_id(index@.cycles, cycle_id@, i as int));
                lemma_first_with_id_unique(index@.cycles, cycle_id@, i as int, i as int);
            }
            return Some(i);
        }
        i += 1;
    }
    None
}

/// The first cycle with the id `cycle_id`, if there is one.
pub fn find_cycle(index: &IndexData, cycle_id: &str) -> (found: Option<CycleMeta>)
    ensures
        match found {
            Some(cycle) => has_id(index@.cycles, cycle_id@) && cycle@ == index@.cycles[position_of(
                index@.cycles,
                cycle_id@,
            )],
            None => !has_id(index@.cycles, cycle_id@),
        },
{
    match position(index, cycle_id) {
        Some(i) => {
            assert(index@.cycles[i as int] == index.cycles[i as int]@);
            Some(index.cycles[i].duplicate())
        },
        None => None,
    }
}

/// The cycle to load or save: the first one with the id `cycle_id`, or the
/// failure that there is none.
pub fn lookup_cycle(index: &IndexData, cycle_id: &str) -> (found: Result<CycleMeta, StoreError>)
    ensures
        match found {
            Ok(cycle) => has_id(index@.cycles, cycle_id@) && cycle@ == index@.cycles[position_of(
                index@.cycles,
                cycle_id@,
            )],
            Err(error) => error == StoreError::CycleNotFound && !has_id(index@.cycles, cycle_id@),
        },
{
    match find_cycle(index, cycle_id) {
        Some(cycle) => Ok(cycle),
        None => Err(StoreError::CycleNotFound),
    }
}

/// The index as it is handed out after reading, from what the index file
/// holds, if it exists.
pub fn load_index(stored: Option<IndexData>, ambient: &Ambient) -> (index: IndexData)
    ensures
        index@ == loaded_index(stored_index(stored), ambient.verbatim_paths),
        stored matches Some(data) && data@.consistent() ==> index@.consistent(),
{
    match stored {
        None => IndexData::empty(),
        Some(data) => {
            let ghost shown = loaded_index(Some(data@), ambient.verbatim_paths).cycles;
            let mut cycles: Vec<CycleMeta> = Vec::new();
            let mut i: usize = 0;
            while i < data.cycles.len()
                invariant
                    i <= data.cycles.len(),
                    shown == loaded_index(Some(data@), ambient.verbatim_paths).cycles,
                    cycles.len() == i,
                    forall|j: int| 0 <= j < i ==> (#[trigger] cycles[j])@ == shown[j],
                decreases data.cycles.len() - i,
            {
                let cycle = &data.cycles[i];
                assert(data@.cycles[i as int] == cycle@);
                cycles.push(
                    CycleMeta {
                        id: cycle.id.clone(),
                        name: cycle.name.clone(),
                        created_at: cycle.created_at.clone(),
                        folder_path: normalize_path_for(
                            cycle.folder_path.as_str(),
                            ambient.verbatim_paths,
                        ),
                    },
                );
                i += 1;
            }
            let index = IndexData { cycles, selected_cycle_id: data.selected_cycle_id };
            assert(index@.cycles =~= shown);
            proof {
                lemma_loaded_keeps_consistent(data@, ambient.verbatim_paths);
            }
            index
        },
    }
}

/// Selects the cycle with the id `cycle_id`. Where the index holds no such
/// cycle, the index stays as it is.
pub fn select_cycle(index: &mut IndexData, cycle_id: &str) -> (done: Result<(), StoreError>)
    ensures
        match done {
            Ok(()) => {
                &&& has_id(old(index)@.cycles, cycle_id@)
                &&& final(index)@ == IndexView {
                    selected_cycle_id: Some(cycle_id@),
                    ..old(index)@
                }
            },
            Err(error) => {
                &&& error == StoreError::SelectionNotFound
                &&& !has_id(old(index)@.cycles, cycle_id@)
                &&& *final(index) == *old(index)
            },
        },
        old(index)@.consistent() ==> final(index)@.consistent(),
{
    match position(index, cycle_id) {
        Some(_) => {
            index.selected_cycle_id = Some(copy_str(cycle_id));
            Ok(())
        },
        None => Err(StoreError::SelectionNotFound),
    }
}

/// An id for a new cycle: the first of the candidates after `seed` that no
/// cycle of the index has.
pub fn new_cycle_id(index: &IndexData, seed: u64) -> (id: String)
    ensures
        id@ == fresh_cycle_id(index@.cycles, seed),
        !has_id(index@.cycles, id@),
        id@.len() > 0,
{
    let len = index.cycles.len();
    let mut k: usize = 0;
    proof {
        lemma_fresh_cycle_id_unused(index@.cycles, seed);
    }
    loop
        invariant
            len == index.cycles.len(),
            k <= len,
            forall|j: int| 0 <= j < k ==> has_id(index@.cycles, #[trigger] candidate(seed, j)),
        decreases len - k,
    {
        let step = k as u64;
        let number = if step <= u64::MAX - seed {
            seed + step
        } else {
            step - (u64::MAX - seed) - 1
        };
        let id = uid_from(CYCLE_ID_PREFIX, number);
        assert(id@ == candidate(seed, k as int));
        if position(index, id.as_str()).is_none() {
            proof {
                assert(is_fresh_offset(index@.cycles, seed, k as int));
                lemma_fresh_cycle_id_unused(index@.cycles, seed);
                lemma_fresh_offset_unique(
                    index@.cycles,
                    seed,
                    k as int,
                    fresh_offset(index@.cycles, seed),
                );
            }
            return id;
        }
        proof {
            if k == len {
                lemma_some_candidate_unused(index@.cycles, seed);
            }
        }
        k += 1;
    }
}

/// Creates a cycle named `name` in a new folder below `parent_dir`.
///
/// `parent_is_directory` says whether `parent_dir` exists and is a folder;
/// where it is not, the operation fails and the index stays as it is.
/// Otherwise the new entry is added to the index, selected where no cycle
/// was, and handed back with its empty content and the folder to create.
pub fn create_cycle(
    index: &mut IndexData,
    name: String,
    parent_dir: &str,
    parent_is_directory: bool,
    ambient: &Ambient,
) -> (created: Result<CreatedCycle, StoreError>)
    ensures
        match created {
            Ok(cycle) => {
                let meta = created_meta(old(index)@.cycles, name@, parent_dir@, *ambient);
                &&& parent_is_directory
                &&& cycle.directory@ == created_directory(
                    old(index)@.cycles,
                    name@,
                    parent_dir@,
                    *ambient,
                )
                &&& cycle.record.meta@ == meta
                &&& cycle.record.data@ == empty_content(meta)
                &&& final(index)@ == index_with_created(old(index)@, meta)
                &&& !has_id(old(index)@.cycles, meta.id)
            },
            Err(error) => {
                &&& !parent_is_directory
                &&& error == StoreError::InvalidParentFolder
                &&& *final(index) == *old(index)
            },
        },
        old(index)@.consistent() ==> final(index)@.consistent(),
{
    if !parent_is_directory {
        return Err(StoreError::InvalidParentFolder);
    }
    let cycle_id = new_cycle_id(index, ambient.random);
    let suffix = tail_of(cycle_id.as_str(), FOLDER_SUFFIX_LENGTH);
    let mut folder = sanitize_folder_name(name.as_str());
    folder.push('_');
    folder.append(suffix.as_str());
    assert(folder@ =~= folder_name(name@, cycle_id@));
    let directory = join_path(parent_dir, folder.as_str());
    let meta = CycleMeta {
        id: cycle_id,
        name,
        created_at: format_timestamp(ambient.unix_seconds),
        folder_path: normalize_path_for(directory.as_str(), ambient.verbatim_paths),
    };
    let data = empty_cycle_data(&meta);
    index.cycles.push(meta.duplicate());
    if index.selected_cycle_id.is_none() {
        index.selected_cycle_id = Some(meta.id.clone());
    }
    proof {
        assert(index@.cycles =~= old(index)@.cycles.push(meta@));
        lemma_created_keeps_consistent(old(index)@, meta@);
    }
    Ok(CreatedCycle { directory, record: CycleRecord { meta, data } })
}

/// Imports the cycle whose content file in `folder_path` holds `stored`.
///
/// Without a content file the operation fails and the index stays as it
/// is. Otherwise empty fields of the content are filled in, the cycle is
/// registered in the index under its id and selected, and its entry is
/// handed back with the content to write back.
pub fn import_cycle(
    index: &mut IndexData,
    folder_path: &str,
    stored: Option<CycleData>,
    ambient: &Ambient,
) -> (imported: Result<CycleRecord, StoreError>)
    ensures
        match imported {
            Ok(record) => {
                &&& stored matches Some(data)
                &&& record.data@ == imported_content(old(index)@.cycles, data@, *ambient)
                &&& record.meta@ == imported_meta(
                    old(index)@.cycles,
                    folder_path@,
                    data@,
                    *ambient,
                )
                &&& final(index)@ == index_with_imported(old(index)@, record.meta@)
            },
            Err(error) => {
                &&& stored is None
                &&& error == StoreError::CycleFileNotFound
                &&& *final(index) == *old(index)
            },
        },
        old(index)@.consistent() ==> final(index)@.consistent(),
{
    let data = match stored {
        Some(data) => data,
        None => {
            return Err(StoreError::CycleFileNotFound);
        },
    };
    let ghost before = data@;
    let id = if data.id.as_str().is_empty() {
        new_cycle_id(index, ambient.random)
    } else {
        data.id
    };
    let name = text_or(data.name, IMPORTED_CYCLE_NAME);
    let created_at = text_or(data.created_at, format_timestamp(ambient.unix_seconds).as_str());
    let data = CycleData {
        id,
        name,
        created_at,
        goals: data.goals,
        works: data.works,
        tasks: data.tasks,
    };
    assert(data@ == imported_content(old(index)@.cycles, before, *ambient));
    let meta = CycleMeta {
        id: data.id.clone(),
        name: data.name.clone(),
        created_at: data.created_at.clone(),
        folder_path: normalize_path_for(folder_path, ambient.verbatim_paths),
    };
    match position(index, meta.id.as_str()) {
        Some(i) => {
            index.cycles.set(i, meta.duplicate());
            assert(index@.cycles =~= old(index)@.cycles.update(i as int, meta@));
        },
        None => {
            index.cycles.push(meta.duplicate());
            assert(index@.cycles =~= old(index)@.cycles.push(meta@));
        },
    }
    index.selected_cycle_id = Some(meta.id.clone());
    proof {
        lemma_imported_keeps_consistent(old(index)@, meta@);
    }
    Ok(CycleRecord { meta, data })
}

/// Normalizing the folder paths keeps a consistent index consistent.
pub proof fn lemma_loaded_keeps_consistent(index: IndexView, verbatim_paths: bool)
    ensures
        loaded_index(None, verbatim_paths).consistent(),
        index.consistent() ==> loaded_index(Some(index), verbatim_paths).consistent(),
{
    let after = loaded_index(Some(index), verbatim_paths);
    if index.consistent() {
        assert forall|i: int, j: int| 0 <= i < j < after.cycles.len() implies (
        #[trigger] after.cycles[i]).id != (#[trigger] after.cycles[j]).id by {
            assert(index.cycles[i].id != index.cycles[j].id);
        }
        match index.selected_cycle_id {
            Some(id) => {
                let i = choose|i: int|
                    0 <= i < index.cycles.len() && (#[trigger] index.cycles[i]).id == id;
                assert(after.cycles[i].id == id);
            },
            None => {},
        }
    }
}

/// Adding a cycle whose id is unused keeps a consistent index consistent.
pub proof fn lemma_created_keeps_consistent(index: IndexView, meta: CycleMetaView)
    requires
        !has_id(index.cycles, meta.id),
    ensures
        index.consistent() ==> index_with_created(index, meta).consistent(),
{
    let after = index_with_created(index, meta);
    if index.consistent() {
        assert forall|i: int, j: int| 0 <= i < j < after.cycles.len() implies (
        #[trigger] after.cycles[i]).id != (#[trigger] after.cycles[j]).id by {
            if j < index.cycles.len() {
                assert(index.cycles[i].id != index.cycles[j].id);
            } else {
                assert(index.cycles[i].id != meta.id);
            }
        }
        match index.selected_cycle_id {
            Some(id) => {
                let i = choose|i: int| 0 <= i < index.cycles.len() && (#[trigger] index.cycles[i]).id == id;
                assert(after.cycles[i].id == id);
            },
            None => {
                assert(after.cycles[index.cycles.len() as int].id == meta.id);
            },
        }
    }
}

/// Registering a cycle keeps the ids of a consistent index distinct, and
/// the registered cycle can be selected.
pub proof fn lemma_imported_keeps_consistent(index: IndexView, meta: CycleMetaView)
    ensures
        has_id(registered(index.cycles, meta), meta.id),
        index.consistent() ==> index_with_imported(index, meta).consistent(),
{
    let after = registered(index.cycles, meta);
    if has_id(index.cycles, meta.id) {
        lemma_position_of(index.cycles, meta.id);
        let at = position_of(index.cycles, meta.id);
        assert(after[at].id == meta.id);
        if index.consistent() {
            assert forall|i: int, j: int| 0 <= i < j < after.len() implies (#[trigger] after[i]).id
                != (#[trigger] after[j]).id by {
                assert(index.cycles[i].id != index.cycles[j].id);
                assert(after[i].id == index.cycles[i].id);
                assert(after[j].id == index.cycles[j].id);
            }
        }
    } else {
        assert(after[index.cycles.len() as int].id == meta.id);
        if index.consistent() {
            assert forall|i: int, j: int| 0 <= i < j < after.len() implies (#[trigger] after[i]).id
                != (#[trigger] after[j]).id by {
                if j < index.cycles.len() {
                    assert(index.cycles[i].id != index.cycles[j].id);
                } else {
                    assert(index.cycles[i].id != meta.id);
                }
            }
        }
    }
}

/// The folder of a new cycle is named by the sanitized name, an underscore
/// and six characters: the end of the new id.
pub proof fn lemma_folder_name_shape(cycles: Seq<CycleMetaView>, name: Seq<char>, seed: u64)
    ensures
        ({
            let id = fresh_cycle_id(cycles, seed);
            let folder = folder_name(name, id);
            &&& id.len() > FOLDER_SUFFIX_LENGTH
            &&& folder.len() == sanitized(name).len() + 1 + FOLDER_SUFFIX_LENGTH
            &&& folder.take(sanitized(name).len() as int) == sanitized(name)
            &&& folder[sanitized(name).len() as int] == '_'
            &&& folder.skip(sanitized(name).len() as int + 1) == id.skip(
                id.len() - FOLDER_SUFFIX_LENGTH,
            )
        }),
{
    reveal_strlit("cycle");
    let id = fresh_cycle_id(cycles, seed);
    let folder = folder_name(name, id);
    lemma_digits_nonempty(crate::ident::probe(seed, fresh_offset(cycles, seed)) as nat);
    assert(folder.take(sanitized(name).len() as int) =~= sanitized(name));
    assert(folder.skip(sanitized(name).len() as int + 1) =~= id.skip(
        id.len() - FOLDER_SUFFIX_LENGTH,
    ));
}

/// No operation moves a cycle: what was at a position of the index before
/// is there afterwards, but for the one entry that an import writes again,
/// which keeps its id. A new entry comes last.
pub proof fn lemma_operations_keep_order(
    index: IndexView,
    created: CycleMetaView,
    imported: CycleMetaView,
    i: int,
)
    requires
        0 <= i < index.cycles.len(),
    ensures
        index_with_created(index, created).cycles[i] == index.cycles[i],
        index_with_created(index, created).cycles.len() == index.cycles.len() + 1,
        index_with_imported(index, imported).cycles[i].id == index.cycles[i].id,
        index_with_imported(index, imported).cycles[i] == index.cycles[i] || (
        index_with_imported(index, imported).cycles[i] == imported && i == position_of(
            index.cycles,
            imported.id,
        )),
        index_with_imported(index, imported).cycles.len() == index.cycles.len() + if has_id(
            index.cycles,
            imported.id,
        ) {
            0int
        } else {
            1int
        },
{
    if has_id(index.cycles, imported.id) {
        lemma_position_of(index.cycles, imported.id);
    }
}

/// A cycle that was just created has an id that no cycle had before, it
/// is the cycle found under that id afterwards, and it loads with no goals,
/// works or tasks, from the file that was written and without one.
pub proof fn lemma_created_cycle_is_new_and_empty(
    index: IndexView,
    name: Seq<char>,
    parent: Seq<char>,
    ambient: Ambient,
)
    requires
        index.cycles.len() <= usize::MAX,
    ensures
        ({
            let meta = created_meta(index.cycles, name, parent, ambient);
            let after = index_with_created(index, meta);
            let written = ensured_content(meta, Some(empty_content(meta)));
            let healed = ensured_content(meta, None);
            &&& !has_id(index.cycles, meta.id)
            &&& has_id(after.cycles, meta.id)
            &&& after.cycles[position_of(after.cycles, meta.id)] == meta
            &&& written == empty_content(meta)
            &&& healed == empty_content(meta)
            &&& written.goals.len() == 0 && written.works.len() == 0 && written.tasks.len() == 0
        }),
{
    let meta = created_meta(index.cycles, name, parent, ambient);
    let after = index_with_created(index, meta);
    lemma_fresh_cycle_id_unused(index.cycles, ambient.random);
    let last = index.cycles.len() as int;
    assert(after.cycles[last] == meta);
    assert forall|j: int| 0 <= j < last implies (#[trigger] after.cycles[j]).id != meta.id by {
        assert(after.cycles[j] == index.cycles[j]);
    }
    assert(is_first_with_id(after.cycles, meta.id, last));
    lemma_first_with_id_unique(after.cycles, meta.id, last, last);
}

/// What an import writes back has an id, a name and a creation time.
pub proof fn lemma_imported_content_is_filled(
    cycles: Seq<CycleMetaView>,
    data: CycleDataView,
    ambient: Ambient,
)
    requires
        cycles.len() <= usize::MAX,
    ensures
        imported_content(cycles, data, ambient).id.len() > 0,
        imported_content(cycles, data, ambient).name.len() > 0,
        imported_content(cycles, data, ambient).created_at.len() > 0,
{
    lemma_fresh_cycle_id_unused(cycles, ambient.random);
    reveal_strlit("Imported Cycle");
    lemma_digits_nonempty(ambient.unix_seconds as nat);
}

/// Registering an entry a second time changes nothing.
pub proof fn lemma_registered_twice(cycles: Seq<CycleMetaView>, meta: CycleMetaView)
    ensures
        registered(registered(cycles, meta), meta) == registered(cycles, meta),
        has_id(registered(cycles, meta), meta.id),
{
    let once = registered(cycles, meta);
    let at = if has_id(cycles, meta.id) {
        lemma_position_of(cycles, meta.id);
        position_of(cycles, meta.id)
    } else {
        cycles.len() as int
    };
    assert(once[at] == meta);
    assert forall|j: int| 0 <= j < at implies (#[trigger] once[j]).id != meta.id by {
        assert(once[j] == cycles[j]);
    }
    assert(is_first_with_id(once, meta.id, at));
    lemma_first_with_id_unique(once, meta.id, at, at);
    assert(once.update(at, meta) =~= once);
}

/// Importing a folder a second time, with the content that the first
/// import wrote back, adds no entry to the index: the entry of the cycle is
/// written again in place. On one platform the second import changes
/// nothing at all.
pub proof fn lemma_import_is_idempotent(
    index: IndexView,
    folder: Seq<char>,
    data: CycleDataView,
    first: Ambient,
    second: Ambient,
)
    requires
        index.cycles.len() <= usize::MAX,
    ensures
        ({
            let content = imported_content(index.cycles, data, first);
            let meta = imported_meta(index.cycles, folder, data, first);
            let once = index_with_imported(index, meta);
            let content_again = imported_content(once.cycles, content, second);
            let meta_again = imported_meta(once.cycles, folder, content, second);
            let twice = index_with_imported(once, meta_again);
            &&& content_again == content
            &&& meta_again.id == meta.id
            &&& twice.cycles.len() == once.cycles.len()
            &&& twice.selected_cycle_id == once.selected_cycle_id
            &&& first.verbatim_paths == second.verbatim_paths ==> meta_again == meta && twice
                == once
        }),
{
    let content = imported_content(index.cycles, data, first);
    let meta = imported_meta(index.cycles, folder, data, first);
    let once = index_with_imported(index, meta);
    let meta_again = imported_meta(once.cycles, folder, content, second);
    lemma_imported_content_is_filled(index.cycles, data, first);
    lemma_registered_twice(index.cycles, meta);
    assert(meta_again.id == meta.id);
    lemma_position_of(once.cycles, meta.id);
}

} // verus!
