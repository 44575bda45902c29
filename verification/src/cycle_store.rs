//! The content of cycles: what is loaded from a content file and what is
//! written into it.
//!
//! Nothing here reads or writes a file. An operation takes what the caller
//! read, decides, and hands back what is to be written.

use vstd::prelude::*;
use serde_json::Value;
use crate::error::StoreError;
use crate::index_store::lookup_cycle;
use crate::model::{
    has_id, position_of, stored_content, CycleData, CycleDataView, CycleMeta, CycleMetaView,
    IndexData,
};
use crate::text::copy_str;

verus! {

/// An entry of the index together with the content to write into its
/// folder.
#[derive(Debug, Clone, PartialEq, Eq)]
pub struct CycleRecord {
    pub meta: CycleMeta,
    pub data: CycleData,
}

/// The content of a cycle as loaded, and whether the file was missing and
/// has to be written.
#[derive(Debug, Clone, PartialEq, Eq)]
pub struct EnsuredCycle {
    pub data: CycleData,
    pub write_back: bool,
}

/// Content without goals, works and tasks for the entry `meta`.
pub open spec fn empty_content(meta: CycleMetaView) -> CycleDataView {
    CycleDataView {
        id: meta.id,
        name: meta.name,
        created_at: meta.created_at,
        goals: Seq::empty(),
        works: Seq::empty(),
        tasks: Seq::empty(),
    }
}

/// `text`, or `fallback` where `text` is empty.
pub open spec fn or_else(text: Seq<char>, fallback: Seq<char>) -> Seq<char> {
    if text.len() == 0 {
        fallback
    } else {
        text
    }
}

/// `data` with each of id, name and creation time that is empty taken from
/// the arguments.
pub open spec fn backfilled(
    data: CycleDataView,
    id: Seq<char>,
    name: Seq<char>,
    created_at: Seq<char>,
) -> CycleDataView {
    CycleDataView {
        id: or_else(data.id, id),
        name: or_else(data.name, name),
        created_at: or_else(data.created_at, created_at),
        ..data
    }
}

/// The content of the cycle `meta` as loaded from what its file holds:
/// empty content where there is no file, else the stored content with empty
/// id, name and creation time taken from the entry.
pub open spec fn ensured_content(meta: CycleMetaView, stored: Option<CycleDataView>) -> CycleDataView {
    match stored {
        None => empty_content(meta),
        Some(data) => backfilled(data, meta.id, meta.name, meta.created_at),
    }
}

/// The content that is written when `data` is saved for the cycle `meta`:
/// id and name are those of the entry, the creation time is that of the
/// entry where `data` has none, and the lists are those of `data`.
pub open spec fn saved_content(meta: CycleMetaView, data: CycleDataView) -> CycleDataView {
    CycleDataView {
        id: meta.id,
        name: meta.name,
        created_at: or_else(data.created_at, meta.created_at),
        ..data
    }
}

/// `text`, or a copy of `fallback` where `text` is empty.
pub(crate) fn text_or(text: String, fallback: &str) -> (chosen: String)
    ensures
        chosen@ == or_else(text@, fallback@),
{
    if text.as_str().is_empty() {
        copy_str(fallback)
    } else {
        text
    }
}

/// Content without goals, works and tasks for the entry `meta`.
pub fn empty_cycle_data(meta: &CycleMeta) -> (data: CycleData)
    ensures
        data@ == empty_content(meta@),
{
    let data = CycleData {
        id: meta.id.clone(),
        name: meta.name.clone(),
        created_at: meta.created_at.clone(),
        goals: Vec::new(),
        works: Vec::new(),
        tasks: Vec::new(),
    };
    assert(data@.goals =~= Seq::<Value>::empty());
    assert(data@.works =~= Seq::<Value>::empty());
    assert(data@.tasks =~= Seq::<Value>::empty());
    data
}

/// The content of `cycle` from what its content file holds, if it exists.
///
/// Without a file the content is empty and has to be written. With a file,
/// empty fields of the stored content are taken from the entry and nothing
/// is written.
pub fn ensure_cycle_data(cycle: &CycleMeta, stored: Option<CycleData>) -> (ensured: EnsuredCycle)
    ensures
        ensured.data@ == ensured_content(cycle@, stored_content(stored)),
        ensured.write_back == (stored is None),
{
    match stored {
        None => EnsuredCycle { data: empty_cycle_data(cycle), write_back: true },
        Some(data) => {
            let data = CycleData {
                id: text_or(data.id, cycle.id.as_str()),
                name: text_or(data.name, cycle.name.as_str()),
                created_at: text_or(data.created_at, cycle.created_at.as_str()),
                goals: data.goals,
                works: data.works,
                tasks: data.tasks,
            };
            EnsuredCycle { data, write_back: false }
        },
    }
}

/// What is written when `data` is saved for the cycle with the id
/// `cycle_id`: its entry, which names the folder, and the content with id
/// and name forced to those of the entry.
pub fn save_cycle_data(index: &IndexData, cycle_id: &str, data: CycleData) -> (saved: Result<
    CycleRecord,
    StoreError,
>)
    ensures
        match saved {
            Ok(record) => {
                &&& has_id(index@.cycles, cycle_id@)
                &&& record.meta@ == index@.cycles[position_of(index@.cycles, cycle_id@)]
                &&& record.data@ == saved_content(record.meta@, data@)
            },
            Err(error) => error == StoreError::CycleNotFound && !has_id(index@.cycles, cycle_id@),
        },
{
    let meta = match lookup_cycle(index, cycle_id) {
        Ok(meta) => meta,
        Err(error) => {
            return Err(error);
        },
    };
    let next = CycleData {
        id: meta.id.clone(),
        name: meta.name.clone(),
        created_at: text_or(data.created_at, meta.created_at.as_str()),
        goals: data.goals,
        works: data.works,
        tasks: data.tasks,
    };
    Ok(CycleRecord { meta, data: next })
}

/// Loading what was saved gives the saved content back: the lists of the
/// caller, with id and name forced to those of the entry in the index.
pub proof fn lemma_saved_content_loads_back(meta: CycleMetaView, data: CycleDataView)
    ensures
        ({
            let written = saved_content(meta, data);
            let loaded = ensured_content(meta, Some(written));
            &&& loaded == written
            &&& loaded.id == meta.id
            &&& loaded.name == meta.name
            &&& loaded.goals == data.goals
            &&& loaded.works == data.works
            &&& loaded.tasks == data.tasks
            &&& data.created_at.len() > 0 ==> loaded.created_at == data.created_at
        }),
{
}

} // verus!
