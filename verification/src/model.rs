//! The index of cycles and the content of a cycle.

use vstd::prelude::*;
use serde_json::Value;

verus! {

/// Entry of the index: a cycle and the folder that holds its content.
#[derive(Debug, Clone, PartialEq, Eq)]
pub struct CycleMeta {
    pub id: String,
    pub name: String,
    pub created_at: String,
    pub folder_path: String,
}

/// Mathematical value of a `CycleMeta`.
pub struct CycleMetaView {
    pub id: Seq<char>,
    pub name: Seq<char>,
    pub created_at: Seq<char>,
    pub folder_path: Seq<char>,
}

impl View for CycleMeta {
    type V = CycleMetaView;

    open spec fn view(&self) -> CycleMetaView {
        CycleMetaView {
            id: self.id@,
            name: self.name@,
            created_at: self.created_at@,
            folder_path: self.folder_path@,
        }
    }
}

/// The index: the known cycles in the order in which they were added, and
/// the id of the selected one.
#[derive(Debug, Clone, PartialEq, Eq)]
pub struct IndexData {
    pub cycles: Vec<CycleMeta>,
    pub selected_cycle_id: Option<String>,
}

/// Mathematical value of an `IndexData`.
pub struct IndexView {
    pub cycles: Seq<CycleMetaView>,
    pub selected_cycle_id: Option<Seq<char>>,
}

impl View for IndexData {
    type V = IndexView;

    open spec fn view(&self) -> IndexView {
        IndexView {
            cycles: self.cycles@.map_values(|cycle: CycleMeta| cycle@),
            selected_cycle_id: match self.selected_cycle_id {
                Some(id) => Some(id@),
                None => None,
            },
        }
    }
}

/// Content of a cycle. The three lists belong to the caller.
#[derive(Debug, Clone, PartialEq, Eq)]
pub struct CycleData {
    pub id: String,
    pub name: String,
    pub created_at: String,
    pub goals: Vec<Value>,
    pub works: Vec<Value>,
    pub tasks: Vec<Value>,
}

/// Mathematical value of a `CycleData`.
pub struct CycleDataView {
    pub id: Seq<char>,
    pub name: Seq<char>,
    pub created_at: Seq<char>,
    pub goals: Seq<Value>,
    pub works: Seq<Value>,
    pub tasks: Seq<Value>,
}

impl View for CycleData {
    type V = CycleDataView;

    open spec fn view(&self) -> CycleDataView {
        CycleDataView {
            id: self.id@,
            name: self.name@,
            created_at: self.created_at@,
            goals: self.goals@,
            works: self.works@,
            tasks: self.tasks@,
        }
    }
}

/// The value of what an index file holds, if it exists.
pub open spec fn stored_index(stored: Option<IndexData>) -> Option<IndexView> {
    match stored {
        Some(index) => Some(index@),
        None => None,
    }
}

/// The value of what a content file holds, if it exists.
pub open spec fn stored_content(stored: Option<CycleData>) -> Option<CycleDataView> {
    match stored {
        Some(data) => Some(data@),
        None => None,
    }
}

/// Whether some cycle of `cycles` has the id `id`.
pub open spec fn has_id(cycles: Seq<CycleMetaView>, id: Seq<char>) -> bool {
    exists|i: int| 0 <= i < cycles.len() && (#[trigger] cycles[i]).id == id
}

/// Whether `cycles[i]` is the first cycle with the id `id`.
pub open spec fn is_first_with_id(cycles: Seq<CycleMetaView>, id: Seq<char>, i: int) -> bool {
    &&& 0 <= i < cycles.len()
    &&& cycles[i].id == id
    &&& forall|j: int| 0 <= j < i ==> (#[trigger] cycles[j]).id != id
}

/// Position of the first cycle with the id `id`; meaningful where there is
/// one.
pub open spec fn position_of(cycles: Seq<CycleMetaView>, id: Seq<char>) -> int {
    choose|i: int| is_first_with_id(cycles, id, i)
}

impl IndexView {
    /// The index before any cycle is known.
    pub open spec fn empty() -> IndexView {
        IndexView { cycles: Seq::empty(), selected_cycle_id: None }
    }

    /// No two cycles share an id, and the selected id, if any, is the id of
    /// a cycle.
    pub open spec fn consistent(self) -> bool {
        &&& forall|i: int, j: int|
            0 <= i < j < self.cycles.len() ==> (#[trigger] self.cycles[i]).id != (
            #[trigger] self.cycles[j]).id
        &&& self.selected_cycle_id matches Some(id) ==> has_id(self.cycles, id)
    }
}

/// Where some cycle has the id, `position_of` is the first one.
pub proof fn lemma_position_of(cycles: Seq<CycleMetaView>, id: Seq<char>)
    requires
        has_id(cycles, id),
    ensures
        is_first_with_id(cycles, id, position_of(cycles, id)),
{
    let i = choose|i: int| 0 <= i < cycles.len() && (#[trigger] cycles[i]).id == id;
    lemma_first_below(cycles, id, i);
}

/// Below a cycle with the id there is a first one.
proof fn lemma_first_below(cycles: Seq<CycleMetaView>, id: Seq<char>, i: int)
    requires
        0 <= i < cycles.len(),
        cycles[i].id == id,
    ensures
        exists|first: int| is_first_with_id(cycles, id, first),
    decreases i,
{
    if forall|j: int| 0 <= j < i ==> (#[trigger] cycles[j]).id != id {
        assert(is_first_with_id(cycles, id, i));
    } else {
        let j = choose|j: int| 0 <= j < i && (#[trigger] cycles[j]).id == id;
        lemma_first_below(cycles, id, j);
    }
}

/// There is only one first cycle with an id.
pub proof fn lemma_first_with_id_unique(cycles: Seq<CycleMetaView>, id: Seq<char>, a: int, b: int)
    requires
        is_first_with_id(cycles, id, a),
        is_first_with_id(cycles, id, b),
    ensures
        a == b,
        position_of(cycles, id) == a,
{
    if a < b {
        assert(cycles[a].id == id);
    } else if b < a {
        assert(cycles[b].id == id);
    }
    let chosen = position_of(cycles, id);
    if chosen < a {
        assert(cycles[chosen].id == id);
    } else if a < chosen {
        assert(cycles[a].id == id);
    }
}

impl CycleMeta {
    /// A copy of this entry.
    pub fn duplicate(&self) -> (copy: CycleMeta)
        ensures
            copy@ == self@,
    {
        CycleMeta {
            id: self.id.clone(),
            name: self.name.clone(),
            created_at: self.created_at.clone(),
            folder_path: self.folder_path.clone(),
        }
    }
}

impl IndexData {
    /// The index before any cycle is known: no cycles, none selected.
    pub fn empty() -> (index: IndexData)
        ensures
            index@ == IndexView::empty(),
            index@.consistent(),
    {
        let index = IndexData { cycles: Vec::new(), selected_cycle_id: None };
        assert(index@.cycles =~= Seq::empty());
        index
    }
}

impl Default for IndexData {
    /// The index before any cycle is known.
    fn default() -> (index: Self)
        ensures
            index@ == IndexView::empty(),
    {
        IndexData::empty()
    }
}

} // verus!
