//! Snapshots of guest-visible state and the frame-keyed cell storage
//! the rollback protocol deposits them into.
use vstd::map::*;
use vstd::prelude::*;

use crate::buttons::Buttons;

verus! {

/// A point-in-time capture of everything the guest can observe: every
/// player's previous-frame buttons, a byte copy of every exported
/// memory, and a copy of every exported mutable global, the latter two
/// in inventory order.
#[derive(Clone, PartialEq, Eq, Debug)]
pub struct WasmConsoleState {
    pub previous_buttons: Vec<Buttons>,
    pub memories: Vec<Vec<u8>>,
    pub mutable_globals: Vec<i64>,
}

/// The mathematical value of a snapshot.
#[verifier::ext_equal]
pub struct StateView {
    pub previous_buttons: Seq<Buttons>,
    pub memories: Seq<Seq<u8>>,
    pub mutable_globals: Seq<i64>,
}

impl View for WasmConsoleState {
    type V = StateView;

    open spec fn view(&self) -> StateView {
        StateView {
            previous_buttons: self.previous_buttons@,
            memories: self.memories.deep_view(),
            mutable_globals: self.mutable_globals@,
        }
    }
}

/// The export inventory: the names of the exported memories and of the
/// exported mutable globals, in export order. Fixed for the lifetime
/// of a loaded guest; snapshots reference entries positionally through
/// this order.
#[derive(Clone, PartialEq, Eq, Debug)]
pub struct SaveStateDefinition {
    pub memories: Vec<String>,
    pub mutable_globals: Vec<String>,
}

/// What a lookup finds in a run of cells, newest deposit first.
pub open spec fn spec_cells_get(cells: Seq<(i32, WasmConsoleState)>, frame: i32) -> Option<
    StateView,
>
    decreases cells.len(),
{
    if cells.len() == 0 {
        None
    } else if cells.last().0 == frame {
        Some(cells.last().1@)
    } else {
        spec_cells_get(cells.drop_last(), frame)
    }
}

/// Frame-keyed storage of snapshots, at most one visible per frame:
/// the model of the external collaborator's rollback cells. The core
/// deposits with `save` and fetches with `load`; eviction is the
/// collaborator's concern, not the core's.
#[derive(Debug)]
pub struct SnapshotStore {
    pub cells: Vec<(i32, WasmConsoleState)>,
}

impl View for SnapshotStore {
    type V = Map<i32, StateView>;

    open spec fn view(&self) -> Map<i32, StateView> {
        Map::new(
            |f: i32| spec_cells_get(self.cells@, f) is Some,
            |f: i32| spec_cells_get(self.cells@, f)->Some_0,
        )
    }
}

impl SnapshotStore {
    /// An empty store: no frame has a snapshot.
    pub fn new() -> (r: SnapshotStore)
        ensures
            r@ == Map::<i32, StateView>::empty(),
    {
        let r = SnapshotStore { cells: Vec::new() };
        proof {
            assert(r@ =~= Map::<i32, StateView>::empty());
        }
        r
    }

    /// Deposits a snapshot for a frame, replacing any earlier deposit
    /// for the same frame.
    pub fn save(&mut self, frame: i32, state: WasmConsoleState)
        ensures
            final(self)@ == old(self)@.insert(frame, state@),
    {
        let ghost cells0 = self.cells@;
        let ghost sv = state@;
        let mut i: usize = self.cells.len();
        while i > 0
            invariant
                i <= self.cells@.len(),
                self.cells@ == cells0,
                cells0 == old(self).cells@,
                sv == state@,
                forall|k: int| i <= k < cells0.len() ==> cells0[k].0 != frame,
            decreases i,
        {
            i = i - 1;
            if self.cells[i].0 == frame {
                self.cells.set(i, (frame, state));
                proof {
                    let stored = self.cells@[i as int].1;
                    assert(self.cells@ == cells0.update(i as int, (frame, stored)));
                    assert(stored@ == sv);
                    lemma_cells_get_update(cells0, i as int, frame, stored);
                    assert(self@ =~= old(self)@.insert(frame, sv));
                }
                return ;
            }
        }
        self.cells.push((frame, state));
        proof {
            assert(self.cells@.drop_last() =~= cells0);
            assert forall|f: i32| f != frame implies spec_cells_get(self.cells@, f)
                == spec_cells_get(cells0, f) by {}
            assert(self@ =~= old(self)@.insert(frame, sv));
        }
    }

    /// Fetches the snapshot deposited for a frame, if one ever was.
    pub fn load(&self, frame: i32) -> (r: Option<&WasmConsoleState>)
        ensures
            match r {
                Some(s) => self@.contains_key(frame) && s@ == self@[frame],
                None => !self@.contains_key(frame),
            },
    {
        let ghost cells0 = self.cells@;
        let mut i: usize = self.cells.len();
        proof {
            assert(cells0.take(cells0.len() as int) =~= cells0);
        }
        while i > 0
            invariant
                i <= self.cells@.len(),
                self.cells@ == cells0,
                spec_cells_get(cells0, frame) == spec_cells_get(
                    cells0.take(i as int),
                    frame,
                ),
            decreases i,
        {
            i = i - 1;
            proof {
                assert(cells0.take(i + 1int).drop_last() =~= cells0.take(i as int));
                assert(cells0.take(i + 1int).last() == cells0[i as int]);
            }
            if self.cells[i].0 == frame {
                return Some(&self.cells[i].1);
            }
        }
        proof {
            assert(cells0.take(0) =~= Seq::<(i32, WasmConsoleState)>::empty());
        }
        None
    }
}

/// Replacing the newest deposit for a frame looks, to every lookup,
/// exactly like inserting the new snapshot for that frame.
proof fn lemma_cells_get_update(
    cells: Seq<(i32, WasmConsoleState)>,
    j: int,
    frame: i32,
    s: WasmConsoleState,
)
    requires
        0 <= j < cells.len(),
        cells[j].0 == frame,
        forall|k: int| j < k < cells.len() ==> cells[k].0 != frame,
    ensures
        forall|f: i32| #[trigger]
            spec_cells_get(cells.update(j, (frame, s)), f) == (if f == frame {
                Some(s@)
            } else {
                spec_cells_get(cells, f)
            }),
    decreases cells.len(),
{
    assert forall|f: i32| #[trigger]
        spec_cells_get(cells.update(j, (frame, s)), f) == (if f == frame {
            Some(s@)
        } else {
            spec_cells_get(cells, f)
        }) by {
        let u = cells.update(j, (frame, s));
        if j == cells.len() - 1 {
            assert(u.last() == (frame, s));
            if f != frame {
                assert(u.drop_last() =~= cells.drop_last());
                assert(spec_cells_get(u, f) == spec_cells_get(cells.drop_last(), f));
                assert(spec_cells_get(cells, f) == spec_cells_get(cells.drop_last(), f));
            }
        } else {
            assert(u.last() == cells.last());
            assert(cells.last().0 != frame);
            if f == u.last().0 {
            } else {
                assert(u.drop_last() =~= cells.drop_last().update(j, (frame, s)));
                lemma_cells_get_update(cells.drop_last(), j, frame, s);
                assert(spec_cells_get(u, f) == spec_cells_get(u.drop_last(), f));
            }
        }
    }
}

} // verus!
