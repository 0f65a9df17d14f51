//! The console: a loaded guest, its contexts, and the rollback
//! protocol over them — capture a snapshot, restore one, or advance a
//! frame with fresh inputs, exactly in the order the netcode
//! collaborator delivers the requests.
use vstd::map::*;
use vstd::prelude::*;

use crate::contexts::{Contexts, GraphicsContext, RandomContext, Rom};
use crate::guest::{
    copy_bytes, run_ops, spec_global_inits, spec_global_names, spec_memory_inits,
    spec_memory_names, spec_missing, spec_resolves, spec_run_ops, ExportKind, Functions,
    GuestExecutionFault, GuestInstance, GuestLoadError, GuestOp, GuestProgram, GuestView,
};
use crate::input_context::{InputContext, PlayerInputEntry};
use crate::input_state::InputState;
use crate::snapshot::{SaveStateDefinition, SnapshotStore, StateView, WasmConsoleState};

verus! {

/// One rollback request from the netcode collaborator. A batch of
/// these arrives once per logical frame, already causally ordered.
#[derive(Clone, PartialEq, Eq, Debug)]
pub enum RollbackRequest {
    /// Capture a snapshot and deposit it for this frame.
    SaveGameState { frame: i32 },
    /// Fetch the snapshot deposited for this frame and restore it.
    LoadGameState { frame: i32 },
    /// Overwrite every player's current input, run the guest's
    /// `update`, then roll the button double-buffer forward.
    AdvanceFrame { inputs: Vec<InputState> },
}

/// What can go wrong while handling rollback requests.
#[derive(Clone, Copy, PartialEq, Eq, Structural, Debug)]
pub enum ConsoleError {
    /// A load named a frame no save ever deposited: a netcode-layer
    /// ordering bug, fatal for the batch.
    MissingSnapshot { frame: i32 },
    /// A snapshot no longer fits the live guest (a count or a length
    /// differs): restoring would corrupt state, so nothing is written.
    SnapshotMismatch,
    /// The guest aborted during `update`: fatal for this frame,
    /// propagated to the caller.
    Execution(GuestExecutionFault),
}

/// The mathematical value of a console.
#[verifier::ext_equal]
pub struct ConsoleView {
    pub rom: Rom,
    pub entries: Seq<PlayerInputEntry>,
    pub frame_buffer: Seq<u8>,
    pub guest: GuestView,
    pub init_ops: Seq<GuestOp>,
    pub update_ops: Seq<GuestOp>,
    pub draw_ops: Seq<GuestOp>,
    pub def_memories: Seq<Seq<char>>,
    pub def_globals: Seq<Seq<char>>,
}

/// A loaded console: the cartridge facts, the capability contexts, the
/// resolved entry points, the live guest state, and the fixed export
/// inventory.
#[derive(Debug)]
pub struct WasmConsole {
    pub rom: Rom,
    pub contexts: Contexts,
    pub functions: Functions,
    pub instance: GuestInstance,
    pub state_definition: SaveStateDefinition,
}

impl View for WasmConsole {
    type V = ConsoleView;

    open spec fn view(&self) -> ConsoleView {
        ConsoleView {
            rom: self.rom,
            entries: self.contexts.input_context.input_entries@,
            frame_buffer: self.contexts.graphics_context.frame_buffer@,
            guest: self.instance@,
            init_ops: self.functions.init_fn@,
            update_ops: self.functions.update_fn@,
            draw_ops: self.functions.draw_fn@,
            def_memories: self.state_definition.memories.deep_view(),
            def_globals: self.state_definition.mutable_globals.deep_view(),
        }
    }
}

/// What `generate_save_state` captures: every player's previous
/// buttons, every exported memory, every exported mutable global.
pub open spec fn spec_capture(c: ConsoleView) -> StateView {
    StateView {
        previous_buttons: c.entries.map_values(|e: PlayerInputEntry| e.previous),
        memories: c.guest.memories,
        mutable_globals: c.guest.globals,
    }
}

/// Whether a snapshot still fits the live guest: the player count, the
/// memory count, every memory's length and the global count all agree.
pub open spec fn spec_state_matches(c: ConsoleView, s: StateView) -> bool {
    &&& s.previous_buttons.len() == c.entries.len()
    &&& s.memories.len() == c.guest.memories.len()
    &&& forall|i: int| 0 <= i < s.memories.len() ==> s.memories[i].len() == c.guest.memories[i].len()
    &&& s.mutable_globals.len() == c.guest.globals.len()
}

/// What restoring a fitting snapshot leaves behind: memories, globals
/// and previous buttons come from the snapshot; current inputs, the
/// mouse and the frame buffer are untouched.
pub open spec fn spec_restore(c: ConsoleView, s: StateView) -> ConsoleView {
    ConsoleView {
        entries: Seq::new(
            c.entries.len(),
            |i: int| PlayerInputEntry { previous: s.previous_buttons[i], ..c.entries[i] },
        ),
        guest: GuestView { memories: s.memories, globals: s.mutable_globals },
        ..c
    }
}

/// Entries after the new inputs of a frame are written over `current`;
/// a player the batch supplies no input for keeps the old one.
pub open spec fn spec_set_currents(
    entries: Seq<PlayerInputEntry>,
    inputs: Seq<InputState>,
) -> Seq<PlayerInputEntry> {
    Seq::new(
        entries.len(),
        |i: int|
            if i < inputs.len() {
                PlayerInputEntry { current: inputs[i], ..entries[i] }
            } else {
                entries[i]
            },
    )
}

/// Entries after the double-buffer rolls forward: each player's
/// current buttons become the previous buttons.
pub open spec fn spec_roll_previous(entries: Seq<PlayerInputEntry>) -> Seq<PlayerInputEntry> {
    Seq::new(
        entries.len(),
        |i: int| PlayerInputEntry { previous: entries[i].current.buttons, ..entries[i] },
    )
}

/// One frame advance: write the new inputs, run `update` against them
/// (edge detection still sees the frame before), then — only if the
/// guest did not abort — roll the double-buffer forward.
pub open spec fn spec_advance(c: ConsoleView, inputs: Seq<InputState>) -> (
    ConsoleView,
    Option<GuestExecutionFault>,
) {
    let entries1 = spec_set_currents(c.entries, inputs);
    let (g2, f2, fault) = spec_run_ops(c.guest, entries1, c.frame_buffer, c.update_ops);
    match fault {
        None => (
            ConsoleView {
                entries: spec_roll_previous(entries1),
                guest: g2,
                frame_buffer: f2,
                ..c
            },
            None,
        ),
        Some(e) => (
            ConsoleView { entries: entries1, guest: g2, frame_buffer: f2, ..c },
            Some(e),
        ),
    }
}

/// One rollback request against the console and the cell storage.
pub open spec fn spec_apply_request(
    c: ConsoleView,
    cells: Map<i32, StateView>,
    req: RollbackRequest,
) -> (ConsoleView, Map<i32, StateView>, Option<ConsoleError>) {
    match req {
        RollbackRequest::SaveGameState { frame } => (
            c,
            cells.insert(frame, spec_capture(c)),
            None,
        ),
        RollbackRequest::LoadGameState { frame } => {
            if !cells.contains_key(frame) {
                (c, cells, Some(ConsoleError::MissingSnapshot { frame }))
            } else if !spec_state_matches(c, cells[frame]) {
                (c, cells, Some(ConsoleError::SnapshotMismatch))
            } else {
                (spec_restore(c, cells[frame]), cells, None)
            }
        },
        RollbackRequest::AdvanceFrame { inputs } => {
            let (c2, fault) = spec_advance(c, inputs@);
            (
                c2,
                cells,
                match fault {
                    None => None,
                    Some(e) => Some(ConsoleError::Execution(e)),
                },
            )
        },
    }
}

/// A whole batch, strictly in delivery order, stopping at the first
/// error with the state reached so far.
pub open spec fn spec_run_requests(
    c: ConsoleView,
    cells: Map<i32, StateView>,
    reqs: Seq<RollbackRequest>,
) -> (ConsoleView, Map<i32, StateView>, Option<ConsoleError>)
    decreases reqs.len(),
{
    if reqs.len() == 0 {
        (c, cells, None)
    } else {
        let (c2, m2, e) = spec_apply_request(c, cells, reqs[0]);
        if e is Some {
            (c2, m2, e)
        } else {
            spec_run_requests(c2, m2, reqs.skip(1))
        }
    }
}

impl WasmConsole {
    /// Loads a guest program: builds the capability contexts, resolves
    /// the three entry points, and walks the exports once, classifying
    /// every mutable global and every memory — in export order — into
    /// the snapshot inventory and the live instance. Anything else is
    /// excluded from the snapshot surface by design.
    pub fn new(rom: Rom, num_players: usize, program: &GuestProgram) -> (r: Result<
        WasmConsole,
        GuestLoadError,
    >)
        ensures
            match r {
                Ok(c) => {
                    &&& c.rom == rom
                    &&& c@.entries.len() == num_players
                    &&& forall|i: int|
                        0 <= i < num_players ==> c@.entries[i] == PlayerInputEntry::spec_new()
                    &&& c@.frame_buffer.len() == rom.spec_frame_buffer_len()
                    &&& forall|i: int| 0 <= i < c@.frame_buffer.len() ==> c@.frame_buffer[i] == 0u8
                    &&& spec_resolves(program.exports@, c.functions)
                    &&& c@.guest.memories == spec_memory_inits(program.exports@)
                    &&& c@.guest.globals == spec_global_inits(program.exports@)
                    &&& c@.def_memories == spec_memory_names(program.exports@)
                    &&& c@.def_globals == spec_global_names(program.exports@)
                },
                Err(GuestLoadError::MissingInit) => spec_missing(
                    program.exports@,
                    crate::guest::EntryPoint::Init,
                ),
                Err(GuestLoadError::MissingUpdate) => spec_missing(
                    program.exports@,
                    crate::guest::EntryPoint::Update,
                ),
                Err(GuestLoadError::MissingDraw) => spec_missing(
                    program.exports@,
                    crate::guest::EntryPoint::Draw,
                ),
            },
    {
        let graphics_context = GraphicsContext::new(&rom);
        let input_context = InputContext::new(num_players);
        let random_context = RandomContext {  };
        let functions = match Functions::find_functions(program) {
            Ok(f) => f,
            Err(e) => {
                return Err(e);
            },
        };
        let mut memories: Vec<Vec<u8>> = Vec::new();
        let mut globals: Vec<i64> = Vec::new();
        let mut memory_names: Vec<String> = Vec::new();
        let mut global_names: Vec<String> = Vec::new();
        let n = program.exports.len();
        let mut i: usize = 0;
        while i < n
            invariant
                i <= n,
                n == program.exports@.len(),
                memories.deep_view() == spec_memory_inits(program.exports@.take(i as int)),
                globals@ == spec_global_inits(program.exports@.take(i as int)),
                memory_names.deep_view() == spec_memory_names(program.exports@.take(i as int)),
                global_names.deep_view() == spec_global_names(program.exports@.take(i as int)),
            decreases n - i,
        {
            proof {
                assert(program.exports@.take(i + 1int).drop_last() =~= program.exports@.take(
                    i as int,
                ));
                assert(program.exports@.take(i + 1int).last() == program.exports@[i as int]);
            }
            let export = &program.exports[i];
            match &export.kind {
                ExportKind::Memory { initial } => {
                    memories.push(copy_bytes(initial));
                    memory_names.push(export.name.clone());
                    proof {
                        assert(memories.deep_view() =~~= spec_memory_inits(
                            program.exports@.take(i + 1int),
                        ));
                        assert(memory_names.deep_view() =~~= spec_memory_names(
                            program.exports@.take(i + 1int),
                        ));
                    }
                },
                ExportKind::MutableGlobal { initial } => {
                    globals.push(*initial);
                    global_names.push(export.name.clone());
                    proof {
                        assert(globals@ =~= spec_global_inits(program.exports@.take(i + 1int)));
                        assert(global_names.deep_view() =~~= spec_global_names(
                            program.exports@.take(i + 1int),
                        ));
                    }
                },
                ExportKind::Function { .. } => {},
                ExportKind::ImmutableGlobal { .. } => {},
                ExportKind::Table => {},
            }
            i = i + 1;
        }
        proof {
            assert(program.exports@.take(n as int) =~= program.exports@);
        }
        Ok(
            WasmConsole {
                rom,
                contexts: Contexts { graphics_context, input_context, random_context },
                functions,
                instance: GuestInstance { memories, globals },
                state_definition: SaveStateDefinition {
                    memories: memory_names,
                    mutable_globals: global_names,
                },
            },
        )
    }

    /// The cartridge facts this console was built with.
    pub fn rom(&self) -> (r: &Rom)
        ensures
            *r == self.rom,
    {
        &self.rom
    }

    /// A verbatim copy of the frame buffer for the graphics
    /// collaborator, taken once per `draw`.
    pub fn blit(&self) -> (r: Vec<u8>)
        ensures
            r@ == self@.frame_buffer,
    {
        copy_bytes(&self.contexts.graphics_context.frame_buffer)
    }

    /// Runs the guest's `init` entry point. A guest abort is fatal and
    /// reported, never swallowed.
    pub fn call_init(&mut self) -> (r: Result<(), GuestExecutionFault>)
        ensures
            ({
                let (g2, f2, fault) = spec_run_ops(
                    old(self)@.guest,
                    old(self)@.entries,
                    old(self)@.frame_buffer,
                    old(self)@.init_ops,
                );
                &&& final(self)@ == (ConsoleView { guest: g2, frame_buffer: f2, ..old(self)@ })
                &&& match fault {
                    None => r is Ok,
                    Some(e) => r == Result::<(), GuestExecutionFault>::Err(e),
                }
            }),
    {
        run_ops(
            &mut self.instance,
            &self.contexts.input_context.input_entries,
            &mut self.contexts.graphics_context.frame_buffer,
            &self.functions.init_fn,
        )
    }

    /// Runs the guest's `update` entry point against the current
    /// inputs. A guest abort is fatal and reported, never swallowed.
    pub fn call_update(&mut self) -> (r: Result<(), GuestExecutionFault>)
        ensures
            ({
                let (g2, f2, fault) = spec_run_ops(
                    old(self)@.guest,
                    old(self)@.entries,
                    old(self)@.frame_buffer,
                    old(self)@.update_ops,
                );
                &&& final(self)@ == (ConsoleView { guest: g2, frame_buffer: f2, ..old(self)@ })
                &&& match fault {
                    None => r is Ok,
                    Some(e) => r == Result::<(), GuestExecutionFault>::Err(e),
                }
            }),
    {
        run_ops(
            &mut self.instance,
            &self.contexts.input_context.input_entries,
            &mut self.contexts.graphics_context.frame_buffer,
            &self.functions.update_fn,
        )
    }

    /// Runs the guest's `draw` entry point. A guest abort is fatal and
    /// reported, never swallowed.
    pub fn call_draw(&mut self) -> (r: Result<(), GuestExecutionFault>)
        ensures
            ({
                let (g2, f2, fault) = spec_run_ops(
                    old(self)@.guest,
                    old(self)@.entries,
                    old(self)@.frame_buffer,
                    old(self)@.draw_ops,
                );
                &&& final(self)@ == (ConsoleView { guest: g2, frame_buffer: f2, ..old(self)@ })
                &&& match fault {
                    None => r is Ok,
                    Some(e) => r == Result::<(), GuestExecutionFault>::Err(e),
                }
            }),
    {
        run_ops(
            &mut self.instance,
            &self.contexts.input_context.input_entries,
            &mut self.contexts.graphics_context.frame_buffer,
            &self.functions.draw_fn,
        )
    }

    /// Captures a snapshot of everything guest-visible, walking the
    /// inventory positionally: previous buttons per player, a byte
    /// copy of every exported memory, every exported mutable global.
    pub fn generate_save_state(&self) -> (s: WasmConsoleState)
        ensures
            s@ == spec_capture(self@),
    {
        let entries = &self.contexts.input_context.input_entries;
        let mut previous_buttons: Vec<crate::buttons::Buttons> = Vec::new();
        let mut i: usize = 0;
        while i < entries.len()
            invariant
                i <= entries@.len(),
                previous_buttons@.len() == i,
                forall|j: int| 0 <= j < i ==> previous_buttons@[j] == entries@[j].previous,
            decreases entries@.len() - i,
        {
            previous_buttons.push(entries[i].previous);
            i = i + 1;
        }
        let mut memories: Vec<Vec<u8>> = Vec::new();
        let mut k: usize = 0;
        while k < self.instance.memories.len()
            invariant
                k <= self.instance.memories@.len(),
                memories@.len() == k,
                forall|j: int| 0 <= j < k ==> memories@[j]@ == self.instance.memories@[j]@,
            decreases self.instance.memories@.len() - k,
        {
            let fresh = copy_bytes(&self.instance.memories[k]);
            let ghost before = memories@;
            memories.push(fresh);
            proof {
                assert forall|j: int|
                    0 <= j < k implies memories@[j]@ == self.instance.memories@[j]@ by {
                    assert(memories@[j] == before[j]);
                }
            }
            k = k + 1;
        }
        let mut mutable_globals: Vec<i64> = Vec::new();
        let mut m: usize = 0;
        while m < self.instance.globals.len()
            invariant
                m <= self.instance.globals@.len(),
                mutable_globals@ == self.instance.globals@.take(m as int),
            decreases self.instance.globals@.len() - m,
        {
            mutable_globals.push(self.instance.globals[m]);
            proof {
                assert(mutable_globals@ =~= self.instance.globals@.take(m + 1int));
            }
            m = m + 1;
        }
        let s = WasmConsoleState { previous_buttons, memories, mutable_globals };
        proof {
            assert(s@.previous_buttons =~= spec_capture(self@).previous_buttons);
            assert forall|j: int|
                0 <= j < s@.memories.len() implies s@.memories[j]
                == spec_capture(self@).memories[j] by {
                assert(s@.memories[j] =~= spec_capture(self@).memories[j]);
            }
            assert(s@.memories =~= spec_capture(self@).memories);
            assert(s@.mutable_globals =~= spec_capture(self@).mutable_globals);
        }
        s
    }

    /// Restores a snapshot, positionally by inventory order. Every
    /// length is checked first: a snapshot that no longer fits the
    /// live guest is rejected whole — an explicit error, never a
    /// truncated write — and the console is left untouched. On
    /// success, current inputs and the frame buffer stay as they were:
    /// they belong to the frame about to be resimulated.
    pub fn load_save_state(&mut self, state: &WasmConsoleState) -> (r: Result<(), ConsoleError>)
        ensures
            spec_state_matches(old(self)@, state@) ==> r is Ok && final(self)@ == spec_restore(
                old(self)@,
                state@,
            ),
            !spec_state_matches(old(self)@, state@) ==> r == Result::<(), ConsoleError>::Err(
                ConsoleError::SnapshotMismatch,
            ) && final(self)@ == old(self)@,
    {
        if state.previous_buttons.len() != self.contexts.input_context.input_entries.len() {
            return Err(ConsoleError::SnapshotMismatch);
        }
        if state.memories.len() != self.instance.memories.len() {
            return Err(ConsoleError::SnapshotMismatch);
        }
        if state.mutable_globals.len() != self.instance.globals.len() {
            return Err(ConsoleError::SnapshotMismatch);
        }
        let mut i: usize = 0;
        while i < state.memories.len()
            invariant
                i <= state.memories@.len(),
                state.memories@.len() == self.instance.memories@.len(),
                forall|j: int|
                    0 <= j < i ==> state.memories@[j]@.len() == self.instance@.memories[j].len(),
                *self == *old(self),
            decreases state.memories@.len() - i,
        {
            let same = state.memories[i].len() == self.instance.memories[i].len();
            proof {
                assert(state@.memories[i as int].len() == state.memories@[i as int]@.len());
                assert(self@.guest.memories[i as int].len() == self.instance.memories@[i as int]@.len());
            }
            if !same {
                return Err(ConsoleError::SnapshotMismatch);
            }
            i = i + 1;
        }
        proof {
            assert(spec_state_matches(self@, state@));
        }
        let num_entries = self.contexts.input_context.input_entries.len();
        let mut p: usize = 0;
        while p < num_entries
            invariant
                p <= num_entries,
                num_entries == self.contexts.input_context.input_entries@.len(),
                state@.previous_buttons.len() == num_entries,
                forall|j: int|
                    p <= j < num_entries ==> self.contexts.input_context.input_entries@[j] == old(
                        self,
                    ).contexts.input_context.input_entries@[j],
                forall|j: int|
                    0 <= j < p ==> self.contexts.input_context.input_entries@[j] == (
                    PlayerInputEntry {
                        previous: state@.previous_buttons[j],
                        ..old(self).contexts.input_context.input_entries@[j]
                    }),
                self.rom == old(self).rom,
                self.contexts.graphics_context.frame_buffer@ == old(
                    self,
                ).contexts.graphics_context.frame_buffer@,
                self.functions == old(self).functions,
                self.instance == old(self).instance,
                self.state_definition == old(self).state_definition,
            decreases num_entries - p,
        {
            self.contexts.input_context.input_entries[p].previous = state.previous_buttons[p];
            p = p + 1;
        }
        let mut k: usize = 0;
        while k < state.memories.len()
            invariant
                k <= state.memories@.len(),
                state.memories@.len() == self.instance.memories@.len(),
                forall|j: int|
                    k <= j < state.memories@.len() ==> self.instance@.memories[j] == old(
                        self,
                    ).instance@.memories[j],
                forall|j: int| 0 <= j < k ==> self.instance@.memories[j] == state@.memories[j],
                self.rom == old(self).rom,
                self.contexts.graphics_context.frame_buffer@ == old(
                    self,
                ).contexts.graphics_context.frame_buffer@,
                self.contexts.input_context.input_entries@ == old_entries_restored(
                    old(self)@.entries,
                    state@.previous_buttons,
                ),
                self.functions == old(self).functions,
                self.instance.globals == old(self).instance.globals,
                self.state_definition == old(self).state_definition,
            decreases state.memories@.len() - k,
        {
            let fresh = copy_bytes(&state.memories[k]);
            self.instance.memories[k] = fresh;
            k = k + 1;
        }
        let mut g: usize = 0;
        while g < state.mutable_globals.len()
            invariant
                g <= state.mutable_globals@.len(),
                state.mutable_globals@.len() == self.instance.globals@.len(),
                forall|j: int|
                    g <= j < state.mutable_globals@.len() ==> self.instance.globals@[j] == old(
                        self,
                    ).instance.globals@[j],
                forall|j: int|
                    0 <= j < g ==> self.instance.globals@[j] == state.mutable_globals@[j],
                self.rom == old(self).rom,
                self.contexts.graphics_context.frame_buffer@ == old(
                    self,
                ).contexts.graphics_context.frame_buffer@,
                self.contexts.input_context.input_entries@ == old_entries_restored(
                    old(self)@.entries,
                    state@.previous_buttons,
                ),
                self.functions == old(self).functions,
                forall|j: int|
                    0 <= j < self.instance@.memories.len() ==> self.instance@.memories[j]
                        == state@.memories[j],
                self.instance@.memories.len() == state@.memories.len(),
                self.state_definition == old(self).state_definition,
            decreases state.mutable_globals@.len() - g,
        {
            let v = state.mutable_globals[g];
            self.instance.globals[g] = v;
            g = g + 1;
        }
        proof {
            assert(self@.entries =~= spec_restore(old(self)@, state@).entries);
            assert(self@.guest.memories =~~= spec_restore(old(self)@, state@).guest.memories);
            assert(self@.guest.globals =~= spec_restore(old(self)@, state@).guest.globals);
            assert(self@.guest =~= spec_restore(old(self)@, state@).guest);
            assert(self@ =~~= spec_restore(old(self)@, state@));
        }
        Ok(())
    }
}

/// Entries with every player's previous buttons replaced from a
/// snapshot and everything else kept.
pub open spec fn old_entries_restored(
    entries: Seq<PlayerInputEntry>,
    previous_buttons: Seq<crate::buttons::Buttons>,
) -> Seq<PlayerInputEntry> {
    Seq::new(
        entries.len(),
        |i: int| PlayerInputEntry { previous: previous_buttons[i], ..entries[i] },
    )
}


impl WasmConsole {
    /// One frame advance: overwrite each player's current input with
    /// the newly supplied one, run the guest's `update` — edge
    /// detection inside it sees the previous frame's buttons — and,
    /// after `update` returns, roll each player's current buttons into
    /// the previous slot. A guest abort skips the roll and is
    /// reported.
    pub fn advance_frame(&mut self, inputs: &Vec<InputState>) -> (r: Result<
        (),
        GuestExecutionFault,
    >)
        ensures
            ({
                let (c2, fault) = spec_advance(old(self)@, inputs@);
                &&& final(self)@ == c2
                &&& match fault {
                    None => r is Ok,
                    Some(e) => r == Result::<(), GuestExecutionFault>::Err(e),
                }
            }),
    {
        let entries_len = self.contexts.input_context.input_entries.len();
        let m = if inputs.len() < entries_len {
            inputs.len()
        } else {
            entries_len
        };
        let mut i: usize = 0;
        while i < m
            invariant
                i <= m,
                m <= inputs@.len(),
                m <= entries_len,
                m == if inputs@.len() < entries_len {
                    inputs@.len() as int
                } else {
                    entries_len as int
                },
                entries_len == self.contexts.input_context.input_entries@.len(),
                forall|j: int|
                    0 <= j < i ==> self.contexts.input_context.input_entries@[j] == (
                    PlayerInputEntry {
                        current: inputs@[j],
                        ..old(self).contexts.input_context.input_entries@[j]
                    }),
                forall|j: int|
                    i <= j < entries_len ==> self.contexts.input_context.input_entries@[j] == old(
                        self,
                    ).contexts.input_context.input_entries@[j],
                self.rom == old(self).rom,
                self.contexts.graphics_context.frame_buffer@ == old(
                    self,
                ).contexts.graphics_context.frame_buffer@,
                self.functions == old(self).functions,
                self.instance == old(self).instance,
                self.state_definition == old(self).state_definition,
            decreases m - i,
        {
            let inp = inputs[i];
            self.contexts.input_context.input_entries[i].current = inp;
            i = i + 1;
        }
        proof {
            assert(self.contexts.input_context.input_entries@ =~= spec_set_currents(
                old(self)@.entries,
                inputs@,
            ));
        }
        let ghost entries1 = self.contexts.input_context.input_entries@;
        let res = run_ops(
            &mut self.instance,
            &self.contexts.input_context.input_entries,
            &mut self.contexts.graphics_context.frame_buffer,
            &self.functions.update_fn,
        );
        let ghost g2 = self.instance@;
        let ghost f2 = self.contexts.graphics_context.frame_buffer@;
        match res {
            Err(e) => {
                proof {
                    assert(self@ =~~= spec_advance(old(self)@, inputs@).0);
                }
                Err(e)
            },
            Ok(()) => {
                let n = self.contexts.input_context.input_entries.len();
                let mut p: usize = 0;
                while p < n
                    invariant
                        p <= n,
                        n == self.contexts.input_context.input_entries@.len(),
                        n == entries1.len(),
                        forall|j: int|
                            0 <= j < p ==> self.contexts.input_context.input_entries@[j] == (
                            PlayerInputEntry {
                                previous: entries1[j].current.buttons,
                                ..entries1[j]
                            }),
                        forall|j: int|
                            p <= j < n ==> self.contexts.input_context.input_entries@[j]
                                == entries1[j],
                        self.rom == old(self).rom,
                        self.contexts.graphics_context.frame_buffer@ == f2,
                        self.functions == old(self).functions,
                        self.instance@ == g2,
                        self.state_definition == old(self).state_definition,
                        g2 == spec_run_ops(
                            old(self)@.guest,
                            entries1,
                            old(self)@.frame_buffer,
                            old(self)@.update_ops,
                        ).0,
                        f2 == spec_run_ops(
                            old(self)@.guest,
                            entries1,
                            old(self)@.frame_buffer,
                            old(self)@.update_ops,
                        ).1,
                        spec_run_ops(
                            old(self)@.guest,
                            entries1,
                            old(self)@.frame_buffer,
                            old(self)@.update_ops,
                        ).2 is None,
                        entries1 == spec_set_currents(old(self)@.entries, inputs@),
                    decreases n - p,
                {
                    let b = self.contexts.input_context.input_entries[p].current.buttons;
                    self.contexts.input_context.input_entries[p].previous = b;
                    p = p + 1;
                }
                proof {
                    assert(self.contexts.input_context.input_entries@ =~= spec_roll_previous(
                        entries1,
                    ));
                    assert(self@ =~~= spec_advance(old(self)@, inputs@).0);
                }
                Ok(())
            },
        }
    }

    /// Handles one batch of rollback requests, strictly in delivery
    /// order, with no reordering, deduplication or coalescing. The
    /// first error stops the batch and is reported, with the console
    /// and the cells exactly as the failing request left them.
    pub fn handle_requests(&mut self, requests: &Vec<RollbackRequest>, store: &mut SnapshotStore) -> (r:
        Result<(), ConsoleError>)
        ensures
            ({
                let (c2, m2, e) = spec_run_requests(old(self)@, old(store)@, requests@);
                &&& final(self)@ == c2
                &&& final(store)@ == m2
                &&& match e {
                    None => r is Ok,
                    Some(err) => r == Result::<(), ConsoleError>::Err(err),
                }
            }),
    {
        proof {
            assert(requests@.skip(0) =~= requests@);
        }
        let n = requests.len();
        let mut i: usize = 0;
        while i < n
            invariant
                i <= n,
                n == requests@.len(),
                spec_run_requests(old(self)@, old(store)@, requests@) == spec_run_requests(
                    self@,
                    store@,
                    requests@.skip(i as int),
                ),
            decreases n - i,
        {
            proof {
                assert(requests@.skip(i as int)[0] == requests@[i as int]);
                assert(requests@.skip(i as int).skip(1) =~= requests@.skip(i + 1int));
            }
            match &requests[i] {
                RollbackRequest::SaveGameState { frame } => {
                    let s = self.generate_save_state();
                    store.save(*frame, s);
                },
                RollbackRequest::LoadGameState { frame } => {
                    match store.load(*frame) {
                        None => {
                            return Err(ConsoleError::MissingSnapshot { frame: *frame });
                        },
                        Some(snap) => {
                            match self.load_save_state(snap) {
                                Ok(()) => {},
                                Err(e) => {
                                    return Err(e);
                                },
                            }
                        },
                    }
                },
                RollbackRequest::AdvanceFrame { inputs } => {
                    match self.advance_frame(inputs) {
                        Ok(()) => {},
                        Err(e) => {
                            return Err(ConsoleError::Execution(e));
                        },
                    }
                },
            }
            i = i + 1;
        }
        proof {
            assert(requests@.skip(n as int) =~= Seq::<RollbackRequest>::empty());
        }
        Ok(())
    }
}

/// Round trip: capturing a snapshot and restoring it at once, with no
/// intervening update, leaves every exported memory, every exported
/// mutable global and every player's previous buttons — the whole
/// console — exactly as it was, and the snapshot always fits the
/// console it was captured from.
pub proof fn lemma_save_restore_round_trip(c: ConsoleView)
    ensures
        spec_state_matches(c, spec_capture(c)),
        spec_restore(c, spec_capture(c)) == c,
{
    let s = spec_capture(c);
    assert(spec_restore(c, s).entries =~= c.entries);
    assert(spec_restore(c, s).guest =~= c.guest);
    assert(spec_restore(c, s) =~~= c);
}


/// What a resimulation can see of a console: the guest state, the
/// update entry point, and per player the previous buttons and the
/// mouse. Current inputs and the frame buffer are deliberately left
/// out — an advance overwrites the former and never reads the latter.
pub open spec fn spec_replay_eq(c: ConsoleView, d: ConsoleView) -> bool {
    &&& c.guest == d.guest
    &&& c.update_ops == d.update_ops
    &&& c.entries.len() == d.entries.len()
    &&& c.frame_buffer.len() == d.frame_buffer.len()
    &&& forall|i: int|
        0 <= i < c.entries.len() ==> c.entries[i].previous == d.entries[i].previous
            && c.entries[i].current_mouse == d.entries[i].current_mouse
            && c.entries[i].previous_mouse == d.entries[i].previous_mouse
}

/// Advancing two consoles that agree on everything a resimulation can
/// see, with the same full set of inputs, faults identically and
/// keeps them in agreement.
pub proof fn lemma_advance_replay_eq(c: ConsoleView, d: ConsoleView, inputs: Seq<InputState>)
    requires
        spec_replay_eq(c, d),
        inputs.len() >= c.entries.len(),
    ensures
        spec_advance(c, inputs).1 == spec_advance(d, inputs).1,
        spec_replay_eq(spec_advance(c, inputs).0, spec_advance(d, inputs).0),
{
    let ec = spec_set_currents(c.entries, inputs);
    let ed = spec_set_currents(d.entries, inputs);
    assert(ec =~= ed);
    crate::guest::lemma_run_ops_frame_blind(
        c.guest,
        ec,
        c.frame_buffer,
        d.frame_buffer,
        c.update_ops,
    );
    crate::guest::lemma_run_ops_preserves_shape(c.guest, ec, c.frame_buffer, c.update_ops);
    crate::guest::lemma_run_ops_preserves_shape(d.guest, ed, d.frame_buffer, d.update_ops);
}

/// A run of frames: one advance per input batch, stopping at the
/// first guest abort.
pub open spec fn spec_run_frames(c: ConsoleView, frames: Seq<Seq<InputState>>) -> (
    ConsoleView,
    Option<GuestExecutionFault>,
)
    decreases frames.len(),
{
    if frames.len() == 0 {
        (c, None)
    } else {
        let (c2, fault) = spec_advance(c, frames[0]);
        if fault is Some {
            (c2, fault)
        } else {
            spec_run_frames(c2, frames.skip(1))
        }
    }
}

/// Resimulating the same frames from two consoles that agree on
/// everything a resimulation can see faults identically and keeps
/// them in agreement.
pub proof fn lemma_run_frames_replay_eq(
    c: ConsoleView,
    d: ConsoleView,
    frames: Seq<Seq<InputState>>,
)
    requires
        spec_replay_eq(c, d),
        forall|j: int| 0 <= j < frames.len() ==> frames[j].len() >= c.entries.len(),
    ensures
        spec_run_frames(c, frames).1 == spec_run_frames(d, frames).1,
        spec_replay_eq(spec_run_frames(c, frames).0, spec_run_frames(d, frames).0),
    decreases frames.len(),
{
    if frames.len() > 0 {
        lemma_advance_replay_eq(c, d, frames[0]);
        let (c2, fc) = spec_advance(c, frames[0]);
        let (d2, fd) = spec_advance(d, frames[0]);
        if fc is None {
            assert(c2.entries.len() == c.entries.len());
            assert forall|j: int|
                0 <= j < frames.skip(1).len() implies frames.skip(1)[j].len()
                >= c2.entries.len() by {
                assert(frames.skip(1)[j] == frames[j + 1]);
            }
            lemma_run_frames_replay_eq(c2, d2, frames.skip(1));
        }
    }
}

/// A run of frames never changes the shape of the guest state, the
/// entry points, the inventory, the cartridge facts, the player count
/// or any player's mouse, and never resizes the frame buffer.
pub proof fn lemma_run_frames_invariants(c: ConsoleView, frames: Seq<Seq<InputState>>)
    ensures
        ({
            let (c2, _) = spec_run_frames(c, frames);
            &&& c2.entries.len() == c.entries.len()
            &&& forall|i: int|
                0 <= i < c.entries.len() ==> c2.entries[i].current_mouse
                    == c.entries[i].current_mouse && c2.entries[i].previous_mouse
                    == c.entries[i].previous_mouse
            &&& c2.guest.memories.len() == c.guest.memories.len()
            &&& forall|i: int|
                0 <= i < c.guest.memories.len() ==> c2.guest.memories[i].len()
                    == c.guest.memories[i].len()
            &&& c2.guest.globals.len() == c.guest.globals.len()
            &&& c2.frame_buffer.len() == c.frame_buffer.len()
            &&& c2.rom == c.rom
            &&& c2.init_ops == c.init_ops
            &&& c2.update_ops == c.update_ops
            &&& c2.draw_ops == c.draw_ops
            &&& c2.def_memories == c.def_memories
            &&& c2.def_globals == c.def_globals
        }),
    decreases frames.len(),
{
    if frames.len() > 0 {
        let entries1 = spec_set_currents(c.entries, frames[0]);
        crate::guest::lemma_run_ops_preserves_shape(
            c.guest,
            entries1,
            c.frame_buffer,
            c.update_ops,
        );
        let (c2, fault) = spec_advance(c, frames[0]);
        if fault is None {
            lemma_run_frames_invariants(c2, frames.skip(1));
        }
    }
}

/// Rollback equivalence: simulate a run of frames once, load the
/// snapshot captured before the run, and resimulate the same frames
/// with the same inputs — the guest's memories and globals, every
/// player's previous buttons, and any guest fault come out identical
/// to the original run. Each batch must supply an input for every
/// player, as the netcode layer does.
pub proof fn lemma_rollback_equivalence(c: ConsoleView, frames: Seq<Seq<InputState>>)
    requires
        forall|j: int| 0 <= j < frames.len() ==> frames[j].len() >= c.entries.len(),
    ensures
        ({
            let s = spec_capture(c);
            let (c1, e1) = spec_run_frames(c, frames);
            &&& spec_state_matches(c1, s)
            &&& {
                let c2 = spec_restore(c1, s);
                let (c3, e3) = spec_run_frames(c2, frames);
                &&& e3 == e1
                &&& c3.guest == c1.guest
                &&& c3.entries.len() == c1.entries.len()
                &&& forall|i: int|
                    0 <= i < c1.entries.len() ==> c3.entries[i].previous == c1.entries[i].previous
            }
        }),
{
    let s = spec_capture(c);
    let (c1, e1) = spec_run_frames(c, frames);
    lemma_run_frames_invariants(c, frames);
    assert(spec_state_matches(c1, s));
    let c2 = spec_restore(c1, s);
    assert(c2.guest =~= c.guest);
    assert(spec_replay_eq(c, c2));
    lemma_run_frames_replay_eq(c, c2, frames);
}

} // verus!
