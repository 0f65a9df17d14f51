//! The guest program as the core sees it: an export list, the three
//! lifecycle entry points, and a deterministic instruction set over the
//! guest's exported memories and mutable globals. The sandbox that runs
//! real guest bytecode is an outside collaborator; this model is the
//! exact surface the snapshot machinery captures and restores.
use vstd::prelude::*;

use crate::buttons::ButtonCode;
use crate::input_context::{spec_held, spec_pressed, spec_released, PlayerInputEntry};

verus! {

/// One of the three lifecycle entry points every guest must export.
#[derive(Clone, Copy, PartialEq, Eq, Structural, Debug)]
pub enum EntryPoint {
    Init,
    Update,
    Draw,
}

/// The edge a guest instruction asks about on a button.
#[derive(Clone, Copy, PartialEq, Eq, Structural, Debug)]
pub enum ButtonQuery {
    Pressed,
    Released,
    Held,
}

/// One deterministic guest instruction. Every operand is an index into
/// the guest's own exported state; an out-of-range index is a guest
/// abort, not a host crash.
#[derive(Clone, Copy, PartialEq, Eq, Structural, Debug)]
pub enum GuestOp {
    /// Overwrite a mutable global.
    SetGlobal { index: usize, value: i64 },
    /// Add to a mutable global, wrapping on overflow.
    AddGlobal { index: usize, delta: i64 },
    /// Overwrite one byte of an exported memory.
    StoreByte { mem: usize, offset: usize, value: u8 },
    /// Add one, wrapping, to a byte of an exported memory if the given
    /// button query fires for the given player; an out-of-range player
    /// id simply never fires, as the capability bindings answer it a
    /// sentinel.
    AddButton { mem: usize, offset: usize, player_id: i32, button: ButtonCode, query: ButtonQuery },
    /// Overwrite one byte of the frame buffer.
    StoreFrame { offset: usize, value: u8 },
}

/// A guest-side abort: the instruction that faulted and the index it
/// reached past. Fatal for the frame being simulated, reported to the
/// caller, never a host panic.
#[derive(Clone, Copy, PartialEq, Eq, Structural, Debug)]
pub enum GuestExecutionFault {
    GlobalOutOfRange { index: usize },
    MemoryOutOfRange { mem: usize },
    ByteOutOfRange { mem: usize, offset: usize },
    FrameOutOfRange { offset: usize },
}

/// What a guest export is. Only memories and mutable globals are
/// snapshot targets; functions, immutable globals and tables are
/// excluded from the snapshot surface by design.
#[derive(Clone, PartialEq, Eq, Debug)]
pub enum ExportKind {
    Function { entry: Option<EntryPoint>, body: Vec<GuestOp> },
    Memory { initial: Vec<u8> },
    MutableGlobal { initial: i64 },
    ImmutableGlobal { value: i64 },
    Table,
}

/// One named guest export.
#[derive(Clone, PartialEq, Eq, Debug)]
pub struct Export {
    pub name: String,
    pub kind: ExportKind,
}

/// A guest program: its exports in export order. That order is the
/// authoritative inventory order for snapshotting.
#[derive(Clone, PartialEq, Eq, Debug)]
pub struct GuestProgram {
    pub exports: Vec<Export>,
}

/// The live snapshot surface of an instantiated guest: the contents of
/// every exported memory and every exported mutable global, each in
/// export order.
#[derive(Clone, PartialEq, Eq, Debug)]
pub struct GuestInstance {
    pub memories: Vec<Vec<u8>>,
    pub globals: Vec<i64>,
}

/// The mathematical value of a guest instance.
#[verifier::ext_equal]
pub struct GuestView {
    pub memories: Seq<Seq<u8>>,
    pub globals: Seq<i64>,
}

impl View for GuestInstance {
    type V = GuestView;

    open spec fn view(&self) -> GuestView {
        GuestView { memories: self.memories.deep_view(), globals: self.globals@ }
    }
}

/// The three resolved entry points of a loaded guest.
#[derive(Clone, PartialEq, Eq, Debug)]
pub struct Functions {
    pub init_fn: Vec<GuestOp>,
    pub update_fn: Vec<GuestOp>,
    pub draw_fn: Vec<GuestOp>,
}

/// Loading fails when a required entry point is missing from the
/// export list.
#[derive(Clone, Copy, PartialEq, Eq, Structural, Debug)]
pub enum GuestLoadError {
    MissingInit,
    MissingUpdate,
    MissingDraw,
}

/// Whether an export is a function export resolving the given entry
/// point.
pub open spec fn spec_is_entry(e: Export, ep: EntryPoint) -> bool {
    match e.kind {
        ExportKind::Function { entry, .. } => entry == Some(ep),
        _ => false,
    }
}

/// The body of a function export, empty for any other export.
pub open spec fn spec_entry_body(e: Export) -> Seq<GuestOp> {
    match e.kind {
        ExportKind::Function { body, .. } => body@,
        _ => Seq::empty(),
    }
}

/// Whether a set of resolved entry points is a correct resolution of a
/// program's exports: each body comes from some export resolving that
/// entry point.
pub open spec fn spec_resolves(exports: Seq<Export>, f: Functions) -> bool {
    &&& spec_first_entry_is(exports, EntryPoint::Init, f.init_fn@)
    &&& spec_first_entry_is(exports, EntryPoint::Update, f.update_fn@)
    &&& spec_first_entry_is(exports, EntryPoint::Draw, f.draw_fn@)
}

/// Whether `body` is the body of the first export resolving an entry
/// point: resolution takes the earliest matching export, as a lookup
/// in an export table does.
pub open spec fn spec_first_entry_is(exports: Seq<Export>, ep: EntryPoint, body: Seq<GuestOp>) -> bool {
    exists|i: int|
        #![trigger spec_is_entry(exports[i], ep)]
        0 <= i < exports.len() && spec_is_entry(exports[i], ep) && body == spec_entry_body(
            exports[i],
        ) && (forall|j: int| 0 <= j < i ==> !spec_is_entry(exports[j], ep))
}

/// Whether no export resolves an entry point.
pub open spec fn spec_missing(exports: Seq<Export>, ep: EntryPoint) -> bool {
    forall|i: int| 0 <= i < exports.len() ==> !spec_is_entry(exports[i], ep)
}

/// The initial contents of the exported memories, in export order: the
/// memory half of the snapshot inventory.
pub open spec fn spec_memory_inits(exports: Seq<Export>) -> Seq<Seq<u8>>
    decreases exports.len(),
{
    if exports.len() == 0 {
        Seq::empty()
    } else {
        spec_memory_inits(exports.drop_last()) + (match exports.last().kind {
            ExportKind::Memory { initial } => seq![initial@],
            _ => Seq::empty(),
        })
    }
}

/// The initial values of the exported mutable globals, in export
/// order: the global half of the snapshot inventory.
pub open spec fn spec_global_inits(exports: Seq<Export>) -> Seq<i64>
    decreases exports.len(),
{
    if exports.len() == 0 {
        Seq::empty()
    } else {
        spec_global_inits(exports.drop_last()) + (match exports.last().kind {
            ExportKind::MutableGlobal { initial } => seq![initial],
            _ => Seq::empty(),
        })
    }
}

/// The names of the exported memories, in export order.
pub open spec fn spec_memory_names(exports: Seq<Export>) -> Seq<Seq<char>>
    decreases exports.len(),
{
    if exports.len() == 0 {
        Seq::empty()
    } else {
        spec_memory_names(exports.drop_last()) + (match exports.last().kind {
            ExportKind::Memory { .. } => seq![exports.last().name@],
            _ => Seq::empty(),
        })
    }
}

/// The names of the exported mutable globals, in export order.
pub open spec fn spec_global_names(exports: Seq<Export>) -> Seq<Seq<char>>
    decreases exports.len(),
{
    if exports.len() == 0 {
        Seq::empty()
    } else {
        spec_global_names(exports.drop_last()) + (match exports.last().kind {
            ExportKind::MutableGlobal { .. } => seq![exports.last().name@],
            _ => Seq::empty(),
        })
    }
}

impl Functions {
    /// Resolves the three required entry points, first matching export
    /// each, exactly as the host does right after instantiation.
    pub fn find_functions(program: &GuestProgram) -> (r: Result<Functions, GuestLoadError>)
        ensures
            match r {
                Ok(f) => spec_resolves(program.exports@, f),
                Err(GuestLoadError::MissingInit) => spec_missing(program.exports@, EntryPoint::Init),
                Err(GuestLoadError::MissingUpdate) => spec_missing(
                    program.exports@,
                    EntryPoint::Update,
                ),
                Err(GuestLoadError::MissingDraw) => spec_missing(program.exports@, EntryPoint::Draw),
            },
    {
        let init_fn = match Self::find_entry(program, EntryPoint::Init) {
            Some(b) => b,
            None => {
                return Err(GuestLoadError::MissingInit);
            },
        };
        let update_fn = match Self::find_entry(program, EntryPoint::Update) {
            Some(b) => b,
            None => {
                return Err(GuestLoadError::MissingUpdate);
            },
        };
        let draw_fn = match Self::find_entry(program, EntryPoint::Draw) {
            Some(b) => b,
            None => {
                return Err(GuestLoadError::MissingDraw);
            },
        };
        Ok(Functions { init_fn, update_fn, draw_fn })
    }

    /// Scans the export list for the first export resolving an entry
    /// point and copies its body out.
    fn find_entry(program: &GuestProgram, ep: EntryPoint) -> (r: Option<Vec<GuestOp>>)
        ensures
            match r {
                Some(body) => spec_first_entry_is(program.exports@, ep, body@),
                None => spec_missing(program.exports@, ep),
            },
    {
        let n = program.exports.len();
        let mut i: usize = 0;
        while i < n
            invariant
                i <= n,
                n == program.exports@.len(),
                forall|j: int| 0 <= j < i ==> !spec_is_entry(program.exports@[j], ep),
            decreases n - i,
        {
            match &program.exports[i].kind {
                ExportKind::Function { entry, body } => {
                    let matches_entry = match (entry, &ep) {
                        (Some(EntryPoint::Init), EntryPoint::Init) => true,
                        (Some(EntryPoint::Update), EntryPoint::Update) => true,
                        (Some(EntryPoint::Draw), EntryPoint::Draw) => true,
                        _ => false,
                    };
                    if matches_entry {
                        let r = copy_ops(body);
                        proof {
                            assert(spec_is_entry(program.exports@[i as int], ep));
                        }
                        return Some(r);
                    }
                },
                _ => {},
            }
            i = i + 1;
        }
        None
    }
}

/// An element-for-element copy of an instruction list.
pub fn copy_ops(ops: &Vec<GuestOp>) -> (r: Vec<GuestOp>)
    ensures
        r@ == ops@,
{
    let mut r: Vec<GuestOp> = Vec::new();
    let mut i: usize = 0;
    while i < ops.len()
        invariant
            i <= ops@.len(),
            r@ == ops@.take(i as int),
        decreases ops@.len() - i,
    {
        r.push(ops[i]);
        proof {
            assert(r@ =~= ops@.take(i + 1int));
        }
        i = i + 1;
    }
    proof {
        assert(r@ =~= ops@);
    }
    r
}

/// An element-for-element copy of a byte buffer.
pub fn copy_bytes(bytes: &Vec<u8>) -> (r: Vec<u8>)
    ensures
        r@ == bytes@,
{
    let mut r: Vec<u8> = Vec::new();
    let mut i: usize = 0;
    while i < bytes.len()
        invariant
            i <= bytes@.len(),
            r@ == bytes@.take(i as int),
        decreases bytes@.len() - i,
    {
        r.push(bytes[i]);
        proof {
            assert(r@ =~= bytes@.take(i + 1int));
        }
        i = i + 1;
    }
    proof {
        assert(r@ =~= bytes@);
    }
    r
}

/// Whether a button query fires for a player this frame. An
/// out-of-range player id never fires: the capability bindings answer
/// it with a sentinel instead of data.
pub open spec fn spec_query_fires(
    entries: Seq<PlayerInputEntry>,
    player_id: i32,
    button: ButtonCode,
    query: ButtonQuery,
) -> bool {
    &&& 0 <= player_id
    &&& (player_id as int) < entries.len()
    &&& {
        let e = entries[player_id as int];
        match query {
            ButtonQuery::Pressed => spec_pressed(e, button),
            ButtonQuery::Released => spec_released(e, button),
            ButtonQuery::Held => spec_held(e, button),
        }
    }
}

/// What one instruction does: either the next guest state and frame
/// buffer, or the fault that aborts the frame, leaving state as it
/// was at the faulting instruction.
pub open spec fn spec_exec_op(
    g: GuestView,
    entries: Seq<PlayerInputEntry>,
    frame: Seq<u8>,
    op: GuestOp,
) -> Result<(GuestView, Seq<u8>), GuestExecutionFault> {
    match op {
        GuestOp::SetGlobal { index, value } => {
            if index < g.globals.len() {
                Ok((GuestView { globals: g.globals.update(index as int, value), ..g }, frame))
            } else {
                Err(GuestExecutionFault::GlobalOutOfRange { index })
            }
        },
        GuestOp::AddGlobal { index, delta } => {
            if index < g.globals.len() {
                Ok(
                    (
                        GuestView {
                            globals: g.globals.update(
                                index as int,
                                vstd::wrapping::i64_specs::wrapping_add(
                                    g.globals[index as int],
                                    delta,
                                ),
                            ),
                            ..g
                        },
                        frame,
                    ),
                )
            } else {
                Err(GuestExecutionFault::GlobalOutOfRange { index })
            }
        },
        GuestOp::StoreByte { mem, offset, value } => {
            if mem >= g.memories.len() {
                Err(GuestExecutionFault::MemoryOutOfRange { mem })
            } else if offset >= g.memories[mem as int].len() {
                Err(GuestExecutionFault::ByteOutOfRange { mem, offset })
            } else {
                Ok(
                    (
                        GuestView {
                            memories: g.memories.update(
                                mem as int,
                                g.memories[mem as int].update(offset as int, value),
                            ),
                            ..g
                        },
                        frame,
                    ),
                )
            }
        },
        GuestOp::AddButton { mem, offset, player_id, button, query } => {
            if mem >= g.memories.len() {
                Err(GuestExecutionFault::MemoryOutOfRange { mem })
            } else if offset >= g.memories[mem as int].len() {
                Err(GuestExecutionFault::ByteOutOfRange { mem, offset })
            } else {
                let b = g.memories[mem as int][offset as int];
                let b2 = if spec_query_fires(entries, player_id, button, query) {
                    vstd::wrapping::u8_specs::wrapping_add(b, 1)
                } else {
                    b
                };
                Ok(
                    (
                        GuestView {
                            memories: g.memories.update(
                                mem as int,
                                g.memories[mem as int].update(offset as int, b2),
                            ),
                            ..g
                        },
                        frame,
                    ),
                )
            }
        },
        GuestOp::StoreFrame { offset, value } => {
            if offset < frame.len() {
                Ok((g, frame.update(offset as int, value)))
            } else {
                Err(GuestExecutionFault::FrameOutOfRange { offset })
            }
        },
    }
}

/// What a whole instruction list does, first instruction first,
/// stopping at the first fault with the state reached so far.
pub open spec fn spec_run_ops(
    g: GuestView,
    entries: Seq<PlayerInputEntry>,
    frame: Seq<u8>,
    ops: Seq<GuestOp>,
) -> (GuestView, Seq<u8>, Option<GuestExecutionFault>)
    decreases ops.len(),
{
    if ops.len() == 0 {
        (g, frame, None)
    } else {
        match spec_exec_op(g, entries, frame, ops[0]) {
            Ok((g2, f2)) => spec_run_ops(g2, entries, f2, ops.skip(1)),
            Err(e) => (g, frame, Some(e)),
        }
    }
}

/// Running instructions never changes how many memories or globals the
/// guest exports, nor any memory's length: no instruction resizes.
pub proof fn lemma_run_ops_preserves_shape(
    g: GuestView,
    entries: Seq<PlayerInputEntry>,
    frame: Seq<u8>,
    ops: Seq<GuestOp>,
)
    ensures
        ({
            let (g2, f2, _) = spec_run_ops(g, entries, frame, ops);
            &&& g2.memories.len() == g.memories.len()
            &&& g2.globals.len() == g.globals.len()
            &&& forall|i: int|
                0 <= i < g.memories.len() ==> g2.memories[i].len() == g.memories[i].len()
            &&& f2.len() == frame.len()
        }),
    decreases ops.len(),
{
    if ops.len() > 0 {
        match spec_exec_op(g, entries, frame, ops[0]) {
            Ok((g2, f2)) => {
                lemma_run_ops_preserves_shape(g2, entries, f2, ops.skip(1));
            },
            Err(_) => {},
        }
    }
}

/// The result of a run does not depend on what the frame buffer held
/// before: instructions write the frame buffer but never read it.
pub proof fn lemma_run_ops_frame_blind(
    g: GuestView,
    entries: Seq<PlayerInputEntry>,
    f1: Seq<u8>,
    f2: Seq<u8>,
    ops: Seq<GuestOp>,
)
    requires
        f1.len() == f2.len(),
    ensures
        ({
            let (ga, _, ea) = spec_run_ops(g, entries, f1, ops);
            let (gb, _, eb) = spec_run_ops(g, entries, f2, ops);
            ga == gb && ea == eb
        }),
    decreases ops.len(),
{
    if ops.len() > 0 {
        match (spec_exec_op(g, entries, f1, ops[0]), spec_exec_op(g, entries, f2, ops[0])) {
            (Ok((ga, fa)), Ok((gb, fb))) => {
                assert(ga == gb);
                assert(fa.len() == fb.len());
                lemma_run_ops_frame_blind(ga, entries, fa, fb, ops.skip(1));
            },
            _ => {},
        }
    }
}

/// Runs one instruction against the live instance, the input context
/// and the frame buffer.
pub fn exec_op(
    instance: &mut GuestInstance,
    entries: &Vec<PlayerInputEntry>,
    gfx_frame: &mut Vec<u8>,
    op: &GuestOp,
) -> (r: Result<(), GuestExecutionFault>)
    ensures
        ({
            let res = spec_exec_op(old(instance)@, entries@, old(gfx_frame)@, *op);
            match res {
                Ok((g2, f2)) => r is Ok && final(instance)@ == g2 && final(gfx_frame)@ == f2,
                Err(e) => {
                    &&& r == Result::<(), GuestExecutionFault>::Err(e)
                    &&& final(instance)@ == old(instance)@
                    &&& final(gfx_frame)@ == old(gfx_frame)@
                },
            }
        }),
{
    match *op {
        GuestOp::SetGlobal { index, value } => {
            if index < instance.globals.len() {
                instance.globals[index] = value;
                Ok(())
            } else {
                Err(GuestExecutionFault::GlobalOutOfRange { index })
            }
        },
        GuestOp::AddGlobal { index, delta } => {
            if index < instance.globals.len() {
                let v = instance.globals[index];
                instance.globals[index] = v.wrapping_add(delta);
                Ok(())
            } else {
                Err(GuestExecutionFault::GlobalOutOfRange { index })
            }
        },
        GuestOp::StoreByte { mem, offset, value } => {
            if mem >= instance.memories.len() {
                Err(GuestExecutionFault::MemoryOutOfRange { mem })
            } else if offset >= instance.memories[mem].len() {
                Err(GuestExecutionFault::ByteOutOfRange { mem, offset })
            } else {
                instance.memories[mem][offset] = value;
                proof {
                    assert(instance@.memories =~~= old(instance)@.memories.update(
                        mem as int,
                        old(instance)@.memories[mem as int].update(offset as int, value),
                    ));
                }
                Ok(())
            }
        },
        GuestOp::AddButton { mem, offset, player_id, button, query } => {
            if mem >= instance.memories.len() {
                Err(GuestExecutionFault::MemoryOutOfRange { mem })
            } else if offset >= instance.memories[mem].len() {
                Err(GuestExecutionFault::ByteOutOfRange { mem, offset })
            } else {
                let fires = query_fires(entries, player_id, button, query);
                let b = instance.memories[mem][offset];
                let b2 = if fires {
                    b.wrapping_add(1)
                } else {
                    b
                };
                instance.memories[mem][offset] = b2;
                proof {
                    assert(instance@.memories =~~= old(instance)@.memories.update(
                        mem as int,
                        old(instance)@.memories[mem as int].update(offset as int, b2),
                    ));
                }
                Ok(())
            }
        },
        GuestOp::StoreFrame { offset, value } => {
            if offset < gfx_frame.len() {
                gfx_frame[offset] = value;
                Ok(())
            } else {
                Err(GuestExecutionFault::FrameOutOfRange { offset })
            }
        },
    }
}

/// Whether a button query fires, as run-time code.
fn query_fires(
    entries: &Vec<PlayerInputEntry>,
    player_id: i32,
    button: ButtonCode,
    query: ButtonQuery,
) -> (r: bool)
    ensures
        r == spec_query_fires(entries@, player_id, button, query),
{
    if player_id < 0 || player_id as usize >= entries.len() {
        return false;
    }
    let e = &entries[player_id as usize];
    match query {
        ButtonQuery::Pressed => {
            !e.previous.get_button_state(button) && e.current.buttons.get_button_state(button)
        },
        ButtonQuery::Released => {
            e.previous.get_button_state(button) && !e.current.buttons.get_button_state(button)
        },
        ButtonQuery::Held => e.current.buttons.get_button_state(button),
    }
}

/// Runs a whole instruction list against the live instance, stopping
/// at the first fault and reporting it.
pub fn run_ops(
    instance: &mut GuestInstance,
    entries: &Vec<PlayerInputEntry>,
    gfx_frame: &mut Vec<u8>,
    ops: &Vec<GuestOp>,
) -> (r: Result<(), GuestExecutionFault>)
    ensures
        ({
            let (g2, f2, fault) = spec_run_ops(old(instance)@, entries@, old(gfx_frame)@, ops@);
            &&& final(instance)@ == g2
            &&& final(gfx_frame)@ == f2
            &&& match fault {
                None => r is Ok,
                Some(e) => r == Result::<(), GuestExecutionFault>::Err(e),
            }
        }),
{
    let ghost g0 = instance@;
    let ghost f0 = gfx_frame@;
    let n = ops.len();
    let mut i: usize = 0;
    proof {
        assert(ops@.skip(0) =~= ops@);
    }
    while i < n
        invariant
            i <= n,
            n == ops@.len(),
            g0 == old(instance)@,
            f0 == old(gfx_frame)@,
            spec_run_ops(g0, entries@, f0, ops@) == spec_run_ops(
                instance@,
                entries@,
                gfx_frame@,
                ops@.skip(i as int),
            ),
        decreases n - i,
    {
        let ghost g_before = instance@;
        let ghost f_before = gfx_frame@;
        let res = exec_op(instance, entries, gfx_frame, &ops[i]);
        proof {
            assert(ops@.skip(i as int)[0] == ops@[i as int]);
            assert(ops@.skip(i as int).skip(1) =~= ops@.skip(i + 1int));
        }
        match res {
            Ok(()) => {},
            Err(e) => {
                proof {
                    assert(spec_run_ops(instance@, entries@, gfx_frame@, ops@.skip(i as int))
                        == (instance@, gfx_frame@, Some(e)));
                }
                return Err(e);
            },
        }
        i = i + 1;
    }
    proof {
        assert(ops@.skip(n as int) =~= Seq::<GuestOp>::empty());
    }
    Ok(())
}

} // verus!
