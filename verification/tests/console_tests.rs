use gamercade_runtime::buttons::ButtonCode;
use gamercade_runtime::console::{ConsoleError, RollbackRequest, WasmConsole};
use gamercade_runtime::contexts::Rom;
use gamercade_runtime::guest::{
    ButtonQuery, EntryPoint, Export, ExportKind, Functions, GuestExecutionFault, GuestLoadError,
    GuestOp, GuestProgram,
};
use gamercade_runtime::input_state::InputState;
use gamercade_runtime::snapshot::{SnapshotStore, WasmConsoleState};

fn demo_rom() -> Rom {
    Rom { frame_width: 4, frame_height: 3, frame_rate: 60 }
}

fn entry(name: &str, ep: EntryPoint, body: Vec<GuestOp>) -> Export {
    Export { name: name.to_string(), kind: ExportKind::Function { entry: Some(ep), body } }
}

/// A two-player demo guest: `update` counts player 0's presses of
/// button A into byte 0 of its memory and ticks a frame counter in
/// its mutable global; `draw` writes the press count into the frame
/// buffer.
fn demo_program() -> GuestProgram {
    GuestProgram {
        exports: vec![
            entry("init", EntryPoint::Init, vec![GuestOp::SetGlobal { index: 0, value: 0 }]),
            Export {
                name: "memory".to_string(),
                kind: ExportKind::Memory { initial: vec![0, 0, 0, 0] },
            },
            Export { name: "frame_count".to_string(), kind: ExportKind::MutableGlobal { initial: 0 } },
            entry(
                "update",
                EntryPoint::Update,
                vec![
                    GuestOp::AddButton {
                        mem: 0,
                        offset: 0,
                        player_id: 0,
                        button: ButtonCode::A,
                        query: ButtonQuery::Pressed,
                    },
                    GuestOp::AddButton {
                        mem: 0,
                        offset: 1,
                        player_id: 0,
                        button: ButtonCode::A,
                        query: ButtonQuery::Held,
                    },
                    GuestOp::AddButton {
                        mem: 0,
                        offset: 2,
                        player_id: 0,
                        button: ButtonCode::A,
                        query: ButtonQuery::Released,
                    },
                    GuestOp::AddGlobal { index: 0, delta: 1 },
                ],
            ),
            entry("draw", EntryPoint::Draw, vec![GuestOp::StoreFrame { offset: 0, value: 9 }]),
        ],
    }
}

fn a_pressed() -> InputState {
    let mut s = InputState::new();
    s.buttons = s.buttons.set_button_state(ButtonCode::A, true);
    s
}

fn advance(inputs: Vec<InputState>) -> RollbackRequest {
    RollbackRequest::AdvanceFrame { inputs }
}

#[test]
fn find_functions_resolves_entry_points() {
    let program = demo_program();
    let f = Functions::find_functions(&program).unwrap();
    assert_eq!(f.init_fn.len(), 1);
    assert_eq!(f.update_fn.len(), 4);
    assert_eq!(f.draw_fn.len(), 1);
}

#[test]
fn missing_entry_point_fails_loading() {
    let mut program = demo_program();
    program.exports.retain(|e| !matches!(
        e.kind,
        ExportKind::Function { entry: Some(EntryPoint::Update), .. }
    ));
    assert_eq!(
        Functions::find_functions(&program).unwrap_err(),
        GuestLoadError::MissingUpdate
    );
    assert!(matches!(
        WasmConsole::new(demo_rom(), 2, &program),
        Err(GuestLoadError::MissingUpdate)
    ));
}

#[test]
fn new_classifies_exports_in_order() {
    let mut program = demo_program();
    program.exports.push(Export {
        name: "extra".to_string(),
        kind: ExportKind::Memory { initial: vec![7, 7] },
    });
    program.exports.push(Export { name: "tbl".to_string(), kind: ExportKind::Table });
    program.exports.push(Export {
        name: "ro".to_string(),
        kind: ExportKind::ImmutableGlobal { value: 5 },
    });
    let console = WasmConsole::new(demo_rom(), 2, &program).unwrap();
    assert_eq!(console.instance.memories, vec![vec![0, 0, 0, 0], vec![7, 7]]);
    assert_eq!(console.instance.globals, vec![0]);
    assert_eq!(console.state_definition.memories, vec!["memory".to_string(), "extra".to_string()]);
    assert_eq!(console.state_definition.mutable_globals, vec!["frame_count".to_string()]);
    assert_eq!(console.contexts.input_context.input_entries.len(), 2);
}

#[test]
fn init_and_draw_run_their_entry_points() {
    let mut console = WasmConsole::new(demo_rom(), 2, &demo_program()).unwrap();
    console.instance.globals[0] = 42;
    console.call_init().unwrap();
    assert_eq!(console.instance.globals[0], 0);
    console.call_draw().unwrap();
    let frame = console.blit();
    assert_eq!(frame.len(), 12);
    assert_eq!(frame[0], 9);
    assert!(frame[1..].iter().all(|&b| b == 0));
}

#[test]
fn edge_detection_fires_exactly_once_per_transition() {
    let mut console = WasmConsole::new(demo_rom(), 2, &demo_program()).unwrap();
    let mut store = SnapshotStore::new();
    // Button A low, high, low across three consecutive advances.
    let frames = vec![
        advance(vec![InputState::new(), InputState::new()]),
        advance(vec![a_pressed(), InputState::new()]),
        advance(vec![InputState::new(), InputState::new()]),
    ];
    console.handle_requests(&frames, &mut store).unwrap();
    // Pressed fired once (middle frame), held counted once (middle
    // frame), released fired once (last frame).
    assert_eq!(console.instance.memories[0][0], 1);
    assert_eq!(console.instance.memories[0][1], 1);
    assert_eq!(console.instance.memories[0][2], 1);
    assert_eq!(console.instance.globals[0], 3);
}

#[test]
fn save_restore_round_trip() {
    let mut console = WasmConsole::new(demo_rom(), 2, &demo_program()).unwrap();
    let mut store = SnapshotStore::new();
    console
        .handle_requests(
            &vec![advance(vec![a_pressed(), InputState::new()])],
            &mut store,
        )
        .unwrap();
    let snapshot = console.generate_save_state();
    let memories_before = console.instance.memories.clone();
    let globals_before = console.instance.globals.clone();
    let previous_before: Vec<_> =
        console.contexts.input_context.input_entries.iter().map(|e| e.previous).collect();
    // Restoring immediately leaves everything captured byte-identical.
    console.load_save_state(&snapshot).unwrap();
    assert_eq!(console.instance.memories, memories_before);
    assert_eq!(console.instance.globals, globals_before);
    let previous_after: Vec<_> =
        console.contexts.input_context.input_entries.iter().map(|e| e.previous).collect();
    assert_eq!(previous_after, previous_before);
}

#[test]
fn missing_snapshot_is_reported() {
    let mut console = WasmConsole::new(demo_rom(), 2, &demo_program()).unwrap();
    let mut store = SnapshotStore::new();
    let r = console.handle_requests(
        &vec![RollbackRequest::LoadGameState { frame: 5 }],
        &mut store,
    );
    assert_eq!(r.unwrap_err(), ConsoleError::MissingSnapshot { frame: 5 });
}

#[test]
fn mismatched_snapshot_is_rejected_whole() {
    let mut console = WasmConsole::new(demo_rom(), 2, &demo_program()).unwrap();
    let bad = WasmConsoleState {
        previous_buttons: Vec::new(),
        memories: Vec::new(),
        mutable_globals: Vec::new(),
    };
    assert_eq!(console.load_save_state(&bad).unwrap_err(), ConsoleError::SnapshotMismatch);
    // A memory whose length changed is rejected too, and nothing is written.
    let mut snapshot = console.generate_save_state();
    snapshot.memories[0].push(0xff);
    let before = console.instance.memories.clone();
    assert_eq!(console.load_save_state(&snapshot).unwrap_err(), ConsoleError::SnapshotMismatch);
    assert_eq!(console.instance.memories, before);
}

#[test]
fn guest_fault_is_propagated() {
    let program = GuestProgram {
        exports: vec![
            entry("init", EntryPoint::Init, vec![]),
            entry("update", EntryPoint::Update, vec![GuestOp::SetGlobal { index: 9, value: 1 }]),
            entry("draw", EntryPoint::Draw, vec![]),
        ],
    };
    let mut console = WasmConsole::new(demo_rom(), 1, &program).unwrap();
    let r = console.advance_frame(&vec![InputState::new()]);
    assert_eq!(r.unwrap_err(), GuestExecutionFault::GlobalOutOfRange { index: 9 });
    let mut store = SnapshotStore::new();
    let r2 = console.handle_requests(&vec![advance(vec![InputState::new()])], &mut store);
    assert_eq!(
        r2.unwrap_err(),
        ConsoleError::Execution(GuestExecutionFault::GlobalOutOfRange { index: 9 })
    );
}

#[test]
fn snapshot_store_keeps_one_snapshot_per_frame() {
    let mut store = SnapshotStore::new();
    let console = WasmConsole::new(demo_rom(), 1, &demo_program()).unwrap();
    let s1 = console.generate_save_state();
    let mut s2 = console.generate_save_state();
    s2.mutable_globals[0] = 77;
    store.save(3, s1);
    assert!(store.load(2).is_none());
    assert_eq!(store.load(3).unwrap().mutable_globals[0], 0);
    store.save(3, s2);
    assert_eq!(store.load(3).unwrap().mutable_globals[0], 77);
}

#[test]
fn rollback_replay_reproduces_state() {
    // The concrete two-player scenario: save at frame 10, advance
    // frames 11 through 13 with player 0 pressing A on frame 12 only,
    // then load frame 10 and replay the same three frames.
    let mut console = WasmConsole::new(demo_rom(), 2, &demo_program()).unwrap();
    let mut store = SnapshotStore::new();
    let idle = || vec![InputState::new(), InputState::new()];
    let press = || vec![a_pressed(), InputState::new()];
    console
        .handle_requests(
            &vec![
                RollbackRequest::SaveGameState { frame: 10 },
                advance(idle()),
                advance(press()),
                advance(idle()),
            ],
            &mut store,
        )
        .unwrap();
    let memories_first = console.instance.memories.clone();
    let globals_first = console.instance.globals.clone();
    console
        .handle_requests(
            &vec![
                RollbackRequest::LoadGameState { frame: 10 },
                advance(idle()),
                advance(press()),
                advance(idle()),
            ],
            &mut store,
        )
        .unwrap();
    assert_eq!(console.instance.memories, memories_first);
    assert_eq!(console.instance.globals, globals_first);
    assert_eq!(console.instance.memories[0][0], 1);
    assert_eq!(console.instance.globals[0], 3);
}

#[test]
fn every_missing_entry_point_has_its_error() {
    let no_exports = GuestProgram { exports: Vec::new() };
    assert_eq!(Functions::find_functions(&no_exports).unwrap_err(), GuestLoadError::MissingInit);
    let mut no_draw = demo_program();
    no_draw.exports.retain(|e| !matches!(
        e.kind,
        ExportKind::Function { entry: Some(EntryPoint::Draw), .. }
    ));
    assert_eq!(Functions::find_functions(&no_draw).unwrap_err(), GuestLoadError::MissingDraw);
}

#[test]
fn every_guest_fault_names_what_it_reached_past() {
    let faulting = |body: Vec<GuestOp>| GuestProgram {
        exports: vec![
            entry("init", EntryPoint::Init, vec![]),
            Export { name: "m".to_string(), kind: ExportKind::Memory { initial: vec![0, 0] } },
            entry("update", EntryPoint::Update, body),
            entry("draw", EntryPoint::Draw, vec![]),
        ],
    };
    let inputs = vec![InputState::new()];
    let mut c1 = WasmConsole::new(
        demo_rom(),
        1,
        &faulting(vec![GuestOp::StoreByte { mem: 3, offset: 0, value: 1 }]),
    )
    .unwrap();
    assert_eq!(
        c1.advance_frame(&inputs).unwrap_err(),
        GuestExecutionFault::MemoryOutOfRange { mem: 3 }
    );
    let mut c2 = WasmConsole::new(
        demo_rom(),
        1,
        &faulting(vec![GuestOp::StoreByte { mem: 0, offset: 8, value: 1 }]),
    )
    .unwrap();
    assert_eq!(
        c2.advance_frame(&inputs).unwrap_err(),
        GuestExecutionFault::ByteOutOfRange { mem: 0, offset: 8 }
    );
    let mut c3 = WasmConsole::new(
        demo_rom(),
        1,
        &faulting(vec![GuestOp::StoreFrame { offset: 100, value: 1 }]),
    )
    .unwrap();
    assert_eq!(
        c3.advance_frame(&inputs).unwrap_err(),
        GuestExecutionFault::FrameOutOfRange { offset: 100 }
    );
}

#[test]
fn fault_keeps_partial_state_and_skips_the_roll() {
    // The first instruction lands, the second faults: the frame is
    // abandoned mid-way, reported, and the button roll is skipped.
    let program = GuestProgram {
        exports: vec![
            entry("init", EntryPoint::Init, vec![]),
            Export { name: "m".to_string(), kind: ExportKind::Memory { initial: vec![0] } },
            entry(
                "update",
                EntryPoint::Update,
                vec![
                    GuestOp::StoreByte { mem: 0, offset: 0, value: 5 },
                    GuestOp::SetGlobal { index: 0, value: 1 },
                ],
            ),
            entry("draw", EntryPoint::Draw, vec![]),
        ],
    };
    let mut console = WasmConsole::new(demo_rom(), 1, &program).unwrap();
    let r = console.advance_frame(&vec![a_pressed()]);
    assert_eq!(r.unwrap_err(), GuestExecutionFault::GlobalOutOfRange { index: 0 });
    assert_eq!(console.instance.memories[0][0], 5);
    // Previous buttons were not rolled: the frame never finished.
    assert_eq!(console.contexts.input_context.input_entries[0].previous.bits, 0);
}
