use analogue::editor::command_for;
use analogue::editor::Action;
use analogue::editor::Axis;
use analogue::editor::Command;
use analogue::editor::Editor;
use analogue::editor::InputEvent;
use analogue::editor::Key;
use analogue::editor::ModeKind;
use analogue::editor::StockWave;
use analogue::editor::TraceKind;

fn editor_with(count: usize) -> Editor {
    let mut editor = Editor::new();
    for _ in 0..count {
        editor.goto_add_mode();
        let action = editor.handle(InputEvent::KeyPressed(Key::Key2));
        assert_eq!(action, Action::Append { wave: StockWave::Sine });
    }
    editor
}

#[test]
fn a_new_session_waits_for_its_first_signal() {
    let editor = Editor::new();
    assert_eq!(editor.count(), 0);
    assert_eq!(editor.selection(), 0);
    assert_eq!(editor.mode_kind(), ModeKind::AddSignal);
    assert!(!editor.shift_key_is_down());
    assert!(!editor.ctrl_key_is_down());
}

#[test]
fn keys_pick_the_wave_to_add() {
    let mut editor = Editor::new();
    assert_eq!(
        editor.handle(InputEvent::KeyPressed(Key::Key1)),
        Action::Append { wave: StockWave::Square }
    );
    assert_eq!(editor.count(), 1);
    assert_eq!(editor.selection(), 0);
    assert_eq!(editor.mode_kind(), ModeKind::Edit);
    editor.goto_add_mode();
    assert_eq!(
        editor.handle(InputEvent::KeyPressed(Key::Key2)),
        Action::Append { wave: StockWave::Sine }
    );
    assert_eq!(editor.count(), 2);
    assert_eq!(editor.selection(), 1);
    assert_eq!(editor.mode_kind(), ModeKind::Edit);
    assert_eq!(editor.handle(InputEvent::KeyPressed(Key::O)), Action::Nothing);
    assert_eq!(editor.mode_kind(), ModeKind::AddSignal);
    assert_eq!(
        editor.handle(InputEvent::KeyPressed(Key::O)),
        Action::Append { wave: StockWave::Sine }
    );
    assert_eq!(editor.count(), 3);
    assert_eq!(editor.selection(), 2);
}

#[test]
fn other_keys_do_nothing_while_a_signal_is_added() {
    let mut editor = Editor::new();
    for key in [Key::H, Key::L, Key::U, Key::D, Key::J, Key::K, Key::X, Key::Slash, Key::Other] {
        assert_eq!(editor.handle(InputEvent::KeyPressed(key)), Action::Nothing);
        assert_eq!(editor.handle(InputEvent::KeyReleased(key)), Action::Nothing);
    }
    assert_eq!(editor.handle(InputEvent::KeyPressed(Key::LShift)), Action::Nothing);
    assert_eq!(editor.handle(InputEvent::KeyPressed(Key::RControl)), Action::Nothing);
    assert_eq!(editor.handle(InputEvent::Other), Action::Nothing);
    assert!(!editor.shift_key_is_down());
    assert!(!editor.ctrl_key_is_down());
    assert_eq!(editor.count(), 0);
    assert_eq!(editor.mode_kind(), ModeKind::AddSignal);
}

#[test]
fn plain_keys_adjust_the_selected_signal() {
    let mut editor = editor_with(3);
    editor.incr_selection(-1);
    assert_eq!(editor.selection(), 1);
    assert_eq!(
        editor.handle(InputEvent::KeyPressed(Key::H)),
        Action::ShiftPhase { index: 1, forward: false, fine: false }
    );
    assert_eq!(
        editor.handle(InputEvent::KeyPressed(Key::L)),
        Action::ShiftPhase { index: 1, forward: true, fine: false }
    );
    assert_eq!(
        editor.handle(InputEvent::KeyPressed(Key::U)),
        Action::ChangeFrequency { index: 1, up: true, fine: false }
    );
    assert_eq!(
        editor.handle(InputEvent::KeyPressed(Key::D)),
        Action::ChangeFrequency { index: 1, up: false, fine: false }
    );
    assert_eq!(editor.count(), 3);
    assert_eq!(editor.selection(), 1);
}

#[test]
fn shifted_keys_scale_the_signal_and_move_the_view() {
    let mut editor = editor_with(2);
    assert_eq!(editor.handle(InputEvent::KeyPressed(Key::RShift)), Action::Nothing);
    assert!(editor.shift_key_is_down());
    assert_eq!(
        editor.handle(InputEvent::KeyPressed(Key::H)),
        Action::PanView { axis: Axis::Time, forward: false, fine: false }
    );
    assert_eq!(
        editor.handle(InputEvent::KeyPressed(Key::L)),
        Action::PanView { axis: Axis::Time, forward: true, fine: false }
    );
    assert_eq!(
        editor.handle(InputEvent::KeyPressed(Key::J)),
        Action::PanView { axis: Axis::Amplitude, forward: false, fine: false }
    );
    assert_eq!(
        editor.handle(InputEvent::KeyPressed(Key::K)),
        Action::PanView { axis: Axis::Amplitude, forward: true, fine: false }
    );
    assert_eq!(
        editor.handle(InputEvent::KeyPressed(Key::U)),
        Action::Scale { index: 1, up: true, fine: false }
    );
    assert_eq!(
        editor.handle(InputEvent::KeyPressed(Key::D)),
        Action::Scale { index: 1, up: false, fine: false }
    );
    assert_eq!(editor.handle(InputEvent::KeyReleased(Key::RShift)), Action::Nothing);
    assert!(!editor.shift_key_is_down());
    assert_eq!(
        editor.handle(InputEvent::KeyPressed(Key::U)),
        Action::ChangeFrequency { index: 1, up: true, fine: false }
    );
}

#[test]
fn the_control_key_asks_for_fine_steps() {
    let mut editor = editor_with(1);
    assert_eq!(editor.handle(InputEvent::KeyPressed(Key::LControl)), Action::Nothing);
    assert!(editor.ctrl_key_is_down());
    assert_eq!(
        editor.handle(InputEvent::KeyPressed(Key::L)),
        Action::ShiftPhase { index: 0, forward: true, fine: true }
    );
    assert_eq!(editor.handle(InputEvent::KeyPressed(Key::LShift)), Action::Nothing);
    assert_eq!(
        editor.handle(InputEvent::KeyPressed(Key::U)),
        Action::Scale { index: 0, up: true, fine: true }
    );
    assert_eq!(
        editor.handle(InputEvent::KeyPressed(Key::K)),
        Action::PanView { axis: Axis::Amplitude, forward: true, fine: true }
    );
    assert_eq!(editor.handle(InputEvent::KeyReleased(Key::LControl)), Action::Nothing);
    assert!(!editor.ctrl_key_is_down());
    assert!(editor.shift_key_is_down());
}

#[test]
fn the_question_mark_goes_back_to_adding() {
    let mut editor = editor_with(1);
    assert_eq!(editor.handle(InputEvent::KeyPressed(Key::Slash)), Action::Nothing);
    assert_eq!(editor.mode_kind(), ModeKind::Edit);
    editor.handle(InputEvent::KeyPressed(Key::LShift));
    assert_eq!(editor.handle(InputEvent::KeyPressed(Key::Slash)), Action::Nothing);
    assert_eq!(editor.mode_kind(), ModeKind::AddSignal);
    assert_eq!(editor.count(), 1);
}

#[test]
fn the_selection_goes_round_at_both_ends() {
    let mut editor = editor_with(3);
    assert_eq!(editor.selection(), 2);
    assert_eq!(editor.handle(InputEvent::KeyPressed(Key::J)), Action::Nothing);
    assert_eq!(editor.selection(), 0);
    assert_eq!(editor.handle(InputEvent::KeyPressed(Key::J)), Action::Nothing);
    assert_eq!(editor.selection(), 1);
    assert_eq!(editor.handle(InputEvent::KeyPressed(Key::K)), Action::Nothing);
    assert_eq!(editor.handle(InputEvent::KeyPressed(Key::K)), Action::Nothing);
    assert_eq!(editor.selection(), 2);
}

#[test]
fn the_selection_moves_by_any_number_of_places() {
    let mut editor = editor_with(5);
    editor.incr_selection(-4);
    assert_eq!(editor.selection(), 0);
    editor.incr_selection(7);
    assert_eq!(editor.selection(), 2);
    editor.incr_selection(-13);
    assert_eq!(editor.selection(), 4);
    editor.incr_selection(0);
    assert_eq!(editor.selection(), 4);
    editor.incr_selection(i32::MAX);
    assert_eq!(editor.selection(), (4 + i32::MAX as i64).rem_euclid(5) as usize);
    editor.incr_selection(i32::MIN);
    assert_eq!(
        editor.selection(),
        ((4 + i32::MAX as i64).rem_euclid(5) + i32::MIN as i64).rem_euclid(5) as usize
    );
}

#[test]
fn removing_keeps_the_selection_in_place_where_it_can() {
    let mut editor = editor_with(4);
    editor.incr_selection(-2);
    assert_eq!(editor.selection(), 1);
    assert_eq!(editor.handle(InputEvent::KeyPressed(Key::X)), Action::Remove { index: 1 });
    assert_eq!(editor.count(), 3);
    assert_eq!(editor.selection(), 1);
    assert_eq!(editor.mode_kind(), ModeKind::Edit);
}

#[test]
fn removing_the_last_of_the_list_selects_the_one_before() {
    let mut editor = editor_with(3);
    assert_eq!(editor.selection(), 2);
    assert_eq!(editor.remove_signal(), Some(2));
    assert_eq!(editor.count(), 2);
    assert_eq!(editor.selection(), 1);
    assert_eq!(editor.remove_signal(), Some(1));
    assert_eq!(editor.selection(), 0);
    assert_eq!(editor.mode_kind(), ModeKind::Edit);
}

#[test]
fn removing_the_only_signal_asks_for_a_new_one() {
    let mut editor = editor_with(1);
    assert_eq!(editor.handle(InputEvent::KeyPressed(Key::X)), Action::Remove { index: 0 });
    assert_eq!(editor.count(), 0);
    assert_eq!(editor.selection(), 0);
    assert_eq!(editor.mode_kind(), ModeKind::AddSignal);
    assert_eq!(editor.remove_signal(), None);
    assert_eq!(editor.count(), 0);
    assert_eq!(editor.mode_kind(), ModeKind::AddSignal);
}

#[test]
fn pushing_selects_the_new_signal() {
    let mut editor = Editor::new();
    editor.push_signal_and_goto_edit_mode();
    editor.push_signal_and_goto_edit_mode();
    editor.incr_selection(1);
    assert_eq!(editor.selection(), 0);
    editor.push_signal_and_goto_edit_mode();
    assert_eq!(editor.count(), 3);
    assert_eq!(editor.selection(), 2);
    assert_eq!(editor.mode_kind(), ModeKind::Edit);
}

#[test]
fn events_are_read_by_mode_and_shift_alone() {
    assert_eq!(
        command_for(ModeKind::Edit, false, InputEvent::KeyPressed(Key::J)),
        Command::Select { forward: true }
    );
    assert_eq!(
        command_for(ModeKind::Edit, false, InputEvent::KeyPressed(Key::K)),
        Command::Select { forward: false }
    );
    assert_eq!(command_for(ModeKind::Edit, true, InputEvent::KeyPressed(Key::X)), Command::Remove);
    assert_eq!(command_for(ModeKind::Edit, false, InputEvent::KeyPressed(Key::O)), Command::GotoAdd);
    assert_eq!(
        command_for(ModeKind::Edit, false, InputEvent::KeyReleased(Key::LShift)),
        Command::SetShift { down: false }
    );
    assert_eq!(
        command_for(ModeKind::Edit, false, InputEvent::KeyPressed(Key::RControl)),
        Command::SetCtrl { down: true }
    );
    assert_eq!(command_for(ModeKind::Edit, false, InputEvent::KeyReleased(Key::H)), Command::Ignore);
    assert_eq!(command_for(ModeKind::Edit, true, InputEvent::KeyPressed(Key::Key1)), Command::Ignore);
    assert_eq!(command_for(ModeKind::Edit, true, InputEvent::Other), Command::Ignore);
    assert_eq!(
        command_for(ModeKind::AddSignal, true, InputEvent::KeyPressed(Key::Key1)),
        Command::Append { wave: StockWave::Square }
    );
    assert_eq!(
        command_for(ModeKind::AddSignal, false, InputEvent::KeyReleased(Key::Key1)),
        Command::Ignore
    );
}

#[test]
fn traces_are_told_apart_by_their_place() {
    let mut editor = editor_with(3);
    editor.incr_selection(-1);
    assert_eq!(editor.trace_kind(0), TraceKind::Plain);
    assert_eq!(editor.trace_kind(1), TraceKind::Selected);
    assert_eq!(editor.trace_kind(2), TraceKind::Plain);
    assert_eq!(editor.trace_kind(3), TraceKind::Combined);
    assert_eq!(editor.trace_kind(4), TraceKind::Plain);
    let empty = Editor::new();
    assert_eq!(empty.trace_kind(0), TraceKind::Combined);
}

#[test]
fn actions_name_signals_of_the_list() {
    let keys = [
        Key::H, Key::L, Key::U, Key::D, Key::J, Key::K, Key::X, Key::O, Key::Slash, Key::Key1,
        Key::Key2, Key::LShift, Key::RShift, Key::LControl, Key::RControl, Key::Other,
    ];
    let mut editor = Editor::new();
    let mut seed: u32 = 12345;
    for _ in 0..5000 {
        seed = seed.wrapping_mul(1_103_515_245).wrapping_add(12_345);
        let key = keys[(seed >> 16) as usize % keys.len()];
        let event = if (seed >> 8) % 4 == 0 {
            InputEvent::KeyReleased(key)
        } else {
            InputEvent::KeyPressed(key)
        };
        let before = editor.count();
        let index = match editor.handle(event) {
            Action::ShiftPhase { index, .. } => Some(index),
            Action::Scale { index, .. } => Some(index),
            Action::ChangeFrequency { index, .. } => Some(index),
            Action::Remove { index } => Some(index),
            _ => None,
        };
        if let Some(index) = index {
            assert!(index < before);
        }
        if editor.count() == 0 {
            assert_eq!(editor.selection(), 0);
            assert_eq!(editor.mode_kind(), ModeKind::AddSignal);
        } else {
            assert!(editor.selection() < editor.count());
        }
    }
}
