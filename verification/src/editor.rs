//! The editing session of an interactive signal workbench.
//!
//! A host shows a list of signals and lets the user add, select, adjust and
//! remove them with the keyboard. What each key means, and how the selection
//! moves, is decided here; the host keeps the signals themselves and carries
//! out the action that each event leads to.

use vstd::arithmetic::div_mod::lemma_div_pos_is_pos;
use vstd::arithmetic::div_mod::lemma_fundamental_div_mod;
use vstd::arithmetic::div_mod::lemma_fundamental_div_mod_converse;
use vstd::prelude::*;

verus! {

/// What the keyboard is used for at the moment.
#[derive(Debug, Clone, Copy, PartialEq, Eq, Structural)]
pub enum ModeKind {
    /// The next key picks a stock wave to add.
    AddSignal,
    /// Keys adjust the selected signal or move the selection.
    Edit,
}

/// The keys that the session knows; all others are `Other`.
#[derive(Debug, Clone, Copy, PartialEq, Eq, Structural)]
pub enum Key {
    H,
    L,
    U,
    D,
    J,
    K,
    X,
    O,
    Slash,
    Key1,
    Key2,
    LShift,
    RShift,
    LControl,
    RControl,
    Other,
}

/// An event of the host's window, as far as the session cares.
#[derive(Debug, Clone, Copy, PartialEq, Eq, Structural)]
pub enum InputEvent {
    KeyPressed(Key),
    KeyReleased(Key),
    Other,
}

/// The waves that can be added to the list.
#[derive(Debug, Clone, Copy, PartialEq, Eq, Structural)]
pub enum StockWave {
    Square,
    Sine,
}

/// The two directions in which the plot can be moved.
#[derive(Debug, Clone, Copy, PartialEq, Eq, Structural)]
pub enum Axis {
    Time,
    Amplitude,
}

/// What an event asks for, before the state of the session is looked at.
#[derive(Debug, Clone, Copy, PartialEq, Eq, Structural)]
pub enum Command {
    Ignore,
    PanView { axis: Axis, forward: bool },
    ShiftPhase { forward: bool },
    Scale { up: bool },
    ChangeFrequency { up: bool },
    Select { forward: bool },
    Remove,
    GotoAdd,
    SetShift { down: bool },
    SetCtrl { down: bool },
    Append { wave: StockWave },
}

/// What the host has to do once the session has taken an event in. Where a
/// signal is named, `index` is its place in the host's list; `fine` asks for
/// a tenth of the usual step.
#[derive(Debug, Clone, Copy, PartialEq, Eq, Structural)]
pub enum Action {
    Nothing,
    PanView { axis: Axis, forward: bool, fine: bool },
    ShiftPhase { index: usize, forward: bool, fine: bool },
    Scale { index: usize, up: bool, fine: bool },
    ChangeFrequency { index: usize, up: bool, fine: bool },
    Append { wave: StockWave },
    Remove { index: usize },
}

impl Action {
    /// The place in the host's list that the action touches, where it names one.
    pub open spec fn index_spec(self) -> Option<usize> {
        match self {
            Action::ShiftPhase { index, .. } => Some(index),
            Action::Scale { index, .. } => Some(index),
            Action::ChangeFrequency { index, .. } => Some(index),
            Action::Remove { index } => Some(index),
            _ => None,
        }
    }
}

/// How a trace of the plot stands out from the others.
#[derive(Debug, Clone, Copy, PartialEq, Eq, Structural)]
pub enum TraceKind {
    /// The sum of all signals, drawn after the last of them.
    Combined,
    /// The signal that the keys adjust.
    Selected,
    /// Any other signal of the list.
    Plain,
}

/// The kind of the trace drawn in place `index`, counting the signals of the
/// list first and their sum after them.
pub open spec fn trace_kind_spec(model: EditorModel, index: nat) -> TraceKind {
    if index == model.count {
        TraceKind::Combined
    } else if index == model.selection {
        TraceKind::Selected
    } else {
        TraceKind::Plain
    }
}

/// The meaning of an event in a given mode, with the shift key up or down.
pub open spec fn command_spec(mode: ModeKind, shift: bool, event: InputEvent) -> Command {
    match mode {
        ModeKind::Edit => match event {
            InputEvent::KeyPressed(Key::H) => if shift {
                Command::PanView { axis: Axis::Time, forward: false }
            } else {
                Command::ShiftPhase { forward: false }
            },
            InputEvent::KeyPressed(Key::L) => if shift {
                Command::PanView { axis: Axis::Time, forward: true }
            } else {
                Command::ShiftPhase { forward: true }
            },
            InputEvent::KeyPressed(Key::U) => if shift {
                Command::Scale { up: true }
            } else {
                Command::ChangeFrequency { up: true }
            },
            InputEvent::KeyPressed(Key::D) => if shift {
                Command::Scale { up: false }
            } else {
                Command::ChangeFrequency { up: false }
            },
            InputEvent::KeyPressed(Key::J) => if shift {
                Command::PanView { axis: Axis::Amplitude, forward: false }
            } else {
                Command::Select { forward: true }
            },
            InputEvent::KeyPressed(Key::K) => if shift {
                Command::PanView { axis: Axis::Amplitude, forward: true }
            } else {
                Command::Select { forward: false }
            },
            InputEvent::KeyPressed(Key::X) => Command::Remove,
            InputEvent::KeyPressed(Key::O) => Command::GotoAdd,
            InputEvent::KeyPressed(Key::LShift) | InputEvent::KeyPressed(Key::RShift) => {
                Command::SetShift { down: true }
            },
            InputEvent::KeyPressed(Key::LControl) | InputEvent::KeyPressed(Key::RControl) => {
                Command::SetCtrl { down: true }
            },
            InputEvent::KeyPressed(Key::Slash) => if shift {
                Command::GotoAdd
            } else {
                Command::Ignore
            },
            InputEvent::KeyReleased(Key::LShift) | InputEvent::KeyReleased(Key::RShift) => {
                Command::SetShift { down: false }
            },
            InputEvent::KeyReleased(Key::LControl) | InputEvent::KeyReleased(Key::RControl) => {
                Command::SetCtrl { down: false }
            },
            _ => Command::Ignore,
        },
        ModeKind::AddSignal => match event {
            InputEvent::KeyPressed(Key::Key1) => Command::Append { wave: StockWave::Square },
            InputEvent::KeyPressed(Key::Key2) => Command::Append { wave: StockWave::Sine },
            InputEvent::KeyPressed(Key::O) => Command::Append { wave: StockWave::Sine },
            _ => Command::Ignore,
        },
    }
}

/// The place that the selection reaches from `selection` after `amt` steps
/// through a list of `count` signals, going round at both ends.
pub open spec fn selection_after(selection: nat, count: nat, amt: int) -> nat
    recommends
        count > 0,
{
    ((selection + amt) % (count as int)) as nat
}

/// The state of a session as plain numbers and flags.
pub struct EditorModel {
    /// How many signals the host's list holds.
    pub count: nat,
    /// The place of the selected signal in that list.
    pub selection: nat,
    pub mode: ModeKind,
    /// Whether a shift key is held down.
    pub shift: bool,
    /// Whether a control key is held down.
    pub ctrl: bool,
}

impl EditorModel {
    /// A session is sound when the selection names a signal of the list, and
    /// an empty list leaves nothing to edit.
    pub open spec fn wf(self) -> bool {
        if self.count == 0 {
            self.selection == 0 && self.mode == ModeKind::AddSignal
        } else {
            self.selection < self.count
        }
    }

    /// The session after one more signal has been put at the end of the list:
    /// the new signal is selected and ready to be edited.
    pub open spec fn pushed(self) -> EditorModel {
        EditorModel { count: self.count + 1, selection: self.count, mode: ModeKind::Edit, ..self }
    }

    /// The session after the selected signal has been taken out of the list.
    /// The selection stays in place unless that place is gone; once the list
    /// is empty the session asks for a new signal.
    pub open spec fn removed(self) -> EditorModel {
        if self.count == 0 {
            self
        } else if self.count == 1 {
            EditorModel { count: 0, mode: ModeKind::AddSignal, ..self }
        } else if self.selection == self.count - 1 {
            EditorModel {
                count: (self.count - 1) as nat,
                selection: (self.count - 2) as nat,
                ..self
            }
        } else {
            EditorModel { count: (self.count - 1) as nat, ..self }
        }
    }

    /// The session after the selection has moved by `amt` places.
    pub open spec fn moved(self, amt: int) -> EditorModel {
        EditorModel { selection: selection_after(self.selection, self.count, amt), ..self }
    }

    /// The session after a command has been taken in. A signal is appended
    /// only while the count still fits in a machine word.
    pub open spec fn apply(self, command: Command) -> EditorModel {
        match command {
            Command::Select { forward } => self.moved(
                if forward {
                    1
                } else {
                    -1
                },
            ),
            Command::Remove => self.removed(),
            Command::GotoAdd => EditorModel { mode: ModeKind::AddSignal, ..self },
            Command::SetShift { down } => EditorModel { shift: down, ..self },
            Command::SetCtrl { down } => EditorModel { ctrl: down, ..self },
            Command::Append { wave } => if self.count < usize::MAX {
                self.pushed()
            } else {
                self
            },
            _ => self,
        }
    }

    /// What the host has to do for a command that reaches the session in this
    /// state.
    pub open spec fn action(self, command: Command) -> Action {
        match command {
            Command::PanView { axis, forward } => Action::PanView { axis, forward, fine: self.ctrl },
            Command::ShiftPhase { forward } => Action::ShiftPhase {
                index: self.selection as usize,
                forward,
                fine: self.ctrl,
            },
            Command::Scale { up } => Action::Scale {
                index: self.selection as usize,
                up,
                fine: self.ctrl,
            },
            Command::ChangeFrequency { up } => Action::ChangeFrequency {
                index: self.selection as usize,
                up,
                fine: self.ctrl,
            },
            Command::Remove => if self.count > 0 {
                Action::Remove { index: self.selection as usize }
            } else {
                Action::Nothing
            },
            Command::Append { wave } => if self.count < usize::MAX {
                Action::Append { wave }
            } else {
                Action::Nothing
            },
            _ => Action::Nothing,
        }
    }
}

/// In edit mode every key event is read as the command that is bound to it;
/// while a signal is being added, only the keys that pick a wave count.
pub fn command_for(mode: ModeKind, shift: bool, event: InputEvent) -> (command: Command)
    ensures
        command == command_spec(mode, shift, event),
{
    match mode {
        ModeKind::Edit => match event {
            InputEvent::KeyPressed(key) => match key {
                Key::H => if shift {
                    Command::PanView { axis: Axis::Time, forward: false }
                } else {
                    Command::ShiftPhase { forward: false }
                },
                Key::L => if shift {
                    Command::PanView { axis: Axis::Time, forward: true }
                } else {
                    Command::ShiftPhase { forward: true }
                },
                Key::U => if shift {
                    Command::Scale { up: true }
                } else {
                    Command::ChangeFrequency { up: true }
                },
                Key::D => if shift {
                    Command::Scale { up: false }
                } else {
                    Command::ChangeFrequency { up: false }
                },
                Key::J => if shift {
                    Command::PanView { axis: Axis::Amplitude, forward: false }
                } else {
                    Command::Select { forward: true }
                },
                Key::K => if shift {
                    Command::PanView { axis: Axis::Amplitude, forward: true }
                } else {
                    Command::Select { forward: false }
                },
                Key::X => Command::Remove,
                Key::O => Command::GotoAdd,
                Key::LShift | Key::RShift => Command::SetShift { down: true },
                Key::LControl | Key::RControl => Command::SetCtrl { down: true },
                Key::Slash => if shift {
                    Command::GotoAdd
                } else {
                    Command::Ignore
                },
                _ => Command::Ignore,
            },
            InputEvent::KeyReleased(key) => match key {
                Key::LShift | Key::RShift => Command::SetShift { down: false },
                Key::LControl | Key::RControl => Command::SetCtrl { down: false },
                _ => Command::Ignore,
            },
            InputEvent::Other => Command::Ignore,
        },
        ModeKind::AddSignal => match event {
            InputEvent::KeyPressed(key) => match key {
                Key::Key1 => Command::Append { wave: StockWave::Square },
                Key::Key2 | Key::O => Command::Append { wave: StockWave::Sine },
                _ => Command::Ignore,
            },
            _ => Command::Ignore,
        },
    }
}

/// The session: how many signals there are, which one is selected, what the
/// keyboard is used for, and which modifier keys are held down.
#[derive(Debug)]
pub struct Editor {
    count: usize,
    selection: usize,
    mode: ModeKind,
    shift: bool,
    ctrl: bool,
}

impl Editor {
    /// The session as plain numbers and flags.
    pub closed spec fn view(&self) -> EditorModel {
        EditorModel {
            count: self.count as nat,
            selection: self.selection as nat,
            mode: self.mode,
            shift: self.shift,
            ctrl: self.ctrl,
        }
    }

    #[verifier::type_invariant]
    spec fn sound(&self) -> bool {
        self@.wf()
    }

    /// A session with no signals, waiting for the first to be added.
    pub fn new() -> (editor: Editor)
        ensures
            editor@ == (EditorModel {
                count: 0,
                selection: 0,
                mode: ModeKind::AddSignal,
                shift: false,
                ctrl: false,
            }),
    {
        Editor { count: 0, selection: 0, mode: ModeKind::AddSignal, shift: false, ctrl: false }
    }

    /// How many signals the list holds.
    pub fn count(&self) -> (n: usize)
        ensures
            n == self@.count,
    {
        self.count
    }

    /// The place of the selected signal. While the list is not empty it names
    /// one of its signals.
    pub fn selection(&self) -> (n: usize)
        ensures
            n == self@.selection,
            self@.wf(),
    {
        proof {
            use_type_invariant(self);
        }
        self.selection
    }

    /// What the keyboard is used for at the moment.
    pub fn mode_kind(&self) -> (mode: ModeKind)
        ensures
            mode == self@.mode,
    {
        self.mode
    }

    /// Whether a shift key is held down.
    pub fn shift_key_is_down(&self) -> (down: bool)
        ensures
            down == self@.shift,
    {
        self.shift
    }

    /// Whether a control key is held down.
    pub fn ctrl_key_is_down(&self) -> (down: bool)
        ensures
            down == self@.ctrl,
    {
        self.ctrl
    }

    /// How the trace in place `index` is to be drawn: the places of the list
    /// come first, the place after them shows the sum of all signals.
    pub fn trace_kind(&self, index: usize) -> (kind: TraceKind)
        ensures
            kind == trace_kind_spec(self@, index as nat),
    {
        if index == self.count {
            TraceKind::Combined
        } else if index == self.selection {
            TraceKind::Selected
        } else {
            TraceKind::Plain
        }
    }

    /// Moves the selection by `amt` places, going round at both ends of the
    /// list. There has to be a signal to select.
    pub fn incr_selection(&mut self, amt: i32)
        requires
            old(self)@.count > 0,
        ensures
            final(self)@ == old(self)@.moved(amt as int),
            final(self)@.wf(),
    {
        proof {
            use_type_invariant(&*self);
        }
        let count: usize = self.count;
        let selection: usize = self.selection;
        let moved: usize = if amt >= 0 {
            let step: usize = (amt as usize) % count;
            proof {
                let whole: int = (amt as int) / (count as int);
                assert(amt as int == (count as int) * whole + step as int) by {
                    lemma_fundamental_div_mod(amt as int, count as int);
                }
                assert(0 <= whole) by {
                    lemma_div_pos_is_pos(amt as int, count as int);
                }
                if step < count - selection {
                    lemma_wraps_to(selection as int + amt as int, count as int, whole, selection + step);
                } else {
                    assert((whole + 1) * (count as int) == whole * (count as int) + count as int)
                        by (nonlinear_arith);
                    lemma_wraps_to(
                        selection as int + amt as int,
                        count as int,
                        whole + 1,
                        step - (count - selection),
                    );
                }
            }
            if step < count - selection {
                selection + step
            } else {
                step - (count - selection)
            }
        } else {
            let back: usize = ((-(amt as i64)) as usize) % count;
            proof {
                let whole: int = (-(amt as int)) / (count as int);
                assert(-(amt as int) == (count as int) * whole + back as int) by {
                    lemma_fundamental_div_mod(-(amt as int), count as int);
                }
                assert((-whole) * (count as int) == -(whole * (count as int))) by (nonlinear_arith);
                assert((-whole - 1) * (count as int) == -(whole * (count as int)) - count as int)
                    by (nonlinear_arith);
                if back <= selection {
                    lemma_wraps_to(selection as int + amt as int, count as int, -whole, selection - back);
                } else {
                    lemma_wraps_to(
                        selection as int + amt as int,
                        count as int,
                        -whole - 1,
                        count - (back - selection),
                    );
                }
            }
            if back <= selection {
                selection - back
            } else {
                count - (back - selection)
            }
        };
        self.selection = moved;
    }

    /// Takes note of a signal that the host has put at the end of its list:
    /// the signal is selected and the keyboard edits it. The count has to
    /// have room for one more.
    pub fn push_signal_and_goto_edit_mode(&mut self)
        requires
            old(self)@.count < usize::MAX,
        ensures
            final(self)@ == old(self)@.pushed(),
            final(self)@.wf(),
    {
        proof {
            use_type_invariant(&*self);
        }
        let count: usize = self.count;
        *self = Editor {
            count: count + 1,
            selection: count,
            mode: ModeKind::Edit,
            shift: self.shift,
            ctrl: self.ctrl,
        };
    }

    /// Takes the selected signal out of the session and says which place the
    /// host has to clear in its list; with an empty list there is nothing to
    /// take out.
    pub fn remove_signal(&mut self) -> (removed: Option<usize>)
        ensures
            final(self)@ == old(self)@.removed(),
            final(self)@.wf(),
            old(self)@.count == 0 <==> removed.is_none(),
            removed matches Some(index) ==> index == old(self)@.selection && index < old(self)@.count,
    {
        proof {
            use_type_invariant(&*self);
        }
        let count: usize = self.count;
        let selection: usize = self.selection;
        if count == 0 {
            None
        } else {
            let left: usize = count - 1;
            let mode = if left == 0 {
                ModeKind::AddSignal
            } else {
                self.mode
            };
            let kept: usize = if left != 0 && selection == left {
                left - 1
            } else {
                selection
            };
            *self = Editor { count: left, selection: kept, mode, shift: self.shift, ctrl: self.ctrl };
            Some(selection)
        }
    }

    /// Lets the next key pick a wave to add.
    pub fn goto_add_mode(&mut self)
        ensures
            final(self)@ == (EditorModel { mode: ModeKind::AddSignal, ..old(self)@ }),
            final(self)@.wf(),
    {
        proof {
            use_type_invariant(&*self);
        }
        self.mode = ModeKind::AddSignal;
    }

    /// Takes one event in: reads it as a command, changes the session
    /// accordingly, and says what is left for the host to do.
    pub fn handle(&mut self, event: InputEvent) -> (action: Action)
        ensures
            final(self)@ == old(self)@.apply(command_spec(old(self)@.mode, old(self)@.shift, event)),
            action == old(self)@.action(command_spec(old(self)@.mode, old(self)@.shift, event)),
            action.index_spec() matches Some(index) ==> index < old(self)@.count,
            final(self)@.wf(),
    {
        proof {
            use_type_invariant(&*self);
        }
        let command = command_for(self.mode, self.shift, event);
        let fine: bool = self.ctrl;
        let index: usize = self.selection;
        match command {
            Command::Ignore => Action::Nothing,
            Command::PanView { axis, forward } => Action::PanView { axis, forward, fine },
            Command::ShiftPhase { forward } => Action::ShiftPhase { index, forward, fine },
            Command::Scale { up } => Action::Scale { index, up, fine },
            Command::ChangeFrequency { up } => Action::ChangeFrequency { index, up, fine },
            Command::Select { forward } => {
                self.incr_selection(
                    if forward {
                        1
                    } else {
                        -1
                    },
                );
                Action::Nothing
            },
            Command::Remove => {
                match self.remove_signal() {
                    Some(index) => Action::Remove { index },
                    None => Action::Nothing,
                }
            },
            Command::GotoAdd => {
                self.goto_add_mode();
                Action::Nothing
            },
            Command::SetShift { down } => {
                self.shift = down;
                Action::Nothing
            },
            Command::SetCtrl { down } => {
                self.ctrl = down;
                Action::Nothing
            },
            Command::Append { wave } => {
                if self.count < usize::MAX {
                    self.push_signal_and_goto_edit_mode();
                    Action::Append { wave }
                } else {
                    Action::Nothing
                }
            },
        }
    }
}

/// A number that lies `whole` list lengths away from a place within the list
/// wraps round to that place.
proof fn lemma_wraps_to(x: int, count: int, whole: int, place: int)
    requires
        count > 0,
        0 <= place < count,
        x == whole * count + place,
    ensures
        x % count == place,
{
    lemma_fundamental_div_mod_converse(x, count, whole, place);
}

} // verus!
