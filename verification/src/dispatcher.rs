//! The state machine behind the tray menu.
//!
//! An activation of a menu item comes in as the item's key. The dispatcher
//! decides whether the activation is legal, changes the recording flag and
//! answers with the actions that the application has to carry out, in the
//! order in which it has to carry them out.

use vstd::prelude::*;
use vstd::string::*;
use crate::event::OutboundEvent;
use crate::flag::RecordingFlag;
use crate::menu::{menu_for, EntryView, ItemId, MenuDescription};

verus! {

/// Something the application does on behalf of the dispatcher.
#[derive(Debug, PartialEq, Eq)]
pub enum Action {
    /// Publish the event. A failed delivery is of no consequence.
    Emit(OutboundEvent),
    /// Put this menu on the tray icon in place of the one that is there.
    InstallMenu(MenuDescription),
    /// End the process with this exit code.
    Exit(i32),
    /// Tell whoever reads the log that an activation was not understood.
    Diagnose(String),
}

/// An action as a mathematical value.
pub enum ActionView {
    Emit(OutboundEvent),
    InstallMenu(Seq<EntryView>),
    Exit(i32),
    Diagnose(Seq<char>),
}

impl View for Action {
    type V = ActionView;

    open spec fn view(&self) -> ActionView {
        match self {
            Action::Emit(event) => ActionView::Emit(*event),
            Action::InstallMenu(menu) => ActionView::InstallMenu(menu@),
            Action::Exit(code) => ActionView::Exit(*code),
            Action::Diagnose(notice) => ActionView::Diagnose(notice@),
        }
    }
}

/// The views of a list of actions, in the same order.
pub open spec fn views(actions: Seq<Action>) -> Seq<ActionView> {
    actions.map_values(|action: Action| action@)
}

/// The state of a dispatcher as a mathematical value.
pub struct DispatcherState {
    /// The recording flag: `false` is idle, `true` is recording.
    pub recording: bool,
    /// Whether the dispatcher has asked for the end of the process.
    pub finished: bool,
}

impl DispatcherState {
    /// Idle, and the process goes on.
    pub open spec fn initial() -> DispatcherState {
        DispatcherState { recording: false, finished: false }
    }
}

/// What the log says of a key that names no item.
pub open spec fn unhandled_notice(key: Seq<char>) -> Seq<char> {
    "menu item "@ + key + " not handled"@
}

/// The state after the activation of the item named `key`.
///
/// `start` leads to recording and `stop` to idle, from wherever they are
/// chosen; `quit` ends the process; nothing else changes the state, and
/// nothing at all changes it once the process is to end.
pub open spec fn advance(state: DispatcherState, key: Seq<char>) -> DispatcherState {
    if state.finished {
        state
    } else {
        match ItemId::recognize(key) {
            Some(ItemId::Start) => DispatcherState { recording: true, ..state },
            Some(ItemId::Stop) => DispatcherState { recording: false, ..state },
            Some(ItemId::History) => state,
            Some(ItemId::Quit) => DispatcherState { finished: true, ..state },
            None => state,
        }
    }
}

/// The actions that the activation of the item named `key` calls for.
///
/// A `start` while recording and a `stop` while idle call for nothing. A
/// change of the flag is followed by its event and then by the menu of the
/// new flag.
pub open spec fn react(state: DispatcherState, key: Seq<char>) -> Seq<ActionView> {
    if state.finished {
        seq![]
    } else {
        match ItemId::recognize(key) {
            Some(ItemId::Start) => if state.recording {
                seq![]
            } else {
                seq![
                    ActionView::Emit(OutboundEvent::StartRecording),
                    ActionView::InstallMenu(menu_for(true)),
                ]
            },
            Some(ItemId::Stop) => if state.recording {
                seq![
                    ActionView::Emit(OutboundEvent::StopRecording),
                    ActionView::InstallMenu(menu_for(false)),
                ]
            } else {
                seq![]
            },
            Some(ItemId::History) => seq![ActionView::Emit(OutboundEvent::ShowHistory)],
            Some(ItemId::Quit) => seq![ActionView::Exit(0)],
            None => seq![ActionView::Diagnose(unhandled_notice(key))],
        }
    }
}

/// The line for the log about a key that names no item.
pub fn unhandled_message(key: &str) -> (notice: String)
    ensures
        notice@ == unhandled_notice(key@),
{
    let mut notice = String::from_str("menu item ");
    notice.append(key);
    notice.append(" not handled");
    notice
}

/// Turns activations of menu items into changes of the recording flag and
/// actions for the application.
#[derive(Debug)]
pub struct Dispatcher {
    flag: RecordingFlag,
    finished: bool,
}

impl View for Dispatcher {
    type V = DispatcherState;

    closed spec fn view(&self) -> DispatcherState {
        DispatcherState { recording: self.flag@, finished: self.finished }
    }
}

impl Dispatcher {
    /// A dispatcher in the idle state.
    pub fn new() -> (dispatcher: Dispatcher)
        ensures
            dispatcher@ == DispatcherState::initial(),
    {
        Dispatcher { flag: RecordingFlag::new(), finished: false }
    }

    /// The recording flag, for those who only read it.
    pub fn flag(&self) -> (flag: &RecordingFlag)
        ensures
            flag@ == self@.recording,
    {
        &self.flag
    }

    /// The value of the recording flag.
    pub fn is_recording(&self) -> (recording: bool)
        ensures
            recording == self@.recording,
    {
        self.flag.read()
    }

    /// Whether `quit` was chosen.
    pub fn is_finished(&self) -> (finished: bool)
        ensures
            finished == self@.finished,
    {
        self.finished
    }

    /// Handles the activation of the menu item named `key`.
    ///
    /// The flag is written before the actions are handed out, and the menu
    /// among them is built from the flag as written.
    pub fn dispatch(&mut self, key: &str) -> (actions: Vec<Action>)
        ensures
            final(self)@ == advance(old(self)@, key@),
            views(actions@) == react(old(self)@, key@),
    {
        let mut actions: Vec<Action> = Vec::new();
        if !self.finished {
            match ItemId::from_key(key) {
                Some(ItemId::Start) => {
                    if !self.flag.read() {
                        self.flag.write(true);
                        actions.push(Action::Emit(OutboundEvent::StartRecording));
                        actions.push(Action::InstallMenu(MenuDescription::build(self.flag.read())));
                    }
                },
                Some(ItemId::Stop) => {
                    if self.flag.read() {
                        self.flag.write(false);
                        actions.push(Action::Emit(OutboundEvent::StopRecording));
                        actions.push(Action::InstallMenu(MenuDescription::build(self.flag.read())));
                    }
                },
                Some(ItemId::History) => {
                    actions.push(Action::Emit(OutboundEvent::ShowHistory));
                },
                Some(ItemId::Quit) => {
                    self.finished = true;
                    actions.push(Action::Exit(0));
                },
                None => {
                    actions.push(Action::Diagnose(unhandled_message(key)));
                },
            }
        }
        assert(views(actions@) =~= react(old(self)@, key@));
        actions
    }
}

} // verus!
