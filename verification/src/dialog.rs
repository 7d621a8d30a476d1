//! The dialog's decisions: which events confirm, which cancel, and what
//! each of them asks the surrounding program to do.
//!
//! The dialog is open until it is confirmed or cancelled, and then stays
//! closed. It never touches the file system itself: confirming hands out a
//! request to make the folder, cancelling a request to leave.

use vstd::prelude::*;
use vstd::string::*;
use crate::target::Target;

verus! {

/// A key, as far as the dialog tells keys apart.
#[derive(Clone, Copy, Debug, PartialEq, Eq, Structural)]
pub enum Key {
    Enter,
    Escape,
    Other,
}

/// The part of the dialog that has the input focus.
#[derive(Clone, Copy, Debug, PartialEq, Eq, Structural)]
pub enum Focus {
    PathField,
    NameField,
    OkButton,
    CancelButton,
}

/// What happened in the dialog.
#[derive(Clone, Copy, Debug, PartialEq, Eq, Structural)]
pub enum Event {
    /// A key went down.
    KeyDown(Key),
    /// The OK button was activated.
    OkClicked,
    /// The Cancel button was activated.
    CancelClicked,
    /// The window's close control was used.
    CloseRequested,
    /// Anything else.
    Other,
}

/// What an event means to the dialog.
#[derive(Clone, Copy, Debug, PartialEq, Eq, Structural)]
pub enum Decision {
    Ignore,
    Confirm,
    Cancel,
}

/// Whether the dialog is still being edited, and if not, how it was closed.
#[derive(Clone, Copy, Debug, PartialEq, Eq, Structural)]
pub enum Phase {
    Open,
    Confirmed,
    Cancelled,
}

/// What the surrounding program is asked to do after an event.
#[derive(Clone, Debug, PartialEq, Eq)]
pub enum Action {
    /// Nothing: go on with the event loop.
    Nothing,
    /// Make the folder `name` in the directory `parent`, once, and leave
    /// with what came of it.
    CreateFolder { parent: String, name: String },
    /// Leave without touching the file system.
    Quit,
}

/// A range of selected text in a field, in bytes from the start.
#[derive(Clone, Copy, Debug, PartialEq, Eq, Structural)]
pub struct Selection {
    pub mark: usize,
    pub position: usize,
}

/// The state of the dialog.
#[derive(Clone, Debug, PartialEq, Eq)]
pub struct Dialog {
    /// The directory in which the folder is made. It never changes.
    pub target: Target,
    /// The text of the name field.
    pub name: String,
    pub focus: Focus,
    pub phase: Phase,
}

/// The meaning of `event` while `focus` has the input focus.
///
/// The buttons and the close control work wherever the focus is. Enter and
/// Escape count only in the name field.
pub open spec fn decision(focus: Focus, event: Event) -> Decision {
    match event {
        Event::OkClicked => Decision::Confirm,
        Event::CancelClicked => Decision::Cancel,
        Event::CloseRequested => Decision::Cancel,
        Event::KeyDown(Key::Enter) => if focus == Focus::NameField {
            Decision::Confirm
        } else {
            Decision::Ignore
        },
        Event::KeyDown(Key::Escape) => if focus == Focus::NameField {
            Decision::Cancel
        } else {
            Decision::Ignore
        },
        _ => Decision::Ignore,
    }
}

/// The selection that covers all of `text`.
pub open spec fn whole_text(text: Seq<char>) -> Selection {
    Selection { mark: 0, position: vstd::utf8::encode_utf8(text).len() as usize }
}

impl Dialog {
    /// The dialog is closed: confirmed or cancelled.
    pub open spec fn is_closed(&self) -> bool {
        self.phase != Phase::Open
    }

    /// The target keeps its invariant.
    pub open spec fn wf(&self) -> bool {
        self.target.wf()
    }

    /// Opens the dialog on `target` with `suggested` in the name field,
    /// which has the focus.
    pub fn open(target: Target, suggested: String) -> (dialog: Dialog)
        ensures
            dialog.target == target,
            dialog.name == suggested,
            dialog.focus == Focus::NameField,
            dialog.phase == Phase::Open,
    {
        Dialog { target, name: suggested, focus: Focus::NameField, phase: Phase::Open }
    }

    /// What is selected in the name field when the dialog is first shown:
    /// all of its text.
    pub fn initial_selection(&self) -> (selection: Selection)
        ensures
            selection == whole_text(self.name@),
    {
        Selection { mark: 0, position: self.name.as_str().len() }
    }

    /// Where the caret stands in the path field: after the shown text.
    pub fn path_caret(&self) -> (position: usize)
        ensures
            position == whole_text(self.target.display@).position,
    {
        self.target.display.as_str().len()
    }

    /// The user changed the name field to `text`. A closed dialog keeps its
    /// name.
    pub fn edit_name(&mut self, text: String)
        ensures
            final(self).target == old(self).target,
            final(self).focus == old(self).focus,
            final(self).phase == old(self).phase,
            final(self).name == (if old(self).is_closed() {
                old(self).name
            } else {
                text
            }),
    {
        match self.phase {
            Phase::Open => {
                self.name = text;
            },
            _ => {},
        }
    }

    /// The input focus went to `focus`.
    pub fn move_focus(&mut self, focus: Focus)
        ensures
            final(self).target == old(self).target,
            final(self).name == old(self).name,
            final(self).phase == old(self).phase,
            final(self).focus == focus,
    {
        self.focus = focus;
    }

    /// Takes an event and says what is to be done.
    ///
    /// An open dialog is closed by a confirming or cancelling event, and
    /// left as it is by any other. Confirming asks for the folder to be made
    /// in the target directory under the name that the field holds, whatever
    /// that is; the name is not looked at. Cancelling asks to leave. A closed
    /// dialog ignores every event.
    pub fn handle(&mut self, event: Event) -> (action: Action)
        ensures
            final(self).target == old(self).target,
            final(self).name == old(self).name,
            final(self).focus == old(self).focus,
            final(self).phase == next_phase(old(self).phase, old(self).focus, event),
            match next_step(old(self).phase, old(self).focus, event) {
                Decision::Ignore => action is Nothing,
                Decision::Cancel => action is Quit,
                Decision::Confirm => action is CreateFolder && action->parent@ == old(
                    self,
                ).target.native@ && action->name@ == old(self).name@,
            },
    {
        match self.phase {
            Phase::Open => {},
            _ => {
                return Action::Nothing;
            },
        }
        match decide(self.focus, event) {
            Decision::Ignore => Action::Nothing,
            Decision::Cancel => {
                self.phase = Phase::Cancelled;
                Action::Quit
            },
            Decision::Confirm => {
                self.phase = Phase::Confirmed;
                Action::CreateFolder { parent: self.target.native.clone(), name: self.name.clone() }
            },
        }
    }
}

/// What a dialog in `phase` makes of `event`: an open one what the event
/// means, a closed one nothing.
pub open spec fn next_step(phase: Phase, focus: Focus, event: Event) -> Decision {
    if phase == Phase::Open {
        decision(focus, event)
    } else {
        Decision::Ignore
    }
}

/// The phase after `event`.
pub open spec fn next_phase(phase: Phase, focus: Focus, event: Event) -> Phase {
    match next_step(phase, focus, event) {
        Decision::Ignore => phase,
        Decision::Confirm => Phase::Confirmed,
        Decision::Cancel => Phase::Cancelled,
    }
}

/// The meaning of `event` while `focus` has the input focus.
pub fn decide(focus: Focus, event: Event) -> (d: Decision)
    ensures
        d == decision(focus, event),
{
    match event {
        Event::OkClicked => Decision::Confirm,
        Event::CancelClicked => Decision::Cancel,
        Event::CloseRequested => Decision::Cancel,
        Event::KeyDown(key) => {
            match focus {
                Focus::NameField => match key {
                    Key::Enter => Decision::Confirm,
                    Key::Escape => Decision::Cancel,
                    Key::Other => Decision::Ignore,
                },
                _ => Decision::Ignore,
            }
        },
        Event::Other => Decision::Ignore,
    }
}

/// Whether the name field keeps a key event to itself: it does so for the
/// keys that confirm or cancel, and passes every other event on.
pub fn consumes(focus: Focus, event: Event) -> (kept: bool)
    ensures
        kept == (event is KeyDown && decision(focus, event) != Decision::Ignore),
{
    match event {
        Event::KeyDown(_) => match decide(focus, event) {
            Decision::Ignore => false,
            _ => true,
        },
        _ => false,
    }
}

/// Enter in the name field means what a click on OK means, and Escape
/// there what a click on Cancel means, wherever the click lands.
pub proof fn keys_match_buttons(focus: Focus)
    ensures
        decision(Focus::NameField, Event::KeyDown(Key::Enter)) == decision(focus, Event::OkClicked),
        decision(Focus::NameField, Event::KeyDown(Key::Escape)) == decision(
            focus,
            Event::CancelClicked,
        ),
        decision(focus, Event::CloseRequested) == decision(focus, Event::CancelClicked),
{
}

/// Away from the name field no key confirms or cancels.
pub proof fn keys_are_inert_elsewhere(focus: Focus, key: Key)
    requires
        focus != Focus::NameField,
    ensures
        decision(focus, Event::KeyDown(key)) == Decision::Ignore,
{
}

/// A closed dialog stays closed as it is, whatever happens.
pub proof fn closed_is_final(phase: Phase, focus: Focus, event: Event)
    requires
        phase != Phase::Open,
    ensures
        next_phase(phase, focus, event) == phase,
        next_step(phase, focus, event) == Decision::Ignore,
{
}

/// The phase after a run of events, each with the focus it met.
pub open spec fn phase_after(phase: Phase, inputs: Seq<(Focus, Event)>) -> Phase
    decreases inputs.len(),
{
    if inputs.len() == 0 {
        phase
    } else {
        phase_after(next_phase(phase, inputs[0].0, inputs[0].1), inputs.drop_first())
    }
}

/// No run of events opens a closed dialog again or changes how it was
/// closed: a cancelled dialog is never confirmed, and a confirmed one asks
/// for its folder only once.
pub proof fn closed_stays_closed(phase: Phase, inputs: Seq<(Focus, Event)>)
    requires
        phase != Phase::Open,
    ensures
        phase_after(phase, inputs) == phase,
    decreases inputs.len(),
{
    if inputs.len() > 0 {
        closed_is_final(phase, inputs[0].0, inputs[0].1);
        closed_stays_closed(phase, inputs.drop_first());
    }
}

/// A cancelling event closes the dialog as cancelled without asking for a
/// folder, and nothing that comes after it asks for one either.
pub proof fn cancel_never_creates(
    phase: Phase,
    focus: Focus,
    event: Event,
    later: Seq<(Focus, Event)>,
)
    requires
        next_step(phase, focus, event) == Decision::Cancel,
    ensures
        next_step(phase, focus, event) != Decision::Confirm,
        next_phase(phase, focus, event) == Phase::Cancelled,
        phase_after(next_phase(phase, focus, event), later) == Phase::Cancelled,
        forall|later_focus: Focus, later_event: Event|
            next_step(Phase::Cancelled, later_focus, later_event) == Decision::Ignore,
{
    closed_stays_closed(Phase::Cancelled, later);
}

} // verus!
