//! The event loop as a state machine.
//!
//! The program waits for a message, hands its identity to [`App::handle`], does
//! what the answer says, and waits again, until the answer is
//! [`Action::Shutdown`]. The waiting and the doing are the program's; what is
//! decided here is which state follows and what is to be done.

use vstd::prelude::*;
use crate::engine::Totals;
use crate::message::Opcode;
use crate::message::QUIT_ID;
use crate::message::REDRAW_ID;
use crate::surface::command_models;
use crate::surface::redraw_plan;
use crate::surface::DrawCommand;
use crate::surface::DrawCommandModel;
use crate::surface::ReportSurface;
use crate::surface::SurfaceModel;

verus! {

/// The states of the event loop.
#[derive(Clone, Copy, Debug, PartialEq, Eq)]
pub enum LoopState {
    /// The loop waits for the next message.
    Running,
    /// The loop has ended, and takes no more messages.
    Terminated,
}

/// What the program is to do about a message.
#[derive(Clone, Debug, PartialEq, Eq)]
pub enum Action {
    /// Submit these commands to the display service, in order.
    Render(Vec<DrawCommand>),
    /// Leave the loop and end the program with success.
    Shutdown,
    /// Log that a message of this unknown identity came, and go on.
    ReportUnknown(usize),
    /// Nothing: the loop has ended.
    Nothing,
}

/// An [`Action`] whose commands are models.
pub enum ActionModel {
    Render(Seq<DrawCommandModel>),
    Shutdown,
    ReportUnknown(nat),
    Nothing,
}

impl View for Action {
    type V = ActionModel;

    open spec fn view(&self) -> ActionModel {
        match *self {
            Action::Render(commands) => ActionModel::Render(command_models(commands@)),
            Action::Shutdown => ActionModel::Shutdown,
            Action::ReportUnknown(id) => ActionModel::ReportUnknown(id as nat),
            Action::Nothing => ActionModel::Nothing,
        }
    }
}

/// What the program holds while the loop runs: its canvas, the three totals
/// and the state of the loop.
pub struct AppModel {
    pub surface: SurfaceModel,
    pub totals: Totals,
    pub state: LoopState,
}

/// The state after a message of identity `id`: only the quit message ends a
/// running loop, and nothing starts an ended one again.
pub open spec fn next_state(state: LoopState, id: nat) -> LoopState {
    match state {
        LoopState::Running => if id == QUIT_ID {
            LoopState::Terminated
        } else {
            LoopState::Running
        },
        LoopState::Terminated => LoopState::Terminated,
    }
}

/// What is to be done about a message of identity `id`.
pub open spec fn action_for(app: AppModel, id: nat) -> ActionModel {
    match app.state {
        LoopState::Running => match Opcode::decode(id) {
            Some(Opcode::Redraw) => ActionModel::Render(
                redraw_plan(
                    app.surface.content,
                    app.surface.screensize,
                    app.totals.keygen.total(),
                    app.totals.encrypt.total(),
                    app.totals.decrypt.total(),
                ),
            ),
            Some(Opcode::Quit) => ActionModel::Shutdown,
            None => ActionModel::ReportUnknown(id),
        },
        LoopState::Terminated => ActionModel::Nothing,
    }
}

/// The program after a message of identity `id`: no message changes the canvas
/// or a total.
pub open spec fn step(app: AppModel, id: nat) -> AppModel {
    AppModel { state: next_state(app.state, id), ..app }
}

/// The program after the messages `ids`, taken in order.
pub open spec fn run(app: AppModel, ids: Seq<nat>) -> AppModel
    decreases ids.len(),
{
    if ids.len() == 0 {
        app
    } else {
        step(run(app, ids.drop_last()), ids.last())
    }
}

/// The one long-lived value of the program: the canvas, the totals that the
/// engine handed over, and the state of the loop. The totals are read, never
/// written.
pub struct App {
    surface: ReportSurface,
    totals: Totals,
    state: LoopState,
}

impl View for App {
    type V = AppModel;

    closed spec fn view(&self) -> AppModel {
        AppModel { surface: self.surface@, totals: self.totals, state: self.state }
    }
}

impl App {
    /// The program as it enters the loop: running.
    pub fn new(surface: ReportSurface, totals: Totals) -> (app: App)
        ensures
            app@ == (AppModel { surface: surface@, totals, state: LoopState::Running }),
    {
        App { surface, totals, state: LoopState::Running }
    }

    /// The canvas of the program.
    pub fn surface(&self) -> (surface: &ReportSurface)
        ensures
            surface@ == self@.surface,
    {
        &self.surface
    }

    /// The three totals.
    pub fn totals(&self) -> (totals: Totals)
        ensures
            totals == self@.totals,
    {
        self.totals
    }

    /// The state of the loop.
    pub fn state(&self) -> (state: LoopState)
        ensures
            state == self@.state,
    {
        self.state
    }

    /// Whether the loop still takes messages.
    pub fn is_running(&self) -> (running: bool)
        ensures
            running <==> self@.state is Running,
    {
        match self.state {
            LoopState::Running => true,
            LoopState::Terminated => false,
        }
    }

    /// Takes one message, by its identity: says what is to be done about it,
    /// and moves to the state that follows.
    pub fn handle(&mut self, id: usize) -> (action: Action)
        ensures
            final(self)@ == step(old(self)@, id as nat),
            action@ == action_for(old(self)@, id as nat),
    {
        match self.state {
            LoopState::Terminated => Action::Nothing,
            LoopState::Running => match Opcode::from_usize(id) {
                Some(Opcode::Redraw) => Action::Render(
                    self.surface.redraw(
                        self.totals.keygen.nanos(),
                        self.totals.encrypt.nanos(),
                        self.totals.decrypt.nanos(),
                    ),
                ),
                Some(Opcode::Quit) => {
                    self.state = LoopState::Terminated;
                    Action::Shutdown
                },
                None => Action::ReportUnknown(id),
            },
        }
    }
}

/// No message changes a total or the canvas, however many come.
pub proof fn lemma_totals_never_change(app: AppModel, ids: Seq<nat>)
    ensures
        run(app, ids).totals == app.totals,
        run(app, ids).surface == app.surface,
    decreases ids.len(),
{
    if ids.len() > 0 {
        lemma_totals_never_change(app, ids.drop_last());
    }
}

/// A running loop has ended after the messages `ids` if and only if one of
/// them was the quit message.
pub proof fn lemma_terminated_only_by_quit(app: AppModel, ids: Seq<nat>)
    requires
        app.state is Running,
    ensures
        run(app, ids).state is Terminated <==> exists|i: int|
            0 <= i < ids.len() && ids[i] == QUIT_ID,
    decreases ids.len(),
{
    if ids.len() > 0 {
        let front = ids.drop_last();
        lemma_terminated_only_by_quit(app, front);
        if run(app, ids).state is Terminated {
            if run(app, front).state is Terminated {
                let i = choose|i: int| 0 <= i < front.len() && front[i] == QUIT_ID;
                assert(ids[i] == QUIT_ID);
            } else {
                assert(ids[ids.len() - 1] == QUIT_ID);
            }
        } else {
            assert forall|i: int| 0 <= i < ids.len() implies ids[i] != QUIT_ID by {
                if i < front.len() {
                    assert(front[i] == ids[i]);
                }
            }
        }
    }
}

/// Redraw messages, however many and also none, leave a running loop running.
pub proof fn lemma_redraws_keep_running(app: AppModel, ids: Seq<nat>)
    requires
        app.state is Running,
        forall|i: int| 0 <= i < ids.len() ==> ids[i] == REDRAW_ID,
    ensures
        run(app, ids).state is Running,
{
    lemma_terminated_only_by_quit(app, ids);
}

/// A message of an unknown identity changes nothing: not the state of the
/// loop, not a total, not the canvas.
pub proof fn lemma_unknown_message_changes_nothing(app: AppModel, id: nat)
    requires
        Opcode::decode(id) is None,
    ensures
        step(app, id) == app,
        app.state is Running ==> action_for(app, id) == ActionModel::ReportUnknown(id),
{
}

} // verus!
