//! The application shell: the contextual action set, the busy flag, and
//! the navigation state, together with the two verified decision tables of
//! the concurrency model — what a key press means for the interactive
//! context, and how the dispatcher interprets one queued command.

use vstd::prelude::*;

use crate::actions::Action;
use crate::actions::Actions;
use crate::actions::spec_all_actions;
use crate::actions::spec_has_conflict;
use crate::io::IoEvent;
use crate::key::Key;
use crate::state::AppState;
use crate::state::FetchOutcome;
use crate::state::FetchRequest;
use crate::state::StateModel;
use crate::state::spec_adjust_delay;
use crate::state::spec_back;
use crate::state::spec_initialized;
use crate::state::spec_move;
use crate::state::spec_outcome_fits;
use crate::state::spec_parent;
use crate::state::spec_slept;
use crate::state::spec_step_into;
use crate::state::spec_step_target;
use crate::state::spec_ticked;
use crate::text::spec_ends_with_slash;

verus! {

/// Whether the interactive loop should keep running after a key press.
#[derive(Debug, PartialEq, Eq, Structural)]
pub enum AppReturn {
    Exit,
    Continue,
}

/// Work a key press asks the surroundings to perform: enqueue a dispatcher
/// command, or save the displayed file to disk.
#[derive(Debug)]
pub enum AppCommand {
    Io(IoEvent),
    SaveFile,
}

/// The contextual actions in effect before anything is located.
pub open spec fn spec_startup_actions() -> Seq<Action> {
    seq![Action::Quit]
}

/// The contextual actions in effect once a location has been entered.
pub open spec fn spec_session_actions() -> Seq<Action> {
    seq![
        Action::Quit,
        Action::BackToPreviours,
        Action::StepInto,
        Action::MoveUp,
        Action::MoveDown,
        Action::Save,
    ]
}

/// The navigation state after the local part of a key press: only the two
/// delay actions mutate anything directly; every other action leaves the
/// state to the dispatcher.
pub open spec fn spec_after_action(s: StateModel, found: Option<Action>) -> StateModel {
    match found {
        Some(Action::IncrementDelay) => spec_adjust_delay(s, 1),
        Some(Action::DecrementDelay) => spec_adjust_delay(s, -1),
        _ => s,
    }
}

/// What a key press returns to the interactive loop: whether to keep
/// running, and which command (if any) to hand to the surroundings.
pub open spec fn spec_action_result(found: Option<Action>) -> (AppReturn, Option<AppCommand>) {
    match found {
        None => (AppReturn::Continue, None),
        Some(a) => match a {
            Action::Quit => (AppReturn::Exit, None),
            Action::IncrementDelay => (AppReturn::Continue, None),
            Action::DecrementDelay => (AppReturn::Continue, None),
            Action::BackToPreviours => (
                AppReturn::Continue,
                Some(AppCommand::Io(IoEvent::StepOut)),
            ),
            Action::StepInto => (AppReturn::Continue, Some(AppCommand::Io(IoEvent::StepIn))),
            Action::MoveUp => (AppReturn::Continue, Some(AppCommand::Io(IoEvent::MoveUp))),
            Action::MoveDown => (AppReturn::Continue, Some(AppCommand::Io(IoEvent::MoveDown))),
            Action::Save => (AppReturn::Continue, Some(AppCommand::SaveFile)),
        },
    }
}

/// Mathematical value of an [`App`].
pub struct AppModel {
    pub actions: Seq<Action>,
    pub is_loading: bool,
    pub state: StateModel,
}

/// The main application: contextual actions, the busy flag the interactive
/// context observes, and the navigation state only the dispatcher mutates.
#[derive(Debug)]
pub struct App {
    actions: Actions,
    is_loading: bool,
    state: AppState,
}

impl View for App {
    type V = AppModel;

    closed spec fn view(&self) -> AppModel {
        AppModel { actions: self.actions@, is_loading: self.is_loading, state: self.state@ }
    }
}

impl App {
    /// A fresh application: nothing located, not busy, and only quitting
    /// bound.
    pub fn new() -> (r: Self)
        ensures
            r@.actions == spec_startup_actions(),
            r@.is_loading == false,
            r@.state is Init,
            r@.state.wf(),
    {
        let list = vec![Action::Quit];
        proof {
            assert(list@ =~= spec_startup_actions());
        }
        let actions = match Actions::build(list) {
            Ok(a) => a,
            Err(_) => Actions::default(),
        };
        App { actions, is_loading: false, state: AppState::default() }
    }

    /// Handles a user key press: looks the key up in the contextual set,
    /// applies the local part of the action, and reports which command the
    /// surroundings must perform for the rest.
    pub fn do_action(&mut self, key: Key) -> (r: (AppReturn, Option<AppCommand>))
        requires
            old(self)@.state.wf(),
        ensures
            ({
                let found = Actions::spec_find(old(self)@.actions, spec_all_actions(), key);
                &&& final(self)@.actions == old(self)@.actions
                &&& final(self)@.is_loading == old(self)@.is_loading
                &&& final(self)@.state == spec_after_action(old(self)@.state, found)
                &&& r == spec_action_result(found)
                &&& final(self)@.state.wf()
            }),
    {
        match self.actions.find(key) {
            None => (AppReturn::Continue, None),
            Some(action) => match action {
                Action::Quit => (AppReturn::Exit, None),
                Action::IncrementDelay => {
                    self.state.increment_delay();
                    (AppReturn::Continue, None)
                },
                Action::DecrementDelay => {
                    self.state.decrement_delay();
                    (AppReturn::Continue, None)
                },
                Action::BackToPreviours => (
                    AppReturn::Continue,
                    Some(AppCommand::Io(IoEvent::StepOut)),
                ),
                Action::StepInto => (AppReturn::Continue, Some(AppCommand::Io(IoEvent::StepIn))),
                Action::MoveUp => (AppReturn::Continue, Some(AppCommand::Io(IoEvent::MoveUp))),
                Action::MoveDown => (AppReturn::Continue, Some(AppCommand::Io(IoEvent::MoveDown))),
                Action::Save => (AppReturn::Continue, Some(AppCommand::SaveFile)),
            },
        }
    }

    /// One render tick: bumps the tick counter.
    pub fn update_on_tick(&mut self) -> (r: AppReturn)
        requires
            old(self)@.state is Located ==> old(self)@.state.nav().ticks < u64::MAX,
        ensures
            final(self)@.state == spec_ticked(old(self)@.state),
            final(self)@.actions == old(self)@.actions,
            final(self)@.is_loading == old(self)@.is_loading,
            r == AppReturn::Continue,
    {
        self.state.incr_tick();
        AppReturn::Continue
    }

    /// Marks the application busy; the interactive context calls this when
    /// it enqueues a command, and [`App::loaded`] clears it when the
    /// command completes.
    pub fn dispatching(&mut self)
        ensures
            final(self)@.is_loading == true,
            final(self)@.actions == old(self)@.actions,
            final(self)@.state == old(self)@.state,
    {
        self.is_loading = true;
    }

    /// The contextual action set.
    pub fn actions(&self) -> (r: &Actions)
        ensures
            r@ == self@.actions,
    {
        &self.actions
    }

    /// Mutable access to the navigation state, for the renderer's viewport
    /// sizing.
    pub fn state(&mut self) -> (r: &mut AppState)
        ensures
            (*r)@ == old(self)@.state,
            final(self)@.state == (*final(r))@,
            final(self)@.actions == old(self)@.actions,
            final(self)@.is_loading == old(self)@.is_loading,
    {
        &mut self.state
    }

    /// Whether a command is still in flight.
    pub fn is_loading(&self) -> (r: bool)
        ensures
            r == self@.is_loading,
    {
        self.is_loading
    }

    /// Enters the starting location, given the outcome of the initial
    /// fetch, and swaps in the full session bindings.
    pub fn initialized(&mut self, init_url: String, outcome: FetchOutcome)
        requires
            spec_outcome_fits(outcome@),
        ensures
            final(self)@.actions == spec_session_actions(),
            final(self)@.state == spec_initialized(init_url@, outcome@),
            final(self)@.is_loading == old(self)@.is_loading,
            final(self)@.state.wf(),
    {
        let list = vec![
            Action::Quit,
            Action::BackToPreviours,
            Action::StepInto,
            Action::MoveUp,
            Action::MoveDown,
            Action::Save,
        ];
        proof {
            assert(list@ =~= spec_session_actions());
        }
        let actions = match Actions::build(list) {
            Ok(a) => a,
            Err(_) => Actions::default(),
        };
        proof {
            assert(!spec_has_conflict(spec_session_actions()));
        }
        self.actions = actions;
        self.state = AppState::initialized(init_url, outcome);
    }

    /// Clears the busy flag: the dispatcher reports a command as complete.
    pub fn loaded(&mut self)
        ensures
            final(self)@.is_loading == false,
            final(self)@.actions == old(self)@.actions,
            final(self)@.state == old(self)@.state,
    {
        self.is_loading = false;
    }

    /// Records one completed sleep.
    pub fn slept(&mut self)
        requires
            old(self)@.state is Located ==> old(self)@.state.nav().sleeps < u32::MAX,
        ensures
            final(self)@.state == spec_slept(old(self)@.state),
            final(self)@.actions == old(self)@.actions,
            final(self)@.is_loading == old(self)@.is_loading,
    {
        self.state.incr_sleep();
    }

    /// The fetch the dispatcher must perform before applying `ev`, if the
    /// command needs one: the starting path for `Initialize`, the entry
    /// under the cursor for `StepIn`, the parent path for `StepOut`.
    pub fn io_request(&self, ev: &IoEvent) -> (r: Option<FetchRequest>)
        requires
            self@.state.wf(),
        ensures
            match ev {
                IoEvent::Initialize(url) => r matches Some(req) && req.url@ == url@ && (req.kind
                    == crate::state::ContentState::ItemList <==> spec_ends_with_slash(url@)),
                IoEvent::StepIn => match self@.state {
                    StateModel::Init => r is None,
                    StateModel::Located(nv) => match spec_step_target(nv) {
                        None => r is None,
                        Some((target, is_dir)) => r matches Some(req) && req.url@ == target && (
                        req.kind == crate::state::ContentState::ItemList <==> is_dir),
                    },
                },
                IoEvent::StepOut => match self@.state {
                    StateModel::Init => r is None,
                    StateModel::Located(nv) => match spec_parent(nv.url) {
                        None => r is None,
                        Some(parent) => r matches Some(req) && req.url@ == parent && req.kind
                            == crate::state::ContentState::ItemList,
                    },
                },
                _ => r is None,
            },
    {
        match ev {
            IoEvent::Initialize(url) => Some(AppState::initial_request(url.as_str())),
            IoEvent::StepIn => self.state.step_into_request(),
            IoEvent::StepOut => self.state.back_request(),
            IoEvent::Sleep(_) => None,
            IoEvent::MoveUp => None,
            IoEvent::MoveDown => None,
        }
    }

    /// Interprets one dequeued command to completion, given the outcome of
    /// the fetch that [`App::io_request`] asked for (`None` when none was
    /// asked, or none was performed: the transition is then a no-op). On
    /// completion the busy flag is always cleared, whatever happened.
    pub fn handle_io_event(&mut self, ev: IoEvent, outcome: Option<FetchOutcome>)
        requires
            old(self)@.state.wf(),
            outcome matches Some(o) ==> spec_outcome_fits(o@),
            ev matches IoEvent::Sleep(_) && old(self)@.state is Located
                ==> old(self)@.state.nav().sleeps < u32::MAX,
        ensures
            final(self)@.is_loading == false,
            final(self)@.state.wf(),
            !(ev is Initialize) ==> final(self)@.actions == old(self)@.actions,
            match ev {
                IoEvent::Initialize(url) => {
                    &&& final(self)@.actions == spec_session_actions()
                    &&& final(self)@.state == (match outcome {
                        Some(o) => spec_initialized(url@, o@),
                        None => StateModel::Init,
                    })
                },
                IoEvent::Sleep(_) => final(self)@.state == spec_slept(old(self)@.state),
                IoEvent::StepIn => final(self)@.state == (match outcome {
                    Some(o) => spec_step_into(old(self)@.state, o@),
                    None => old(self)@.state,
                }),
                IoEvent::StepOut => final(self)@.state == (match outcome {
                    Some(o) => spec_back(old(self)@.state, o@),
                    None => old(self)@.state,
                }),
                IoEvent::MoveUp => final(self)@.state == spec_move(old(self)@.state, -1),
                IoEvent::MoveDown => final(self)@.state == spec_move(old(self)@.state, 1),
            },
    {
        match ev {
            IoEvent::Initialize(url) => match outcome {
                Some(o) => self.initialized(url, o),
                None => {
                    let list = vec![
                        Action::Quit,
                        Action::BackToPreviours,
                        Action::StepInto,
                        Action::MoveUp,
                        Action::MoveDown,
                        Action::Save,
                    ];
                    proof {
                        assert(list@ =~= spec_session_actions());
                    }
                    self.actions = match Actions::build(list) {
                        Ok(a) => a,
                        Err(_) => Actions::default(),
                    };
                    self.state = AppState::Init;
                },
            },
            IoEvent::Sleep(_) => {
                self.state.incr_sleep();
            },
            IoEvent::StepIn => match outcome {
                Some(o) => self.state.step_into(o),
                None => {},
            },
            IoEvent::StepOut => match outcome {
                Some(o) => self.state.back_to_previours(o),
                None => {},
            },
            IoEvent::MoveUp => {
                self.state.move_up();
            },
            IoEvent::MoveDown => {
                self.state.move_down();
            },
        }
        self.is_loading = false;
    }
}

} // verus!
