//! A stack of screens with push/pop/switch/quit transitions and lifecycle
//! hooks; only the topmost screen receives updates, key presses and render
//! requests, and the machine stops exactly when its stack empties.

use vstd::prelude::*;

use crate::draw::DrawCmd;
use crate::game::{
    game_handle_key_model, game_render_spec, game_update_rel, game_wf, Game, GameModel, Lost,
    lost_render_spec,
};
use crate::input::Key;
use crate::menu::{menu_handle_key_model, menu_render_spec, Menu};

verus! {

/// One screen of the game, a closed set dispatched by variant.
pub enum State {
    Menu(Menu),
    Game(Game),
    Lost(Lost),
}

/// The mathematical value of a screen.
pub enum StateModel {
    Menu(Menu),
    Game(GameModel),
    Lost(Lost),
}

impl View for State {
    type V = StateModel;

    open spec fn view(&self) -> StateModel {
        match self {
            State::Menu(m) => StateModel::Menu(*m),
            State::Game(g) => StateModel::Game(g@),
            State::Lost(l) => StateModel::Lost(*l),
        }
    }
}

/// A screen's verdict on how the stack should change.
pub enum Transition {
    Stay,
    Pop,
    Push(State),
    Switch(State),
    Quit,
}

/// The mathematical value of a verdict.
pub enum TransitionModel {
    Stay,
    Pop,
    Push(StateModel),
    Switch(StateModel),
    Quit,
}

impl View for Transition {
    type V = TransitionModel;

    open spec fn view(&self) -> TransitionModel {
        match self {
            Transition::Stay => TransitionModel::Stay,
            Transition::Pop => TransitionModel::Pop,
            Transition::Push(s) => TransitionModel::Push(s@),
            Transition::Switch(s) => TransitionModel::Switch(s@),
            Transition::Quit => TransitionModel::Quit,
        }
    }
}

/// Well-formedness of a screen: a session must be well formed, the other
/// screens carry no invariant.
pub open spec fn state_wf(s: StateModel) -> bool {
    match s {
        StateModel::Game(g) => game_wf(g),
        _ => true,
    }
}

/// A verdict is well formed when any screen it carries is.
pub open spec fn transition_wf(t: TransitionModel) -> bool {
    match t {
        TransitionModel::Push(s) => state_wf(s),
        TransitionModel::Switch(s) => state_wf(s),
        _ => true,
    }
}

/// The mathematical value of the machine: its stack, topmost last, and
/// whether it is running.
pub struct MachineModel {
    pub running: bool,
    pub states: Seq<StateModel>,
}

/// Well-formedness: every held screen is well formed and the stack is
/// never empty while the machine runs.
pub open spec fn machine_wf(m: MachineModel) -> bool {
    &&& (m.running ==> m.states.len() > 0)
    &&& forall|i: int| 0 <= i < m.states.len() ==> state_wf(#[trigger] m.states[i])
}

/// How a verdict reshapes the machine; every verdict is a no-op while the
/// machine is not running. Pop discards the top and stops the machine if
/// the stack empties; Push adds a screen on top; Switch replaces the top,
/// keeping the depth; Quit empties the stack and stops the machine.
pub open spec fn apply_transition_model(m: MachineModel, t: TransitionModel) -> MachineModel {
    if !m.running {
        m
    } else {
        match t {
            TransitionModel::Stay => m,
            TransitionModel::Pop => {
                let rest = if m.states.len() > 0 {
                    m.states.drop_last()
                } else {
                    m.states
                };
                MachineModel { running: rest.len() > 0, states: rest }
            },
            TransitionModel::Push(s) => MachineModel { running: true, states: m.states.push(s) },
            TransitionModel::Switch(s) => {
                let rest = if m.states.len() > 0 {
                    m.states.drop_last()
                } else {
                    m.states
                };
                MachineModel { running: true, states: rest.push(s) }
            },
            TransitionModel::Quit => MachineModel { running: false, states: Seq::empty() },
        }
    }
}

/// What a screen does with a key press: the resulting screen.
pub open spec fn state_handle_state(s: StateModel, k: Key) -> StateModel {
    match s {
        StateModel::Menu(m) => StateModel::Menu(menu_handle_key_model(m, k).0),
        StateModel::Game(g) => StateModel::Game(game_handle_key_model(g, k)),
        StateModel::Lost(l) => StateModel::Lost(l),
    }
}

/// What a screen does with a key press: the verdict it returns.
pub open spec fn state_handle_trans(s: StateModel, k: Key) -> TransitionModel {
    match s {
        StateModel::Menu(m) => menu_handle_key_model(m, k).1,
        StateModel::Game(g) => TransitionModel::Stay,
        StateModel::Lost(l) => TransitionModel::Pop,
    }
}

/// What a screen does with a time delta: the menu and the game-over
/// screen ignore it, a session advances as its per-tick contract says.
pub open spec fn state_update_rel(s: StateModel, dt_ms: u64, s2: StateModel, t: TransitionModel) -> bool {
    match s {
        StateModel::Menu(m) => s2 == s && t is Stay,
        StateModel::Game(g) => s2 matches StateModel::Game(g2) && game_update_rel(g, dt_ms, g2, t),
        StateModel::Lost(l) => s2 == s && t is Stay,
    }
}

/// The frame a screen draws.
pub open spec fn state_render_spec(s: StateModel) -> Seq<DrawCmd> {
    match s {
        StateModel::Menu(m) => menu_render_spec(m),
        StateModel::Game(g) => game_render_spec(g),
        StateModel::Lost(l) => lost_render_spec(l.0),
    }
}

/// The frame the machine draws: the topmost screen's frame while running,
/// nothing otherwise.
pub open spec fn machine_render_spec(m: MachineModel) -> Seq<DrawCmd> {
    if m.running && m.states.len() > 0 {
        state_render_spec(m.states.last())
    } else {
        Seq::empty()
    }
}

impl State {
    /// Hook run when a screen becomes the active top; a no-op by default.
    pub fn on_start(&mut self)
        ensures
            final(self)@ == old(self)@,
    {
    }

    /// Hook run when a screen is discarded; a no-op by default.
    pub fn on_stop(&mut self)
        ensures
            final(self)@ == old(self)@,
    {
    }

    /// Hook run when another screen is pushed on top; a no-op by default.
    pub fn on_pause(&mut self)
        ensures
            final(self)@ == old(self)@,
    {
    }

    /// Hook run when the screen above is popped; a no-op by default.
    pub fn on_resume(&mut self)
        ensures
            final(self)@ == old(self)@,
    {
    }

    /// Dispatch a time delta to the screen.
    pub fn update(&mut self, dt_ms: u64) -> (t: Transition)
        requires
            state_wf(old(self)@),
        ensures
            state_wf(final(self)@),
            transition_wf(t@),
            state_update_rel(old(self)@, dt_ms, final(self)@, t@),
    {
        match self {
            State::Menu(m) => m.update(dt_ms),
            State::Game(g) => g.update(dt_ms),
            State::Lost(l) => l.update(dt_ms),
        }
    }

    /// Dispatch a key press to the screen.
    pub fn handle_event(&mut self, k: Key) -> (t: Transition)
        requires
            state_wf(old(self)@),
        ensures
            state_wf(final(self)@),
            transition_wf(t@),
            final(self)@ == state_handle_state(old(self)@, k),
            t@ == state_handle_trans(old(self)@, k),
    {
        match self {
            State::Menu(m) => m.handle_event(k),
            State::Game(g) => g.handle_event(k),
            State::Lost(l) => l.handle_event(k),
        }
    }

    /// Describe the frame the screen draws.
    pub fn render(&self) -> (r: Vec<DrawCmd>)
        requires
            state_wf(self@),
        ensures
            r@ == state_render_spec(self@),
    {
        match self {
            State::Menu(m) => m.render(),
            State::Game(g) => g.render(),
            State::Lost(l) => l.render(),
        }
    }
}

pub struct StateMachine {
    running: bool,
    states: Vec<State>,
}

impl View for StateMachine {
    type V = MachineModel;

    closed spec fn view(&self) -> MachineModel {
        MachineModel { running: self.running, states: self.states@.map_values(|s: State| s@) }
    }
}

impl StateMachine {
    /// A machine holding one screen, not yet running.
    pub fn new(state: State) -> (m: StateMachine)
        requires
            state_wf(state@),
        ensures
            m@.running == false,
            m@.states == seq![state@],
            machine_wf(m@),
    {
        let mut states: Vec<State> = Vec::new();
        states.push(state);
        let m = StateMachine { running: false, states };
        proof {
            assert(m@.states =~= seq![state@]);
        }
        m
    }

    /// Whether the machine is running.
    pub fn is_running(&self) -> (r: bool)
        ensures
            r == self@.running,
    {
        self.running
    }

    /// How many screens the stack holds.
    pub fn depth(&self) -> (n: usize)
        ensures
            n == self@.states.len(),
    {
        self.states.len()
    }

    /// Start the machine: the topmost screen gets its start hook and the
    /// machine runs; starting a running machine changes nothing.
    pub fn start(&mut self)
        requires
            machine_wf(old(self)@),
            old(self)@.states.len() > 0,
        ensures
            machine_wf(final(self)@),
            final(self)@.running,
            final(self)@.states == old(self)@.states,
    {
        if !self.running {
            let ghost before = self@.states;
            let mut top = self.states.pop().unwrap();
            top.on_start();
            self.states.push(top);
            self.running = true;
            proof {
                assert(self@.states =~= before);
            }
        }
    }

    /// Apply a screen's verdict to the stack, as `apply_transition_model`
    /// says; a no-op while the machine is not running.
    fn transition(&mut self, t: Transition)
        requires
            machine_wf(old(self)@),
            transition_wf(t@),
        ensures
            machine_wf(final(self)@),
            final(self)@ == apply_transition_model(old(self)@, t@),
    {
        if self.running {
            match t {
                Transition::Stay => {},
                Transition::Pop => self.pop(),
                Transition::Push(s) => self.push(s),
                Transition::Switch(s) => self.switch(s),
                Transition::Quit => self.stop(),
            }
        }
    }

    /// Discard the top screen after its stop hook; resume what remains,
    /// or stop the machine if nothing does.
    fn pop(&mut self)
        requires
            machine_wf(old(self)@),
        ensures
            machine_wf(final(self)@),
            final(self)@ == apply_transition_model(old(self)@, TransitionModel::Pop),
    {
        if self.running {
            let ghost before = self@.states;
            if self.states.len() > 0 {
                let mut top = self.states.pop().unwrap();
                top.on_stop();
                proof {
                    assert(self@.states =~= before.drop_last());
                }
            }
            if self.states.len() > 0 {
                let ghost rest = self@.states;
                let mut next = self.states.pop().unwrap();
                next.on_resume();
                self.states.push(next);
                proof {
                    assert(self@.states =~= rest);
                }
            } else {
                self.running = false;
            }
        }
    }

    /// Pause the current top, put a new screen above it, and start it.
    fn push(&mut self, state: State)
        requires
            machine_wf(old(self)@),
            state_wf(state@),
        ensures
            machine_wf(final(self)@),
            final(self)@ == apply_transition_model(old(self)@, TransitionModel::Push(state@)),
    {
        if self.running {
            let ghost before = self@.states;
            if self.states.len() > 0 {
                let mut top = self.states.pop().unwrap();
                top.on_pause();
                self.states.push(top);
                proof {
                    assert(self@.states =~= before);
                }
            }
            let mut state = state;
            state.on_start();
            self.states.push(state);
            proof {
                assert(self@.states =~= before.push(state@));
            }
        }
    }

    /// Stop and discard the top screen, put a new one in its place, and
    /// start it; the stack's depth is unchanged.
    fn switch(&mut self, state: State)
        requires
            machine_wf(old(self)@),
            state_wf(state@),
        ensures
            machine_wf(final(self)@),
            final(self)@ == apply_transition_model(old(self)@, TransitionModel::Switch(state@)),
    {
        if self.running {
            let ghost before = self@.states;
            if self.states.len() > 0 {
                let mut top = self.states.pop().unwrap();
                top.on_stop();
                proof {
                    assert(self@.states =~= before.drop_last());
                }
            }
            let ghost rest = self@.states;
            let mut state = state;
            state.on_start();
            self.states.push(state);
            proof {
                assert(self@.states =~= rest.push(state@));
            }
        }
    }

    /// Stop every screen, topmost first, empty the stack and stop the
    /// machine.
    fn stop(&mut self)
        requires
            machine_wf(old(self)@),
        ensures
            machine_wf(final(self)@),
            final(self)@ == apply_transition_model(old(self)@, TransitionModel::Quit),
    {
        if self.running {
            while self.states.len() > 0
                invariant
                    true,
                decreases self.states.len(),
            {
                let mut top = self.states.pop().unwrap();
                top.on_stop();
            }
            self.running = false;
            proof {
                assert(self@.states =~= Seq::<StateModel>::empty());
            }
        }
    }

    /// Deliver a key press to the topmost screen and apply its verdict;
    /// a no-op while the machine is not running.
    pub fn handle_event(&mut self, k: Key)
        requires
            machine_wf(old(self)@),
        ensures
            machine_wf(final(self)@),
            !old(self)@.running ==> final(self)@ == old(self)@,
            old(self)@.running ==> final(self)@ == apply_transition_model(
                MachineModel {
                    running: true,
                    states: old(self)@.states.drop_last().push(
                        state_handle_state(old(self)@.states.last(), k),
                    ),
                },
                state_handle_trans(old(self)@.states.last(), k),
            ),
    {
        if self.running {
            let ghost before = self@.states;
            let mut top = self.states.pop().unwrap();
            proof {
                assert(state_wf(before[before.len() - 1]));
                assert(top@ == before.last());
            }
            let t = top.handle_event(k);
            self.states.push(top);
            proof {
                assert(self@.states =~= before.drop_last().push(
                    state_handle_state(before.last(), k),
                ));
            }
            self.transition(t);
        }
    }

    /// Deliver a time delta to the topmost screen and apply its verdict;
    /// a no-op while the machine is not running.
    pub fn update(&mut self, dt_ms: u64)
        requires
            machine_wf(old(self)@),
        ensures
            machine_wf(final(self)@),
            !old(self)@.running ==> final(self)@ == old(self)@,
            old(self)@.running ==> exists|s2: StateModel, t: TransitionModel|
                #[trigger] state_update_rel(old(self)@.states.last(), dt_ms, s2, t)
                    && transition_wf(t) && final(self)@ == apply_transition_model(
                    MachineModel {
                        running: true,
                        states: old(self)@.states.drop_last().push(s2),
                    },
                    t,
                ),
    {
        if self.running {
            let ghost before = self@.states;
            let mut top = self.states.pop().unwrap();
            proof {
                assert(state_wf(before[before.len() - 1]));
                assert(top@ == before.last());
            }
            let t = top.update(dt_ms);
            self.states.push(top);
            let ghost s2 = top@;
            let ghost tm = t@;
            proof {
                assert(self@.states =~= before.drop_last().push(s2));
            }
            self.transition(t);
            proof {
                assert(state_update_rel(before.last(), dt_ms, s2, tm) && transition_wf(tm)
                    && self@ == apply_transition_model(
                    MachineModel { running: true, states: before.drop_last().push(s2) },
                    tm,
                ));
            }
        }
    }

    /// Describe the frame the machine draws: the topmost screen's frame
    /// while running, nothing otherwise.
    pub fn render(&self) -> (r: Vec<DrawCmd>)
        requires
            machine_wf(self@),
        ensures
            r@ == machine_render_spec(self@),
    {
        if self.running {
            let top = &self.states[self.states.len() - 1];
            proof {
                assert(state_wf(self@.states[self@.states.len() - 1]));
                assert(top@ == self@.states.last());
            }
            top.render()
        } else {
            Vec::new()
        }
    }
}

/// Popping the only screen of a running machine stops it and leaves the
/// stack empty.
pub proof fn lemma_pop_last_state_stops(m: MachineModel)
    requires
        m.running,
        m.states.len() == 1,
    ensures
        !apply_transition_model(m, TransitionModel::Pop).running,
        apply_transition_model(m, TransitionModel::Pop).states.len() == 0,
{
}

/// Pushing a screen onto a running machine and popping it returns the
/// machine to exactly its previous value: the screen beneath resumes.
pub proof fn lemma_push_then_pop_resumes(m: MachineModel, s: StateModel)
    requires
        m.running,
        m.states.len() > 0,
    ensures
        apply_transition_model(apply_transition_model(m, TransitionModel::Push(s)), TransitionModel::Pop) == m,
{
    let pushed = apply_transition_model(m, TransitionModel::Push(s));
    assert(pushed.states.drop_last() =~= m.states);
    assert(apply_transition_model(pushed, TransitionModel::Pop) == m);
}

/// Switching replaces the top screen and keeps the machine running at the
/// same stack depth.
pub proof fn lemma_switch_swaps_top(m: MachineModel, s: StateModel)
    requires
        m.running,
        m.states.len() > 0,
    ensures
        apply_transition_model(m, TransitionModel::Switch(s)).running,
        apply_transition_model(m, TransitionModel::Switch(s)).states.len() == m.states.len(),
        apply_transition_model(m, TransitionModel::Switch(s)).states.last() == s,
{
}

/// Quit stops a running machine from any depth and empties its stack.
pub proof fn lemma_quit_stops(m: MachineModel)
    requires
        m.running,
    ensures
        !apply_transition_model(m, TransitionModel::Quit).running,
        apply_transition_model(m, TransitionModel::Quit).states.len() == 0,
{
}

} // verus!
