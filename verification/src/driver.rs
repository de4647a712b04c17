use vstd::prelude::*;
use crate::app::{App, AppView, TickSample, TickView};
use crate::event::{Event, EventView};

verus! {

/// Where the render loop stands.
#[derive(Clone, Copy, Debug, PartialEq, Eq, Structural)]
pub enum DriverState {
    /// Drawing frames and applying events.
    Running,
    /// The quit key was seen; child and event sources are being stopped.
    Terminating,
    /// Over; control is back with the caller.
    Stopped,
}

/// What the loop around the driver has to do next.
#[derive(Clone, Copy, Debug, PartialEq, Eq, Structural)]
pub enum Action {
    /// Draw a frame and wait for the next event.
    Render,
    /// Ask the sampler and the inspector, then hand their answers to
    /// `on_sample`.
    Sample,
    /// Terminate the supervised process if `kill_child` says so, stop the
    /// event sources, then call `finish`.
    Shutdown { kill_child: bool },
    /// Nothing: the input was not applied, and nothing is polled or drawn.
    Idle,
}

/// Mathematical model of the driver: the dashboard's state and the state
/// of the loop.
pub struct DriverView {
    pub app: AppView,
    pub state: DriverState,
}

impl DriverView {
    /// The driver at startup.
    pub open spec fn start(app: AppView) -> DriverView {
        DriverView { app, state: DriverState::Running }
    }

    /// The driver after `event` arrived. While running, the event is
    /// applied, and the loop goes on to terminate where the termination
    /// flag is then set; a tick is applied once its observations are in.
    /// Otherwise nothing changes.
    pub open spec fn on_event(self, event: EventView) -> DriverView {
        if self.state != DriverState::Running {
            self
        } else {
            let app = self.app.apply_event(event);
            DriverView {
                app,
                state: if app.should_exit {
                    DriverState::Terminating
                } else {
                    DriverState::Running
                },
            }
        }
    }

    /// What the loop has to do after `event` arrived.
    pub open spec fn event_action(self, event: EventView) -> Action {
        if self.state != DriverState::Running {
            Action::Idle
        } else if self.app.apply_event(event).should_exit {
            Action::Shutdown { kill_child: self.app.apply_event(event).child_alive }
        } else if event is Tick {
            Action::Sample
        } else {
            Action::Render
        }
    }

    /// The driver after the observations of a tick arrived: applied while
    /// running, dropped otherwise.
    pub open spec fn on_sample(self, tick: TickView) -> DriverView {
        if self.state != DriverState::Running {
            self
        } else {
            DriverView { app: self.app.apply_tick(tick), state: DriverState::Running }
        }
    }

    /// What the loop has to do after the observations of a tick arrived.
    pub open spec fn sample_action(self) -> Action {
        if self.state != DriverState::Running {
            Action::Idle
        } else {
            Action::Render
        }
    }

    /// The driver after child and event sources were stopped.
    pub open spec fn finish(self) -> DriverView {
        if self.state == DriverState::Terminating {
            DriverView { app: self.app, state: DriverState::Stopped }
        } else {
            self
        }
    }

    /// What holds of every driver started on a state whose termination flag
    /// is clear: it runs exactly as long as the flag is not set.
    pub open spec fn wf(self) -> bool {
        (self.state == DriverState::Running) <==> !self.app.should_exit
    }
}

/// One input to the driver.
pub enum Input {
    Event(EventView),
    Sample(TickView),
    Finish,
}

impl DriverView {
    /// The driver after one input.
    pub open spec fn step(self, input: Input) -> DriverView {
        match input {
            Input::Event(event) => self.on_event(event),
            Input::Sample(tick) => self.on_sample(tick),
            Input::Finish => self.finish(),
        }
    }

    /// What the loop has to do after one input.
    pub open spec fn step_action(self, input: Input) -> Action {
        match input {
            Input::Event(event) => self.event_action(event),
            Input::Sample(_) => self.sample_action(),
            Input::Finish => Action::Idle,
        }
    }

    /// The driver after the inputs of `inputs`, in order.
    pub open spec fn run(self, inputs: Seq<Input>) -> DriverView
        decreases inputs.len(),
    {
        if inputs.len() == 0 {
            self
        } else {
            self.run(inputs.drop_last()).step(inputs.last())
        }
    }
}

/// The loop stops only by way of terminating: an input leaves the driver
/// stopped only if it was terminating or already stopped, and a running
/// driver never goes back from terminating or stopped.
pub proof fn lemma_stopped_only_via_terminating(d: DriverView, input: Input)
    ensures
        d.step(input).state == DriverState::Stopped ==> d.state == DriverState::Terminating
            || d.state == DriverState::Stopped,
        d.state != DriverState::Running ==> d.step(input).state != DriverState::Running,
        d.state == DriverState::Stopped ==> d.step(input) == d,
{
}

/// Once the driver has left `Running`, no event and no observation has any
/// effect: the dashboard's state stays as it is, and the loop is told to
/// poll and draw nothing.
pub proof fn lemma_no_effect_after_running(d: DriverView, inputs: Seq<Input>)
    requires
        d.state != DriverState::Running,
    ensures
        d.run(inputs).app == d.app,
        d.run(inputs).state != DriverState::Running,
        forall|i: int|
            0 <= i < inputs.len() ==> #[trigger] d.run(inputs.take(i)).step_action(inputs[i])
                == Action::Idle,
    decreases inputs.len(),
{
    if inputs.len() > 0 {
        lemma_no_effect_after_running(d, inputs.drop_last());
        assert forall|i: int| 0 <= i < inputs.len() implies #[trigger] d.run(
            inputs.take(i),
        ).step_action(inputs[i]) == Action::Idle by {
            if i < inputs.len() - 1 {
                assert(inputs.take(i) =~= inputs.drop_last().take(i));
                assert(inputs[i] == inputs.drop_last()[i]);
            }
        }
    }
}

/// Started from a state whose termination flag is clear, the driver runs
/// exactly as long as the flag stays clear.
pub proof fn lemma_running_iff_flag_clear(app: AppView, inputs: Seq<Input>)
    requires
        !app.should_exit,
    ensures
        DriverView::start(app).run(inputs).wf(),
    decreases inputs.len(),
{
    if inputs.len() > 0 {
        lemma_running_iff_flag_clear(app, inputs.drop_last());
    }
}

/// The render loop's decisions: it owns the dashboard's state, applies one
/// input at a time and tells the loop around it what to do next.
pub struct Driver {
    app: App,
    state: DriverState,
}

impl View for Driver {
    type V = DriverView;

    closed spec fn view(&self) -> DriverView {
        DriverView { app: self.app@, state: self.state }
    }
}

impl Driver {
    /// A driver over `app`. It starts out running, whatever `app` holds.
    pub fn new(app: App) -> (r: Driver)
        ensures
            r@ == DriverView::start(app@),
    {
        Driver { app, state: DriverState::Running }
    }

    /// Takes one event from the multiplexer.
    pub fn on_event(&mut self, event: Event) -> (action: Action)
        ensures
            final(self)@ == old(self)@.on_event(event@),
            action == old(self)@.event_action(event@),
            old(self)@.wf() ==> final(self)@.wf(),
            old(self)@.app.series.wf() ==> final(self)@.app.series.wf(),
    {
        match self.state {
            DriverState::Running => {
                let needs_sample = self.app.apply_event(event);
                if self.app.should_exit() {
                    self.state = DriverState::Terminating;
                    Action::Shutdown { kill_child: self.app.child_alive() }
                } else if needs_sample {
                    Action::Sample
                } else {
                    Action::Render
                }
            },
            _ => Action::Idle,
        }
    }

    /// Takes the observations that a tick asked for.
    pub fn on_sample(&mut self, sample: TickSample) -> (action: Action)
        requires
            old(self)@.app.series.latest < u64::MAX,
        ensures
            final(self)@ == old(self)@.on_sample(sample@),
            action == old(self)@.sample_action(),
            old(self)@.wf() ==> final(self)@.wf(),
            old(self)@.app.series.wf() ==> final(self)@.app.series.wf(),
    {
        match self.state {
            DriverState::Running => {
                self.app.apply_tick(sample);
                Action::Render
            },
            _ => Action::Idle,
        }
    }

    /// Records that child and event sources were stopped.
    pub fn finish(&mut self)
        ensures
            final(self)@ == old(self)@.finish(),
            old(self)@.wf() ==> final(self)@.wf(),
    {
        match self.state {
            DriverState::Terminating => {
                self.state = DriverState::Stopped;
            },
            _ => {},
        }
    }

    /// Where the loop stands.
    pub fn state(&self) -> (r: DriverState)
        ensures
            r == self@.state,
    {
        self.state
    }

    /// The dashboard's state, for the renderer.
    pub fn app(&self) -> (r: &App)
        ensures
            r@ == self@.app,
    {
        &self.app
    }
}

} // verus!
