use vstd::prelude::*;
use crate::event::{count_output_lines, Event, EventView, KeyCode};
use crate::locks::{poll_view, LockRow, LockSnapshot, PollView};
use crate::log::{LogBuffer, LogView, LOG_WINDOW};
use crate::process::{ProcessSample, ProcessSummary};
use crate::series::{SeriesView, TimeSeries};

verus! {

/// Whether keystrokes are commands or text.
#[derive(Clone, Copy, Debug, PartialEq, Eq, Structural)]
pub enum InputMode {
    Normal,
    Editing,
}

/// What the collaborators observed while a tick was handled: the metrics
/// sampler's answer, the lock inspector's answer and the event-loop
/// utilisation in parts per million.
pub struct TickSample {
    /// `None` where the sampler did not find the process.
    pub process: Option<ProcessSample>,
    /// The polled rows, or the inspector's failure message.
    pub locks: Result<Vec<LockRow>, String>,
    pub elu_ppm: u32,
}

/// A tick's observations as plain values.
pub struct TickView {
    pub process: Option<ProcessSample>,
    pub locks: PollView,
    pub elu: nat,
}

impl View for TickSample {
    type V = TickView;

    open spec fn view(&self) -> TickView {
        TickView { process: self.process, locks: poll_view(self.locks), elu: self.elu_ppm as nat }
    }
}

/// The utilisation charted for a tick at which no reading could be had:
/// one half, in parts per million.
pub const ELU_FALLBACK_PPM: u32 = 500000;

/// The utilisation to chart for a reading, in parts per million: the
/// reading, or the fallback where there is none.
pub fn elu_or_fallback(reading: Option<u32>) -> (r: u32)
    ensures
        r == (match reading {
            Some(ppm) => ppm,
            None => ELU_FALLBACK_PPM,
        }),
{
    match reading {
        Some(ppm) => ppm,
        None => ELU_FALLBACK_PPM,
    }
}

/// Mathematical model of the dashboard's state.
pub struct AppView {
    pub cmd: Seq<char>,
    pub input_mode: InputMode,
    pub logs: LogView,
    pub process: ProcessSummary,
    pub locks: PollView,
    pub series: SeriesView,
    /// Set once the quit key was pressed.
    pub should_exit: bool,
    /// Cleared once the supervised process ended by itself.
    pub child_alive: bool,
}

impl AppView {
    /// The state at startup: placeholders everywhere.
    pub open spec fn fresh(cmd: Seq<char>) -> AppView {
        AppView {
            cmd,
            input_mode: InputMode::Normal,
            logs: LogView::empty(LOG_WINDOW as nat),
            process: ProcessSummary::Fetching,
            locks: PollView::Rows(Seq::empty()),
            series: SeriesView::empty(),
            should_exit: false,
            child_alive: true,
        }
    }

    /// The quit key asks for termination; every other key changes nothing.
    pub open spec fn apply_key_press(self, code: KeyCode) -> AppView {
        AppView { should_exit: self.should_exit || code.quits(), ..self }
    }

    /// One more line of output, empty or not.
    pub open spec fn append_output_line(self, text: Seq<char>) -> AppView {
        AppView { logs: self.logs.append(text), ..self }
    }

    /// The supervised process is gone.
    pub open spec fn process_exited(self) -> AppView {
        AppView { child_alive: false, ..self }
    }

    /// The summary is replaced whole.
    pub open spec fn update_process_summary(self, summary: ProcessSummary) -> AppView {
        AppView { process: summary, ..self }
    }

    /// The snapshot is replaced whole by that of `poll`.
    pub open spec fn update_lock_snapshot(self, poll: PollView) -> AppView {
        AppView { locks: poll, ..self }
    }

    /// Both series gain a point.
    pub open spec fn push_time_series_point(self, elu: nat, cpu: nat) -> AppView {
        AppView { series: self.series.push(elu, cpu), ..self }
    }

    /// A tick with its observations: summary and snapshot are replaced by
    /// what was observed, and the series gain the observed utilisation and
    /// CPU value.
    pub open spec fn apply_tick(self, tick: TickView) -> AppView {
        self.update_process_summary(ProcessSummary::of_sample(tick.process)).update_lock_snapshot(
            tick.locks,
        ).push_time_series_point(tick.elu, ProcessSummary::cpu_of(tick.process))
    }

    /// What an event changes by itself. A tick changes nothing until its
    /// observations arrive; `apply_tick` says what they change.
    pub open spec fn apply_event(self, event: EventView) -> AppView {
        match event {
            EventView::KeyPress(code) => self.apply_key_press(code),
            EventView::Tick => self,
            EventView::ProcessOutputLine(text) => self.append_output_line(text),
            EventView::ProcessExited => self.process_exited(),
        }
    }

    /// An event together with the observations made while it was handled,
    /// which count only where the event is a tick.
    pub open spec fn apply(self, event: EventView, tick: TickView) -> AppView {
        if event is Tick {
            self.apply_tick(tick)
        } else {
            self.apply_event(event)
        }
    }

    /// The state after the events of `events` were applied in order, the
    /// event at index `i` with the observations `ticks[i]`.
    pub open spec fn apply_all(self, events: Seq<EventView>, ticks: Seq<TickView>) -> AppView
        recommends
            events.len() == ticks.len(),
        decreases events.len(),
    {
        if events.len() == 0 {
            self
        } else {
            self.apply_all(events.drop_last(), ticks.drop_last()).apply(events.last(), ticks.last())
        }
    }
}

/// Whatever events are applied to a fresh state, and whatever was observed
/// at the ticks among them, the scrollback then holds as many lines as
/// there were events of process output, empty lines included.
pub proof fn lemma_log_length_counts_output_lines(
    cmd: Seq<char>,
    events: Seq<EventView>,
    ticks: Seq<TickView>,
)
    requires
        events.len() == ticks.len(),
    ensures
        AppView::fresh(cmd).apply_all(events, ticks).logs.lines.len() == count_output_lines(events),
        AppView::fresh(cmd).apply_all(events, ticks).logs.scroll_position() == count_output_lines(
            events,
        ),
    decreases events.len(),
{
    if events.len() > 0 {
        lemma_log_length_counts_output_lines(cmd, events.drop_last(), ticks.drop_last());
    }
}

/// A tick replaces the lock snapshot whole: the table after it is that of
/// the poll alone, all of the polled rows or the one sentinel row with the
/// failure's message, whatever the snapshot held before.
pub proof fn lemma_tick_replaces_snapshot(before: AppView, other: AppView, tick: TickView)
    ensures
        before.apply_tick(tick).locks == tick.locks,
        before.apply_tick(tick).locks == other.apply_tick(tick).locks,
        tick.locks matches PollView::Rows(rows) ==> before.apply_tick(tick).locks.table() == rows,
        tick.locks matches PollView::Failure(message) ==> before.apply_tick(tick).locks.table()
            == seq![crate::locks::sentinel_row(message)],
{
}

/// A tick replaces the process summary whole: it is the observed sample,
/// or the placeholder where the process was not found.
pub proof fn lemma_tick_replaces_summary(before: AppView, other: AppView, tick: TickView)
    ensures
        before.apply_tick(tick).process == ProcessSummary::of_sample(tick.process),
        before.apply_tick(tick).process == other.apply_tick(tick).process,
{
}

/// The scroll position never goes back, and only process output moves it.
pub proof fn lemma_scroll_position_monotonic(before: AppView, event: EventView, tick: TickView)
    ensures
        before.apply(event, tick).logs.scroll_position() >= before.logs.scroll_position(),
        before.apply(event, tick).logs.scroll_position() == before.logs.scroll_position() + if event is ProcessOutputLine {
            1nat
        } else {
            0nat
        },
{
}

/// The dashboard's state: scrollback, process summary, lock snapshot and
/// the charted series. Only the operations below change it, one event at a
/// time.
pub struct App {
    /// Current input mode.
    pub input_mode: InputMode,
    /// The command line of the supervised process.
    pub cmd: String,
    logs: LogBuffer,
    process: ProcessSummary,
    locks: LockSnapshot,
    series: TimeSeries,
    should_exit: bool,
    child_alive: bool,
}

impl View for App {
    type V = AppView;

    closed spec fn view(&self) -> AppView {
        AppView {
            cmd: self.cmd@,
            input_mode: self.input_mode,
            logs: self.logs@,
            process: self.process,
            locks: self.locks@,
            series: self.series@,
            should_exit: self.should_exit,
            child_alive: self.child_alive,
        }
    }
}

impl App {
    /// The state at startup, for the command line `cmd`.
    pub fn new(cmd: &str) -> (r: App)
        ensures
            r@ == AppView::fresh(cmd@),
            r@.series.wf(),
    {
        App {
            input_mode: InputMode::Normal,
            cmd: cmd.to_owned(),
            logs: LogBuffer::new(LOG_WINDOW),
            process: ProcessSummary::Fetching,
            locks: LockSnapshot::new(),
            series: TimeSeries::new(),
            should_exit: false,
            child_alive: true,
        }
    }

    /// Appends one line of process output to the scrollback; the scroll
    /// position advances by one, also for an empty line.
    pub fn update_logs(&mut self, log: &str)
        ensures
            final(self)@ == old(self)@.append_output_line(log@),
    {
        self.logs.append(log.to_owned());
    }

    /// Handles a keystroke: the quit key sets the termination flag.
    pub fn apply_key_press(&mut self, code: KeyCode)
        ensures
            final(self)@ == old(self)@.apply_key_press(code),
    {
        if code.is_quit() {
            self.should_exit = true;
        }
    }

    /// Records that the supervised process ended by itself.
    pub fn process_exited(&mut self)
        ensures
            final(self)@ == old(self)@.process_exited(),
    {
        self.child_alive = false;
    }

    /// Replaces the process summary.
    pub fn update_process_summary(&mut self, summary: ProcessSummary)
        ensures
            final(self)@ == old(self)@.update_process_summary(summary),
    {
        self.process = summary;
    }

    /// Replaces the lock snapshot by that of `poll`.
    pub fn update_lock_snapshot(&mut self, poll: Result<Vec<LockRow>, String>)
        ensures
            final(self)@ == old(self)@.update_lock_snapshot(poll_view(poll)),
    {
        self.locks.replace(poll);
    }

    /// Adds the values observed at one tick to the two series, in parts per
    /// million.
    pub fn push_time_series_point(&mut self, elu_ppm: u32, cpu_ppm: u32)
        requires
            old(self)@.series.latest < u64::MAX,
        ensures
            final(self)@ == old(self)@.push_time_series_point(elu_ppm as nat, cpu_ppm as nat),
            old(self)@.series.wf() ==> final(self)@.series.wf(),
    {
        self.series.push(elu_ppm, cpu_ppm);
    }

    /// Handles a tick, given what the sampler and the inspector answered.
    pub fn apply_tick(&mut self, sample: TickSample)
        requires
            old(self)@.series.latest < u64::MAX,
        ensures
            final(self)@ == old(self)@.apply_tick(sample@),
            old(self)@.series.wf() ==> final(self)@.series.wf(),
    {
        let cpu_ppm: u32 = match sample.process {
            Some(s) => s.cpu_ppm,
            None => 0,
        };
        self.update_process_summary(ProcessSummary::from_sample(sample.process));
        self.update_lock_snapshot(sample.locks);
        self.push_time_series_point(sample.elu_ppm, cpu_ppm);
    }

    /// Applies what `event` changes by itself and says whether the caller
    /// owes the observations of a tick: for a tick nothing changes here, and
    /// `apply_tick` is to follow.
    pub fn apply_event(&mut self, event: Event) -> (needs_sample: bool)
        ensures
            final(self)@ == old(self)@.apply_event(event@),
            needs_sample == (event@ is Tick),
    {
        match event {
            Event::KeyPress(code) => {
                self.apply_key_press(code);
                false
            },
            Event::Tick => true,
            Event::ProcessOutputLine(text) => {
                self.logs.append(text);
                false
            },
            Event::ProcessExited => {
                self.process_exited();
                false
            },
        }
    }

    /// Applies one event together with the observations made while it was
    /// handled; they count only where the event is a tick.
    pub fn apply(&mut self, event: Event, sample: TickSample)
        requires
            old(self)@.series.latest < u64::MAX,
        ensures
            final(self)@ == old(self)@.apply(event@, sample@),
            old(self)@.series.wf() ==> final(self)@.series.wf(),
    {
        let needs_sample = self.apply_event(event);
        if needs_sample {
            self.apply_tick(sample);
        }
    }

    /// Whether the quit key was pressed.
    pub fn should_exit(&self) -> (r: bool)
        ensures
            r == self@.should_exit,
    {
        self.should_exit
    }

    /// Whether the supervised process is still taken to be alive.
    pub fn child_alive(&self) -> (r: bool)
        ensures
            r == self@.child_alive,
    {
        self.child_alive
    }

    /// The scrollback.
    pub fn logs(&self) -> (r: &LogBuffer)
        ensures
            r@ == self@.logs,
    {
        &self.logs
    }

    /// The process summary.
    pub fn process(&self) -> (r: ProcessSummary)
        ensures
            r == self@.process,
    {
        self.process
    }

    /// The lock snapshot.
    pub fn locks(&self) -> (r: &LockSnapshot)
        ensures
            r@ == self@.locks,
    {
        &self.locks
    }

    /// The charted series.
    pub fn series(&self) -> (r: &TimeSeries)
        ensures
            r@ == self@.series,
    {
        &self.series
    }
}

} // verus!
