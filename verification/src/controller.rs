//! The lifecycle controller: a two-state machine driven by packet events and
//! by the end of each poll cycle.
//!
//! The caller owns the loop. Each cycle it calls [`ControllerState::begin_cycle`],
//! hands over every pending event with [`ControllerState::on_event`], and closes
//! the cycle with [`ControllerState::end_cycle`]; [`ControllerState::run_cycle`]
//! does the three at once. The controller answers with the commands to launch
//! and with what to report; it launches nothing itself.

use crate::text::text_of;
use crate::senders::SenderSet;
use vstd::prelude::*;

verus! {

/// Idle timeout used where none is configured, in seconds.
pub const DEFAULT_IDLE_TIMEOUT_SECS: u64 = 900;

/// Poll interval used where none is configured, in milliseconds.
pub const DEFAULT_POLL_INTERVAL_MS: u64 = 1000;

/// Whether the external service is presumed stopped or started.
#[derive(Clone, Copy, Debug, PartialEq, Eq, Structural)]
pub enum Lifecycle {
    Idle,
    Running,
}

/// The resolved configuration of the controller.
#[derive(Clone, Debug)]
pub struct Config {
    /// Launched on the first packet seen while idle.
    pub start_command: String,
    /// Launched when the idle timeout expires, if there is one.
    pub finish_command: Option<String>,
    /// How long the service may stay without traffic, in seconds.
    pub idle_timeout_secs: u64,
    /// The time between two poll cycles, in milliseconds.
    pub poll_interval_ms: u64,
    /// Whether the packet count of every cycle is reported.
    pub debug: bool,
}

/// One captured frame, as the controller sees it.
#[derive(Clone, Debug)]
pub struct PacketEvent {
    /// Capture time, in milliseconds on the clock shared with the controller.
    pub timestamp: u64,
    /// `address:port` of the sender; `None` where the frame gave none.
    pub sender_identity: Option<String>,
}

/// The mathematical content of a [`PacketEvent`].
pub struct EventView {
    pub timestamp: u64,
    pub sender: Option<Seq<char>>,
}

impl View for PacketEvent {
    type V = EventView;

    open spec fn view(&self) -> EventView {
        EventView { timestamp: self.timestamp, sender: text_of(self.sender_identity) }
    }
}

/// The views of a list of events, in order.
pub open spec fn event_views(events: Seq<PacketEvent>) -> Seq<EventView> {
    events.map_values(|event: PacketEvent| event@)
}

/// The time from `last` to `now` in milliseconds; zero where the clock reads
/// earlier than `last`.
pub open spec fn elapsed_ms(now: u64, last: u64) -> int {
    if now >= last {
        now - last
    } else {
        0
    }
}

/// Whether at `now` at least `timeout_secs` seconds have passed since `last`.
pub open spec fn idle_expired(now: u64, last: u64, timeout_secs: u64) -> bool {
    elapsed_ms(now, last) >= timeout_secs * 1000
}

/// The mathematical content of a [`ControllerState`].
pub struct StateView {
    pub lifecycle: Lifecycle,
    pub last_activity: u64,
    pub cycle_senders: Set<Seq<char>>,
    pub previous_senders: Set<Seq<char>>,
    pub cycle_packets: nat,
}

impl StateView {
    /// The state a controller starts in at time `now`.
    pub open spec fn initial(now: u64) -> StateView {
        StateView {
            lifecycle: Lifecycle::Idle,
            last_activity: now,
            cycle_senders: Set::empty(),
            previous_senders: Set::empty(),
            cycle_packets: 0,
        }
    }

    /// The state at the start of a cycle: nothing seen yet.
    pub open spec fn begin_cycle(self) -> StateView {
        StateView { cycle_senders: Set::empty(), cycle_packets: 0, ..self }
    }

    /// Whether an event arriving in this state fires the start command.
    pub open spec fn starts(self) -> bool {
        self.lifecycle == Lifecycle::Idle
    }

    /// The state after one event.
    pub open spec fn on_event(self, event: EventView) -> StateView {
        StateView {
            lifecycle: Lifecycle::Running,
            last_activity: event.timestamp,
            cycle_senders: match event.sender {
                Some(name) => self.cycle_senders.insert(name),
                None => self.cycle_senders,
            },
            previous_senders: self.previous_senders,
            cycle_packets: self.cycle_packets + 1,
        }
    }

    /// The state after the events of `events`, taken in order.
    pub open spec fn on_events(self, events: Seq<EventView>) -> StateView
        decreases events.len(),
    {
        if events.len() == 0 {
            self
        } else {
            self.on_events(events.drop_last()).on_event(events.last())
        }
    }

    /// How often the start command fires while `events` are taken in order.
    pub open spec fn start_count(self, events: Seq<EventView>) -> nat
        decreases events.len(),
    {
        if events.len() == 0 {
            0
        } else {
            self.start_count(events.drop_last()) + if self.on_events(events.drop_last()).starts() {
                1nat
            } else {
                0nat
            }
        }
    }

    /// Whether the end of the cycle reports a new number of distinct senders.
    pub open spec fn reports_clients(self) -> bool {
        self.cycle_senders != self.previous_senders
    }

    /// Whether the end of the cycle at `now` finds the idle timeout expired.
    pub open spec fn times_out(self, now: u64, timeout_secs: u64) -> bool {
        self.lifecycle == Lifecycle::Running && idle_expired(now, self.last_activity, timeout_secs)
    }

    /// The state after the end of the cycle at `now`.
    pub open spec fn end_cycle(self, now: u64, timeout_secs: u64) -> StateView {
        StateView {
            lifecycle: if self.times_out(now, timeout_secs) {
                Lifecycle::Idle
            } else {
                self.lifecycle
            },
            last_activity: self.last_activity,
            cycle_senders: self.cycle_senders,
            previous_senders: self.cycle_senders,
            cycle_packets: self.cycle_packets,
        }
    }

    /// The state after a whole cycle that takes `events` and ends at `now`.
    pub open spec fn run_cycle(self, events: Seq<EventView>, now: u64, timeout_secs: u64) -> StateView {
        self.begin_cycle().on_events(events).end_cycle(now, timeout_secs)
    }
}

/// What the end of a cycle asks the caller to report and to do.
#[derive(Debug)]
pub struct CycleReport {
    /// The number of distinct senders of the cycle, where it has to be
    /// reported: where the set of senders differs from that of the cycle before.
    pub client_count: Option<usize>,
    /// The number of packets of the cycle, where debug reporting is on.
    pub packet_count: Option<u64>,
    /// Whether the idle timeout expired and the lifecycle went back to idle.
    pub timed_out: bool,
    /// The finish command to launch, if the timeout expired and one is set.
    pub command: Option<String>,
}

impl CycleReport {
    /// Whether this is the report that the end of a cycle at `now` owes in
    /// `state`:
    /// the number of distinct senders exactly where their set differs from
    /// that of the cycle before, the number of packets exactly where debug
    /// reporting is on, whether the idle timeout expired, and the finish
    /// command exactly where it expired and a finish command is configured.
    pub open spec fn describes(self, state: StateView, now: u64, config: Config) -> bool {
        &&& self.client_count == if state.reports_clients() {
            Some(state.cycle_senders.len() as usize)
        } else {
            None
        }
        &&& self.packet_count == if config.debug {
            Some(state.cycle_packets as u64)
        } else {
            None
        }
        &&& self.timed_out == state.times_out(now, config.idle_timeout_secs)
        &&& text_of(self.command) == if self.timed_out {
            text_of(config.finish_command)
        } else {
            None
        }
    }
}

/// What a whole cycle asks the caller to report and to do.
#[derive(Debug)]
pub struct CycleOutcome {
    /// The start command to launch, if an event of the cycle found the
    /// controller idle.
    pub start: Option<String>,
    /// The report of the end of the cycle.
    pub report: CycleReport,
}

/// What the caller does between two cycles.
#[derive(Clone, Copy, Debug, PartialEq, Eq, Structural)]
pub enum NextStep {
    /// Sleep for the poll interval, then run the next cycle.
    Sleep { millis: u64 },
    /// End the run: the relay is gone and no activity can be seen any more.
    Halt,
}

impl Config {
    /// Resolves a configuration; a missing timeout or poll interval takes its
    /// default.
    pub fn new(
        start_command: String,
        finish_command: Option<String>,
        timeout_secs: Option<u64>,
        rate_ms: Option<u64>,
        debug: bool,
    ) -> (config: Config)
        ensures
            config.start_command == start_command,
            config.finish_command == finish_command,
            config.idle_timeout_secs == match timeout_secs {
                Some(secs) => secs,
                None => DEFAULT_IDLE_TIMEOUT_SECS,
            },
            config.poll_interval_ms == match rate_ms {
                Some(millis) => millis,
                None => DEFAULT_POLL_INTERVAL_MS,
            },
            config.debug == debug,
    {
        Config {
            start_command,
            finish_command,
            idle_timeout_secs: match timeout_secs {
                Some(secs) => secs,
                None => DEFAULT_IDLE_TIMEOUT_SECS,
            },
            poll_interval_ms: match rate_ms {
                Some(millis) => millis,
                None => DEFAULT_POLL_INTERVAL_MS,
            },
            debug,
        }
    }
}

/// Decides what follows a cycle: another one after the poll interval while
/// the relay is alive, the end of the run once it is gone.
pub fn next_step(config: &Config, relay_alive: bool) -> (step: NextStep)
    ensures
        step == if relay_alive {
            NextStep::Sleep { millis: config.poll_interval_ms }
        } else {
            NextStep::Halt
        },
{
    if relay_alive {
        NextStep::Sleep { millis: config.poll_interval_ms }
    } else {
        NextStep::Halt
    }
}

/// Whether at `now` at least `timeout_secs` seconds have passed since `last`.
pub fn has_idle_expired(now: u64, last: u64, timeout_secs: u64) -> (expired: bool)
    ensures
        expired == idle_expired(now, last, timeout_secs),
{
    let elapsed: u64 = if now >= last {
        now - last
    } else {
        0
    };
    elapsed / 1000 >= timeout_secs
}

/// The record owned by the lifecycle controller.
#[derive(Debug)]
pub struct ControllerState {
    lifecycle: Lifecycle,
    last_activity: u64,
    cycle_senders: SenderSet,
    previous_senders: SenderSet,
    cycle_packets: u64,
}

impl View for ControllerState {
    type V = StateView;

    closed spec fn view(&self) -> StateView {
        StateView {
            lifecycle: self.lifecycle,
            last_activity: self.last_activity,
            cycle_senders: self.cycle_senders@,
            previous_senders: self.previous_senders@,
            cycle_packets: self.cycle_packets as nat,
        }
    }
}

impl ControllerState {
    /// A controller that starts idle at time `now`.
    pub fn new(now: u64) -> (state: ControllerState)
        ensures
            state@ == StateView::initial(now),
    {
        ControllerState {
            lifecycle: Lifecycle::Idle,
            last_activity: now,
            cycle_senders: SenderSet::new(),
            previous_senders: SenderSet::new(),
            cycle_packets: 0,
        }
    }

    /// The current lifecycle.
    pub fn lifecycle(&self) -> (lifecycle: Lifecycle)
        ensures
            lifecycle == self@.lifecycle,
    {
        self.lifecycle
    }

    /// The capture time of the last event taken.
    pub fn last_activity(&self) -> (instant: u64)
        ensures
            instant == self@.last_activity,
    {
        self.last_activity
    }

    /// The number of events taken in the current cycle.
    pub fn cycle_packet_count(&self) -> (count: u64)
        ensures
            count == self@.cycle_packets,
    {
        self.cycle_packets
    }

    /// The distinct senders seen in the current cycle.
    pub fn cycle_senders(&self) -> (senders: &SenderSet)
        ensures
            senders@ == self@.cycle_senders,
    {
        &self.cycle_senders
    }

    /// The distinct senders of the cycle that was reported last.
    pub fn previous_senders(&self) -> (senders: &SenderSet)
        ensures
            senders@ == self@.previous_senders,
    {
        &self.previous_senders
    }

    /// Opens a cycle: forgets the senders and the packet count of the last one.
    pub fn begin_cycle(&mut self)
        ensures
            final(self)@ == old(self)@.begin_cycle(),
    {
        self.cycle_senders = SenderSet::new();
        self.cycle_packets = 0;
    }

    /// Takes one event.
    ///
    /// The event becomes the last activity, is counted, and its sender, if it
    /// has one, joins the senders of the cycle. Where the controller was idle
    /// it is now running, and the start command is returned for the caller to
    /// launch.
    pub fn on_event(&mut self, event: &PacketEvent, config: &Config) -> (command: Option<String>)
        requires
            old(self)@.cycle_packets < u64::MAX,
        ensures
            final(self)@ == old(self)@.on_event(event@),
            text_of(command) == if old(self)@.starts() {
                Some(config.start_command@)
            } else {
                None
            },
    {
        self.last_activity = event.timestamp;
        self.cycle_packets = self.cycle_packets + 1;
        if let Some(name) = &event.sender_identity {
            self.cycle_senders.insert(name.clone());
        }
        let command = match self.lifecycle {
            Lifecycle::Idle => Some(config.start_command.clone()),
            Lifecycle::Running => None,
        };
        self.lifecycle = Lifecycle::Running;
        command
    }

    /// Closes a cycle at time `now`.
    ///
    /// Reports the number of distinct senders where their set changed since
    /// the cycle before, and remembers the set. Where the controller is
    /// running and the idle timeout has expired, it goes back to idle and the
    /// finish command, if one is configured, is returned for the caller to
    /// launch.
    pub fn end_cycle(&mut self, now: u64, config: &Config) -> (report: CycleReport)
        ensures
            final(self)@ == old(self)@.end_cycle(now, config.idle_timeout_secs),
            report.describes(old(self)@, now, *config),
    {
        let client_count = if self.cycle_senders.same_members(&self.previous_senders) {
            None
        } else {
            Some(self.cycle_senders.len())
        };
        self.previous_senders = self.cycle_senders.snapshot();
        let packet_count = if config.debug {
            Some(self.cycle_packets)
        } else {
            None
        };
        let timed_out = match self.lifecycle {
            Lifecycle::Running => has_idle_expired(now, self.last_activity, config.idle_timeout_secs),
            Lifecycle::Idle => false,
        };
        let mut command: Option<String> = None;
        if timed_out {
            self.lifecycle = Lifecycle::Idle;
            if let Some(finish) = &config.finish_command {
                command = Some(finish.clone());
            }
        }
        CycleReport { client_count, packet_count, timed_out, command }
    }

    /// Runs one whole cycle: opens it, takes `events` in order, closes it at
    /// time `now`.
    pub fn run_cycle(&mut self, events: &Vec<PacketEvent>, now: u64, config: &Config) -> (outcome:
        CycleOutcome)
        ensures
            final(self)@ == old(self)@.run_cycle(event_views(events@), now, config.idle_timeout_secs),
            text_of(outcome.start) == if old(self)@.starts() && events@.len() > 0 {
                Some(config.start_command@)
            } else {
                None
            },
            outcome.report.describes(
                old(self)@.begin_cycle().on_events(event_views(events@)),
                now,
                *config,
            ),
            old(self)@.begin_cycle().on_events(event_views(events@)).cycle_packets == events@.len(),
    {
        self.begin_cycle();
        let ghost opened = self@;
        let ghost views = event_views(events@);
        let mut start: Option<String> = None;
        let mut i: usize = 0;
        while i < events.len()
            invariant
                i <= events@.len(),
                views == event_views(events@),
                self@ == opened.on_events(views.take(i as int)),
                self@.cycle_packets == i,
                opened == old(self)@.begin_cycle(),
                text_of(start) == if old(self)@.starts() && i > 0 {
                    Some(config.start_command@)
                } else {
                    None
                },
                i == 0 ==> self@.lifecycle == old(self)@.lifecycle,
                i > 0 ==> self@.lifecycle == Lifecycle::Running,
            decreases events@.len() - i,
        {
            proof {
                let next = views.take(i as int + 1);
                assert(next.drop_last() =~= views.take(i as int));
                assert(next.last() == events@[i as int]@);
            }
            let command = self.on_event(&events[i], config);
            if command.is_some() {
                start = command;
            }
            i += 1;
        }
        proof {
            assert(views.take(events@.len() as int) =~= views);
        }
        let report = self.end_cycle(now, config);
        CycleOutcome { start, report }
    }
}

} // verus!
