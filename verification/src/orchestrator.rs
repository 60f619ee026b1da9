//! The window-facing control loop: it is driven by the host's events, runs
//! one revolution whenever its interval has passed, and brings itself and the
//! renderer to a halt.
//!
//! The host owns the clock, the window system and the renderer's thread. It
//! hands in each event with the current time, counted in units of its own
//! choosing from a start of its own choosing, and carries out what comes back:
//! when to be woken next, and the join of the renderer's thread.

use crate::communicator::{envelopes, Communicator, Ledger, Posting};
use crate::communique::{Communique, Envelope};
use crate::messages::{MessageFromOrchestratorToRenderer, MessageFromRendererToOrchestrator};
use std::sync::mpsc::{Receiver, Sender};
use vstd::prelude::*;

verus! {

/// Whether a key went down or came up.
#[derive(Clone, Copy, Debug, PartialEq, Eq, Structural)]
pub enum KeyState {
    Pressed,
    Released,
}

/// The keys that the orchestrator tells apart.
#[derive(Clone, Copy, Debug, PartialEq, Eq, Structural)]
pub enum Key {
    Escape,
    Other,
}

/// What a window reports.
#[derive(Clone, Copy, Debug, PartialEq, Eq, Structural)]
pub enum WindowSignal {
    CloseRequested,
    KeyboardInput { state: KeyState, key: Option<Key> },
    Other,
}

/// An event of the host's loop.
#[derive(Clone, Copy, Debug, PartialEq, Eq, Structural)]
pub enum HostEvent {
    /// A signal of some window; `own` says whether it is the orchestrator's.
    Window { own: bool, signal: WindowSignal },
    /// The host's loop is being torn down.
    LoopDestroyed,
    /// Anything else, a timer's wake-up included.
    Other,
}

/// What the host's loop is to do next.
#[derive(Clone, Copy, Debug, PartialEq, Eq, Structural)]
pub enum Flow {
    /// Leave the loop.
    Exit,
    /// Sleep until the given time or the next event, whichever comes first.
    WaitUntil(u64),
}

/// Where the orchestrator stands.
#[derive(Clone, Copy, Debug, PartialEq, Eq, Structural)]
pub enum Phase {
    /// Revolving; the renderer's thread handle is held.
    Running,
    /// The halt command is out and the handle has been given up for joining.
    Halting,
    /// The renderer's thread is known to have ended.
    Halted,
}

/// What one event leaves for the host to carry out.
pub struct Outcome<H> {
    pub flow: Flow,
    /// The renderer's thread handle, where this event began the halt: the
    /// host joins it and then calls `renderer_joined`.
    pub join: Option<H>,
    /// Whether this was the tear-down notice of a loop already left.
    pub teardown: bool,
    /// What this event's revolution gathered from the link, in the order in
    /// which it was handed over; empty where no revolution ran.
    pub telemetry: Vec<Communique<MessageFromRendererToOrchestrator>>,
}

/// What an [`Orchestrator`] is, mathematically.
pub struct Controller<H> {
    pub halted: bool,
    /// Revolutions run so far.
    pub tick: nat,
    pub max_tick: nat,
    pub heed_max_tick: bool,
    /// The earliest time at which the next revolution may run.
    pub next_wake: nat,
    pub interval: nat,
    /// The renderer's thread handle, until the halt takes it.
    pub handle: Option<H>,
    pub link: Ledger<MessageFromRendererToOrchestrator, MessageFromOrchestratorToRenderer>,
}

/// One call of `window_event`, with what its revolution drained.
pub struct Visit {
    pub event: HostEvent,
    pub now: nat,
    pub inbound: Seq<Envelope<MessageFromRendererToOrchestrator>>,
}

/// Whether `event` asks for a halt: the close request of the orchestrator's
/// own window, or Escape going down in it.
pub open spec fn requests_halt(event: HostEvent) -> bool {
    match event {
        HostEvent::Window { own, signal } => own && match signal {
            WindowSignal::CloseRequested => true,
            WindowSignal::KeyboardInput { state, key } => state is Pressed && key == Some(
                Key::Escape,
            ),
            WindowSignal::Other => false,
        },
        _ => false,
    }
}

/// The command that the revolution numbered `tick` sends, if any.
pub open spec fn scheduled_command(tick: nat) -> Option<MessageFromOrchestratorToRenderer> {
    if tick == 1 {
        Some(MessageFromOrchestratorToRenderer::Test(2))
    } else {
        None
    }
}

/// Whether a revolution may run at `now`.
pub open spec fn due(next_wake: nat, now: nat) -> bool {
    now >= next_wake
}

impl<H> Controller<H> {
    pub open spec fn phase(self) -> Phase {
        if self.halted {
            Phase::Halted
        } else if self.handle is None {
            Phase::Halting
        } else {
            Phase::Running
        }
    }

    /// Once halted, the handle is gone.
    pub open spec fn wf(self) -> bool {
        self.halted ==> self.handle is None
    }

    /// The halt: the command goes out and the handle is given up. Anywhere
    /// but in `Running` there is no handle to give, and nothing happens.
    pub open spec fn halt(self) -> Self {
        if self.phase() is Running {
            Controller {
                handle: None,
                link: self.link.post(Posting::Plain(MessageFromOrchestratorToRenderer::Halt)),
                ..self
            }
        } else {
            self
        }
    }

    /// The host has joined the renderer's thread.
    pub open spec fn joined(self) -> Self {
        if self.phase() is Halting {
            Controller { halted: true, ..self }
        } else {
            self
        }
    }

    /// One revolution: `inbound` is drained, then the command scheduled for
    /// this tick goes out.
    pub open spec fn revolve(self, inbound: Seq<Envelope<MessageFromRendererToOrchestrator>>) -> Self {
        let drained = self.link.receive(inbound);
        Controller {
            link: match scheduled_command(self.tick) {
                Some(command) => drained.post(Posting::Plain(command)),
                None => drained,
            },
            ..self
        }
    }

    /// The tick check at `now`: when due, the wake-up moves one interval past
    /// `now`, one revolution runs, and reaching the heeded ceiling halts.
    pub open spec fn tick_check(
        self,
        now: nat,
        inbound: Seq<Envelope<MessageFromRendererToOrchestrator>>,
    ) -> Self {
        if due(self.next_wake, now) {
            let revolved = Controller {
                next_wake: now + self.interval,
                tick: self.tick + 1,
                ..self.revolve(inbound)
            };
            if revolved.heed_max_tick && revolved.tick == revolved.max_tick {
                revolved.halt()
            } else {
                revolved
            }
        } else {
            self
        }
    }

    /// Whether an event at `now` runs a revolution.
    pub open spec fn revolves_at(self, now: nat) -> bool {
        self.phase() is Running && due(self.next_wake, now)
    }

    /// One event: swallowed unless `Running`; else a requested halt begins at
    /// once, and the tick check follows either way.
    pub open spec fn on_event(
        self,
        event: HostEvent,
        now: nat,
        inbound: Seq<Envelope<MessageFromRendererToOrchestrator>>,
    ) -> Self {
        if self.phase() is Running {
            (if requests_halt(event) {
                self.halt()
            } else {
                self
            }).tick_check(now, inbound)
        } else {
            self
        }
    }

    pub open spec fn visit(self, visit: Visit) -> Self {
        self.on_event(visit.event, visit.now, visit.inbound)
    }

    /// The controller after each of `visits` in turn.
    pub open spec fn after(self, visits: Seq<Visit>) -> Self
        decreases visits.len(),
    {
        if visits.len() == 0 {
            self
        } else {
            self.after(visits.drop_last()).visit(visits.last())
        }
    }

    /// Whether the visit numbered `k` runs a revolution.
    pub open spec fn revolved_at(self, visits: Seq<Visit>, k: int) -> bool {
        self.after(visits.take(k)).revolves_at(visits[k].now)
    }
}

/// The window-facing loop's state: its pacing, its endpoint of the link, and
/// the renderer's thread handle, of whatever type `H` the host uses.
pub struct Orchestrator<H> {
    halt: bool,
    tick: usize,
    max_tick: usize,
    heed_max_tick: bool,
    next_revolution_time: u64,
    revolution_interval: u64,
    renderer_thread_handle: Option<H>,
    renderer_communicator: Communicator<
        MessageFromRendererToOrchestrator,
        MessageFromOrchestratorToRenderer,
    >,
}

impl<H> View for Orchestrator<H> {
    type V = Controller<H>;

    closed spec fn view(&self) -> Controller<H> {
        Controller {
            halted: self.halt,
            tick: self.tick as nat,
            max_tick: self.max_tick as nat,
            heed_max_tick: self.heed_max_tick,
            next_wake: self.next_revolution_time as nat,
            interval: self.revolution_interval as nat,
            handle: self.renderer_thread_handle,
            link: self.renderer_communicator@,
        }
    }
}

/// Whether `event` asks for a halt.
pub fn asks_for_halt(event: &HostEvent) -> (asked: bool)
    ensures
        asked == requests_halt(*event),
{
    match event {
        HostEvent::Window { own, signal } => {
            if !*own {
                return false;
            }
            match signal {
                WindowSignal::CloseRequested => true,
                WindowSignal::KeyboardInput { state, key } => {
                    let pressed = match state {
                        KeyState::Pressed => true,
                        KeyState::Released => false,
                    };
                    let escape = match key {
                        Some(Key::Escape) => true,
                        _ => false,
                    };
                    pressed && escape
                },
                WindowSignal::Other => false,
            }
        },
        _ => false,
    }
}

impl<H> Orchestrator<H> {
    /// A running orchestrator at tick 0, due at once, that revolves every
    /// 100 units of time and heeds no ceiling.
    pub fn new(
        message_channel_receiver: Receiver<Communique<MessageFromRendererToOrchestrator>>,
        command_channel_sender: Sender<Communique<MessageFromOrchestratorToRenderer>>,
        renderer_thread_handle: H,
        now: u64,
    ) -> (orchestrator: Orchestrator<H>)
        ensures
            orchestrator@ == (Controller {
                halted: false,
                tick: 0,
                max_tick: 100,
                heed_max_tick: false,
                next_wake: now as nat,
                interval: 100,
                handle: Some(renderer_thread_handle),
                link: Ledger {
                    inbound: message_channel_receiver,
                    outbound: command_channel_sender,
                    next_id: 0,
                    dispatched: Seq::empty(),
                    polled: Seq::empty(),
                },
            }),
            orchestrator@.wf(),
    {
        Orchestrator::with_pacing(
            message_channel_receiver,
            command_channel_sender,
            renderer_thread_handle,
            now,
            100,
            100,
            false,
        )
    }

    /// As `new`, with the interval and the ceiling chosen by the caller.
    pub fn with_pacing(
        message_channel_receiver: Receiver<Communique<MessageFromRendererToOrchestrator>>,
        command_channel_sender: Sender<Communique<MessageFromOrchestratorToRenderer>>,
        renderer_thread_handle: H,
        now: u64,
        revolution_interval: u64,
        max_tick: usize,
        heed_max_tick: bool,
    ) -> (orchestrator: Orchestrator<H>)
        ensures
            orchestrator@ == (Controller {
                halted: false,
                tick: 0,
                max_tick: max_tick as nat,
                heed_max_tick,
                next_wake: now as nat,
                interval: revolution_interval as nat,
                handle: Some(renderer_thread_handle),
                link: Ledger {
                    inbound: message_channel_receiver,
                    outbound: command_channel_sender,
                    next_id: 0,
                    dispatched: Seq::empty(),
                    polled: Seq::empty(),
                },
            }),
            orchestrator@.wf(),
    {
        Orchestrator {
            halt: false,
            tick: 0,
            max_tick,
            heed_max_tick,
            next_revolution_time: now,
            revolution_interval,
            renderer_thread_handle: Some(renderer_thread_handle),
            renderer_communicator: Communicator::new(
                message_channel_receiver,
                command_channel_sender,
            ),
        }
    }

    /// Where the orchestrator stands.
    pub fn phase(&self) -> (phase: Phase)
        ensures
            phase == self@.phase(),
    {
        if self.halt {
            Phase::Halted
        } else if self.renderer_thread_handle.is_none() {
            Phase::Halting
        } else {
            Phase::Running
        }
    }

    /// Revolutions run so far.
    pub fn tick(&self) -> (tick: usize)
        ensures
            tick == self@.tick,
    {
        self.tick
    }

    /// The earliest time at which the next revolution may run.
    pub fn next_revolution_time(&self) -> (time: u64)
        ensures
            time == self@.next_wake,
    {
        self.next_revolution_time
    }

    /// The least time between two revolutions.
    pub fn revolution_interval(&self) -> (interval: u64)
        ensures
            interval == self@.interval,
    {
        self.revolution_interval
    }

    /// Whether an event at `now` would run a revolution.
    pub fn revolves_at(&self, now: u64) -> (revolves: bool)
        ensures
            revolves == self@.revolves_at(now as nat),
    {
        !self.halt && self.renderer_thread_handle.is_some() && now >= self.next_revolution_time
    }

    /// Begins the halt: sends the halt command, whether or not the renderer
    /// is still there to take it, and gives up the renderer's thread handle
    /// for the host to join. The handle leaves only once: any later call
    /// sends nothing and returns `None`.
    pub fn halt(&mut self) -> (join: Option<H>)
        ensures
            final(self)@ == old(self)@.halt(),
            old(self)@.wf() ==> final(self)@.wf(),
            join == if old(self)@.phase() is Running {
                old(self)@.handle
            } else {
                None
            },
    {
        if self.halt || self.renderer_thread_handle.is_none() {
            return None;
        }
        let _ = self.renderer_communicator.send_message(MessageFromOrchestratorToRenderer::Halt);
        self.renderer_thread_handle.take()
    }

    /// Completes the halt, once the host has joined the renderer's thread.
    pub fn renderer_joined(&mut self)
        ensures
            final(self)@ == old(self)@.joined(),
            old(self)@.wf() ==> final(self)@.wf(),
    {
        if self.renderer_thread_handle.is_none() {
            self.halt = true;
        }
    }

    /// One revolution: drains the link, returns what the drain gathered, and
    /// sends the command scheduled for the current tick, if there is one.
    pub fn revolution(&mut self) -> (telemetry: Vec<Communique<MessageFromRendererToOrchestrator>>)
        ensures
            final(self)@ == old(self)@.revolve(envelopes(telemetry@)),
            old(self)@.wf() ==> final(self)@.wf(),
    {
        let telemetry = self.renderer_communicator.collect_messages();
        if self.tick == 1 {
            let _ = self.renderer_communicator.send_message(
                MessageFromOrchestratorToRenderer::Test(2),
            );
        }
        telemetry
    }

    /// Handles one event of the host's loop at time `now`.
    ///
    /// Unless running, the event is swallowed and the host is told to exit.
    /// Otherwise a close request or Escape begins the halt at once; then, if
    /// a revolution is due, the wake-up time moves one interval past `now`,
    /// exactly one revolution runs, the tick advances, and reaching a heeded
    /// ceiling begins the halt too. The host is told to wait until the
    /// wake-up time.
    pub fn window_event(&mut self, event: HostEvent, now: u64) -> (outcome: Outcome<H>)
        requires
            old(self)@.revolves_at(now as nat) ==> {
                &&& old(self)@.tick < usize::MAX
                &&& now + old(self)@.interval <= u64::MAX
            },
        ensures
            final(self)@ == old(self)@.on_event(event, now as nat, envelopes(outcome.telemetry@)),
            old(self)@.wf() ==> final(self)@.wf(),
            !old(self)@.revolves_at(now as nat) ==> outcome.telemetry@.len() == 0,
            outcome.flow == if old(self)@.phase() is Running {
                Flow::WaitUntil(final(self)@.next_wake as u64)
            } else {
                Flow::Exit
            },
            outcome.join == if old(self)@.phase() is Running && !(final(self)@.phase() is Running) {
                old(self)@.handle
            } else {
                None
            },
            outcome.teardown == (!(old(self)@.phase() is Running) && event is LoopDestroyed),
    {
        if self.halt || self.renderer_thread_handle.is_none() {
            let teardown = match event {
                HostEvent::LoopDestroyed => true,
                _ => false,
            };
            return Outcome { flow: Flow::Exit, join: None, teardown, telemetry: Vec::new() };
        }
        let mut join: Option<H> = None;
        if asks_for_halt(&event) {
            join = self.halt();
        }
        let mut telemetry: Vec<Communique<MessageFromRendererToOrchestrator>> = Vec::new();
        if now >= self.next_revolution_time {
            self.next_revolution_time = now + self.revolution_interval;
            telemetry = self.revolution();
            self.tick += 1;
            if self.heed_max_tick && self.tick == self.max_tick {
                let late = self.halt();
                join = match join {
                    Some(handle) => Some(handle),
                    None => late,
                };
            }
        }
        Outcome { flow: Flow::WaitUntil(self.next_revolution_time), join, teardown: false, telemetry }
    }
}

/// One event runs at most one revolution: the tick advances by one where a
/// revolution was due to a running controller, and not at all otherwise,
/// however late the event comes. The pacing itself never changes, and the
/// wake-up time never moves back.
pub proof fn lemma_visit_revolves_at_most_once<H>(controller: Controller<H>, visit: Visit)
    ensures
        controller.visit(visit).tick == controller.tick + if controller.revolves_at(visit.now) {
            1nat
        } else {
            0nat
        },
        controller.revolves_at(visit.now) ==> controller.visit(visit).next_wake == visit.now
            + controller.interval,
        !controller.revolves_at(visit.now) ==> controller.visit(visit).next_wake
            == controller.next_wake,
        controller.visit(visit).next_wake >= controller.next_wake,
        controller.visit(visit).interval == controller.interval,
        controller.visit(visit).max_tick == controller.max_tick,
        controller.visit(visit).heed_max_tick == controller.heed_max_tick,
{
}

/// Over any run of events the pacing stays as it was, the wake-up time
/// never moves back, and no more revolutions run than events came.
pub proof fn lemma_after_keeps_pacing<H>(controller: Controller<H>, visits: Seq<Visit>)
    ensures
        controller.after(visits).interval == controller.interval,
        controller.after(visits).max_tick == controller.max_tick,
        controller.after(visits).heed_max_tick == controller.heed_max_tick,
        controller.after(visits).next_wake >= controller.next_wake,
        controller.tick <= controller.after(visits).tick <= controller.tick + visits.len(),
    decreases visits.len(),
{
    if visits.len() > 0 {
        lemma_after_keeps_pacing(controller, visits.drop_last());
        lemma_visit_revolves_at_most_once(controller.after(visits.drop_last()), visits.last());
    }
}

/// The wake-up time after the first `b` of a run of events is no earlier
/// than after the first `a` of them, for `a <= b`.
proof fn lemma_wake_never_moves_back<H>(
    controller: Controller<H>,
    visits: Seq<Visit>,
    a: int,
    b: int,
)
    requires
        0 <= a <= b <= visits.len(),
    ensures
        controller.after(visits.take(a)).next_wake <= controller.after(visits.take(b)).next_wake,
        controller.after(visits.take(b)).interval == controller.interval,
    decreases b - a,
{
    lemma_after_keeps_pacing(controller, visits.take(b));
    if a < b {
        lemma_wake_never_moves_back(controller, visits, a, b - 1);
        assert(visits.take(b).drop_last() == visits.take(b - 1));
        lemma_visit_revolves_at_most_once(
            controller.after(visits.take(b - 1)),
            visits.take(b).last(),
        );
    }
}

/// No two revolutions run within one interval of each other: where two
/// events of a run both ran a revolution, the later came at least one
/// interval after the earlier, however fast the host calls.
pub proof fn lemma_revolutions_are_spaced<H>(
    controller: Controller<H>,
    visits: Seq<Visit>,
    i: int,
    j: int,
)
    requires
        0 <= i < j < visits.len(),
        controller.revolved_at(visits, i),
        controller.revolved_at(visits, j),
    ensures
        visits[j].now >= visits[i].now + controller.interval,
{
    let before = controller.after(visits.take(i));
    lemma_wake_never_moves_back(controller, visits, i, i);
    assert(visits.take(i + 1).drop_last() == visits.take(i));
    lemma_visit_revolves_at_most_once(before, visits[i]);
    lemma_wake_never_moves_back(controller, visits, i + 1, j);
}

/// A host that calls no faster than the interval gets one revolution per
/// event: where the first event is due and each later one comes at least an
/// interval after the one before, every event that finds the controller
/// running runs a revolution.
pub proof fn lemma_slow_host_revolves_every_visit<H>(
    controller: Controller<H>,
    visits: Seq<Visit>,
    k: int,
)
    requires
        0 <= k < visits.len(),
        due(controller.next_wake, visits[0].now),
        forall|m: int|
            0 <= m < visits.len() - 1 ==> (#[trigger] visits[m + 1]).now >= visits[m].now
                + controller.interval,
        controller.after(visits.take(k)).phase() is Running,
    ensures
        controller.revolved_at(visits, k),
{
    lemma_slow_host_is_due(controller, visits, k);
}

/// Under the pacing of a slow host, every event comes at or after the
/// wake-up time that the events before it left.
proof fn lemma_slow_host_is_due<H>(controller: Controller<H>, visits: Seq<Visit>, k: int)
    requires
        0 <= k < visits.len(),
        due(controller.next_wake, visits[0].now),
        forall|m: int|
            0 <= m < visits.len() - 1 ==> (#[trigger] visits[m + 1]).now >= visits[m].now
                + controller.interval,
    ensures
        due(controller.after(visits.take(k)).next_wake, visits[k].now),
    decreases k,
{
    if k == 0 {
        assert(visits.take(0).len() == 0);
    } else {
        lemma_slow_host_is_due(controller, visits, k - 1);
        lemma_wake_never_moves_back(controller, visits, k - 1, k - 1);
        assert(visits.take(k).drop_last() == visits.take(k - 1));
        assert(visits.take(k).last() == visits[k - 1]);
        lemma_visit_revolves_at_most_once(controller.after(visits.take(k - 1)), visits[k - 1]);
        assert(visits[(k - 1) + 1].now >= visits[k - 1].now + controller.interval);
    }
}

/// The halt gives the handle up once and for all: after it the controller
/// is no longer running, a second halt changes nothing, and no event changes
/// anything either, so the handle can leave for a join only once.
pub proof fn lemma_halt_is_final<H>(controller: Controller<H>, visit: Visit)
    requires
        controller.wf(),
    ensures
        !(controller.halt().phase() is Running),
        controller.halt().handle is None,
        controller.halt().halt() == controller.halt(),
        controller.halt().visit(visit) == controller.halt(),
        controller.phase() is Running ==> controller.halt().phase() is Halting
            && controller.halt().link.dispatched == controller.link.dispatched.push(
            Envelope { id: None, load: MessageFromOrchestratorToRenderer::Halt },
        ),
{
}

/// The phases are passed in order. An event leaves a running controller
/// running or halting, and leaves any other as it is; only the join moves a
/// halting controller on, to halted; and a halted controller holds no handle
/// at any step.
pub proof fn lemma_phases_in_order<H>(controller: Controller<H>, visit: Visit)
    requires
        controller.wf(),
    ensures
        controller.visit(visit).wf(),
        controller.halt().wf(),
        controller.joined().wf(),
        controller.phase() is Running ==> !(controller.visit(visit).phase() is Halted),
        !(controller.phase() is Running) ==> controller.visit(visit) == controller,
        controller.phase() is Halting ==> controller.joined().phase() is Halted,
        !(controller.phase() is Halting) ==> controller.joined() == controller,
        controller.phase() is Halted ==> controller.handle is None,
{
}

/// A close request or Escape in the orchestrator's own window halts a
/// running controller with that very event, whether or not a revolution is
/// due; and if one is due it still runs.
pub proof fn lemma_requested_halt_is_immediate<H>(controller: Controller<H>, visit: Visit)
    requires
        controller.phase() is Running,
        requests_halt(visit.event),
    ensures
        controller.visit(visit).phase() is Halting,
        controller.visit(visit).handle is None,
        controller.visit(visit).tick == controller.tick + if due(
            controller.next_wake,
            visit.now,
        ) {
            1nat
        } else {
            0nat
        },
{
}

} // verus!
