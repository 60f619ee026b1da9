//! The free-running control loop: it revolves at a fixed pace of its own,
//! takes its commands from the link once per revolution, and reports once
//! that it has ended.
//!
//! The host owns the thread and what the test routines draw with. It calls
//! `ignition` over and over, runs the routines that come back, sleeps for the
//! pause that comes back, and lets the thread end when told that the loop
//! has been left.

use crate::communicator::{envelopes, Communicator, Ledger, Posting};
use crate::communique::{Communique, Envelope};
use crate::messages::{MessageFromOrchestratorToRenderer, MessageFromRendererToOrchestrator};
use std::sync::mpsc::{Receiver, Sender};
use vstd::prelude::*;

verus! {

/// The routines that a test command can select.
#[derive(Clone, Copy, Debug, PartialEq, Eq, Structural)]
pub enum TestRoutine {
    Test1,
    Test2,
    Test3,
}

/// What one pass of the loop leaves for the host to carry out.
pub enum Ignition {
    /// A revolution ran: run `routines` in order, then sleep for `pause`.
    Revolved { routines: Vec<TestRoutine>, pause: u64 },
    /// The loop has been left: let the thread end.
    Exited,
}

/// What a [`Renderer`] is, mathematically.
pub struct Worker {
    /// A halt has been asked for.
    pub halt: bool,
    /// Revolutions run so far.
    pub tick: nat,
    pub max_tick: nat,
    pub heed_max_tick: bool,
    pub tick_duration: nat,
    /// The loop has been left and the orchestrator told so.
    pub exited: bool,
    pub link: Ledger<MessageFromOrchestratorToRenderer, MessageFromRendererToOrchestrator>,
}

/// The routine that `number` selects: 1, 2 and 3 select one each, and no
/// other number selects any.
pub open spec fn selected(number: u8) -> Option<TestRoutine> {
    if number == 1 {
        Some(TestRoutine::Test1)
    } else if number == 2 {
        Some(TestRoutine::Test2)
    } else if number == 3 {
        Some(TestRoutine::Test3)
    } else {
        None
    }
}

/// The routine that `command` asks for, if it asks for one.
pub open spec fn routine_for(command: MessageFromOrchestratorToRenderer) -> Option<TestRoutine> {
    match command {
        MessageFromOrchestratorToRenderer::Halt => None,
        MessageFromOrchestratorToRenderer::Test(number) => selected(number),
    }
}

/// The routines that the commands in `inbound` ask for, in the order of
/// `inbound`.
pub open spec fn routines_of(
    inbound: Seq<Envelope<MessageFromOrchestratorToRenderer>>,
) -> Seq<TestRoutine>
    decreases inbound.len(),
{
    if inbound.len() == 0 {
        Seq::empty()
    } else {
        let earlier = routines_of(inbound.drop_last());
        match routine_for(inbound.last().load) {
            Some(routine) => earlier.push(routine),
            None => earlier,
        }
    }
}

/// Whether a halt command is among `inbound`.
pub open spec fn asks_halt(inbound: Seq<Envelope<MessageFromOrchestratorToRenderer>>) -> bool {
    exists|i: int| 0 <= i < inbound.len() && (#[trigger] inbound[i]).load is Halt
}

/// The one report that the renderer ever sends.
pub open spec fn farewell() -> Envelope<MessageFromRendererToOrchestrator> {
    Envelope { id: None, load: MessageFromRendererToOrchestrator::Halted }
}

impl Worker {
    /// Whether the loop goes round once more.
    pub open spec fn runs(self) -> bool {
        !self.halt && (!self.heed_max_tick || self.tick < self.max_tick)
    }

    /// A loop that has been left does not run, and `Halted` has gone out
    /// once if the loop has been left and not at all if it has not.
    pub open spec fn wf(self) -> bool {
        &&& self.exited ==> !self.runs()
        &&& self.link.dispatched == if self.exited {
            seq![farewell()]
        } else {
            Seq::empty()
        }
    }

    /// The commands of `inbound` applied: a halt among them sets the flag.
    pub open spec fn heed(self, inbound: Seq<Envelope<MessageFromOrchestratorToRenderer>>) -> Self {
        Worker { halt: self.halt || asks_halt(inbound), ..self }
    }

    /// One revolution that drained `inbound`.
    pub open spec fn revolve(
        self,
        inbound: Seq<Envelope<MessageFromOrchestratorToRenderer>>,
    ) -> Self {
        Worker { link: self.link.receive(inbound), ..self.heed(inbound) }
    }

    /// One pass of the loop. Where it still runs: a revolution that drained
    /// `inbound`, and the tick advances. Where it does not: `Halted` goes out
    /// and the loop is left. Once left, nothing happens.
    pub open spec fn pass(self, inbound: Seq<Envelope<MessageFromOrchestratorToRenderer>>) -> Self {
        if self.exited {
            self
        } else if self.runs() {
            Worker { tick: self.tick + 1, ..self.revolve(inbound) }
        } else {
            Worker {
                exited: true,
                link: self.link.post(Posting::Plain(MessageFromRendererToOrchestrator::Halted)),
                ..self
            }
        }
    }

    /// The worker after one pass for each of `inbounds` in turn.
    pub open spec fn after(
        self,
        inbounds: Seq<Seq<Envelope<MessageFromOrchestratorToRenderer>>>,
    ) -> Self
        decreases inbounds.len(),
    {
        if inbounds.len() == 0 {
            self
        } else {
            self.after(inbounds.drop_last()).pass(inbounds.last())
        }
    }
}

/// What `after` has received beyond `before`.
pub open spec fn newly_received<IN, OUT>(before: Ledger<IN, OUT>, after: Ledger<IN, OUT>) -> Seq<
    Envelope<IN>,
> {
    after.received().skip(before.received().len() as int)
}

impl TestRoutine {
    /// The routine that `number` selects, if any.
    pub fn from_selector(number: u8) -> (routine: Option<TestRoutine>)
        ensures
            routine == selected(number),
    {
        if number == 1 {
            Some(TestRoutine::Test1)
        } else if number == 2 {
            Some(TestRoutine::Test2)
        } else if number == 3 {
            Some(TestRoutine::Test3)
        } else {
            None
        }
    }
}

/// The free-running loop's state: its pacing and its endpoint of the link.
pub struct Renderer {
    halt: bool,
    tick: usize,
    max_tick: usize,
    heed_max_tick: bool,
    tick_duration: u64,
    exited: bool,
    communicator_to_orchestrator: Communicator<
        MessageFromOrchestratorToRenderer,
        MessageFromRendererToOrchestrator,
    >,
}

impl View for Renderer {
    type V = Worker;

    closed spec fn view(&self) -> Worker {
        Worker {
            halt: self.halt,
            tick: self.tick as nat,
            max_tick: self.max_tick as nat,
            heed_max_tick: self.heed_max_tick,
            tick_duration: self.tick_duration as nat,
            exited: self.exited,
            link: self.communicator_to_orchestrator@,
        }
    }
}

impl Renderer {
    /// A running renderer at tick 0 that pauses for 1 unit of time between
    /// revolutions and heeds no ceiling.
    pub fn new(
        command_channel_receiver: Receiver<Communique<MessageFromOrchestratorToRenderer>>,
        message_channel_sender: Sender<Communique<MessageFromRendererToOrchestrator>>,
    ) -> (renderer: Renderer)
        ensures
            renderer@ == (Worker {
                halt: false,
                tick: 0,
                max_tick: 1_000_000,
                heed_max_tick: false,
                tick_duration: 1,
                exited: false,
                link: Ledger {
                    inbound: command_channel_receiver,
                    outbound: message_channel_sender,
                    next_id: 0,
                    dispatched: Seq::empty(),
                    polled: Seq::empty(),
                },
            }),
            renderer@.wf(),
    {
        Renderer::with_pacing(command_channel_receiver, message_channel_sender, 1, 1_000_000, false)
    }

    /// As `new`, with the pause and the ceiling chosen by the caller.
    pub fn with_pacing(
        command_channel_receiver: Receiver<Communique<MessageFromOrchestratorToRenderer>>,
        message_channel_sender: Sender<Communique<MessageFromRendererToOrchestrator>>,
        tick_duration: u64,
        max_tick: usize,
        heed_max_tick: bool,
    ) -> (renderer: Renderer)
        ensures
            renderer@ == (Worker {
                halt: false,
                tick: 0,
                max_tick: max_tick as nat,
                heed_max_tick,
                tick_duration: tick_duration as nat,
                exited: false,
                link: Ledger {
                    inbound: command_channel_receiver,
                    outbound: message_channel_sender,
                    next_id: 0,
                    dispatched: Seq::empty(),
                    polled: Seq::empty(),
                },
            }),
            renderer@.wf(),
    {
        Renderer {
            halt: false,
            tick: 0,
            max_tick,
            heed_max_tick,
            tick_duration,
            exited: false,
            communicator_to_orchestrator: Communicator::new(
                command_channel_receiver,
                message_channel_sender,
            ),
        }
    }

    /// Revolutions run so far.
    pub fn tick(&self) -> (tick: usize)
        ensures
            tick == self@.tick,
    {
        self.tick
    }

    /// Whether the loop goes round once more.
    pub fn runs(&self) -> (runs: bool)
        ensures
            runs == self@.runs(),
    {
        !self.halt && (!self.heed_max_tick || self.tick < self.max_tick)
    }

    /// Whether the loop has been left.
    pub fn has_exited(&self) -> (exited: bool)
        ensures
            exited == self@.exited,
    {
        self.exited
    }

    /// Asks the loop to stop; it does so at the top of its next pass.
    pub fn halt(&mut self)
        ensures
            final(self)@ == (Worker { halt: true, ..old(self)@ }),
            old(self)@.wf() ==> final(self)@.wf(),
    {
        self.halt = true;
    }

    /// Applies `commands` in order: a halt command sets the halt flag, and
    /// each test command that selects a routine adds it to the result. A halt
    /// does not cancel the routines asked for around it.
    pub fn dispatch(
        &mut self,
        commands: &Vec<Communique<MessageFromOrchestratorToRenderer>>,
    ) -> (routines: Vec<TestRoutine>)
        ensures
            final(self)@ == old(self)@.heed(envelopes(commands@)),
            old(self)@.wf() ==> final(self)@.wf(),
            routines@ == routines_of(envelopes(commands@)),
    {
        let ghost inbound = envelopes(commands@);
        let mut routines: Vec<TestRoutine> = Vec::new();
        let mut i: usize = 0;
        assert(inbound.take(0).len() == 0);
        assert(self@ == old(self)@.heed(inbound.take(0)));
        while i < commands.len()
            invariant
                0 <= i <= commands.len(),
                inbound == envelopes(commands@),
                self@ == old(self)@.heed(inbound.take(i as int)),
                routines@ == routines_of(inbound.take(i as int)),
            decreases commands.len() - i,
        {
            let ghost before = inbound.take(i as int);
            let ghost now = inbound.take(i + 1);
            assert(now.drop_last() == before);
            assert(now.last() == commands@[i as int]@);
            assert(asks_halt(now) == (asks_halt(before) || now.last().load is Halt)) by {
                if asks_halt(before) {
                    let at = choose|at: int| 0 <= at < before.len() && (#[trigger] before[at]).load is Halt;
                    assert(now[at].load is Halt);
                }
                if now.last().load is Halt {
                    assert(now[i as int].load is Halt);
                }
                if asks_halt(now) {
                    let at = choose|at: int| 0 <= at < now.len() && (#[trigger] now[at]).load is Halt;
                    if at < i {
                        assert(before[at].load is Halt);
                    }
                }
            }
            match commands[i].open() {
                MessageFromOrchestratorToRenderer::Halt => {
                    self.halt();
                },
                MessageFromOrchestratorToRenderer::Test(number) => {
                    match TestRoutine::from_selector(*number) {
                        Some(routine) => {
                            routines.push(routine);
                        },
                        None => {},
                    }
                },
            }
            i += 1;
        }
        assert(inbound.take(commands.len() as int) == inbound);
        routines
    }

    /// One revolution: drains the link and applies what the drain gathered,
    /// returning the routines to run.
    pub fn revolution(&mut self) -> (routines: Vec<TestRoutine>)
        ensures
            old(self)@.link.received().is_prefix_of(final(self)@.link.received()),
            final(self)@ == old(self)@.revolve(newly_received(old(self)@.link, final(self)@.link)),
            old(self)@.wf() ==> final(self)@.wf(),
            routines@ == routines_of(newly_received(old(self)@.link, final(self)@.link)),
    {
        let commands = self.communicator_to_orchestrator.collect_messages();
        assert(newly_received(old(self)@.link, self@.link) == envelopes(commands@));
        self.dispatch(&commands)
    }

    /// One pass of the loop, up to the point where the host has to act.
    ///
    /// While no halt has been asked for and the heeded ceiling is not
    /// reached, a revolution runs and the tick advances. Otherwise `Halted`
    /// is sent, whether or not the orchestrator is still there to take it,
    /// and the loop is left. Once the loop is left, nothing more is sent.
    pub fn ignition(&mut self) -> (step: Ignition)
        requires
            !old(self)@.exited && old(self)@.runs() ==> old(self)@.tick < usize::MAX,
        ensures
            old(self)@.link.received().is_prefix_of(final(self)@.link.received()),
            final(self)@ == old(self)@.pass(newly_received(old(self)@.link, final(self)@.link)),
            old(self)@.wf() ==> final(self)@.wf(),
            match step {
                Ignition::Revolved { routines, pause } => {
                    &&& !old(self)@.exited && old(self)@.runs()
                    &&& routines@ == routines_of(
                        newly_received(old(self)@.link, final(self)@.link),
                    )
                    &&& pause == old(self)@.tick_duration
                },
                Ignition::Exited => old(self)@.exited || !old(self)@.runs(),
            },
    {
        if self.exited {
            assert(newly_received(old(self)@.link, self@.link).len() == 0);
            return Ignition::Exited;
        }
        if !self.halt && (!self.heed_max_tick || self.tick < self.max_tick) {
            let routines = self.revolution();
            self.tick += 1;
            return Ignition::Revolved { routines, pause: self.tick_duration };
        }
        let _ = self.communicator_to_orchestrator.send_message(
            MessageFromRendererToOrchestrator::Halted,
        );
        self.exited = true;
        assert(newly_received(old(self)@.link, self@.link).len() == 0);
        Ignition::Exited
    }
}

/// A halt command is heeded within one pass: the pass that drains it leaves
/// the loop no longer running, and the pass after that leaves the loop and
/// sends `Halted`.
pub proof fn lemma_halt_heeded_within_one_pass(
    worker: Worker,
    inbound: Seq<Envelope<MessageFromOrchestratorToRenderer>>,
    next: Seq<Envelope<MessageFromOrchestratorToRenderer>>,
)
    requires
        !worker.exited,
        worker.runs(),
        asks_halt(inbound),
    ensures
        !worker.pass(inbound).runs(),
        !worker.pass(inbound).exited,
        worker.pass(inbound).pass(next).exited,
        worker.pass(inbound).pass(next).link.dispatched == worker.link.dispatched.push(farewell()),
{
}

/// One pass keeps a worker well formed, and so does a halt asked for
/// directly.
pub proof fn lemma_pass_keeps_wf(
    worker: Worker,
    inbound: Seq<Envelope<MessageFromOrchestratorToRenderer>>,
)
    requires
        worker.wf(),
    ensures
        worker.pass(inbound).wf(),
        worker.heed(inbound).wf(),
        worker.revolve(inbound).wf(),
        (Worker { halt: true, ..worker }).wf(),
        worker.exited ==> worker.pass(inbound) == worker,
{
}

/// `Halted` is sent exactly once: over any number of passes a worker that
/// starts well formed has sent it once if it has left its loop, and not at
/// all if it has not; and once it has left, it stays as it is.
pub proof fn lemma_signs_off_once(
    worker: Worker,
    inbounds: Seq<Seq<Envelope<MessageFromOrchestratorToRenderer>>>,
)
    requires
        worker.wf(),
    ensures
        worker.after(inbounds).wf(),
        worker.after(inbounds).link.dispatched == if worker.after(inbounds).exited {
            seq![farewell()]
        } else {
            Seq::<Envelope<MessageFromRendererToOrchestrator>>::empty()
        },
        worker.exited ==> worker.after(inbounds) == worker,
    decreases inbounds.len(),
{
    if inbounds.len() > 0 {
        lemma_signs_off_once(worker, inbounds.drop_last());
        lemma_pass_keeps_wf(worker.after(inbounds.drop_last()), inbounds.last());
    }
}

} // verus!
