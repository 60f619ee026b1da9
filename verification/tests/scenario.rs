use std::sync::mpsc::channel;
use tandem::orchestrator::{Flow, HostEvent, Phase, WindowSignal};
use tandem::renderer::{Ignition, TestRoutine};
use tandem::{
    Communicator, Communique, MessageFromOrchestratorToRenderer, MessageFromRendererToOrchestrator,
    Orchestrator, Renderer,
};

#[test]
fn the_test_command_of_tick_one_arrives_alone_and_untagged() {
    let (command_sender, command_receiver) =
        channel::<Communique<MessageFromOrchestratorToRenderer>>();
    let (message_sender, message_receiver) =
        channel::<Communique<MessageFromRendererToOrchestrator>>();
    let mut orchestrator =
        Orchestrator::with_pacing(message_receiver, command_sender, (), 0, 1, 0, false);
    let mut renderer_side: Communicator<
        MessageFromOrchestratorToRenderer,
        MessageFromRendererToOrchestrator,
    > = Communicator::new(command_receiver, message_sender);

    orchestrator.window_event(HostEvent::Other, 0);
    assert!(renderer_side.collect_messages().is_empty());
    orchestrator.window_event(HostEvent::Other, 1);
    let drained = renderer_side.collect_messages();
    assert_eq!(drained.len(), 1);
    assert_eq!(drained[0].id(), None);
    assert_eq!(*drained[0].open(), MessageFromOrchestratorToRenderer::Test(2));
    assert!(renderer_side.collect_messages().is_empty());
}

#[test]
fn both_loops_in_step_from_start_to_halt() {
    let (command_sender, command_receiver) =
        channel::<Communique<MessageFromOrchestratorToRenderer>>();
    let (message_sender, message_receiver) =
        channel::<Communique<MessageFromRendererToOrchestrator>>();
    let mut renderer = Renderer::with_pacing(command_receiver, message_sender, 1, 0, false);
    let mut orchestrator =
        Orchestrator::with_pacing(message_receiver, command_sender, 77u32, 0, 1, 0, false);

    let first = orchestrator.window_event(HostEvent::Other, 0);
    assert_eq!(first.flow, Flow::WaitUntil(1));
    match renderer.ignition() {
        Ignition::Revolved { routines, .. } => assert!(routines.is_empty()),
        Ignition::Exited => panic!("the renderer left its loop unasked"),
    }

    let second = orchestrator.window_event(HostEvent::Other, 1);
    assert_eq!(second.flow, Flow::WaitUntil(2));
    match renderer.ignition() {
        Ignition::Revolved { routines, pause } => {
            assert_eq!(routines, vec![TestRoutine::Test2]);
            assert_eq!(pause, 1);
        },
        Ignition::Exited => panic!("the renderer left its loop unasked"),
    }

    let closing = orchestrator
        .window_event(HostEvent::Window { own: true, signal: WindowSignal::CloseRequested }, 1);
    assert_eq!(closing.join, Some(77));
    assert!(closing.telemetry.is_empty());
    assert_eq!(orchestrator.phase(), Phase::Halting);

    match renderer.ignition() {
        Ignition::Revolved { routines, .. } => assert!(routines.is_empty()),
        Ignition::Exited => panic!("the halt was heeded before it was drained"),
    }
    assert!(matches!(renderer.ignition(), Ignition::Exited));
    assert!(renderer.has_exited());
    assert_eq!(renderer.tick(), 3);

    let reported = orchestrator.revolution();
    assert_eq!(reported.len(), 1);
    assert_eq!(reported[0].id(), None);
    assert_eq!(*reported[0].open(), MessageFromRendererToOrchestrator::Halted);

    orchestrator.renderer_joined();
    assert_eq!(orchestrator.phase(), Phase::Halted);
    assert_eq!(orchestrator.halt(), None);
    assert_eq!(orchestrator.window_event(HostEvent::LoopDestroyed, 9).flow, Flow::Exit);
}
