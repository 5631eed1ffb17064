use layer_shika::errors::LayerShikaError;
use layer_shika::event_loop::{EventLoopHandler, LoopAction, LoopEvent};

fn answer(action: LoopAction, acquired: bool) -> LoopEvent {
    match action {
        LoopAction::Wait => LoopEvent::Woken,
        LoopAction::Flush => LoopEvent::Flushed,
        LoopAction::PrepareRead => LoopEvent::ReadPrepared { acquired },
        LoopAction::Read => LoopEvent::ReadDone,
        LoopAction::DispatchPending => LoopEvent::Dispatched,
        LoopAction::AdvanceTimers => LoopEvent::TimersAdvanced,
        LoopAction::RenderIfDirty => LoopEvent::Rendered,
    }
}

fn iteration(h: &mut EventLoopHandler, acquired: bool) -> Vec<LoopAction> {
    let mut actions = Vec::new();
    loop {
        let next = h.step(answer(h.pending(), acquired)).unwrap();
        actions.push(next);
        if next == LoopAction::Wait {
            return actions;
        }
    }
}

#[test]
fn iteration_with_read_guard() {
    let mut h = EventLoopHandler::new();
    assert_eq!(h.pending(), LoopAction::Wait);
    assert_eq!(
        iteration(&mut h, true),
        vec![
            LoopAction::Flush,
            LoopAction::PrepareRead,
            LoopAction::Read,
            LoopAction::DispatchPending,
            LoopAction::AdvanceTimers,
            LoopAction::RenderIfDirty,
            LoopAction::Wait,
        ]
    );
}

#[test]
fn iteration_skips_read_when_guard_is_held_elsewhere() {
    let mut h = EventLoopHandler::new();
    assert_eq!(
        iteration(&mut h, false),
        vec![
            LoopAction::Flush,
            LoopAction::PrepareRead,
            LoopAction::DispatchPending,
            LoopAction::AdvanceTimers,
            LoopAction::RenderIfDirty,
            LoopAction::Wait,
        ]
    );
    assert_eq!(iteration(&mut h, true).len(), 7);
}

#[test]
fn unexpected_event_repeats_pending_action() {
    let mut h = EventLoopHandler::new();
    assert_eq!(h.step(LoopEvent::Woken).unwrap(), LoopAction::Flush);
    assert_eq!(h.step(LoopEvent::Rendered).unwrap(), LoopAction::Flush);
    assert_eq!(h.pending(), LoopAction::Flush);
}

#[test]
fn failures_are_fatal_with_their_phase() {
    let mut h = EventLoopHandler::new();
    h.step(LoopEvent::Woken).unwrap();
    assert!(matches!(
        h.step(LoopEvent::Failed("broken pipe".to_string())),
        Err(LayerShikaError::ConnectionFlush(_))
    ));
    assert_eq!(h.pending(), LoopAction::Flush);
    h.step(LoopEvent::Flushed).unwrap();
    h.step(LoopEvent::ReadPrepared { acquired: true }).unwrap();
    match h.step(LoopEvent::Failed("read".to_string())) {
        Err(LayerShikaError::WaylandProtocol(m)) => assert_eq!(m, "read"),
        other => panic!("unexpected outcome {:?}", other),
    }
    h.step(LoopEvent::ReadDone).unwrap();
    assert!(matches!(
        h.step(LoopEvent::Failed("dispatch".to_string())),
        Err(LayerShikaError::WaylandProtocol(_))
    ));
}
