use rpatchur::bus::{submit_then_drain, CommandBus, PatcherCommand, UiBus};
use rpatchur::ui::UiCommand;

#[test]
fn commands_are_observed_in_submission_order() {
    let mut bus = CommandBus::new(32);
    assert!(bus.try_submit(PatcherCommand::StartUpdate));
    assert!(bus.try_submit(PatcherCommand::ApplyPatch("a.thor".to_string())));
    assert!(bus.try_submit(PatcherCommand::CancelUpdate));
    assert!(bus.try_submit(PatcherCommand::Quit));
    assert_eq!(
        bus.drain(),
        vec![
            PatcherCommand::StartUpdate,
            PatcherCommand::ApplyPatch("a.thor".to_string()),
            PatcherCommand::CancelUpdate,
            PatcherCommand::Quit
        ]
    );
    assert_eq!(bus.len(), 0);
}

#[test]
fn submit_then_drain_round_trips() {
    let mut bus = CommandBus::new(32);
    let cmds = vec![
        PatcherCommand::CancelUpdate,
        PatcherCommand::StartUpdate,
        PatcherCommand::ApplyPatch("b.thor".to_string()),
    ];
    assert_eq!(submit_then_drain(&mut bus, &cmds), cmds);
}

#[test]
fn full_queue_refuses_submission() {
    let mut bus = CommandBus::new(2);
    assert_eq!(bus.capacity(), 2);
    assert!(bus.try_submit(PatcherCommand::StartUpdate));
    assert!(bus.try_submit(PatcherCommand::CancelUpdate));
    assert!(!bus.try_submit(PatcherCommand::Quit));
    assert_eq!(bus.drain(), vec![PatcherCommand::StartUpdate, PatcherCommand::CancelUpdate]);
}

#[test]
fn receive_takes_from_the_front() {
    let mut bus = CommandBus::new(4);
    assert!(bus.try_submit(PatcherCommand::StartUpdate));
    assert!(bus.try_submit(PatcherCommand::CancelUpdate));
    assert_eq!(bus.try_recv(), Some(PatcherCommand::StartUpdate));
    assert_eq!(bus.try_recv(), Some(PatcherCommand::CancelUpdate));
    assert_eq!(bus.try_recv(), None);
}

#[test]
fn ui_updates_drain_in_enqueue_order() {
    let mut bus = UiBus::new();
    bus.push(UiCommand::EvaluateScript("first()".to_string()));
    bus.push(UiCommand::EvaluateScript("second()".to_string()));
    let drained = bus.drain_all();
    let scripts: Vec<String> = drained
        .into_iter()
        .map(|u| match u {
            UiCommand::EvaluateScript(s) => s,
        })
        .collect();
    assert_eq!(scripts, vec!["first()".to_string(), "second()".to_string()]);
    assert_eq!(bus.len(), 0);
    assert!(bus.drain_all().is_empty());
}

#[test]
fn earlier_contents_are_observed_before_new_submissions() {
    let mut bus = CommandBus::new(8);
    assert!(bus.try_submit(PatcherCommand::StartUpdate));
    let observed = submit_then_drain(&mut bus, &vec![PatcherCommand::Quit]);
    assert_eq!(observed, vec![PatcherCommand::StartUpdate, PatcherCommand::Quit]);
}
