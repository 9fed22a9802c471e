use monkey_typer::{
    Action, Engine, Phase, RecordingInjector, Reply, ScriptEvent, Sequence, Session, TriggerEvent,
};

fn sample_session() -> Session {
    let seq = Sequence::from_events(&vec![
        ScriptEvent::Insert { text: "ab".to_string() },
        ScriptEvent::Delete { n: 1 },
        ScriptEvent::Insert { text: "c".to_string() },
        ScriptEvent::Marker { name: "m".to_string() },
    ]);
    Session::new(Engine::new(seq.actions, seq.markers))
}

const STEP: TriggerEvent = TriggerEvent::Step { from_alpha: false };

#[test]
fn four_step_triggers_drive_injector() {
    let mut s = sample_session();
    let mut inj = RecordingInjector::new();
    assert_eq!(s.handle(TriggerEvent::Start, &mut inj).unwrap(), Reply::Started);
    assert_eq!(s.handle(STEP, &mut inj).unwrap(), Reply::Stepped);
    assert_eq!(s.handle(STEP, &mut inj).unwrap(), Reply::Stepped);
    assert_eq!(s.handle(STEP, &mut inj).unwrap(), Reply::Stepped);
    assert_eq!(s.handle(STEP, &mut inj).unwrap(), Reply::Done);
    assert_eq!(
        inj.log,
        vec![Action::Char('a'), Action::Char('b'), Action::Backspace, Action::Char('c')]
    );
    assert!(s.engine.head.is_eof());
    assert_eq!(s.phase, Phase::Done);
}

#[test]
fn pause_blocks_steps_until_resumed() {
    let mut s = sample_session();
    let mut inj = RecordingInjector::new();
    s.handle(TriggerEvent::Start, &mut inj).unwrap();
    assert_eq!(s.handle(TriggerEvent::PauseToggle, &mut inj).unwrap(), Reply::Paused);
    s.handle(STEP, &mut inj).unwrap();
    s.handle(STEP, &mut inj).unwrap();
    assert!(inj.log.is_empty());
    assert_eq!(s.engine.head.pos, 0);
    assert_eq!(s.handle(TriggerEvent::PauseToggle, &mut inj).unwrap(), Reply::Resumed);
    s.handle(STEP, &mut inj).unwrap();
    assert_eq!(inj.log, vec![Action::Char('a')]);
}

#[test]
fn exit_before_start_ends_session() {
    let mut s = sample_session();
    let mut inj = RecordingInjector::new();
    assert_eq!(s.handle(TriggerEvent::Exit, &mut inj).unwrap(), Reply::Exited);
    assert_eq!(s.phase, Phase::Exited);
    assert_eq!(s.handle(TriggerEvent::Start, &mut inj).unwrap(), Reply::Ignored);
    assert_eq!(s.handle(STEP, &mut inj).unwrap(), Reply::Ignored);
    assert!(inj.log.is_empty());
}

#[test]
fn exit_midway_stops_injection() {
    let mut s = sample_session();
    let mut inj = RecordingInjector::new();
    s.handle(TriggerEvent::Start, &mut inj).unwrap();
    s.handle(STEP, &mut inj).unwrap();
    assert_eq!(s.handle(TriggerEvent::Exit, &mut inj).unwrap(), Reply::Exited);
    s.handle(STEP, &mut inj).unwrap();
    assert_eq!(inj.log, vec![Action::Char('a')]);
    assert_eq!(s.engine.head.pos, 1);
}

#[test]
fn steps_before_start_are_discarded() {
    let mut s = sample_session();
    let mut inj = RecordingInjector::new();
    assert_eq!(s.handle(STEP, &mut inj).unwrap(), Reply::Ignored);
    assert_eq!(
        s.handle(TriggerEvent::Step { from_alpha: true }, &mut inj).unwrap(),
        Reply::Ignored
    );
    s.handle(TriggerEvent::Start, &mut inj).unwrap();
    assert_eq!(s.handle(TriggerEvent::Start, &mut inj).unwrap(), Reply::Ignored);
    s.handle(STEP, &mut inj).unwrap();
    assert_eq!(inj.log, vec![Action::Char('a')]);
}

#[test]
fn alpha_step_erases_letter_first() {
    let mut s = sample_session();
    let mut inj = RecordingInjector::new();
    s.handle(TriggerEvent::Start, &mut inj).unwrap();
    let r = s.handle(TriggerEvent::Step { from_alpha: true }, &mut inj).unwrap();
    assert_eq!(r, Reply::Settle);
    assert_eq!(s.phase, Phase::Settling);
    assert_eq!(inj.log, vec![Action::Backspace]);
    assert_eq!(s.settle(&mut inj).unwrap(), Reply::Stepped);
    assert_eq!(inj.log, vec![Action::Backspace, Action::Char('a')]);
    assert_eq!(s.phase, Phase::Running);
}

#[test]
fn injection_failure_propagates() {
    let mut s = sample_session();
    let mut inj = RecordingInjector::with_limit(0);
    s.handle(TriggerEvent::Start, &mut inj).unwrap();
    assert!(s.handle(STEP, &mut inj).is_err());
    assert_eq!(s.engine.head.pos, 0);
    assert!(s.handle(TriggerEvent::Step { from_alpha: true }, &mut inj).is_err());
    assert_eq!(s.phase, Phase::Running);
}

#[test]
fn empty_script_is_done_on_first_step() {
    let mut s = Session::new(Engine::new(Vec::new(), Vec::new()));
    let mut inj = RecordingInjector::new();
    s.handle(TriggerEvent::Start, &mut inj).unwrap();
    assert_eq!(s.handle(STEP, &mut inj).unwrap(), Reply::Done);
    assert!(inj.log.is_empty());
}
