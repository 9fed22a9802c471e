use monkey_typer::{keystroke, Keystroke};
use monkey_typer::{
    Action, Engine, OutputInjector, Playhead, RecordingInjector, ScriptEvent, Sequence,
};

fn sample_engine() -> Engine {
    let seq = Sequence::from_events(&vec![
        ScriptEvent::Insert { text: "ab".to_string() },
        ScriptEvent::Delete { n: 1 },
        ScriptEvent::Insert { text: "c".to_string() },
        ScriptEvent::Marker { name: "m".to_string() },
    ]);
    Engine::new(seq.actions, seq.markers)
}

#[test]
fn four_steps_replay_the_script() {
    let mut engine = sample_engine();
    let mut inj = RecordingInjector::new();
    for _ in 0..4 {
        engine.step(&mut inj).unwrap();
    }
    assert_eq!(
        inj.log,
        vec![Action::Char('a'), Action::Char('b'), Action::Backspace, Action::Char('c')]
    );
    assert!(engine.head.is_eof());
    assert_eq!(engine.head.pos, 4);
}

#[test]
fn steps_are_capped_at_end() {
    let mut engine = sample_engine();
    let mut inj = RecordingInjector::new();
    for k in 1..=7usize {
        engine.step(&mut inj).unwrap();
        assert_eq!(engine.head.pos, k.min(4));
        assert_eq!(engine.head.is_eof(), engine.head.pos == engine.head.end);
    }
    assert_eq!(inj.log.len(), 4);
}

#[test]
fn paused_step_does_nothing() {
    let mut engine = sample_engine();
    let mut inj = RecordingInjector::new();
    engine.step(&mut inj).unwrap();
    engine.toggle_pause();
    engine.step(&mut inj).unwrap();
    engine.step(&mut inj).unwrap();
    assert_eq!(engine.head.pos, 1);
    assert_eq!(inj.log, vec![Action::Char('a')]);
    engine.toggle_pause();
    engine.step(&mut inj).unwrap();
    assert_eq!(inj.log, vec![Action::Char('a'), Action::Char('b')]);
}

#[test]
fn toggle_twice_restores_pause() {
    let mut engine = sample_engine();
    let mut inj = RecordingInjector::new();
    engine.step(&mut inj).unwrap();
    engine.toggle_pause();
    assert!(engine.head.paused);
    engine.toggle_pause();
    assert!(!engine.head.paused);
    assert_eq!(engine.head.pos, 1);
}

#[test]
fn panic_stop_always_pauses() {
    let mut engine = sample_engine();
    engine.panic_stop();
    assert!(engine.head.paused);
    engine.panic_stop();
    assert!(engine.head.paused);
    assert_eq!(engine.head.pos, 0);
}

#[test]
fn failed_injection_leaves_playhead() {
    let mut engine = sample_engine();
    let mut inj = RecordingInjector::with_limit(1);
    engine.step(&mut inj).unwrap();
    let err = engine.step(&mut inj).unwrap_err();
    assert!(!err.message.is_empty());
    assert_eq!(engine.head.pos, 1);
    assert_eq!(inj.log, vec![Action::Char('a')]);
}

#[test]
fn empty_engine_is_eof_at_once() {
    let mut engine = Engine::new(Vec::new(), Vec::new());
    assert!(engine.head.is_eof());
    let mut inj = RecordingInjector::new();
    engine.step(&mut inj).unwrap();
    assert!(inj.log.is_empty());
}

#[test]
fn playhead_starts_at_zero() {
    let h = Playhead::new(3);
    assert_eq!((h.pos, h.end, h.paused), (0, 3, false));
    assert!(!h.is_eof());
    assert!(Playhead::new(0).is_eof());
}

#[test]
fn send_str_types_each_char() {
    let mut inj = RecordingInjector::new();
    inj.send_str("hi!").unwrap();
    assert_eq!(inj.log, vec![Action::Char('h'), Action::Char('i'), Action::Char('!')]);
}

#[test]
fn send_str_stops_at_first_failure() {
    let mut inj = RecordingInjector::with_limit(2);
    assert!(inj.send_str("abc").is_err());
    assert_eq!(inj.log, vec![Action::Char('a'), Action::Char('b')]);
}

#[test]
fn backspace_records_deletion() {
    let mut inj = RecordingInjector::new();
    inj.backspace().unwrap();
    inj.send_char('z').unwrap();
    assert_eq!(inj.log, vec![Action::Backspace, Action::Char('z')]);
}

#[test]
fn keystroke_choice_per_character() {
    assert_eq!(keystroke('\n'), Keystroke::Enter);
    assert_eq!(keystroke('\r'), Keystroke::Enter);
    assert_eq!(keystroke('\t'), Keystroke::Tab);
    assert_eq!(keystroke('x'), Keystroke::Text('x'));
    assert_eq!(keystroke(' '), Keystroke::Text(' '));
}
