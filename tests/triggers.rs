use monkey_typer::{
    classify_local, Disposition, HookEvent, HookFilter, Hotkeys, InputKey, TriggerEvent,
    TriggerKey,
};

fn default_keys() -> Hotkeys {
    Hotkeys::from_strings("right", "ctrl+p", "ctrl+s", "ctrl+q")
}

#[test]
fn parse_names_ignoring_case() {
    assert_eq!(TriggerKey::parse("space"), TriggerKey::Space);
    assert_eq!(TriggerKey::parse("SPACE"), TriggerKey::Space);
    assert_eq!(TriggerKey::parse("Right"), TriggerKey::Right);
    assert_eq!(TriggerKey::parse("f11"), TriggerKey::F11);
    assert_eq!(TriggerKey::parse("F12"), TriggerKey::F12);
    assert_eq!(TriggerKey::parse("Ctrl+P"), TriggerKey::CtrlP);
    assert_eq!(TriggerKey::parse("ctrl+q"), TriggerKey::CtrlQ);
    assert_eq!(TriggerKey::parse("CTRL+S"), TriggerKey::CtrlS);
}

#[test]
fn parse_unknown_falls_back_to_right() {
    assert_eq!(TriggerKey::parse(""), TriggerKey::Right);
    assert_eq!(TriggerKey::parse("enter"), TriggerKey::Right);
    assert_eq!(TriggerKey::parse("spaces"), TriggerKey::Right);
    assert_eq!(TriggerKey::parse("ctrl+x"), TriggerKey::Right);
}

#[test]
fn hotkeys_from_strings_binds_each_role() {
    let k = Hotkeys::from_strings("space", "ctrl+p", "f11", "ctrl+q");
    assert_eq!(k.step, TriggerKey::Space);
    assert_eq!(k.pause, TriggerKey::CtrlP);
    assert_eq!(k.start, TriggerKey::F11);
    assert_eq!(k.exit, TriggerKey::CtrlQ);
}

#[test]
fn local_chords_in_priority_order() {
    let k = default_keys();
    assert_eq!(classify_local(&k, InputKey::Char('s'), true, true), Some(TriggerEvent::Start));
    assert_eq!(classify_local(&k, InputKey::Char('Q'), true, true), Some(TriggerEvent::Exit));
    assert_eq!(
        classify_local(&k, InputKey::Char('p'), true, true),
        Some(TriggerEvent::PauseToggle)
    );
    assert_eq!(
        classify_local(&k, InputKey::Right, false, true),
        Some(TriggerEvent::Step { from_alpha: false })
    );
}

#[test]
fn local_plain_letter_is_alpha_step() {
    let k = default_keys();
    assert_eq!(
        classify_local(&k, InputKey::Char('s'), false, true),
        Some(TriggerEvent::Step { from_alpha: true })
    );
    assert_eq!(classify_local(&k, InputKey::Char('x'), true, true), None);
    assert_eq!(classify_local(&k, InputKey::Char('1'), false, true), None);
    assert_eq!(classify_local(&k, InputKey::Other, false, true), None);
}

#[test]
fn local_release_is_ignored() {
    let k = default_keys();
    assert_eq!(classify_local(&k, InputKey::Char('s'), true, false), None);
    assert_eq!(classify_local(&k, InputKey::Right, false, false), None);
}

#[test]
fn local_f11_starts_when_bound() {
    let k = Hotkeys::from_strings("f12", "ctrl+p", "f11", "ctrl+q");
    assert_eq!(classify_local(&k, InputKey::F(11), false, true), Some(TriggerEvent::Start));
    assert_eq!(
        classify_local(&k, InputKey::F(12), false, true),
        Some(TriggerEvent::Step { from_alpha: false })
    );
    assert_eq!(classify_local(&k, InputKey::Right, false, true), None);
}

fn ev(key: InputKey, ctrl: bool, autorepeat: bool, source_pid: u32) -> HookEvent {
    HookEvent { key, ctrl, autorepeat, source_pid }
}

#[test]
fn hook_ignores_autorepeat_and_own_events() {
    let mut f = HookFilter::new(default_keys(), 42);
    assert_eq!(f.classify(&ev(InputKey::Char('s'), true, true, 7)), (None, Disposition::Drop));
    assert!(!f.armed);
    assert_eq!(f.classify(&ev(InputKey::Char('s'), true, false, 42)), (None, Disposition::Keep));
    assert!(!f.armed);
    f.classify(&ev(InputKey::Char('s'), true, false, 7));
    assert!(f.armed);
    assert_eq!(f.classify(&ev(InputKey::Right, false, false, 42)), (None, Disposition::Keep));
    assert_eq!(f.classify(&ev(InputKey::Char('a'), false, true, 7)), (None, Disposition::Drop));
}

#[test]
fn hook_steps_only_once_armed() {
    let mut f = HookFilter::new(default_keys(), 1);
    assert_eq!(f.classify(&ev(InputKey::Right, false, false, 2)), (None, Disposition::Keep));
    assert_eq!(
        f.classify(&ev(InputKey::Char('p'), true, false, 2)),
        (Some(TriggerEvent::PauseToggle), Disposition::Drop)
    );
    assert_eq!(
        f.classify(&ev(InputKey::Char('s'), true, false, 2)),
        (Some(TriggerEvent::Start), Disposition::Drop)
    );
    assert_eq!(
        f.classify(&ev(InputKey::Right, false, false, 2)),
        (Some(TriggerEvent::Step { from_alpha: false }), Disposition::Drop)
    );
    assert_eq!(
        f.classify(&ev(InputKey::Char('k'), false, false, 2)),
        (Some(TriggerEvent::Step { from_alpha: true }), Disposition::Keep)
    );
    assert_eq!(
        f.classify(&ev(InputKey::Char('q'), true, false, 2)),
        (Some(TriggerEvent::Exit), Disposition::Drop)
    );
}
