use vstd::prelude::*;

verus! {

/// What one performer keystroke means to playback.
#[derive(Debug, Clone, Copy, PartialEq, Eq, Structural)]
pub enum TriggerEvent {
    Start,
    /// Play one action; `from_alpha` marks a plain letter that has reached
    /// the target application and must be erased first.
    Step { from_alpha: bool },
    PauseToggle,
    Exit,
}

/// A key binding a trigger can be configured to.
#[derive(Debug, Clone, Copy, PartialEq, Eq, Structural)]
pub enum TriggerKey {
    Space,
    Right,
    F11,
    F12,
    CtrlP,
    CtrlQ,
    CtrlS,
}

/// The four configured bindings.
#[derive(Debug, Clone, Copy, PartialEq, Eq, Structural)]
pub struct Hotkeys {
    pub start: TriggerKey,
    pub step: TriggerKey,
    pub pause: TriggerKey,
    pub exit: TriggerKey,
}

/// A physical key, as far as classification tells keys apart.
#[derive(Debug, Clone, Copy, PartialEq, Eq, Structural)]
pub enum InputKey {
    /// A key that types a character (space included).
    Char(char),
    Right,
    /// Function key `F(n)`.
    F(u8),
    Other,
}

/// The code of `c` after ASCII lowercasing: `A`..`Z` become `a`..`z`,
/// everything else stays.
pub open spec fn lower_code(c: char) -> u32 {
    if 'A' <= c && c <= 'Z' {
        (c as u32 + 32) as u32
    } else {
        c as u32
    }
}

/// `s`, ASCII-lowercased, is `name`.
pub open spec fn lowercase_is(s: Seq<char>, name: Seq<char>) -> bool {
    &&& s.len() == name.len()
    &&& forall|i: int| 0 <= i < s.len() ==> lower_code(#[trigger] s[i]) == name[i] as u32
}

/// The binding a name stands for, ignoring ASCII case; an unknown name
/// falls back to `Right`.
pub open spec fn key_named(s: Seq<char>) -> TriggerKey {
    if lowercase_is(s, "space"@) {
        TriggerKey::Space
    } else if lowercase_is(s, "right"@) {
        TriggerKey::Right
    } else if lowercase_is(s, "f11"@) {
        TriggerKey::F11
    } else if lowercase_is(s, "f12"@) {
        TriggerKey::F12
    } else if lowercase_is(s, "ctrl+p"@) {
        TriggerKey::CtrlP
    } else if lowercase_is(s, "ctrl+q"@) {
        TriggerKey::CtrlQ
    } else if lowercase_is(s, "ctrl+s"@) {
        TriggerKey::CtrlS
    } else {
        TriggerKey::Right
    }
}

fn lowercase_equals(s: &str, name: &str) -> (r: bool)
    ensures
        r == lowercase_is(s@, name@),
{
    let n = s.unicode_len();
    if n != name.unicode_len() {
        return false;
    }
    let mut i: usize = 0;
    while i < n
        invariant
            i <= n,
            n == s@.len(),
            n == name@.len(),
            forall|j: int| 0 <= j < i ==> lower_code(#[trigger] s@[j]) == name@[j] as u32,
        decreases n - i,
    {
        let c = s.get_char(i);
        let code: u32 = if c >= 'A' && c <= 'Z' {
            c as u32 + 32
        } else {
            c as u32
        };
        if code != name.get_char(i) as u32 {
            return false;
        }
        i = i + 1;
    }
    true
}

impl TriggerKey {
    pub fn parse(s: &str) -> (r: Self)
        ensures
            r == key_named(s@),
    {
        if lowercase_equals(s, "space") {
            Self::Space
        } else if lowercase_equals(s, "right") {
            Self::Right
        } else if lowercase_equals(s, "f11") {
            Self::F11
        } else if lowercase_equals(s, "f12") {
            Self::F12
        } else if lowercase_equals(s, "ctrl+p") {
            Self::CtrlP
        } else if lowercase_equals(s, "ctrl+q") {
            Self::CtrlQ
        } else if lowercase_equals(s, "ctrl+s") {
            Self::CtrlS
        } else {
            Self::Right
        }
    }
}

impl Hotkeys {
    pub fn from_strings(step: &str, pause: &str, start: &str, exit: &str) -> (r: Self)
        ensures
            r.step == key_named(step@),
            r.pause == key_named(pause@),
            r.start == key_named(start@),
            r.exit == key_named(exit@),
    {
        Self {
            step: TriggerKey::parse(step),
            pause: TriggerKey::parse(pause),
            start: TriggerKey::parse(start),
            exit: TriggerKey::parse(exit),
        }
    }
}

/// The key is the letter, in either case.
pub open spec fn is_letter(key: InputKey, lower: char, upper: char) -> bool {
    key == InputKey::Char(lower) || key == InputKey::Char(upper)
}

/// Control held with S, when start is bound to Ctrl+S.
pub open spec fn start_chord(keys: Hotkeys, key: InputKey, ctrl: bool) -> bool {
    keys.start == TriggerKey::CtrlS && ctrl && is_letter(key, 's', 'S')
}

/// Control held with Q, when exit is bound to Ctrl+Q.
pub open spec fn exit_chord(keys: Hotkeys, key: InputKey, ctrl: bool) -> bool {
    keys.exit == TriggerKey::CtrlQ && ctrl && is_letter(key, 'q', 'Q')
}

/// Control held with P, when pause is bound to Ctrl+P.
pub open spec fn pause_chord(keys: Hotkeys, key: InputKey, ctrl: bool) -> bool {
    keys.pause == TriggerKey::CtrlP && ctrl && is_letter(key, 'p', 'P')
}

/// The key is the configured single step key.
pub open spec fn step_key(keys: Hotkeys, key: InputKey) -> bool {
    ||| keys.step == TriggerKey::Right && key == InputKey::Right
    ||| keys.step == TriggerKey::Space && key == InputKey::Char(' ')
    ||| keys.step == TriggerKey::F12 && key == InputKey::F(12)
}

/// A plain ASCII letter, typed without control.
pub open spec fn alpha_key(key: InputKey, ctrl: bool) -> bool {
    &&& !ctrl
    &&& key matches InputKey::Char(c)
    &&& ('a' <= c && c <= 'z') || ('A' <= c && c <= 'Z')
}

/// Local classification of a key press, in priority order: start, exit,
/// pause, the step key, then any plain letter.
pub open spec fn local_trigger(keys: Hotkeys, key: InputKey, ctrl: bool) -> Option<TriggerEvent> {
    if start_chord(keys, key, ctrl) || (keys.start == TriggerKey::F11 && key == InputKey::F(11)) {
        Some(TriggerEvent::Start)
    } else if exit_chord(keys, key, ctrl) {
        Some(TriggerEvent::Exit)
    } else if pause_chord(keys, key, ctrl) {
        Some(TriggerEvent::PauseToggle)
    } else if step_key(keys, key) {
        Some(TriggerEvent::Step { from_alpha: false })
    } else if alpha_key(key, ctrl) {
        Some(TriggerEvent::Step { from_alpha: true })
    } else {
        None
    }
}

fn is_letter_key(key: InputKey, lower: char, upper: char) -> (r: bool)
    ensures
        r == is_letter(key, lower, upper),
{
    key == InputKey::Char(lower) || key == InputKey::Char(upper)
}

fn is_start_chord(keys: &Hotkeys, key: InputKey, ctrl: bool) -> (r: bool)
    ensures
        r == start_chord(*keys, key, ctrl),
{
    keys.start == TriggerKey::CtrlS && ctrl && is_letter_key(key, 's', 'S')
}

fn is_exit_chord(keys: &Hotkeys, key: InputKey, ctrl: bool) -> (r: bool)
    ensures
        r == exit_chord(*keys, key, ctrl),
{
    keys.exit == TriggerKey::CtrlQ && ctrl && is_letter_key(key, 'q', 'Q')
}

fn is_pause_chord(keys: &Hotkeys, key: InputKey, ctrl: bool) -> (r: bool)
    ensures
        r == pause_chord(*keys, key, ctrl),
{
    keys.pause == TriggerKey::CtrlP && ctrl && is_letter_key(key, 'p', 'P')
}

fn is_step_key(keys: &Hotkeys, key: InputKey) -> (r: bool)
    ensures
        r == step_key(*keys, key),
{
    match keys.step {
        TriggerKey::Right => key == InputKey::Right,
        TriggerKey::Space => key == InputKey::Char(' '),
        TriggerKey::F12 => key == InputKey::F(12),
        _ => false,
    }
}

fn is_alpha_key(key: InputKey, ctrl: bool) -> (r: bool)
    ensures
        r == alpha_key(key, ctrl),
{
    match key {
        InputKey::Char(c) => !ctrl && (('a' <= c && c <= 'z') || ('A' <= c && c <= 'Z')),
        _ => false,
    }
}

/// Classifies one terminal key event. Only presses count; a release or a
/// repeat gives nothing.
pub fn classify_local(keys: &Hotkeys, key: InputKey, ctrl: bool, press: bool) -> (r: Option<
    TriggerEvent,
>)
    ensures
        r == if press {
            local_trigger(*keys, key, ctrl)
        } else {
            None
        },
{
    if !press {
        None
    } else if is_start_chord(keys, key, ctrl) || (keys.start == TriggerKey::F11 && key
        == InputKey::F(11)) {
        Some(TriggerEvent::Start)
    } else if is_exit_chord(keys, key, ctrl) {
        Some(TriggerEvent::Exit)
    } else if is_pause_chord(keys, key, ctrl) {
        Some(TriggerEvent::PauseToggle)
    } else if is_step_key(keys, key) {
        Some(TriggerEvent::Step { from_alpha: false })
    } else if is_alpha_key(key, ctrl) {
        Some(TriggerEvent::Step { from_alpha: true })
    } else {
        None
    }
}

/// One key-down event as a system-wide hook reports it.
#[derive(Debug, Clone, Copy, PartialEq, Eq, Structural)]
pub struct HookEvent {
    pub key: InputKey,
    pub ctrl: bool,
    pub autorepeat: bool,
    /// The process that produced the event.
    pub source_pid: u32,
}

/// What the hook does with an event: let it reach the focused application,
/// or swallow it.
#[derive(Debug, Clone, Copy, PartialEq, Eq, Structural)]
pub enum Disposition {
    Keep,
    Drop,
}

/// The decision a global hook makes on each event. Step triggers are only
/// honoured once a start trigger has armed the filter.
#[derive(Debug, Clone, Copy)]
pub struct HookFilter {
    pub keys: Hotkeys,
    /// This program's own process, whose synthetic keystrokes are ignored.
    pub own_pid: u32,
    pub armed: bool,
}

/// Global classification: the trigger, what happens to the event, and
/// whether the filter is armed afterwards.
///
/// An autorepeat is swallowed, an event of this process passes untouched;
/// neither yields a trigger. The start, pause and exit chords are swallowed
/// and start arms the filter. Before arming nothing else is recognised.
/// After it the step key is swallowed as a step, and a plain letter passes
/// to the application and becomes a step that erases it first.
pub open spec fn hook_decision(f: HookFilter, ev: HookEvent) -> (Option<TriggerEvent>, Disposition, bool) {
    if ev.autorepeat {
        (None, Disposition::Drop, f.armed)
    } else if ev.source_pid == f.own_pid {
        (None, Disposition::Keep, f.armed)
    } else if start_chord(f.keys, ev.key, ev.ctrl) {
        (Some(TriggerEvent::Start), Disposition::Drop, true)
    } else if pause_chord(f.keys, ev.key, ev.ctrl) {
        (Some(TriggerEvent::PauseToggle), Disposition::Drop, f.armed)
    } else if exit_chord(f.keys, ev.key, ev.ctrl) {
        (Some(TriggerEvent::Exit), Disposition::Drop, f.armed)
    } else if !f.armed {
        (None, Disposition::Keep, false)
    } else if step_key(f.keys, ev.key) {
        (Some(TriggerEvent::Step { from_alpha: false }), Disposition::Drop, true)
    } else if alpha_key(ev.key, ev.ctrl) {
        (Some(TriggerEvent::Step { from_alpha: true }), Disposition::Keep, true)
    } else {
        (None, Disposition::Keep, true)
    }
}

impl HookFilter {
    pub fn new(keys: Hotkeys, own_pid: u32) -> (r: Self)
        ensures
            r.keys == keys,
            r.own_pid == own_pid,
            !r.armed,
    {
        HookFilter { keys, own_pid, armed: false }
    }

    /// Decides on one hook event and updates the armed flag.
    pub fn classify(&mut self, ev: &HookEvent) -> (r: (Option<TriggerEvent>, Disposition))
        ensures
            r.0 == hook_decision(*old(self), *ev).0,
            r.1 == hook_decision(*old(self), *ev).1,
            final(self).armed == hook_decision(*old(self), *ev).2,
            final(self).keys == old(self).keys,
            final(self).own_pid == old(self).own_pid,
            ev.autorepeat || ev.source_pid == old(self).own_pid ==> {
                &&& r.0 is None
                &&& final(self).armed == old(self).armed
            },
    {
        if ev.autorepeat {
            (None, Disposition::Drop)
        } else if ev.source_pid == self.own_pid {
            (None, Disposition::Keep)
        } else if is_start_chord(&self.keys, ev.key, ev.ctrl) {
            self.armed = true;
            (Some(TriggerEvent::Start), Disposition::Drop)
        } else if is_pause_chord(&self.keys, ev.key, ev.ctrl) {
            (Some(TriggerEvent::PauseToggle), Disposition::Drop)
        } else if is_exit_chord(&self.keys, ev.key, ev.ctrl) {
            (Some(TriggerEvent::Exit), Disposition::Drop)
        } else if !self.armed {
            (None, Disposition::Keep)
        } else if is_step_key(&self.keys, ev.key) {
            (Some(TriggerEvent::Step { from_alpha: false }), Disposition::Drop)
        } else if is_alpha_key(ev.key, ev.ctrl) {
            (Some(TriggerEvent::Step { from_alpha: true }), Disposition::Keep)
        } else {
            (None, Disposition::Keep)
        }
    }
}

} // verus!
