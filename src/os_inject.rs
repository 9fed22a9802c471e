use vstd::prelude::*;
use enigo::{Direction, Enigo, InputError, Key, Keyboard, NewConError, Settings};
use crate::injector::{Attempt, InjectError, OutputInjector};
use crate::script::Action;

verus! {

#[verifier::external_type_specification]
#[verifier::external_body]
pub struct ExEnigo(Enigo);

#[verifier::external_type_specification]
#[verifier::external_body]
pub struct ExInputError(InputError);

#[verifier::external_type_specification]
#[verifier::external_body]
pub struct ExNewConError(NewConError);

/// Relies on enigo::Enigo::new with default settings: a connection to the
/// platform's input system, or the reason there is none.
#[verifier::external_body]
fn connect() -> (r: Result<Enigo, NewConError>) {
    Enigo::new(&Settings::default())
}

/// Relies on enigo's Display for NewConError: a readable reason.
#[verifier::external_body]
fn connect_error_text(e: &NewConError) -> (r: String) {
    e.to_string()
}

/// Relies on enigo's Display for InputError: a readable reason.
#[verifier::external_body]
fn input_error_text(e: &InputError) -> (r: String) {
    e.to_string()
}

/// Relies on enigo::Keyboard::key: one click of the Enter key.
#[verifier::external_body]
fn click_return(e: &mut Enigo) -> (r: Result<(), InputError>) {
    e.key(Key::Return, Direction::Click)
}

/// Relies on enigo::Keyboard::key: one click of the Tab key.
#[verifier::external_body]
fn click_tab(e: &mut Enigo) -> (r: Result<(), InputError>) {
    e.key(Key::Tab, Direction::Click)
}

/// Relies on enigo::Keyboard::key: one click of the Backspace key.
#[verifier::external_body]
fn click_backspace(e: &mut Enigo) -> (r: Result<(), InputError>) {
    e.key(Key::Backspace, Direction::Click)
}

/// Relies on enigo::Keyboard::text: the character entered as literal text.
#[verifier::external_body]
fn enter_text(e: &mut Enigo, ch: char) -> (r: Result<(), InputError>) {
    e.text(&ch.to_string())
}

/// A keystroke handed to the input system.
#[derive(Debug, Clone, Copy, PartialEq, Eq, Structural)]
pub enum Keystroke {
    Enter,
    Tab,
    Backspace,
    Text(char),
}

/// How a character is typed: line breaks as Enter, tab as Tab, anything
/// else as literal text.
pub open spec fn keystroke_for(ch: char) -> Keystroke {
    if ch == '\n' || ch == '\r' {
        Keystroke::Enter
    } else if ch == '\t' {
        Keystroke::Tab
    } else {
        Keystroke::Text(ch)
    }
}

pub fn keystroke(ch: char) -> (r: Keystroke)
    ensures
        r == keystroke_for(ch),
{
    match ch {
        '\n' | '\r' => Keystroke::Enter,
        '\t' => Keystroke::Tab,
        _ => Keystroke::Text(ch),
    }
}

/// Injects synthetic keystrokes into the operating system's input stream.
///
/// Ghost records: `pressed` holds every keystroke handed to the input
/// system, `log` the actions delivered, `tries` every call with its result.
pub struct OsInjector {
    enigo: Enigo,
    pressed: Ghost<Seq<Keystroke>>,
    log: Ghost<Seq<Action>>,
    tries: Ghost<Seq<Attempt>>,
}

impl OsInjector {
    /// The keystrokes handed to the input system so far, one per call.
    pub closed spec fn keystrokes(&self) -> Seq<Keystroke> {
        self.pressed@
    }

    /// Connects to the input system; fails when no connection can be made.
    pub fn new() -> (r: Result<Self, InjectError>)
        ensures
            r matches Ok(inj) ==> {
                &&& inj.emitted() == Seq::<Action>::empty()
                &&& inj.attempts() == Seq::<Attempt>::empty()
                &&& inj.keystrokes() == Seq::<Keystroke>::empty()
            },
    {
        match connect() {
            Ok(enigo) => Ok(
                OsInjector {
                    enigo,
                    pressed: Ghost(Seq::empty()),
                    log: Ghost(Seq::empty()),
                    tries: Ghost(Seq::empty()),
                },
            ),
            Err(e) => Err(InjectError { message: connect_error_text(&e) }),
        }
    }

    /// Hands one keystroke to the input system, exactly once, and records
    /// it as `a`. The error of the input system, if any, is returned.
    fn press(&mut self, k: Keystroke, a: Ghost<Action>) -> (r: Result<(), InjectError>)
        ensures
            final(self).keystrokes() == old(self).keystrokes().push(k),
            final(self).attempts() == old(self).attempts().push((a@, r)),
            r is Ok ==> final(self).emitted() == old(self).emitted().push(a@),
            r is Err ==> final(self).emitted() == old(self).emitted(),
    {
        let sent = match k {
            Keystroke::Enter => click_return(&mut self.enigo),
            Keystroke::Tab => click_tab(&mut self.enigo),
            Keystroke::Backspace => click_backspace(&mut self.enigo),
            Keystroke::Text(c) => enter_text(&mut self.enigo, c),
        };
        self.pressed = Ghost(self.pressed@.push(k));
        let r = match sent {
            Ok(()) => {
                self.log = Ghost(self.log@.push(a@));
                Ok(())
            },
            Err(e) => Err(InjectError { message: input_error_text(&e) }),
        };
        self.tries = Ghost(self.tries@.push((a@, r)));
        r
    }
}

impl OutputInjector for OsInjector {
    closed spec fn emitted(&self) -> Seq<Action> {
        self.log@
    }

    closed spec fn attempts(&self) -> Seq<Attempt> {
        self.tries@
    }

    /// A line break goes out as one Enter click, a tab as one Tab click,
    /// anything else as its literal text.
    fn send_char(&mut self, ch: char) -> (r: Result<(), InjectError>)
        ensures
            final(self).keystrokes() == old(self).keystrokes().push(keystroke_for(ch)),
    {
        self.press(keystroke(ch), Ghost(Action::Char(ch)))
    }

    /// One Backspace click.
    fn backspace(&mut self) -> (r: Result<(), InjectError>)
        ensures
            final(self).keystrokes() == old(self).keystrokes().push(Keystroke::Backspace),
    {
        self.press(Keystroke::Backspace, Ghost(Action::Backspace))
    }
}

} // verus!
