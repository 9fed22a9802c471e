use vstd::prelude::*;
use crate::script::{Action, char_action, chars_typed};

verus! {

/// Why a synthetic keystroke could not be delivered.
#[derive(Debug, Clone)]
pub struct InjectError {
    pub message: String,
}

/// One call made on an injector: the action asked for and what came back.
pub type Attempt = (Action, Result<(), InjectError>);

/// The attempts of typing each character of `text`, all successful.
pub open spec fn typed_ok(text: Seq<char>) -> Seq<Attempt> {
    Seq::new(text.len(), |i: int| (char_action(text[i]), Ok::<(), InjectError>(())))
}

/// A sink of synthetic keystrokes.
///
/// Two ghost records describe it. `attempts` holds every call made on the
/// sink, with the result it returned: each call appends exactly one entry.
/// `emitted` holds the keystrokes actually delivered: a successful call
/// appends its keystroke, a failed call delivers nothing.
pub trait OutputInjector {
    spec fn emitted(&self) -> Seq<Action>;

    spec fn attempts(&self) -> Seq<Attempt>;

    /// Types one character.
    fn send_char(&mut self, ch: char) -> (r: Result<(), InjectError>)
        ensures
            final(self).attempts() == old(self).attempts().push((char_action(ch), r)),
            r is Ok ==> final(self).emitted() == old(self).emitted().push(Action::Char(ch)),
            r is Err ==> final(self).emitted() == old(self).emitted(),
    ;

    /// Deletes one character.
    fn backspace(&mut self) -> (r: Result<(), InjectError>)
        ensures
            final(self).attempts() == old(self).attempts().push((Action::Backspace, r)),
            r is Ok ==> final(self).emitted() == old(self).emitted().push(Action::Backspace),
            r is Err ==> final(self).emitted() == old(self).emitted(),
    ;

    /// Types a whole string, one character at a time in order, stopping at
    /// the first failure, whose error is returned.
    fn send_str(&mut self, text: &str) -> (r: Result<(), InjectError>)
        ensures
            r is Ok ==> {
                &&& final(self).emitted() == old(self).emitted() + chars_typed(text@)
                &&& final(self).attempts() == old(self).attempts() + typed_ok(text@)
            },
            r is Err ==> exists|k: int|
                0 <= k < text@.len() && final(self).emitted() == old(self).emitted()
                    + chars_typed(text@.take(k)) && final(self).attempts() == old(
                    self,
                ).attempts() + typed_ok(text@.take(k)) + seq![(char_action(text@[k]), r)],
    {
        let len = text.unicode_len();
        let mut j: usize = 0;
        assert(self.emitted() =~= old(self).emitted() + chars_typed(text@.take(0)));
        assert(self.attempts() =~= old(self).attempts() + typed_ok(text@.take(0)));
        while j < len
            invariant
                j <= len,
                len == text@.len(),
                self.emitted() == old(self).emitted() + chars_typed(text@.take(j as int)),
                self.attempts() == old(self).attempts() + typed_ok(text@.take(j as int)),
            decreases len - j,
        {
            let ch = text.get_char(j);
            assert(chars_typed(text@.take(j + 1)) =~= chars_typed(text@.take(j as int)).push(
                Action::Char(ch),
            ));
            assert(typed_ok(text@.take(j + 1)) =~= typed_ok(text@.take(j as int)).push(
                (Action::Char(ch), Ok(())),
            ));
            let sent = self.send_char(ch);
            if sent.is_err() {
                {
                    assert(self.attempts() =~= old(self).attempts() + typed_ok(text@.take(j as int))
                        + seq![(char_action(text@[j as int]), sent)]);
                    return sent;
                }
            }
            assert(sent->Ok_0 == ());
            assert(sent == Ok::<(), InjectError>(()));
            j = j + 1;
        }
        assert(text@.take(len as int) =~= text@);
        Ok(())
    }
}

/// An injector that keeps every keystroke it is asked for in a log instead
/// of sending it, and refuses any keystroke beyond a fixed number.
pub struct RecordingInjector {
    pub log: Vec<Action>,
    pub limit: usize,
    /// Every call made, with its result.
    pub tries: Ghost<Seq<Attempt>>,
}

impl RecordingInjector {
    /// A recorder that accepts every keystroke.
    pub fn new() -> (r: Self)
        ensures
            r.log@ == Seq::<Action>::empty(),
            r.tries@ == Seq::<Attempt>::empty(),
            r.limit == usize::MAX,
    {
        RecordingInjector { log: Vec::new(), limit: usize::MAX, tries: Ghost(Seq::empty()) }
    }

    /// A recorder that accepts `limit` keystrokes and refuses the rest.
    pub fn with_limit(limit: usize) -> (r: Self)
        ensures
            r.log@ == Seq::<Action>::empty(),
            r.tries@ == Seq::<Attempt>::empty(),
            r.limit == limit,
    {
        RecordingInjector { log: Vec::new(), limit, tries: Ghost(Seq::empty()) }
    }

    fn record(&mut self, a: Action) -> (r: Result<(), InjectError>)
        ensures
            final(self).limit == old(self).limit,
            final(self).tries@ == old(self).tries@.push((a, r)),
            old(self).log.len() < old(self).limit ==> r is Ok && final(self).log@ == old(self).log@.push(a),
            old(self).log.len() >= old(self).limit ==> r is Err && final(self).log@ == old(self).log@,
    {
        let r = if self.log.len() < self.limit {
            self.log.push(a);
            Ok(())
        } else {
            Err(InjectError { message: String::from_str("keystroke limit reached") })
        };
        self.tries = Ghost(self.tries@.push((a, r)));
        r
    }
}

impl OutputInjector for RecordingInjector {
    open spec fn emitted(&self) -> Seq<Action> {
        self.log@
    }

    open spec fn attempts(&self) -> Seq<Attempt> {
        self.tries@
    }

    /// Succeeds exactly while fewer than `limit` keystrokes are logged.
    fn send_char(&mut self, ch: char) -> (r: Result<(), InjectError>)
        ensures
            final(self).limit == old(self).limit,
            old(self).log.len() < old(self).limit ==> r is Ok,
            old(self).log.len() >= old(self).limit ==> r is Err,
    {
        self.record(Action::Char(ch))
    }

    /// Succeeds exactly while fewer than `limit` keystrokes are logged.
    fn backspace(&mut self) -> (r: Result<(), InjectError>)
        ensures
            final(self).limit == old(self).limit,
            old(self).log.len() < old(self).limit ==> r is Ok,
            old(self).log.len() >= old(self).limit ==> r is Err,
    {
        self.record(Action::Backspace)
    }
}

} // verus!
