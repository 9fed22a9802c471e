use vstd::prelude::*;
use crate::injector::{InjectError, OutputInjector};
use crate::playhead::Playhead;
use crate::script::Action;

verus! {

/// Plays an action list through an injector, one action per step.
pub struct Engine {
    pub actions: Vec<Action>,
    pub _markers: Vec<(usize, String)>,
    pub head: Playhead,
}

impl Engine {
    /// The playhead spans exactly the action list.
    pub open spec fn wf(&self) -> bool {
        &&& self.head.wf()
        &&& self.head.end == self.actions.len()
    }

    /// The action the playhead stands on.
    pub open spec fn current(&self) -> Action {
        self.actions@[self.head.pos as int]
    }

    pub fn new(actions: Vec<Action>, _markers: Vec<(usize, String)>) -> (r: Self)
        ensures
            r.wf(),
            r.actions@ == actions@,
            r._markers@ == _markers@,
            r.head.pos == 0,
            r.head.end == actions.len(),
            !r.head.paused,
    {
        let end = actions.len();
        Self { actions, _markers, head: Playhead::new(end) }
    }

    /// Plays the action under the playhead and moves one further. Does
    /// nothing while paused or at the end. The injector is asked exactly
    /// once; when it fails its error is returned and the playhead stays
    /// where it was.
    pub fn step<I: OutputInjector>(&mut self, inj: &mut I) -> (r: Result<(), InjectError>)
        requires
            old(self).wf(),
        ensures
            final(self).wf(),
            final(self).actions@ == old(self).actions@,
            final(self)._markers@ == old(self)._markers@,
            old(self).head.paused || old(self).head.spec_is_eof() ==> {
                &&& r is Ok
                &&& final(self).head == old(self).head
                &&& *final(inj) == *old(inj)
            },
            !old(self).head.paused && !old(self).head.spec_is_eof() ==> match r {
                Ok(()) => {
                    &&& final(inj).attempts() == old(inj).attempts().push((old(self).current(), r))
                    &&& final(self).head == old(self).head.advanced()
                    &&& final(inj).emitted() == old(inj).emitted().push(old(self).current())
                },
                Err(_) => {
                    &&& final(inj).attempts() == old(inj).attempts().push((old(self).current(), r))
                    &&& final(self).head == old(self).head
                    &&& final(inj).emitted() == old(inj).emitted()
                },
            },
    {
        if self.head.paused || self.head.is_eof() {
            return Ok(());
        }
        let act = self.actions[self.head.pos];
        match act {
            Action::Char(ch) => {
                inj.send_char(ch)?;
            },
            Action::Backspace => {
                inj.backspace()?;
            },
        }
        self.head.pos += 1;
        Ok(())
    }

    pub fn toggle_pause(&mut self)
        ensures
            final(self).head == old(self).head.toggled(),
            final(self).actions@ == old(self).actions@,
            final(self)._markers@ == old(self)._markers@,
    {
        self.head.paused = !self.head.paused;
    }

    /// Hard stop: pauses whatever the previous state was.
    pub fn panic_stop(&mut self)
        ensures
            final(self).head == (Playhead { paused: true, ..old(self).head }),
            final(self).actions@ == old(self).actions@,
            final(self)._markers@ == old(self)._markers@,
    {
        self.head.paused = true;
    }
}

/// The playhead after `k` successful steps.
pub open spec fn steps(h: Playhead, k: nat) -> Playhead
    decreases k,
{
    if k == 0 {
        h
    } else {
        steps(h, (k - 1) as nat).advanced()
    }
}

/// From a fresh, unpaused playhead, `k` steps advance it by exactly `k`
/// actions, capped at the end; it reports end of file exactly when its
/// position has reached the end.
pub proof fn lemma_repeated_steps(end: usize, k: nat)
    ensures
        steps(Playhead { pos: 0, end, paused: false }, k).pos == if k <= end { k } else { end as nat },
        steps(Playhead { pos: 0, end, paused: false }, k).wf(),
        steps(Playhead { pos: 0, end, paused: false }, k).end == end,
        !steps(Playhead { pos: 0, end, paused: false }, k).paused,
        steps(Playhead { pos: 0, end, paused: false }, k).spec_is_eof()
            <==> steps(Playhead { pos: 0, end, paused: false }, k).pos == end,
    decreases k,
{
    if k > 0 {
        lemma_repeated_steps(end, (k - 1) as nat);
    }
}

/// Toggling the pause twice restores the pause flag and never moves the
/// playhead.
pub proof fn lemma_toggle_twice(h: Playhead)
    ensures
        h.toggled().pos == h.pos,
        h.toggled().toggled().pos == h.pos,
        h.toggled().toggled().paused == h.paused,
        h.toggled().toggled() == h,
{
}

} // verus!
