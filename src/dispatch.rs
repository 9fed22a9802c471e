use vstd::prelude::*;
use crate::engine::Engine;
use crate::injector::{InjectError, OutputInjector};
use crate::keyboard::TriggerEvent;
use crate::script::Action;

verus! {

/// Where a playback session stands.
#[derive(Debug, Clone, Copy, PartialEq, Eq, Structural)]
pub enum Phase {
    /// Waiting for the start trigger; steps are discarded.
    Waiting,
    Running,
    /// A corrective backspace went out; the step it belongs to is owed and
    /// is played by `settle` after a short delay.
    Settling,
    /// The last action has been played.
    Done,
    /// The exit trigger came.
    Exited,
}

/// What a trigger did, for the loop that drives the session.
#[derive(Debug, Clone, Copy, PartialEq, Eq, Structural)]
pub enum Reply {
    Ignored,
    Started,
    Paused,
    Resumed,
    /// Wait briefly, then call `settle`.
    Settle,
    Stepped,
    Done,
    Exited,
}

/// The dispatch state machine: turns triggers into engine calls.
pub struct Session {
    pub engine: Engine,
    pub phase: Phase,
}

/// The effect of playing one step: the engine's step, then `Done` when the
/// playhead has reached the end and `Running` otherwise. While paused or at
/// the end the step succeeds without touching the injector. Otherwise the
/// injector is asked exactly once for the current action; on its failure
/// that error is returned and the playhead and the emitted keystrokes stay
/// as they were.
pub open spec fn played<I: OutputInjector>(
    pre: Session,
    post: Session,
    pre_inj: I,
    post_inj: I,
    r: Result<Reply, InjectError>,
) -> bool {
    &&& post.wf()
    &&& post.engine.actions@ == pre.engine.actions@
    &&& post.engine._markers@ == pre.engine._markers@
    &&& (pre.engine.head.paused || pre.engine.head.spec_is_eof() ==> r is Ok)
    &&& match r {
        Ok(reply) => {
            &&& post.engine.head == pre.engine.head.advanced()
            &&& if pre.engine.head.paused || pre.engine.head.spec_is_eof() {
                post_inj == pre_inj
            } else {
                &&& post_inj.emitted() == pre_inj.emitted().push(pre.engine.current())
                &&& post_inj.attempts() == pre_inj.attempts().push(
                    (pre.engine.current(), Ok::<(), InjectError>(())),
                )
            }
            &&& if post.engine.head.spec_is_eof() {
                reply == Reply::Done && post.phase == Phase::Done
            } else {
                reply == Reply::Stepped && post.phase == Phase::Running
            }
        },
        Err(e) => {
            &&& !pre.engine.head.paused
            &&& !pre.engine.head.spec_is_eof()
            &&& post.engine.head == pre.engine.head
            &&& post_inj.emitted() == pre_inj.emitted()
            &&& post_inj.attempts() == pre_inj.attempts().push(
                (pre.engine.current(), Err::<(), InjectError>(e)),
            )
            &&& post.phase == Phase::Running
        },
    }
}

/// The effect of a step from a plain letter: the injector is asked for
/// exactly one backspace and the engine is left for `settle`. On an
/// injector failure that error is returned, nothing goes out and the
/// session keeps running.
pub open spec fn corrected<I: OutputInjector>(
    pre: Session,
    post: Session,
    pre_inj: I,
    post_inj: I,
    r: Result<Reply, InjectError>,
) -> bool {
    &&& post.engine == pre.engine
    &&& match r {
        Ok(reply) => {
            &&& reply == Reply::Settle
            &&& post.phase == Phase::Settling
            &&& post_inj.emitted() == pre_inj.emitted().push(Action::Backspace)
            &&& post_inj.attempts() == pre_inj.attempts().push(
                (Action::Backspace, Ok::<(), InjectError>(())),
            )
        },
        Err(e) => {
            &&& post.phase == Phase::Running
            &&& post_inj.emitted() == pre_inj.emitted()
            &&& post_inj.attempts() == pre_inj.attempts().push(
                (Action::Backspace, Err::<(), InjectError>(e)),
            )
        },
    }
}

/// A step from a plain letter, handled and then settled, asks the injector
/// for exactly one backspace and then the action under the playhead, in
/// that order, and nothing else.
pub proof fn lemma_correction_precedes_step<I: OutputInjector>(
    s0: Session,
    s1: Session,
    s2: Session,
    i0: I,
    i1: I,
    i2: I,
    r1: Result<Reply, InjectError>,
    r2: Result<Reply, InjectError>,
)
    requires
        s0.wf(),
        !s0.engine.head.paused,
        !s0.engine.head.spec_is_eof(),
        corrected(s0, s1, i0, i1, r1),
        played(s1, s2, i1, i2, r2),
        r1 is Ok,
        r2 is Ok,
    ensures
        i2.emitted() == i0.emitted().push(Action::Backspace).push(s0.engine.current()),
        i2.attempts() == i0.attempts().push((Action::Backspace, Ok::<(), InjectError>(()))).push(
            (s0.engine.current(), Ok::<(), InjectError>(())),
        ),
        s2.engine.head.pos == s0.engine.head.pos + 1,
{
}

impl Session {
    pub open spec fn wf(&self) -> bool {
        self.engine.wf()
    }

    pub open spec fn is_over(&self) -> bool {
        self.phase == Phase::Done || self.phase == Phase::Exited
    }

    pub fn new(engine: Engine) -> (r: Self)
        requires
            engine.wf(),
        ensures
            r.wf(),
            r.engine == engine,
            r.phase == Phase::Waiting,
    {
        Session { engine, phase: Phase::Waiting }
    }

    fn play_step<I: OutputInjector>(&mut self, inj: &mut I) -> (r: Result<Reply, InjectError>)
        requires
            old(self).wf(),
        ensures
            played(*old(self), *final(self), *old(inj), *final(inj), r),
    {
        self.phase = Phase::Running;
        self.engine.step(inj)?;
        if self.engine.head.is_eof() {
            self.phase = Phase::Done;
            Ok(Reply::Done)
        } else {
            Ok(Reply::Stepped)
        }
    }

    /// Handles one trigger.
    ///
    /// Exit ends the session from any phase, start is honoured once, pause
    /// toggles the engine, and steps are discarded until started. A step from
    /// a plain letter only sends the backspace that erases the letter and
    /// owes the step to `settle`; any other step plays one action at once.
    /// Once the session is over nothing changes.
    pub fn handle<I: OutputInjector>(&mut self, ev: TriggerEvent, inj: &mut I) -> (r: Result<
        Reply,
        InjectError,
    >)
        requires
            old(self).wf(),
            old(self).phase != Phase::Settling,
        ensures
            final(self).wf(),
            old(self).is_over() ==> {
                &&& r == Ok::<Reply, InjectError>(Reply::Ignored)
                &&& *final(self) == *old(self)
                &&& *final(inj) == *old(inj)
            },
            !old(self).is_over() && ev == TriggerEvent::Exit ==> {
                &&& r == Ok::<Reply, InjectError>(Reply::Exited)
                &&& final(self).phase == Phase::Exited
                &&& final(self).engine == old(self).engine
                &&& *final(inj) == *old(inj)
            },
            !old(self).is_over() && ev == TriggerEvent::Start ==> {
                &&& final(self).engine == old(self).engine
                &&& *final(inj) == *old(inj)
                &&& if old(self).phase == Phase::Waiting {
                    r == Ok::<Reply, InjectError>(Reply::Started) && final(self).phase == Phase::Running
                } else {
                    r == Ok::<Reply, InjectError>(Reply::Ignored) && final(self).phase == old(self).phase
                }
            },
            !old(self).is_over() && ev == TriggerEvent::PauseToggle ==> {
                &&& final(self).engine.head == old(self).engine.head.toggled()
                &&& final(self).engine.actions@ == old(self).engine.actions@
                &&& final(self).engine._markers@ == old(self).engine._markers@
                &&& final(self).phase == old(self).phase
                &&& *final(inj) == *old(inj)
                &&& r == Ok::<Reply, InjectError>(
                    if final(self).engine.head.paused {
                        Reply::Paused
                    } else {
                        Reply::Resumed
                    },
                )
            },
            old(self).phase == Phase::Waiting && ev is Step ==> {
                &&& r == Ok::<Reply, InjectError>(Reply::Ignored)
                &&& *final(self) == *old(self)
                &&& *final(inj) == *old(inj)
            },
            old(self).phase == Phase::Running && ev == (TriggerEvent::Step { from_alpha: true })
                ==> corrected(*old(self), *final(self), *old(inj), *final(inj), r),
            old(self).phase == Phase::Running && ev == (TriggerEvent::Step { from_alpha: false }) ==> played(
                *old(self),
                *final(self),
                *old(inj),
                *final(inj),
                r,
            ),
    {
        if self.phase == Phase::Done || self.phase == Phase::Exited {
            return Ok(Reply::Ignored);
        }
        match ev {
            TriggerEvent::Exit => {
                self.phase = Phase::Exited;
                Ok(Reply::Exited)
            },
            TriggerEvent::Start => {
                if self.phase == Phase::Waiting {
                    self.phase = Phase::Running;
                    Ok(Reply::Started)
                } else {
                    Ok(Reply::Ignored)
                }
            },
            TriggerEvent::PauseToggle => {
                self.engine.toggle_pause();
                if self.engine.head.paused {
                    Ok(Reply::Paused)
                } else {
                    Ok(Reply::Resumed)
                }
            },
            TriggerEvent::Step { from_alpha } => {
                if self.phase == Phase::Waiting {
                    Ok(Reply::Ignored)
                } else if from_alpha {
                    inj.backspace()?;
                    self.phase = Phase::Settling;
                    Ok(Reply::Settle)
                } else {
                    self.play_step(inj)
                }
            },
        }
    }

    /// Plays the step owed after a corrective backspace.
    pub fn settle<I: OutputInjector>(&mut self, inj: &mut I) -> (r: Result<Reply, InjectError>)
        requires
            old(self).wf(),
            old(self).phase == Phase::Settling,
        ensures
            played(*old(self), *final(self), *old(inj), *final(inj), r),
    {
        self.play_step(inj)
    }
}

} // verus!
