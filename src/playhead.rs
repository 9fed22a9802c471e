use vstd::prelude::*;

verus! {

/// Cursor over an action list: the next action to play, the end of the list,
/// and whether playback is paused.
#[derive(Debug, Clone)]
pub struct Playhead {
    pub pos: usize,
    pub end: usize,
    pub paused: bool,
}

impl Playhead {
    /// The cursor never runs past the end of the list.
    pub open spec fn wf(&self) -> bool {
        self.pos <= self.end
    }

    pub open spec fn spec_is_eof(&self) -> bool {
        self.pos >= self.end
    }

    /// The playhead after one step: unchanged while paused or at the end,
    /// otherwise one action further.
    pub open spec fn advanced(self) -> Playhead {
        if self.paused || self.spec_is_eof() {
            self
        } else {
            Playhead { pos: (self.pos + 1) as usize, ..self }
        }
    }

    /// The playhead with its pause flag flipped.
    pub open spec fn toggled(self) -> Playhead {
        Playhead { paused: !self.paused, ..self }
    }

    pub fn new(end: usize) -> (r: Self)
        ensures
            r.pos == 0,
            r.end == end,
            !r.paused,
            r.wf(),
    {
        Self { pos: 0, end, paused: false }
    }

    pub fn is_eof(&self) -> (r: bool)
        ensures
            r == self.spec_is_eof(),
            self.wf() ==> (r <==> self.pos == self.end),
    {
        self.pos >= self.end
    }
}

} // verus!
