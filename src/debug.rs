//! A queue of debug drawings, each shown for a while and then dropped.
use vstd::prelude::*;

use crate::fire::DrawCommand;

verus! {

/// How long a debug drawing stays, microseconds (5 s).
pub const DEBUG_LINE_LIFETIME: u64 = 5_000_000;

/// A one-shot countdown: it finishes once `duration` microseconds have
/// been ticked, and reports the tick on which that happened.
#[derive(Clone, Copy, Debug, PartialEq, Eq, Structural)]
pub struct Timer {
    pub duration: u64,
    pub elapsed: u64,
    pub finished: bool,
    pub finished_this_tick: bool,
}

impl Timer {
    pub open spec fn fresh(duration: u64) -> Timer {
        Timer { duration, elapsed: 0, finished: false, finished_this_tick: false }
    }

    /// The timer after `delta` more microseconds. A finished timer stays
    /// finished and no longer reports finishing; otherwise elapsed time
    /// grows, stopping at the duration, where the timer finishes.
    pub open spec fn ticked(self, delta: u64) -> Timer {
        if self.finished {
            Timer { finished_this_tick: false, ..self }
        } else if self.elapsed + delta >= self.duration {
            Timer { elapsed: self.duration, finished: true, finished_this_tick: true, ..self }
        } else {
            Timer { elapsed: (self.elapsed + delta) as u64, finished: false, finished_this_tick: false, ..self }
        }
    }

    pub fn once(duration: u64) -> (r: Timer)
        ensures
            r == Timer::fresh(duration),
    {
        Timer { duration, elapsed: 0, finished: false, finished_this_tick: false }
    }

    pub fn tick(&mut self, delta: u64)
        ensures
            *final(self) == old(self).ticked(delta),
    {
        if self.finished {
            self.finished_this_tick = false;
        } else if delta >= self.duration || self.elapsed >= self.duration - delta {
            self.elapsed = self.duration;
            self.finished = true;
            self.finished_this_tick = true;
        } else {
            self.elapsed = self.elapsed + delta;
            self.finished_this_tick = false;
        }
    }
}

/// A drawing and the timer that says when it goes.
#[derive(Clone, Debug)]
pub struct DebugEntry {
    pub drawing: Vec<DrawCommand>,
    pub timer: Timer,
}

/// An entry that has not run out.
pub open spec fn is_live(e: DebugEntry) -> bool {
    !e.timer.finished
}

/// The entries with every timer advanced by `delta` microseconds.
pub open spec fn ticked_entries(es: Seq<DebugEntry>, delta: u64) -> Seq<DebugEntry> {
    es.map_values(|e: DebugEntry| DebugEntry { drawing: e.drawing, timer: e.timer.ticked(delta) })
}

/// The debug drawings on screen.
#[derive(Clone, Debug)]
pub struct DebugLines {
    pub entries: Vec<DebugEntry>,
}

impl DebugLines {
    pub fn new() -> (r: DebugLines)
        ensures
            r.entries@.len() == 0,
    {
        DebugLines { entries: Vec::new() }
    }

    /// Adds a drawing that stays for [`DEBUG_LINE_LIFETIME`].
    pub fn push(&mut self, drawing: Vec<DrawCommand>)
        ensures
            final(self).entries@ == old(self).entries@.push(
                DebugEntry { drawing, timer: Timer::fresh(DEBUG_LINE_LIFETIME) },
            ),
    {
        self.entries.push(DebugEntry { drawing, timer: Timer::once(DEBUG_LINE_LIFETIME) });
    }

    /// Advances every timer by `delta` microseconds; true when one of them
    /// finished on this tick.
    pub fn run_all(&mut self, delta: u64) -> (r: bool)
        ensures
            final(self).entries@.len() == old(self).entries@.len(),
            forall|i: int|
                0 <= i < old(self).entries@.len() ==> (#[trigger] final(self).entries@[i]).drawing
                    == old(self).entries@[i].drawing && final(self).entries@[i].timer == old(
                    self,
                ).entries@[i].timer.ticked(delta),
            r == exists|i: int|
                0 <= i < final(self).entries@.len()
                    && (#[trigger] final(self).entries@[i]).timer.finished_this_tick,
    {
        let mut any = false;
        let mut i: usize = 0;
        while i < self.entries.len()
            invariant
                0 <= i <= self.entries@.len(),
                self.entries@.len() == old(self).entries@.len(),
                forall|j: int|
                    0 <= j < self.entries@.len() ==> (#[trigger] self.entries@[j]).drawing == old(
                        self,
                    ).entries@[j].drawing,
                forall|j: int|
                    0 <= j < i ==> (#[trigger] self.entries@[j]).timer == old(self).entries@[j].timer.ticked(delta),
                forall|j: int|
                    i <= j < self.entries@.len() ==> (#[trigger] self.entries@[j]).timer == old(self).entries@[j].timer,
                any == exists|j: int| 0 <= j < i && (#[trigger] self.entries@[j]).timer.finished_this_tick,
            decreases self.entries@.len() - i,
        {
            let ghost prev = self.entries@;
            let mut timer = self.entries[i].timer;
            timer.tick(delta);
            let just = timer.finished_this_tick;
            self.entries[i].timer = timer;
            assert(self.entries@[i as int].timer == timer);
            assert(forall|j: int| 0 <= j < self.entries@.len() && j != i ==> self.entries@[j] == prev[j]);
            if just {
                any = true;
            }
            i = i + 1;
            assert(any == exists|j: int| 0 <= j < i && (#[trigger] self.entries@[j]).timer.finished_this_tick) by {
                if any && !just {
                    let j = choose|j: int| 0 <= j < i - 1 && (#[trigger] prev[j]).timer.finished_this_tick;
                    assert(0 <= j < i && self.entries@[j].timer.finished_this_tick);
                }
                if just {
                    assert(self.entries@[i - 1].timer.finished_this_tick);
                }
            }
        }
        any
    }

    /// Drops the drawings whose timers have finished, keeping the order of
    /// the rest.
    pub fn clean(&mut self)
        ensures
            final(self).entries@ == old(self).entries@.filter(|e: DebugEntry| is_live(e)),
    {
        let ghost orig = self.entries@;
        let mut rest: Vec<DebugEntry> = Vec::new();
        std::mem::swap(&mut self.entries, &mut rest);
        let ghost keep = |e: DebugEntry| is_live(e);
        assert(orig.take(0) =~= Seq::<DebugEntry>::empty());
        proof {
            reveal(Seq::filter);
        }
        assert(self.entries@ =~= orig.take(0).filter(keep));
        while rest.len() > 0
            invariant
                rest@ == orig.skip(orig.len() - rest@.len()),
                rest@.len() <= orig.len(),
                self.entries@ == orig.take(orig.len() - rest@.len()).filter(keep),
                keep == (|e: DebugEntry| is_live(e)),
            decreases rest@.len(),
        {
            let ghost done = orig.len() - rest@.len();
            let e = rest.remove(0);
            assert(e == orig[done]);
            assert(orig.take(done + 1).drop_last() =~= orig.take(done));
            assert(orig.take(done + 1).last() == orig[done]);
            proof {
                reveal(Seq::filter);
            }
            if !e.timer.finished {
                self.entries.push(e);
            }
            assert(rest@ =~= orig.skip(orig.len() - rest@.len()));
        }
        assert(orig.take(orig.len() as int) =~= orig);
    }

    /// One frame: advances every timer by `delta` microseconds and, when one
    /// of them finished on this tick, drops the finished drawings. Returns
    /// whether one finished.
    pub fn update(&mut self, delta: u64) -> (r: bool)
        ensures
            r == exists|i: int|
                0 <= i < old(self).entries@.len()
                    && (#[trigger] ticked_entries(old(self).entries@, delta)[i]).timer.finished_this_tick,
            final(self).entries@ == if r {
                ticked_entries(old(self).entries@, delta).filter(|e: DebugEntry| is_live(e))
            } else {
                ticked_entries(old(self).entries@, delta)
            },
    {
        let ghost before = self.entries@;
        let any = self.run_all(delta);
        assert(self.entries@ =~= ticked_entries(before, delta));
        if any {
            self.clean();
        }
        any
    }
}

} // verus!
