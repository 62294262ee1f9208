use vstd::prelude::*;

verus! {

/// Run state of one capture pipeline (teacher screen, student screen or
/// audio) and the counter its frames are numbered from.
pub struct CapturePipeline {
    running: bool,
    frame_counter: u64,
}

impl CapturePipeline {
    pub closed spec fn running(&self) -> bool {
        self.running
    }

    /// The id of the last frame handed out; 0 before the first.
    pub closed spec fn counter(&self) -> u64 {
        self.frame_counter
    }

    pub fn new() -> (r: Self)
        ensures
            !r.running(),
            r.counter() == 0,
    {
        CapturePipeline { running: false, frame_counter: 0 }
    }

    pub fn is_running(&self) -> (r: bool)
        ensures
            r == self.running(),
    {
        self.running
    }

    /// Marks the pipeline running. Returns whether a capture task is to be
    /// started: not when one already runs.
    pub fn start(&mut self) -> (spawn: bool)
        ensures
            spawn == !old(self).running(),
            final(self).running(),
            final(self).counter() == old(self).counter(),
    {
        let spawn = !self.running;
        self.running = true;
        spawn
    }

    /// Marks the pipeline stopped. Returns whether a running capture task is
    /// to be terminated.
    pub fn stop(&mut self) -> (abort: bool)
        ensures
            abort == old(self).running(),
            !final(self).running(),
            final(self).counter() == old(self).counter(),
    {
        let abort = self.running;
        self.running = false;
        abort
    }

    /// The id of the next frame, one past the last; `None` once the ids are used up.
    pub fn next_frame_id(&mut self) -> (r: Option<u64>)
        ensures
            final(self).running() == old(self).running(),
            old(self).counter() < u64::MAX ==> r == Some((old(self).counter() + 1) as u64)
                && final(self).counter() == old(self).counter() + 1,
            old(self).counter() == u64::MAX ==> r is None && final(self).counter()
                == old(self).counter(),
    {
        if self.frame_counter == u64::MAX {
            None
        } else {
            self.frame_counter = self.frame_counter + 1;
            Some(self.frame_counter)
        }
    }
}

/// Period of the capture ticker for `fps` frames a second: `1000 / fps`
/// milliseconds, never under 16. A rate of 0 never ticks again (`u64::MAX`).
pub fn tick_interval_ms(fps: u32) -> (r: u64)
    ensures
        fps == 0 ==> r == u64::MAX,
        fps > 0 ==> r == if 1000int / (fps as int) < 16 {
            16
        } else {
            1000int / (fps as int)
        },
{
    if fps == 0 {
        u64::MAX
    } else {
        let p = 1000 / fps as u64;
        if p < 16 {
            16
        } else {
            p
        }
    }
}

} // verus!
