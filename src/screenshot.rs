//! Screenshots taken a fixed number of frames after they are asked for, so that reading
//! the pixels back never waits on the frame being drawn.

use std::collections::VecDeque;
use vstd::prelude::*;

verus! {

/// Pixels read back from the screen, as RGBA bytes, row by row from the bottom.
pub struct RGBAImageData {
    pub data: Vec<(u8, u8, u8, u8)>,
    pub width: u32,
    pub height: u32,
}

impl RGBAImageData {
    /// The pixels as one byte string, four bytes per pixel in RGBA order.
    pub fn flatten(&self) -> (r: Vec<u8>)
        requires
            self.data@.len() * 4 <= usize::MAX,
        ensures
            r@.len() == 4 * self.data@.len(),
            forall|i: int|
                0 <= i < self.data@.len() ==> {
                    &&& r@[4 * i] == (#[trigger] self.data@[i]).0
                    &&& r@[4 * i + 1] == self.data@[i].1
                    &&& r@[4 * i + 2] == self.data@[i].2
                    &&& r@[4 * i + 3] == self.data@[i].3
                },
    {
        let n = self.data.len();
        let mut bytes: Vec<u8> = Vec::with_capacity(n * 4);
        let mut i: usize = 0;
        while i < n
            invariant
                n == self.data@.len(),
                i <= n,
                bytes@.len() == 4 * i,
                forall|k: int|
                    0 <= k < i ==> {
                        &&& bytes@[4 * k] == (#[trigger] self.data@[k]).0
                        &&& bytes@[4 * k + 1] == self.data@[k].1
                        &&& bytes@[4 * k + 2] == self.data@[k].2
                        &&& bytes@[4 * k + 3] == self.data@[k].3
                    },
            decreases n - i,
        {
            let (a, b, c, d) = self.data[i];
            bytes.push(a);
            bytes.push(b);
            bytes.push(c);
            bytes.push(d);
            i = i + 1;
        }
        bytes
    }
}

/// How many tasks at the front of `tasks` are due at `frame`.
pub open spec fn due_count<T>(tasks: Seq<(u64, T)>, frame: u64) -> nat
    decreases tasks.len(),
{
    if tasks.len() == 0 || tasks[0].0 != frame {
        0
    } else {
        1 + due_count(tasks.skip(1), frame)
    }
}

/// The screenshots asked for and not yet picked up, each with the frame at which its
/// pixels are read.
pub struct AsyncScreenshotTaker<T> {
    pub screenshot_delay: u64,
    pub frame: u64,
    pub screenshot_tasks: VecDeque<(u64, T)>,
}

impl<T> AsyncScreenshotTaker<T> {
    /// A taker whose screenshots are read `screenshot_delay` frames after they are asked for.
    pub fn new(screenshot_delay: u64) -> (r: Self)
        ensures
            r.screenshot_delay == screenshot_delay,
            r.frame == 0,
            r.screenshot_tasks@ == Seq::<(u64, T)>::empty(),
    {
        AsyncScreenshotTaker { screenshot_delay, frame: 0, screenshot_tasks: VecDeque::new() }
    }

    /// Counts one more frame (the count stops at its largest value).
    pub fn next_frame(&mut self)
        ensures
            final(self).frame == old(self).frame.saturating_add(1),
            final(self).screenshot_delay == old(self).screenshot_delay,
            final(self).screenshot_tasks@ == old(self).screenshot_tasks@,
    {
        self.frame = self.frame.saturating_add(1);
    }

    /// Queues `task`, due `screenshot_delay` frames from now.
    pub fn take_screenshot(&mut self, task: T)
        ensures
            final(self).frame == old(self).frame,
            final(self).screenshot_delay == old(self).screenshot_delay,
            final(self).screenshot_tasks@ == old(self).screenshot_tasks@.push(
                (old(self).frame.saturating_add(old(self).screenshot_delay), task),
            ),
    {
        let due = self.frame.saturating_add(self.screenshot_delay);
        self.screenshot_tasks.push_back((due, task));
    }

    /// Takes out the tasks at the front of the queue that are due now, in order.
    pub fn pickup_screenshots(&mut self) -> (r: Vec<T>)
        ensures
            final(self).frame == old(self).frame,
            final(self).screenshot_delay == old(self).screenshot_delay,
            r@ == old(self).screenshot_tasks@.take(
                due_count(old(self).screenshot_tasks@, old(self).frame) as int,
            ).map_values(|t: (u64, T)| t.1),
            final(self).screenshot_tasks@ == old(self).screenshot_tasks@.skip(
                due_count(old(self).screenshot_tasks@, old(self).frame) as int,
            ),
    {
        let ghost all = self.screenshot_tasks@;
        let ghost k = due_count(all, self.frame);
        let mut picked: Vec<T> = Vec::new();
        let n = self.screenshot_tasks.len();
        let mut j: usize = 0;
        proof {
            lemma_due_count_bounded(all, self.frame);
            assert(all.skip(0) =~= all);
        }
        while self.screenshot_tasks.len() > 0 && self.screenshot_tasks[0].0 == self.frame
            invariant
                self.frame == old(self).frame,
                self.screenshot_delay == old(self).screenshot_delay,
                all == old(self).screenshot_tasks@,
                k == due_count(all, self.frame),
                j <= k <= all.len(),
                all.len() == n,
                self.screenshot_tasks@ == all.skip(j as int),
                due_count(all.skip(j as int), self.frame) == k - j,
                picked@ == all.take(j as int).map_values(|t: (u64, T)| t.1),
            decreases self.screenshot_tasks@.len(),
        {
            let ghost rest = self.screenshot_tasks@;
            let front = self.screenshot_tasks.pop_front();
            if let Some(task) = front {
                picked.push(task.1);
            }
            proof {
                assert(rest.subrange(1, rest.len() as int) =~= all.skip(j + 1));
                assert(all.take(j + 1) =~= all.take(j as int).push(all[j as int]));
                assert(picked@ =~= all.take(j + 1).map_values(|t: (u64, T)| t.1));
            }
            j = j + 1;
        }
        proof {
            assert(j == k);
        }
        picked
    }
}

/// No more tasks are due than there are.
proof fn lemma_due_count_bounded<T>(tasks: Seq<(u64, T)>, frame: u64)
    ensures
        due_count(tasks, frame) <= tasks.len(),
    decreases tasks.len(),
{
    if tasks.len() > 0 && tasks[0].0 == frame {
        lemma_due_count_bounded(tasks.skip(1), frame);
    }
}

} // verus!
