//! The order and number in which the files of a listing are worked on.

use vstd::prelude::*;

verus! {

/// How many files are synchronised at a time when nothing else is asked
/// for.
pub const DEFAULT_PARALLEL_FILES: usize = 8;

/// How far the work on the files of a listing has come.
pub struct ScheduleView {
    /// The number of files.
    pub total: nat,
    /// The most files that may be worked on at a time.
    pub cap: nat,
    /// The number of files that were handed out.
    pub started: nat,
    /// The number of files whose work has ended.
    pub finished: nat,
}

impl ScheduleView {
    /// The number of files that are being worked on.
    pub open spec fn in_flight(self) -> int {
        self.started - self.finished
    }

    /// Whether the counts fit together: no more files ended than were
    /// handed out, no more handed out than there are, and no more in work
    /// than the cap allows.
    pub open spec fn wf(self) -> bool {
        &&& self.cap >= 1
        &&& self.finished <= self.started <= self.total
        &&& self.in_flight() <= self.cap
    }
}

/// Hands out the files of a listing, by their place in it, to a bounded
/// number of workers. Files are handed out in the order of the listing,
/// each once; the order in which their work ends is not fixed.
#[derive(Debug)]
pub struct Schedule {
    total: usize,
    cap: usize,
    started: usize,
    finished: usize,
}

impl View for Schedule {
    type V = ScheduleView;

    closed spec fn view(&self) -> ScheduleView {
        ScheduleView {
            total: self.total as nat,
            cap: self.cap as nat,
            started: self.started as nat,
            finished: self.finished as nat,
        }
    }
}

impl Schedule {
    #[verifier::type_invariant]
    spec fn well_formed(&self) -> bool {
        self@.wf()
    }

    /// Returns the schedule for `total` files of which at most `cap` are
    /// worked on at a time. A cap of 0 would let no file start and is taken
    /// as 1.
    pub fn new(total: usize, cap: usize) -> (schedule: Schedule)
        ensures
            schedule@ == (ScheduleView {
                total: total as nat,
                cap: if cap == 0 {
                    1
                } else {
                    cap as nat
                },
                started: 0,
                finished: 0,
            }),
            schedule@.wf(),
    {
        Schedule { total, cap: if cap == 0 {
            1
        } else {
            cap
        }, started: 0, finished: 0 }
    }

    /// Hands out the next file, if one is left and a worker is free, and
    /// returns its place in the listing.
    pub fn start_next(&mut self) -> (place: Option<usize>)
        ensures
            final(self)@.wf(),
            match place {
                Some(i) => {
                    &&& old(self)@.started < old(self)@.total
                    &&& old(self)@.in_flight() < old(self)@.cap
                    &&& i == old(self)@.started
                    &&& final(self)@ == (ScheduleView {
                        started: old(self)@.started + 1,
                        ..old(self)@
                    })
                },
                None => {
                    &&& old(self)@.started == old(self)@.total || old(self)@.in_flight()
                        == old(self)@.cap
                    &&& final(self)@ == old(self)@
                },
            },
    {
        proof {
            use_type_invariant(&*self);
        }
        if self.started < self.total && self.started - self.finished < self.cap {
            let place = self.started;
            self.started = self.started + 1;
            Some(place)
        } else {
            None
        }
    }

    /// Records that the work on one file has ended, whether it succeeded or
    /// failed.
    pub fn finish(&mut self)
        requires
            old(self)@.in_flight() > 0,
        ensures
            final(self)@.wf(),
            final(self)@ == (ScheduleView { finished: old(self)@.finished + 1, ..old(self)@ }),
    {
        proof {
            use_type_invariant(&*self);
        }
        self.finished = self.finished + 1;
    }

    /// Returns the number of files that are being worked on.
    pub fn in_flight(&self) -> (count: usize)
        ensures
            count == self@.in_flight(),
            count <= self@.cap,
            self@.wf(),
    {
        proof {
            use_type_invariant(self);
        }
        self.started - self.finished
    }

    /// Returns whether the work on every file has ended.
    pub fn is_done(&self) -> (done: bool)
        ensures
            done == (self@.finished == self@.total),
            self@.wf(),
    {
        proof {
            use_type_invariant(self);
        }
        self.finished == self.total
    }
}

/// A schedule never stalls: unless every file has ended, a file is in work
/// or one can be handed out.
pub proof fn lemma_schedule_makes_progress(schedule: ScheduleView)
    requires
        schedule.wf(),
        schedule.finished < schedule.total,
    ensures
        schedule.in_flight() > 0 || (schedule.started < schedule.total && schedule.in_flight()
            < schedule.cap),
{
}

} // verus!
