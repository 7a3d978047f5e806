//! Downloading a batch of images with a bound on how many are fetched at once.
//!
//! A `Downloader` decides; it fetches nothing. The caller asks it with `poll`
//! which image to fetch next, fetches and stores several at a time, and reports
//! with `settle` how each one ended, in whatever order they end. The bound on
//! the fetches that are under way at one time is kept by the `Downloader`.
//!
//! Once a fetch has failed no further one is started. Those that are under way
//! are waited for, their results are left out of the count, and the batch ends
//! with the failure that was reported first.

use crate::errors::Error;
use crate::text::views_of;
use vstd::prelude::*;

verus! {

/// How many fetches are under way at one time where nothing else is asked for.
pub const DEFAULT_LIMIT: usize = 18;

/// What a batch has come to.
pub struct Batch {
    /// The ids of the images to fetch, in the order in which they are started.
    pub ids: Seq<Seq<char>>,
    /// How many fetches may be under way at one time.
    pub limit: nat,
    /// How many fetches have been started: those of `ids[..issued]`.
    pub issued: nat,
    /// The bytes written for each image that was stored before any failure, in
    /// the order in which the images were reported.
    pub written: Seq<usize>,
    /// How many reports are left out of the count: the first failure and every
    /// report after it.
    pub lost: nat,
    /// The failure that was reported first.
    pub failure: Option<Error>,
}

/// The sum of `sizes`.
pub open spec fn total(sizes: Seq<usize>) -> nat
    decreases sizes.len(),
{
    if sizes.len() == 0 {
        0
    } else {
        total(sizes.drop_last()) + sizes.last() as nat
    }
}

impl Batch {
    /// The batch of `ids` under the bound `limit`, with nothing started.
    pub open spec fn start(ids: Seq<Seq<char>>, limit: nat) -> Batch {
        Batch { ids, limit, issued: 0, written: Seq::empty(), lost: 0, failure: None }
    }

    /// How many fetches have been reported back.
    pub open spec fn settled(self) -> nat {
        self.written.len() + self.lost
    }

    /// How many fetches are under way.
    pub open spec fn in_flight(self) -> int {
        self.issued - self.settled()
    }

    /// What holds of a batch at all times: no more fetches are reported than
    /// were started, no more started than there are ids, no more under way than
    /// the bound allows, and every report is counted until one fails.
    pub open spec fn valid(self) -> bool {
        &&& self.settled() <= self.issued <= self.ids.len()
        &&& self.in_flight() <= self.limit
        &&& self.failure is None ==> self.lost == 0
    }

    /// Whether a further fetch may be started: nothing has failed, an id is
    /// left, and the bound leaves room.
    pub open spec fn can_issue(self) -> bool {
        &&& self.failure is None
        &&& self.issued < self.ids.len()
        &&& self.in_flight() < self.limit
    }

    /// The batch after the next fetch has been started.
    pub open spec fn issue(self) -> Batch {
        Batch { issued: self.issued + 1, ..self }
    }

    /// The batch after a fetch has been reported with `outcome`. A report that
    /// answers no fetch changes nothing. The bytes of a stored image are counted
    /// while nothing has failed; the first failure is kept; every report from
    /// the first failure on is left out of the count.
    pub open spec fn settle(self, outcome: Result<usize, Error>) -> Batch {
        if self.in_flight() <= 0 {
            self
        } else if self.failure is Some {
            Batch { lost: self.lost + 1, ..self }
        } else {
            match outcome {
                Ok(n) => Batch { written: self.written.push(n), ..self },
                Err(e) => Batch { lost: self.lost + 1, failure: Some(e), ..self },
            }
        }
    }

    /// Whether the batch has ended: nothing is under way, and either every id
    /// has been fetched or a fetch has failed.
    pub open spec fn finished(self) -> bool {
        &&& self.in_flight() == 0
        &&& self.failure is Some || self.issued == self.ids.len()
    }

    /// What a batch that has ended amounts to: the first failure, or the bytes
    /// written for all its images together.
    pub open spec fn summary(self) -> Result<nat, Error> {
        match self.failure {
            Some(e) => Err(e),
            None => Ok(total(self.written)),
        }
    }
}

/// One thing that happens to a batch.
pub enum Move {
    /// The caller asks what to do next.
    Poll,
    /// The caller reports how a fetch ended.
    Settle(Result<usize, Error>),
}

impl Batch {
    /// The batch after `m`. Asking what to do next starts a fetch where one may
    /// be started.
    pub open spec fn step(self, m: Move) -> Batch {
        match m {
            Move::Poll => if self.can_issue() {
                self.issue()
            } else {
                self
            },
            Move::Settle(outcome) => self.settle(outcome),
        }
    }

    /// The batch after all of `moves`, in order.
    pub open spec fn after(self, moves: Seq<Move>) -> Batch
        decreases moves.len(),
    {
        if moves.len() == 0 {
            self
        } else {
            self.after(moves.drop_last()).step(moves.last())
        }
    }
}

/// What a `Downloader` tells its caller to do.
#[derive(Debug)]
pub enum Step {
    /// Start fetching the image of this id, and call `poll` again.
    Fetch(String),
    /// Start nothing now: report a fetch that is under way first.
    Wait,
    /// The batch has ended: call `finish`.
    Finished,
    /// The bound is 0, so the ids that are left can never be fetched.
    Stalled,
}

/// The images that were stored before any failure: how many, and the bytes
/// written for them together and for each.
#[derive(Clone, Copy)]
struct Tally {
    stored: usize,
    bytes: u128,
    sizes: Ghost<Seq<usize>>,
}

/// A batch of images to download, and how far the download has come.
pub struct Downloader {
    ids: Vec<String>,
    limit: usize,
    issued: usize,
    tally: Tally,
    lost: usize,
    failure: Option<Error>,
}

impl View for Downloader {
    type V = Batch;

    closed spec fn view(&self) -> Batch {
        Batch {
            ids: views_of(self.ids@),
            limit: self.limit as nat,
            issued: self.issued as nat,
            written: self.tally.sizes@,
            lost: self.lost as nat,
            failure: self.failure,
        }
    }
}

impl Downloader {
    #[verifier::type_invariant]
    spec fn holds(self) -> bool {
        &&& self@.valid()
        &&& self.tally.stored == self.tally.sizes@.len()
        &&& self.tally.bytes == total(self.tally.sizes@)
    }

    /// A batch of `ids`, of which at most `limit` are fetched at one time.
    pub fn new(ids: Vec<String>, limit: usize) -> (batch: Downloader)
        ensures
            batch@ == Batch::start(views_of(ids@), limit as nat),
    {
        let tally = Tally { stored: 0, bytes: 0, sizes: Ghost(Seq::empty()) };
        Downloader { ids, limit, issued: 0, tally, lost: 0, failure: None }
    }

    /// How many fetches are under way. It is never more than the bound.
    pub fn in_flight(&self) -> (n: usize)
        ensures
            n == self@.in_flight(),
            n <= self@.limit,
            self@.valid(),
    {
        proof {
            use_type_invariant(self);
        }
        self.issued - self.tally.stored - self.lost
    }

    /// Whether the batch has ended.
    pub fn is_finished(&self) -> (done: bool)
        ensures
            done == self@.finished(),
    {
        proof {
            use_type_invariant(self);
        }
        self.in_flight() == 0 && (self.failure.is_some() || self.issued == self.ids.len())
    }

    /// Says what to do next, and counts a fetch that it asks for as started.
    pub fn poll(&mut self) -> (step: Step)
        ensures
            old(self)@.valid(),
            final(self)@.valid(),
            final(self)@ == if old(self)@.can_issue() {
                old(self)@.issue()
            } else {
                old(self)@
            },
            match step {
                Step::Fetch(id) => old(self)@.can_issue() && id@ == old(self)@.ids[old(
                    self,
                )@.issued as int],
                Step::Finished => old(self)@.finished(),
                Step::Wait => !old(self)@.can_issue() && old(self)@.in_flight() > 0,
                Step::Stalled => !old(self)@.can_issue() && !old(self)@.finished() && old(
                    self,
                )@.in_flight() == 0,
            },
    {
        proof {
            use_type_invariant(&*self);
        }
        let under_way = self.in_flight();
        if self.failure.is_none() && self.issued < self.ids.len() && under_way < self.limit {
            let id = self.ids[self.issued].clone();
            self.issued += 1;
            Step::Fetch(id)
        } else if under_way > 0 {
            Step::Wait
        } else if self.failure.is_some() || self.issued == self.ids.len() {
            Step::Finished
        } else {
            Step::Stalled
        }
    }

    /// Takes the report of how one fetch ended: the bytes written for the image,
    /// or why it could not be fetched or stored. Says whether the report answers
    /// a fetch that was under way.
    pub fn settle(&mut self, outcome: Result<usize, Error>) -> (expected: bool)
        ensures
            old(self)@.valid(),
            final(self)@.valid(),
            final(self)@ == old(self)@.settle(outcome),
            expected == (old(self)@.in_flight() > 0),
    {
        proof {
            use_type_invariant(&*self);
        }
        if self.in_flight() == 0 {
            return false;
        }
        if self.failure.is_some() {
            self.lost += 1;
        } else {
            match outcome {
                Ok(n) => {
                    let tally = self.tally;
                    proof {
                        lemma_total_bound(tally.sizes@);
                        lemma_square_fits(tally.stored as nat);
                        assert(tally.sizes@.push(n).drop_last() =~= tally.sizes@);
                    }
                    self.tally = Tally {
                        stored: tally.stored + 1,
                        bytes: tally.bytes + n as u128,
                        sizes: Ghost(tally.sizes@.push(n)),
                    };
                },
                Err(e) => {
                    self.failure = Some(e);
                    self.lost += 1;
                },
            }
        }
        true
    }

    /// What the batch amounts to, once it has ended: the failure that was
    /// reported first, or else the bytes written for all images together.
    /// `None` while the batch has not ended.
    pub fn finish(self) -> (summary: Option<Result<u128, Error>>)
        ensures
            self@.valid(),
            !self@.finished() ==> summary is None,
            self@.finished() ==> match self@.summary() {
                Ok(sum) => summary matches Some(Ok(n)) && n == sum,
                Err(e) => summary == Some(Err::<u128, Error>(e)),
            },
    {
        proof {
            use_type_invariant(&self);
        }
        if !self.is_finished() {
            return None;
        }
        match self.failure {
            Some(e) => Some(Err(e)),
            None => Some(Ok(self.tally.bytes)),
        }
    }
}

/// No move takes a valid batch to one that is not valid, and none changes its
/// ids or its bound.
pub proof fn lemma_step_keeps_valid(batch: Batch, m: Move)
    requires
        batch.valid(),
    ensures
        batch.step(m).valid(),
        batch.step(m).ids == batch.ids,
        batch.step(m).limit == batch.limit,
{
}

/// Whatever is asked and reported, in whatever order, a batch that started
/// with the bound `limit` never has more than `limit` fetches under way, and
/// never fewer than none.
pub proof fn lemma_never_over_limit(ids: Seq<Seq<char>>, limit: nat, moves: Seq<Move>)
    ensures
        Batch::start(ids, limit).after(moves).valid(),
        Batch::start(ids, limit).after(moves).ids == ids,
        Batch::start(ids, limit).after(moves).limit == limit,
        0 <= Batch::start(ids, limit).after(moves).in_flight() <= limit,
    decreases moves.len(),
{
    if moves.len() > 0 {
        lemma_never_over_limit(ids, limit, moves.drop_last());
        lemma_step_keeps_valid(Batch::start(ids, limit).after(moves.drop_last()), moves.last());
    }
}

/// A batch that has ended without a failure has counted every one of its
/// images once, and amounts to the bytes written for all of them.
pub proof fn lemma_finished_counts_all(batch: Batch)
    requires
        batch.valid(),
        batch.finished(),
        batch.failure is None,
    ensures
        batch.written.len() == batch.ids.len(),
        batch.summary() == Ok::<nat, Error>(total(batch.written)),
{
}

/// A batch that has ended after a failure amounts to the failure that was
/// reported first: a later report changes neither it nor the count.
pub proof fn lemma_first_failure_is_kept(batch: Batch, outcome: Result<usize, Error>)
    requires
        batch.failure is Some,
    ensures
        batch.settle(outcome).failure == batch.failure,
        batch.settle(outcome).written == batch.written,
        !batch.settle(outcome).can_issue(),
{
}

/// Where the bound is not 0, a batch that has not ended can always go on: a
/// fetch can be started or one is under way.
pub proof fn lemma_progress(batch: Batch)
    requires
        batch.valid(),
        batch.limit > 0,
        !batch.finished(),
    ensures
        batch.can_issue() || batch.in_flight() > 0,
{
}

/// A sum is at most as many times the largest size as it has sizes.
pub proof fn lemma_total_bound(sizes: Seq<usize>)
    ensures
        total(sizes) <= sizes.len() * usize::MAX,
    decreases sizes.len(),
{
    if sizes.len() > 0 {
        lemma_total_bound(sizes.drop_last());
        assert((sizes.len() - 1) * usize::MAX + usize::MAX == sizes.len() * usize::MAX)
            by (nonlinear_arith);
    }
}

/// The sum of as many sizes as a `usize` counts fits in 128 bits.
proof fn lemma_square_fits(n: nat)
    requires
        n < usize::MAX,
    ensures
        (n + 1) * usize::MAX <= u128::MAX,
        n * usize::MAX + usize::MAX == (n + 1) * usize::MAX,
{
    assert((n + 1) * usize::MAX <= 0xffff_ffff_ffff_ffff * 0xffff_ffff_ffff_ffff)
        by (nonlinear_arith)
        requires
            n + 1 <= 0xffff_ffff_ffff_ffff,
            usize::MAX <= 0xffff_ffff_ffff_ffff,
    ;
    assert(n * usize::MAX + usize::MAX == (n + 1) * usize::MAX) by (nonlinear_arith);
}

} // verus!
