//! The batch: every pending repository is starred, one request after the
//! other, whatever the service answers to each.
//!
//! A batch does not talk to the service. It says which request is due, the
//! caller sends it and reports the status that came back, and the batch files
//! that status and moves on. A batch whose gate is closed asks for nothing.

use vstd::prelude::*;
use crate::error::StarError;
use crate::gate::{evaluate_gate, gate_open};
use crate::request::{is_success, is_success_code, star_url, star_url_of};
use crate::text::texts;

verus! {

/// What the service answered to one star request.
#[derive(Debug)]
pub struct StarOutcome {
    /// The identifier that the request named.
    pub repo: String,
    /// The status code of the answer.
    pub status: u16,
}

/// An outcome as contracts see it.
pub struct OutcomeView {
    pub repo: Seq<char>,
    pub status: u16,
}

impl View for StarOutcome {
    type V = OutcomeView;

    open spec fn view(&self) -> OutcomeView {
        OutcomeView { repo: self.repo@, status: self.status }
    }
}

impl StarOutcome {
    /// Whether the repository was starred.
    pub fn succeeded(&self) -> (ok: bool)
        ensures
            ok == is_success_code(self.status),
    {
        is_success(self.status)
    }
}

/// The outcomes of a log, each as contracts see it.
pub open spec fn outcomes_of(log: Seq<StarOutcome>) -> Seq<OutcomeView> {
    Seq::new(log.len(), |i: int| log[i]@)
}

/// A batch as contracts see it.
pub struct BatchView {
    /// The endpoint that requests are sent to.
    pub base: Seq<char>,
    /// The identifiers to star, in the order they were given.
    pub pending: Seq<Seq<char>>,
    /// Whether its gate was open when the batch was made.
    pub armed: bool,
    /// The answers filed so far, oldest first.
    pub log: Seq<OutcomeView>,
}

impl BatchView {
    /// The log follows the pending list: its entries name the first
    /// identifiers of the list, in order, and behind a closed gate it is
    /// empty.
    pub open spec fn wf(self) -> bool {
        &&& self.log.len() <= self.pending.len()
        &&& !self.armed ==> self.log.len() == 0
        &&& forall|i: int| 0 <= i < self.log.len() ==> (#[trigger] self.log[i]).repo == self.pending[i]
    }

    /// How many requests are still to be sent.
    pub open spec fn outstanding(self) -> int {
        if self.armed && self.log.len() < self.pending.len() {
            self.pending.len() - self.log.len()
        } else {
            0
        }
    }

    /// The address of the request that is due, if one is.
    pub open spec fn due(self) -> Option<Seq<char>> {
        if self.outstanding() > 0 {
            Some(star_url_of(self.base, self.pending[self.log.len() as int]))
        } else {
            None
        }
    }

    /// The batch after `status` was reported for the request that is due.
    /// With no request due, a report changes nothing.
    pub open spec fn report(self, status: u16) -> BatchView {
        if self.outstanding() > 0 {
            BatchView {
                log: self.log.push(
                    OutcomeView { repo: self.pending[self.log.len() as int], status },
                ),
                ..self
            }
        } else {
            self
        }
    }

    /// The batch after a caller has sent each request that was due and
    /// reported `statuses` for them, one by one.
    pub open spec fn drive(self, statuses: Seq<u16>) -> BatchView
        decreases statuses.len(),
    {
        if statuses.len() == 0 || self.due() is None {
            self
        } else {
            self.report(statuses[0]).drive(statuses.drop_first())
        }
    }

    /// The addresses of the requests that such a caller sends, in the order
    /// it sends them.
    pub open spec fn requests(self, statuses: Seq<u16>) -> Seq<Seq<char>>
        decreases statuses.len(),
    {
        if statuses.len() == 0 || self.due() is None {
            Seq::empty()
        } else {
            seq![self.due()->Some_0] + self.report(statuses[0]).requests(statuses.drop_first())
        }
    }

    /// The addresses at which the pending identifiers are starred, in the
    /// order of the identifiers.
    pub open spec fn addresses(self) -> Seq<Seq<char>> {
        Seq::new(self.pending.len(), |i: int| star_url_of(self.base, self.pending[i]))
    }

    /// The log of a batch in which every identifier got its answer:
    /// `statuses`, each beside the identifier at the same place.
    pub open spec fn full_log(self, statuses: Seq<u16>) -> Seq<OutcomeView> {
        Seq::new(
            self.pending.len(),
            |i: int| OutcomeView { repo: self.pending[i], status: statuses[i] },
        )
    }
}

/// One run's batch of star requests.
#[derive(Debug)]
pub struct StarBatch {
    base: String,
    pending: Vec<String>,
    armed: bool,
    log: Vec<StarOutcome>,
}

impl View for StarBatch {
    type V = BatchView;

    closed spec fn view(&self) -> BatchView {
        BatchView {
            base: self.base@,
            pending: texts(self.pending@),
            armed: self.armed,
            log: outcomes_of(self.log@),
        }
    }
}

impl StarBatch {
    /// Makes the batch for a run: `starred` repositories are starred
    /// already, `pending` are asked for, and its gate opens on every
    /// multiple of `threshold`.
    ///
    /// A threshold that is not positive is refused. Otherwise the batch
    /// holds the pending identifiers as given and an empty log, and it is
    /// armed exactly when that gate is open.
    pub fn new(base: String, starred: usize, pending: Vec<String>, threshold: i64) -> (r: Result<
        StarBatch,
        StarError,
    >)
        ensures
            match r {
                Ok(batch) => threshold > 0 && batch@.wf() && batch@ == (BatchView {
                    base: base@,
                    pending: texts(pending@),
                    armed: gate_open(starred as nat, pending.len() as nat, threshold as int),
                    log: Seq::empty(),
                }),
                Err(e) => threshold <= 0 && e == StarError::InvalidConfiguration,
            },
    {
        match evaluate_gate(starred, pending.len(), threshold) {
            Ok(armed) => {
                let batch = StarBatch { base, pending, armed, log: Vec::new() };
                assert(batch@.log =~= Seq::empty());
                Ok(batch)
            },
            Err(e) => Err(e),
        }
    }

    /// Whether its gate was open when the batch was made.
    pub fn is_armed(&self) -> (armed: bool)
        ensures
            armed == self@.armed,
    {
        self.armed
    }

    /// The address of the request that is due, or `None` when the batch is
    /// finished or was never armed.
    pub fn next_request(&self) -> (url: Option<String>)
        ensures
            match url {
                Some(address) => self@.due() == Some(address@),
                None => self@.due() is None,
            },
    {
        let at = self.log.len();
        if self.armed && at < self.pending.len() {
            Some(star_url(self.base.as_str(), self.pending[at].as_str()))
        } else {
            None
        }
    }

    /// Files the status that came back for the request that was due, beside
    /// the identifier it belongs to, and says whether it did: with no
    /// request due nothing is filed.
    pub fn record(&mut self, status: u16) -> (filed: bool)
        ensures
            final(self)@ == old(self)@.report(status),
            old(self)@.wf() ==> final(self)@.wf(),
            filed == (old(self)@.due() is Some),
    {
        let at = self.log.len();
        if self.armed && at < self.pending.len() {
            let repo = self.pending[at].clone();
            let outcome = StarOutcome { repo, status };
            self.log.push(outcome);
            assert(self@.log =~= old(self)@.report(status).log);
            true
        } else {
            false
        }
    }

    /// Whether no request is due any more.
    pub fn is_finished(&self) -> (done: bool)
        ensures
            done == (self@.due() is None),
    {
        !(self.armed && self.log.len() < self.pending.len())
    }

    /// The identifiers that the batch was made for, in the order they were
    /// given.
    pub fn pending(&self) -> (list: &Vec<String>)
        ensures
            texts(list@) == self@.pending,
    {
        &self.pending
    }

    /// The answers filed so far, oldest first.
    pub fn outcomes(&self) -> (log: &Vec<StarOutcome>)
        ensures
            outcomes_of(log@) == self@.log,
    {
        &self.log
    }
}

/// A report leaves a batch in order.
pub proof fn lemma_report_keeps_order(batch: BatchView, status: u16)
    requires
        batch.wf(),
    ensures
        batch.report(status).wf(),
{
}

/// Whatever the service answers, the requests go out in the order of the
/// pending list, one for each identifier, starting where the batch stands:
/// as many as statuses are reported, and never more than are outstanding.
/// Each status is filed beside the identifier it was an answer for.
pub proof fn lemma_requests_follow_the_list(batch: BatchView, statuses: Seq<u16>)
    requires
        batch.wf(),
    ensures
        batch.requests(statuses).len() == if statuses.len() <= batch.outstanding() {
            statuses.len() as int
        } else {
            batch.outstanding()
        },
        forall|i: int|
            0 <= i < batch.requests(statuses).len() ==> #[trigger] batch.requests(statuses)[i]
                == star_url_of(batch.base, batch.pending[batch.log.len() + i]),
        batch.drive(statuses).wf(),
        batch.drive(statuses).base == batch.base,
        batch.drive(statuses).pending == batch.pending,
        batch.drive(statuses).armed == batch.armed,
        batch.drive(statuses).log.len() == batch.log.len() + batch.requests(statuses).len(),
        forall|i: int|
            0 <= i < batch.log.len() ==> #[trigger] batch.drive(statuses).log[i] == batch.log[i],
        forall|i: int|
            0 <= i < batch.requests(statuses).len() ==> (#[trigger] batch.drive(
                statuses,
            ).log[batch.log.len() + i]).status == statuses[i],
    decreases statuses.len(),
{
    if statuses.len() == 0 || batch.due() is None {
    } else {
        let next = batch.report(statuses[0]);
        let rest = statuses.drop_first();
        lemma_requests_follow_the_list(next, rest);
        let sent = batch.requests(statuses);
        let end = batch.drive(statuses);
        assert(sent == seq![batch.due()->Some_0] + next.requests(rest));
        assert(end == next.drive(rest));
        assert forall|i: int| 0 <= i < sent.len() implies #[trigger] sent[i] == star_url_of(
            batch.base,
            batch.pending[batch.log.len() + i],
        ) by {
            if i > 0 {
                assert(sent[i] == next.requests(rest)[i - 1]);
            }
        }
        assert forall|i: int| 0 <= i < batch.log.len() implies #[trigger] end.log[i]
            == batch.log[i] by {
            assert(next.log[i] == batch.log[i]);
        }
        assert forall|i: int| 0 <= i < sent.len() implies (#[trigger] end.log[batch.log.len()
            + i]).status == statuses[i] by {
            if i == 0 {
                assert(end.log[batch.log.len() as int] == next.log[batch.log.len() as int]);
            } else {
                assert(end.log[next.log.len() + (i - 1)].status == rest[i - 1]);
            }
        }
    }
}

/// A batch that starts armed and is driven to its end sends exactly one
/// request for each pending identifier, in the order of the list, and files
/// every status beside its identifier, whatever the statuses are.
pub proof fn lemma_every_entry_requested_once(batch: BatchView, statuses: Seq<u16>)
    requires
        batch.armed,
        batch.log.len() == 0,
        statuses.len() == batch.pending.len(),
    ensures
        batch.requests(statuses) == batch.addresses(),
        batch.drive(statuses).log == batch.full_log(statuses),
        batch.drive(statuses).due() is None,
{
    lemma_requests_follow_the_list(batch, statuses);
    let end = batch.drive(statuses);
    assert(batch.requests(statuses) =~= batch.addresses());
    assert forall|i: int| 0 <= i < end.log.len() implies end.log[i] == batch.full_log(
        statuses,
    )[i] by {
        assert(end.log[batch.log.len() + i].status == statuses[i]);
    }
    assert(end.log =~= batch.full_log(statuses));
}

/// The requests that are sent do not depend on what the service answers.
pub proof fn lemma_requests_ignore_answers(batch: BatchView, first: Seq<u16>, second: Seq<u16>)
    requires
        batch.wf(),
        first.len() == second.len(),
    ensures
        batch.requests(first) == batch.requests(second),
{
    lemma_requests_follow_the_list(batch, first);
    lemma_requests_follow_the_list(batch, second);
    assert(batch.requests(first) =~= batch.requests(second));
}

/// Behind a closed gate no request is due, none is ever sent, and reports
/// change nothing.
pub proof fn lemma_closed_gate_sends_nothing(batch: BatchView, statuses: Seq<u16>)
    requires
        !batch.armed,
    ensures
        batch.due() is None,
        batch.requests(statuses) == Seq::<Seq<char>>::empty(),
        batch.drive(statuses) == batch,
{
}

} // verus!
