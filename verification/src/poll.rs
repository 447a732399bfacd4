//! The polling session: the decisions of the loop that repeatedly asks the
//! external transport for a report, decodes what arrives, and releases the
//! claimed interface when the session ends.
//!
//! The transport itself (a blocking receive with a bounded timeout, and the
//! claim and release of the interface) stays outside this crate. A driver
//! asks [`PollSession::next_action`] what to do, performs the action, and
//! reports receive outcomes back through [`PollSession::handle_outcome`].
//! Timeouts and transient transport errors never end the session; the
//! session ends through its iteration budget or through cooperative
//! cancellation, and either way demands exactly one release.

use vstd::prelude::*;

use crate::report::{decode_report, report_of, DecodedReport};

verus! {

/// What one receive attempt on the transport produced.
#[derive(Debug)]
pub enum ReceiveOutcome {
    /// Bytes arrived; the payload is the buffer exactly as received.
    Received(Vec<u8>),
    /// The bounded wait elapsed with nothing to read.
    TimedOut,
    /// The transport reported a transient error.
    Failed,
}

/// What the session asks its driver to do next.
#[derive(Clone, Copy, Debug, PartialEq, Eq, Structural)]
pub enum PollAction {
    /// Ask the transport for one report, with the bounded timeout.
    Receive,
    /// Release the claimed interface; the session is over.
    Release,
    /// Nothing is left to do.
    Finished,
}

/// The report a receive outcome decodes to, if any. Timeouts, transport
/// errors and short buffers yield none; the session goes on either way.
pub open spec fn outcome_report(o: ReceiveOutcome) -> Option<DecodedReport> {
    match o {
        ReceiveOutcome::Received(buf) => if buf@.len() >= 5 {
            Some(report_of(buf@))
        } else {
            None
        },
        ReceiveOutcome::TimedOut => None,
        ReceiveOutcome::Failed => None,
    }
}

/// One polling session over a claimed interface.
///
/// The session hands out `Receive` while budget remains, then `Release`
/// exactly once, then `Finished`.
pub struct PollSession {
    /// Receive attempts left before the session ends.
    pub remaining: u32,
    /// Whether the one release of the interface has been performed.
    pub released: bool,
}

impl PollSession {
    /// The action the session demands in this state.
    pub open spec fn spec_next_action(self) -> PollAction {
        if self.released {
            PollAction::Finished
        } else if self.remaining == 0 {
            PollAction::Release
        } else {
            PollAction::Receive
        }
    }

    /// Starts a session with a fixed receive budget. The interface must have
    /// been claimed before the first receive; releasing it is the session's
    /// final demand.
    pub fn begin(budget: u32) -> (s: Self)
        ensures
            s.remaining == budget,
            !s.released,
    {
        PollSession { remaining: budget, released: false }
    }

    /// The action the driver must perform next.
    pub fn next_action(&self) -> (a: PollAction)
        ensures
            a == self.spec_next_action(),
    {
        if self.released {
            PollAction::Finished
        } else if self.remaining == 0 {
            PollAction::Release
        } else {
            PollAction::Receive
        }
    }

    /// Records the outcome of one receive attempt and decodes its bytes.
    ///
    /// A timeout, a transport error or a short buffer yields no report and
    /// does not end the session.
    pub fn handle_outcome(&mut self, outcome: &ReceiveOutcome) -> (r: Option<DecodedReport>)
        requires
            old(self).spec_next_action() == PollAction::Receive,
        ensures
            final(self).remaining == old(self).remaining - 1,
            final(self).released == old(self).released,
            r == outcome_report(*outcome),
    {
        self.remaining = self.remaining - 1;
        match outcome {
            ReceiveOutcome::Received(buf) => match decode_report(buf.as_slice()) {
                Ok(rep) => Some(rep),
                Err(_) => None,
            },
            ReceiveOutcome::TimedOut => None,
            ReceiveOutcome::Failed => None,
        }
    }

    /// Cooperative cancellation: gives the rest of the budget up, so that the
    /// session's next demand is the release.
    pub fn cancel(&mut self)
        ensures
            final(self).remaining == 0,
            final(self).released == old(self).released,
    {
        self.remaining = 0;
    }

    /// Records that the driver released the interface. The session demands
    /// this exactly once, and only after the budget is spent.
    pub fn confirm_release(&mut self)
        requires
            old(self).spec_next_action() == PollAction::Release,
        ensures
            final(self).released,
            final(self).remaining == old(self).remaining,
    {
        self.released = true;
    }
}

/// The reports a whole session decodes from a sequence of receive outcomes,
/// in arrival order.
pub open spec fn session_reports(outcomes: Seq<ReceiveOutcome>) -> Seq<DecodedReport>
    decreases outcomes.len(),
{
    if outcomes.len() == 0 {
        Seq::empty()
    } else {
        session_reports(outcomes.drop_last()) + match outcome_report(outcomes.last()) {
            Some(rep) => seq![rep],
            None => Seq::empty(),
        }
    }
}

/// How many outcomes a session with this budget consumes when this many are
/// available: the budget, unless the supply runs out first.
pub open spec fn session_span(budget: int, available: int) -> int {
    if budget <= available {
        budget
    } else {
        available
    }
}

proof fn lemma_session_reports_step(outcomes: Seq<ReceiveOutcome>, i: int)
    requires
        0 <= i < outcomes.len(),
    ensures
        session_reports(outcomes.take(i + 1)) == session_reports(outcomes.take(i)) + match outcome_report(
            outcomes[i],
        ) {
            Some(rep) => seq![rep],
            None => Seq::<DecodedReport>::empty(),
        },
{
    assert(outcomes.take(i + 1).drop_last() =~= outcomes.take(i));
    assert(outcomes.take(i + 1).last() == outcomes[i]);
}

/// What one session leaves behind.
#[derive(Debug)]
pub struct SessionLog {
    /// Every report decoded during the session, in arrival order.
    pub reports: Vec<DecodedReport>,
    /// How many times the session demanded that the interface be released.
    pub release_count: u32,
}

/// Drives one whole session over a scripted sequence of receive outcomes.
///
/// Consumes one outcome per receive attempt until the budget is spent, or
/// cancels when the script runs out first; decodes everything that arrived;
/// and releases the claimed interface exactly once, however the session
/// ended.
pub fn run_session(budget: u32, outcomes: &Vec<ReceiveOutcome>) -> (log: SessionLog)
    ensures
        log.release_count == 1,
        log.reports@ == session_reports(
            outcomes@.take(session_span(budget as int, outcomes@.len() as int)),
        ),
{
    let mut session = PollSession::begin(budget);
    let mut reports: Vec<DecodedReport> = Vec::new();
    let mut i: usize = 0;
    while i < outcomes.len() && session.next_action() == PollAction::Receive
        invariant
            !session.released,
            i <= outcomes@.len(),
            i <= budget,
            session.remaining == budget - i,
            reports@ == session_reports(outcomes@.take(i as int)),
        decreases budget - i,
    {
        let rep = session.handle_outcome(&outcomes[i]);
        proof {
            lemma_session_reports_step(outcomes@, i as int);
        }
        match rep {
            Some(p) => reports.push(p),
            None => {
                proof {
                    assert(reports@ + Seq::<DecodedReport>::empty() =~= reports@);
                }
            },
        }
        i += 1;
    }
    proof {
        assert(i as int == session_span(budget as int, outcomes@.len() as int));
    }
    if session.next_action() == PollAction::Receive {
        // The script ran out before the budget did: cancel cooperatively.
        session.cancel();
    }
    let mut release_count: u32 = 0;
    while session.next_action() == PollAction::Release
        invariant
            !session.released ==> release_count == 0 && session.remaining == 0,
            session.released ==> release_count == 1,
        decreases (if session.released { 0int } else { 1int }),
    {
        session.confirm_release();
        release_count = release_count + 1;
    }
    SessionLog { reports, release_count }
}

} // verus!
