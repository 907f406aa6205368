//! The bounded attempt loop as a state machine. `RetryRun::start` begins a run;
//! each returned `RunStep` names the outside work to do next, and the matching
//! `on_*` method takes its outcome. Attempts run strictly in order; the run ends
//! on the first accepted candidate or once the attempt budget is spent. Ghost
//! fields keep the history of the run, over which its laws are stated.
use vstd::prelude::*;
use crate::ai::ExpandedQuery;
use crate::auto::{
    appended_about, dimensions_string, evaluate_result, extends, is_decision,
    lemma_appended_about_trans, lemma_extends_refl, lemma_extends_trans, quality_verdict,
    reformulation_prompt, reformulation_text, AutoDecision, AutoSession, FailureReason,
    SEARCH_FAN_OUT,
};
use crate::search::ImageResult;
use crate::text::{decimal, decimal_string};

verus! {

/// Where a run stands.
#[derive(Debug, Clone, Copy, PartialEq, Eq, Structural)]
pub enum RunPhase {
    /// Waiting for a directive from the expansion capability.
    Expanding,
    /// Waiting for the candidates of a search.
    Searching,
    /// Waiting for the availability probe of one candidate.
    Probing,
    /// A candidate was accepted.
    Accepted,
    /// Every attempt failed.
    Exhausted,
}

/// The outside work a run asks for next, or how it ended.
#[derive(Debug)]
pub enum RunStep {
    /// Expand this instruction into a directive, then call `on_expanded`.
    Expand { prompt: String },
    /// Search with this directive for at most `limit` candidates, then call `on_searched`.
    Search { directive: ExpandedQuery, limit: usize },
    /// Probe whether this URL is reachable, then call `on_probed`.
    Probe { url: String },
    /// A candidate was accepted, with the directive that found it.
    Found { result: ImageResult, directive: ExpandedQuery },
    /// Every attempt failed.
    GaveUp,
}

/// The first quality failure among `cands`, in order.
pub open spec fn first_too_small(cands: Seq<ImageResult>) -> Option<FailureReason>
    decreases cands.len(),
{
    if cands.len() == 0 {
        None
    } else {
        match first_too_small(cands.drop_last()) {
            Some(f) => Some(f),
            None => quality_verdict(cands.last()),
        }
    }
}

proof fn lemma_first_too_small_is_size(cands: Seq<ImageResult>)
    ensures
        first_too_small(cands) matches Some(f) ==> f is ImageTooSmall,
    decreases cands.len(),
{
    if cands.len() > 0 {
        lemma_first_too_small_is_size(cands.drop_last());
    }
}

/// The failure of an attempt whose candidates were all rejected: no results;
/// else the first quality failure; else unavailability.
pub open spec fn attempt_failure(cands: Seq<ImageResult>) -> FailureReason {
    if cands.len() == 0 {
        FailureReason::NoResults
    } else {
        match first_too_small(cands) {
            Some(f) => f,
            None => FailureReason::AllUrlsUnavailable,
        }
    }
}

/// The log entry that summarises a failed attempt.
pub open spec fn summary_action(cands: Seq<ImageResult>) -> Seq<char> {
    if cands.len() == 0 {
        "no results"@
    } else {
        "all urls failed"@
    }
}

/// Some candidate at `from` or later passes the quality gate.
pub open spec fn has_passing_from(cands: Seq<ImageResult>, from: int) -> bool {
    exists|k: int| from <= k < cands.len() && #[trigger] quality_verdict(cands[k]) is None
}

/// The state of one run for one request.
pub struct RetryRun {
    /// The original free-text request.
    pub query: String,
    /// The attempt budget.
    pub max_retries: u32,
    /// Whether every decision is logged.
    pub verbose: bool,
    /// The current attempt, counted from 1.
    pub attempt: u32,
    pub phase: RunPhase,
    /// The directive of the current attempt, once expanded.
    pub directive: Option<ExpandedQuery>,
    /// The candidates of the current attempt's search.
    pub candidates: Vec<ImageResult>,
    /// The candidate being probed.
    pub next: usize,
    /// The first quality failure among the candidates before `next`.
    pub quality_failure: Option<FailureReason>,
    /// How many expansions the run asked for.
    pub expansions: Ghost<nat>,
    /// How many searches the run asked for.
    pub searches: Ghost<nat>,
    /// How many candidates each answered search returned, in order.
    pub result_counts: Ghost<Seq<nat>>,
    /// Why each failed attempt failed, in order.
    pub failures: Ghost<Seq<FailureReason>>,
    /// How many log entries the run appended.
    pub logged: Ghost<nat>,
}

impl RetryRun {
    /// The run's history agrees with where it stands: one expansion and one
    /// search per attempt, one failure reason per failed attempt, `NoResults`
    /// exactly for the attempts whose search was empty, and, when verbose, at
    /// least one entry opening each attempt, one summarising each failure and
    /// one for giving up.
    pub open spec fn history_wf(&self) -> bool {
        &&& self.expansions@ == self.attempt
        &&& self.searches@ == if self.phase == RunPhase::Expanding {
            self.attempt - 1
        } else {
            self.attempt as int
        }
        &&& self.result_counts@.len() == if self.phase == RunPhase::Expanding || self.phase
            == RunPhase::Searching {
            self.attempt - 1
        } else {
            self.attempt as int
        }
        &&& self.failures@.len() == if self.phase == RunPhase::Exhausted {
            self.attempt as int
        } else {
            self.attempt - 1
        }
        &&& forall|i: int|
            0 <= i < self.failures@.len() ==> (#[trigger] self.failures@[i] == FailureReason::NoResults)
                == (self.result_counts@[i] == 0)
        &&& (self.verbose ==> self.logged@ >= self.expansions@ + self.failures@.len() + if self.phase
            == RunPhase::Exhausted {
            1int
        } else {
            0int
        })
        &&& (!self.verbose ==> self.logged@ == 0)
    }

    /// The run's invariant.
    pub open spec fn wf(&self) -> bool {
        &&& 1 <= self.attempt <= self.max_retries
        &&& (self.phase == RunPhase::Searching ==> self.directive is Some)
        &&& (self.phase == RunPhase::Exhausted ==> self.attempt == self.max_retries)
        &&& (self.phase == RunPhase::Probing ==> {
            &&& self.directive is Some
            &&& self.next < self.candidates@.len()
            &&& quality_verdict(self.candidates@[self.next as int]) is None
            &&& self.quality_failure == first_too_small(
                self.candidates@.subrange(0, self.next as int),
            )
            &&& self.result_counts@.last() == self.candidates@.len()
        })
        &&& self.history_wf()
    }

    /// What a run keeps for its whole life.
    pub open spec fn same_request(&self, other: &RetryRun) -> bool {
        self.query == other.query && self.max_retries == other.max_retries && self.verbose
            == other.verbose
    }

    /// How a step of the run changed the log: only by appending, as many
    /// entries as the run counts, each about the run's request; nothing when
    /// the run is quiet.
    pub open spec fn log_kept(
        old: RetryRun,
        new: RetryRun,
        old_log: Seq<AutoDecision>,
        new_log: Seq<AutoDecision>,
    ) -> bool {
        &&& extends(old_log, new_log)
        &&& new_log.len() + old.logged@ == old_log.len() + new.logged@
        &&& appended_about(old_log, new_log, old.query@)
        &&& (!old.verbose ==> new_log == old_log)
    }

    /// After the attempt of `old` failed for `failure`: the next attempt begins
    /// with a reformulated instruction, or, with the budget spent, the run gives up.
    pub open spec fn failed_attempt(
        old: RetryRun,
        new: RetryRun,
        r: RunStep,
        failure: FailureReason,
        log: Seq<AutoDecision>,
    ) -> bool {
        &&& new.failures@ == old.failures@.push(failure)
        &&& if old.attempt < old.max_retries {
            &&& new.attempt == old.attempt + 1
            &&& new.phase == RunPhase::Expanding
            &&& r matches RunStep::Expand { prompt } && prompt@ == reformulation_text(
                old.query@,
                old.directive->0.query@,
                failure,
                new.attempt as nat,
            )
            &&& (new.verbose ==> is_decision(
                log.last(),
                old.query@,
                "attempt "@ + decimal(new.attempt as nat),
                "starting search"@,
            ))
        } else {
            &&& new.attempt == old.attempt
            &&& new.phase == RunPhase::Exhausted
            &&& r is GaveUp
            &&& (new.verbose ==> is_decision(
                log.last(),
                old.query@,
                "gave up"@,
                "after "@ + decimal(old.max_retries as nat) + " attempts"@,
            ))
        }
    }

    /// After the candidates from position `from` on were examined: the first of
    /// them that passes the quality gate is probed; if none does, the attempt
    /// failed, after a summary entry in the log.
    pub open spec fn scanned(
        old: RetryRun,
        new: RetryRun,
        r: RunStep,
        from: int,
        old_log: Seq<AutoDecision>,
        new_log: Seq<AutoDecision>,
    ) -> bool {
        let cands = new.candidates@;
        if has_passing_from(cands, from) {
            &&& new.phase == RunPhase::Probing
            &&& new.attempt == old.attempt
            &&& new.failures@ == old.failures@
            &&& from <= new.next
            &&& forall|k: int| from <= k < new.next ==> #[trigger] quality_verdict(cands[k]) is Some
            &&& r matches RunStep::Probe { url } && url == cands[new.next as int].download_url
        } else {
            &&& RetryRun::failed_attempt(old, new, r, attempt_failure(cands), new_log)
            &&& (new.verbose ==> new_log.len() >= old_log.len() + 2 && is_decision(
                new_log[new_log.len() - 2],
                old.query@,
                summary_action(cands),
                "will retry with reformulated query"@,
            ))
        }
    }

    /// Begins a run: attempt 1 expands the request itself.
    pub fn start(query: &str, max_retries: u32, verbose: bool, session: &mut AutoSession) -> (r: (
        RetryRun,
        RunStep,
    ))
        requires
            max_retries >= 1,
        ensures
            r.0.wf(),
            r.0.query@ == query@,
            r.0.max_retries == max_retries,
            r.0.verbose == verbose,
            r.0.attempt == 1,
            r.0.phase == RunPhase::Expanding,
            r.0.expansions@ == 1,
            r.0.searches@ == 0,
            r.0.result_counts@.len() == 0,
            r.0.failures@.len() == 0,
            r.1 matches RunStep::Expand { prompt } && prompt@ == query@,
            extends(old(session).decisions@, final(session).decisions@),
            appended_about(old(session).decisions@, final(session).decisions@, query@),
            final(session).decisions@.len() == old(session).decisions@.len() + r.0.logged@,
            !verbose ==> final(session).decisions@ == old(session).decisions@,
            verbose ==> final(session).decisions@.len() == old(session).decisions@.len() + 1
                && is_decision(
                final(session).decisions@.last(),
                query@,
                "attempt "@ + decimal(1),
                "starting search"@,
            ),
    {
        proof {
            lemma_extends_refl(old(session).decisions@);
        }
        let mut logged: Ghost<nat> = Ghost(0);
        if verbose {
            let label = attempt_label(1);
            session.log(query, label.as_str(), "starting search");
            logged = Ghost(1);
        }
        let run = RetryRun {
            query: String::from_str(query),
            max_retries,
            verbose,
            attempt: 1,
            phase: RunPhase::Expanding,
            directive: None,
            candidates: Vec::new(),
            next: 0,
            quality_failure: None,
            expansions: Ghost(1),
            searches: Ghost(0),
            result_counts: Ghost(Seq::empty()),
            failures: Ghost(Seq::empty()),
            logged,
        };
        (run, RunStep::Expand { prompt: String::from_str(query) })
    }

    /// Takes the directive of the current attempt and asks for a search with it.
    pub fn on_expanded(&mut self, directive: ExpandedQuery) -> (r: RunStep)
        requires
            old(self).wf(),
            old(self).phase == RunPhase::Expanding,
        ensures
            final(self).wf(),
            final(self).same_request(old(self)),
            final(self).attempt == old(self).attempt,
            final(self).phase == RunPhase::Searching,
            final(self).directive == Some(directive),
            final(self).searches@ == old(self).searches@ + 1,
            final(self).expansions == old(self).expansions,
            final(self).result_counts == old(self).result_counts,
            final(self).failures == old(self).failures,
            final(self).logged == old(self).logged,
            r == (RunStep::Search { directive, limit: SEARCH_FAN_OUT }),
    {
        let d = directive.duplicate();
        self.directive = Some(directive);
        self.phase = RunPhase::Searching;
        self.searches = Ghost(self.searches@ + 1);
        RunStep::Search { directive: d, limit: SEARCH_FAN_OUT }
    }

    /// Takes the candidates of the current attempt's search, in ranked order.
    /// An empty list fails the attempt with `NoResults`; otherwise the first
    /// candidate that passes the quality gate is probed.
    pub fn on_searched(&mut self, session: &mut AutoSession, results: Vec<ImageResult>) -> (r:
        RunStep)
        requires
            old(self).wf(),
            old(self).phase == RunPhase::Searching,
        ensures
            final(self).wf(),
            final(self).same_request(old(self)),
            final(self).directive == old(self).directive,
            final(self).candidates@ == results@,
            final(self).result_counts@ == old(self).result_counts@.push(results@.len()),
            final(self).searches == old(self).searches,
            RetryRun::scanned(
                *old(self),
                *final(self),
                r,
                0,
                old(session).decisions@,
                final(session).decisions@,
            ),
            RetryRun::log_kept(
                *old(self),
                *final(self),
                old(session).decisions@,
                final(session).decisions@,
            ),
    {
        proof {
            lemma_extends_refl(old(session).decisions@);
        }
        self.result_counts = Ghost(self.result_counts@.push(results@.len()));
        self.candidates = results;
        self.next = 0;
        self.quality_failure = None;
        proof {
            assert(self.candidates@.subrange(0, 0) =~= Seq::<ImageResult>::empty());
        }
        if self.candidates.len() == 0 {
            if self.verbose {
                session.log(self.query.as_str(), "no results", "will retry with reformulated query");
                self.logged = Ghost(self.logged@ + 1);
            }
            let ghost mid = session.decisions@;
            let r = self.finish_attempt(session, FailureReason::NoResults);
            proof {
                lemma_extends_trans(old(session).decisions@, mid, session.decisions@);
                lemma_appended_about_trans(old(session).decisions@, mid, session.decisions@, self.query@);
            }
            r
        } else {
            self.advance(session)
        }
    }

    /// Takes the outcome of the availability probe of the current candidate: a
    /// reachable one is accepted; otherwise the later candidates of the same
    /// list are examined.
    pub fn on_probed(&mut self, session: &mut AutoSession, available: bool) -> (r: RunStep)
        requires
            old(self).wf(),
            old(self).phase == RunPhase::Probing,
        ensures
            final(self).wf(),
            final(self).same_request(old(self)),
            final(self).directive == old(self).directive,
            final(self).candidates == old(self).candidates,
            final(self).result_counts == old(self).result_counts,
            final(self).searches == old(self).searches,
            available ==> {
                &&& final(self).phase == RunPhase::Accepted
                &&& final(self).attempt == old(self).attempt
                &&& final(self).failures == old(self).failures
                &&& r == (RunStep::Found {
                    result: old(self).candidates@[old(self).next as int],
                    directive: old(self).directive->0,
                })
                &&& (old(self).verbose ==> final(session).decisions@.len()
                    == old(session).decisions@.len() + 1 && is_decision(
                    final(session).decisions@.last(),
                    old(self).query@,
                    "found"@,
                    "selected: "@ + old(self).candidates@[old(self).next as int].title@,
                ))
            },
            !available ==> RetryRun::scanned(
                *old(self),
                *final(self),
                r,
                old(self).next + 1,
                old(session).decisions@,
                final(session).decisions@,
            ),
            RetryRun::log_kept(
                *old(self),
                *final(self),
                old(session).decisions@,
                final(session).decisions@,
            ),
    {
        proof {
            lemma_extends_refl(old(session).decisions@);
        }
        let i = self.next;
        if available {
            if self.verbose {
                let mut reason = String::from_str("selected: ");
                reason.append(self.candidates[i].title.as_str());
                session.log(self.query.as_str(), "found", reason.as_str());
                self.logged = Ghost(self.logged@ + 1);
            }
            self.phase = RunPhase::Accepted;
            let result = self.candidates[i].duplicate();
            let directive = match &self.directive {
                Some(d) => d.duplicate(),
                None => ExpandedQuery { query: String::new(), img_size: None, img_type: None },
            };
            RunStep::Found { result, directive }
        } else {
            if self.verbose {
                session.log(
                    self.query.as_str(),
                    "url unavailable",
                    self.candidates[i].download_url.as_str(),
                );
                self.logged = Ghost(self.logged@ + 1);
            }
            proof {
                assert(self.candidates@.subrange(0, i + 1).drop_last() =~= self.candidates@.subrange(0, i as int));
            }
            let n = self.candidates.len();
            assert(i < n);
            self.next = i + 1;
            let ghost mid = session.decisions@;
            let r = self.advance(session);
            proof {
                lemma_extends_trans(old(session).decisions@, mid, session.decisions@);
                lemma_appended_about_trans(old(session).decisions@, mid, session.decisions@, self.query@);
            }
            r
        }
    }
}

impl RetryRun {
    /// Ends the current attempt, failed for `failure`.
    fn finish_attempt(&mut self, session: &mut AutoSession, failure: FailureReason) -> (r: RunStep)
        requires
            1 <= old(self).attempt <= old(self).max_retries,
            old(self).directive is Some,
            old(self).expansions@ == old(self).attempt,
            old(self).searches@ == old(self).attempt,
            old(self).result_counts@.len() == old(self).attempt,
            old(self).failures@.len() == old(self).attempt - 1,
            forall|i: int|
                0 <= i < old(self).failures@.len() ==> (#[trigger] old(self).failures@[i]
                    == FailureReason::NoResults) == (old(self).result_counts@[i] == 0),
            (failure == FailureReason::NoResults) == (old(self).result_counts@.last() == 0),
            old(self).verbose ==> old(self).logged@ >= old(self).expansions@ + old(self).failures@.len() + 1,
            !old(self).verbose ==> old(self).logged@ == 0,
        ensures
            final(self).wf(),
            final(self).same_request(old(self)),
            final(self).directive == old(self).directive,
            final(self).candidates == old(self).candidates,
            final(self).result_counts == old(self).result_counts,
            final(self).searches == old(self).searches,
            RetryRun::failed_attempt(*old(self), *final(self), r, failure, final(session).decisions@),
            RetryRun::log_kept(
                *old(self),
                *final(self),
                old(session).decisions@,
                final(session).decisions@,
            ),
            old(self).verbose ==> final(session).decisions@.len() == old(session).decisions@.len() + 1,
    {
        proof {
            lemma_extends_refl(old(session).decisions@);
        }
        self.failures = Ghost(self.failures@.push(failure));
        if self.attempt < self.max_retries {
            self.attempt = self.attempt + 1;
            self.expansions = Ghost(self.expansions@ + 1);
            if self.verbose {
                let label = attempt_label(self.attempt);
                session.log(self.query.as_str(), label.as_str(), "starting search");
                self.logged = Ghost(self.logged@ + 1);
            }
            let prompt = match &self.directive {
                Some(d) => reformulation_prompt(self.query.as_str(), d, &failure, self.attempt),
                None => String::new(),
            };
            self.phase = RunPhase::Expanding;
            RunStep::Expand { prompt }
        } else {
            if self.verbose {
                let mut reason = String::from_str("after ");
                let n = decimal_string(self.max_retries as u64);
                reason.append(n.as_str());
                reason.append(" attempts");
                session.log(self.query.as_str(), "gave up", reason.as_str());
                self.logged = Ghost(self.logged@ + 1);
            }
            self.phase = RunPhase::Exhausted;
            RunStep::GaveUp
        }
    }

    /// Examines the candidates from `next` on: probes the first that passes the
    /// quality gate, or ends the attempt.
    fn advance(&mut self, session: &mut AutoSession) -> (r: RunStep)
        requires
            1 <= old(self).attempt <= old(self).max_retries,
            old(self).directive is Some,
            old(self).candidates@.len() > 0,
            old(self).next <= old(self).candidates@.len(),
            old(self).quality_failure == first_too_small(
                old(self).candidates@.subrange(0, old(self).next as int),
            ),
            old(self).expansions@ == old(self).attempt,
            old(self).searches@ == old(self).attempt,
            old(self).result_counts@.len() == old(self).attempt,
            old(self).result_counts@.last() == old(self).candidates@.len(),
            old(self).failures@.len() == old(self).attempt - 1,
            forall|i: int|
                0 <= i < old(self).failures@.len() ==> (#[trigger] old(self).failures@[i]
                    == FailureReason::NoResults) == (old(self).result_counts@[i] == 0),
            old(self).verbose ==> old(self).logged@ >= old(self).expansions@ + old(self).failures@.len(),
            !old(self).verbose ==> old(self).logged@ == 0,
        ensures
            final(self).wf(),
            final(self).same_request(old(self)),
            final(self).directive == old(self).directive,
            final(self).candidates == old(self).candidates,
            final(self).result_counts == old(self).result_counts,
            final(self).searches == old(self).searches,
            RetryRun::scanned(
                *old(self),
                *final(self),
                r,
                old(self).next as int,
                old(session).decisions@,
                final(session).decisions@,
            ),
            RetryRun::log_kept(
                *old(self),
                *final(self),
                old(session).decisions@,
                final(session).decisions@,
            ),
    {
        proof {
            lemma_extends_refl(old(session).decisions@);
        }
        let ghost start = self.next as int;
        let ghost log0 = session.decisions@;
        let n = self.candidates.len();
        let mut i = self.next;
        while i < n
            invariant
                n == self.candidates@.len(),
                start == old(self).next,
                start <= i <= n,
                1 <= self.attempt <= self.max_retries,
                self.directive is Some,
                self.candidates == old(self).candidates,
                self.same_request(old(self)),
                self.attempt == old(self).attempt,
                self.directive == old(self).directive,
                self.phase == old(self).phase,
                self.expansions == old(self).expansions,
                self.searches == old(self).searches,
                self.result_counts == old(self).result_counts,
                self.failures == old(self).failures,
                self.logged@ >= old(self).logged@,
                !self.verbose ==> self.logged@ == 0,
                old(self).expansions@ == old(self).attempt,
                old(self).searches@ == old(self).attempt,
                old(self).result_counts@.len() == old(self).attempt,
                old(self).result_counts@.last() == old(self).candidates@.len(),
                old(self).failures@.len() == old(self).attempt - 1,
                forall|j: int|
                    0 <= j < old(self).failures@.len() ==> (#[trigger] old(self).failures@[j]
                        == FailureReason::NoResults) == (old(self).result_counts@[j] == 0),
                old(self).verbose ==> old(self).logged@ >= old(self).expansions@
                    + old(self).failures@.len(),
                self.quality_failure == first_too_small(self.candidates@.subrange(0, i as int)),
                forall|k: int| start <= k < i ==> #[trigger] quality_verdict(self.candidates@[k]) is Some,
                log0 == old(session).decisions@,
                extends(log0, session.decisions@),
                session.decisions@.len() + old(self).logged@ == log0.len() + self.logged@,
                appended_about(log0, session.decisions@, self.query@),
                !self.verbose ==> session.decisions@ == log0,
            decreases n - i,
        {
            let verdict = evaluate_result(&self.candidates[i], self.query.as_str());
            proof {
                assert(self.candidates@.subrange(0, i + 1).drop_last() =~= self.candidates@.subrange(0, i as int));
            }
            match verdict {
                Some(f) => {
                    if self.verbose {
                        let mut reason = String::from_str("image too small: ");
                        let d = dimensions_string(self.candidates[i].width, self.candidates[i].height);
                        reason.append(d.as_str());
                        let ghost before = session.decisions@;
                        session.log(self.query.as_str(), "rejected", reason.as_str());
                        self.logged = Ghost(self.logged@ + 1);
                        proof {
                            lemma_extends_trans(log0, before, session.decisions@);
                            lemma_appended_about_trans(log0, before, session.decisions@, self.query@);
                        }
                    }
                    if self.quality_failure.is_none() {
                        self.quality_failure = Some(f);
                    }
                    i += 1;
                },
                None => {
                    assert(quality_verdict(self.candidates@[i as int]) is None);
                    assert(has_passing_from(self.candidates@, start));
                    self.next = i;
                    self.phase = RunPhase::Probing;
                    return RunStep::Probe { url: self.candidates[i].download_url.clone() };
                },
            }
        }
        proof {
            assert(self.candidates@.subrange(0, n as int) =~= self.candidates@);
            lemma_first_too_small_is_size(self.candidates@);
        }
        self.next = i;
        let failure = match self.quality_failure {
            Some(f) => f,
            None => FailureReason::AllUrlsUnavailable,
        };
        if self.verbose {
            let ghost before = session.decisions@;
            session.log(self.query.as_str(), "all urls failed", "will retry with reformulated query");
            self.logged = Ghost(self.logged@ + 1);
            proof {
                lemma_extends_trans(log0, before, session.decisions@);
                lemma_appended_about_trans(log0, before, session.decisions@, self.query@);
            }
        }
        let ghost mid = session.decisions@;
        let r = self.finish_attempt(session, failure);
        proof {
            lemma_extends_trans(log0, mid, session.decisions@);
            lemma_appended_about_trans(log0, mid, session.decisions@, self.query@);
        }
        r
    }
}

fn attempt_label(attempt: u32) -> (r: String)
    ensures
        r@ == "attempt "@ + decimal(attempt as nat),
{
    let mut r = String::from_str("attempt ");
    let n = decimal_string(attempt as u64);
    r.append(n.as_str());
    r
}

/// An attempt whose search returned nothing fails with `NoResults`: the next
/// attempt follows, or, once the budget is spent, the run gives up.
pub proof fn lemma_empty_search_fails(
    old: RetryRun,
    new: RetryRun,
    r: RunStep,
    old_log: Seq<AutoDecision>,
    new_log: Seq<AutoDecision>,
)
    requires
        RetryRun::scanned(old, new, r, 0, old_log, new_log),
        new.candidates@.len() == 0,
    ensures
        RetryRun::failed_attempt(old, new, r, FailureReason::NoResults, new_log),
        old.attempt < old.max_retries ==> new.attempt == old.attempt + 1 && r is Expand,
        old.attempt >= old.max_retries ==> new.attempt == old.attempt && r is GaveUp,
{
    assert(!has_passing_from(new.candidates@, 0));
}

/// However its collaborators answer, a run asks for at least one and at most
/// `max_retries` expansions, and for at most `max_retries` searches.
pub proof fn lemma_run_within_budget(run: RetryRun)
    requires
        run.wf(),
    ensures
        1 <= run.expansions@ <= run.max_retries,
        run.searches@ <= run.max_retries,
        run.result_counts@.len() <= run.searches@,
{
}

/// A run that gave up made exactly `max_retries` attempts, each with one
/// search; each attempt whose search came back empty failed with `NoResults`
/// (so a run whose searches all came back empty saw `NoResults` every time);
/// and, when verbose, it appended at least one summary per attempt and the
/// entry that gives up.
pub proof fn lemma_exhausted_run(run: RetryRun)
    requires
        run.wf(),
        run.phase == RunPhase::Exhausted,
    ensures
        run.expansions@ == run.max_retries,
        run.searches@ == run.max_retries,
        run.result_counts@.len() == run.max_retries,
        run.failures@.len() == run.max_retries,
        forall|i: int|
            0 <= i < run.max_retries ==> (#[trigger] run.result_counts@[i] == 0 <==> run.failures@[i]
                == FailureReason::NoResults),
        run.verbose ==> run.logged@ >= run.max_retries + 1,
{
    assert forall|i: int| 0 <= i < run.max_retries implies (#[trigger] run.result_counts@[i] == 0
        <==> run.failures@[i] == FailureReason::NoResults) by {
        assert(run.failures@[i] == FailureReason::NoResults <==> run.result_counts@[i] == 0);
    }
}

/// A run that accepted a candidate made one search per attempt, and one
/// reformulated expansion for each failed attempt before the last.
pub proof fn lemma_accepted_run(run: RetryRun)
    requires
        run.wf(),
        run.phase == RunPhase::Accepted,
    ensures
        run.searches@ == run.expansions@,
        run.result_counts@.len() == run.searches@,
        run.failures@.len() + 1 == run.expansions@,
{
}

/// After a failed attempt a new expansion is asked for only while the budget
/// lasts, and it opens the next attempt.
pub proof fn lemma_expansions_within_budget(
    old: RetryRun,
    new: RetryRun,
    r: RunStep,
    failure: FailureReason,
    log: Seq<AutoDecision>,
)
    requires
        old.wf(),
        RetryRun::failed_attempt(old, new, r, failure, log),
    ensures
        r is Expand ==> new.attempt == old.attempt + 1 && 2 <= new.attempt <= old.max_retries,
        !(r is Expand) ==> r is GaveUp && new.attempt == old.max_retries,
{
}

} // verus!
