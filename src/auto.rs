//! The autonomous retry and reformulation engine: failure classification,
//! candidate validation, reformulation instructions, the decision log, and the
//! attempt loop as a state machine. The caller performs each requested step
//! (expansion, search, availability probe) and hands back its outcome.
use vstd::prelude::*;
use crate::ai::ExpandedQuery;
use crate::search::ImageResult;
use crate::text::{contains, decimal, decimal_string, occurs_at};

verus! {

/// Smallest known width or height a candidate may have.
pub const MIN_DIMENSION: u32 = 32;

/// How many candidates each search asks for.
pub const SEARCH_FAN_OUT: usize = 5;

/// Why an attempt failed.
#[derive(Debug, Clone, Copy, PartialEq, Eq, Structural)]
pub enum FailureReason {
    /// The search returned nothing.
    NoResults,
    /// Every candidate failed its availability probe.
    AllUrlsUnavailable,
    /// A candidate failed the minimum-dimension gate.
    ImageTooSmall { width: u32, height: u32 },
}

/// Both dimensions are known and one of them is under the minimum.
pub open spec fn too_small(width: u32, height: u32) -> bool {
    width > 0 && height > 0 && (width < MIN_DIMENSION || height < MIN_DIMENSION)
}

/// What the quality gate says of a candidate: `None` when it passes.
pub open spec fn quality_verdict(c: ImageResult) -> Option<FailureReason> {
    if too_small(c.width, c.height) {
        Some(FailureReason::ImageTooSmall { width: c.width, height: c.height })
    } else {
        None
    }
}

/// Applies the quality gate to one candidate. Unknown dimensions (zero) pass.
pub fn evaluate_result(result: &ImageResult, _query: &str) -> (r: Option<FailureReason>)
    ensures
        r == quality_verdict(*result),
{
    if result.width > 0 && result.height > 0 && (result.width < MIN_DIMENSION || result.height
        < MIN_DIMENSION) {
        Some(FailureReason::ImageTooSmall { width: result.width, height: result.height })
    } else {
        None
    }
}

/// `WxH` in decimal.
pub open spec fn dimensions_text(width: u32, height: u32) -> Seq<char> {
    decimal(width as nat) + "x"@ + decimal(height as nat)
}

pub(crate) fn dimensions_string(width: u32, height: u32) -> (r: String)
    ensures
        r@ == dimensions_text(width, height),
{
    let mut r = decimal_string(width as u64);
    r.append("x");
    let h = decimal_string(height as u64);
    r.append(h.as_str());
    r
}

/// The corrective hint for a failure, chosen by its kind alone.
pub open spec fn hint_text(failure: FailureReason) -> Seq<char> {
    match failure {
        FailureReason::NoResults => "try alternative keywords or broader terms"@,
        FailureReason::AllUrlsUnavailable => "try different image sources"@,
        FailureReason::ImageTooSmall { width, height } => "look for higher resolution images (was "@
            + dimensions_text(width, height) + ")"@,
    }
}

/// The corrective hint for a failure.
pub fn reformulation_hint(failure: &FailureReason) -> (r: String)
    ensures
        r@ == hint_text(*failure),
{
    match failure {
        FailureReason::NoResults => String::from_str("try alternative keywords or broader terms"),
        FailureReason::AllUrlsUnavailable => String::from_str("try different image sources"),
        FailureReason::ImageTooSmall { width, height } => {
            let mut r = String::from_str("look for higher resolution images (was ");
            let d = dimensions_string(*width, *height);
            r.append(d.as_str());
            r.append(")");
            r
        },
    }
}

/// The hint for an undersized candidate names its dimensions as `WxH`.
pub proof fn lemma_size_hint_names_dimensions(width: u32, height: u32)
    ensures
        contains(
            hint_text(FailureReason::ImageTooSmall { width, height }),
            dimensions_text(width, height),
        ),
{
    reveal_strlit("look for higher resolution images (was ");
    let pre = "look for higher resolution images (was "@;
    let h = hint_text(FailureReason::ImageTooSmall { width, height });
    let d = dimensions_text(width, height);
    assert(h.subrange(pre.len() as int, (pre.len() + d.len()) as int) =~= d);
    assert(occurs_at(h, d, pre.len() as int));
}

/// The hint after an empty search asks to broaden the search terms.
pub proof fn lemma_no_results_hint_broadens()
    ensures
        contains(hint_text(FailureReason::NoResults), "broader terms"@),
{
    reveal_strlit("try alternative keywords or broader terms");
    reveal_strlit("broader terms");
    let h = hint_text(FailureReason::NoResults);
    assert(h.subrange(28, 41) =~= "broader terms"@);
    assert(occurs_at(h, "broader terms"@, 28));
}

/// The instruction for a reformulated attempt: the original request, the attempt
/// number, the previous query and the hint.
pub open spec fn reformulation_text(
    original: Seq<char>,
    previous: Seq<char>,
    failure: FailureReason,
    attempt: nat,
) -> Seq<char> {
    original + " (attempt "@ + decimal(attempt) + ": previous query '"@ + previous + "' failed - "@
        + hint_text(failure) + ")"@
}

/// Builds the instruction for a reformulated attempt.
pub fn reformulation_prompt(
    original: &str,
    previous: &ExpandedQuery,
    failure: &FailureReason,
    attempt: u32,
) -> (r: String)
    ensures
        r@ == reformulation_text(original@, previous.query@, *failure, attempt as nat),
{
    let hint = reformulation_hint(failure);
    let n = decimal_string(attempt as u64);
    let mut r = String::from_str(original);
    r.append(" (attempt ");
    r.append(n.as_str());
    r.append(": previous query '");
    r.append(previous.query.as_str());
    r.append("' failed - ");
    r.append(hint.as_str());
    r.append(")");
    r
}

/// One entry of the decision log.
#[derive(Debug, Clone)]
pub struct AutoDecision {
    pub query: String,
    pub action: String,
    pub reason: String,
}

/// `d` records `action` taken on `query` for `reason`.
pub open spec fn is_decision(d: AutoDecision, query: Seq<char>, action: Seq<char>, reason: Seq<
    char,
>) -> bool {
    d.query@ == query && d.action@ == action && d.reason@ == reason
}

/// `new` is `old` with entries appended at its end.
pub open spec fn extends(old: Seq<AutoDecision>, new: Seq<AutoDecision>) -> bool {
    old.len() <= new.len() && new.subrange(0, old.len() as int) == old
}

/// Every entry of `new` past the length of `old` records a decision on `query`.
pub open spec fn appended_about(old: Seq<AutoDecision>, new: Seq<AutoDecision>, query: Seq<char>) -> bool {
    forall|i: int| old.len() <= i < new.len() ==> (#[trigger] new[i]).query@ == query
}

/// Entries about one request, appended twice, are entries about it.
pub proof fn lemma_appended_about_trans(
    a: Seq<AutoDecision>,
    b: Seq<AutoDecision>,
    c: Seq<AutoDecision>,
    query: Seq<char>,
)
    requires
        extends(a, b),
        extends(b, c),
        appended_about(a, b, query),
        appended_about(b, c, query),
    ensures
        appended_about(a, c, query),
{
    assert forall|i: int| a.len() <= i < c.len() implies (#[trigger] c[i]).query@ == query by {
        if i < b.len() {
            assert(c.subrange(0, b.len() as int)[i] == c[i]);
        }
    }
}

/// Every log extends itself.
pub proof fn lemma_extends_refl(s: Seq<AutoDecision>)
    ensures
        extends(s, s),
{
    assert(s.subrange(0, s.len() as int) =~= s);
}

/// Appending twice is appending.
pub proof fn lemma_extends_trans(a: Seq<AutoDecision>, b: Seq<AutoDecision>, c: Seq<AutoDecision>)
    requires
        extends(a, b),
        extends(b, c),
    ensures
        extends(a, c),
{
    assert(c.subrange(0, a.len() as int) =~= c.subrange(0, b.len() as int).subrange(0, a.len() as int));
    assert(b.subrange(0, a.len() as int) == a);
}

/// The append-only decision log of a session.
#[derive(Debug)]
pub struct AutoSession {
    pub decisions: Vec<AutoDecision>,
}

impl AutoSession {
    /// An empty log.
    pub fn new() -> (r: Self)
        ensures
            r.decisions@.len() == 0,
    {
        AutoSession { decisions: Vec::new() }
    }

    /// Appends one decision.
    pub fn log(&mut self, query: &str, action: &str, reason: &str)
        ensures
            final(self).decisions@.len() == old(self).decisions@.len() + 1,
            extends(old(self).decisions@, final(self).decisions@),
            is_decision(final(self).decisions@.last(), query@, action@, reason@),
            appended_about(old(self).decisions@, final(self).decisions@, query@),
    {
        self.decisions.push(
            AutoDecision {
                query: String::from_str(query),
                action: String::from_str(action),
                reason: String::from_str(reason),
            },
        );
        assert(final(self).decisions@.subrange(0, old(self).decisions@.len() as int)
            =~= old(self).decisions@);
    }

    /// How many decisions were logged.
    pub fn len(&self) -> (r: usize)
        ensures
            r == self.decisions@.len(),
    {
        self.decisions.len()
    }
}

} // verus!
