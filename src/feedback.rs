//! Ratings of downloaded images, and what past ratings teach the expansion step.
use vstd::prelude::*;
use crate::text::{same_text, trim_text, trimmed};

verus! {

/// A user's rating of a downloaded image.
#[derive(Debug, Clone, Copy, PartialEq, Eq, Structural)]
pub enum Rating {
    ThumbsUp,
    ThumbsDown,
    Skip,
}

/// The rating an answer gives once trimmed: `1` likes, `2` dislikes, anything
/// else skips.
pub open spec fn rating_of_answer(answer: Seq<char>) -> Rating {
    let t = trimmed(answer);
    if t == "1"@ {
        Rating::ThumbsUp
    } else if t == "2"@ {
        Rating::ThumbsDown
    } else {
        Rating::Skip
    }
}

/// Reads a rating from a typed answer.
pub fn rating_from_answer(answer: &str) -> (r: Rating)
    ensures
        r == rating_of_answer(answer@),
{
    let t = trim_text(answer);
    if same_text(t.as_str(), "1") {
        Rating::ThumbsUp
    } else if same_text(t.as_str(), "2") {
        Rating::ThumbsDown
    } else {
        Rating::Skip
    }
}

/// The filters a search used.
#[derive(Debug, Clone)]
pub struct SearchFilters {
    pub img_size: Option<String>,
    pub img_type: Option<String>,
}

/// The rating of one downloaded image, with what produced it.
#[derive(Debug, Clone)]
pub struct FeedbackEntry {
    /// When the rating was given, in nanoseconds since the Unix epoch (UTC).
    pub timestamp: i64,
    pub original_query: String,
    pub expanded_query: String,
    pub filters: SearchFilters,
    pub image_url: String,
    pub image_title: String,
    pub rating: Rating,
}

/// All ratings given so far, oldest first.
#[derive(Debug)]
pub struct FeedbackHistory {
    pub version: u32,
    pub entries: Vec<FeedbackEntry>,
}

impl FeedbackHistory {
    /// An empty history in the current format.
    pub fn new() -> (r: Self)
        ensures
            r.version == 1,
            r.entries@.len() == 0,
    {
        FeedbackHistory { version: 1, entries: Vec::new() }
    }
}

/// Adds a rating at the end of the history.
pub fn append_entry(history: &mut FeedbackHistory, entry: FeedbackEntry)
    ensures
        final(history).version == old(history).version,
        final(history).entries@ == old(history).entries@.push(entry),
{
    history.entries.push(entry);
}

/// How many entries of `s` carry rating `r`.
pub open spec fn count_rating(s: Seq<FeedbackEntry>, r: Rating) -> nat
    decreases s.len(),
{
    if s.len() == 0 {
        0
    } else {
        count_rating(s.drop_last(), r) + if s.last().rating == r {
            1nat
        } else {
            0nat
        }
    }
}

/// Counts the ratings of the history: thumbs up, thumbs down, skipped.
pub fn get_stats(history: &FeedbackHistory) -> (r: (usize, usize, usize))
    ensures
        r.0 == count_rating(history.entries@, Rating::ThumbsUp),
        r.1 == count_rating(history.entries@, Rating::ThumbsDown),
        r.2 == count_rating(history.entries@, Rating::Skip),
{
    let mut up: usize = 0;
    let mut down: usize = 0;
    let mut skip: usize = 0;
    let mut i: usize = 0;
    let n = history.entries.len();
    while i < n
        invariant
            n == history.entries@.len(),
            i <= n,
            up + down + skip == i,
            up == count_rating(history.entries@.subrange(0, i as int), Rating::ThumbsUp),
            down == count_rating(history.entries@.subrange(0, i as int), Rating::ThumbsDown),
            skip == count_rating(history.entries@.subrange(0, i as int), Rating::Skip),
        decreases n - i,
    {
        proof {
            assert(history.entries@.subrange(0, i + 1).drop_last() =~= history.entries@.subrange(
                0,
                i as int,
            ));
        }
        match history.entries[i].rating {
            Rating::ThumbsUp => up += 1,
            Rating::ThumbsDown => down += 1,
            Rating::Skip => skip += 1,
        }
        i += 1;
    }
    assert(history.entries@.subrange(0, n as int) =~= history.entries@);
    (up, down, skip)
}

/// The entries of `s` rated `r`, most recent first.
pub open spec fn recent_rated(s: Seq<FeedbackEntry>, r: Rating) -> Seq<FeedbackEntry>
    decreases s.len(),
{
    if s.len() == 0 {
        Seq::empty()
    } else {
        let rest = recent_rated(s.drop_first(), r);
        if s[0].rating == r {
            rest.push(s[0])
        } else {
            rest
        }
    }
}

/// How many examples of each kind the learning context shows, at most.
pub const MAX_EXAMPLES: usize = 3;

/// A filter value, or `none`.
pub open spec fn filter_text(f: Option<String>) -> Seq<char> {
    match f {
        Some(v) => v@,
        None => "none"@,
    }
}

/// The line that shows one past example.
pub open spec fn example_line(e: FeedbackEntry) -> Seq<char> {
    "- \""@ + e.original_query@ + "\" -> \""@ + e.expanded_query@ + "\" [filters: size="@
        + filter_text(e.filters.img_size) + ", type="@ + filter_text(e.filters.img_type) + "]\n"@
}

/// The lines of several examples, in order.
pub open spec fn example_lines(s: Seq<FeedbackEntry>) -> Seq<char>
    decreases s.len(),
{
    if s.len() == 0 {
        Seq::empty()
    } else {
        example_lines(s.drop_last()) + example_line(s.last())
    }
}

/// The examples of rating `r` that the context shows: the most recent ones, at
/// most `limit` and at most `MAX_EXAMPLES`.
pub open spec fn shown_examples(s: Seq<FeedbackEntry>, r: Rating, limit: nat) -> Seq<FeedbackEntry> {
    let all = recent_rated(s, r);
    let k = if limit < MAX_EXAMPLES { limit } else { MAX_EXAMPLES as nat };
    if all.len() < k {
        all
    } else {
        all.subrange(0, k as int)
    }
}

/// The learning context for a history, if it holds any liked or disliked example.
pub open spec fn learning_context(s: Seq<FeedbackEntry>, limit: nat) -> Option<Seq<char>> {
    let good = shown_examples(s, Rating::ThumbsUp, limit);
    let bad = shown_examples(s, Rating::ThumbsDown, limit);
    if good.len() == 0 && bad.len() == 0 {
        None
    } else {
        Some(
            "\nBased on past feedback from the user:\n"@ + (if good.len() > 0 {
                "Good results (user liked these):\n"@ + example_lines(good)
            } else {
                Seq::empty()
            }) + (if bad.len() > 0 {
                "Bad results (user disliked these - avoid similar patterns):\n"@ + example_lines(bad)
            } else {
                Seq::empty()
            }),
        )
    }
}

fn append_filter(out: &mut String, f: &Option<String>)
    ensures
        final(out)@ == old(out)@ + filter_text(*f),
{
    match f {
        Some(v) => out.append(v.as_str()),
        None => out.append("none"),
    }
}

fn append_example(out: &mut String, e: &FeedbackEntry)
    ensures
        final(out)@ == old(out)@ + example_line(*e),
{
    out.append("- \"");
    out.append(e.original_query.as_str());
    out.append("\" -> \"");
    out.append(e.expanded_query.as_str());
    out.append("\" [filters: size=");
    append_filter(out, &e.filters.img_size);
    out.append(", type=");
    append_filter(out, &e.filters.img_type);
    out.append("]\n");
    assert(final(out)@ =~= old(out)@ + example_line(*e));
}

proof fn lemma_recent_rated_step(s: Seq<FeedbackEntry>, i: int, r: Rating)
    requires
        0 <= i < s.len(),
    ensures
        recent_rated(s.subrange(i, s.len() as int), r) == if s[i].rating == r {
            recent_rated(s.subrange(i + 1, s.len() as int), r).push(s[i])
        } else {
            recent_rated(s.subrange(i + 1, s.len() as int), r)
        },
{
    assert(s.subrange(i, s.len() as int).drop_first() =~= s.subrange(i + 1, s.len() as int));
}

/// Collects the lines of the most recent examples rated `r`, at most `k` of them.
fn examples_text(entries: &Vec<FeedbackEntry>, r: Rating, k: usize) -> (out: (String, usize))
    ensures
        out.1 == (if recent_rated(entries@, r).len() < k {
            recent_rated(entries@, r).len()
        } else {
            k as nat
        }),
        out.0@ == example_lines(recent_rated(entries@, r).subrange(0, out.1 as int)),
{
    let n = entries.len();
    let mut text = String::new();
    let mut count: usize = 0;
    let mut i: usize = n;
    proof {
        assert(entries@.subrange(n as int, n as int) =~= Seq::<FeedbackEntry>::empty());
        assert(recent_rated(Seq::<FeedbackEntry>::empty(), r).subrange(0, 0) =~= Seq::<FeedbackEntry>::empty());
    }
    while i > 0
        invariant
            n == entries@.len(),
            i <= n,
            count <= k,
            count == (if recent_rated(entries@.subrange(i as int, n as int), r).len() < k {
                recent_rated(entries@.subrange(i as int, n as int), r).len()
            } else {
                k as nat
            }),
            text@ == example_lines(
                recent_rated(entries@.subrange(i as int, n as int), r).subrange(0, count as int),
            ),
        decreases i,
    {
        i -= 1;
        proof {
            lemma_recent_rated_step(entries@, i as int, r);
        }
        let ghost before = recent_rated(entries@.subrange(i + 1, n as int), r);
        if entries[i].rating == r && count < k {
            append_example(&mut text, &entries[i]);
            proof {
                let after = before.push(entries@[i as int]);
                assert(after.subrange(0, count + 1).drop_last() =~= before.subrange(0, count as int));
                assert(after.subrange(0, count + 1).last() == entries@[i as int]);
            }
            count += 1;
        } else if entries[i].rating == r {
            proof {
                let after = before.push(entries@[i as int]);
                assert(after.subrange(0, count as int) =~= before.subrange(0, count as int));
            }
        }
    }
    assert(entries@.subrange(0, n as int) =~= entries@);
    (text, count)
}

/// The context that tells the expansion step which past results the user liked
/// and disliked: up to `limit` (and at most three) of the most recent of each,
/// or `None` when the history has none.
pub fn get_learning_context(history: &FeedbackHistory, limit: usize) -> (r: Option<String>)
    ensures
        r matches Some(t) ==> learning_context(history.entries@, limit as nat) == Some(t@),
        r is None ==> learning_context(history.entries@, limit as nat) is None,
{
    if history.entries.len() == 0 {
        proof {
            assert(recent_rated(history.entries@, Rating::ThumbsUp).len() == 0);
            assert(recent_rated(history.entries@, Rating::ThumbsDown).len() == 0);
        }
        return None;
    }
    let k = if limit < MAX_EXAMPLES {
        limit
    } else {
        MAX_EXAMPLES
    };
    let (good, n_good) = examples_text(&history.entries, Rating::ThumbsUp, k);
    let (bad, n_bad) = examples_text(&history.entries, Rating::ThumbsDown, k);
    if n_good == 0 && n_bad == 0 {
        return None;
    }
    let mut context = String::from_str("\nBased on past feedback from the user:\n");
    if n_good > 0 {
        context.append("Good results (user liked these):\n");
        context.append(good.as_str());
    }
    if n_bad > 0 {
        context.append("Bad results (user disliked these - avoid similar patterns):\n");
        context.append(bad.as_str());
    }
    proof {
        let all_good = recent_rated(history.entries@, Rating::ThumbsUp);
        let all_bad = recent_rated(history.entries@, Rating::ThumbsDown);
        if all_good.len() >= k {
            assert(shown_examples(history.entries@, Rating::ThumbsUp, limit as nat) == all_good.subrange(0, k as int));
        } else {
            assert(all_good.subrange(0, n_good as int) =~= all_good);
        }
        if all_bad.len() >= k {
            assert(shown_examples(history.entries@, Rating::ThumbsDown, limit as nat) == all_bad.subrange(0, k as int));
        } else {
            assert(all_bad.subrange(0, n_bad as int) =~= all_bad);
        }
        assert(context@ =~= learning_context(history.entries@, limit as nat)->0);
    }
    Some(context)
}

} // verus!
