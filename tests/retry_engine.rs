use fetchr::ai::ExpandedQuery;
use fetchr::auto::{evaluate_result, reformulation_hint, reformulation_prompt, AutoSession, FailureReason};
use fetchr::retry::{RetryRun, RunPhase, RunStep};
use fetchr::search::ImageResult;

fn candidate(url: &str, width: u32, height: u32) -> ImageResult {
    ImageResult {
        id: String::from("id"),
        title: format!("title of {}", url),
        download_url: String::from(url),
        width,
        height,
        source_query: String::from("BMW logo"),
    }
}

fn directive(q: &str) -> ExpandedQuery {
    ExpandedQuery { query: String::from(q), img_size: None, img_type: Some(String::from("clipart")) }
}

fn expand_prompt_of(step: &RunStep) -> String {
    match step {
        RunStep::Expand { prompt } => prompt.clone(),
        other => panic!("expected an expansion, got {:?}", other),
    }
}

fn probe_url_of(step: &RunStep) -> String {
    match step {
        RunStep::Probe { url } => url.clone(),
        other => panic!("expected a probe, got {:?}", other),
    }
}

#[test]
fn quality_gate_rejects_small_and_passes_unknown() {
    let small = candidate("a", 20, 40);
    assert_eq!(
        evaluate_result(&small, "q"),
        Some(FailureReason::ImageTooSmall { width: 20, height: 40 })
    );
    let unknown = candidate("b", 0, 0);
    assert_eq!(evaluate_result(&unknown, "q"), None);
    let big = candidate("c", 32, 32);
    assert_eq!(evaluate_result(&big, "q"), None);
    let one_known = candidate("d", 0, 10);
    assert_eq!(evaluate_result(&one_known, "q"), None);
}

#[test]
fn hints_depend_on_reason_only() {
    assert_eq!(
        reformulation_hint(&FailureReason::ImageTooSmall { width: 64, height: 64 }),
        "look for higher resolution images (was 64x64)"
    );
    assert_eq!(
        reformulation_hint(&FailureReason::NoResults),
        "try alternative keywords or broader terms"
    );
    assert_eq!(reformulation_hint(&FailureReason::AllUrlsUnavailable), "try different image sources");
}

#[test]
fn reformulation_prompt_embeds_context() {
    let p = reformulation_prompt("BMW logo", &directive("BMW official logo"), &FailureReason::NoResults, 2);
    assert_eq!(
        p,
        "BMW logo (attempt 2: previous query 'BMW official logo' failed - try alternative keywords or broader terms)"
    );
}

#[test]
fn accepted_on_first_attempt_makes_one_attempt() {
    let mut session = AutoSession::new();
    let (mut run, step) = RetryRun::start("BMW logo", 3, true, &mut session);
    assert_eq!(expand_prompt_of(&step), "BMW logo");
    let step = run.on_expanded(directive("BMW logo svg"));
    assert!(matches!(step, RunStep::Search { limit: 5, .. }));
    let step = run.on_searched(&mut session, vec![candidate("http://x/a.png", 200, 200)]);
    assert_eq!(probe_url_of(&step), "http://x/a.png");
    let step = run.on_probed(&mut session, true);
    match step {
        RunStep::Found { result, directive } => {
            assert_eq!(result.download_url, "http://x/a.png");
            assert_eq!(directive.query, "BMW logo svg");
        }
        other => panic!("expected a result, got {:?}", other),
    }
    assert_eq!(run.attempt, 1);
    assert_eq!(run.phase, RunPhase::Accepted);
    assert_eq!(session.decisions.last().unwrap().action, "found");
}

#[test]
fn unreachable_candidate_moves_to_next_of_same_list() {
    let mut session = AutoSession::new();
    let (mut run, _) = RetryRun::start("cat", 2, false, &mut session);
    run.on_expanded(directive("cat photo"));
    let step = run.on_searched(
        &mut session,
        vec![candidate("http://x/1.jpg", 200, 200), candidate("http://x/2.jpg", 300, 300)],
    );
    assert_eq!(probe_url_of(&step), "http://x/1.jpg");
    let step = run.on_probed(&mut session, false);
    assert_eq!(probe_url_of(&step), "http://x/2.jpg");
    assert_eq!(run.attempt, 1);
    assert_eq!(session.len(), 0);
}

#[test]
fn every_entry_names_the_request() {
    let mut session = AutoSession::new();
    session.log("other", "note", "before the run");
    let (mut run, _) = RetryRun::start("mug", 2, true, &mut session);
    run.on_expanded(directive("mug photo"));
    run.on_searched(&mut session, vec![candidate("http://x/m1.jpg", 4, 4), candidate("http://x/m2.jpg", 0, 0)]);
    run.on_probed(&mut session, false);
    run.on_expanded(directive("mug photo large"));
    let step = run.on_searched(&mut session, Vec::new());
    assert!(matches!(step, RunStep::GaveUp));
    assert_eq!(session.decisions[0].query, "other");
    assert!(session.decisions[1..].iter().all(|d| d.query == "mug"));
    assert!(session.len() >= 1 + 2 + 1);
}

#[test]
fn empty_searches_give_up_after_budget() {
    let mut session = AutoSession::new();
    let (mut run, _) = RetryRun::start("zzz", 3, true, &mut session);
    let mut expansions = 1;
    let mut last = RunStep::GaveUp;
    for _ in 0..3 {
        run.on_expanded(directive("zzz q"));
        let step = run.on_searched(&mut session, Vec::new());
        if let RunStep::Expand { prompt } = &step {
            assert!(prompt.contains("broader terms"));
            expansions += 1;
        }
        last = step;
        if matches!(last, RunStep::GaveUp) {
            break;
        }
    }
    assert!(matches!(last, RunStep::GaveUp));
    assert_eq!(expansions, 3);
    assert_eq!(run.attempt, 3);
    assert_eq!(run.phase, RunPhase::Exhausted);
    let summaries = session.decisions.iter().filter(|d| d.action == "no results").count();
    assert_eq!(summaries, 3);
    let last_entry = session.decisions.last().unwrap();
    assert_eq!(last_entry.action, "gave up");
    assert_eq!(last_entry.reason, "after 3 attempts");
    assert!(session.len() >= 3 + 1);
}

#[test]
fn unavailable_everywhere_reports_unavailability() {
    let mut session = AutoSession::new();
    let (mut run, _) = RetryRun::start("dog", 2, false, &mut session);
    run.on_expanded(directive("dog q"));
    run.on_searched(&mut session, vec![candidate("http://x/d.jpg", 0, 0)]);
    let step = run.on_probed(&mut session, false);
    let prompt = expand_prompt_of(&step);
    assert!(prompt.ends_with("failed - try different image sources)"));
    assert_eq!(run.attempt, 2);
}

#[test]
fn quality_failure_takes_precedence_over_unavailability() {
    let mut session = AutoSession::new();
    let (mut run, _) = RetryRun::start("icon", 2, false, &mut session);
    run.on_expanded(directive("icon q"));
    let step = run.on_searched(
        &mut session,
        vec![
            candidate("http://x/s1.png", 10, 12),
            candidate("http://x/ok.png", 100, 100),
            candidate("http://x/s2.png", 8, 8),
        ],
    );
    assert_eq!(probe_url_of(&step), "http://x/ok.png");
    let step = run.on_probed(&mut session, false);
    let prompt = expand_prompt_of(&step);
    assert!(prompt.ends_with("(was 10x12))"));
}

#[test]
fn bmw_logo_small_candidate_is_reformulated() {
    let mut session = AutoSession::new();
    let (mut run, _) = RetryRun::start("BMW logo", 3, true, &mut session);
    run.on_expanded(directive("BMW official logo transparent SVG vector"));
    let step = run.on_searched(&mut session, vec![candidate("http://x/bmw.png", 16, 16)]);
    let prompt = expand_prompt_of(&step);
    assert!(prompt.contains("16x16"));
    assert_eq!(
        prompt,
        "BMW logo (attempt 2: previous query 'BMW official logo transparent SVG vector' failed - look for higher resolution images (was 16x16))"
    );
    assert_eq!(run.attempt, 2);
    assert_eq!(run.phase, RunPhase::Expanding);
    let actions: Vec<&str> = session.decisions.iter().map(|d| d.action.as_str()).collect();
    assert_eq!(actions, vec!["attempt 1", "rejected", "all urls failed", "attempt 2"]);
    assert_eq!(session.decisions[1].reason, "image too small: 16x16");
}

#[test]
fn quiet_runs_log_nothing() {
    let mut session = AutoSession::new();
    let (mut run, _) = RetryRun::start("q", 1, false, &mut session);
    run.on_expanded(directive("q"));
    let step = run.on_searched(&mut session, Vec::new());
    assert!(matches!(step, RunStep::GaveUp));
    assert_eq!(session.len(), 0);
}
