use fetchr::backoff::{after_failure, backoff_delay_secs, is_rate_limit_error, retry_notice, strip_rate_limit_tag, tag_rate_limited, BackoffStep};
use fetchr::cli::{accepts, format_dimensions, parse_comma_separated, truncate_title};
use fetchr::config::{gemini_key, masked_key, serper_key, set_key, Config};
use fetchr::download::{image_extension, image_file_name, sanitize_filename};
use fetchr::feedback::{append_entry, rating_from_answer, get_learning_context, get_stats, FeedbackEntry, FeedbackHistory, Rating, SearchFilters};
use fetchr::search::{collect_results, is_rate_limit_status, request_count, simple_hash, ImageHit};
use fetchr::text::{decimal_string, hex_string};

#[test]
fn numbers_are_written_out() {
    assert_eq!(decimal_string(0), "0");
    assert_eq!(decimal_string(1234567890), "1234567890");
    assert_eq!(hex_string(255), "ff");
    assert_eq!(hex_string(u64::MAX), "ffffffffffffffff");
}

#[test]
fn hash_is_polynomial() {
    assert_eq!(simple_hash(""), 0);
    assert_eq!(simple_hash("ab"), 97 * 31 + 98);
}

#[test]
fn hits_become_candidates() {
    let hits = vec![
        ImageHit { title: "A".into(), image_url: "ab".into(), image_width: Some(640), image_height: None },
        ImageHit { title: "B".into(), image_url: "c".into(), image_width: None, image_height: Some(5) },
        ImageHit { title: "C".into(), image_url: "d".into(), image_width: None, image_height: None },
    ];
    let r = collect_results(&hits, "orig", 2);
    assert_eq!(r.len(), 2);
    assert_eq!(r[0].id, format!("{:x}", 97u64 * 31 + 98));
    assert_eq!(r[0].width, 640);
    assert_eq!(r[0].height, 0);
    assert_eq!(r[1].title, "B");
    assert_eq!(r[1].source_query, "orig");
    assert_eq!(request_count(5), 5);
    assert_eq!(request_count(50), 10);
}

#[test]
fn rate_limit_signals() {
    assert!(is_rate_limit_status(429));
    assert!(is_rate_limit_status(503));
    assert!(!is_rate_limit_status(500));
    assert!(is_rate_limit_error("rate_limit: Serper API error (429): slow down"));
    assert!(!is_rate_limit_error("Serper API error (500): boom"));
    assert_eq!(tag_rate_limited("x"), "rate_limit: x");
    assert_eq!(strip_rate_limit_tag("rate_limit: Gemini down"), "Gemini down");
    assert_eq!(strip_rate_limit_tag("plain"), "plain");
}

#[test]
fn backoff_doubles_and_gives_up() {
    assert_eq!(backoff_delay_secs(0), 1);
    assert_eq!(backoff_delay_secs(3), 8);
    match after_failure(1, 3, "rate_limit: busy") {
        BackoffStep::Retry { delay_secs } => assert_eq!(delay_secs, 2),
        other => panic!("unexpected {:?}", other),
    }
    match after_failure(3, 3, "rate_limit: busy") {
        BackoffStep::Fail { message } => assert_eq!(message, "busy"),
        other => panic!("unexpected {:?}", other),
    }
    match after_failure(0, 3, "not found") {
        BackoffStep::Fail { message } => assert_eq!(message, "not found"),
        other => panic!("unexpected {:?}", other),
    }
    assert_eq!(retry_notice(4), "Rate limited, retrying in 4s...");
}

#[test]
fn comma_lists_are_split_and_trimmed() {
    assert_eq!(parse_comma_separated("Tesla logo, Apple icon ,x, ,Nike swoosh"), vec!["Tesla logo", "Apple icon", "Nike swoosh"]);
    assert!(parse_comma_separated("").is_empty());
    assert_eq!(parse_comma_separated("  ab  "), vec!["ab"]);
}

#[test]
fn display_helpers() {
    assert_eq!(format_dimensions(640, 480), "640x480");
    assert_eq!(format_dimensions(0, 480), "unknown");
    assert_eq!(truncate_title("short", 10), "short");
    assert_eq!(truncate_title("a long title here", 10), "a long ...");
}

#[test]
fn file_names_are_safe() {
    assert_eq!(sanitize_filename("  a/b:c*?  "), "a_b_c__");
    assert_eq!(sanitize_filename("tab\there"), "tab_here");
    assert_eq!(image_extension("http://x/img.PNG"), "PNG");
    assert_eq!(image_extension("http://x/img.php?id=3"), "jpg");
    assert_eq!(image_file_name("BMW logo", "http://x/a.svg"), "BMW logo.svg");
}

#[test]
fn keys_are_set_by_provider() {
    let mut c = Config::default();
    assert_eq!(c.defaults.limit, 5);
    assert_eq!(c.defaults.output_dir, "./downloads");
    assert!(gemini_key(&c).unwrap_err().contains("Gemini API key not set"));
    assert_eq!(set_key(&mut c, "Gemini", "k1"), Ok(()));
    assert_eq!(c.keys.gemini.as_deref(), Some("k1"));
    assert_eq!(set_key(&mut c, "SERPER", "k2"), Ok(()));
    assert_eq!(serper_key(&c), Ok(String::from("k2")));
    assert_eq!(
        set_key(&mut c, "bing", "k3"),
        Err(String::from("Unknown provider: bing. Use 'gemini' or 'serper'."))
    );
    assert_eq!(masked_key(&c.keys.gemini), "***");
    assert_eq!(masked_key(&None), "(not set)");
}

fn entry(q: &str, rating: Rating) -> FeedbackEntry {
    FeedbackEntry {
        timestamp: 0,
        original_query: q.into(),
        expanded_query: format!("{} expanded", q),
        filters: SearchFilters { img_size: Some("large".into()), img_type: None },
        image_url: "u".into(),
        image_title: "t".into(),
        rating,
    }
}

#[test]
fn learning_context_shows_recent_examples() {
    let mut h = FeedbackHistory::new();
    assert_eq!(get_learning_context(&h, 3), None);
    append_entry(&mut h, entry("skip", Rating::Skip));
    assert_eq!(get_learning_context(&h, 3), None);
    for q in ["g1", "g2", "g3", "g4"] {
        append_entry(&mut h, entry(q, Rating::ThumbsUp));
    }
    append_entry(&mut h, entry("b1", Rating::ThumbsDown));
    let ctx = get_learning_context(&h, 3).unwrap();
    assert_eq!(
        ctx,
        "\nBased on past feedback from the user:\nGood results (user liked these):\n\
- \"g4\" -> \"g4 expanded\" [filters: size=large, type=none]\n\
- \"g3\" -> \"g3 expanded\" [filters: size=large, type=none]\n\
- \"g2\" -> \"g2 expanded\" [filters: size=large, type=none]\n\
Bad results (user disliked these - avoid similar patterns):\n\
- \"b1\" -> \"b1 expanded\" [filters: size=large, type=none]\n"
    );
    assert_eq!(get_learning_context(&h, 0), None);
    assert_eq!(get_stats(&h), (4, 1, 1));
}

#[test]
fn answers_are_read() {
    assert!(accepts("\n"));
    assert!(accepts(" YES \n"));
    assert!(accepts("y"));
    assert!(!accepts("no"));
    assert_eq!(rating_from_answer(" 1\n"), Rating::ThumbsUp);
    assert_eq!(rating_from_answer("2"), Rating::ThumbsDown);
    assert_eq!(rating_from_answer(""), Rating::Skip);
    assert_eq!(rating_from_answer("3"), Rating::Skip);
}

#[test]
fn white_space_is_trimmed_as_std_does() {
    for s in ["", "  ", "\t a b \n", "\u{a0}x\u{3000}", "\u{2009}mid dle\u{85}", "x", "\u{200b}x"] {
        assert_eq!(fetchr::text::trim_text(s), s.trim());
    }
}
