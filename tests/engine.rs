use rmap::digest::hasher;
use rmap::launch::{LaunchStep, Launcher};
use rmap::lines::split_lines;
use rmap::probe::{
    contains_bytes, favicon_url, page_url, request_headers, text_contains, MatchCriteria,
    ProbeAction, ACCEPT, USER_AGENT,
};
use rmap::progress::{ProbeOutcome, Progress, Reporter};
use rmap::sink::append_record;

fn criteria(trigger: Option<&str>, hash: Option<&str>) -> MatchCriteria {
    MatchCriteria {
        trigger_word: trigger.map(|t| t.to_string()),
        favicon_hash: hash.map(|h| h.to_string()),
    }
}

#[test]
fn hasher_of_empty_input() {
    assert_eq!(
        hasher(b""),
        "c5d2460186f7233c927e7db2dcc703c0e500b653ca82273b7bfad8045d85a470"
    );
}

#[test]
fn hasher_of_abc() {
    assert_eq!(
        hasher(b"abc"),
        "4e03657aea45a94fc7d47ba826c8d667c0d1e6e33a64a036ec44f58fa12d6c45"
    );
}

#[test]
fn hasher_is_deterministic() {
    let icon: Vec<u8> = (0..=255u8).cycle().take(1000).collect();
    let copy = icon.clone();
    let a = hasher(&icon);
    let b = hasher(&copy);
    assert_eq!(a, b);
    assert_eq!(a.len(), 64);
    assert!(a.chars().all(|c| c.is_ascii_digit() || ('a'..='f').contains(&c)));
    assert_ne!(a, hasher(&icon[1..]));
}

#[test]
fn split_lines_strips_terminators() {
    let lines = split_lines(b"1.1.1.1\n2.2.2.2\r\n3.3.3.3");
    assert_eq!(
        lines,
        vec![b"1.1.1.1".to_vec(), b"2.2.2.2".to_vec(), b"3.3.3.3".to_vec()]
    );
}

#[test]
fn split_lines_keeps_blank_lines() {
    let lines = split_lines(b"a\n\nb\n");
    assert_eq!(lines, vec![b"a".to_vec(), b"".to_vec(), b"b".to_vec()]);
    assert_eq!(split_lines(b"\n"), vec![b"".to_vec()]);
}

#[test]
fn split_lines_of_empty_text() {
    assert!(split_lines(b"").is_empty());
}

#[test]
fn split_lines_keeps_unterminated_carriage_return() {
    assert_eq!(split_lines(b"a\r"), vec![b"a\r".to_vec()]);
    assert_eq!(split_lines(b"a\r\n"), vec![b"a".to_vec()]);
}

#[test]
fn urls_per_scheme() {
    assert_eq!(page_url("10.0.0.1", false), "http://10.0.0.1/");
    assert_eq!(page_url("10.0.0.1:8443", true), "https://10.0.0.1:8443/");
    assert_eq!(favicon_url("10.0.0.1", false), "http://10.0.0.1/favicon.ico");
    assert_eq!(favicon_url("10.0.0.1", true), "https://10.0.0.1/favicon.ico");
}

#[test]
fn substring_search() {
    assert!(contains_bytes(b"hello world", b"o w"));
    assert!(contains_bytes(b"abc", b""));
    assert!(contains_bytes(b"abc", b"abc"));
    assert!(!contains_bytes(b"abc", b"abcd"));
    assert!(!contains_bytes(b"aab", b"abb"));
    assert!(text_contains("<p>Wëlcome home</p>", "ëlc"));
    assert!(!text_contains("<p>Welcome home</p>", "welcome"));
}

#[test]
fn headers_carry_virtual_host() {
    let h = request_headers("example.com");
    let expected = vec![
        ("Accept".to_string(), ACCEPT.to_string()),
        ("User-Agent".to_string(), USER_AGENT.to_string()),
        ("Host".to_string(), "example.com".to_string()),
        ("Connection".to_string(), "keep-alive".to_string()),
    ];
    assert_eq!(h, expected);
}

#[test]
fn first_request_follows_criteria() {
    let both = criteria(Some("welcome"), Some("00"));
    assert!(matches!(both.first_action("1.2.3.4", false),
        ProbeAction::FetchPage(u) if u == "http://1.2.3.4/"));
    let icon_only = criteria(None, Some("00"));
    assert!(matches!(icon_only.first_action("1.2.3.4", true),
        ProbeAction::FetchFavicon(u) if u == "https://1.2.3.4/favicon.ico"));
    let neither = criteria(None, None);
    assert!(matches!(
        neither.first_action("1.2.3.4", false),
        ProbeAction::Finish(false)
    ));
}

#[test]
fn trigger_match_wins_over_favicon() {
    let c = criteria(Some("welcome"), Some(&hasher(b"other icon")));
    let step = c.after_page("1.2.3.4", false, "<h1>welcome</h1>");
    assert!(matches!(step, ProbeAction::Record));
}

#[test]
fn favicon_match_after_trigger_miss() {
    let icon = b"\x00\x01icon bytes";
    let c = criteria(Some("welcome"), Some(&hasher(icon)));
    let step = c.after_page("1.2.3.4", false, "<h1>cdn error</h1>");
    assert!(matches!(step,
        ProbeAction::FetchFavicon(u) if u == "http://1.2.3.4/favicon.ico"));
    assert!(matches!(c.after_favicon(icon), ProbeAction::Record));
    assert!(matches!(c.after_favicon(b"another"), ProbeAction::Finish(false)));
}

#[test]
fn trigger_miss_without_favicon_ends() {
    let c = criteria(Some("welcome"), None);
    assert!(matches!(
        c.after_page("1.2.3.4", false, "nothing here"),
        ProbeAction::Finish(false)
    ));
}

#[test]
fn digest_comparison_is_exact() {
    let c = criteria(None, Some("abcd"));
    assert!(matches!(c.after_digest("abcd"), ProbeAction::Record));
    assert!(matches!(c.after_digest("ABCD"), ProbeAction::Finish(false)));
    assert!(matches!(c.after_digest("abc"), ProbeAction::Finish(false)));
    let none = criteria(None, None);
    assert!(matches!(none.after_digest("abcd"), ProbeAction::Finish(false)));
}

#[test]
fn two_records_in_order() {
    let mut out = String::new();
    append_record(&mut out, "1.2.3.4");
    append_record(&mut out, "5.6.7.8");
    assert_eq!(out, "1.2.3.4\n5.6.7.8\n");
    let lines: Vec<&str> = out.lines().collect();
    assert_eq!(lines, vec!["1.2.3.4", "5.6.7.8"]);
}

/// Runs one probe against a stand-in server; returns the matched flag and the
/// URLs requested.
fn run_probe(
    c: &MatchCriteria,
    ip: &str,
    page: &str,
    icon: &[u8],
    out: &mut String,
) -> (bool, Vec<String>) {
    let mut requests = Vec::new();
    let mut action = c.first_action(ip, false);
    loop {
        action = match action {
            ProbeAction::FetchPage(url) => {
                requests.push(url);
                c.after_page(ip, false, page)
            }
            ProbeAction::FetchFavicon(url) => {
                requests.push(url);
                c.after_favicon(icon)
            }
            ProbeAction::Record => {
                append_record(out, ip);
                return (true, requests);
            }
            ProbeAction::Finish(m) => return (m, requests),
        }
    }
}

#[test]
fn trigger_match_makes_one_request() {
    let c = criteria(Some("welcome"), Some(&hasher(b"real icon")));
    let mut out = String::new();
    let (m, reqs) = run_probe(&c, "1.2.3.4", "welcome", b"cdn icon", &mut out);
    assert!(m);
    assert_eq!(reqs, vec!["http://1.2.3.4/".to_string()]);
    assert_eq!(out, "1.2.3.4\n");
}

#[test]
fn end_to_end_two_candidates() {
    let candidates = split_lines(b"10.0.0.1\n10.0.0.2\n");
    let c = criteria(Some("welcome"), None);
    let mut launcher = Launcher::new(candidates.len(), 250);
    let mut progress = Progress::new(candidates.len() as u64);
    let mut out = String::new();
    let mut paused = 0u64;
    loop {
        match launcher.next_step() {
            LaunchStep::Launch(i) => {
                let ip = String::from_utf8(candidates[i].clone()).unwrap();
                let page = if ip == "10.0.0.1" {
                    "<html>welcome</html>"
                } else {
                    "<html>cdn</html>"
                };
                let (m, _) = run_probe(&c, &ip, page, b"", &mut out);
                progress.record(if m {
                    ProbeOutcome::Matched
                } else {
                    ProbeOutcome::NotMatched
                });
            }
            LaunchStep::Pause(d) => paused += d,
            LaunchStep::Drain => break,
        }
    }
    assert_eq!(out, "10.0.0.1\n");
    assert_eq!(paused, 250);
    assert!(progress.is_done());
    assert_eq!(progress.matched, 1);
    assert_eq!(progress.completed, 2);
}

#[test]
fn zero_candidates_finish_at_once() {
    let mut launcher = Launcher::new(0, 1000);
    assert_eq!(launcher.next_step(), LaunchStep::Drain);
    assert!(launcher.is_drained());
    let progress = Progress::new(0);
    assert!(progress.is_done());
    assert_eq!(progress.percent(), 100);
    let mut reporter = Reporter::new();
    let r = reporter.tick(&progress);
    assert_eq!(r.percent, 100);
    assert_eq!(r.sent, 0);
    assert_eq!(r.average, 0);
    assert_eq!(r.found, 0);
}

#[test]
fn launches_are_paced() {
    let mut l = Launcher::new(3, 40);
    let steps: Vec<LaunchStep> = (0..6).map(|_| l.next_step()).collect();
    assert_eq!(
        steps,
        vec![
            LaunchStep::Launch(0),
            LaunchStep::Pause(40),
            LaunchStep::Launch(1),
            LaunchStep::Pause(40),
            LaunchStep::Launch(2),
            LaunchStep::Drain,
        ]
    );
}

#[test]
fn progress_counts_each_outcome() {
    let mut p = Progress::new(4);
    p.record(ProbeOutcome::Matched);
    p.record(ProbeOutcome::NotMatched);
    p.record(ProbeOutcome::Failed);
    assert_eq!((p.completed, p.matched, p.failed), (3, 1, 1));
    assert!(!p.is_done());
    assert_eq!(p.percent(), 0);
    assert!(p.matched <= p.completed && p.completed <= p.total);
    p.record(ProbeOutcome::Matched);
    assert!(p.is_done());
    assert_eq!(p.percent(), 100);
}

#[test]
fn status_figures_per_second() {
    let mut p = Progress::new(10);
    for _ in 0..7 {
        p.record(ProbeOutcome::NotMatched);
    }
    p.record(ProbeOutcome::Matched);
    let mut rep = Reporter::new();
    let first = rep.tick(&p);
    assert_eq!(first.average, 8);
    let second = rep.tick(&p);
    assert_eq!(second.average, 4);
    let third = rep.tick(&p);
    assert_eq!(third.average, 2);
    assert_eq!(third.percent, 0);
    assert_eq!(third.sent, 8);
    assert_eq!(third.found, 1);
    assert_eq!(third.failed, 0);
    assert_eq!(rep.elapsed_secs, 3);
}
