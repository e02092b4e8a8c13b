use randobooru::dispatch::{
    draw_pattern_booru, pattern_candidate_at, reload_request, ReloadDecision, art_history_reply, channel_messages, enabled_booru_ids, pattern_booru_for, pattern_boorus, command_gate, compose_blacklist, custom_command_booru, custom_command_tags,
    dm_reply, history_labels, max_attempts, pattern_for_command, pattern_permission, report_body,
    requested_count, retry_step, split_entries, truncate_for_dm, unknown_command_report,
    CommandGate, ErrorSeverity, FetchOutcome, HistoryReply, JobTracker, PatternRefusal, RetryStep,
};
use randobooru::i18n::{I18n, Language};
use randobooru::records::{ArtHistoryEntry, TagPatternEntry};

#[test]
fn jobs_stop_after_reload_begins() {
    let mut jobs = JobTracker::new();
    assert!(jobs.try_start());
    assert_eq!(jobs.active_count(), 1);
    assert!(jobs.begin_reload());
    assert!(!jobs.try_start());
    assert_eq!(jobs.active_count(), 1);
    assert!(!jobs.begin_reload());
    jobs.finish();
    assert_eq!(jobs.active_count(), 0);
}

#[test]
fn gates_commands() {
    assert_eq!(command_gate(true, false, false, false, false, "megane"), CommandGate::NotValidated);
    assert_eq!(command_gate(true, false, false, false, true, "administrate"), CommandGate::AdminPanel);
    assert_eq!(command_gate(true, true, false, false, false, "megane"), CommandGate::ChannelNotAllowed);
    assert_eq!(command_gate(true, true, false, true, false, "megane"), CommandGate::Run);
    assert_eq!(command_gate(false, false, false, false, false, "art-history"), CommandGate::ArtHistory);
    assert_eq!(command_gate(true, true, true, false, false, "administrate"), CommandGate::AdminPanel);
}

#[test]
fn answers_art_history() {
    assert_eq!(requested_count(Some(-1)), 10);
    assert_eq!(requested_count(Some(3)), 3);
    assert_eq!(requested_count(None), 10);
    let entries = vec![ArtHistoryEntry {
        source_link: "https://x/1".to_string(),
        channel_id: 5,
        guild_id: Some(7),
        booru_name: Some("demo".to_string()),
    }];
    assert_eq!(history_labels(&entries), vec!["[ch:5] [demo] (guild:7) <https://x/1>".to_string()]);
    let i18n = I18n::load("en").unwrap();
    match art_history_reply(&i18n, 10, &vec!["https://x/1".to_string()]) {
        HistoryReply::Message(m) => assert!(m.ends_with("\n1. <https://x/1>")),
        _ => panic!("expected a message"),
    }
    let long: Vec<String> = (0..100).map(|i| format!("https://example.test/{i:040}")).collect();
    match art_history_reply(&i18n, 100, &long) {
        HistoryReply::Attachment { body, .. } => assert!(body.len() > 1900),
        _ => panic!("expected an attachment"),
    }
}

#[test]
fn selects_custom_command_boorus_and_tags() {
    let names = vec!["Danbooru".to_string(), "test.booru!".to_string()];
    assert_eq!(custom_command_booru("test-booru-custom", &names), Some(1));
    assert_eq!(custom_command_booru("danbooru", &names), None);
    assert_eq!(custom_command_booru("gelbooru-custom", &names), None);
    let options = vec![Some(" blue archive ".to_string()), None, Some("  ".to_string()), Some("x".to_string())];
    assert_eq!(custom_command_tags(&options, "_"), vec!["blue_archive".to_string(), "x".to_string()]);
    let global = vec!["a".to_string()];
    assert_eq!(
        compose_blacklist(&global, &vec!["b".to_string()], &vec!["c".to_string()]),
        vec!["a".to_string(), "b".to_string(), "c".to_string()]
    );
    assert_eq!(max_attempts(3), 4);
    assert_eq!(max_attempts(usize::MAX), usize::MAX);
}

#[test]
fn checks_tag_pattern_commands() {
    let names = vec!["Blue Archive".to_string(), "megane".to_string()];
    assert_eq!(pattern_for_command("blue-archive", &names), Some(0));
    let i18n = I18n::load("en").unwrap();
    let allowed = vec!["megane".to_string()];
    assert!(pattern_permission(&i18n, "megane", &allowed, &vec![], false, false).is_none());
    assert!(matches!(
        pattern_permission(&i18n, "megane", &allowed, &vec!["megane".to_string()], false, false),
        Some(PatternRefusal::TagBlocked(t)) if t == "megane"
    ));
    assert!(matches!(
        pattern_permission(&i18n, "other", &allowed, &vec![], false, false),
        Some(PatternRefusal::NotRegistered(_))
    ));
    assert!(pattern_permission(&i18n, "other", &allowed, &vec![], true, false).is_none());
    let es = vec![
        TagPatternEntry { id: 1, pattern_id: 1, tag: "glasses".to_string(), is_excluded: false },
        TagPatternEntry { id: 2, pattern_id: 1, tag: "nudity".to_string(), is_excluded: true },
    ];
    assert_eq!(split_entries(&es), (vec!["glasses".to_string()], vec!["nudity".to_string()]));
}

#[test]
fn decides_after_fetch_attempts() {
    assert!(matches!(
        retry_step(FetchOutcome::Image { has_post_link: true, already_sent: true }, 1, 4),
        RetryStep::Retry(r) if r == "source_link_already_in_art_history"
    ));
    assert!(matches!(retry_step(FetchOutcome::Image { has_post_link: true, already_sent: false }, 4, 4), RetryStep::RecordAndSend));
    assert!(matches!(retry_step(FetchOutcome::Image { has_post_link: false, already_sent: false }, 1, 4), RetryStep::Send));
    assert!(matches!(retry_step(FetchOutcome::Failed("boom".to_string()), 3, 4), RetryStep::Retry(_)));
    assert!(matches!(retry_step(FetchOutcome::Failed("boom".to_string()), 4, 4), RetryStep::Exhausted(e) if e == "boom"));
}

#[test]
fn formats_reports() {
    assert_eq!(truncate_for_dm("abcdef", 5), "ab...");
    assert_eq!(truncate_for_dm("abc", 5), "abc");
    assert_eq!(truncate_for_dm("abcdef", 2), "...");
    assert_eq!(ErrorSeverity::Bug.label(), "BUG");
    assert_eq!(report_body(ErrorSeverity::Error, "ctx", "sum", Some("det")), "**ERROR** in `ctx`\nsum\n```\ndet\n```");
    assert_eq!(report_body(ErrorSeverity::Bug, "ctx", "sum", None), "**BUG** in `ctx`\nsum");
    assert_eq!(
        unknown_command_report("x", 1, None, 2),
        "unknown slash command `x` invoked by user 1 in guild None channel 2"
    );
    assert_eq!(dm_reply(true, false), "Failed to send DM. Make sure your DMs are open.");
}

#[test]
fn answers_channels_in_their_language() {
    let en = I18n::load("en").unwrap();
    let fr = channel_messages(en, &Some("fr".to_string()));
    assert!(fr.language == Language::Fr);
    assert_eq!(
        fr.could_not_find_image("x"),
        I18n::load("fr").unwrap().could_not_find_image("x")
    );
    assert!(channel_messages(en, &Some("de".to_string())).language == Language::En);
    assert!(channel_messages(en, &Some("FR".to_string())).language == Language::En);
    assert!(channel_messages(fr, &None).language == Language::Fr);
}

fn entry(tag: &str, is_excluded: bool) -> TagPatternEntry {
    TagPatternEntry {
        id: 0,
        pattern_id: 0,
        tag: tag.to_string(),
        is_excluded,
    }
}

#[test]
fn selects_boorus_of_a_tag_pattern() {
    assert_eq!(enabled_booru_ids(&vec![4, 5, 6], &vec![true, false, true]), vec![4, 6]);
    let entries = vec![
        Some(vec![entry("cat", false), entry("dog", true)]),
        None,
        Some(vec![entry("bird", true)]),
        Some(vec![entry("fox", false)]),
    ];
    let candidates = pattern_boorus(&vec![1, 2, 3, 4], &entries);
    assert_eq!(candidates.len(), 2);
    assert_eq!(candidates[0].booru_id, 1);
    assert_eq!(candidates[0].included, vec!["cat".to_string()]);
    assert_eq!(candidates[0].excluded, vec!["dog".to_string()]);
    assert_eq!(candidates[1].booru_id, 4);
    assert_eq!(pattern_booru_for(&candidates, 4), Some(1));
    assert_eq!(pattern_booru_for(&candidates, 3), None);
}

#[test]
fn draws_pattern_boorus_and_decides_reloads() {
    let entries = vec![Some(vec![entry("cat", false)]), Some(vec![entry("dog", true)])];
    let ids = vec![7, 8];
    let candidates = pattern_boorus(&ids, &entries);
    assert_eq!(pattern_candidate_at(&ids, &candidates, 0), Some(0));
    assert_eq!(pattern_candidate_at(&ids, &candidates, 1), None);
    for _ in 0..20 {
        let (index, drawn) = draw_pattern_booru(&ids, &candidates);
        assert!(index < 2);
        assert_eq!(drawn, pattern_candidate_at(&ids, &candidates, index));
    }

    let mut jobs = JobTracker::new();
    assert!(jobs.try_start());
    assert_eq!(reload_request(&mut jobs, false, false), ReloadDecision::AdminOnly);
    assert!(jobs.try_start());
    assert_eq!(reload_request(&mut jobs, false, true), ReloadDecision::Begin { active_jobs: 2 });
    assert_eq!(reload_request(&mut jobs, true, false), ReloadDecision::AlreadyInProgress);
    assert!(!jobs.try_start());
}
