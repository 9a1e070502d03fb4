use oneword::patterns::StoryPatterns;
use oneword::story::{
    collect_messages, ends_story, footer_text, is_end_trigger, participant_mention, participants,
    story_words, summary_embed, MessageInfo,
};
use regex::Regex;

fn pats() -> StoryPatterns {
    StoryPatterns::new().expect("patterns compile")
}

fn msg(id: u64, author: u64, bot: bool, ts: i64, content: &str) -> MessageInfo {
    MessageInfo { id, author_id: author, author_bot: bot, timestamp: ts, content: content.to_string() }
}

fn ids(v: &[MessageInfo]) -> Vec<u64> {
    v.iter().map(|m| m.id).collect()
}

#[test]
fn end_trigger_characters() {
    for s in ["end.", "end!", "end?", "end\u{2026}", "."] {
        assert!(is_end_trigger(&s.to_string()), "{:?}", s);
    }
    for s in ["", "word", "end,", "end. ", "end;"] {
        assert!(!is_end_trigger(&s.to_string()), "{:?}", s);
    }
}

#[test]
fn whitespace_count_matches_regex() {
    let p = pats();
    let re = Regex::new(r"(?m)\s").unwrap();
    for s in ["", "a", "a b", "a  b", "a\tb\nc", "x\u{a0}y", "x\u{3000}y\u{2028}", "no_space"] {
        assert_eq!(p.whitespace_count(s), re.find_iter(s).count(), "{:?}", s);
    }
}

#[test]
fn sanitize_matches_regex_replacements() {
    let p = pats();
    let w = Regex::new(r"(?m)\s").unwrap();
    let w_end = Regex::new(r"(?m)(\s)([!?.…])").unwrap();
    let w_comma = Regex::new(r"(?m)\s,").unwrap();
    for s in ["word", "word .", "a\tb", "x ,", "hi !", "a\u{a0}\u{2026}", "a , b .", "  .", "plain"] {
        let mut expected = w.replace(s, " ").to_string();
        expected = w_end.replace(&expected, "$2").to_string();
        expected = w_comma.replace(&expected, ",").to_string();
        assert_eq!(p.sanitize_word(s), expected, "{:?}", s);
    }
}

#[test]
fn sanitize_examples() {
    let p = pats();
    assert_eq!(p.sanitize_word("end ."), "end.");
    assert_eq!(p.sanitize_word("so ,"), "so,");
    assert_eq!(p.sanitize_word("tab\there"), "tab here");
    assert_eq!(p.sanitize_word("word"), "word");
}

#[test]
fn ends_story_rules() {
    let p = pats();
    assert!(ends_story(&p, &msg(1, 1, false, 0, "end."), true));
    assert!(ends_story(&p, &msg(1, 1, false, 0, "the end."), true));
    assert!(!ends_story(&p, &msg(1, 1, false, 0, "the very end."), true));
    assert!(!ends_story(&p, &msg(1, 1, true, 0, "end."), true));
    assert!(!ends_story(&p, &msg(1, 1, false, 0, "end."), false));
    assert!(!ends_story(&p, &msg(1, 1, false, 0, "end"), true));
}

#[test]
fn collect_stops_at_bot_message_and_reverses() {
    let p = pats();
    // newest first, as Discord lists them
    let history = vec![
        msg(5, 10, false, 50, "c"),
        msg(4, 11, false, 40, "b"),
        msg(3, 12, false, 30, "two words here"),
        msg(2, 10, false, 20, "a"),
        msg(1, 99, true, 10, "summary"),
        msg(0, 10, false, 5, "old"),
    ];
    let collected = collect_messages(&p, &history, 60);
    assert_eq!(ids(&collected), vec![2, 4, 5]);
}

#[test]
fn collect_without_bot_keeps_order() {
    let p = pats();
    let history = vec![msg(3, 1, false, 30, "x"), msg(2, 2, false, 20, "y"), msg(1, 3, false, 100, "late")];
    let collected = collect_messages(&p, &history, 60);
    assert_eq!(ids(&collected), vec![3, 2]);
}

#[test]
fn collect_empty_when_bot_is_newest() {
    let p = pats();
    let history = vec![msg(3, 1, true, 30, "summary"), msg(2, 2, false, 20, "y")];
    assert!(collect_messages(&p, &history, 60).is_empty());
}

#[test]
fn participants_sorted_unique_with_ender() {
    let story = vec![msg(1, 30, false, 0, "a"), msg(2, 10, false, 0, "b"), msg(3, 30, false, 0, "c")];
    let last = msg(4, 20, false, 0, "d.");
    assert_eq!(participants(&story, &last), vec![10, 20, 30]);
    assert_eq!(participants(&vec![], &last), vec![20]);
}

#[test]
fn words_are_sanitized_and_end_last() {
    let p = pats();
    let story = vec![msg(1, 1, false, 0, "Once"), msg(2, 2, false, 0, "upon ,")];
    let last = msg(3, 3, false, 0, "time .");
    assert_eq!(story_words(&p, &story, &last), vec!["Once", "upon,", "time."]);
}

#[test]
fn mentions() {
    assert_eq!(participant_mention(42, true), "<@42>");
    assert_eq!(participant_mention(42, false), "<unknown>");
}

#[test]
fn footer_variants() {
    assert_eq!(footer_text(false, false, false, "Ann"), "Story Messages will be deleted | ended by Ann");
    assert_eq!(footer_text(false, false, true, "Ann"), "Story Messages will not be deleted | ended by Ann");
    assert_eq!(footer_text(true, false, true, "Ann"), "Story Messages will not be deleted");
    assert_eq!(footer_text(false, true, true, "Ann"), "ended by Ann");
    assert_eq!(footer_text(true, true, false, "Ann"), "");
}

#[test]
fn summary_embed_fields() {
    let words = vec!["Once".to_string(), "upon".to_string(), "time.".to_string()];
    let mentions = vec!["<@1>".to_string(), "<unknown>".to_string()];
    let e = summary_embed(&words, &mentions, "ended by Ann".to_string());
    assert_eq!(e.description, Some("Once upon time.".to_string()));
    assert_eq!(e.fields.len(), 2);
    assert_eq!(e.fields[0].name, "Participants (2)");
    assert_eq!(e.fields[0].value, "<@1>, <unknown>");
    assert!(e.fields[0].inline);
    assert_eq!(e.fields[1].name, "Word Count");
    assert_eq!(e.fields[1].value, "3");
    assert_eq!(e.footer, Some("ended by Ann".to_string()));
    assert!(e.title.is_none());
}
