use oneword::entity::channel::Column;
use oneword::events::{on_message, StoryAction, StoryEvent, StoryStage};
use oneword::patterns::StoryPatterns;
use oneword::story::MessageInfo;

fn msg(id: u64, author: u64, bot: bool, ts: i64, content: &str) -> MessageInfo {
    MessageInfo { id, author_id: author, author_bot: bot, timestamp: ts, content: content.to_string() }
}

fn posted(content: &str, guild: Option<u64>) -> StoryEvent {
    StoryEvent::Posted { message: msg(100, 3, false, 1000, content), guild, channel: 50, author_name: "Ann".into() }
}

#[test]
fn non_ending_message_is_ignored() {
    let p = StoryPatterns::new().unwrap();
    let (s, a) = on_message(&p, StoryStage::Start, posted("word", Some(9)));
    assert!(matches!(s, StoryStage::Done));
    assert!(matches!(a, StoryAction::Finish));
    let (_, a) = on_message(&p, StoryStage::Start, posted("end.", None));
    assert!(matches!(a, StoryAction::Finish));
}

#[test]
fn unwatched_or_inactive_channel_is_ignored() {
    let p = StoryPatterns::new().unwrap();
    let (s, a) = on_message(&p, StoryStage::Start, posted("end.", Some(9)));
    match a {
        StoryAction::LoadSettings { channel, guild } => {
            assert!(channel.column == Column::ChannelId);
            assert_eq!(channel.value, "50");
            assert_eq!(channel.also, Some("9".to_string()));
            assert_eq!(guild, 9);
        }
        _ => panic!(),
    }
    let (_, a) = on_message(&p, s, StoryEvent::SettingsLoaded { watched: None, hide_user: false, hide_deletion_info: false });
    assert!(matches!(a, StoryAction::Finish));
    let (s, _) = on_message(&p, StoryStage::Start, posted("end.", Some(9)));
    let (_, a) = on_message(&p, s, StoryEvent::SettingsLoaded { watched: Some((false, true)), hide_user: false, hide_deletion_info: false });
    assert!(matches!(a, StoryAction::Finish));
}

#[test]
fn story_is_summarized_and_deleted() {
    let p = StoryPatterns::new().unwrap();
    let (s, _) = on_message(&p, StoryStage::Start, posted("end .", Some(9)));
    let (s, a) = on_message(&p, s, StoryEvent::SettingsLoaded { watched: Some((true, false)), hide_user: false, hide_deletion_info: false });
    assert!(matches!(a, StoryAction::LoadHistory { before: 100, limit: 100 }));
    assert_eq!(oneword::events::HISTORY_LIMIT, 100);
    let history = vec![msg(99, 2, false, 990, "the"), msg(98, 1, false, 980, "Once"), msg(97, 8, true, 900, "old summary")];
    let (s, a) = on_message(&p, s, StoryEvent::HistoryLoaded(history));
    match &a {
        StoryAction::ResolveUsers(ids) => assert_eq!(ids, &vec![1, 2, 3]),
        _ => panic!(),
    }
    let (s, a) = on_message(&p, s, StoryEvent::UsersResolved(vec![true, false, true]));
    match a {
        StoryAction::SendSummary(e) => {
            assert_eq!(e.description, Some("Once the end.".to_string()));
            assert_eq!(e.fields[0].name, "Participants (3)");
            assert_eq!(e.fields[0].value, "<@1>, <unknown>, <@3>");
            assert_eq!(e.fields[1].value, "3");
            assert_eq!(e.footer, Some("Story Messages will be deleted | ended by Ann".to_string()));
        }
        _ => panic!(),
    }
    let (s, a) = on_message(&p, s, StoryEvent::SummarySent);
    assert!(matches!(s, StoryStage::Done));
    match a {
        StoryAction::DeleteMessages(ids) => assert_eq!(ids, vec![98, 99]),
        _ => panic!(),
    }
}

#[test]
fn retained_story_is_not_deleted() {
    let p = StoryPatterns::new().unwrap();
    let (s, _) = on_message(&p, StoryStage::Start, posted("end.", Some(9)));
    let (s, _) = on_message(&p, s, StoryEvent::SettingsLoaded { watched: Some((true, true)), hide_user: true, hide_deletion_info: true });
    let (s, _) = on_message(&p, s, StoryEvent::HistoryLoaded(vec![msg(99, 2, false, 990, "word")]));
    let (s, a) = on_message(&p, s, StoryEvent::UsersResolved(vec![true, true]));
    match a {
        StoryAction::SendSummary(e) => assert_eq!(e.footer, Some("".to_string())),
        _ => panic!(),
    }
    let (_, a) = on_message(&p, s, StoryEvent::SummarySent);
    assert!(matches!(a, StoryAction::Finish));
}

#[test]
fn empty_story_sends_nothing() {
    let p = StoryPatterns::new().unwrap();
    let (s, _) = on_message(&p, StoryStage::Start, posted("end.", Some(9)));
    let (s, _) = on_message(&p, s, StoryEvent::SettingsLoaded { watched: Some((true, true)), hide_user: false, hide_deletion_info: false });
    let (_, a) = on_message(&p, s, StoryEvent::HistoryLoaded(vec![msg(99, 8, true, 990, "summary")]));
    assert!(matches!(a, StoryAction::Finish));
}
