//! The reaction to a new message: when it ends a story in a watched channel of an active
//! guild, the bot summarizes the story and, unless the guild keeps them, deletes the
//! story's messages. Each step says what to fetch or send next.

use vstd::prelude::*;
use crate::entity::channel::{Channel, Column, Select};
use crate::patterns::StoryPatterns;
use crate::story::{MessageInfo, MessageView, collect_messages, collect_messages_spec, ends_story,
    ends_story_spec, footer_spec, footer_text, mention_spec, messages_view, participant_mention,
    participants, story_words, story_words_spec, strictly_increasing, is_participant, summary_embed,
    summary_fields_spec};
use crate::text::{decimal, join, views};
use crate::ui::{Embed, fields_view};

verus! {

/// Where the handling of a message stands.
pub enum StoryStage {
    /// Nothing has happened yet.
    Start,
    /// The message `last` ended a story; the channel and guild settings are being loaded.
    AwaitSettings { last: MessageInfo, author_name: String },
    /// The settings allow a summary; the channel's earlier messages are being fetched.
    AwaitHistory { last: MessageInfo, author_name: String, hide_user: bool, hide_deletion_info: bool,
        retain_messages: bool },
    /// The participants are being looked up.
    AwaitUsers { participants: Vec<u64>, words: Vec<String>, footer: String, to_delete: Vec<u64> },
    /// The summary was sent; the story's messages are to be deleted.
    AwaitSent { to_delete: Vec<u64> },
    /// Nothing more to do.
    Done,
}

/// What the outside world reports back.
pub enum StoryEvent {
    /// A message was posted in `channel`, in `guild` when it is a guild channel;
    /// `author_name` is its author's display name.
    Posted { message: MessageInfo, guild: Option<u64>, channel: u64, author_name: String },
    /// The settings were loaded: of the watched channel's guild (`None` when the channel
    /// is not watched): whether it is active and whether it keeps story messages; and
    /// the footer settings of the message's guild.
    SettingsLoaded { watched: Option<(bool, bool)>, hide_user: bool, hide_deletion_info: bool },
    /// The channel's messages before the last one, newest first.
    HistoryLoaded(Vec<MessageInfo>),
    /// For each participant, whether the user could be fetched.
    UsersResolved(Vec<bool>),
    /// The summary was sent.
    SummarySent,
}

/// How many earlier messages of the channel are fetched to find the story.
pub const HISTORY_LIMIT: u8 = 100;

/// What the bot does next.
pub enum StoryAction {
    /// Load the watched channel selected by `channel`, its guild, and the settings of
    /// `guild`.
    LoadSettings { channel: Select, guild: u64 },
    /// Fetch up to `limit` messages before message `before`.
    LoadHistory { before: u64, limit: u8 },
    /// Fetch these users.
    ResolveUsers(Vec<u64>),
    /// Send this summary.
    SendSummary(Embed),
    /// Delete these messages.
    DeleteMessages(Vec<u64>),
    /// Stop.
    Finish,
}

/// The event that the handling waits for at `stage`.
pub open spec fn expects(stage: StoryStage, event: StoryEvent) -> bool {
    match stage {
        StoryStage::Start => event is Posted,
        StoryStage::AwaitSettings { .. } => event is SettingsLoaded,
        StoryStage::AwaitHistory { .. } => event is HistoryLoaded,
        StoryStage::AwaitUsers { participants, .. } =>
            event matches StoryEvent::UsersResolved(r) && r@.len() == participants@.len(),
        StoryStage::AwaitSent { .. } => event is SummarySent,
        StoryStage::Done => false,
    }
}

/// The ids of a list of messages.
pub open spec fn ids_of(ms: Seq<MessageView>) -> Seq<u64> {
    ms.map_values(|m: MessageView| m.id)
}

/// The mentions of the participants, given which could be fetched.
pub open spec fn mentions_of(ids: Seq<u64>, resolved: Seq<bool>) -> Seq<Seq<char>> {
    Seq::new(ids.len(), |i: int| mention_spec(ids[i], resolved[i]))
}

fn message_ids(ms: &Vec<MessageInfo>) -> (r: Vec<u64>)
    ensures
        r@ == ids_of(messages_view(ms@)),
{
    let mut r: Vec<u64> = Vec::new();
    let mut i: usize = 0;
    while i < ms.len()
        invariant
            i <= ms.len(),
            r@ == ids_of(messages_view(ms@)).subrange(0, i as int),
        decreases ms.len() - i,
    {
        r.push(ms[i].id);
        assert(r@ =~= ids_of(messages_view(ms@)).subrange(0, i + 1));
        i = i + 1;
    }
    assert(ids_of(messages_view(ms@)).subrange(0, ms.len() as int) =~= ids_of(messages_view(ms@)));
    r
}

fn mentions(ids: &Vec<u64>, resolved: &Vec<bool>) -> (r: Vec<String>)
    requires
        ids@.len() == resolved@.len(),
    ensures
        views(r@) == mentions_of(ids@, resolved@),
{
    let mut r: Vec<String> = Vec::new();
    let mut i: usize = 0;
    while i < ids.len()
        invariant
            i <= ids.len(),
            ids@.len() == resolved@.len(),
            r@.len() == i,
            views(r@) == mentions_of(ids@, resolved@).subrange(0, i as int),
        decreases ids.len() - i,
    {
        let m = participant_mention(ids[i], resolved[i]);
        r.push(m);
        assert(views(r@) =~= mentions_of(ids@, resolved@).subrange(0, i + 1));
        i = i + 1;
    }
    assert(mentions_of(ids@, resolved@).subrange(0, ids.len() as int) =~= mentions_of(ids@, resolved@));
    r
}

/// One step of the handling of a posted message.
pub fn on_message(patterns: &StoryPatterns, stage: StoryStage, event: StoryEvent) -> (r: (StoryStage, StoryAction))
    requires
        patterns.wf(),
        expects(stage, event),
    ensures
        match (stage, event) {
            (StoryStage::Start, StoryEvent::Posted { message, guild, channel, author_name }) =>
                if ends_story_spec(message@, guild is Some) {
                    (r.0 matches StoryStage::AwaitSettings { last, author_name: n }
                        && last@ == message@ && n@ == author_name@)
                    && (r.1 matches StoryAction::LoadSettings { channel: q, guild: g }
                        && q.column == Column::ChannelId && q.value@ == decimal(channel as nat)
                        && (q.also matches Some(v) && v@ == decimal(guild->0 as nat))
                        && g == guild->0)
                } else {
                    r.0 is Done && r.1 is Finish
                },
            (StoryStage::AwaitSettings { last, author_name },
                StoryEvent::SettingsLoaded { watched, hide_user, hide_deletion_info }) =>
                match watched {
                    Some((true, retain)) =>
                        (r.0 matches StoryStage::AwaitHistory { last: l, author_name: n, hide_user: hu,
                            hide_deletion_info: hd, retain_messages: rm }
                            && l@ == last@ && n@ == author_name@ && hu == hide_user && hd == hide_deletion_info
                            && rm == retain)
                        && (r.1 matches StoryAction::LoadHistory { before, limit }
                            && before == last.id && limit == HISTORY_LIMIT),
                    _ => r.0 is Done && r.1 is Finish,
                },
            (StoryStage::AwaitHistory { last, author_name, hide_user, hide_deletion_info, retain_messages },
                StoryEvent::HistoryLoaded(history)) => {
                let story = collect_messages_spec(messages_view(history@), last.timestamp);
                if story.len() == 0 {
                    r.0 is Done && r.1 is Finish
                } else {
                    (r.0 matches StoryStage::AwaitUsers { participants: p, words, footer, to_delete } && {
                        &&& strictly_increasing(p@)
                        &&& forall|x: u64| p@.contains(x) <==> is_participant(story, last@, x)
                        &&& views(words@) == story_words_spec(story, last@)
                        &&& footer@ == footer_spec(hide_user, hide_deletion_info, retain_messages, author_name@)
                        &&& to_delete@ == if retain_messages { Seq::<u64>::empty() } else { ids_of(story) }
                    }) && (r.1 matches StoryAction::ResolveUsers(ids) && r.0->AwaitUsers_participants@ == ids@)
                }
            },
            (StoryStage::AwaitUsers { participants, words, footer, to_delete }, StoryEvent::UsersResolved(resolved)) =>
                (r.0 matches StoryStage::AwaitSent { to_delete: d } && d@ == to_delete@)
                && (r.1 matches StoryAction::SendSummary(e) && {
                    &&& e.title is None
                    &&& e.description matches Some(d) && d@ == join(views(words@), " "@)
                    &&& fields_view(e.fields@) == summary_fields_spec(views(words@), mentions_of(participants@, resolved@))
                    &&& e.footer matches Some(f) && f@ == footer@
                }),
            (StoryStage::AwaitSent { to_delete }, StoryEvent::SummarySent) =>
                r.0 is Done && if to_delete@.len() == 0 {
                    r.1 is Finish
                } else {
                    r.1 matches StoryAction::DeleteMessages(ids) && ids@ == to_delete@
                },
            _ => false,
        },
{
    match (stage, event) {
        (StoryStage::Start, StoryEvent::Posted { message, guild, channel, author_name }) => {
            if ends_story(patterns, &message, guild.is_some()) {
                let g = match guild {
                    Some(g) => g,
                    None => 0,
                };
                let query = Channel::find_by_channel(channel).also_equal(g);
                (StoryStage::AwaitSettings { last: message, author_name },
                    StoryAction::LoadSettings { channel: query, guild: g })
            } else {
                (StoryStage::Done, StoryAction::Finish)
            }
        },
        (StoryStage::AwaitSettings { last, author_name },
            StoryEvent::SettingsLoaded { watched, hide_user, hide_deletion_info }) => {
            match watched {
                Some((active, retain_messages)) => {
                    if active {
                        let before = last.id;
                        (StoryStage::AwaitHistory { last, author_name, hide_user, hide_deletion_info, retain_messages },
                            StoryAction::LoadHistory { before, limit: HISTORY_LIMIT })
                    } else {
                        (StoryStage::Done, StoryAction::Finish)
                    }
                },
                None => (StoryStage::Done, StoryAction::Finish),
            }
        },
        (StoryStage::AwaitHistory { last, author_name, hide_user, hide_deletion_info, retain_messages },
            StoryEvent::HistoryLoaded(history)) => {
            let story = collect_messages(patterns, &history, last.timestamp);
            if story.len() == 0 {
                return (StoryStage::Done, StoryAction::Finish);
            }
            let ids = participants(&story, &last);
            let words = story_words(patterns, &story, &last);
            let footer = footer_text(hide_user, hide_deletion_info, retain_messages, author_name.as_str());
            let to_delete = if retain_messages { Vec::new() } else { message_ids(&story) };
            let ask = ids.clone();
            (StoryStage::AwaitUsers { participants: ids, words, footer, to_delete }, StoryAction::ResolveUsers(ask))
        },
        (StoryStage::AwaitUsers { participants, words, footer, to_delete }, StoryEvent::UsersResolved(resolved)) => {
            let ms = mentions(&participants, &resolved);
            let e = summary_embed(&words, &ms, footer);
            (StoryStage::AwaitSent { to_delete }, StoryAction::SendSummary(e))
        },
        (StoryStage::AwaitSent { to_delete }, StoryEvent::SummarySent) => {
            if to_delete.len() == 0 {
                (StoryStage::Done, StoryAction::Finish)
            } else {
                (StoryStage::Done, StoryAction::DeleteMessages(to_delete))
            }
        },
        _ => {
            proof {
                assert(false);
            }
            (StoryStage::Done, StoryAction::Finish)
        },
    }
}

} // verus!
