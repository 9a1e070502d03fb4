//! The story rules: when a message ends a story, which earlier messages belong to it,
//! and what the summary shows.

use vstd::prelude::*;
use std::collections::BTreeSet;
use vstd::std_specs::iter::IteratorSpec;
use vstd::std_specs::cmp::OrdSpec;
use crate::patterns::{StoryPatterns, whitespace_count, is_end_punct,
    first_space_normalized, first_space_before_end_removed, first_space_before_comma_removed};
use crate::text::{chars_of, decimal, join, join_strings, push_decimal, views};
use crate::ui::{Embed, EmbedField, field, fields_view};

verus! {

/// What the story rules read of a Discord message.
pub struct MessageInfo {
    pub id: u64,
    pub author_id: u64,
    pub author_bot: bool,
    /// Seconds since the Unix epoch.
    pub timestamp: i64,
    pub content: String,
}

/// The mathematical view of a message.
pub struct MessageView {
    pub id: u64,
    pub author_id: u64,
    pub author_bot: bool,
    pub timestamp: i64,
    pub content: Seq<char>,
}

impl View for MessageInfo {
    type V = MessageView;

    open spec fn view(&self) -> MessageView {
        MessageView {
            id: self.id,
            author_id: self.author_id,
            author_bot: self.author_bot,
            timestamp: self.timestamp,
            content: self.content@,
        }
    }
}

impl MessageInfo {
    /// A copy of the message.
    pub fn copy(&self) -> (m: MessageInfo)
        ensures
            m@ == self@,
    {
        MessageInfo {
            id: self.id,
            author_id: self.author_id,
            author_bot: self.author_bot,
            timestamp: self.timestamp,
            content: self.content.clone(),
        }
    }
}

/// The views of a list of messages.
pub open spec fn messages_view(ms: Seq<MessageInfo>) -> Seq<MessageView> {
    ms.map_values(|m: MessageInfo| m@)
}

/// A text ends a story when its last character is `.`, `…`, `!` or `?`.
pub open spec fn is_end_trigger_spec(content: Seq<char>) -> bool {
    content.len() > 0 && is_end_punct(content.last())
}

/// Whether `content` ends a story.
pub fn is_end_trigger(content: &String) -> (r: bool)
    ensures
        r == is_end_trigger_spec(content@),
{
    let cs = chars_of(content.as_str());
    if cs.len() == 0 {
        return false;
    }
    let c = cs[cs.len() - 1];
    c == '.' || c == '\u{2026}' || c == '!' || c == '?'
}

/// A message ends a story when a person (not a bot) sent it in a guild, it ends with a
/// sentence end, and it holds at most one whitespace character.
pub open spec fn ends_story_spec(m: MessageView, in_guild: bool) -> bool {
    &&& !m.author_bot
    &&& in_guild
    &&& is_end_trigger_spec(m.content)
    &&& whitespace_count(m.content) <= 1
}

/// Whether `message`, sent in a guild when `in_guild`, ends a story.
pub fn ends_story(patterns: &StoryPatterns, message: &MessageInfo, in_guild: bool) -> (r: bool)
    requires
        patterns.wf(),
    ensures
        r == ends_story_spec(message@, in_guild),
{
    if message.author_bot || !in_guild || !is_end_trigger(&message.content) {
        return false;
    }
    patterns.whitespace_count(message.content.as_str()) <= 1
}

/// A message can belong to a story that ends at time `before` when it was sent
/// earlier and holds fewer than two whitespace characters.
pub open spec fn is_candidate(before: i64) -> spec_fn(MessageView) -> bool {
    |m: MessageView| m.timestamp < before && whitespace_count(m.content) < 2
}

/// The index of the first message of `ms` sent by a bot, if there is one.
pub open spec fn first_bot(ms: Seq<MessageView>) -> Option<int> {
    if exists|i: int| 0 <= i < ms.len() && (#[trigger] ms[i]).author_bot {
        Some(choose|i: int| 0 <= i < ms.len() && (#[trigger] ms[i]).author_bot
            && forall|j: int| 0 <= j < i ==> !(#[trigger] ms[j]).author_bot)
    } else {
        None
    }
}

/// The messages of a story that ends at time `before`, out of `ms` (newest first, as
/// Discord lists them): the candidates, and when a bot wrote one of them, only the
/// candidates newer than that bot message, oldest first.
pub open spec fn collect_messages_spec(ms: Seq<MessageView>, before: i64) -> Seq<MessageView> {
    let c = ms.filter(is_candidate(before));
    match first_bot(c) {
        Some(k) => c.take(k).reverse(),
        None => c,
    }
}

/// The messages that make up the story ending at time `before`.
pub fn collect_messages(patterns: &StoryPatterns, messages: &Vec<MessageInfo>, before: i64) -> (r: Vec<MessageInfo>)
    requires
        patterns.wf(),
    ensures
        messages_view(r@) == collect_messages_spec(messages_view(messages@), before),
{
    let ghost ms = messages_view(messages@);
    let mut collected: Vec<MessageInfo> = Vec::new();
    let mut i: usize = 0;
    while i < messages.len()
        invariant
            patterns.wf(),
            i <= messages.len(),
            ms == messages_view(messages@),
            messages_view(collected@) == ms.take(i as int).filter(is_candidate(before)),
        decreases messages.len() - i,
    {
        let m = &messages[i];
        proof {
            assert(ms[i as int] == m@);
            assert(ms.take(i + 1) =~= ms.take(i as int).push(m@));
            ms.take(i as int).lemma_filter_push(m@, is_candidate(before));
        }
        if m.timestamp < before && patterns.whitespace_count(m.content.as_str()) < 2 {
            collected.push(m.copy());
            assert(messages_view(collected@) =~= ms.take(i as int).filter(is_candidate(before)).push(m@));
        }
        i = i + 1;
    }
    assert(ms.take(messages.len() as int) =~= ms);
    let ghost c = messages_view(collected@);
    let mut k: usize = 0;
    while k < collected.len()
        invariant
            k <= collected.len(),
            c == messages_view(collected@),
            c == messages_view(messages@).filter(is_candidate(before)),
            forall|j: int| 0 <= j < k ==> !(#[trigger] c[j]).author_bot,
        decreases collected.len() - k,
    {
        if collected[k].author_bot {
            assert(c[k as int].author_bot);
            assert(first_bot(c) == Some(k as int)) by {
                let w = choose|w: int| 0 <= w < c.len() && (#[trigger] c[w]).author_bot
                    && forall|j: int| 0 <= j < w ==> !(#[trigger] c[j]).author_bot;
                assert(0 <= k < c.len() && c[k as int].author_bot
                    && forall|j: int| 0 <= j < k ==> !(#[trigger] c[j]).author_bot);
                if w < k {
                    assert(!c[w].author_bot);
                } else if w > k {
                    assert(!c[k as int].author_bot);
                }
            }
            let mut r: Vec<MessageInfo> = Vec::new();
            let mut j: usize = k;
            while j > 0
                invariant
                    j <= k,
                    k < collected.len(),
                    c == messages_view(collected@),
                    r@.len() == k - j,
                    messages_view(r@) == c.take(k as int).reverse().take(k - j),
                decreases j,
            {
                j = j - 1;
                let m = collected[j].copy();
                assert(m@ == c[j as int]);
                r.push(m);
                assert(c.take(k as int).reverse()[k - 1 - j] == c[j as int]);
                assert(messages_view(r@) =~= c.take(k as int).reverse().take(k - j));
            }
            assert(c.take(k as int).reverse().take(k as int) =~= c.take(k as int).reverse());
            return r;
        }
        k = k + 1;
    }
    assert(first_bot(c) is None);
    collected
}

/// `s` is sorted in strictly increasing order.
pub open spec fn strictly_increasing(s: Seq<u64>) -> bool {
    forall|i: int, j: int| 0 <= i < j < s.len() ==> s[i] < s[j]
}

/// `x` is the author of the story's last message or of one of the others.
pub open spec fn is_participant(ms: Seq<MessageView>, last: MessageView, x: u64) -> bool {
    x == last.author_id || exists|i: int| 0 <= i < ms.len() && (#[trigger] ms[i]).author_id == x
}

/// Adds `id` to `set`.
fn insert_id(set: &mut BTreeSet<u64>, id: u64)
    ensures
        final(set)@ == old(set)@.insert(id),
{
    broadcast use vstd::laws_cmp::group_laws_cmp;
    set.insert(id);
}

/// `a` comes before `b` in the order of `K`.
spec fn ordered_below<K: Ord>(a: K, b: K) -> bool {
    a.cmp_spec(&b) is Less
}

/// The ids in `set`, in increasing order.
fn sorted_ids(set: &BTreeSet<u64>) -> (r: Vec<u64>)
    ensures
        strictly_increasing(r@),
        forall|x: u64| r@.contains(x) <==> set@.contains(x),
{
    broadcast use vstd::std_specs::btree::group_btree_axioms;
    broadcast use vstd::laws_cmp::group_laws_cmp;
    let ghost keys = vstd::std_specs::btree::spec_btree_keys_iter(set).remaining().unref();
    let mut r: Vec<u64> = Vec::new();
    for x in it: set.iter()
        invariant
            it.seq().unref() == keys,
            r@ == keys.subrange(0, it.index()),
    {
        r.push(*x);
        assert(r@ =~= keys.subrange(0, it.index() + 1));
    }
    assert(r@ =~= keys);
    assert(keys.to_set() == set@);
    let ghost rem = vstd::std_specs::btree::spec_btree_keys_iter(set).remaining();
    assert(vstd::laws_cmp::obeys_cmp::<u64>());
    assert(vstd::laws_cmp::obeys_cmp::<&u64>());
    assert(vstd::std_specs::btree::increasing_seq(rem));

    assert forall|i: int, j: int| 0 <= i < j < keys.len() implies keys[i] < keys[j] by {
        assert(keys.len() == rem.len());
        assert(ordered_below(rem[i], rem[j]));
        assert(keys[i] == *rem[i]);
    }
    assert forall|x: u64| r@.contains(x) <==> set@.contains(x) by {
        assert(keys.to_set().contains(x) <==> keys.contains(x));
    }
    r
}

/// The ids of the story's authors, each once, in increasing order: the authors of
/// `messages` and of `last`.
pub fn participants(messages: &Vec<MessageInfo>, last: &MessageInfo) -> (r: Vec<u64>)
    ensures
        strictly_increasing(r@),
        forall|x: u64| r@.contains(x) <==> is_participant(messages_view(messages@), last@, x),
{
    let ghost ms = messages_view(messages@);
    let mut set: BTreeSet<u64> = BTreeSet::new();
    let mut i: usize = 0;
    while i < messages.len()
        invariant
            i <= messages.len(),
            ms == messages_view(messages@),
            forall|x: u64| set@.contains(x) <==> exists|j: int| 0 <= j < i && (#[trigger] ms[j]).author_id == x,
        decreases messages.len() - i,
    {
        let a = messages[i].author_id;
        assert(ms[i as int].author_id == a);
        insert_id(&mut set, a);
        assert forall|x: u64| set@.contains(x) <==> exists|j: int| 0 <= j < i + 1 && (#[trigger] ms[j]).author_id == x by {
            if exists|j: int| 0 <= j < i + 1 && (#[trigger] ms[j]).author_id == x {
                let j = choose|j: int| 0 <= j < i + 1 && (#[trigger] ms[j]).author_id == x;
                if j < i {
                    assert(exists|j2: int| 0 <= j2 < i && (#[trigger] ms[j2]).author_id == x);
                }
            }
        }
        i = i + 1;
    }
    insert_id(&mut set, last.author_id);
    sorted_ids(&set)
}

/// The words of the story: the texts of `messages` and then of `last`, each tidied.
pub open spec fn story_words_spec(ms: Seq<MessageView>, last: MessageView) -> Seq<Seq<char>> {
    ms.push(last).map_values(word_of())
}

/// The tidied word of a message.
pub open spec fn word_of() -> spec_fn(MessageView) -> Seq<char> {
    |m: MessageView| sanitize_spec(m.content)
}

/// The tidying of one word.
pub open spec fn sanitize_spec(w: Seq<char>) -> Seq<char> {
    first_space_before_comma_removed(first_space_before_end_removed(first_space_normalized(w)))
}

/// The tidied words of the story, in order.
pub fn story_words(patterns: &StoryPatterns, messages: &Vec<MessageInfo>, last: &MessageInfo) -> (r: Vec<String>)
    requires
        patterns.wf(),
    ensures
        views(r@) == story_words_spec(messages_view(messages@), last@),
{
    let ghost all = messages_view(messages@).push(last@);
    let mut r: Vec<String> = Vec::new();
    let mut i: usize = 0;
    while i < messages.len()
        invariant
            patterns.wf(),
            i <= messages.len(),
            r@.len() == i,
            all == messages_view(messages@).push(last@),
            views(r@) == all.take(i as int).map_values(word_of()),
        decreases messages.len() - i,
    {
        let w = patterns.sanitize_word(messages[i].content.as_str());
        let ghost prev = r@;
        r.push(w);
        assert(r@ == prev.push(w));
        assert(views(r@) =~= views(prev).push(w@));
        assert(all.take(i + 1).map_values(word_of()) =~= all.take(i as int).map_values(word_of()).push((word_of())(all[i as int])));
        assert(all[i as int] == messages[i as int]@);
        assert(views(r@)[i as int] == w@);
        assert(all[i as int].content == messages@[i as int].content@);
        assert((word_of())(all[i as int]) == w@);
        assert(views(r@) =~= all.take(i + 1).map_values(word_of()));
        i = i + 1;
    }
    let w = patterns.sanitize_word(last.content.as_str());
    let ghost prev = r@;
    r.push(w);
    assert(views(r@) =~= views(prev).push(w@));
    assert(all.map_values(word_of()) =~= all.take(messages.len() as int).map_values(word_of()).push((word_of())(all[messages.len() as int])));
    assert(all.take(messages.len() as int) =~= messages_view(messages@));
    assert(views(r@)[messages.len() as int] == w@);
    assert((word_of())(all[messages.len() as int]) == w@);
    assert(views(r@) =~= all.map_values(word_of()));
    r
}

/// How a participant is shown: `<@id>` when the user could be fetched, else `<unknown>`.
pub open spec fn mention_spec(id: u64, resolved: bool) -> Seq<char> {
    if resolved { "<@"@ + decimal(id as nat) + ">"@ } else { "<unknown>"@ }
}

/// The mention of participant `id`; `resolved` tells whether the user could be fetched.
pub fn participant_mention(id: u64, resolved: bool) -> (s: String)
    ensures
        s@ == mention_spec(id, resolved),
{
    if resolved {
        let mut s = String::from_str("<@");
        push_decimal(&mut s, id);
        s.append(">");
        s
    } else {
        String::from_str("<unknown>")
    }
}

/// The footer of a summary.
pub open spec fn footer_spec(hide_user: bool, hide_deletion_info: bool, retain_messages: bool,
    display_name: Seq<char>) -> Seq<char>
{
    if hide_deletion_info && hide_user {
        Seq::empty()
    } else {
        let deletion = if !hide_deletion_info {
            "Story Messages will "@ + (if retain_messages { "not "@ } else { Seq::empty() })
                + "be deleted"@ + (if !hide_user { " | "@ } else { Seq::empty() })
        } else {
            Seq::empty()
        };
        let user = if !hide_user { "ended by "@ + display_name } else { Seq::empty() };
        deletion + user
    }
}

/// The footer text: whether the story's messages will be deleted, and who ended it,
/// each unless the guild hides it.
pub fn footer_text(hide_user: bool, hide_deletion_info: bool, retain_messages: bool,
    display_name: &str) -> (s: String)
    ensures
        s@ == footer_spec(hide_user, hide_deletion_info, retain_messages, display_name@),
{
    let mut s = String::new();
    if hide_deletion_info && hide_user {
        return s;
    }
    if !hide_deletion_info {
        s.append("Story Messages will ");
        if retain_messages {
            s.append("not ");
        }
        s.append("be deleted");
        if !hide_user {
            s.append(" | ");
        }
    }
    if !hide_user {
        s.append("ended by ");
        s.append(display_name);
    }
    assert(s@ =~= footer_spec(hide_user, hide_deletion_info, retain_messages, display_name@));
    s
}

/// The summary embed: the words joined by spaces, the participants with their number,
/// the word count, and the footer.
pub open spec fn summary_fields_spec(words: Seq<Seq<char>>, mentions: Seq<Seq<char>>)
    -> Seq<(Seq<char>, Seq<char>, bool)>
{
    seq![
        ("Participants ("@ + decimal(mentions.len()) + ")"@, join(mentions, ", "@), true),
        ("Word Count"@, decimal(words.len()), true),
    ]
}

/// Builds the summary embed of a story.
pub fn summary_embed(words: &Vec<String>, mentions: &Vec<String>, footer: String) -> (e: Embed)
    requires
        words.len() <= u64::MAX,
        mentions.len() <= u64::MAX,
    ensures
        e.title is None,
        e.description matches Some(d) && d@ == join(views(words@), " "@),
        fields_view(e.fields@) == summary_fields_spec(views(words@), views(mentions@)),
        e.footer matches Some(f) && f@ == footer@,
{
    let description = join_strings(words, " ");
    let mut participants_name = String::from_str("Participants (");
    push_decimal(&mut participants_name, mentions.len() as u64);
    participants_name.append(")");
    let participants_value = join_strings(mentions, ", ");
    let mut count = String::new();
    push_decimal(&mut count, words.len() as u64);
    let mut fields: Vec<EmbedField> = Vec::new();
    fields.push(field(participants_name, participants_value, true));
    fields.push(field(String::from_str("Word Count"), count, true));
    let e = Embed { title: None, description: Some(description), fields, footer: Some(footer) };
    assert(fields_view(e.fields@) =~= summary_fields_spec(views(words@), views(mentions@)));
    e
}

/// When some message of `c` is a bot's, there is a first one.
proof fn lemma_first_bot_exists(c: Seq<MessageView>, i: int)
    requires
        0 <= i < c.len(),
        c[i].author_bot,
    ensures
        exists|k: int| 0 <= k < c.len() && (#[trigger] c[k]).author_bot
            && forall|j: int| 0 <= j < k ==> !(#[trigger] c[j]).author_bot,
    decreases i,
{
    if exists|j: int| 0 <= j < i && (#[trigger] c[j]).author_bot {
        let j = choose|j: int| 0 <= j < i && (#[trigger] c[j]).author_bot;
        lemma_first_bot_exists(c, j);
    }
}

/// Every message collected for a story was sent before the story ended, holds fewer
/// than two whitespace characters, and was written by a person, not a bot.
pub proof fn lemma_collected_are_story_messages(ms: Seq<MessageView>, before: i64, m: MessageView)
    requires
        collect_messages_spec(ms, before).contains(m),
    ensures
        m.timestamp < before,
        whitespace_count(m.content) < 2,
        !m.author_bot,
        ms.contains(m),
{
    let c = ms.filter(is_candidate(before));
    let r = collect_messages_spec(ms, before);
    let p = choose|p: int| 0 <= p < r.len() && r[p] == m;
    let q: int = match first_bot(c) {
        Some(k) => {
            if exists|i: int| 0 <= i < c.len() && (#[trigger] c[i]).author_bot {
                let i = choose|i: int| 0 <= i < c.len() && (#[trigger] c[i]).author_bot;
                lemma_first_bot_exists(c, i);
            }
            k - 1 - p
        },
        None => p,
    };
    assert(0 <= q < c.len() && c[q] == m);
    assert(!c[q].author_bot);
    ms.lemma_filter_contains_rev(is_candidate(before), m);
    assert(c.contains(m));
    let t = choose|t: int| 0 <= t < c.len() && c[t] == m;
    ms.lemma_filter_pred(is_candidate(before), t);
}

/// A word without whitespace is kept as it is.
pub proof fn lemma_word_without_space_unchanged(w: Seq<char>)
    requires
        forall|i: int| 0 <= i < w.len() ==> !crate::patterns::is_white_space(#[trigger] w[i]),
    ensures
        sanitize_spec(w) == w,
{
}

/// The story has one word per collected message plus the one of the message that
/// ended it, and the author of that message always takes part.
pub proof fn lemma_story_shape(ms: Seq<MessageView>, last: MessageView)
    ensures
        story_words_spec(ms, last).len() == ms.len() + 1,
        story_words_spec(ms, last).last() == sanitize_spec(last.content),
        is_participant(ms, last, last.author_id),
{
}

/// The footer is empty exactly when the guild hides both the user and the deletion
/// notice.
pub proof fn lemma_footer_empty_iff_all_hidden(hide_user: bool, hide_deletion_info: bool,
    retain_messages: bool, display_name: Seq<char>)
    ensures
        footer_spec(hide_user, hide_deletion_info, retain_messages, display_name).len() == 0
            <==> (hide_user && hide_deletion_info),
{
    reveal_strlit("Story Messages will ");
    reveal_strlit("ended by ");
    let f = footer_spec(hide_user, hide_deletion_info, retain_messages, display_name);
    if !hide_deletion_info {
        assert(f.len() >= "Story Messages will "@.len());
    } else if !hide_user {
        assert(f.len() >= "ended by "@.len());
    }
}

/// A text ends a story exactly when it is not empty and its last character is `.`,
/// `…`, `!` or `?`; nothing before the last character matters.
pub proof fn lemma_end_trigger_is_last_char(content: Seq<char>)
    ensures
        is_end_trigger_spec(content) <==> (content.len() > 0 && {
            let c = content[content.len() - 1];
            c == '.' || c == '\u{2026}' || c == '!' || c == '?'
        }),
{
}

/// Two texts with the same last character both end a story or both do not.
pub proof fn lemma_end_trigger_same_last_char(a: Seq<char>, b: Seq<char>)
    requires
        a.len() > 0,
        b.len() > 0,
        a[a.len() - 1] == b[b.len() - 1],
    ensures
        is_end_trigger_spec(a) == is_end_trigger_spec(b),
{
}

/// A message that a bot sent before the story ended, holding fewer than two whitespace
/// characters whatever its text (an embed-only summary has an empty one), closes the
/// previous story: no message older than it is collected.
pub proof fn lemma_story_stops_at_bot_message(ms: Seq<MessageView>, before: i64, k: int)
    requires
        0 <= k < ms.len(),
        ms[k].author_bot,
        ms[k].timestamp < before,
        whitespace_count(ms[k].content) < 2,
    ensures
        forall|m: MessageView| collect_messages_spec(ms, before).contains(m)
            ==> exists|i: int| 0 <= i < k && ms[i] == m,
{
    let f = is_candidate(before);
    let a = ms.take(k);
    let b1 = ms.skip(k + 1);
    let x = ms[k];
    assert(ms =~= a + (seq![x] + b1));
    Seq::filter_distributes_over_add(a, seq![x] + b1, f);
    Seq::filter_distributes_over_add(seq![x], b1, f);
    reveal_with_fuel(Seq::filter, 2);
    assert(f(x));
    assert(seq![x].filter(f) =~= seq![x]) by {
        assert(seq![x].drop_last() =~= Seq::<MessageView>::empty());
    }
    let c = ms.filter(f);
    let af = a.filter(f);
    assert(c == af + (seq![x] + b1.filter(f)));
    assert(c[af.len() as int] == x);
    lemma_first_bot_exists(c, af.len() as int);
    let k0 = first_bot(c)->0;
    assert(first_bot(c) is Some);
    assert(k0 <= af.len()) by {
        if k0 > af.len() {
            assert(!c[af.len() as int].author_bot);
        }
    }
    let r = collect_messages_spec(ms, before);
    assert(r == c.take(k0).reverse());
    assert forall|m: MessageView| r.contains(m) implies exists|i: int| 0 <= i < k && ms[i] == m by {
        let p = choose|p: int| 0 <= p < r.len() && r[p] == m;
        let q = k0 - 1 - p;
        assert(c[q] == m);
        assert(af[q] == m);
        assert(af.contains(m));
        a.lemma_filter_contains_rev(f, m);
        let i = choose|i: int| 0 <= i < a.len() && a[i] == m;
        assert(ms[i] == m);
    }
}

/// The footer in each setting: the deletion notice, which says "not" exactly when the
/// guild keeps the story's messages, whether or not the user is shown; then, unless
/// hidden, who ended the story.
pub proof fn lemma_footer_cases(hide_user: bool, retain_messages: bool, display_name: Seq<char>)
    ensures
        footer_spec(true, false, retain_messages, display_name)
            == "Story Messages will "@ + (if retain_messages { "not "@ } else { Seq::empty() }) + "be deleted"@,
        footer_spec(false, false, retain_messages, display_name)
            == footer_spec(true, false, retain_messages, display_name) + " | "@ + "ended by "@ + display_name,
        footer_spec(false, true, retain_messages, display_name) == "ended by "@ + display_name,
        footer_spec(true, true, retain_messages, display_name) == Seq::<char>::empty(),
{
    assert(footer_spec(true, false, retain_messages, display_name)
        =~= "Story Messages will "@ + (if retain_messages { "not "@ } else { Seq::empty() }) + "be deleted"@);
    assert(footer_spec(false, false, retain_messages, display_name)
        =~= footer_spec(true, false, retain_messages, display_name) + " | "@ + "ended by "@ + display_name);
    assert(footer_spec(false, true, retain_messages, display_name) =~= "ended by "@ + display_name);
}

/// The candidates of `ms` before index `i`, in the filtered history, all come from
/// earlier than `i` and satisfy the candidate test.
proof fn lemma_filtered_prefix(ms: Seq<MessageView>, before: i64, i: int)
    requires
        0 <= i <= ms.len(),
    ensures
        ms.filter(is_candidate(before)) =~= ms.take(i).filter(is_candidate(before))
            + ms.skip(i).filter(is_candidate(before)),
        forall|q: int| 0 <= q < ms.take(i).filter(is_candidate(before)).len() ==> {
            let m = #[trigger] ms.take(i).filter(is_candidate(before))[q];
            (m.timestamp < before && whitespace_count(m.content) < 2) && exists|j: int| 0 <= j < i && ms[j] == m
        },
{
    let f = is_candidate(before);
    let a = ms.take(i);
    assert(ms =~= a + ms.skip(i));
    Seq::filter_distributes_over_add(a, ms.skip(i), f);
    assert forall|q: int| 0 <= q < a.filter(f).len() implies {
        let m = #[trigger] a.filter(f)[q];
        (m.timestamp < before && whitespace_count(m.content) < 2) && exists|j: int| 0 <= j < i && ms[j] == m
    } by {
        let m = a.filter(f)[q];
        a.lemma_filter_pred(f, q);
        assert(a.filter(f).contains(m));
        a.lemma_filter_contains_rev(f, m);
        let j = choose|j: int| 0 <= j < a.len() && a[j] == m;
        assert(ms[j] == m);
    }
}

/// Every person's candidate message newer than any bot candidate is collected: the
/// story loses no word of its own.
pub proof fn lemma_story_keeps_its_messages(ms: Seq<MessageView>, before: i64, i: int)
    requires
        0 <= i < ms.len(),
        ms[i].timestamp < before,
        whitespace_count(ms[i].content) < 2,
        !ms[i].author_bot,
        forall|j: int| 0 <= j < i && (#[trigger] ms[j]).timestamp < before && whitespace_count(ms[j].content) < 2
            ==> !ms[j].author_bot,
    ensures
        collect_messages_spec(ms, before).contains(ms[i]),
{
    let f = is_candidate(before);
    lemma_filtered_prefix(ms, before, i);
    let af = ms.take(i).filter(f);
    let rest = ms.skip(i);
    assert(rest =~= seq![ms[i]] + rest.skip(1));
    Seq::filter_distributes_over_add(seq![ms[i]], rest.skip(1), f);
    reveal_with_fuel(Seq::filter, 2);
    assert(seq![ms[i]].filter(f) =~= seq![ms[i]]) by {
        assert(seq![ms[i]].drop_last() =~= Seq::<MessageView>::empty());
    }
    let c = ms.filter(f);
    assert(c =~= af + (seq![ms[i]] + rest.skip(1).filter(f)));
    let ai = af.len() as int;
    assert(c[ai] == ms[i]);
    assert forall|q: int| 0 <= q <= ai implies !(#[trigger] c[q]).author_bot by {
        if q < ai {
            assert(c[q] == af[q]);
            let m = af[q];
            let j = choose|j: int| 0 <= j < i && ms[j] == m;
            assert(ms[j].timestamp < before && whitespace_count(ms[j].content) < 2);
        }
    }
    match first_bot(c) {
        Some(k0) => {
            if exists|t: int| 0 <= t < c.len() && (#[trigger] c[t]).author_bot {
                let t = choose|t: int| 0 <= t < c.len() && (#[trigger] c[t]).author_bot;
                lemma_first_bot_exists(c, t);
            }
            assert(k0 > ai);
            let r = c.take(k0).reverse();
            assert(r[k0 - 1 - ai] == ms[i]);
        },
        None => {
            assert(c[ai] == ms[i]);
        },
    }
}

/// A candidate at the head of `ms.skip(i)` heads its filtered form too.
proof fn lemma_filter_from(ms: Seq<MessageView>, before: i64, i: int)
    requires
        0 <= i < ms.len(),
        is_candidate(before)(ms[i]),
    ensures
        ms.skip(i).filter(is_candidate(before)) =~= seq![ms[i]] + ms.skip(i + 1).filter(is_candidate(before)),
{
    let f = is_candidate(before);
    let rest = ms.skip(i);
    assert(rest =~= seq![ms[i]] + ms.skip(i + 1));
    Seq::filter_distributes_over_add(seq![ms[i]], ms.skip(i + 1), f);
    reveal_with_fuel(Seq::filter, 2);
    assert(seq![ms[i]].filter(f) =~= seq![ms[i]]) by {
        assert(seq![ms[i]].drop_last() =~= Seq::<MessageView>::empty());
    }
}

/// A bot's candidate in the history is a bot's message among the candidates.
proof fn lemma_bot_candidate_found(ms: Seq<MessageView>, before: i64, k: int)
    requires
        0 <= k < ms.len(),
        ms[k].author_bot,
        is_candidate(before)(ms[k]),
    ensures
        first_bot(ms.filter(is_candidate(before))) is Some,
{
    let f = is_candidate(before);
    let c = ms.filter(f);
    ms.lemma_filter_contains(f, k);
    let t = choose|t: int| 0 <= t < c.len() && c[t] == ms[k];
    lemma_first_bot_exists(c, t);
}

/// A bot's message among the candidates is a bot's candidate in the history.
proof fn lemma_bot_among_candidates(ms: Seq<MessageView>, before: i64)
    requires
        first_bot(ms.filter(is_candidate(before))) is Some,
    ensures
        exists|k: int| 0 <= k < ms.len() && (#[trigger] ms[k]).author_bot && ms[k].timestamp < before
            && whitespace_count(ms[k].content) < 2,
{
    let f = is_candidate(before);
    let c = ms.filter(f);
    let w = choose|w: int| 0 <= w < c.len() && (#[trigger] c[w]).author_bot;
    assert(c.contains(c[w]));
    ms.lemma_filter_contains_rev(f, c[w]);
    ms.lemma_filter_pred(f, w);
    let k = choose|k: int| 0 <= k < ms.len() && ms[k] == c[w];
    assert(ms[k].author_bot);
}

/// The order of the collected story, given that `ms[i]` is the newest candidate and a
/// person's: when a bot message closes the previous story, the story reads oldest first
/// and ends with `ms[i]`; when none does, the candidates stay newest first, `ms[i]` first.
pub proof fn lemma_story_order(ms: Seq<MessageView>, before: i64, i: int)
    requires
        0 <= i < ms.len(),
        ms[i].timestamp < before,
        whitespace_count(ms[i].content) < 2,
        !ms[i].author_bot,
        forall|j: int| 0 <= j < i ==> !((#[trigger] ms[j]).timestamp < before && whitespace_count(ms[j].content) < 2),
    ensures
        collect_messages_spec(ms, before).len() > 0,
        (exists|k: int| 0 <= k < ms.len() && (#[trigger] ms[k]).author_bot && ms[k].timestamp < before
            && whitespace_count(ms[k].content) < 2)
            ==> collect_messages_spec(ms, before).last() == ms[i],
        !(exists|k: int| 0 <= k < ms.len() && (#[trigger] ms[k]).author_bot && ms[k].timestamp < before
            && whitespace_count(ms[k].content) < 2)
            ==> collect_messages_spec(ms, before)[0] == ms[i],
{
    let f = is_candidate(before);
    lemma_filtered_prefix(ms, before, i);
    let af = ms.take(i).filter(f);
    if af.len() > 0 {
        let m = af[0];
        let j = choose|j: int| 0 <= j < i && ms[j] == m;
        assert(ms[j].timestamp < before && whitespace_count(ms[j].content) < 2);
    }
    lemma_filter_from(ms, before, i);
    let c = ms.filter(f);
    assert(c =~= seq![ms[i]] + ms.skip(i + 1).filter(f));
    assert(c[0] == ms[i]);
    if exists|k: int| 0 <= k < ms.len() && (#[trigger] ms[k]).author_bot && ms[k].timestamp < before
        && whitespace_count(ms[k].content) < 2 {
        let k = choose|k: int| 0 <= k < ms.len() && (#[trigger] ms[k]).author_bot && ms[k].timestamp < before
            && whitespace_count(ms[k].content) < 2;
        lemma_bot_candidate_found(ms, before, k);
        let k0 = first_bot(c)->0;
        if exists|t: int| 0 <= t < c.len() && (#[trigger] c[t]).author_bot {
            let t = choose|t: int| 0 <= t < c.len() && (#[trigger] c[t]).author_bot;
            lemma_first_bot_exists(c, t);
        }
        assert(k0 > 0);
        assert(collect_messages_spec(ms, before) == c.take(k0).reverse());
    } else {
        if first_bot(c) is Some {
            lemma_bot_among_candidates(ms, before);
        }
    }
}

/// A message ends a story exactly when a person sent it in a guild, it holds at most one
/// whitespace character, and its last character is `.`, `…`, `!` or `?`.
pub proof fn lemma_ends_story_cases(m: MessageView, in_guild: bool)
    ensures
        ends_story_spec(m, in_guild) <==> {
            &&& !m.author_bot
            &&& in_guild
            &&& whitespace_count(m.content) <= 1
            &&& m.content.len() > 0
            &&& {
                let c = m.content[m.content.len() - 1];
                c == '.' || c == '\u{2026}' || c == '!' || c == '?'
            }
        },
{
}

} // verus!
