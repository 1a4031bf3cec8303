//! The chat of a session as lines of text.

use crate::heatmap_analyser::ChatMessage;
use crate::protocol::ChatMessageKind;
use crate::text::decimal_two_digits;
use crate::text::two_digits;
use vstd::prelude::*;

verus! {

/// The mark that a line of chat bears for the channel it was sent on. What is no line of
/// chat has none.
pub open spec fn channel_mark(kind: ChatMessageKind) -> Option<Seq<char>> {
    match kind {
        ChatMessageKind::ChatAll => Some(""@),
        ChatMessageKind::ChatTeam => Some("(TEAM) "@),
        ChatMessageKind::ChatAllDead => Some("*DEAD* "@),
        ChatMessageKind::ChatTeamDead => Some("*DEAD*(TEAM) "@),
        ChatMessageKind::ChatAllSpec => Some("*SPEC* "@),
        ChatMessageKind::NameChange => None,
        ChatMessageKind::Empty => None,
    }
}

/// The line of text for a line of chat that was sent `total_seconds` seconds into the
/// session: the time in minutes and seconds, the mark of the channel, the sender and the
/// text.
pub open spec fn spec_format_chat_message(
    kind: ChatMessageKind,
    from: Seq<char>,
    text: Seq<char>,
    total_seconds: u32,
) -> Option<Seq<char>> {
    match channel_mark(kind) {
        Some(mark) => Some(
            "["@ + two_digits((total_seconds / 60) as nat) + ":"@ + two_digits(
                (total_seconds % 60) as nat,
            ) + "] "@ + mark + from + ": "@ + text,
        ),
        None => None,
    }
}

/// The mark that a line of chat bears for the channel it was sent on.
fn mark_of(kind: ChatMessageKind) -> (mark: Option<&'static str>)
    ensures
        match mark {
            Some(m) => channel_mark(kind) == Some(m@),
            None => channel_mark(kind) is None,
        },
{
    match kind {
        ChatMessageKind::ChatAll => Some(""),
        ChatMessageKind::ChatTeam => Some("(TEAM) "),
        ChatMessageKind::ChatAllDead => Some("*DEAD* "),
        ChatMessageKind::ChatTeamDead => Some("*DEAD*(TEAM) "),
        ChatMessageKind::ChatAllSpec => Some("*SPEC* "),
        ChatMessageKind::NameChange => None,
        ChatMessageKind::Empty => None,
    }
}

/// The line of text for `message`, sent `total_seconds` seconds into the session.
pub fn format_chat_message(message: &ChatMessage, total_seconds: u32) -> (line: Option<String>)
    ensures
        match line {
            Some(l) => spec_format_chat_message(
                message.kind,
                message.from@,
                message.text@,
                total_seconds,
            ) == Some(l@),
            None => spec_format_chat_message(
                message.kind,
                message.from@,
                message.text@,
                total_seconds,
            ) is None,
        },
{
    let mark = match mark_of(message.kind) {
        Some(mark) => mark,
        None => {
            return None;
        },
    };
    let minutes = decimal_two_digits((total_seconds / 60) as u64);
    let seconds = decimal_two_digits((total_seconds % 60) as u64);
    let mut line = "[".to_owned();
    line.append(minutes.as_str());
    line.append(":");
    line.append(seconds.as_str());
    line.append("] ");
    line.append(mark);
    line.append(message.from.as_str());
    line.append(": ");
    line.append(message.text.as_str());
    Some(line)
}

/// The lines of text for the lines of chat among `chat`, in order. `seconds` gives for each
/// message how many seconds into the session it was sent.
pub open spec fn spec_format_chat_messages(chat: Seq<ChatMessage>, seconds: Seq<u32>) -> Seq<
    Seq<char>,
>
    decreases chat.len(),
{
    if chat.len() == 0 {
        Seq::<Seq<char>>::empty()
    } else {
        let before = spec_format_chat_messages(chat.drop_last(), seconds);
        match spec_format_chat_message(
            chat.last().kind,
            chat.last().from@,
            chat.last().text@,
            seconds[chat.len() - 1],
        ) {
            Some(line) => before.push(line),
            None => before,
        }
    }
}

/// The lines of text for the lines of chat among `chat`, in order.
pub fn format_chat_messages(chat: &Vec<ChatMessage>, seconds: &Vec<u32>) -> (lines: Vec<String>)
    requires
        seconds@.len() == chat@.len(),
    ensures
        lines@.map_values(|line: String| line@) == spec_format_chat_messages(chat@, seconds@),
{
    let mut lines: Vec<String> = Vec::new();
    let mut i: usize = 0;
    assert(lines@.map_values(|line: String| line@) =~= Seq::<Seq<char>>::empty());
    while i < chat.len()
        invariant
            i <= chat.len(),
            seconds@.len() == chat@.len(),
            lines@.map_values(|line: String| line@) == spec_format_chat_messages(
                chat@.take(i as int),
                seconds@,
            ),
        decreases chat.len() - i,
    {
        proof {
            assert(chat@.take(i + 1).drop_last() =~= chat@.take(i as int));
        }
        let ghost before = lines@.map_values(|line: String| line@);
        match format_chat_message(&chat[i], seconds[i]) {
            Some(line) => {
                lines.push(line);
                assert(lines@.map_values(|line: String| line@) =~= before.push(line@));
            },
            None => {},
        }
        i += 1;
    }
    proof {
        assert(chat@.take(i as int) =~= chat@);
    }
    lines
}

} // verus!
