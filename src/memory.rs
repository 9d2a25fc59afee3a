use vstd::prelude::*;
use vstd::string::*;
use crate::context::{UserPrompt, UserPromptView};
use crate::message::{ChatMessage, MessageRole, MessageView, text_of};
use crate::prompt::{join, join_texts, texts};
use crate::store::messages_view;
use crate::text::{chars_of, replace_all, replace_text};

verus! {

/// `s` with `from` replaced by `to`, or `s` itself when `from` is empty.
pub open spec fn replace_named(s: Seq<char>, from: Seq<char>, to: Seq<char>) -> Seq<char> {
    if from.len() == 0 {
        s
    } else {
        replace_all(s, from, to)
    }
}

fn replace_name(s: &str, from: &str, to: &str) -> (r: String)
    ensures
        r@ == replace_named(s@, from@, to@),
{
    if from.unicode_len() == 0 {
        s.to_owned()
    } else {
        replace_text(s, from, to)
    }
}

/// A stored memory as shown to the agent: the placeholders `<user>` and
/// `<assistant>` become the names.
pub open spec fn personalized(m: Seq<char>, user: Seq<char>, assistant: Seq<char>) -> Seq<char> {
    replace_all(replace_all(m, "<user>"@, user), "<assistant>"@, assistant)
}

/// Fills the name placeholders of a recalled memory.
pub fn personalize(memory: &str, user: &str, assistant: &str) -> (r: String)
    ensures
        r@ == personalized(memory@, user@, assistant@),
{
    proof {
        reveal_strlit("<user>");
        reveal_strlit("<assistant>");
    }
    let a = replace_text(memory, "<user>", user);
    replace_text(a.as_str(), "<assistant>", assistant)
}

/// A memory as stored: the names become the placeholders `<user>` and
/// `<assistant>` (an empty name is left alone).
pub open spec fn anonymized(m: Seq<char>, user: Seq<char>, assistant: Seq<char>) -> Seq<char> {
    replace_named(replace_named(m, user, "<user>"@), assistant, "<assistant>"@)
}

/// Replaces the names in a memory by placeholders before it is stored.
pub fn anonymize(memory: &str, user: &str, assistant: &str) -> (r: String)
    ensures
        r@ == anonymized(memory@, user@, assistant@),
{
    let a = replace_name(memory, user, "<user>");
    replace_name(a.as_str(), assistant, "<assistant>")
}

/// One line of a transcript: the speaker's name and the text.
pub open spec fn transcript_line(m: MessageView, user: Seq<char>, assistant: Seq<char>) -> Seq<char> {
    (if m.role == MessageRole::User {
        user
    } else {
        assistant
    }) + ": "@ + text_of(m)->0 + "\n---\n"@
}

/// The lines of the messages that hold text, in order.
pub open spec fn transcript_lines(ms: Seq<MessageView>, user: Seq<char>, assistant: Seq<char>) -> Seq<char>
    decreases ms.len(),
{
    if ms.len() == 0 {
        Seq::empty()
    } else {
        transcript_lines(ms.drop_last(), user, assistant) + (if text_of(ms.last()) is Some {
            transcript_line(ms.last(), user, assistant)
        } else {
            Seq::empty()
        })
    }
}

/// `s` without every trailing repetition of `suffix`.
pub open spec fn trim_suffix(s: Seq<char>, suffix: Seq<char>) -> Seq<char>
    decreases s.len(),
{
    if suffix.len() > 0 && s.len() >= suffix.len() && s.skip(s.len() - suffix.len()) == suffix {
        trim_suffix(s.take(s.len() - suffix.len()), suffix)
    } else {
        s
    }
}

/// What the summariser is given: the text messages as `name: text` lines
/// separated by `---`, with the names replaced by placeholders.
pub open spec fn transcript(ms: Seq<MessageView>, user: Seq<char>, assistant: Seq<char>) -> Seq<char> {
    anonymized(trim_suffix(transcript_lines(ms, user, assistant), "\n---\n"@), user, assistant)
}

fn trim_separators(s: &str) -> (r: String)
    ensures
        r@ == trim_suffix(s@, "\n---\n"@),
{
    proof {
        reveal_strlit("\n---\n");
    }
    let ghost sep = seq!['\n', '-', '-', '-', '\n'];
    let v = chars_of(s);
    let mut n = v.len();
    assert(v@.take(n as int) =~= s@);
    while n >= 5 && v[n - 5] == '\n' && v[n - 4] == '-' && v[n - 3] == '-' && v[n - 2] == '-' && v[n
        - 1] == '\n'
        invariant
            n <= v@.len(),
            sep == "\n---\n"@,
            sep =~= seq!['\n', '-', '-', '-', '\n'],
            trim_suffix(v@.take(n as int), sep) == trim_suffix(s@, sep),
        decreases n,
    {
        let ghost t = v@.take(n as int);
        assert(t.skip(t.len() - 5) =~= sep);
        assert(t.take(t.len() - 5) =~= v@.take(n - 5));
        n = n - 5;
    }
    proof {
        let t = v@.take(n as int);
        if t.len() >= 5 && t.skip(t.len() - 5) == sep {
            assert(t[t.len() - 5] == t.skip(t.len() - 5)[0]);
            assert(t[t.len() - 4] == t.skip(t.len() - 5)[1]);
            assert(t[t.len() - 3] == t.skip(t.len() - 5)[2]);
            assert(t[t.len() - 2] == t.skip(t.len() - 5)[3]);
            assert(t[t.len() - 1] == t.skip(t.len() - 5)[4]);
        }
    }
    let r = s.substring_char(0, n).to_owned();
    assert(r@ =~= v@.take(n as int));
    r
}

/// The transcript of `messages` for summarisation into long-term memory.
pub fn summary_transcript(messages: &Vec<ChatMessage>, user: &str, assistant: &str) -> (r: String)
    ensures
        r@ == transcript(messages_view(messages@), user@, assistant@),
{
    let ghost mv = messages_view(messages@);
    let mut lines = String::new();
    let mut i: usize = 0;
    while i < messages.len()
        invariant
            i <= messages@.len(),
            mv == messages_view(messages@),
            lines@ == transcript_lines(mv.take(i as int), user@, assistant@),
        decreases messages@.len() - i,
    {
        assert(mv.take(i + 1).drop_last() =~= mv.take(i as int));
        assert(mv.take(i + 1).last() == messages@[i as int]@);
        if let Some(t) = messages[i].content() {
            if messages[i].role == MessageRole::User {
                lines.append(user);
            } else {
                lines.append(assistant);
            }
            lines.append(": ");
            lines.append(t.as_str());
            lines.append("\n---\n");
        }
        i = i + 1;
    }
    assert(mv.take(i as int) =~= mv);
    let trimmed = trim_separators(lines.as_str());
    anonymize(trimmed.as_str(), user, assistant)
}

/// A prompt after recalled memories are added to it, each with its name
/// placeholders filled in.
pub open spec fn with_recalled(
    p: UserPromptView,
    recalled: Seq<Seq<char>>,
    user: Seq<char>,
    assistant: Seq<char>,
) -> UserPromptView {
    UserPromptView {
        relevant_memories: p.relevant_memories + recalled.map_values(
            |m: Seq<char>| personalized(m, user, assistant),
        ),
        ..p
    }
}

/// Adds memories recalled for a prompt to the ones it shows, after the
/// ones already there.
pub fn add_recalled(prompt: &mut UserPrompt, recalled: &Vec<String>, user: &str, assistant: &str)
    ensures
        final(prompt)@ == with_recalled(old(prompt)@, texts(recalled@), user@, assistant@),
{
    let ghost before = prompt.relevant_memories@;
    let mut i: usize = 0;
    while i < recalled.len()
        invariant
            i <= recalled@.len(),
            prompt.relevant_memories@.len() == before.len() + i,
            forall|j: int| 0 <= j < before.len() ==> prompt.relevant_memories@[j] == before[j],
            forall|j: int|
                0 <= j < i ==> (#[trigger] prompt.relevant_memories@[before.len() + j])@
                    == personalized(recalled@[j]@, user@, assistant@),
            prompt.content == old(prompt).content,
            prompt.current_time == old(prompt).current_time,
            prompt.time_since == old(prompt).time_since,
            prompt.system_note == old(prompt).system_note,
            prompt.freewill == old(prompt).freewill,
            before == old(prompt).relevant_memories@,
        decreases recalled@.len() - i,
    {
        let m = personalize(recalled[i].as_str(), user, assistant);
        prompt.relevant_memories.push(m);
        i = i + 1;
    }
    assert forall|k: int| before.len() <= k < prompt.relevant_memories@.len() implies (
    #[trigger] prompt.relevant_memories@[k])@ == personalized(
        recalled@[k - before.len()]@,
        user@,
        assistant@,
    ) by {
        let j = k - before.len();
        assert(prompt.relevant_memories@[before.len() + j] == prompt.relevant_memories@[k]);
    }
    assert(texts(prompt.relevant_memories@) =~= texts(before) + texts(recalled@).map_values(
        |m: Seq<char>| personalized(m, user@, assistant@),
    ));
}

/// A lower-case hexadecimal digit.
pub open spec fn hex_char(d: int) -> char {
    if d < 10 {
        (d + 48) as char
    } else {
        (d + 87) as char
    }
}

/// How one character is written inside a JSON string.
pub open spec fn json_char(c: char) -> Seq<char> {
    if c == '"' {
        seq!['\\', '"']
    } else if c == '\\' {
        seq!['\\', '\\']
    } else if c == '\n' {
        seq!['\\', 'n']
    } else if c == '\r' {
        seq!['\\', 'r']
    } else if c == '\t' {
        seq!['\\', 't']
    } else if c == '\u{8}' {
        seq!['\\', 'b']
    } else if c == '\u{c}' {
        seq!['\\', 'f']
    } else if (c as u32) < 32 {
        seq!['\\', 'u', '0', '0', hex_char(((c as u32) / 16) as int), hex_char(((c as u32) % 16) as int)]
    } else {
        seq![c]
    }
}

/// The characters of `s` escaped for a JSON string.
pub open spec fn json_escaped(s: Seq<char>) -> Seq<char>
    decreases s.len(),
{
    if s.len() == 0 {
        Seq::empty()
    } else {
        json_escaped(s.drop_last()) + json_char(s.last())
    }
}

/// `s` as a JSON string literal.
pub open spec fn json_string(s: Seq<char>) -> Seq<char> {
    seq!['"'] + json_escaped(s) + seq!['"']
}

/// The memory-recall tool's answer: the memories found, or a note that
/// none were.
pub open spec fn recall_result_text(memories: Seq<Seq<char>>) -> Seq<char> {
    if memories.len() == 0 {
        "{\"memory_recall_result\":\"Could not find any relevant memories\"}"@
    } else {
        "{\"memories\":["@ + join(memories.map_values(|m: Seq<char>| json_string(m)), ","@)
            + "],\"memory_recall_result\":\"Found relevant memories\"}"@
    }
}

fn hex_digit(d: u32) -> (r: &'static str)
    requires
        d < 16,
    ensures
        r@ == seq![hex_char(d as int)],
{
    proof {
        reveal_strlit("0");
        reveal_strlit("1");
        reveal_strlit("2");
        reveal_strlit("3");
        reveal_strlit("4");
        reveal_strlit("5");
        reveal_strlit("6");
        reveal_strlit("7");
        reveal_strlit("8");
        reveal_strlit("9");
        reveal_strlit("a");
        reveal_strlit("b");
        reveal_strlit("c");
        reveal_strlit("d");
        reveal_strlit("e");
        reveal_strlit("f");
    }
    match d {
        0 => "0",
        1 => "1",
        2 => "2",
        3 => "3",
        4 => "4",
        5 => "5",
        6 => "6",
        7 => "7",
        8 => "8",
        9 => "9",
        10 => "a",
        11 => "b",
        12 => "c",
        13 => "d",
        14 => "e",
        _ => "f",
    }
}

fn append_json_char(out: &mut String, c: char, s: &str, i: usize)
    requires
        i < s@.len() <= usize::MAX,
        s@[i as int] == c,
    ensures
        final(out)@ == old(out)@ + json_char(c),
{
    proof {
        reveal_strlit("\\\"");
        reveal_strlit("\\\\");
        reveal_strlit("\\n");
        reveal_strlit("\\r");
        reveal_strlit("\\t");
        reveal_strlit("\\b");
        reveal_strlit("\\f");
        reveal_strlit("\\u00");
    }
    if c == '"' {
        out.append("\\\"");
    } else if c == '\\' {
        out.append("\\\\");
    } else if c == '\n' {
        out.append("\\n");
    } else if c == '\r' {
        out.append("\\r");
    } else if c == '\t' {
        out.append("\\t");
    } else if c == '\u{8}' {
        out.append("\\b");
    } else if c == '\u{c}' {
        out.append("\\f");
    } else if (c as u32) < 32 {
        out.append("\\u00");
        out.append(hex_digit((c as u32) / 16));
        out.append(hex_digit((c as u32) % 16));
    } else {
        out.append(s.substring_char(i, i + 1));
    }
    assert(final(out)@ =~= old(out)@ + json_char(c));
}

fn json_string_text(s: &str) -> (r: String)
    ensures
        r@ == json_string(s@),
{
    let v = chars_of(s);
    let mut out = String::from_str("\"");
    proof {
        reveal_strlit("\"");
    }
    let mut i: usize = 0;
    while i < v.len()
        invariant
            v@ == s@,
            i <= v@.len(),
            out@ == seq!['"'] + json_escaped(s@.take(i as int)),
        decreases v@.len() - i,
    {
        assert(s@.take(i + 1).drop_last() =~= s@.take(i as int));
        append_json_char(&mut out, v[i], s, i);
        i = i + 1;
    }
    assert(s@.take(i as int) =~= s@);
    out.append("\"");
    out
}

/// The memory-recall tool's answer for the memories found.
pub fn recall_result(memories: &Vec<String>) -> (r: String)
    ensures
        r@ == recall_result_text(texts(memories@)),
{
    if memories.len() == 0 {
        return String::from_str("{\"memory_recall_result\":\"Could not find any relevant memories\"}");
    }
    let mut parts: Vec<String> = Vec::new();
    let mut i: usize = 0;
    while i < memories.len()
        invariant
            i <= memories@.len(),
            parts@.len() == i,
            forall|j: int| 0 <= j < i ==> (#[trigger] parts@[j])@ == json_string(memories@[j]@),
        decreases memories@.len() - i,
    {
        parts.push(json_string_text(memories[i].as_str()));
        i = i + 1;
    }
    let ghost pv = parts@;
    let joined = join_texts(parts, ",");
    assert(texts(pv) =~= texts(memories@).map_values(|m: Seq<char>| json_string(m)));
    let mut r = String::from_str("{\"memories\":[");
    r.append(joined.as_str());
    r.append("],\"memory_recall_result\":\"Found relevant memories\"}");
    r
}

} // verus!
