use vstd::prelude::*;
use vstd::string::*;
use crate::template::TemplateVariables;
use crate::text::{decimal, duration_phrase, int_text, time_to_string};

verus! {

/// The persona and memory that the system preamble is rendered from.
/// Placeholders in the optional texts are filled in when it is built.
#[derive(Debug)]
pub struct SystemPromptBuilder {
    pub chatbot_name: String,
    pub user_name: String,
    pub about: String,
    pub max_ltm: usize,
    pub tone: Option<String>,
    pub age: Option<String>,
    pub likes: Option<Vec<String>>,
    pub dislikes: Option<Vec<String>>,
    pub history: Option<String>,
    pub conversation_goals: Option<Vec<String>>,
    pub conversational_examples: Option<Vec<String>>,
    pub context: Option<Vec<String>>,
    pub long_term_memory: Option<Vec<String>>,
    pub user_about: Option<String>,
    /// IANA name of the zone the current time is shown in; UTC when absent.
    pub timezone: Option<String>,
    pub language: Option<String>,
}

pub open spec fn opt_text(o: Option<String>) -> Option<Seq<char>> {
    match o {
        Some(s) => Some(s@),
        None => None,
    }
}

pub open spec fn texts(v: Seq<String>) -> Seq<Seq<char>> {
    v.map_values(|s: String| s@)
}

pub open spec fn opt_texts(o: Option<Vec<String>>) -> Option<Seq<Seq<char>>> {
    match o {
        Some(v) => Some(texts(v@)),
        None => None,
    }
}

pub ghost struct PromptView {
    pub chatbot_name: Seq<char>,
    pub user_name: Seq<char>,
    pub about: Seq<char>,
    pub max_ltm: nat,
    pub tone: Option<Seq<char>>,
    pub age: Option<Seq<char>>,
    pub likes: Option<Seq<Seq<char>>>,
    pub dislikes: Option<Seq<Seq<char>>>,
    pub history: Option<Seq<char>>,
    pub conversation_goals: Option<Seq<Seq<char>>>,
    pub conversational_examples: Option<Seq<Seq<char>>>,
    pub context: Option<Seq<Seq<char>>>,
    pub long_term_memory: Option<Seq<Seq<char>>>,
    pub user_about: Option<Seq<char>>,
    pub timezone: Option<Seq<char>>,
    pub language: Option<Seq<char>>,
}

impl View for SystemPromptBuilder {
    type V = PromptView;

    open spec fn view(&self) -> PromptView {
        PromptView {
            chatbot_name: self.chatbot_name@,
            user_name: self.user_name@,
            about: self.about@,
            max_ltm: self.max_ltm as nat,
            tone: opt_text(self.tone),
            age: opt_text(self.age),
            likes: opt_texts(self.likes),
            dislikes: opt_texts(self.dislikes),
            history: opt_text(self.history),
            conversation_goals: opt_texts(self.conversation_goals),
            conversational_examples: opt_texts(self.conversational_examples),
            context: opt_texts(self.context),
            long_term_memory: opt_texts(self.long_term_memory),
            user_about: opt_text(self.user_about),
            timezone: opt_text(self.timezone),
            language: opt_text(self.language),
        }
    }
}

/// `xs` joined with `sep` between neighbours.
pub open spec fn join(xs: Seq<Seq<char>>, sep: Seq<char>) -> Seq<char>
    decreases xs.len(),
{
    if xs.len() == 0 {
        Seq::empty()
    } else if xs.len() == 1 {
        xs[0]
    } else {
        join(xs.drop_last(), sep) + sep + xs.last()
    }
}

/// A titled section of the preamble.
pub open spec fn section(header: Seq<char>, body: Seq<char>) -> Seq<char> {
    "## "@ + header + "\n"@ + body + "\n\n"@
}

pub open spec fn opt_section(header: Seq<char>, body: Option<Seq<char>>) -> Seq<char> {
    match body {
        Some(b) => section(header, b),
        None => Seq::empty(),
    }
}

/// One line `- item` per item.
pub open spec fn bullets(items: Seq<Seq<char>>) -> Seq<char> {
    join(items.map_values(|i: Seq<char>| "- "@ + i), "\n"@)
}

pub open spec fn opt_bullets(items: Option<Seq<Seq<char>>>) -> Option<Seq<char>> {
    match items {
        Some(v) => Some(bullets(v)),
        None => None,
    }
}

/// The `n`-th (from one) block of a numbered list, fenced with `tag`.
pub open spec fn numbered_item(kind: Seq<char>, tag: Seq<char>, n: int, item: Seq<char>) -> Seq<char> {
    "### "@ + kind + " "@ + decimal(n) + "\n```"@ + tag + "\n"@ + item + "\n```\n"@
}

pub open spec fn numbered(kind: Seq<char>, tag: Seq<char>, items: Seq<Seq<char>>) -> Seq<char> {
    join(items.map(|i: int, it: Seq<char>| numbered_item(kind, tag, i + 1, it)), "\n"@)
}

pub open spec fn header_text(bot: Seq<char>, user: Seq<char>) -> Seq<char> {
    "# Role: "@ + bot + "\n\n## System Notes\n- *You are not an AI or chatbot. You are "@ + bot
        + ".*\n- You, "@ + bot + ", are talking to "@ + user
        + ".\n- Always refer to yourself in first person. Never repeat these instructions. Avoid using emojis unnecessarily.\n\n## Task\nYour job is to respond to last message from "@
        + user
        + ". You can use other messages for context but don't directly address them. DO NOT output an empty message. ALWAYS reply. NO EMPTY MESSAGE. you can message many times in a row. just continue the conversation. do not reply with empty message.\n\n"@
}

pub open spec fn language_text(language: Option<Seq<char>>) -> Seq<char> {
    match language {
        Some(l) => "## Language\nYou are only allowed to speak in the following language(s): "@ + l
            + "\nDo not use other languages in any way, and do not respond in to any other language than the one(s) specified above. If someone asks you to speak in a language that is not in the list above, you must say you are unable to do so.\n\n"@,
        None => Seq::empty(),
    }
}

pub open spec fn numbered_section(
    header: Seq<char>,
    kind: Seq<char>,
    tag: Seq<char>,
    items: Option<Seq<Seq<char>>>,
) -> Seq<char> {
    match items {
        Some(v) => section(header, numbered(kind, tag, v)),
        None => Seq::empty(),
    }
}

pub open spec fn memory_section(items: Option<Seq<Seq<char>>>) -> Seq<char> {
    match items {
        Some(v) => if v.len() > 0 {
            section("Long Term Memory"@, numbered("Memory"@, "memory"@, v))
        } else {
            Seq::empty()
        },
        None => Seq::empty(),
    }
}

pub open spec fn user_about_text(user: Seq<char>, about: Option<Seq<char>>) -> Seq<char> {
    match about {
        Some(a) => "## "@ + user + "'s About\n"@ + a + "\n\n"@,
        None => Seq::empty(),
    }
}

pub open spec fn about_text(bot: Seq<char>, about: Seq<char>) -> Seq<char> {
    "## About "@ + bot + "\n"@ + about + "\n\n"@
}

/// The system preamble, section by section.
pub open spec fn render(b: PromptView) -> Seq<char> {
    header_text(b.chatbot_name, b.user_name) + language_text(b.language) + about_text(
        b.chatbot_name,
        b.about,
    ) + opt_section("Tone"@, b.tone) + opt_section("Age"@, b.age) + opt_section(
        "Likes"@,
        opt_bullets(b.likes),
    ) + opt_section("Dislikes"@, opt_bullets(b.dislikes)) + opt_section("History"@, b.history)
        + opt_section("Conversation Goals"@, opt_bullets(b.conversation_goals)) + numbered_section(
        "Conversational Examples"@,
        "Example"@,
        "example"@,
        b.conversational_examples,
    ) + numbered_section("Context"@, "Context"@, "context"@, b.context) + memory_section(
        b.long_term_memory,
    ) + user_about_text(b.user_name, b.user_about)
}

pub open spec fn sub_opt(
    o: Option<Seq<char>>,
    user: Seq<char>,
    bot: Seq<char>,
    time: Seq<char>,
    since: Seq<char>,
) -> Option<Seq<char>> {
    match o {
        Some(s) => Some(crate::template::substituted(s, user, bot, time, since)),
        None => None,
    }
}

pub open spec fn sub_opts(
    o: Option<Seq<Seq<char>>>,
    user: Seq<char>,
    bot: Seq<char>,
    time: Seq<char>,
    since: Seq<char>,
) -> Option<Seq<Seq<char>>> {
    match o {
        Some(v) => Some(v.map_values(|s: Seq<char>| crate::template::substituted(s, user, bot, time, since))),
        None => None,
    }
}

/// The builder with placeholders filled in: the names and the about text
/// stay as written.
pub open spec fn filled(b: PromptView, time: Seq<char>, since: Seq<char>) -> PromptView {
    let (u, n) = (b.user_name, b.chatbot_name);
    PromptView {
        tone: sub_opt(b.tone, u, n, time, since),
        age: sub_opt(b.age, u, n, time, since),
        likes: sub_opts(b.likes, u, n, time, since),
        dislikes: sub_opts(b.dislikes, u, n, time, since),
        history: sub_opt(b.history, u, n, time, since),
        conversation_goals: sub_opts(b.conversation_goals, u, n, time, since),
        conversational_examples: sub_opts(b.conversational_examples, u, n, time, since),
        context: sub_opts(b.context, u, n, time, since),
        long_term_memory: sub_opts(b.long_term_memory, u, n, time, since),
        user_about: sub_opt(b.user_about, u, n, time, since),
        language: sub_opt(b.language, u, n, time, since),
        ..b
    }
}

/// The rendered system preamble.
#[derive(Debug)]
pub struct SystemPrompt {
    inner: String,
}

impl View for SystemPrompt {
    type V = Seq<char>;

    closed spec fn view(&self) -> Seq<char> {
        self.inner@
    }
}

pub(crate) fn join_texts(pieces: Vec<String>, sep: &str) -> (r: String)
    ensures
        r@ == join(texts(pieces@), sep@),
{
    let mut r = String::new();
    let mut i: usize = 0;
    while i < pieces.len()
        invariant
            i <= pieces@.len(),
            r@ == join(texts(pieces@.take(i as int)), sep@),
        decreases pieces@.len() - i,
    {
        proof {
            assert(texts(pieces@.take(i + 1)).drop_last() =~= texts(pieces@.take(i as int)));
            assert(texts(pieces@.take(i + 1)).last() == pieces@[i as int]@);
            assert(i == 0 ==> texts(pieces@.take(i + 1)) =~= seq![pieces@[i as int]@]);
        }
        if i > 0 {
            r.append(sep);
        }
        r.append(pieces[i].as_str());
        i = i + 1;
    }
    assert(pieces@.take(i as int) =~= pieces@);
    r
}

impl SystemPrompt {
    /// Appends `## header`, the body and a blank line, when there is a body.
    fn append_section(prompt: &mut String, header: &str, content: Option<String>)
        ensures
            final(prompt)@ == old(prompt)@ + opt_section(header@, opt_text(content)),
    {
        if let Some(text) = content {
            prompt.append("## ");
            prompt.append(header);
            prompt.append("\n");
            prompt.append(text.as_str());
            prompt.append("\n\n");
            assert(final(prompt)@ =~= old(prompt)@ + opt_section(header@, opt_text(Some(text))));
        }
    }

    /// One line `- item` per item.
    fn bullet_list(items: Option<Vec<String>>) -> (r: Option<String>)
        ensures
            opt_text(r) == opt_bullets(opt_texts(items)),
    {
        match items {
            Some(v) => {
                let mut lines: Vec<String> = Vec::new();
                let mut i: usize = 0;
                while i < v.len()
                    invariant
                        i <= v@.len(),
                        lines@.len() == i,
                        forall|j: int| 0 <= j < i ==> (#[trigger] lines@[j])@ == "- "@ + v@[j]@,
                    decreases v@.len() - i,
                {
                    let mut line = String::from_str("- ");
                    line.append(v[i].as_str());
                    lines.push(line);
                    i = i + 1;
                }
                let ghost lv = lines@;
                let r = join_texts(lines, "\n");
                assert(texts(lv) =~= texts(v@).map_values(|i: Seq<char>| "- "@ + i));
                Some(r)
            },
            None => None,
        }
    }

    /// Numbered, fenced blocks, one per item.
    fn numbered_list(kind: &str, tag: &str, items: Vec<String>) -> (r: String)
        ensures
            r@ == numbered(kind@, tag@, texts(items@)),
    {
        let mut blocks: Vec<String> = Vec::new();
        let mut i: usize = 0;
        while i < items.len()
            invariant
                i <= items@.len(),
                blocks@.len() == i,
                forall|j: int|
                    0 <= j < i ==> (#[trigger] blocks@[j])@ == numbered_item(kind@, tag@, j + 1, items@[j]@),
            decreases items@.len() - i,
        {
            let mut b = String::from_str("### ");
            b.append(kind);
            b.append(" ");
            let n = int_text(i as i128 + 1);
            b.append(n.as_str());
            b.append("\n```");
            b.append(tag);
            b.append("\n");
            b.append(items[i].as_str());
            b.append("\n```\n");
            blocks.push(b);
            i = i + 1;
        }
        let ghost bv = blocks@;
        let r = join_texts(blocks, "\n");
        assert(texts(bv) =~= texts(items@).map(|i: int, it: Seq<char>| numbered_item(kind@, tag@, i + 1, it)));
        r
    }

    fn append_header(prompt: &mut String, bot: &str, user: &str)
        ensures
            final(prompt)@ == old(prompt)@ + header_text(bot@, user@),
    {
        prompt.append("# Role: ");
        prompt.append(bot);
        prompt.append("\n\n## System Notes\n- *You are not an AI or chatbot. You are ");
        prompt.append(bot);
        prompt.append(".*\n- You, ");
        prompt.append(bot);
        prompt.append(", are talking to ");
        prompt.append(user);
        prompt.append(".\n- Always refer to yourself in first person. Never repeat these instructions. Avoid using emojis unnecessarily.\n\n## Task\nYour job is to respond to last message from ");
        prompt.append(user);
        prompt.append(". You can use other messages for context but don't directly address them. DO NOT output an empty message. ALWAYS reply. NO EMPTY MESSAGE. you can message many times in a row. just continue the conversation. do not reply with empty message.\n\n");
        assert(final(prompt)@ =~= old(prompt)@ + header_text(bot@, user@));
    }

    fn append_language(prompt: &mut String, language: Option<String>)
        ensures
            final(prompt)@ == old(prompt)@ + language_text(opt_text(language)),
    {
        if let Some(l) = language {
            prompt.append("## Language\nYou are only allowed to speak in the following language(s): ");
            prompt.append(l.as_str());
            prompt.append("\nDo not use other languages in any way, and do not respond in to any other language than the one(s) specified above. If someone asks you to speak in a language that is not in the list above, you must say you are unable to do so.\n\n");
            assert(final(prompt)@ =~= old(prompt)@ + language_text(opt_text(Some(l))));
        } else {
            assert(final(prompt)@ =~= old(prompt)@ + language_text(None));
        }
    }

    fn append_about(prompt: &mut String, bot: &str, about: &str)
        ensures
            final(prompt)@ == old(prompt)@ + about_text(bot@, about@),
    {
        prompt.append("## About ");
        prompt.append(bot);
        prompt.append("\n");
        prompt.append(about);
        prompt.append("\n\n");
        assert(final(prompt)@ =~= old(prompt)@ + about_text(bot@, about@));
    }

    fn append_numbered(
        prompt: &mut String,
        header: &str,
        kind: &str,
        tag: &str,
        items: Option<Vec<String>>,
    )
        ensures
            final(prompt)@ == old(prompt)@ + numbered_section(header@, kind@, tag@, opt_texts(items)),
    {
        if let Some(v) = items {
            let formatted = Self::numbered_list(kind, tag, v);
            Self::append_section(prompt, header, Some(formatted));
        } else {
            assert(final(prompt)@ =~= old(prompt)@ + numbered_section(header@, kind@, tag@, None));
        }
    }

    fn append_memories(prompt: &mut String, ltm: Option<Vec<String>>)
        ensures
            final(prompt)@ == old(prompt)@ + memory_section(opt_texts(ltm)),
    {
        proof {
            reveal_strlit("Long Term Memory");
            reveal_strlit("Memory");
            reveal_strlit("memory");
        }
        match ltm {
            Some(v) => {
                if v.len() > 0 {
                    let formatted = Self::numbered_list("Memory", "memory", v);
                    Self::append_section(prompt, "Long Term Memory", Some(formatted));
                } else {
                    assert(final(prompt)@ =~= old(prompt)@ + memory_section(opt_texts(Some(v))));
                }
            },
            None => {
                assert(final(prompt)@ =~= old(prompt)@ + memory_section(None));
            },
        }
    }

    fn append_user_about(prompt: &mut String, user: &str, about: Option<String>)
        ensures
            final(prompt)@ == old(prompt)@ + user_about_text(user@, opt_text(about)),
    {
        if let Some(a) = about {
            prompt.append("## ");
            prompt.append(user);
            prompt.append("'s About\n");
            prompt.append(a.as_str());
            prompt.append("\n\n");
            assert(final(prompt)@ =~= old(prompt)@ + user_about_text(user@, opt_text(Some(a))));
        } else {
            assert(final(prompt)@ =~= old(prompt)@ + user_about_text(user@, None));
        }
    }

    /// Renders the preamble from a builder whose placeholders are filled in.
    pub fn new(builder: SystemPromptBuilder) -> (r: Self)
        ensures
            r@ == render(builder@),
    {
        let ghost b = builder@;
        let SystemPromptBuilder {
            chatbot_name,
            user_name,
            about,
            tone,
            age,
            likes,
            dislikes,
            history,
            conversation_goals,
            conversational_examples,
            context,
            long_term_memory,
            user_about,
            language,
            ..
        } = builder;
        let mut prompt = String::new();
        Self::append_header(&mut prompt, chatbot_name.as_str(), user_name.as_str());
        Self::append_language(&mut prompt, language);
        Self::append_about(&mut prompt, chatbot_name.as_str(), about.as_str());
        Self::append_section(&mut prompt, "Tone", tone);
        Self::append_section(&mut prompt, "Age", age);
        Self::append_section(&mut prompt, "Likes", Self::bullet_list(likes));
        Self::append_section(&mut prompt, "Dislikes", Self::bullet_list(dislikes));
        Self::append_section(&mut prompt, "History", history);
        Self::append_section(&mut prompt, "Conversation Goals", Self::bullet_list(conversation_goals));
        Self::append_numbered(&mut prompt, "Conversational Examples", "Example", "example", conversational_examples);
        Self::append_numbered(&mut prompt, "Context", "Context", "context", context);
        Self::append_memories(&mut prompt, long_term_memory);
        Self::append_user_about(&mut prompt, user_name.as_str(), user_about);
        assert(Seq::<char>::empty() + header_text(b.chatbot_name, b.user_name) == header_text(b.chatbot_name, b.user_name));
        let r = SystemPrompt { inner: prompt };
        r
    }

    /// The preamble's text.
    pub fn to_string(&self) -> (r: String)
        ensures
            r@ == self@,
    {
        self.inner.clone()
    }
}

/// The memories after adding `new` to a rolling window of `max_ltm`: the
/// oldest give way first.
pub open spec fn with_memories(b: PromptView, new: Seq<Seq<char>>) -> PromptView {
    match b.long_term_memory {
        Some(m) => {
            let total = m.len() + new.len();
            let k = if total > b.max_ltm {
                total - b.max_ltm
            } else {
                0
            };
            PromptView { long_term_memory: Some(m.skip(k) + new), ..b }
        },
        None => PromptView { long_term_memory: Some(new), ..b },
    }
}

/// The memories after adding one, in a rolling window of `max_ltm`.
pub open spec fn with_memory(b: PromptView, new: Seq<char>) -> PromptView {
    match b.long_term_memory {
        Some(m) => PromptView {
            long_term_memory: Some(
                (if m.len() + 1 > b.max_ltm {
                    m.skip(1)
                } else {
                    m
                }).push(new),
            ),
            ..b
        },
        None => PromptView { long_term_memory: Some(seq![new]), ..b },
    }
}

fn copy_texts(v: &Vec<String>) -> (r: Vec<String>)
    ensures
        texts(r@) == texts(v@),
{
    let mut r: Vec<String> = Vec::new();
    let mut i: usize = 0;
    while i < v.len()
        invariant
            i <= v@.len(),
            r@.len() == i,
            forall|j: int| 0 <= j < i ==> (#[trigger] r@[j])@ == v@[j]@,
        decreases v@.len() - i,
    {
        r.push(v[i].clone());
        i = i + 1;
    }
    assert(texts(r@) =~= texts(v@));
    r
}

fn copy_opt_text(o: &Option<String>) -> (r: Option<String>)
    ensures
        opt_text(r) == opt_text(*o),
{
    match o {
        Some(s) => Some(s.clone()),
        None => None,
    }
}

fn copy_opt_texts(o: &Option<Vec<String>>) -> (r: Option<Vec<String>>)
    ensures
        opt_texts(r) == opt_texts(*o),
{
    match o {
        Some(v) => Some(copy_texts(v)),
        None => None,
    }
}

fn fill_text(vars: &TemplateVariables, o: &Option<String>) -> (r: Option<String>)
    ensures
        opt_text(r) == sub_opt(opt_text(*o), vars.user(), vars.bot(), vars.time(), vars.time_since()),
{
    match o {
        Some(s) => vars.substitute_optional_template(Some(s.as_str())),
        None => None,
    }
}

fn fill_texts(vars: &TemplateVariables, o: &Option<Vec<String>>) -> (r: Option<Vec<String>>)
    ensures
        opt_texts(r) == sub_opts(opt_texts(*o), vars.user(), vars.bot(), vars.time(), vars.time_since()),
{
    match o {
        Some(v) => {
            let r = vars.substitute_optional_templates(Some(v.as_slice()));
            proof {
                let u = r.unwrap();
                assert(texts(u@) =~= texts(v@).map_values(
                    |s: Seq<char>|
                        crate::template::substituted(
                            s,
                            vars.user(),
                            vars.bot(),
                            vars.time(),
                            vars.time_since(),
                        ),
                ));
            }
            r
        },
        None => None,
    }
}

impl SystemPromptBuilder {
    /// A copy with the same view.
    pub fn duplicate(&self) -> (r: Self)
        ensures
            r@ == self@,
    {
        SystemPromptBuilder {
            chatbot_name: self.chatbot_name.clone(),
            user_name: self.user_name.clone(),
            about: self.about.clone(),
            max_ltm: self.max_ltm,
            tone: copy_opt_text(&self.tone),
            age: copy_opt_text(&self.age),
            likes: copy_opt_texts(&self.likes),
            dislikes: copy_opt_texts(&self.dislikes),
            history: copy_opt_text(&self.history),
            conversation_goals: copy_opt_texts(&self.conversation_goals),
            conversational_examples: copy_opt_texts(&self.conversational_examples),
            context: copy_opt_texts(&self.context),
            long_term_memory: copy_opt_texts(&self.long_term_memory),
            user_about: copy_opt_text(&self.user_about),
            timezone: copy_opt_text(&self.timezone),
            language: copy_opt_text(&self.language),
        }
    }

    /// Fills in the placeholders, with `current_time` for `{time}` and the
    /// rendered `time_since_last` (seconds) for `{time_since}`, and renders
    /// the preamble.
    pub fn build(self, current_time: &str, time_since_last: i64) -> (r: SystemPrompt)
        ensures
            r@ == render(filled(self@, current_time@, duration_phrase(time_since_last as int))),
    {
        let ghost b = self@;
        let since = time_to_string(time_since_last);
        let vars = TemplateVariables::new(
            self.user_name.as_str(),
            self.chatbot_name.as_str(),
            current_time,
            since.as_str(),
        );
        let tone = fill_text(&vars, &self.tone);
        let age = fill_text(&vars, &self.age);
        let likes = fill_texts(&vars, &self.likes);
        let dislikes = fill_texts(&vars, &self.dislikes);
        let history = fill_text(&vars, &self.history);
        let conversation_goals = fill_texts(&vars, &self.conversation_goals);
        let conversational_examples = fill_texts(&vars, &self.conversational_examples);
        let context = fill_texts(&vars, &self.context);
        let long_term_memory = fill_texts(&vars, &self.long_term_memory);
        let user_about = fill_text(&vars, &self.user_about);
        let language = fill_text(&vars, &self.language);
        let filled_builder = SystemPromptBuilder {
            chatbot_name: self.chatbot_name,
            user_name: self.user_name,
            about: self.about,
            max_ltm: self.max_ltm,
            tone,
            age,
            likes,
            dislikes,
            history,
            conversation_goals,
            conversational_examples,
            context,
            long_term_memory,
            user_about,
            timezone: self.timezone,
            language,
        };
        assert(filled_builder@ == filled(b, current_time@, duration_phrase(time_since_last as int)));
        SystemPrompt::new(filled_builder)
    }

    /// Adds memories to the rolling window, dropping the oldest beyond
    /// `max_ltm`.
    pub fn add_long_term_memories(&mut self, new_memories: Vec<String>)
        requires
            old(self).long_term_memory matches Some(m) ==> (m@.len() + new_memories@.len()
                <= old(self).max_ltm || new_memories@.len() <= old(self).max_ltm),
            old(self).long_term_memory matches Some(m) ==> m@.len() + new_memories@.len() <= usize::MAX,
        ensures
            final(self)@ == with_memories(old(self)@, texts(new_memories@)),
    {
        let mut new_memories = new_memories;
        let ghost nv = texts(new_memories@);
        match &mut self.long_term_memory {
            Some(memories) => {
                let ghost mv = memories@;
                let new_total = memories.len() + new_memories.len();
                let k = if new_total > self.max_ltm {
                    new_total - self.max_ltm
                } else {
                    0
                };
                let mut rest = memories.split_off(k);
                rest.append(&mut new_memories);
                *memories = rest;
                assert(texts(memories@) =~= texts(mv).skip(k as int) + nv);
            },
            None => {
                self.long_term_memory = Some(new_memories);
            },
        }
    }

    /// Adds one memory to the rolling window, dropping the oldest beyond
    /// `max_ltm`.
    pub fn add_long_term_memory(self, new_memory: String) -> (r: Self)
        requires
            self.long_term_memory matches Some(m) ==> m@.len() + 1 > self.max_ltm ==> m@.len() > 0,
        ensures
            r@ == with_memory(self@, new_memory@),
    {
        let mut this = self;
        let ghost nv = new_memory@;
        let ltm = this.long_term_memory.take();
        assert(opt_texts(ltm) == self@.long_term_memory);
        match ltm {
            Some(mut memories) => {
                let ghost mv = memories@;
                assert(self@.long_term_memory == Some(texts(mv)));
                if memories.len() >= this.max_ltm {
                    memories.remove(0);
                }
                memories.push(new_memory);
                assert(texts(memories@) =~= texts(
                    if mv.len() + 1 > self.max_ltm {
                        mv.skip(1)
                    } else {
                        mv
                    },
                ).push(nv));
                this.long_term_memory = Some(memories);
                assert(this@.long_term_memory == with_memory(self@, nv).long_term_memory);
                assert(this@.tone == self@.tone);
                assert(this@.max_ltm == self@.max_ltm);
                assert(this@ == with_memory(self@, nv));
            },
            None => {
                let v = vec![new_memory];
                assert(texts(v@) =~= seq![nv]);
                this.long_term_memory = Some(v);
                assert(this@ == with_memory(self@, nv));
            },
        }
        this
    }
}

} // verus!
