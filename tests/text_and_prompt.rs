use branchmind::prompt::{SystemPrompt, SystemPromptBuilder};
use branchmind::settings::{KeyChoice, Provider};
use branchmind::template::TemplateVariables;
use branchmind::text::{chunk_string, time_to_string, CHUNK_CHARS};

fn builder() -> SystemPromptBuilder {
    SystemPromptBuilder {
        chatbot_name: "Ava".to_string(),
        user_name: "Sam".to_string(),
        about: "About text.".to_string(),
        max_ltm: 2,
        tone: None,
        age: None,
        likes: None,
        dislikes: None,
        history: None,
        conversation_goals: None,
        conversational_examples: None,
        context: None,
        long_term_memory: None,
        user_about: None,
        timezone: None,
        language: None,
    }
}

#[test]
fn durations_in_words() {
    assert_eq!(time_to_string(0), "0 seconds");
    assert_eq!(time_to_string(1), "1 second");
    assert_eq!(time_to_string(59), "59 seconds");
    assert_eq!(time_to_string(60), "1 minute");
    assert_eq!(time_to_string(3599), "59 minutes");
    assert_eq!(time_to_string(3600), "1 hour");
    assert_eq!(time_to_string(86399), "23 hours");
    assert_eq!(time_to_string(86400), "1 day");
    assert_eq!(time_to_string(3 * 86400 + 5), "3 days");
    assert_eq!(time_to_string(-5), "0 days");
    assert_eq!(time_to_string(-86400), "-1 days");
}

#[test]
fn template_substitution() {
    let v = TemplateVariables::new("Sam", "Ava", "noon", "2 hours");
    assert_eq!(v.substitute_template("{bot} greets {user} at {time}; {time_since} passed; {user}"), "Ava greets Sam at noon; 2 hours passed; Sam");
    assert_eq!(v.substitute_template("no placeholders"), "no placeholders");
    assert_eq!(v.substitute_optional_template(None), None);
    assert_eq!(v.substitute_optional_template(Some("{bot}")), Some("Ava".to_string()));
    let list = vec!["{user}".to_string(), "x{bot}y".to_string()];
    assert_eq!(v.substitute_templates(&list), vec!["Sam".to_string(), "xAvay".to_string()]);
    assert_eq!(v.substitute_optional_templates(Some(&list[..1])), Some(vec!["Sam".to_string()]));
    assert_eq!(v.substitute_optional_templates(None), None);
}

#[test]
fn minimal_preamble() {
    let p = SystemPrompt::new(builder()).to_string();
    assert!(p.starts_with("# Role: Ava\n\n## System Notes\n- *You are not an AI or chatbot. You are Ava.*\n- You, Ava, are talking to Sam."));
    assert!(p.ends_with("## About Ava\nAbout text.\n\n"));
    assert!(!p.contains("## Language"));
}

#[test]
fn preamble_sections() {
    let mut b = builder();
    b.language = Some("English".to_string());
    b.tone = Some("calm".to_string());
    b.likes = Some(vec!["tea".to_string(), "cats".to_string()]);
    b.conversational_examples = Some(vec!["hi".to_string(), "bye".to_string()]);
    b.long_term_memory = Some(vec![]);
    b.user_about = Some("a reader".to_string());
    let p = SystemPrompt::new(b).to_string();
    assert!(p.contains("## Language\nYou are only allowed to speak in the following language(s): English\n"));
    assert!(p.contains("## Tone\ncalm\n\n## Likes\n- tea\n- cats\n\n"));
    assert!(p.contains("## Conversational Examples\n### Example 1\n```example\nhi\n```\n\n### Example 2\n```example\nbye\n```\n\n\n"));
    assert!(!p.contains("Long Term Memory"));
    assert!(p.ends_with("## Sam's About\na reader\n\n"));
}

#[test]
fn build_fills_placeholders() {
    let mut b = builder();
    b.history = Some("{bot} met {user} {time_since} ago at {time}".to_string());
    b.about = "{user}".to_string();
    let p = b.build("T0", 120).to_string();
    assert!(p.contains("## History\nAva met Sam 2 minutes ago at T0\n\n"));
    assert!(p.contains("## About Ava\n{user}\n\n"));
}

#[test]
fn memory_window_rolls() {
    let mut b = builder();
    b.add_long_term_memories(vec!["a".to_string()]);
    b.add_long_term_memories(vec!["b".to_string(), "c".to_string()]);
    assert_eq!(b.long_term_memory, Some(vec!["b".to_string(), "c".to_string()]));
    let b = b.add_long_term_memory("d".to_string());
    assert_eq!(b.long_term_memory, Some(vec!["c".to_string(), "d".to_string()]));
    let p = SystemPrompt::new(b).to_string();
    assert!(p.contains("## Long Term Memory\n### Memory 1\n```memory\nc\n```\n\n### Memory 2\n```memory\nd\n```\n\n\n"));
}

#[test]
fn short_text_is_one_chunk() {
    assert_eq!(chunk_string("hello"), vec!["hello".to_string()]);
    assert!(chunk_string("").is_empty());
}

#[test]
fn long_text_splits_after_newline_then_period_then_space() {
    let first = format!("{}\n", "a".repeat(1500));
    let s = format!("{}{}", first, "b".repeat(1000));
    assert_eq!(chunk_string(&s), vec![first.clone(), "b".repeat(1000)]);
    let first = format!("{}.", "a".repeat(1999));
    let s = format!("{} tail", first);
    assert_eq!(chunk_string(&s), vec![first, " tail".to_string()]);
    let first = format!("{} ", "a".repeat(100));
    let s = format!("{}{}", first, "c".repeat(2500));
    let r = chunk_string(&s);
    assert_eq!(r[0], first);
    assert_eq!(r[1], "c".repeat(CHUNK_CHARS));
    assert_eq!(r[2], "c".repeat(500));
}

#[test]
fn unbroken_text_splits_at_limit() {
    let s = "z".repeat(4001);
    let r = chunk_string(&s);
    assert_eq!(r.len(), 3);
    assert_eq!(r[0].len(), 2000);
    assert_eq!(r[2], "z");
}

#[test]
fn provider_names_round_trip() {
    let all = [
        Provider::Anthropic,
        Provider::Azure,
        Provider::Cohere,
        Provider::Deepseek,
        Provider::Galadriel,
        Provider::Gemini,
        Provider::Groq,
        Provider::Hyperbolic,
        Provider::Moonshot,
        Provider::OpenAI,
        Provider::Perplexity,
        Provider::Xai,
    ];
    for p in all {
        assert_eq!(Provider::from_name(&p.name()), Some(p));
    }
    assert_eq!(Provider::from_name("openai-compatible"), Some(Provider::OpenAI));
    assert_eq!(Provider::from_name("openai-api"), Some(Provider::OpenAI));
    assert_eq!(Provider::from_name("OpenAI"), None);
    assert_eq!(Provider::default(), Provider::OpenAI);
}

#[test]
fn setting_labels() {
    assert_eq!(KeyChoice::ApiKey.label(), "API Key");
    assert_eq!(KeyChoice::SimilarityThreshold.label(), "Memory Similarity Threshold");
    assert_eq!(KeyChoice::QdrantHttps.label(), "Use HTTPs for QDrant");
}
