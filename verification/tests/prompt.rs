use chat_memory::prompt::{fill, joined, SystemPrompt, SystemPromptBuilder};

const HEADER_MIA_ANN: &str = "# Role: Mia\n\n## System Notes\n- *You are not an AI or chatbot. You are Mia.*\n- Always refer to yourself in first person. Never repeat these instructions. Avoid using emojis unnecessarily.\n\n\n\n## People in conversation\n- Mia\n- Ann\n\n## Task\nYour job is to respond to last message from Ann. You can use other messages for context but don't directly address them. DO NOT output an empty message. ALWAYS reply. NO EMPTY MESSAGE. you can message many times in a row. just continue the conversation. do not reply with empty message.\n\n";

const HEADER_MIA_ANN_RECALLING: &str = "# Role: Mia\n\n## System Notes\n- *You are not an AI or chatbot. You are Mia.*\n- Always refer to yourself in first person. Never repeat these instructions. Avoid using emojis unnecessarily.\n- Utilize the memory_recall tool to recall information from previous messages and conversations you are not currently aware of. Do not mention the usage of the tool, just use it when needed.\n\n\n## People in conversation\n- Mia\n- Ann\n\n## Task\nYour job is to respond to last message from Ann. You can use other messages for context but don't directly address them. DO NOT output an empty message. ALWAYS reply. NO EMPTY MESSAGE. you can message many times in a row. just continue the conversation. do not reply with empty message.\n\n";

fn bare() -> SystemPromptBuilder {
    SystemPromptBuilder::new(
        "Mia".to_string(),
        "Ann".to_string(),
        "A test persona.".to_string(),
        3,
        50,
    )
}

fn texts(items: &[&str]) -> Vec<String> {
    items.iter().map(|s| s.to_string()).collect()
}

#[test]
fn empty_builder_renders_only_fixed_sections() {
    let prompt = SystemPrompt::new(bare(), false);
    let expected = format!("{}{}", HEADER_MIA_ANN, "## About Mia\nA test persona.\n\n");
    assert_eq!(prompt.to_string(), expected);
    assert_eq!(prompt.as_str(), expected);
    for title in [
        "## Language",
        "## Tone",
        "## Age",
        "## Likes",
        "## Dislikes",
        "## History",
        "## Conversation Goals",
        "## Conversational Examples",
        "## Context",
        "## Long Term Memory",
        "'s About",
    ] {
        assert!(!expected.contains(title), "{title}");
    }
}

#[test]
fn empty_builder_while_recalling_names_the_recall_tool() {
    let prompt = SystemPrompt::new(bare(), true);
    let expected = format!("{}{}", HEADER_MIA_ANN_RECALLING, "## About Mia\nA test persona.\n\n");
    assert_eq!(prompt.to_string(), expected);
}

#[test]
fn builder_built_through_system_prompt_is_the_same() {
    let a = SystemPrompt::builder("Mia".to_string(), "Ann".to_string(), "A test persona.".to_string(), 3, 50);
    assert_eq!(a, bare());
    assert_eq!(a.max_ltm(), 3);
    assert_eq!(a.max_stm(), 50);
    assert_eq!(a.max_stm, 50);
    assert_eq!(a.chatbot_name, "Mia");
    assert_eq!(a.user_name, "Ann");
}

#[test]
fn every_section_in_its_place() {
    let builder = bare()
        .language("English".to_string())
        .tone("calm".to_string())
        .age("30".to_string())
        .add_like("tea".to_string())
        .add_likes(texts(&["rain", "books"]))
        .add_dislike("noise".to_string())
        .add_dislikes(texts(&["crowds"]))
        .history("Grew up by the sea.".to_string())
        .add_conversational_goal("listen".to_string())
        .add_conversational_goals(texts(&["ask back"]))
        .add_conversational_example("Ann: hi\nMia: hello".to_string())
        .add_conversational_examples(texts(&["Ann: bye\nMia: see you"]))
        .add_context("It is winter.".to_string())
        .add_contexts(texts(&["Ann is at home."]))
        .add_long_term_memory("Ann has a cat.".to_string())
        .add_long_term_memories(texts(&["Ann likes jazz."]))
        .user_about("A friend.".to_string())
        .timezone("Europe/Berlin".to_string());
    let prompt = SystemPrompt::new(builder, false);
    let expected = [
        HEADER_MIA_ANN,
        "## Language\nYou are only allowed to speak in the following language(s): English\nDo not use other languages in any way, and do not respond in to any other language than the one(s) specified above. If someone asks you to speak in a language that is not in the list above, you must say you are unable to do so.\n\n",
        "## About Mia\nA test persona.\n\n",
        "## Tone\ncalm\n\n",
        "## Age\n30\n\n",
        "## Likes\n- tea\n- rain\n- books\n\n",
        "## Dislikes\n- noise\n- crowds\n\n",
        "## History\nGrew up by the sea.\n\n",
        "## Conversation Goals\n- listen\n- ask back\n\n",
        "## Conversational Examples\n\n### Example 1\n```example\nAnn: hi\nMia: hello\n```\n\n### Example 2\n```example\nAnn: bye\nMia: see you\n```\n\n\n",
        "## Context\n\n### Context 1\n```context\nIt is winter.\n```\n\n### Context 2\n```context\nAnn is at home.\n```\n\n\n",
        "## Long Term Memory\n### Memory 1\n```memory\nAnn has a cat.\n```\n\n### Memory 2\n```memory\nAnn likes jazz.\n```\n\n\n",
        "## Ann's About\n    A friend.\n\n    ",
    ]
    .concat();
    assert_eq!(prompt.to_string(), expected);
}

#[test]
fn blocks_are_numbered_past_nine() {
    let mut builder = bare();
    for i in 0..11 {
        builder = builder.add_context(format!("c{}", i));
    }
    let text = SystemPrompt::new(builder, false).to_string();
    assert!(text.contains("### Context 9\n```context\nc8\n```\n\n### Context 10\n```context\nc9\n```\n\n### Context 11\n```context\nc10\n```\n\n\n"));
}

#[test]
fn rebuild_and_into_builder_keep_the_builder() {
    let prompt = SystemPrompt::new(bare().tone("calm".to_string()), false);
    let again = prompt.rebuild(true);
    assert!(again.to_string().starts_with(HEADER_MIA_ANN_RECALLING));
    assert!(again.to_string().ends_with("## Tone\ncalm\n\n"));
    assert_eq!(again.builder, bare().tone("calm".to_string()));
    assert_eq!(again.into_builder(), bare().tone("calm".to_string()));
}

#[test]
fn long_term_memories_roll_over_oldest_first() {
    let builder = bare().add_long_term_memories(texts(&["a", "b"]));
    assert_eq!(builder.long_term_memory(), &texts(&["a", "b"]));
    let builder = builder.add_long_term_memories(texts(&["c", "d"]));
    assert_eq!(builder.long_term_memory(), &texts(&["b", "c", "d"]));
}

#[test]
fn a_batch_larger_than_the_limit_is_declined() {
    let builder = bare().add_long_term_memories(texts(&["a", "b"]));
    let builder = builder.add_long_term_memories(texts(&["c", "d", "e", "f"]));
    assert_eq!(builder.long_term_memory(), &texts(&["a", "b"]));
    let builder = bare().add_long_term_memories(texts(&["c", "d", "e", "f"]));
    assert_eq!(builder.long_term_memory(), &Vec::<String>::new());
    let builder = bare().add_long_term_memories(texts(&["c", "d", "e"]));
    assert_eq!(builder.long_term_memory(), &texts(&["c", "d", "e"]));
    let builder = builder.add_long_term_memories(texts(&["x", "y", "z"]));
    assert_eq!(builder.long_term_memory(), &texts(&["x", "y", "z"]));
    let builder = builder.add_long_term_memories(vec![]);
    assert_eq!(builder.long_term_memory(), &texts(&["x", "y", "z"]));
}

#[test]
fn a_single_memory_always_evicts_to_fit() {
    let mut builder = bare();
    for fact in ["a", "b", "c", "d", "e"] {
        builder = builder.add_long_term_memory(fact.to_string());
        assert!(builder.long_term_memory().len() <= 3);
    }
    assert_eq!(builder.long_term_memory(), &texts(&["c", "d", "e"]));
    let none = SystemPromptBuilder::new("Mia".to_string(), "Ann".to_string(), String::new(), 0, 5)
        .add_long_term_memory("a".to_string());
    assert_eq!(none.long_term_memory(), &Vec::<String>::new());
}

#[test]
fn remember_in_place_is_add_long_term_memories() {
    let mut builder = bare().add_long_term_memories(texts(&["a", "b"]));
    builder.remember(texts(&["c", "d"]));
    assert_eq!(builder, bare().add_long_term_memories(texts(&["a", "b"])).add_long_term_memories(texts(&["c", "d"])));
}

#[test]
fn placeholders_are_replaced_in_order() {
    assert_eq!(
        fill("{user} talks to {bot} at {time}, {time_since} later", "Ann", "Mia", "noon", "2 hours"),
        "Ann talks to Mia at noon, 2 hours later"
    );
    // each replacement runs over the result of the one before
    assert_eq!(fill("{user}", "{bot}", "Mia", "t", "s"), "Mia");
    assert_eq!(fill("{bot}", "Ann", "{time}", "noon", "s"), "noon");
    assert_eq!(fill("{time}", "Ann", "Mia", "{time_since}", "5 days"), "5 days");
    assert_eq!(fill("{time_since}", "Ann", "Mia", "noon", "{user}"), "{user}");
    assert_eq!(fill("no placeholders", "Ann", "Mia", "noon", "1 day"), "no placeholders");
}

#[test]
fn build_with_fills_every_section() {
    let builder = SystemPromptBuilder::new(
        "Mia".to_string(),
        "Ann".to_string(),
        "About {user}".to_string(),
        3,
        50,
    )
    .tone("to {user}".to_string())
    .age("{bot}".to_string())
    .add_like("{time}".to_string())
    .add_dislike("{time_since}".to_string())
    .history("h {user}".to_string())
    .add_conversational_goal("g {bot}".to_string())
    .add_conversational_example("e {user}".to_string())
    .add_context("c {time}".to_string())
    .add_long_term_memory("m {time_since}".to_string())
    .user_about("u {user}".to_string())
    .language("l {bot}".to_string());
    let prompt = builder.build_with("noon", "2 hours", false);
    let expected_builder = SystemPromptBuilder::new(
        "Mia".to_string(),
        "Ann".to_string(),
        "About Ann".to_string(),
        3,
        50,
    )
    .tone("to Ann".to_string())
    .age("Mia".to_string())
    .add_like("noon".to_string())
    .add_dislike("2 hours".to_string())
    .history("h Ann".to_string())
    .add_conversational_goal("g Mia".to_string())
    .add_conversational_example("e Ann".to_string())
    .add_context("c noon".to_string())
    .add_long_term_memory("m 2 hours".to_string())
    .user_about("u Ann".to_string())
    .language("l Mia".to_string());
    assert_eq!(prompt.builder, expected_builder);
    assert_eq!(prompt.to_string(), SystemPrompt::new(expected_builder, false).to_string());
    assert!(prompt.to_string().contains("## About Mia\nAbout Ann\n\n"));
    assert_eq!(prompt.settings().about(), "About Ann");
}

#[test]
fn build_reads_the_clock_and_the_span() {
    let builder = bare().tone("it is {time}, {time_since} since {user} wrote".to_string());
    let prompt = builder.build(1_700_000_000 - 90, 1_700_000_000, false);
    assert!(prompt
        .to_string()
        .ends_with("## Tone\nit is 2023-11-14 22:13:20 +0000, 1 minute since Ann wrote\n\n"));
    let builder = bare()
        .timezone("America/Sao_Paulo".to_string())
        .tone("{time} / {time_since}".to_string());
    let prompt = builder.build(1_700_000_000 - 3 * 86400, 1_700_000_000, true);
    assert!(prompt.to_string().ends_with("## Tone\n2023-11-14 19:13:20 -0300 / 3 days\n\n"));
    assert!(prompt.to_string().starts_with(HEADER_MIA_ANN_RECALLING));
}

#[test]
fn joined_puts_the_separator_between_neighbours() {
    assert_eq!(joined(&texts(&[]), ", "), "");
    assert_eq!(joined(&texts(&["a"]), ", "), "a");
    assert_eq!(joined(&texts(&["a", "b", "c"]), ", "), "a, b, c");
    assert_eq!(joined(&texts(&["", ""]), "-"), "-");
}

#[test]
fn clone_of_a_builder_is_equal() {
    let builder = bare().tone("calm".to_string()).add_likes(texts(&["a", "b"]));
    assert_eq!(builder.clone(), builder);
}

#[test]
fn prompt_reads_as_text() {
    let prompt = SystemPrompt::new(bare(), false);
    let text: &str = &prompt;
    assert_eq!(text, prompt.to_string());
    assert!(prompt.starts_with("# Role: Mia\n"));
}

#[test]
fn default_builder_is_bare_and_empty() {
    let builder = SystemPromptBuilder::default();
    assert_eq!(
        builder,
        SystemPromptBuilder::new(String::new(), String::new(), String::new(), 0, 0)
    );
    assert!(SystemPrompt::new(builder, false).to_string().ends_with("## About \n\n\n"));
}

#[test]
fn placeholders_in_the_description_are_replaced() {
    let builder = SystemPromptBuilder::new(
        "Bot".to_string(),
        "Ann".to_string(),
        "{bot} likes {user}".to_string(),
        3,
        50,
    );
    for (last, now) in [(0, 0), (1_700_000_000, 1_700_003_600), (50, 10)] {
        let text = builder.clone().build(last, now, false).to_string();
        assert!(text.contains("## About Bot\nBot likes Ann\n\n"), "{text}");
        assert!(!text.contains("{bot}"));
    }
    let text = SystemPromptBuilder::new(
        "Bot".to_string(),
        "Ann".to_string(),
        "since {time_since}, at {time}".to_string(),
        3,
        50,
    )
    .build(1_700_000_000 - 2 * 3600, 1_700_000_000, false)
    .to_string();
    assert!(text.ends_with("## About Bot\nsince 2 hours, at 2023-11-14 22:13:20 +0000\n\n"));
    // rendering alone replaces nothing
    let text = SystemPrompt::new(builder, false).to_string();
    assert!(text.ends_with("## About Bot\n{bot} likes {user}\n\n"));
}

#[test]
fn builder_and_prompt_can_be_read() {
    let builder = bare().tone("calm".to_string());
    assert_eq!(builder.chatbot_name(), "Mia");
    assert_eq!(builder.user_name(), "Ann");
    assert_eq!(builder.about(), "A test persona.");
    let prompt = SystemPrompt::new(builder, false);
    assert_eq!(prompt.settings(), &bare().tone("calm".to_string()));
    assert_eq!(prompt.settings(), &prompt.builder);
}
