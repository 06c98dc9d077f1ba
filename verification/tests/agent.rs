use chat_memory::agent::{
    follow_up, replace_matches, restore_names, take_prompt, FollowUp, MAX_TOOL_ROUNDS, spoken, summary_of, summary_request, tidy, CompletionAgent,
    CompletionAgentSettings, CompletionError, CompletionResult, ModelReply, SummarizationError,
    Tool, ToolCall, ToolResult, TurnAction, TurnEvent, TurnState, UserPrompt, REASONING_PROTOCOL,
    SUMMARY_PREAMBLE, TOOL_USAGE,
};
use chat_memory::message::{ChatMessage, Role};

fn agent(use_tools: Option<bool>, reason: Option<bool>, lowercase: Option<bool>) -> CompletionAgent {
    CompletionAgent::new(
        CompletionAgentSettings::new("Ann".to_string(), "Mia".to_string()),
        use_tools,
        reason,
        lowercase,
    )
}

fn prompt(content: Option<&str>) -> UserPrompt {
    UserPrompt {
        content: content.map(|c| c.to_string()),
        time_since_last_message: None,
        relevant_memories: vec![],
        system_note: None,
    }
}

fn call(name: &str) -> ToolCall {
    ToolCall { id: "call-1".to_string(), name: name.to_string(), arguments: "{\"query\":\"cats\"}".to_string() }
}

#[test]
fn settings_keep_the_names() {
    let settings = CompletionAgentSettings::new("Ann".to_string(), "Mia".to_string());
    assert_eq!(settings.user_name(), "Ann");
    assert_eq!(settings.assistant_name(), "Mia");
}

#[test]
fn recall_on_an_empty_query_asks_for_nothing() {
    let agent = agent(None, None, None);
    assert_eq!(agent.recall_query(&prompt(None)), None);
    assert_eq!(agent.recall_query(&prompt(Some(""))), None);
    assert_eq!(agent.recall_query(&prompt(Some("cats"))), Some("cats".to_string()));
    // the turn goes straight to the model, and no memory joins the prompt
    for content in [None, Some("")] {
        let mut user_prompt = prompt(content);
        let (state, action) = agent.completion(TurnState::Idle, TurnEvent::Started, &mut user_prompt, "SYSTEM");
        assert_eq!(state, TurnState::Asking);
        assert!(matches!(action, TurnAction::Ask { .. }));
        assert_eq!(user_prompt, prompt(content));
    }
}

#[test]
fn recalled_memories_get_the_names_back() {
    let agent = agent(None, None, None);
    let mut user_prompt = prompt(Some("cats"));
    user_prompt.relevant_memories.push("earlier".to_string());
    agent.rag_recall(
        &mut user_prompt,
        vec!["<user> has a cat; <assistant> likes it".to_string(), "<user><user>".to_string()],
    );
    assert_eq!(
        user_prompt.relevant_memories,
        vec!["earlier".to_string(), "Ann has a cat; Mia likes it".to_string(), "AnnAnn".to_string()]
    );
    assert_eq!(user_prompt.content, Some("cats".to_string()));
    assert_eq!(restore_names("<assistant> and <user>", "Ann", "Mia"), "Mia and Ann");
}

#[test]
fn preamble_follows_the_settings() {
    assert_eq!(agent(None, None, None).preamble("P"), format!("P{}", TOOL_USAGE));
    assert_eq!(agent(Some(false), None, None).preamble("P"), "P");
    assert_eq!(agent(Some(false), Some(true), None).preamble("P"), format!("P{}", REASONING_PROTOCOL));
    assert_eq!(
        agent(Some(true), Some(true), None).preamble("P"),
        format!("P{}{}", TOOL_USAGE, REASONING_PROTOCOL)
    );
    assert!(TOOL_USAGE.starts_with("\n## Tool Usage\n- Actively try to utilize the memory_store tool"));
    assert!(TOOL_USAGE.ends_with("choose not to recall it again.\n\n"));
    assert!(REASONING_PROTOCOL.starts_with("\n## Reasoning Protocol\n\nThe user will always send you a prompt in JSON format"));
    assert!(SUMMARY_PREAMBLE.starts_with("# Summarization Assistant\n"));
    assert!(agent(None, None, None).offers_tools());
    assert!(!agent(None, None, None).asks_for_reasoning());
}

#[test]
fn replies_are_tidied() {
    assert_eq!(tidy("<think>plan\nmore</think>\n\nHello  there"), Ok("Hello there".to_string()));
    assert_eq!(tidy("a   \n\nb"), Ok("a\n\nb".to_string()));
    assert_eq!(tidy("a <think>x</think>b <think>y</think>\nc"), Ok("a b c".to_string()));
    assert_eq!(tidy("nothing to do"), Ok("nothing to do".to_string()));
    assert_eq!(tidy("<think>never closed"), Ok("<think>never closed".to_string()));
    assert_eq!(tidy(""), Ok(String::new()));
}

#[test]
fn replies_are_put_in_lowercase_only_where_asked() {
    assert_eq!(agent(None, None, Some(true)).clean_reply("HeLLo  <think>X</think>World"), Ok("hello world".to_string()));
    assert_eq!(agent(None, None, Some(false)).clean_reply("HeLLo  World"), Ok("HeLLo World".to_string()));
    assert_eq!(agent(None, None, None).clean_reply("\u{c4}B"), Ok("\u{c4}B".to_string()));
    assert_eq!(agent(None, None, Some(true)).clean_reply("\u{c4}B"), Ok("\u{e4}b".to_string()));
}

#[test]
fn what_a_message_says_is_read_from_its_json_form() {
    assert_eq!(spoken("{\"content\":\"hi there\",\"system_note\":\"note\"}"), "hi there");
    assert_eq!(spoken("{\"system_note\":\"note\"}"), "note");
    assert_eq!(spoken("{\"content\":5,\"system_note\":\"note\"}"), "note");
    assert_eq!(spoken("{\"content\":null}"), "{\"content\":null}");
    assert_eq!(spoken("plain text"), "plain text");
    assert_eq!(spoken("[\"content\"]"), "[\"content\"]");
    assert_eq!(spoken("{\"content\":\"line\\nbreak \\\"quoted\\\"\"}"), "line\nbreak \"quoted\"");
}

#[test]
fn tool_results_are_written_as_json() {
    let result: ToolResult = ("memory_recall".to_string(), "found \"it\"\n".to_string()).into();
    assert_eq!(result, ToolResult("memory_recall".to_string(), "found \"it\"\n".to_string()));
    assert_eq!(result.to_json(), "{\"name\":\"memory_recall\",\"result\":\"found \\\"it\\\"\\n\"}");
    assert_eq!(ToolResult::from((String::new(), String::new())).to_json(), "{\"name\":\"\",\"result\":\"\"}");
}

#[test]
fn tools_go_by_their_names() {
    assert_eq!(Tool::named("memory_recall"), Some(Tool::MemoryRecall));
    assert_eq!(Tool::named("memory_store"), Some(Tool::MemoryStore));
    assert_eq!(Tool::named("memory"), None);
    assert_eq!(Tool::named(""), None);
    assert_eq!(Tool::MemoryRecall.name(), "memory_recall");
    assert_eq!(Tool::MemoryStore.name(), "memory_store");
}

#[test]
fn summary_request_hides_the_names() {
    let history = vec![
        ChatMessage::new(Role::User, "I live in Toronto".to_string(), 1),
        ChatMessage::new(Role::System, "ignored".to_string(), 2),
        ChatMessage::new(Role::Assistant, "{\"content\":\"Nice, Ann! Mia likes it too\"}".to_string(), 3),
        ChatMessage::new(Role::User, "{\"system_note\":\"Ann left\"}".to_string(), 4),
    ];
    let expected = "<user>: I live in Toronto\n---\n<assistant>: Nice, <user>! <assistant> likes it too\n---\n<user>: <user> left";
    assert_eq!(summary_request(&history, "Ann", "Mia"), expected);
    assert_eq!(agent(None, None, None).summarize(&history, "Ann", "Mia"), expected);
    assert_eq!(summary_request(&vec![], "Ann", "Mia"), "");
    // every rule at the end leaves, also one that a message brought
    let history = vec![ChatMessage::new(Role::User, "done\n---\n".to_string(), 1)];
    assert_eq!(summary_request(&history, "Ann", "Mia"), "<user>: done");
}

#[test]
fn a_reply_without_text_cannot_be_summarised() {
    assert_eq!(summary_of(ModelReply::Text("- likes tea".to_string())), Ok("- likes tea".to_string()));
    assert_eq!(summary_of(ModelReply::Text(String::new())), Ok(String::new()));
    assert_eq!(summary_of(ModelReply::ToolCall(call("memory_store"))), Err(SummarizationError::InvalidResponse));
    assert_eq!(
        agent(None, None, None).store(ModelReply::ToolCall(call("memory_store"))),
        Err(SummarizationError::InvalidResponse)
    );
    assert_eq!(agent(None, None, None).store(ModelReply::Text("s".to_string())), Ok("s".to_string()));
}

#[test]
fn a_turn_with_recall_and_a_text_reply() {
    let agent = agent(None, Some(true), Some(true));
    let mut user_prompt = prompt(Some("tell me about cats"));
    let (state, action) = agent.completion(TurnState::Idle, TurnEvent::Started, &mut user_prompt, "SYSTEM");
    assert_eq!(state, TurnState::Recalling);
    assert_eq!(action, TurnAction::Recall { query: "tell me about cats".to_string(), limit: 5 });
    let (state, action) = agent.completion(
        state,
        TurnEvent::Recalled(vec!["<user> has a cat".to_string()]),
        &mut user_prompt,
        "SYSTEM",
    );
    assert_eq!(state, TurnState::Asking);
    assert_eq!(
        action,
        TurnAction::Ask {
            preamble: format!("SYSTEM{}{}", TOOL_USAGE, REASONING_PROTOCOL),
            with_tools: true,
            reasoning: true
        }
    );
    assert_eq!(user_prompt.relevant_memories, vec!["Ann has a cat".to_string()]);
    let (state, action) = agent.completion(
        state,
        TurnEvent::Replied(ModelReply::Text("<think>hm</think>\nCats  are GREAT".to_string())),
        &mut user_prompt,
        "SYSTEM",
    );
    assert_eq!(state, TurnState::Finished);
    assert_eq!(action, TurnAction::Deliver(CompletionResult::Message("cats are great".to_string())));
}

#[test]
fn a_failed_recall_injects_nothing() {
    let agent = agent(Some(false), None, None);
    let mut user_prompt = prompt(Some("cats"));
    let (state, _) = agent.completion(TurnState::Idle, TurnEvent::Started, &mut user_prompt, "S");
    let (state, action) = agent.completion(state, TurnEvent::RecallFailed, &mut user_prompt, "S");
    assert_eq!(state, TurnState::Asking);
    assert_eq!(action, TurnAction::Ask { preamble: "S".to_string(), with_tools: false, reasoning: false });
    assert_eq!(user_prompt, prompt(Some("cats")));
}

#[test]
fn a_turn_with_a_tool_call() {
    let agent = agent(None, None, None);
    let mut user_prompt = prompt(None);
    let (state, action) = agent.completion(
        TurnState::Asking,
        TurnEvent::Replied(ModelReply::ToolCall(call("memory_recall"))),
        &mut user_prompt,
        "S",
    );
    assert_eq!(state, TurnState::RunningTool(call("memory_recall")));
    assert_eq!(
        action,
        TurnAction::RunTool { tool: Tool::MemoryRecall, arguments: "{\"query\":\"cats\"}".to_string() }
    );
    let (state, action) =
        agent.completion(state, TurnEvent::ToolReturned("Ann has a cat".to_string()), &mut user_prompt, "S");
    assert_eq!(state, TurnState::Finished);
    assert_eq!(
        action,
        TurnAction::Deliver(CompletionResult::Tool((
            call("memory_recall"),
            ToolResult("memory_recall".to_string(), "Ann has a cat".to_string())
        )))
    );
}

#[test]
fn an_unknown_tool_fails_the_turn() {
    let agent = agent(None, None, None);
    let mut user_prompt = prompt(None);
    let (state, action) = agent.completion(
        TurnState::Asking,
        TurnEvent::Replied(ModelReply::ToolCall(call("web_search"))),
        &mut user_prompt,
        "S",
    );
    assert_eq!(state, TurnState::Finished);
    assert_eq!(action, TurnAction::Fail(CompletionError::ToolNotFound("web_search".to_string())));
}

#[test]
fn an_event_out_of_turn_fails_the_turn() {
    let agent = agent(None, None, None);
    let mut user_prompt = prompt(Some("cats"));
    let cases = vec![
        (TurnState::Idle, TurnEvent::RecallFailed),
        (TurnState::Idle, TurnEvent::Replied(ModelReply::Text("x".to_string()))),
        (TurnState::Recalling, TurnEvent::Started),
        (TurnState::Asking, TurnEvent::ToolReturned("x".to_string())),
        (TurnState::RunningTool(call("memory_store")), TurnEvent::Recalled(vec![])),
        (TurnState::Finished, TurnEvent::Started),
    ];
    for (state, event) in cases {
        let (state, action) = agent.completion(state, event, &mut user_prompt, "S");
        assert_eq!(state, TurnState::Finished);
        assert_eq!(action, TurnAction::Fail(CompletionError::OutOfTurn));
        assert_eq!(user_prompt, prompt(Some("cats")));
    }
}

#[test]
fn a_pattern_that_does_not_compile_is_an_error() {
    assert_eq!(replace_matches("(", "text", ""), Err(CompletionError::Pattern));
    assert_eq!(replace_matches("a+", "caaandy", "o"), Ok("condy".to_string()));
    assert_eq!(replace_matches("(a)(b)", "xaby", "$2$1"), Ok("xbay".to_string()));
}

#[test]
fn a_message_ends_the_rounds() {
    let mut user_prompt = prompt(Some("cats"));
    let mut context = vec![ChatMessage::new(Role::User, "earlier".to_string(), 1)];
    for round in [0, 3, 100] {
        assert_eq!(
            follow_up(CompletionResult::Message("hello".to_string()), round, &mut user_prompt, &mut context, 50),
            Ok(FollowUp::Reply("hello".to_string()))
        );
    }
    assert_eq!(user_prompt, prompt(Some("cats")));
    assert_eq!(context, vec![ChatMessage::new(Role::User, "earlier".to_string(), 1)]);
}

#[test]
fn a_tool_result_is_handed_to_the_next_turn() {
    let mut user_prompt = prompt(Some("cats"));
    user_prompt.relevant_memories.push("m".to_string());
    let mut context = vec![ChatMessage::new(Role::User, "earlier".to_string(), 1)];
    let result = CompletionResult::Tool((
        call("memory_recall"),
        ToolResult("memory_recall".to_string(), "Ann has a cat".to_string()),
    ));
    assert_eq!(follow_up(result, 0, &mut user_prompt, &mut context, 50), Ok(FollowUp::AskAgain));
    assert_eq!(
        context,
        vec![
            ChatMessage::new(Role::User, "earlier".to_string(), 1),
            ChatMessage::new(
                Role::Assistant,
                "called memory_recall with {\"query\":\"cats\"}".to_string(),
                50
            ),
        ]
    );
    assert_eq!(
        user_prompt.system_note,
        Some("{\"name\":\"memory_recall\",\"result\":\"Ann has a cat\"}".to_string())
    );
    assert_eq!(user_prompt.content, Some("cats".to_string()));
    assert_eq!(user_prompt.relevant_memories, vec!["m".to_string()]);
}

#[test]
fn too_many_tool_calls_fail_the_turns() {
    assert_eq!(MAX_TOOL_ROUNDS, 4);
    for (round, expected) in [
        (0, Ok(FollowUp::AskAgain)),
        (2, Ok(FollowUp::AskAgain)),
        (3, Err(CompletionError::TooManyToolCalls)),
        (4, Err(CompletionError::TooManyToolCalls)),
        (usize::MAX, Err(CompletionError::TooManyToolCalls)),
    ] {
        let mut user_prompt = prompt(None);
        let mut context = vec![];
        let result = CompletionResult::Tool((
            call("memory_store"),
            ToolResult("memory_store".to_string(), "stored".to_string()),
        ));
        assert_eq!(follow_up(result, round, &mut user_prompt, &mut context, 9), expected);
        if expected.is_err() {
            assert_eq!(user_prompt, prompt(None));
            assert!(context.is_empty());
        } else {
            assert_eq!(context.len(), 1);
        }
    }
}

#[test]
fn the_prompt_is_taken_off_the_end_of_the_context() {
    let mut context = vec![
        ChatMessage::new(Role::User, "q1".to_string(), 1),
        ChatMessage::new(Role::Assistant, "a1".to_string(), 2),
        ChatMessage::new(Role::User, "q2".to_string(), 3),
    ];
    assert_eq!(take_prompt(&mut context), prompt(Some("q2")));
    assert_eq!(context.len(), 2);
    // behind a reply of the assistant there is nothing to take
    assert_eq!(take_prompt(&mut context), prompt(None));
    assert_eq!(context.len(), 2);
    let mut empty: Vec<ChatMessage> = vec![];
    assert_eq!(take_prompt(&mut empty), prompt(None));
    let mut system = vec![ChatMessage::new(Role::System, "s".to_string(), 1)];
    assert_eq!(take_prompt(&mut system), prompt(None));
    assert_eq!(system.len(), 1);
}
