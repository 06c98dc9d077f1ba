use chat_memory::context::{ChatContext, EmptyContext};
use chat_memory::message::{ChatMessage, NavigationError, Role};
use chat_memory::prompt::SystemPromptBuilder;

fn settings(max_stm: usize) -> SystemPromptBuilder {
    SystemPromptBuilder::new("Mia".to_string(), "Ann".to_string(), "A test persona.".to_string(), 3, max_stm)
        .tone("last heard {time_since} ago".to_string())
}

fn user(text: &str, at: i64) -> ChatMessage {
    ChatMessage::new(Role::User, text.to_string(), at)
}

fn assistant(text: &str, at: i64) -> ChatMessage {
    ChatMessage::new(Role::Assistant, text.to_string(), at)
}

fn filled(n: u64, max_stm: usize) -> ChatContext {
    let mut context = ChatContext::new(&settings(max_stm));
    for i in 0..n {
        context.add_message(user(&format!("m{}", i), 1000 + i as i64), Some(i));
    }
    context
}

#[test]
fn empty_store_gives_the_system_message_alone() {
    let mut context = ChatContext::new(&settings(50));
    let (messages, evicted) = context.get_context(false, 5000);
    assert_eq!(messages.len(), 1);
    assert_eq!(messages[0].role, Role::System);
    assert_eq!(messages[0].sent_at, 5000);
    assert_eq!(messages[0].metadata, None);
    assert_eq!(
        messages[0].content,
        settings(50).build(5000, 5000, false).to_string()
    );
    assert!(messages[0].content.ends_with("## Tone\nlast heard 0 seconds ago\n\n"));
    assert_eq!(evicted, None);
    assert_eq!(context.len(), 0);
}

#[test]
fn a_full_window_is_trimmed_to_four_fifths() {
    let mut context = filled(60, 50);
    let (messages, evicted) = context.get_context(false, 2000);
    let evicted = evicted.expect("the window was full");
    assert_eq!(evicted.len(), 20);
    for (i, message) in evicted.iter().enumerate() {
        assert_eq!(message, &user(&format!("m{}", i), 1000 + i as i64));
    }
    assert_eq!(context.len(), 40);
    assert_eq!(context.get(0).unwrap().selected(), &user("m20", 1020));
    assert_eq!(context.latest().unwrap().selected(), &user("m59", 1059));
    assert!(context.find(19).is_none());
    assert!(context.find(20).is_some());
    // what was assembled still holds every message, in order, behind the prompt
    assert_eq!(messages.len(), 61);
    assert_eq!(messages[0].role, Role::System);
    for i in 0..60usize {
        assert_eq!(messages[i + 1], user(&format!("m{}", i), 1000 + i as i64));
    }
    // the span is measured from the last message
    assert_eq!(messages[0].content, settings(50).build(1059, 2000, false).to_string());
    assert!(messages[0].content.ends_with("## Tone\nlast heard 15 minutes ago\n\n"));
}

#[test]
fn the_window_is_trimmed_exactly_when_it_is_full() {
    let mut context = filled(49, 50);
    let (messages, evicted) = context.get_context(true, 2000);
    assert_eq!(evicted, None);
    assert_eq!(messages.len(), 50);
    assert_eq!(context.len(), 49);
    let mut context = filled(50, 50);
    let (_, evicted) = context.get_context(true, 2000);
    assert_eq!(evicted.map(|e| e.len()), Some(10));
    assert_eq!(context.len(), 40);
    // four fifths are rounded down
    let mut context = filled(7, 7);
    let (_, evicted) = context.get_context(true, 2000);
    assert_eq!(evicted.map(|e| e.len()), Some(2));
    assert_eq!(context.len(), 5);
    let mut context = filled(3, 1);
    let (messages, evicted) = context.get_context(true, 2000);
    assert_eq!(evicted.map(|e| e.len()), Some(3));
    assert_eq!(messages.len(), 4);
    assert_eq!(context.len(), 0);
}

#[test]
fn assembly_takes_the_selected_variants() {
    let mut context = ChatContext::new(&settings(50));
    context.add_user_message("hi".to_string(), 1, 100);
    context.add_message(assistant("R1", 110), Some(2));
    assert_eq!(context.regenerate(2, "R2".to_string(), 120), Ok(()));
    assert_eq!(context.select_prev(2), Ok(assistant("R1", 110)));
    let (messages, _) = context.get_context(false, 200);
    assert_eq!(messages[1..], [user("hi", 100), assistant("R1", 110)]);
    assert!(messages[0].content.ends_with("last heard 1 minute ago\n\n"));
    assert_eq!(context.select_next(2), Ok(assistant("R2", 120)));
    assert_eq!(context.select_next(2), Err(NavigationError::AtEnd));
    assert_eq!(context.regenerate(3, "R".to_string(), 130), Err(NavigationError::NotFound));
}

#[test]
fn regenerate_context_leaves_out_the_last_reply() {
    let mut context = ChatContext::new(&settings(50));
    context.add_user_message("q1".to_string(), 1, 100);
    context.add_message(assistant("a1", 110), Some(2));
    context.add_user_message("q2".to_string(), 3, 120);
    context.add_message(assistant("a2", 130), Some(4));
    let (messages, evicted) = context.get_regen_context(false, 190);
    assert_eq!(evicted, None);
    assert_eq!(messages[1..], [user("q1", 100), assistant("a1", 110), user("q2", 120)]);
    // the span is still measured from the reply that is replaced, and the store keeps it
    assert!(messages[0].content.ends_with("last heard 1 minute ago\n\n"));
    assert_eq!(context.len(), 4);
    assert_eq!(context.find(4).unwrap().selected(), &assistant("a2", 130));
    // a user message behind the last reply stays
    context.add_user_message("q3".to_string(), 5, 140);
    let (messages, _) = context.get_regen_context(false, 190);
    assert_eq!(
        messages[1..],
        [user("q1", 100), assistant("a1", 110), user("q2", 120), user("q3", 140)]
    );
}

#[test]
fn regenerate_context_without_any_reply_is_the_whole_context() {
    let mut context = ChatContext::new(&settings(50));
    context.add_user_message("q1".to_string(), 1, 100);
    let (messages, _) = context.get_regen_context(false, 190);
    assert_eq!(messages[1..], [user("q1", 100)]);
    let mut context = ChatContext::new(&settings(50));
    let (messages, _) = context.get_regen_context(false, 190);
    assert_eq!(messages.len(), 1);
}

#[test]
fn nudge_is_appended_and_recorded() {
    let mut context = ChatContext::new(&settings(50));
    context.add_user_message("hi".to_string(), 1, 100);
    context.add_message(assistant("hello", 110), Some(2));
    let (messages, evicted) = context.freewill_context(false, 110 + 2 * 3600).expect("not empty");
    assert_eq!(evicted, None);
    assert_eq!(messages.len(), 4);
    let nudge = user(
        "*it's been around 2 hours since you last said something, and the user did not respond. your next response should attempt to pull the user back into the conversation. please respond once again, making sure to keep the same tone and style as you normally would, following all previous instructions, yet keeping the time difference in mind. your response should only contain the actual response, not your thoughts or anything else.*\n\n\"...\"",
        110 + 2 * 3600,
    );
    assert_eq!(messages[3], nudge);
    assert_eq!(messages[1..3], [user("hi", 100), assistant("hello", 110)]);
    assert!(messages[0].content.ends_with("last heard 2 hours ago\n\n"));
    assert_eq!(context.len(), 3);
    assert_eq!(context.latest().unwrap().selected(), &nudge);
    assert_eq!(context.shutdown(), vec![1, 2]);
    assert_eq!(context.len(), 0);
}

#[test]
fn nudge_needs_a_message_to_measure_from() {
    let mut context = ChatContext::new(&settings(50));
    assert_eq!(context.freewill_context(false, 500), Err(EmptyContext));
    assert_eq!(context.time_since_last(500), Err(EmptyContext));
    assert_eq!(context.len(), 0);
    context.add_user_message("hi".to_string(), 1, 100);
    assert_eq!(context.time_since_last(500), Ok(400));
    assert_eq!(context.time_since_last(50), Ok(-50));
}

#[test]
fn nudge_after_a_trim_follows_the_slots_that_stay() {
    let mut context = filled(10, 10);
    let (messages, evicted) = context.freewill_context(false, 1009 + 45).unwrap();
    assert_eq!(evicted.map(|e| e.len()), Some(2));
    assert_eq!(messages.len(), 12);
    assert!(messages[11].content.starts_with("*it's been around 45 seconds since"));
    assert_eq!(context.len(), 9);
    assert_eq!(context.get(0).unwrap().selected(), &user("m2", 1002));
    assert_eq!(context.get(8).unwrap().selected(), &messages[11]);
}

#[test]
fn lookups_go_through_to_the_store() {
    let mut context = filled(3, 50);
    context.add_message(assistant("a", 2000), Some(1));
    assert_eq!(context.latest_with_role(Role::Assistant).unwrap().selected(), &assistant("a", 2000));
    assert_eq!(context.latest_with_role(Role::User).unwrap().selected(), &user("m2", 1002));
    let (index, id, slot) = context.find_full(1).unwrap();
    assert_eq!((index, *id, slot.len()), (1, 1, 2));
    assert!(context.find_full(7).is_none());
    assert_eq!(context.drain_oldest(2), vec![user("m0", 1000), assistant("a", 2000)]);
    assert_eq!(context.len(), 1);
}

#[test]
fn memories_of_the_context_roll_over() {
    let mut context = ChatContext::new(&settings(50));
    context.add_long_term_memories(vec!["a".to_string(), "b".to_string()]);
    context.add_long_term_memories(vec!["c".to_string(), "d".to_string()]);
    assert_eq!(
        context.system_prompt.long_term_memory(),
        &vec!["b".to_string(), "c".to_string(), "d".to_string()]
    );
    let (messages, _) = context.get_context(false, 10);
    assert!(messages[0].content.contains("## Long Term Memory\n### Memory 1\n```memory\nb\n```\n\n### Memory 2\n```memory\nc\n```\n\n### Memory 3\n```memory\nd\n```\n\n\n"));
}

#[test]
fn slots_can_be_changed_in_place() {
    let mut context = filled(3, 50);
    context.find_mut(1).unwrap().push(assistant("again", 2000));
    assert_eq!(context.find(1).unwrap().selected(), &assistant("again", 2000));
    assert_eq!(context.get_mut(1).unwrap().select_prev(), Ok(user("m1", 1001)));
    assert_eq!(context.get(1).unwrap().cursor(), 0);
    let (index, id, slot) = context.find_full_mut(2).unwrap();
    assert_eq!((index, *id), (2, 2));
    assert_eq!(slot.select_prev(), Err(NavigationError::AtStart));
    assert!(context.find_mut(9).is_none());
    assert!(context.get_mut(3).is_none());
    assert!(context.find_full_mut(9).is_none());
    assert_eq!(context.len(), 3);
}

#[test]
fn a_message_of_the_user_is_not_regenerated() {
    let mut context = ChatContext::new(&settings(50));
    context.add_user_message("hi".to_string(), 1, 100);
    context.add_message(assistant("R1", 110), Some(2));
    assert!(!context.can_regenerate(1));
    assert!(context.can_regenerate(2));
    assert!(!context.can_regenerate(3));
    assert_eq!(context.regenerate(1, "R".to_string(), 120), Err(NavigationError::NotFound));
    assert_eq!(context.find(1).unwrap().len(), 1);
    assert_eq!(context.find(1).unwrap().selected(), &user("hi", 100));
    assert_eq!(context.regenerate(2, "R2".to_string(), 130), Ok(()));
    assert_eq!(context.find(2).unwrap().selected(), &assistant("R2", 130));
}

#[test]
fn the_builder_of_a_context_can_be_read_and_set() {
    let mut context = filled(2, 50);
    assert_eq!(context.prompt_builder(), &settings(50));
    context.set_prompt_builder(settings(7));
    assert_eq!(context.prompt_builder(), &settings(7));
    assert_eq!(context.system_prompt.max_stm(), 7);
    assert_eq!(context.len(), 2);
}
