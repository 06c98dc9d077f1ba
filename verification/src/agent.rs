//! The rules of a completion turn: what is recalled, what the model is asked,
//! how its reply is cleaned, which tool it may call, and what is summarised
//! for long-term memory. The calls to the model, the embedder and the vector
//! store are made by the caller, which drives a turn step by step through
//! `CompletionAgent::completion` and learns from `follow_up` what comes
//! after it.

use vstd::prelude::*;
use vstd::string::StringExecFns;
use regex::Regex;
use crate::message::{ChatMessage, Role};
use crate::text::{replace, replace_all, same_text, texts, trim_end, trimmed_end};

verus! {

/// The error of the regex crate, which says why a pattern did not compile.
#[verifier::external_type_specification]
#[verifier::external_body]
pub struct ExRegexError(regex::Error);

/// What the regex crate gives for `text` when every match of `pattern` is
/// replaced by `replacement`; nothing where the pattern does not compile.
pub uninterp spec fn regex_replaced(pattern: Seq<char>, text: Seq<char>, replacement: Seq<char>) -> Option<Seq<char>>;

/// Compiles `pattern` with `Regex::new` and replaces every match in `text`
/// with `Regex::replace_all`. The text that comes back depends on the three
/// arguments alone; the error is the one that `Regex::new` gave.
#[verifier::external_body]
fn regex_replace_all(pattern: &str, text: &str, replacement: &str) -> (r: Result<
    String,
    regex::Error,
>)
    ensures
        r is Ok == regex_replaced(pattern@, text@, replacement@) is Some,
        r matches Ok(out) ==> regex_replaced(pattern@, text@, replacement@) == Some(out@),
{
    let compiled = Regex::new(pattern)?;
    Ok(compiled.replace_all(text, replacement).into_owned())
}

/// The lowercase form that `str::to_lowercase` gives for a text.
pub uninterp spec fn lowercased(text: Seq<char>) -> Seq<char>;

/// `str::to_lowercase`: the lowercase form of `text`, which depends on the
/// text alone.
#[verifier::external_body]
fn to_lowercase(text: &str) -> (out: String)
    ensures
        out@ == lowercased(text@),
{
    text.to_lowercase()
}

/// The text of the member `member` of the JSON object that `document` holds;
/// nothing where the document is no JSON, no object, or has no such member
/// that is a string.
pub uninterp spec fn json_string_member(document: Seq<char>, member: Seq<char>) -> Option<Seq<char>>;

/// Reads `document` with `serde_json::from_str`, looks `member` up with
/// `Value::get` and takes its text with `Value::as_str`. What is found
/// depends on the two arguments alone.
#[verifier::external_body]
fn json_member(document: &str, member: &str) -> (found: Option<String>)
    ensures
        found is Some == json_string_member(document@, member@) is Some,
        found matches Some(text) ==> json_string_member(document@, member@) == Some(text@),
{
    let value: serde_json::Value = serde_json::from_str(document).ok()?;
    Some(value.get(member)?.as_str()?.to_string())
}

/// The JSON text of an object with two members that are strings, as
/// serde_json writes it.
pub uninterp spec fn json_pair(
    first: Seq<char>,
    first_text: Seq<char>,
    second: Seq<char>,
    second_text: Seq<char>,
) -> Seq<char>;

/// Fills a `serde_json::Map` by `Map::insert` with the two members and writes
/// the object with `Value::to_string`. The text depends on the four
/// arguments alone.
#[verifier::external_body]
fn write_json_pair(first: &str, first_text: &str, second: &str, second_text: &str) -> (json: String)
    ensures
        json@ == json_pair(first@, first_text@, second@, second_text@),
{
    let mut object = serde_json::Map::new();
    object.insert(first.to_string(), serde_json::Value::String(first_text.to_string()));
    object.insert(second.to_string(), serde_json::Value::String(second_text.to_string()));
    serde_json::Value::Object(object).to_string()
}

/// How many memories a recall asks for.
pub const RECALL_LIMIT: usize = 5;

/// The token that stands for the user in stored memories.
pub const USER_TOKEN: &'static str = "<user>";

/// The token that stands for the assistant in stored memories.
pub const ASSISTANT_TOKEN: &'static str = "<assistant>";

/// The name of the tool that recalls memories.
pub const MEMORY_RECALL: &'static str = "memory_recall";

/// The name of the tool that stores a memory.
pub const MEMORY_STORE: &'static str = "memory_store";

/// The pattern of a block of thoughts with the line breaks behind it.
pub const THOUGHTS_PATTERN: &'static str = "<think>((?:.|\\n)*?)</think>(?:\\n*)?";

/// The pattern of spaces before a blank line.
pub const PADDED_BREAK_PATTERN: &'static str = " +\\n\\n";

/// The pattern of a run of two spaces or more.
pub const SPACES_PATTERN: &'static str = " {2,}";

/// What is added to the system prompt where the model may use tools.
pub const TOOL_USAGE: &'static str = "\n## Tool Usage\n- Actively try to utilize the memory_store tool to store important information that you'd like to recall later in the long term memory storage, preferably in bullet points. Do not mention the usage of this tool to the user, just use it when needed.\n- Actively try to utilize the memory_recall tool to recall information from previous messages and conversations you are not currently aware of. Do not mention this usage of the tool to the user, just use it when needed. If you believe a memory has already been recalled by the user (as seen in the \"relevant_memories\" section), choose not to recall it again.\n\n";

/// What is added to the system prompt where the model is to reason first.
pub const REASONING_PROTOCOL: &'static str = "\n## Reasoning Protocol\n\nThe user will always send you a prompt in JSON format, including the following fields:\n\n- `content`: The actual content of the message the user wants you to respond to.\n- `time_since_last_message`: The time since the last message in seconds.\n- `relevant_memories`: A list of memories that are relevant to the current conversation.\n- `system_note`: A message from the system, which may contain information about the user's request or any other relevant information.\n\nWhen you receive a prompt, always take time to think carefully before responding. Use <think> tags to show your reasoning process. This thinking process should:\n\n1. Analyze the user's request and identify key elements\n2. Consider any compliance requirements or restrictions mentioned in the system prompt\n3. Review any \"penalty\" adjustments that might apply\n4. Process any memory recall instructions\n5. Consider the appropriate roleplay response\n6. Plan your final response to ensure it meets all requirements\n\nFor example:\n\n<think>\n- User wants me to [specific request]\n- Checking compliance requirements: [note relevant restrictions]\n- Considering penalty conditions: [note any potential penalties]\n- Reviewing memory instructions: [note any recall requirements]\n- Considering roleplay context: [note character perspective]\n- Planning response that satisfies all constraints while maintaining character\n</think>\n\nAfter this reasoning step, provide your in-character response. This reasoning process is mandatory for every prompt you receive, ensuring thoughtful, compliant, and in-character interactions.\n";

/// The system prompt under which a conversation is summarised.
pub const SUMMARY_PREAMBLE: &'static str = "# Summarization Assistant\nYou are a specialized summarization assistant that extracts only the most significant, long-term valuable information from conversations. Your purpose is to identify and record information that should be remembered for future interactions.\n\n## Task\nExtract only information that meets ALL of these criteria:\n- Reveals persistent user preferences, interests, values, or traits\n- Has potential relevance beyond the immediate conversation\n- Would naturally be remembered by a human conversation partner\n\n## Format\n- Provide concise bullet points of key information\n- Use consistent, retrievable phrasing\n- Prioritize specificity over generality\n- Include source context when relevant (e.g., \"When discussing travel, mentioned...\")\n- Utilize the <user> and <assistant> tags for user and assistant placeholders\n\n## Avoid\n- Temporary states or short-term information (e.g., \"user is going to the store\", \"user is feeling tired today\")\n- Obvious or common knowledge\n- Conversational mechanics (e.g., \"user asked for help with...\")\n- Speculation about the user\n- Summarizing the entire conversation\n- Creating empty summaries when no meaningful information is present\n\n## Examples\n\n### Example 1\n```json\n{\n    \"good_extraction\": \"<user> lives in Toronto and works as a software engineer\".\n    \"poor_extraction\": \"User is currently at home\"\n}\n```\n\n### Example 2\n```json\n{\n    \"good_extraction\": \"<user> has a 5-year-old daughter named Emma who loves dinosaurs\".\n    \"poor_extraction\": \"<user> needs to pick up their child from school today\"\n}\n```\n\n### Example 3\n```json\n{\n    \"good_extraction\": \"<assistant> mentioned severe peanut allergy multiple times\".\n    \"poor_extraction\": \"<assistant> is hungry\"\n}\n```";

/// The member of a prompt's JSON form that holds what the user said.
pub const CONTENT_MEMBER: &'static str = "content";

/// The member of a prompt's JSON form that holds a note of the system.
pub const SYSTEM_NOTE_MEMBER: &'static str = "system_note";

/// The member of a tool result's JSON form that holds the tool's name.
pub const NAME_MEMBER: &'static str = "name";

/// The member of a tool result's JSON form that holds what the tool returned.
pub const RESULT_MEMBER: &'static str = "result";

/// The names under which the user and the assistant appear in texts.
pub struct CompletionAgentSettings {
    user_name: String,
    assistant_name: String,
}

impl CompletionAgentSettings {
    /// The name of the user.
    pub closed spec fn user(&self) -> Seq<char> {
        self.user_name@
    }

    /// The name of the assistant.
    pub closed spec fn assistant(&self) -> Seq<char> {
        self.assistant_name@
    }

    /// Settings with the two names.
    pub fn new(user_name: String, assistant_name: String) -> (settings: Self)
        ensures
            settings.user() == user_name@,
            settings.assistant() == assistant_name@,
    {
        CompletionAgentSettings { user_name, assistant_name }
    }

    /// The name of the user.
    pub fn user_name(&self) -> (name: &str)
        ensures
            name@ == self.user(),
    {
        self.user_name.as_str()
    }

    /// The name of the assistant.
    pub fn assistant_name(&self) -> (name: &str)
        ensures
            name@ == self.assistant(),
    {
        self.assistant_name.as_str()
    }
}

/// What the user says in one turn, with what was recalled for it.
#[derive(Debug, PartialEq, Eq)]
pub struct UserPrompt {
    pub content: Option<String>,
    pub time_since_last_message: Option<i64>,
    pub relevant_memories: Vec<String>,
    pub system_note: Option<String>,
}

/// A tool of the agent.
#[derive(Clone, Copy, Debug, PartialEq, Eq, Structural)]
pub enum Tool {
    MemoryRecall,
    MemoryStore,
}

/// The tool that goes by `name`.
pub open spec fn tool_named(name: Seq<char>) -> Option<Tool> {
    if name == MEMORY_RECALL@ {
        Some(Tool::MemoryRecall)
    } else if name == MEMORY_STORE@ {
        Some(Tool::MemoryStore)
    } else {
        None
    }
}

impl Tool {
    /// The tool that goes by `name`, if there is one.
    pub fn named(name: &str) -> (tool: Option<Tool>)
        ensures
            tool == tool_named(name@),
    {
        if same_text(name, MEMORY_RECALL) {
            Some(Tool::MemoryRecall)
        } else if same_text(name, MEMORY_STORE) {
            Some(Tool::MemoryStore)
        } else {
            None
        }
    }

    /// The name by which the model calls the tool.
    pub fn name(&self) -> (name: &'static str)
        ensures
            name@ == match *self {
                Tool::MemoryRecall => MEMORY_RECALL@,
                Tool::MemoryStore => MEMORY_STORE@,
            },
            tool_named(name@) == Some(*self),
    {
        proof {
            reveal_strlit("memory_recall");
            reveal_strlit("memory_store");
            assert(MEMORY_RECALL@.len() != MEMORY_STORE@.len());
        }
        match self {
            Tool::MemoryRecall => MEMORY_RECALL,
            Tool::MemoryStore => MEMORY_STORE,
        }
    }
}

/// A call of a tool, as the model asked for it.
#[derive(Debug, PartialEq, Eq)]
pub struct ToolCall {
    pub id: String,
    pub name: String,
    pub arguments: String,
}

/// The name of a tool and what it returned.
#[derive(Debug, PartialEq, Eq)]
pub struct ToolResult(pub String, pub String);

impl From<(String, String)> for ToolResult {
    fn from(value: (String, String)) -> (result: Self) {
        ToolResult(value.0, value.1)
    }
}

impl vstd::std_specs::convert::FromSpecImpl<(String, String)> for ToolResult {
    open spec fn obeys_from_spec() -> bool {
        true
    }

    open spec fn from_spec(value: (String, String)) -> Self {
        ToolResult(value.0, value.1)
    }
}

impl ToolResult {
    /// The result as JSON text: an object with the members `name` and `result`.
    pub fn to_json(&self) -> (json: String)
        ensures
            json@ == json_pair(NAME_MEMBER@, self.0@, RESULT_MEMBER@, self.1@),
    {
        write_json_pair(NAME_MEMBER, self.0.as_str(), RESULT_MEMBER, self.1.as_str())
    }
}

/// What the model answered.
#[derive(Debug, PartialEq, Eq)]
pub enum ModelReply {
    /// A text.
    Text(String),
    /// A request to call a tool.
    ToolCall(ToolCall),
}

/// How a turn ended.
#[derive(Debug, PartialEq, Eq)]
pub enum CompletionResult {
    /// The assistant's message.
    Message(String),
    /// The call that the assistant made and what the tool returned.
    Tool((ToolCall, ToolResult)),
}

/// Why a turn failed.
#[derive(Debug, PartialEq, Eq)]
pub enum CompletionError {
    /// The model asked for a tool that the agent does not have.
    ToolNotFound(String),
    /// A pattern that cleans the reply did not compile.
    Pattern,
    /// Something happened that the turn was not waiting for.
    OutOfTurn,
    /// Turn after turn ended with a call of a tool, as often as is allowed.
    TooManyToolCalls,
}

/// Why a conversation could not be summarised.
#[derive(Clone, Copy, Debug, PartialEq, Eq, Structural)]
pub enum SummarizationError {
    /// The model's reply held no text.
    InvalidResponse,
}

/// `text` with the tokens for the two speakers replaced by their names.
pub open spec fn with_names(text: Seq<char>, user: Seq<char>, assistant: Seq<char>) -> Seq<char> {
    replace_all(replace_all(text, USER_TOKEN@, user), ASSISTANT_TOKEN@, assistant)
}

/// Each of `facts` with the tokens replaced by the names.
pub open spec fn each_with_names(facts: Seq<Seq<char>>, user: Seq<char>, assistant: Seq<char>) -> Seq<
    Seq<char>,
> {
    Seq::new(facts.len(), |i: int| with_names(facts[i], user, assistant))
}

/// `text` with the names of the two speakers replaced by their tokens.
pub open spec fn with_tokens(text: Seq<char>, user: Seq<char>, assistant: Seq<char>) -> Seq<char> {
    replace_all(replace_all(text, user, USER_TOKEN@), assistant, ASSISTANT_TOKEN@)
}

/// The text that a recall searches for: what the user said, unless that is
/// absent or empty.
pub open spec fn recall_query_of(content: Option<String>) -> Option<Seq<char>> {
    match content {
        Some(c) => if c@.len() == 0 {
            None
        } else {
            Some(c@)
        },
        None => None,
    }
}

/// The system prompt with the notes that the agent's settings call for.
pub open spec fn preamble_text(system_prompt: Seq<char>, use_tools: bool, reason: bool) -> Seq<
    char,
> {
    let with_tools = if use_tools {
        system_prompt + TOOL_USAGE@
    } else {
        system_prompt
    };
    if reason {
        with_tools + REASONING_PROTOCOL@
    } else {
        with_tools
    }
}

/// A reply without its blocks of thoughts, without spaces before a blank
/// line and with every run of spaces made one space; nothing where a pattern
/// does not compile.
pub open spec fn tidied(text: Seq<char>) -> Option<Seq<char>> {
    match regex_replaced(THOUGHTS_PATTERN@, text, ""@) {
        None => None,
        Some(without_thoughts) => match regex_replaced(
            PADDED_BREAK_PATTERN@,
            without_thoughts,
            "\n\n"@,
        ) {
            None => None,
            Some(without_padding) => regex_replaced(SPACES_PATTERN@, without_padding, " "@),
        },
    }
}

/// A reply as it is delivered: in lowercase where that is asked for, then tidied.
pub open spec fn cleaned(text: Seq<char>, force_lowercase: bool) -> Option<Seq<char>> {
    tidied(
        if force_lowercase {
            lowercased(text)
        } else {
            text
        },
    )
}

/// What a message says: the `content` member of its JSON form, else the
/// `system_note` member, else the text as it stands.
pub open spec fn spoken_text(content: Seq<char>) -> Seq<char> {
    match json_string_member(content, CONTENT_MEMBER@) {
        Some(text) => text,
        None => match json_string_member(content, SYSTEM_NOTE_MEMBER@) {
            Some(text) => text,
            None => content,
        },
    }
}

/// The line of a transcript for `message`; nothing for a system message.
pub open spec fn transcript_line(message: ChatMessage, user: Seq<char>, assistant: Seq<char>) -> Seq<
    char,
> {
    match message.role {
        Role::User => user + ": "@ + spoken_text(message.content@) + "\n---\n"@,
        Role::Assistant => assistant + ": "@ + spoken_text(message.content@) + "\n---\n"@,
        Role::System => Seq::empty(),
    }
}

/// The lines for `history`, in order.
pub open spec fn transcript(history: Seq<ChatMessage>, user: Seq<char>, assistant: Seq<char>) -> Seq<
    char,
>
    decreases history.len(),
{
    if history.len() == 0 {
        Seq::empty()
    } else {
        transcript(history.drop_last(), user, assistant) + transcript_line(
            history.last(),
            user,
            assistant,
        )
    }
}

/// What the model is asked to summarise: the transcript without the rule
/// under its last line, with the names replaced by their tokens.
pub open spec fn summary_request_text(
    history: Seq<ChatMessage>,
    user: Seq<char>,
    assistant: Seq<char>,
) -> Seq<char> {
    with_tokens(trimmed_end(transcript(history, user, assistant), "\n---\n"@), user, assistant)
}

/// Replaces the tokens for the two speakers in `text` by their names.
pub fn restore_names(text: &str, user: &str, assistant: &str) -> (out: String)
    ensures
        out@ == with_names(text@, user@, assistant@),
{
    let with_user = replace(text, USER_TOKEN, user);
    replace(with_user.as_str(), ASSISTANT_TOKEN, assistant)
}

/// Replaces every match of the regular expression `pattern` in `text` by
/// `replacement`. Fails where the pattern does not compile.
pub fn replace_matches(pattern: &str, text: &str, replacement: &str) -> (r: Result<
    String,
    CompletionError,
>)
    ensures
        r matches Ok(out) ==> regex_replaced(pattern@, text@, replacement@) == Some(out@),
        r is Err ==> regex_replaced(pattern@, text@, replacement@) is None && r == Err::<
            String,
            CompletionError,
        >(CompletionError::Pattern),
{
    match regex_replace_all(pattern, text, replacement) {
        Ok(out) => Ok(out),
        Err(_) => Err(CompletionError::Pattern),
    }
}

/// Tidies a reply: removes blocks of thoughts and stray spaces.
pub fn tidy(text: &str) -> (r: Result<String, CompletionError>)
    ensures
        r matches Ok(out) ==> tidied(text@) == Some(out@),
        r is Err ==> tidied(text@) is None && r == Err::<String, CompletionError>(
            CompletionError::Pattern,
        ),
{
    let without_thoughts = replace_matches(THOUGHTS_PATTERN, text, "")?;
    let without_padding = replace_matches(PADDED_BREAK_PATTERN, without_thoughts.as_str(), "\n\n")?;
    replace_matches(SPACES_PATTERN, without_padding.as_str(), " ")
}

/// What a message says, read from its JSON form where it has one.
pub fn spoken(content: &str) -> (text: String)
    ensures
        text@ == spoken_text(content@),
{
    match json_member(content, CONTENT_MEMBER) {
        Some(text) => text,
        None => match json_member(content, SYSTEM_NOTE_MEMBER) {
            Some(text) => text,
            None => {
                let mut text = String::new();
                text.append(content);
                text
            },
        },
    }
}

/// What the model is asked to summarise for `history`.
pub fn summary_request(history: &Vec<ChatMessage>, user_name: &str, assistant_name: &str) -> (out:
    String)
    ensures
        out@ == summary_request_text(history@, user_name@, assistant_name@),
{
    let mut lines = String::new();
    let mut i: usize = 0;
    while i < history.len()
        invariant
            i <= history.len(),
            lines@ == transcript(history@.take(i as int), user_name@, assistant_name@),
        decreases history.len() - i,
    {
        assert(history@.take(i + 1).drop_last() =~= history@.take(i as int));
        let ghost before = lines@;
        let message = &history[i];
        match message.role {
            Role::User => {
                lines.append(user_name);
                lines.append(": ");
                lines.append(spoken(message.content.as_str()).as_str());
                lines.append("\n---\n");
            },
            Role::Assistant => {
                lines.append(assistant_name);
                lines.append(": ");
                lines.append(spoken(message.content.as_str()).as_str());
                lines.append("\n---\n");
            },
            Role::System => {},
        }
        assert(lines@ =~= before + transcript_line(
            history@[i as int],
            user_name@,
            assistant_name@,
        ));
        i += 1;
    }
    assert(history@.take(history@.len() as int) =~= history@);
    let trimmed = trim_end(lines.as_str(), "\n---\n");
    let with_user = replace(trimmed.as_str(), user_name, USER_TOKEN);
    replace(with_user.as_str(), assistant_name, ASSISTANT_TOKEN)
}

/// The summary that a reply holds. Fails where the reply is no text.
pub fn summary_of(reply: ModelReply) -> (r: Result<String, SummarizationError>)
    ensures
        reply matches ModelReply::Text(text) ==> r == Ok::<String, SummarizationError>(text),
        reply is ToolCall ==> r == Err::<String, SummarizationError>(
            SummarizationError::InvalidResponse,
        ),
{
    match reply {
        ModelReply::Text(text) => Ok(text),
        ModelReply::ToolCall(_) => Err(SummarizationError::InvalidResponse),
    }
}

/// Where a completion turn stands.
#[derive(Debug, PartialEq, Eq)]
pub enum TurnState {
    /// The turn has not begun.
    Idle,
    /// Memories were asked for.
    Recalling,
    /// The model was asked.
    Asking,
    /// A tool runs for this call.
    RunningTool(ToolCall),
    /// The turn is over.
    Finished,
}

/// What happened outside since the last step.
#[derive(Debug, PartialEq, Eq)]
pub enum TurnEvent {
    /// The turn begins.
    Started,
    /// These memories were found, nearest first.
    Recalled(Vec<String>),
    /// The embedder or the vector store failed.
    RecallFailed,
    /// The model answered.
    Replied(ModelReply),
    /// The tool returned this text.
    ToolReturned(String),
}

/// What the caller is to do next.
#[derive(Debug, PartialEq, Eq)]
pub enum TurnAction {
    /// Embed `query` and search the user's memories for the `limit` nearest.
    Recall { query: String, limit: usize },
    /// Ask the model under `preamble`, with the tools on offer or without,
    /// with the reasoning parameter or without.
    Ask { preamble: String, with_tools: bool, reasoning: bool },
    /// Run `tool` on `arguments`.
    RunTool { tool: Tool, arguments: String },
    /// The turn ends with this result.
    Deliver(CompletionResult),
    /// The turn ends with this error.
    Fail(CompletionError),
}

/// The rules by which one user's completion turns proceed.
pub struct CompletionAgent {
    settings: CompletionAgentSettings,
    use_tools: bool,
    reason: bool,
    force_lowercase: bool,
}

impl CompletionAgent {
    /// The name of the user.
    pub closed spec fn user(&self) -> Seq<char> {
        self.settings.user()
    }

    /// The name of the assistant.
    pub closed spec fn assistant(&self) -> Seq<char> {
        self.settings.assistant()
    }

    /// Whether the model is offered the tools.
    pub closed spec fn uses_tools(&self) -> bool {
        self.use_tools
    }

    /// Whether the model is asked to reason first.
    pub closed spec fn reasons(&self) -> bool {
        self.reason
    }

    /// Whether replies are put in lowercase.
    pub closed spec fn lowercases(&self) -> bool {
        self.force_lowercase
    }

    /// An agent for the names in `settings`. Tools are on offer unless
    /// `use_tools` says otherwise; reasoning and lowercase are off unless
    /// asked for.
    pub fn new(
        settings: CompletionAgentSettings,
        use_tools: Option<bool>,
        reason: Option<bool>,
        force_lowercase: Option<bool>,
    ) -> (agent: Self)
        ensures
            agent.user() == settings.user(),
            agent.assistant() == settings.assistant(),
            agent.uses_tools() == (use_tools != Some(false)),
            agent.reasons() == (reason == Some(true)),
            agent.lowercases() == (force_lowercase == Some(true)),
    {
        CompletionAgent {
            settings,
            use_tools: match use_tools {
                Some(wanted) => wanted,
                None => true,
            },
            reason: match reason {
                Some(wanted) => wanted,
                None => false,
            },
            force_lowercase: match force_lowercase {
                Some(wanted) => wanted,
                None => false,
            },
        }
    }

    /// Whether the model is offered the tools.
    pub fn offers_tools(&self) -> (b: bool)
        ensures
            b == self.uses_tools(),
    {
        self.use_tools
    }

    /// Whether the model is asked to reason first.
    pub fn asks_for_reasoning(&self) -> (b: bool)
        ensures
            b == self.reasons(),
    {
        self.reason
    }

    /// The text to search memories for, for `prompt`: what the user said.
    /// There is none where the user said nothing or the empty text, and then
    /// nothing is to be embedded or searched.
    pub fn recall_query(&self, prompt: &UserPrompt) -> (query: Option<String>)
        ensures
            query is Some == recall_query_of(prompt.content) is Some,
            query matches Some(text) ==> Some(text) == prompt.content,
    {
        match &prompt.content {
            Some(content) => {
                if content.as_str().is_empty() {
                    None
                } else {
                    Some(content.clone())
                }
            },
            None => None,
        }
    }

    /// Takes up what a recall found: each memory has the tokens for the two
    /// speakers replaced by their names and joins the memories of `prompt`,
    /// behind those already there.
    pub fn rag_recall(&self, prompt: &mut UserPrompt, found: Vec<String>)
        ensures
            texts(final(prompt).relevant_memories@) == texts(old(prompt).relevant_memories@)
                + each_with_names(texts(found@), self.user(), self.assistant()),
            final(prompt).content == old(prompt).content,
            final(prompt).time_since_last_message == old(prompt).time_since_last_message,
            final(prompt).system_note == old(prompt).system_note,
    {
        let ghost held = texts(prompt.relevant_memories@);
        let mut i: usize = 0;
        while i < found.len()
            invariant
                i <= found.len(),
                prompt.content == old(prompt).content,
                prompt.time_since_last_message == old(prompt).time_since_last_message,
                prompt.system_note == old(prompt).system_note,
                held == texts(old(prompt).relevant_memories@),
                texts(prompt.relevant_memories@) == held + each_with_names(
                    texts(found@),
                    self.user(),
                    self.assistant(),
                ).take(i as int),
            decreases found.len() - i,
        {
            let fact = restore_names(
                found[i].as_str(),
                self.settings.user_name(),
                self.settings.assistant_name(),
            );
            let ghost so_far = prompt.relevant_memories@;
            prompt.relevant_memories.push(fact);
            assert(texts(prompt.relevant_memories@) =~= texts(so_far).push(fact@));
            assert(fact@ == each_with_names(
                texts(found@),
                self.user(),
                self.assistant(),
            )[i as int]);
            assert(texts(prompt.relevant_memories@) =~= held + each_with_names(
                texts(found@),
                self.user(),
                self.assistant(),
            ).take(i + 1));
            i += 1;
        }
        assert(each_with_names(texts(found@), self.user(), self.assistant()).take(
            found@.len() as int,
        ) =~= each_with_names(texts(found@), self.user(), self.assistant()));
    }

    /// The system prompt with the notes that the settings call for.
    pub fn preamble(&self, system_prompt: &str) -> (out: String)
        ensures
            out@ == preamble_text(system_prompt@, self.uses_tools(), self.reasons()),
    {
        let mut out = String::new();
        out.append(system_prompt);
        if self.use_tools {
            out.append(TOOL_USAGE);
        }
        if self.reason {
            out.append(REASONING_PROTOCOL);
        }
        out
    }

    /// The reply as it is delivered: in lowercase where the settings ask for
    /// it, without blocks of thoughts and stray spaces.
    pub fn clean_reply(&self, text: &str) -> (r: Result<String, CompletionError>)
        ensures
            r matches Ok(out) ==> cleaned(text@, self.lowercases()) == Some(out@),
            r is Err ==> cleaned(text@, self.lowercases()) is None && r == Err::<
                String,
                CompletionError,
            >(CompletionError::Pattern),
    {
        if self.force_lowercase {
            let lower = to_lowercase(text);
            tidy(lower.as_str())
        } else {
            tidy(text)
        }
    }

    /// What the model is asked to summarise for `context`.
    pub fn summarize(
        &self,
        context: &Vec<ChatMessage>,
        user_name: &str,
        assistant_name: &str,
    ) -> (out: String)
        ensures
            out@ == summary_request_text(context@, user_name@, assistant_name@),
    {
        summary_request(context, user_name, assistant_name)
    }

    /// What is stored for the model's reply to a request for a summary: the
    /// text of the reply. Where the reply is no text, nothing is stored.
    pub fn store(&self, reply: ModelReply) -> (r: Result<String, SummarizationError>)
        ensures
            reply matches ModelReply::Text(text) ==> r == Ok::<String, SummarizationError>(text),
            reply is ToolCall ==> r == Err::<String, SummarizationError>(
                SummarizationError::InvalidResponse,
            ),
    {
        summary_of(reply)
    }

    /// Whether `action` asks the model as the settings say, under `system_prompt`.
    pub open spec fn is_ask(&self, action: TurnAction, system_prompt: Seq<char>) -> bool {
        action matches TurnAction::Ask { preamble, with_tools, reasoning } && preamble@
            == preamble_text(system_prompt, self.uses_tools(), self.reasons()) && with_tools
            == self.uses_tools() && reasoning == self.reasons()
    }

    /// Whether a turn that stands at `state` goes on to `next` when `event`
    /// happens, with `before` and `after` as the user's prompt.
    pub open spec fn is_step(
        &self,
        state: TurnState,
        event: TurnEvent,
        before: UserPrompt,
        system_prompt: Seq<char>,
        next: (TurnState, TurnAction),
        after: UserPrompt,
    ) -> bool {
        match (state, event) {
            (TurnState::Idle, TurnEvent::Started) => {
                &&& after == before
                &&& match recall_query_of(before.content) {
                    Some(wanted) => {
                        &&& next.0 is Recalling
                        &&& next.1 matches TurnAction::Recall { query, limit }
                        &&& query@ == wanted
                        &&& limit == RECALL_LIMIT
                    },
                    None => next.0 is Asking && self.is_ask(next.1, system_prompt),
                }
            },
            (TurnState::Recalling, TurnEvent::Recalled(found)) => {
                &&& texts(after.relevant_memories@) == texts(before.relevant_memories@)
                    + each_with_names(texts(found@), self.user(), self.assistant())
                &&& after.content == before.content
                &&& after.time_since_last_message == before.time_since_last_message
                &&& after.system_note == before.system_note
                &&& next.0 is Asking
                &&& self.is_ask(next.1, system_prompt)
            },
            (TurnState::Recalling, TurnEvent::RecallFailed) => {
                &&& after == before
                &&& next.0 is Asking
                &&& self.is_ask(next.1, system_prompt)
            },
            (TurnState::Asking, TurnEvent::Replied(ModelReply::Text(text))) => {
                &&& after == before
                &&& next.0 is Finished
                &&& match cleaned(text@, self.lowercases()) {
                    Some(clean) => next.1 matches TurnAction::Deliver(
                        CompletionResult::Message(message),
                    ) && message@ == clean,
                    None => next.1 == TurnAction::Fail(CompletionError::Pattern),
                }
            },
            (TurnState::Asking, TurnEvent::Replied(ModelReply::ToolCall(call))) => {
                &&& after == before
                &&& match tool_named(call.name@) {
                    Some(tool) => next == (
                        TurnState::RunningTool(call),
                        TurnAction::RunTool { tool, arguments: call.arguments },
                    ),
                    None => next == (
                        TurnState::Finished,
                        TurnAction::Fail(CompletionError::ToolNotFound(call.name)),
                    ),
                }
            },
            (TurnState::RunningTool(call), TurnEvent::ToolReturned(output)) => {
                &&& after == before
                &&& next == (
                    TurnState::Finished,
                    TurnAction::Deliver(
                        CompletionResult::Tool((call, ToolResult(call.name, output))),
                    ),
                )
            },
            _ => {
                &&& after == before
                &&& next == (TurnState::Finished, TurnAction::Fail(CompletionError::OutOfTurn))
            },
        }
    }

    fn ask(&self, system_prompt: &str) -> (action: TurnAction)
        ensures
            self.is_ask(action, system_prompt@),
    {
        TurnAction::Ask {
            preamble: self.preamble(system_prompt),
            with_tools: self.use_tools,
            reasoning: self.reason,
        }
    }

    /// One step of a completion turn: given where the turn stands and what
    /// happened, says where it stands next and what the caller is to do. A
    /// turn begins by recalling memories for what the user said, unless
    /// that is nothing; it asks the model; a text ends it, cleaned; a call
    /// of a tool that the agent has is run, and its result ends the turn; a
    /// call of any other tool fails it, and so does an event that the turn
    /// was not waiting for.
    pub fn completion(
        &self,
        state: TurnState,
        event: TurnEvent,
        prompt: &mut UserPrompt,
        system_prompt: &str,
    ) -> (next: (TurnState, TurnAction))
        ensures
            self.is_step(state, event, *old(prompt), system_prompt@, next, *final(prompt)),
    {
        match (state, event) {
            (TurnState::Idle, TurnEvent::Started) => {
                match self.recall_query(prompt) {
                    Some(query) => (
                        TurnState::Recalling,
                        TurnAction::Recall { query, limit: RECALL_LIMIT },
                    ),
                    None => (TurnState::Asking, self.ask(system_prompt)),
                }
            },
            (TurnState::Recalling, TurnEvent::Recalled(found)) => {
                self.rag_recall(prompt, found);
                (TurnState::Asking, self.ask(system_prompt))
            },
            (TurnState::Recalling, TurnEvent::RecallFailed) => {
                (TurnState::Asking, self.ask(system_prompt))
            },
            (TurnState::Asking, TurnEvent::Replied(ModelReply::Text(text))) => {
                match self.clean_reply(text.as_str()) {
                    Ok(message) => (
                        TurnState::Finished,
                        TurnAction::Deliver(CompletionResult::Message(message)),
                    ),
                    Err(error) => (TurnState::Finished, TurnAction::Fail(error)),
                }
            },
            (TurnState::Asking, TurnEvent::Replied(ModelReply::ToolCall(call))) => {
                match Tool::named(call.name.as_str()) {
                    Some(tool) => {
                        let arguments = call.arguments.clone();
                        (TurnState::RunningTool(call), TurnAction::RunTool { tool, arguments })
                    },
                    None => (
                        TurnState::Finished,
                        TurnAction::Fail(CompletionError::ToolNotFound(call.name)),
                    ),
                }
            },
            (TurnState::RunningTool(call), TurnEvent::ToolReturned(output)) => {
                let result = ToolResult(call.name.clone(), output);
                (
                    TurnState::Finished,
                    TurnAction::Deliver(CompletionResult::Tool((call, result))),
                )
            },
            _ => (TurnState::Finished, TurnAction::Fail(CompletionError::OutOfTurn)),
        }
    }
}

/// How many turns in a row may end with a call of a tool; the last of them
/// is not followed by another.
pub const MAX_TOOL_ROUNDS: usize = 4;

/// What the history says of a call of a tool, before what was called.
pub const CALL_LEAD: &'static str = "called ";

/// What the history says of a call of a tool, before its arguments.
pub const CALL_WITH: &'static str = " with ";

/// What comes after a turn that ended.
#[derive(Debug, PartialEq, Eq)]
pub enum FollowUp {
    /// The reply is to be shown.
    Reply(String),
    /// The model is to be asked again, in a turn that follows.
    AskAgain,
}

/// What the history says of `call`.
pub open spec fn call_note(call: ToolCall) -> Seq<char> {
    CALL_LEAD@ + call.name@ + CALL_WITH@ + call.arguments@
}

/// The prompt with which a conversation that reads `context` goes on: what
/// the user said last, where the last message is the user's, and nothing
/// recalled or noted yet.
pub open spec fn is_prompt_of(context: Seq<ChatMessage>, prompt: UserPrompt) -> bool {
    &&& prompt.content == if context.len() > 0 && context.last().role == Role::User {
        Some(context.last().content)
    } else {
        None
    }
    &&& prompt.time_since_last_message is None
    &&& prompt.relevant_memories@.len() == 0
    &&& prompt.system_note is None
}

/// `r`, `after` and `history` are what follows a turn that ended with
/// `result` as the round with number `round`, counted from zero, for the
/// prompt `before` and the messages `context`. A message is the reply, and
/// nothing changes. A call of a tool is followed by another turn, unless
/// this was the last round allowed: the history gains a message of the
/// assistant, made at `now`, that says what was called, and the prompt takes
/// what the tool returned, as JSON, for its note of the system.
pub open spec fn is_follow_up(
    result: CompletionResult,
    round: usize,
    before: UserPrompt,
    context: Seq<ChatMessage>,
    now: i64,
    r: Result<FollowUp, CompletionError>,
    after: UserPrompt,
    history: Seq<ChatMessage>,
) -> bool {
    match result {
        CompletionResult::Message(text) => {
            &&& r == Ok::<FollowUp, CompletionError>(FollowUp::Reply(text))
            &&& after == before
            &&& history == context
        },
        CompletionResult::Tool((call, outcome)) => if round + 1 >= MAX_TOOL_ROUNDS {
            &&& r == Err::<FollowUp, CompletionError>(CompletionError::TooManyToolCalls)
            &&& after == before
            &&& history == context
        } else {
            &&& r == Ok::<FollowUp, CompletionError>(FollowUp::AskAgain)
            &&& history.len() == context.len() + 1
            &&& history.drop_last() == context
            &&& history.last().role == Role::Assistant
            &&& history.last().content@ == call_note(call)
            &&& history.last().sent_at == now
            &&& history.last().metadata is None
            &&& after.system_note matches Some(note) && note@ == json_pair(
                NAME_MEMBER@,
                outcome.0@,
                RESULT_MEMBER@,
                outcome.1@,
            )
            &&& after.content == before.content
            &&& after.time_since_last_message == before.time_since_last_message
            &&& after.relevant_memories == before.relevant_memories
        },
    }
}

/// Takes the prompt off the end of `context`: where the last message is the
/// user's, it leaves the messages and what it says becomes the content of
/// the prompt; otherwise the messages stay and the prompt says nothing.
pub fn take_prompt(context: &mut Vec<ChatMessage>) -> (prompt: UserPrompt)
    ensures
        is_prompt_of(old(context)@, prompt),
        prompt.content is Some ==> final(context)@ == old(context)@.drop_last(),
        prompt.content is None ==> final(context)@ == old(context)@,
{
    let n = context.len();
    let asked = if n > 0 && context[n - 1].role == Role::User {
        match context.pop() {
            Some(last) => Some(last.content),
            None => None,
        }
    } else {
        None
    };
    UserPrompt {
        content: asked,
        time_since_last_message: None,
        relevant_memories: Vec::new(),
        system_note: None,
    }
}

/// Says what follows a turn that ended with `result` as round `round`,
/// counted from zero, and prepares the turn that follows a call of a tool.
pub fn follow_up(
    result: CompletionResult,
    round: usize,
    prompt: &mut UserPrompt,
    context: &mut Vec<ChatMessage>,
    now: i64,
) -> (r: Result<FollowUp, CompletionError>)
    ensures
        is_follow_up(
            result,
            round,
            *old(prompt),
            old(context)@,
            now,
            r,
            *final(prompt),
            final(context)@,
        ),
{
    match result {
        CompletionResult::Message(text) => Ok(FollowUp::Reply(text)),
        CompletionResult::Tool((call, outcome)) => {
            if round >= MAX_TOOL_ROUNDS - 1 {
                return Err(CompletionError::TooManyToolCalls);
            }
            let mut note = String::new();
            note.append(CALL_LEAD);
            note.append(call.name.as_str());
            note.append(CALL_WITH);
            note.append(call.arguments.as_str());
            assert(note@ =~= call_note(call));
            context.push(ChatMessage::new(Role::Assistant, note, now));
            assert(context@.drop_last() =~= old(context)@);
            prompt.system_note = Some(outcome.to_json());
            Ok(FollowUp::AskAgain)
        },
    }
}

/// A turn for a prompt that says nothing, or the empty text, recalls
/// nothing: its first step asks the model at once, nothing is to be embedded
/// or searched, and the prompt stays as it is.
pub proof fn lemma_empty_query_recalls_nothing(
    agent: CompletionAgent,
    before: UserPrompt,
    system_prompt: Seq<char>,
    next: (TurnState, TurnAction),
    after: UserPrompt,
)
    requires
        agent.is_step(TurnState::Idle, TurnEvent::Started, before, system_prompt, next, after),
        before.content matches Some(text) ==> text@.len() == 0,
    ensures
        next.0 is Asking,
        agent.is_ask(next.1, system_prompt),
        !(next.1 is Recall),
        after == before,
{
}

} // verus!
