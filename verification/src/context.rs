//! The chat context: a branch store with the builder of its system prompt,
//! and the assembly of the messages that a completion is asked with.

use vstd::prelude::*;
use vstd::string::StringExecFns;
use crate::branch::{
    appended, has_slot, holds_reply, is_navigation, last_with_role, named_ids, position,
    reply_message, selected_messages, well_formed, BranchStore, StoreView,
};
use crate::clock::{clock_reading, elapsed_phrase, time_to_string};
use crate::message::{ChatMessage, NavigationError, Role, Slot, SlotView};
use crate::prompt::{remembered, BuilderView, SystemPromptBuilder};
use crate::text::texts;

verus! {

/// There is no message from which the time that has passed could be measured.
#[derive(Clone, Copy, Debug, PartialEq, Eq, Structural)]
pub struct EmptyContext;

/// How many of `len` slots leave when the window is trimmed: none while
/// fewer than `max_stm` are held; otherwise all but four fifths of `max_stm`,
/// rounded down.
pub open spec fn evicted_count(len: nat, max_stm: nat) -> nat {
    if len >= max_stm {
        (len - (max_stm * 4) / 5) as nat
    } else {
        0
    }
}

/// Where the window is trimmed, exactly four fifths of `max_stm`, rounded
/// down, are left; the slots that leave and those that stay are all there were.
pub proof fn lemma_trim_leaves_four_fifths(len: nat, max_stm: nat)
    requires
        len >= max_stm,
    ensures
        evicted_count(len, max_stm) <= len,
        len - evicted_count(len, max_stm) == (max_stm * 4) / 5,
{
}

/// The time from which the span to `now` is measured: when the last of
/// `messages` was sent, or `now` where there is none.
pub open spec fn last_time(messages: Seq<ChatMessage>, now: int) -> int {
    if messages.len() == 0 {
        now
    } else {
        messages.last().sent_at as int
    }
}

/// The system prompt for a conversation whose last message was sent at
/// `last`, rendered as of `now`.
pub open spec fn prompt_text(settings: BuilderView, last: int, now: int, recalling: bool) -> Seq<
    char,
> {
    settings.filled_in(clock_reading(now, settings.timezone), elapsed_phrase(now - last)).rendered(
        recalling,
    )
}

/// `message` is the system message that carries `prompt`, made at `now`.
pub open spec fn is_system_message(message: ChatMessage, prompt: Seq<char>, now: int) -> bool {
    &&& message.role == Role::System
    &&& message.content@ == prompt
    &&& message.sent_at == now
    &&& message.metadata is None
}

/// `context` is the system message for `prompt` followed by `messages`.
pub open spec fn is_context(
    context: Seq<ChatMessage>,
    prompt: Seq<char>,
    now: int,
    messages: Seq<ChatMessage>,
) -> bool {
    &&& context.len() == messages.len() + 1
    &&& is_system_message(context[0], prompt, now)
    &&& context.skip(1) == messages
}

/// The messages that an optional list holds.
pub open spec fn messages_of(list: Option<Vec<ChatMessage>>) -> Option<Seq<ChatMessage>> {
    match list {
        Some(l) => Some(l@),
        None => None,
    }
}

/// `after` is `before` once the window was trimmed for a limit of `max_stm`
/// slots, and `evicted` is what left: while the store is empty or holds fewer
/// than `max_stm` slots nothing leaves and nothing is returned; otherwise the
/// oldest slots leave until four fifths of `max_stm` are left, and the
/// selected variant of each is returned, in order.
pub open spec fn is_trimmed(
    before: StoreView,
    after: StoreView,
    evicted: Option<Seq<ChatMessage>>,
    max_stm: nat,
) -> bool {
    let cut = evicted_count(before.len(), max_stm) as int;
    &&& after == before.skip(cut)
    &&& evicted == if before.len() > 0 && before.len() >= max_stm {
        Some(selected_messages(before.take(cut)))
    } else {
        None
    }
}

/// The index of the last of `messages` that has `role`.
pub open spec fn last_of_role(messages: Seq<ChatMessage>, role: Role) -> Option<int>
    decreases messages.len(),
{
    if messages.len() == 0 {
        None
    } else if messages.last().role == role {
        Some(messages.len() - 1)
    } else {
        last_of_role(messages.drop_last(), role)
    }
}

/// `messages` without the last of them that the assistant wrote.
pub open spec fn without_last_assistant(messages: Seq<ChatMessage>) -> Seq<ChatMessage> {
    match last_of_role(messages, Role::Assistant) {
        Some(i) => messages.remove(i),
        None => messages,
    }
}

/// What the nudge says before the span of the silence.
pub const NUDGE_LEAD: &'static str = "*it's been around ";

/// What the nudge says behind the span of the silence.
pub const NUDGE_REQUEST: &'static str = " since you last said something, and the user did not respond. your next response should attempt to pull the user back into the conversation. please respond once again, making sure to keep the same tone and style as you normally would, following all previous instructions, yet keeping the time difference in mind. your response should only contain the actual response, not your thoughts or anything else.*\n\n\"...\"";

/// What the nudge says after a silence described by `phrase`.
pub open spec fn nudge_text(phrase: Seq<char>) -> Seq<char> {
    NUDGE_LEAD@ + phrase + NUDGE_REQUEST@
}

/// `message` is the nudge of the user's side after a silence of `seconds`, made at `now`.
pub open spec fn is_nudge(message: ChatMessage, seconds: int, now: int) -> bool {
    &&& message.role == Role::User
    &&& message.content@ == nudge_text(elapsed_phrase(seconds))
    &&& message.sent_at == now
    &&& message.metadata is None
}

/// Behind a first message of another role, the last message with `role`
/// stands one place further back than in the messages behind the first.
proof fn lemma_last_of_role_behind_head(messages: Seq<ChatMessage>, role: Role)
    requires
        messages.len() > 0,
        messages[0].role != role,
    ensures
        last_of_role(messages, role) == match last_of_role(messages.skip(1), role) {
            Some(i) => Some(i + 1),
            None => None,
        },
    decreases messages.len(),
{
    let tail = messages.skip(1);
    if messages.len() == 1 {
        assert(messages.drop_last().len() == 0);
    } else if messages.last().role == role {
        assert(tail.last() == messages.last());
    } else {
        assert(tail.last() == messages.last());
        assert(tail.drop_last() =~= messages.drop_last().skip(1));
        lemma_last_of_role_behind_head(messages.drop_last(), role);
    }
}

/// Where the last of `messages` with `role` stands, no message behind it has
/// the role; where there is none, no message has it.
proof fn lemma_last_of_role_in_range(messages: Seq<ChatMessage>, role: Role)
    ensures
        last_of_role(messages, role) matches Some(i) ==> 0 <= i < messages.len() && messages[i].role
            == role && forall|k: int| i < k < messages.len() ==> messages[k].role != role,
        last_of_role(messages, role) is None ==> forall|k: int|
            0 <= k < messages.len() ==> messages[k].role != role,
    decreases messages.len(),
{
    if messages.len() > 0 && messages.last().role != role {
        let shorter = messages.drop_last();
        lemma_last_of_role_in_range(shorter, role);
        assert forall|k: int| 0 <= k < shorter.len() implies shorter[k] == messages[k] by {}
    }
}

/// The index of the last of `messages` that has `role`.
fn last_index_of_role(messages: &Vec<ChatMessage>, role: Role) -> (found: Option<usize>)
    ensures
        found is Some == last_of_role(messages@, role) is Some,
        found matches Some(i) ==> last_of_role(messages@, role) == Some(i as int) && i
            < messages@.len(),
{
    let mut i = messages.len();
    assert(messages@.take(i as int) =~= messages@);
    while i > 0
        invariant
            i <= messages@.len(),
            last_of_role(messages@, role) == last_of_role(messages@.take(i as int), role),
        decreases i,
    {
        assert(messages@.take(i as int).drop_last() =~= messages@.take(i - 1));
        i -= 1;
        if messages[i].role == role {
            return Some(i);
        }
    }
    None
}

/// One user's conversation: the slots of its messages and the builder of its
/// system prompt. In contracts the slots are `slots()` and the builder's view
/// is `settings()`; `prompt_builder` and `set_prompt_builder` read and set
/// the builder.
pub struct ChatContext {
    messages: BranchStore,
    pub system_prompt: SystemPromptBuilder,
}

impl ChatContext {
    /// The slots of the conversation.
    pub closed spec fn slots(&self) -> StoreView {
        self.messages@
    }

    /// The settings of the system prompt.
    pub closed spec fn settings(&self) -> BuilderView {
        self.system_prompt@
    }

    /// A context without messages, with a copy of `system_prompt`.
    pub fn new(system_prompt: &SystemPromptBuilder) -> (context: Self)
        ensures
            context.slots() == Seq::<(Option<u64>, SlotView)>::empty(),
            context.settings() == system_prompt@,
    {
        ChatContext { messages: BranchStore::new(), system_prompt: system_prompt.clone() }
    }

    /// The number of slots.
    pub fn len(&self) -> (n: usize)
        ensures
            n == self.slots().len(),
            well_formed(self.slots()),
    {
        self.messages.len()
    }

    /// Appends `message` under `id`. A slot that has the identity gains the
    /// message as a new variant and selects it; otherwise a new slot is
    /// added last. Returns the identity of the slot.
    pub fn add_message(&mut self, message: ChatMessage, id: Option<u64>) -> (slot_id: Option<u64>)
        ensures
            final(self).slots() == appended(old(self).slots(), id, message),
            well_formed(final(self).slots()),
            final(self).settings() == old(self).settings(),
            slot_id == id,
    {
        self.messages.append(id, message)
    }

    /// Appends what the user wrote at `sent_at` under the identity `id`.
    pub fn add_user_message(&mut self, message: String, id: u64, sent_at: i64)
        ensures
            final(self).slots() == appended(
                old(self).slots(),
                Some(id),
                ChatMessage { role: Role::User, content: message, sent_at, metadata: None },
            ),
            well_formed(final(self).slots()),
            final(self).settings() == old(self).settings(),
    {
        let added = ChatMessage::new(Role::User, message, sent_at);
        self.messages.append(Some(id), added);
    }

    /// The slot that was added last.
    pub fn latest(&self) -> (found: Option<&Slot>)
        ensures
            self.slots().len() == 0 ==> found is None,
            self.slots().len() > 0 ==> found is Some && found.unwrap()@ == self.slots().last().1,
    {
        self.messages.latest()
    }

    /// The last slot whose selected variant has `role`.
    pub fn latest_with_role(&self, role: Role) -> (found: Option<&Slot>)
        ensures
            found is Some == last_with_role(self.slots(), role) is Some,
            found matches Some(slot) ==> slot@ == self.slots()[last_with_role(
                self.slots(),
                role,
            )->0].1,
    {
        self.messages.latest_with_role(role)
    }

    /// The slot with the identity `id`.
    pub fn find(&self, id: u64) -> (found: Option<&Slot>)
        ensures
            well_formed(self.slots()),
            found is Some == has_slot(self.slots(), id),
            found matches Some(slot) ==> slot@ == self.slots()[position(self.slots(), id)].1,
    {
        self.messages.find(id)
    }

    /// The slot at `index` in conversation order.
    pub fn get(&self, index: usize) -> (found: Option<&Slot>)
        ensures
            index < self.slots().len() ==> found is Some && found.unwrap()@
                == self.slots()[index as int].1,
            index >= self.slots().len() ==> found is None,
    {
        self.messages.get(index)
    }

    /// The index, identity and slot for the identity `id`.
    pub fn find_full(&self, id: u64) -> (found: Option<(usize, &u64, &Slot)>)
        ensures
            well_formed(self.slots()),
            found is Some == has_slot(self.slots(), id),
            found matches Some((index, stored, slot)) ==> index == position(self.slots(), id)
                && *stored == id && slot@ == self.slots()[index as int].1,
    {
        self.messages.find_full(id)
    }

    /// The slot with the identity `id`, for change in place.
    pub fn find_mut(&mut self, id: u64) -> (found: Option<&mut Slot>)
        ensures
            well_formed(final(self).slots()),
            final(self).settings() == old(self).settings(),
            found is Some == has_slot(old(self).slots(), id),
            found is None ==> final(self).slots() == old(self).slots(),
            found is Some ==> found.unwrap()@ == old(self).slots()[position(
                old(self).slots(),
                id,
            )].1 && final(self).slots() == old(self).slots().update(
                position(old(self).slots(), id),
                (Some(id), final(found.unwrap())@),
            ),
    {
        self.messages.find_mut(id)
    }

    /// The slot at `index` in conversation order, for change in place.
    pub fn get_mut(&mut self, index: usize) -> (found: Option<&mut Slot>)
        ensures
            well_formed(final(self).slots()),
            final(self).settings() == old(self).settings(),
            index >= old(self).slots().len() ==> found is None,
            index >= old(self).slots().len() ==> final(self).slots() == old(self).slots(),
            index < old(self).slots().len() ==> found is Some,
            index < old(self).slots().len() ==> found.unwrap()@ == old(self).slots()[index as int].1,
            index < old(self).slots().len() ==> final(self).slots() == old(self).slots().update(
                index as int,
                (old(self).slots()[index as int].0, final(found.unwrap())@),
            ),
    {
        self.messages.get_mut(index)
    }

    /// The index and identity of the slot with the identity `id`, and the
    /// slot for change in place.
    pub fn find_full_mut(&mut self, id: u64) -> (found: Option<(usize, &u64, &mut Slot)>)
        ensures
            well_formed(final(self).slots()),
            final(self).settings() == old(self).settings(),
            found is Some == has_slot(old(self).slots(), id),
            found is None ==> final(self).slots() == old(self).slots(),
            found is Some ==> found.unwrap().0 == position(old(self).slots(), id)
                && *found.unwrap().1 == id && found.unwrap().2@ == old(self).slots()[position(
                old(self).slots(),
                id,
            )].1 && final(self).slots() == old(self).slots().update(
                position(old(self).slots(), id),
                (Some(id), final(found.unwrap().2)@),
            ),
    {
        self.messages.find_full_mut(id)
    }

    /// Moves the cursor of the slot with identity `id` one variant back and
    /// returns the variant it then selects. Fails, and changes nothing, where
    /// no slot has that identity or its cursor stands on the first variant.
    pub fn select_prev(&mut self, id: u64) -> (r: Result<ChatMessage, NavigationError>)
        ensures
            well_formed(old(self).slots()),
            well_formed(final(self).slots()),
            final(self).settings() == old(self).settings(),
            is_navigation(old(self).slots(), id, false, final(self).slots(), r),
    {
        self.messages.select_prev(id)
    }

    /// Moves the cursor of the slot with identity `id` one variant forward and
    /// returns the variant it then selects. Fails, and changes nothing, where
    /// no slot has that identity or its cursor stands on the last variant.
    pub fn select_next(&mut self, id: u64) -> (r: Result<ChatMessage, NavigationError>)
        ensures
            well_formed(old(self).slots()),
            well_formed(final(self).slots()),
            final(self).settings() == old(self).settings(),
            is_navigation(old(self).slots(), id, true, final(self).slots(), r),
    {
        self.messages.select_next(id)
    }

    /// Whether the slot with the identity `id` holds a reply that can be
    /// replaced: there is such a slot, and it selects a variant of the
    /// assistant.
    pub fn can_regenerate(&self, id: u64) -> (b: bool)
        ensures
            b == holds_reply(self.slots(), id),
    {
        self.messages.can_regenerate(id)
    }

    /// Replaces the reply under the identity `id` by another version: a reply
    /// of the assistant with the text `reply`, written at `sent_at`, becomes
    /// a new variant of the slot and is selected. Only a reply of the
    /// assistant can be replaced: where no slot has the identity, or the
    /// variant that the slot selects is not the assistant's, the call fails
    /// with `NotFound` and changes nothing.
    pub fn regenerate(&mut self, id: u64, reply: String, sent_at: i64) -> (r: Result<
        (),
        NavigationError,
    >)
        ensures
            well_formed(final(self).slots()),
            final(self).settings() == old(self).settings(),
            holds_reply(old(self).slots(), id) ==> r is Ok && final(self).slots() == appended(
                old(self).slots(),
                Some(id),
                reply_message(reply, sent_at),
            ) && holds_reply(final(self).slots(), id),
            !holds_reply(old(self).slots(), id) ==> r == Err::<(), NavigationError>(
                NavigationError::NotFound,
            ) && final(self).slots() == old(self).slots(),
    {
        self.messages.regenerate(id, reply, sent_at)
    }

    /// The builder of the system prompt.
    pub fn prompt_builder(&self) -> (builder: &SystemPromptBuilder)
        ensures
            builder@ == self.settings(),
    {
        &self.system_prompt
    }

    /// Puts `builder` in as the builder of the system prompt.
    pub fn set_prompt_builder(&mut self, builder: SystemPromptBuilder)
        ensures
            final(self).settings() == builder@,
            final(self).slots() == old(self).slots(),
    {
        self.system_prompt = builder;
    }

    /// Removes the first `count` slots, or all of them where there are fewer,
    /// and returns the selected variant of each, in order.
    pub fn drain_oldest(&mut self, count: usize) -> (evicted: Vec<ChatMessage>)
        ensures
            well_formed(final(self).slots()),
            final(self).settings() == old(self).settings(),
            count <= old(self).slots().len() ==> evicted@ == selected_messages(
                old(self).slots().take(count as int),
            ) && final(self).slots() == old(self).slots().skip(count as int),
            count > old(self).slots().len() ==> evicted@ == selected_messages(old(self).slots())
                && final(self).slots().len() == 0,
    {
        self.messages.drain_oldest(count)
    }

    /// Removes every slot and returns the identities of those that had one,
    /// in conversation order.
    pub fn shutdown(&mut self) -> (ids: Vec<u64>)
        ensures
            final(self).slots().len() == 0,
            final(self).settings() == old(self).settings(),
            ids@ == named_ids(old(self).slots()),
    {
        self.messages.drain_identities()
    }

    /// The seconds from the last message to `now`. Fails where the context
    /// holds no message.
    pub fn time_since_last(&self, now: i64) -> (r: Result<i128, EmptyContext>)
        ensures
            self.slots().len() == 0 ==> r is Err,
            self.slots().len() > 0 ==> r == Ok::<i128, EmptyContext>(
                (now - self.slots().last().1.selected().sent_at) as i128,
            ),
    {
        match self.messages.latest() {
            Some(slot) => Ok(now as i128 - slot.selected().sent_at as i128),
            None => Err(EmptyContext),
        }
    }

    /// Adds long-term memories to the builder of the system prompt. A batch
    /// larger than the limit is declined as a whole; otherwise the oldest
    /// memories leave until the limit holds.
    pub fn add_long_term_memories(&mut self, memories: Vec<String>)
        ensures
            final(self).slots() == old(self).slots(),
            final(self).settings() == (BuilderView {
                long_term_memory: remembered(
                    old(self).settings().long_term_memory,
                    texts(memories@),
                    old(self).settings().max_ltm,
                ),
                ..old(self).settings()
            }),
            old(self).settings().within_limit() ==> final(self).settings().within_limit(),
    {
        self.system_prompt.remember(memories);
    }

    /// The messages to ask a completion with, as of `now`: the system
    /// message, then the selected variant of every slot in conversation
    /// order. Where the store holds `max_stm` slots or more, the oldest leave
    /// it until four fifths of `max_stm` are left, and their selected
    /// variants are returned as well.
    pub fn get_context(&mut self, recalling: bool, now: i64) -> (r: (
        Vec<ChatMessage>,
        Option<Vec<ChatMessage>>,
    ))
        ensures
            final(self).settings() == old(self).settings(),
            well_formed(final(self).slots()),
            is_context(
                r.0@,
                prompt_text(
                    old(self).settings(),
                    last_time(selected_messages(old(self).slots()), now as int),
                    now as int,
                    recalling,
                ),
                now as int,
                selected_messages(old(self).slots()),
            ),
            is_trimmed(
                old(self).slots(),
                final(self).slots(),
                messages_of(r.1),
                old(self).settings().max_stm,
            ),
    {
        let messages = self.messages.selected();
        let n = messages.len();
        let last_message_time = if n == 0 {
            now
        } else {
            messages[n - 1].sent_at
        };
        let max_stm = self.system_prompt.max_stm();
        let drained = if n > 0 && n >= max_stm {
            let keep = ((max_stm as u128 * 4) / 5) as usize;
            Some(self.messages.drain_oldest(n - keep))
        } else {
            proof {
                let ghost old_slots = old(self).slots();
                if n == 0 {
                    assert(old_slots.skip(
                        evicted_count(old_slots.len(), old(self).settings().max_stm) as int,
                    ) =~= old_slots);
                } else {
                    assert(old_slots.skip(0) =~= old_slots);
                }
            }
            None
        };
        let prompt = self.system_prompt.clone().build(last_message_time, now, recalling);
        let mut context: Vec<ChatMessage> = Vec::new();
        context.push(ChatMessage::new(Role::System, prompt.to_string(), now));
        let mut messages = messages;
        context.append(&mut messages);
        assert(context@.skip(1) =~= selected_messages(old(self).slots()));
        (context, drained)
    }

    /// The messages to ask for another version of the last reply with: as
    /// `get_context` gives them, but without the last message that the
    /// assistant wrote. The store keeps that message.
    pub fn get_regen_context(&mut self, recalling: bool, now: i64) -> (r: (
        Vec<ChatMessage>,
        Option<Vec<ChatMessage>>,
    ))
        ensures
            final(self).settings() == old(self).settings(),
            well_formed(final(self).slots()),
            is_context(
                r.0@,
                prompt_text(
                    old(self).settings(),
                    last_time(selected_messages(old(self).slots()), now as int),
                    now as int,
                    recalling,
                ),
                now as int,
                without_last_assistant(selected_messages(old(self).slots())),
            ),
            is_trimmed(
                old(self).slots(),
                final(self).slots(),
                messages_of(r.1),
                old(self).settings().max_stm,
            ),
    {
        let ghost messages = selected_messages(old(self).slots());
        let (mut context, drained) = self.get_context(recalling, now);
        let ghost full = context@;
        proof {
            lemma_last_of_role_behind_head(full, Role::Assistant);
            lemma_last_of_role_in_range(messages, Role::Assistant);
        }
        match last_index_of_role(&context, Role::Assistant) {
            Some(i) => {
                context.remove(i);
                assert(context@.skip(1) =~= messages.remove(i - 1));
            },
            None => {},
        }
        (context, drained)
    }

    /// The messages to ask for an unprompted reply with, as of `now`: as
    /// `get_context` gives them, followed by a nudge in the user's name that
    /// says how long the conversation has been silent. The nudge is also
    /// added to the store, as a slot without identity. Fails, and changes
    /// nothing, where the context holds no message.
    pub fn freewill_context(&mut self, recalling: bool, now: i64) -> (r: Result<
        (Vec<ChatMessage>, Option<Vec<ChatMessage>>),
        EmptyContext,
    >)
        ensures
            final(self).settings() == old(self).settings(),
            well_formed(final(self).slots()),
            old(self).slots().len() == 0 ==> r is Err && final(self).slots() == old(self).slots(),
            old(self).slots().len() > 0 ==> r is Ok && ({
                let messages = selected_messages(old(self).slots());
                let context = r->Ok_0.0@;
                let nudge = context.last();
                &&& context.len() == messages.len() + 2
                &&& is_context(
                    context.drop_last(),
                    prompt_text(
                        old(self).settings(),
                        messages.last().sent_at as int,
                        now as int,
                        recalling,
                    ),
                    now as int,
                    messages,
                )
                &&& is_nudge(nudge, now - messages.last().sent_at, now as int)
                &&& final(self).slots().len() > 0
                &&& final(self).slots().last() == (None::<u64>, SlotView::single(nudge))
                &&& is_trimmed(
                    old(self).slots(),
                    final(self).slots().drop_last(),
                    messages_of(r->Ok_0.1),
                    old(self).settings().max_stm,
                )
            }),
    {
        let last_sent_at = match self.messages.latest() {
            Some(slot) => slot.selected().sent_at,
            None => {
                return Err(EmptyContext);
            },
        };
        let ghost messages = selected_messages(old(self).slots());
        let (mut context, drained) = self.get_context(recalling, now);
        let ghost trimmed = self.slots();
        let ghost assembled = context@;
        let phrase = time_to_string(last_sent_at, now);
        let mut content = String::new();
        content.append(NUDGE_LEAD);
        content.append(phrase.as_str());
        content.append(NUDGE_REQUEST);
        let nudge = ChatMessage::new(Role::User, content, now);
        self.messages.append(None, nudge.clone());
        context.push(nudge);
        proof {
            assert(context@.drop_last() =~= assembled);
            assert(self.slots().drop_last() =~= trimmed);
        }
        Ok((context, drained))
    }
}

} // verus!
