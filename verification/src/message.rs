//! Messages, and slots that hold the alternative versions of one message.

use vstd::prelude::*;
use crate::text::same_text;

verus! {

/// Who authored a message.
#[derive(Clone, Copy, Debug, PartialEq, Eq, Structural)]
pub enum Role {
    System,
    User,
    Assistant,
}

/// The role that goes by `name`.
pub open spec fn role_named(name: Seq<char>) -> Option<Role> {
    if name == "system"@ {
        Some(Role::System)
    } else if name == "user"@ {
        Some(Role::User)
    } else if name == "assistant"@ {
        Some(Role::Assistant)
    } else {
        None
    }
}

impl Role {
    /// The role that goes by `name`, if there is one.
    pub fn named(name: &str) -> (role: Option<Role>)
        ensures
            role == role_named(name@),
    {
        if same_text(name, "system") {
            Some(Role::System)
        } else if same_text(name, "user") {
            Some(Role::User)
        } else if same_text(name, "assistant") {
            Some(Role::Assistant)
        } else {
            None
        }
    }

    /// The name of the role, by which `named` finds it again.
    pub fn name(&self) -> (name: &'static str)
        ensures
            role_named(name@) == Some(*self),
    {
        proof {
            reveal_strlit("system");
            reveal_strlit("user");
            reveal_strlit("assistant");
            assert("system"@.len() == 6 && "user"@.len() == 4 && "assistant"@.len() == 9);
        }
        match self {
            Role::System => "system",
            Role::User => "user",
            Role::Assistant => "assistant",
        }
    }
}

/// Why a move of a slot's cursor, or a lookup that precedes it, failed.
#[derive(Clone, Copy, Debug, PartialEq, Eq, Structural)]
pub enum NavigationError {
    /// The cursor already stands on the first variant.
    AtStart,
    /// The cursor already stands on the last variant.
    AtEnd,
    /// No slot has the identity that was asked for, or, where a reply was to
    /// be replaced, the slot does not select a reply of the assistant.
    NotFound,
}

/// One concrete message. `sent_at` counts seconds since the Unix epoch;
/// `metadata` is free-form text for what only some roles carry.
#[derive(Debug, PartialEq, Eq)]
pub struct ChatMessage {
    pub role: Role,
    pub content: String,
    pub sent_at: i64,
    pub metadata: Option<String>,
}

impl Clone for ChatMessage {
    fn clone(&self) -> (copy: Self)
        ensures
            copy == *self,
    {
        ChatMessage {
            role: self.role,
            content: self.content.clone(),
            sent_at: self.sent_at,
            metadata: match &self.metadata {
                Some(m) => Some(m.clone()),
                None => None,
            },
        }
    }
}

impl ChatMessage {
    /// A message without metadata.
    pub fn new(role: Role, content: String, sent_at: i64) -> (message: Self)
        ensures
            message == (ChatMessage { role, content, sent_at, metadata: None }),
    {
        ChatMessage { role, content, sent_at, metadata: None }
    }
}

/// What a slot holds: its variants, oldest first, and the index of the one
/// that is selected.
pub struct SlotView {
    pub variants: Seq<ChatMessage>,
    pub cursor: int,
}

impl SlotView {
    /// The cursor points at one of the variants.
    pub open spec fn wf(self) -> bool {
        0 <= self.cursor < self.variants.len()
    }

    /// The variant under the cursor.
    pub open spec fn selected(self) -> ChatMessage {
        self.variants[self.cursor]
    }

    /// A slot with `first` as its only variant.
    pub open spec fn single(first: ChatMessage) -> SlotView {
        SlotView { variants: seq![first], cursor: 0 }
    }

    /// The slot after `variant` was added and selected.
    pub open spec fn with_variant(self, variant: ChatMessage) -> SlotView {
        SlotView { variants: self.variants.push(variant), cursor: self.variants.len() as int }
    }

    /// The slot with its cursor moved by `delta`.
    pub open spec fn moved(self, delta: int) -> SlotView {
        SlotView { variants: self.variants, cursor: self.cursor + delta }
    }

    /// The slot after each of `replies` was added and selected, one after
    /// the other.
    pub open spec fn with_variants(self, replies: Seq<ChatMessage>) -> SlotView
        decreases replies.len(),
    {
        if replies.len() == 0 {
            self
        } else {
            self.with_variants(replies.drop_last()).with_variant(replies.last())
        }
    }
}

/// Adding a variant, and moving the cursor where a variant stands on that
/// side, leave the cursor on one of the variants.
pub proof fn lemma_cursor_stays_in_range(slot: SlotView, variant: ChatMessage)
    requires
        slot.wf(),
    ensures
        slot.with_variant(variant).wf(),
        slot.with_variant(variant).selected() == variant,
        slot.cursor > 0 ==> slot.moved(-1).wf(),
        slot.cursor + 1 < slot.variants.len() ==> slot.moved(1).wf(),
{
}

/// After `replies` were added to a slot one after the other, the slot holds
/// as many variants more as there are replies, in their order behind the
/// ones it held, and where there is a reply the cursor stands on the last.
pub proof fn lemma_regenerated_slot(slot: SlotView, replies: Seq<ChatMessage>)
    requires
        slot.wf(),
    ensures
        slot.with_variants(replies).wf(),
        slot.with_variants(replies).variants == slot.variants + replies,
        slot.with_variants(replies).variants.len() == slot.variants.len() + replies.len(),
        replies.len() > 0 ==> slot.with_variants(replies).cursor == slot.with_variants(
            replies,
        ).variants.len() - 1 && slot.with_variants(replies).selected() == replies.last(),
    decreases replies.len(),
{
    if replies.len() > 0 {
        lemma_regenerated_slot(slot, replies.drop_last());
    }
}

/// One position in a conversation: the alternative versions of its message,
/// oldest first, and a cursor that selects one of them. Variants are only
/// ever added, and the cursor always points at one of them.
#[derive(Debug)]
pub struct Slot {
    variants: Vec<ChatMessage>,
    cursor: usize,
}

impl View for Slot {
    type V = SlotView;

    /// The variants and the cursor. The view is made so that its cursor
    /// points at one of its variants whatever the fields hold; for a slot
    /// that a program holds, the fields are the view.
    closed spec fn view(&self) -> SlotView {
        if self.cursor < self.variants@.len() {
            SlotView { variants: self.variants@, cursor: self.cursor as int }
        } else {
            SlotView { variants: seq![arbitrary()], cursor: 0 }
        }
    }
}

/// In every slot the cursor points at one of the variants.
pub proof fn lemma_slot_cursor_in_range(slot: Slot)
    ensures
        slot@.wf(),
{
}

impl Clone for Slot {
    fn clone(&self) -> (copy: Self)
        ensures
            copy@ == self@,
    {
        proof {
            use_type_invariant(self);
        }
        let mut variants: Vec<ChatMessage> = Vec::new();
        let mut i: usize = 0;
        while i < self.variants.len()
            invariant
                i <= self.variants.len(),
                variants@ == self.variants@.take(i as int),
            decreases self.variants.len() - i,
        {
            variants.push(self.variants[i].clone());
            i += 1;
        }
        assert(variants@ =~= self.variants@);
        Slot { variants, cursor: self.cursor }
    }
}

impl Slot {
    #[verifier::type_invariant]
    spec fn cursor_in_range(self) -> bool {
        self.cursor < self.variants@.len()
    }

    /// A slot whose only variant is `first`.
    pub fn new(first: ChatMessage) -> (slot: Slot)
        ensures
            slot@ == SlotView::single(first),
            slot@.wf(),
    {
        let mut variants: Vec<ChatMessage> = Vec::new();
        variants.push(first);
        let slot = Slot { variants, cursor: 0 };
        slot
    }

    /// How many variants the slot holds; at least one.
    pub fn len(&self) -> (n: usize)
        ensures
            n == self@.variants.len(),
            n >= 1,
            self@.wf(),
    {
        proof {
            use_type_invariant(self);
        }
        self.variants.len()
    }

    /// The index of the selected variant.
    pub fn cursor(&self) -> (c: usize)
        ensures
            c == self@.cursor,
            self@.wf(),
    {
        proof {
            use_type_invariant(self);
        }
        self.cursor
    }

    /// Whether a variant stands before the selected one.
    pub fn can_go_backward(&self) -> (b: bool)
        ensures
            b == (self@.cursor > 0),
            self@.wf(),
    {
        proof {
            use_type_invariant(self);
        }
        self.cursor > 0
    }

    /// Whether a variant stands after the selected one.
    pub fn can_go_forward(&self) -> (b: bool)
        ensures
            b == (self@.cursor + 1 < self@.variants.len()),
            self@.wf(),
    {
        proof {
            use_type_invariant(self);
        }
        self.cursor < self.variants.len() - 1
    }

    /// The selected variant.
    pub fn selected(&self) -> (message: &ChatMessage)
        ensures
            *message == self@.selected(),
            self@.wf(),
    {
        proof {
            use_type_invariant(self);
        }
        &self.variants[self.cursor]
    }

    /// The variant at `index`, if there is one.
    pub fn variant(&self, index: usize) -> (message: Option<&ChatMessage>)
        ensures
            index < self@.variants.len() ==> message == Some(&self@.variants[index as int]),
            index >= self@.variants.len() ==> message is None,
    {
        proof {
            use_type_invariant(self);
        }
        if index < self.variants.len() {
            Some(&self.variants[index])
        } else {
            None
        }
    }

    /// Gives up the slot for its selected variant.
    pub fn into_selected(self) -> (message: ChatMessage)
        ensures
            message == self@.selected(),
    {
        proof {
            use_type_invariant(&self);
        }
        let mut variants = self.variants;
        variants.swap_remove(self.cursor)
    }

    /// Adds `variant` after the existing ones and selects it.
    pub fn push(&mut self, variant: ChatMessage)
        ensures
            final(self)@ == old(self)@.with_variant(variant),
            final(self)@.wf(),
    {
        proof {
            use_type_invariant(&*self);
        }
        // The list is taken out to grow; a one-message list stands in meanwhile.
        let mut variants: Vec<ChatMessage> = Vec::new();
        variants.push(ChatMessage::new(Role::System, String::new(), 0));
        self.cursor = 0;
        std::mem::swap(&mut variants, &mut self.variants);
        variants.push(variant);
        let selected = variants.len() - 1;
        self.variants = variants;
        self.cursor = selected;
    }

    /// Moves the cursor one variant back and returns the variant it then
    /// selects. Fails, and changes nothing, when the cursor stands on the
    /// first variant.
    pub fn select_prev(&mut self) -> (r: Result<ChatMessage, NavigationError>)
        ensures
            final(self)@.wf(),
            old(self)@.cursor == 0 ==> r == Err::<ChatMessage, NavigationError>(
                NavigationError::AtStart,
            ) && final(self)@ == old(self)@,
            old(self)@.cursor > 0 ==> final(self)@ == old(self)@.moved(-1) && r == Ok::<
                ChatMessage,
                NavigationError,
            >(final(self)@.selected()),
    {
        proof {
            use_type_invariant(&*self);
        }
        if self.cursor == 0 {
            return Err(NavigationError::AtStart);
        }
        self.cursor = self.cursor - 1;
        Ok(self.variants[self.cursor].clone())
    }

    /// Moves the cursor one variant forward and returns the variant it then
    /// selects. Fails, and changes nothing, when the cursor stands on the
    /// last variant.
    pub fn select_next(&mut self) -> (r: Result<ChatMessage, NavigationError>)
        ensures
            final(self)@.wf(),
            old(self)@.cursor + 1 == old(self)@.variants.len() ==> r == Err::<
                ChatMessage,
                NavigationError,
            >(NavigationError::AtEnd) && final(self)@ == old(self)@,
            old(self)@.cursor + 1 < old(self)@.variants.len() ==> final(self)@ == old(self)@.moved(
                1,
            ) && r == Ok::<ChatMessage, NavigationError>(final(self)@.selected()),
    {
        proof {
            use_type_invariant(&*self);
        }
        if self.cursor >= self.variants.len() - 1 {
            return Err(NavigationError::AtEnd);
        }
        self.cursor = self.cursor + 1;
        Ok(self.variants[self.cursor].clone())
    }
}

} // verus!
