//! The sessions of all users: one chat context each, made when the user is
//! first heard of and replaced when the user clears it.

use vstd::prelude::*;
use std::collections::HashMap;
use vstd::std_specs::iter::IteratorSpec;
use crate::branch::{is_navigation, named_ids, position, StoreView};
use crate::context::ChatContext;
use crate::message::{NavigationError, SlotView};
use crate::prompt::{BuilderView, SystemPromptBuilder};

verus! {

broadcast use vstd::std_specs::hash::group_hash_axioms;

/// What is shown after a navigation button was pressed: the text of the
/// variant that is now selected, and which of the two directions are open.
#[derive(Debug, PartialEq, Eq)]
pub struct Navigation {
    pub content: String,
    pub backward: bool,
    pub forward: bool,
}

/// `session` is one that was just made for the settings `config`.
pub open spec fn is_fresh(session: ChatContext, config: BuilderView) -> bool {
    &&& session.slots() == Seq::<(Option<u64>, SlotView)>::empty()
    &&& session.settings() == config
}

/// The slots that `user` holds in `sessions`; none where the user has no session.
pub open spec fn slots_of(sessions: Map<u64, ChatContext>, user: u64) -> StoreView {
    if sessions.contains_key(user) {
        sessions[user].slots()
    } else {
        Seq::empty()
    }
}

/// The settings under which `user` talks: those of the user's session, or
/// `config` where the user has none yet.
pub open spec fn settings_of(
    sessions: Map<u64, ChatContext>,
    user: u64,
    config: BuilderView,
) -> BuilderView {
    if sessions.contains_key(user) {
        sessions[user].settings()
    } else {
        config
    }
}

/// `after` is `before` but for the session of `user`, which `after` has.
pub open spec fn differs_at(
    before: Map<u64, ChatContext>,
    after: Map<u64, ChatContext>,
    user: u64,
) -> bool {
    &&& after.dom() == before.dom().insert(user)
    &&& forall|other: u64|
        other != user && #[trigger] before.contains_key(other) ==> after[other] == before[other]
}

/// `after` and `r` are what a press of a navigation button for the slot with
/// identity `id` gives on `before`: the cursor moves as `is_navigation` says,
/// and where it moved, `r` holds the text of the variant that is now
/// selected and says on which sides of it a variant stands.
pub open spec fn is_shown(
    before: StoreView,
    id: u64,
    forward: bool,
    after: StoreView,
    r: Result<Navigation, NavigationError>,
) -> bool {
    match r {
        Ok(shown) => {
            let slot = after[position(before, id)].1;
            &&& is_navigation(before, id, forward, after, Ok(slot.selected()))
            &&& shown.content == slot.selected().content
            &&& shown.backward == (slot.cursor > 0)
            &&& shown.forward == (slot.cursor + 1 < slot.variants.len())
        },
        Err(error) => is_navigation(before, id, forward, after, Err(error)),
    }
}

/// `stale` names every user of `sessions` once, each with the identities of
/// the user's slots in conversation order.
pub open spec fn lists_identities(
    sessions: Map<u64, ChatContext>,
    stale: Seq<(u64, Vec<u64>)>,
) -> bool {
    &&& forall|k: int|
        0 <= k < stale.len() ==> sessions.contains_key((#[trigger] stale[k]).0) && stale[k].1@
            == named_ids(sessions[stale[k].0].slots())
    &&& forall|j: int, k: int|
        0 <= j < k < stale.len() ==> (#[trigger] stale[j]).0 != (#[trigger] stale[k]).0
    &&& forall|user: u64| #[trigger]
        sessions.contains_key(user) ==> exists|k: int|
            0 <= k < stale.len() && (#[trigger] stale[k]).0 == user
}

/// `after` is `before` without its slots.
pub open spec fn is_emptied(before: ChatContext, after: ChatContext) -> bool {
    &&& after.slots() == Seq::<(Option<u64>, SlotView)>::empty()
    &&& after.settings() == before.settings()
}

/// The sessions of all users.
pub struct Handler {
    sessions: HashMap<u64, ChatContext>,
}

impl Handler {
    /// The session of each user that has one.
    pub closed spec fn sessions(&self) -> Map<u64, ChatContext> {
        self.sessions@
    }

    /// A handler without sessions.
    pub fn new() -> (handler: Self)
        ensures
            handler.sessions() == Map::<u64, ChatContext>::empty(),
    {
        Handler { sessions: HashMap::new() }
    }

    /// Whether `user` has a session.
    pub fn has_session(&self, user: u64) -> (b: bool)
        ensures
            b == self.sessions().contains_key(user),
    {
        self.sessions.contains_key(&user)
    }

    /// The session of `user`, if there is one.
    pub fn session(&self, user: u64) -> (found: Option<&ChatContext>)
        ensures
            found is Some == self.sessions().contains_key(user),
            found matches Some(session) ==> *session == self.sessions()[user],
    {
        self.sessions.get(&user)
    }

    /// Makes sure that `user` has a session: one that exists stays as it is;
    /// otherwise a fresh one is made for the settings `config`. Returns
    /// whether one was made.
    pub fn get_or_create(&mut self, user: u64, config: &SystemPromptBuilder) -> (created: bool)
        ensures
            differs_at(old(self).sessions(), final(self).sessions(), user),
            created == !old(self).sessions().contains_key(user),
            !created ==> final(self).sessions() == old(self).sessions(),
            created ==> is_fresh(final(self).sessions()[user], config@),
    {
        if self.sessions.contains_key(&user) {
            assert(self.sessions().dom().insert(user) =~= self.sessions().dom());
            false
        } else {
            self.sessions.insert(user, ChatContext::new(config));
            true
        }
    }

    /// Replaces the session of `user` by a fresh one for the settings
    /// `config`, whether the user had one or not. Returns whether there was
    /// one.
    pub fn clear(&mut self, user: u64, config: &SystemPromptBuilder) -> (existed: bool)
        ensures
            differs_at(old(self).sessions(), final(self).sessions(), user),
            is_fresh(final(self).sessions()[user], config@),
            existed == old(self).sessions().contains_key(user),
    {
        match self.sessions.insert(user, ChatContext::new(config)) {
            Some(_) => true,
            None => false,
        }
    }

    /// Takes the session of `user` out, for work that lasts.
    pub fn take(&mut self, user: u64) -> (session: Option<ChatContext>)
        ensures
            final(self).sessions() == old(self).sessions().remove(user),
            session is Some == old(self).sessions().contains_key(user),
            session matches Some(taken) ==> taken == old(self).sessions()[user],
    {
        self.sessions.remove(&user)
    }

    /// Puts `session` in as the session of `user`, and returns the one that
    /// it displaces, if any.
    pub fn put(&mut self, user: u64, session: ChatContext) -> (displaced: Option<ChatContext>)
        ensures
            final(self).sessions() == old(self).sessions().insert(user, session),
            displaced is Some == old(self).sessions().contains_key(user),
            displaced matches Some(earlier) ==> earlier == old(self).sessions()[user],
    {
        self.sessions.insert(user, session)
    }

    fn press(&mut self, user: u64, message: u64, forward: bool, config: &SystemPromptBuilder) -> (r:
        Result<Navigation, NavigationError>)
        ensures
            differs_at(old(self).sessions(), final(self).sessions(), user),
            final(self).sessions()[user].settings() == settings_of(
                old(self).sessions(),
                user,
                config@,
            ),
            is_shown(
                slots_of(old(self).sessions(), user),
                message,
                forward,
                final(self).sessions()[user].slots(),
                r,
            ),
    {
        let mut session = match self.sessions.remove(&user) {
            Some(session) => session,
            None => ChatContext::new(config),
        };
        let ghost before = session.slots();
        let moved = if forward {
            session.select_next(message)
        } else {
            session.select_prev(message)
        };
        let r = match moved {
            Ok(selected) => {
                proof {
                    let i = position(before, message);
                    crate::branch::lemma_position_unique(session.slots(), message, i);
                }
                let (backward, onward) = match session.find(message) {
                    Some(slot) => (slot.can_go_backward(), slot.can_go_forward()),
                    None => (false, false),
                };
                Ok(Navigation { content: selected.content, backward, forward: onward })
            },
            Err(error) => Err(error),
        };
        self.sessions.insert(user, session);
        assert(final(self).sessions().dom() =~= old(self).sessions().dom().insert(user));
        r
    }

    /// The user pressed the button that goes one variant back on the
    /// message `message`. A user without session gets a fresh one for the
    /// settings `config` first. Fails, and moves nothing, where the user has
    /// no slot for the message or the slot stands on its first variant.
    pub fn prev(&mut self, user: u64, message: u64, config: &SystemPromptBuilder) -> (r: Result<
        Navigation,
        NavigationError,
    >)
        ensures
            differs_at(old(self).sessions(), final(self).sessions(), user),
            final(self).sessions()[user].settings() == settings_of(
                old(self).sessions(),
                user,
                config@,
            ),
            is_shown(
                slots_of(old(self).sessions(), user),
                message,
                false,
                final(self).sessions()[user].slots(),
                r,
            ),
    {
        self.press(user, message, false, config)
    }

    /// The user pressed the button that goes one variant forward on the
    /// message `message`. A user without session gets a fresh one for the
    /// settings `config` first. Fails, and moves nothing, where the user has
    /// no slot for the message or the slot stands on its last variant.
    pub fn next(&mut self, user: u64, message: u64, config: &SystemPromptBuilder) -> (r: Result<
        Navigation,
        NavigationError,
    >)
        ensures
            differs_at(old(self).sessions(), final(self).sessions(), user),
            final(self).sessions()[user].settings() == settings_of(
                old(self).sessions(),
                user,
                config@,
            ),
            is_shown(
                slots_of(old(self).sessions(), user),
                message,
                true,
                final(self).sessions()[user].slots(),
                r,
            ),
    {
        self.press(user, message, true, config)
    }

    /// The users that have a session, each once, in no particular order.
    pub fn users(&self) -> (users: Vec<u64>)
        ensures
            users@.no_duplicates(),
            users@.to_set() == self.sessions().dom(),
    {
        let mut users: Vec<u64> = Vec::new();
        let ghost all = vstd::std_specs::hash::spec_keys_iter(&self.sessions).remaining().unref();
        for user in it: self.sessions.keys()
            invariant
                it.seq().unref() == all,
                users@ == all.take(it.index() as int),
        {
            users.push(*user);
        }
        assert(users@ =~= all);
        users
    }

    /// Empties the store of every session and returns, for every user, the
    /// identities of the slots that the user held. The sessions stay, with
    /// their settings.
    pub fn shutdown(&mut self) -> (stale: Vec<(u64, Vec<u64>)>)
        ensures
            final(self).sessions().dom() == old(self).sessions().dom(),
            forall|user: u64| #[trigger]
                final(self).sessions().contains_key(user) ==> is_emptied(
                    old(self).sessions()[user],
                    final(self).sessions()[user],
                ),
            lists_identities(old(self).sessions(), stale@),
    {
        let users = self.users();
        let mut stale: Vec<(u64, Vec<u64>)> = Vec::new();
        let mut i: usize = 0;
        while i < users.len()
            invariant
                i <= users.len(),
                users@.no_duplicates(),
                users@.to_set() == old(self).sessions().dom(),
                self.sessions().dom() == old(self).sessions().dom(),
                stale@.len() == i,
                forall|k: int| 0 <= k < i ==> (#[trigger] stale@[k]).0 == users@[k],
                forall|k: int|
                    0 <= k < i ==> (#[trigger] stale@[k]).1@ == named_ids(
                        old(self).sessions()[users@[k]].slots(),
                    ),
                forall|k: int|
                    0 <= k < i ==> is_emptied(
                        old(self).sessions()[#[trigger] users@[k]],
                        self.sessions()[users@[k]],
                    ),
                forall|k: int|
                    i <= k < users@.len() ==> self.sessions()[#[trigger] users@[k]] == old(self).sessions()[users@[k]],
            decreases users.len() - i,
        {
            let user = users[i];
            match self.sessions.remove(&user) {
                Some(session) => {
                    let mut session = session;
                    let ids = session.shutdown();
                    assert(session.slots() =~= Seq::<(Option<u64>, SlotView)>::empty());
                    self.sessions.insert(user, session);
                    stale.push((user, ids));
                },
                None => {
                    stale.push((user, Vec::new()));
                },
            }
            i += 1;
        }
        proof {
            assert forall|user: u64| #[trigger]
                old(self).sessions().contains_key(user) implies exists|k: int|
                0 <= k < stale@.len() && (#[trigger] stale@[k]).0 == user by {
                let k = choose|k: int| 0 <= k < users@.len() && users@[k] == user;
                assert(stale@[k].0 == user);
            }
            assert forall|user: u64| #[trigger]
                self.sessions().contains_key(user) implies is_emptied(
                old(self).sessions()[user],
                self.sessions()[user],
            ) by {}
        }
        stale
    }
}

} // verus!
