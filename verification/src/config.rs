//! Per-group configuration: which conversations the bot serves, each one's
//! challenge timeout, override list and message texts. Read once at the edge
//! of the program and passed in as plain data; conversations and users are
//! carried as their numeric identifiers.

use std::collections::HashMap;
use vstd::prelude::*;

use crate::lifecycle::resolve_override_capability;
use crate::messages::MessagesText;

verus! {

broadcast use vstd::std_specs::hash::group_hash_axioms;

/// The settings of one group.
pub struct GroupSettings {
    /// A name shown instead of the conversation's own title, where set.
    pub custom_chat_name: Option<String>,
    /// Identities allowed to use admin commands and the override button; when
    /// absent, the conversation's administrator roster decides dynamically.
    pub custom_admins: Option<Vec<u64>>,
    /// How long a challenge stays open before the expiry timer fires, in
    /// whole seconds.
    pub ban_after_secs: u64,
    /// Whether every member may use the crate-lookup commands.
    pub crates_commands: bool,
    /// The group's message texts.
    pub messages: MessagesText,
}

impl Default for GroupSettings {
    /// No custom name, no static admin list, a five-minute timeout, lookup
    /// commands restricted, built-in texts.
    fn default() -> (d: Self)
        ensures
            d.custom_chat_name is None,
            d.custom_admins is None,
            d.ban_after_secs == 300,
            !d.crates_commands,
    {
        GroupSettings {
            custom_chat_name: None,
            custom_admins: None,
            ban_after_secs: 300,
            crates_commands: false,
            messages: MessagesText::default(),
        }
    }
}

impl GroupSettings {
    /// Whether `user_id` counts as an admin of this group: membership in the
    /// configured list where one exists, otherwise the answer of the dynamic
    /// administrator query, fail-closed — a failed query (`None`) grants
    /// nothing.
    pub fn is_user_admin(&self, user_id: u64, dynamic_answer: Option<bool>) -> (r: bool)
        ensures
            r == match self.custom_admins {
                Some(list) => list@.contains(user_id),
                None => dynamic_answer == Some(true),
            },
    {
        resolve_override_capability(&self.custom_admins, user_id, dynamic_answer)
    }
}

/// The settings of all groups the bot serves.
pub struct GroupsConfig {
    /// The conversations the bot serves; an empty list serves every one.
    pub allowed_groups: Vec<i64>,
    /// The settings of groups without an entry of their own.
    pub fallback_group_settings: GroupSettings,
    /// Per-group settings, keyed by conversation identifier.
    pub groups_settings: HashMap<i64, GroupSettings>,
}

impl GroupsConfig {
    /// Whether the bot serves this conversation: every one when no list is
    /// configured, else exactly the listed ones.
    pub fn is_group_allowed(&self, chat_id: i64) -> (r: bool)
        ensures
            r == (self.allowed_groups@.len() == 0 || self.allowed_groups@.contains(chat_id)),
    {
        if self.allowed_groups.len() == 0 {
            return true;
        }
        let mut i: usize = 0;
        while i < self.allowed_groups.len()
            invariant
                0 <= i <= self.allowed_groups@.len(),
                forall|j: int| 0 <= j < i ==> self.allowed_groups@[j] != chat_id,
            decreases self.allowed_groups@.len() - i,
        {
            if self.allowed_groups[i] == chat_id {
                proof {
                    assert(self.allowed_groups@.contains(chat_id)) by {
                        assert(self.allowed_groups@[i as int] == chat_id);
                    }
                }
                return true;
            }
            i += 1;
        }
        false
    }

    /// The settings of a conversation: its own entry where one exists, the
    /// fallback otherwise.
    pub fn get(&self, chat_id: i64) -> (r: &GroupSettings)
        ensures
            self.groups_settings@.contains_key(chat_id) ==> r == &self.groups_settings@[chat_id],
            !self.groups_settings@.contains_key(chat_id) ==> r == &self.fallback_group_settings,
    {
        match self.groups_settings.get(&chat_id) {
            Some(s) => s,
            None => &self.fallback_group_settings,
        }
    }
}

/// The whole configuration: the messaging credential and the groups.
pub struct BotConfig {
    /// The token the messaging layer authenticates with.
    pub bot_token: String,
    /// The per-group settings.
    pub groups_config: GroupsConfig,
}

} // verus!
