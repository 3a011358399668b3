//! Group channels.

use std::collections::HashMap;
use vstd::prelude::*;
use vstd::string::StringExecFns;

use crate::id::ChannelId;
use crate::id::MessageId;
use crate::id::UserId;
use crate::timestamp::Timestamp;
use crate::user::User;

verus! {

/// A channel of several users outside any guild.
#[derive(Clone, Debug)]
pub struct Group {
    /// The identifier of the group's channel.
    pub channel_id: ChannelId,
    /// The icon of the group, if one is set.
    pub icon: Option<String>,
    /// The last message sent.
    pub last_message_id: Option<MessageId>,
    /// When a message was last pinned.
    pub last_pin_timestamp: Option<Timestamp>,
    /// The name of the group, if one is set.
    pub name: Option<String>,
    /// The user that owns the group.
    pub owner_id: UserId,
    /// The users in the group, by the user's identifier.
    pub recipients: HashMap<u64, User>,
}

/// The names of the users under `keys`, with a comma and a blank between
/// each two.
pub open spec fn joined_names(recipients: Map<u64, User>, keys: Seq<u64>) -> Seq<char>
    decreases keys.len(),
{
    if keys.len() == 0 {
        Seq::empty()
    } else if keys.len() == 1 {
        recipients[keys[0]].name@
    } else {
        joined_names(recipients, keys.drop_last()) + ", "@ + recipients[keys.last()].name@
    }
}

impl Group {
    /// Whether a text is a name of the group: the name that it was given;
    /// or, for a group without one, the names of its users in some order,
    /// each of them once, with a comma and a blank between each two; or
    /// `Empty Group` where there is no user either.
    pub open spec fn is_name(&self, text: Seq<char>) -> bool {
        match self.name {
            Some(name) => text == name@,
            None => if self.recipients@.dom().len() == 0 {
                text == "Empty Group"@
            } else {
                exists|keys: Seq<u64>|
                    {
                        &&& keys.no_duplicates()
                        &&& forall|key: u64|
                            keys.contains(key) <==> #[trigger] self.recipients@.contains_key(key)
                        &&& text == joined_names(self.recipients@, keys)
                    }
            },
        }
    }

    /// The name of the group: the name that it was given, or else one made
    /// of the names of its users.
    pub fn name(&self) -> (r: String)
        ensures
            self.is_name(r@),
    {
        broadcast use vstd::std_specs::hash::group_hash_axioms;

        match &self.name {
            Some(name) => name.clone(),
            None => {
                if self.recipients.len() == 0 {
                    return String::from_str("Empty Group");
                }
                let mut text = String::new();
                let mut first = true;
                let ghost mut keys: Seq<u64> = Seq::empty();
                for pair in it: self.recipients.iter()
                    invariant
                        it.seq().no_duplicates(),
                        forall|i: int|
                            0 <= i < it.seq().len() ==> self.recipients@.contains_key(
                                *(#[trigger] it.seq()[i]).0,
                            ) && self.recipients@[*it.seq()[i].0] == *it.seq()[i].1,
                        forall|key: u64| #[trigger]
                            self.recipients@.contains_key(key) ==> exists|i: int|
                                0 <= i < it.seq().len() && *(#[trigger] it.seq()[i]).0 == key,
                        keys.len() == it.index(),
                        keys.no_duplicates(),
                        forall|i: int|
                            #![trigger keys[i]]
                            #![trigger it.seq()[i]]
                            0 <= i < keys.len() ==> keys[i] == *it.seq()[i].0,
                        first == (keys.len() == 0),
                        text@ == joined_names(self.recipients@, keys),
                {
                    let ghost before = keys;
                    proof {
                        let seen = it.index();
                        assert forall|i: int| 0 <= i < seen implies before[i] != *pair.0 by {
                            if before[i] == *pair.0 {
                                assert(it.seq()[i] == it.seq()[seen]);
                            }
                        }
                        keys = keys.push(*pair.0);
                        assert(keys.drop_last() =~= before);
                    }
                    if first {
                        text = pair.1.name.clone();
                        first = false;
                    } else {
                        text.append(", ");
                        text.append(pair.1.name.as_str());
                    }
                }
                proof {
                    assert forall|key: u64|
                        keys.contains(key) <==> #[trigger] self.recipients@.contains_key(key) by {
                        if keys.contains(key) {
                            let i = choose|i: int| 0 <= i < keys.len() && keys[i] == key;
                            assert(keys[i] == key);
                        }
                        if self.recipients@.contains_key(key) {
                            assert(exists|i: int| 0 <= i < keys.len() && #[trigger] keys[i] == key);
                        }
                    }
                    assert(keys.len() > 0) by {
                        if keys.len() == 0 {
                            assert(self.recipients@.dom() =~= Set::<u64>::empty());
                        }
                    }
                }
                text
            },
        }
    }
}

} // verus!
