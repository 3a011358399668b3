//! Custom emojis of a guild.

use vstd::prelude::*;
use vstd::string::StringExecFns;

use crate::id::EmojiId;
use crate::id::RoleId;
use crate::text::decimal;
use crate::text::decimal_string;

verus! {

/// A custom emoji of a guild.
#[derive(Clone, Debug)]
pub struct Emoji {
    /// The unique identifier of the emoji.
    pub id: EmojiId,
    /// The name of the emoji.
    pub name: String,
    /// Whether an integration manages the emoji.
    pub managed: bool,
    /// Whether the name has to stand between colons to be used.
    pub require_colons: bool,
    /// The roles that may use the emoji; none stands for all of them.
    pub roles: Vec<RoleId>,
}

impl Emoji {
    /// The emoji as the platform's clients render it.
    pub open spec fn spec_text(self) -> Seq<char> {
        "<:"@ + self.name@ + ":"@ + decimal(self.id.0 as nat) + ">"@
    }

    /// The emoji as the platform's clients render it: `<:`, the name, a
    /// colon, the identifier in decimal, and a closing `>`.
    pub fn to_string(&self) -> (r: String)
        ensures
            r@ == self.spec_text(),
    {
        let mut text = String::from_str("<:");
        text.append(self.name.as_str());
        text.append(":");
        let number = decimal_string(self.id.0);
        text.append(number.as_str());
        text.append(">");
        text
    }
}

} // verus!
