//! Roles of a guild.

use vstd::prelude::*;

use crate::id::RoleId;
use crate::permissions::Permissions;

verus! {

/// A named set of permissions that members of a guild can hold.
#[derive(Clone, Debug)]
pub struct Role {
    /// The unique identifier of the role. The default role has the
    /// identifier of its guild.
    pub id: RoleId,
    /// The colour of the role, as one integer.
    pub colour: u32,
    /// Whether members of the role are listed apart.
    pub hoist: bool,
    /// Whether an integration manages the role.
    pub managed: bool,
    /// Whether the role can be mentioned.
    pub mentionable: bool,
    /// The name of the role.
    pub name: String,
    /// The permissions that the role grants.
    pub permissions: Permissions,
    /// The position of the role in the guild's list.
    pub position: i64,
}

} // verus!
