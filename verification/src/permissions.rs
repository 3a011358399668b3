//! The capability bitmask: a set of named flags, one bit per flag.

use vstd::prelude::*;
use vstd::std_specs::ops::BitAndSpecImpl;
use vstd::std_specs::ops::BitOrSpecImpl;
use vstd::std_specs::ops::NotSpecImpl;
use vstd::std_specs::ops::SubSpecImpl;

verus! {

/// Allows creating invites to a channel.
pub const CREATE_INVITE: u64 = 0x0000_0001;

/// Allows kicking members from the guild.
pub const KICK_MEMBERS: u64 = 0x0000_0002;

/// Allows banning members from the guild.
pub const BAN_MEMBERS: u64 = 0x0000_0004;

/// Grants every permission and bypasses channel overwrites.
pub const ADMINISTRATOR: u64 = 0x0000_0008;

/// Allows managing and editing channels.
pub const MANAGE_CHANNELS: u64 = 0x0000_0010;

/// Allows managing the guild itself.
pub const MANAGE_GUILD: u64 = 0x0000_0020;

/// Allows adding reactions to messages.
pub const ADD_REACTIONS: u64 = 0x0000_0040;

/// Allows viewing the guild's audit log.
pub const VIEW_AUDIT_LOG: u64 = 0x0000_0080;

/// Allows reading the messages of a channel.
pub const READ_MESSAGES: u64 = 0x0000_0400;

/// Allows sending messages in a channel.
pub const SEND_MESSAGES: u64 = 0x0000_0800;

/// Allows sending text-to-speech messages.
pub const SEND_TTS_MESSAGES: u64 = 0x0000_1000;

/// Allows deleting the messages of other users.
pub const MANAGE_MESSAGES: u64 = 0x0000_2000;

/// Lets links sent by the user be embedded.
pub const EMBED_LINKS: u64 = 0x0000_4000;

/// Allows uploading files.
pub const ATTACH_FILES: u64 = 0x0000_8000;

/// Allows reading a channel's message history.
pub const READ_MESSAGE_HISTORY: u64 = 0x0001_0000;

/// Allows mentioning everyone at once.
pub const MENTION_EVERYONE: u64 = 0x0002_0000;

/// Allows using emojis of other guilds.
pub const USE_EXTERNAL_EMOJIS: u64 = 0x0004_0000;

/// Allows connecting to a voice channel.
pub const CONNECT: u64 = 0x0010_0000;

/// Allows speaking in a voice channel.
pub const SPEAK: u64 = 0x0020_0000;

/// Allows muting members in a voice channel.
pub const MUTE_MEMBERS: u64 = 0x0040_0000;

/// Allows deafening members in a voice channel.
pub const DEAFEN_MEMBERS: u64 = 0x0080_0000;

/// Allows moving members between voice channels.
pub const MOVE_MEMBERS: u64 = 0x0100_0000;

/// Allows speaking by voice activity rather than push-to-talk.
pub const USE_VAD: u64 = 0x0200_0000;

/// Allows changing one's own nickname.
pub const CHANGE_NICKNAME: u64 = 0x0400_0000;

/// Allows changing the nicknames of other members.
pub const MANAGE_NICKNAMES: u64 = 0x0800_0000;

/// Allows managing the roles below one's own.
pub const MANAGE_ROLES: u64 = 0x1000_0000;

/// Allows managing webhooks.
pub const MANAGE_WEBHOOKS: u64 = 0x2000_0000;

/// Allows managing the guild's emojis.
pub const MANAGE_EMOJIS: u64 = 0x4000_0000;

/// The bits of every defined flag.
pub const ALL_BITS: u64 = 0x7ff7_fcff;

/// A set of capability flags.
///
/// A value holds defined flags only: no bit outside [`ALL_BITS`] is ever set.
/// Its view is the raw bit pattern.
#[derive(Clone, Copy, Debug, PartialEq, Eq, Hash, Structural)]
pub struct Permissions {
    bits: u64,
}

impl View for Permissions {
    type V = u64;

    closed spec fn view(&self) -> u64 {
        self.bits
    }
}

/// `ALL_BITS` is the union of the named flags, and nothing more.
pub proof fn lemma_all_bits_are_the_named_flags()
    by (bit_vector)
    ensures
        ALL_BITS == CREATE_INVITE | KICK_MEMBERS | BAN_MEMBERS | ADMINISTRATOR | MANAGE_CHANNELS
            | MANAGE_GUILD | ADD_REACTIONS | VIEW_AUDIT_LOG | READ_MESSAGES | SEND_MESSAGES
            | SEND_TTS_MESSAGES | MANAGE_MESSAGES | EMBED_LINKS | ATTACH_FILES
            | READ_MESSAGE_HISTORY | MENTION_EVERYONE | USE_EXTERNAL_EMOJIS | CONNECT | SPEAK
            | MUTE_MEMBERS | DEAFEN_MEMBERS | MOVE_MEMBERS | USE_VAD | CHANGE_NICKNAME
            | MANAGE_NICKNAMES | MANAGE_ROLES | MANAGE_WEBHOOKS | MANAGE_EMOJIS,
{
}

/// Whether a bit pattern holds defined flags only.
pub open spec fn defined_only(bits: u64) -> bool {
    bits & !ALL_BITS == 0
}

/// Unions, intersections and differences of defined flags hold defined flags
/// only, and so does anything cut down to `ALL_BITS`.
pub proof fn lemma_defined_only_closed(a: u64, b: u64)
    by (bit_vector)
    ensures
        defined_only(0),
        defined_only(ALL_BITS),
        defined_only(a & ALL_BITS),
        defined_only(!a & ALL_BITS),
        defined_only(a) ==> a & ALL_BITS == a,
        defined_only(a) ==> defined_only(a & b) && defined_only(b & a) && defined_only(a & !b),
        defined_only(a) && defined_only(b) ==> defined_only(a | b),
{
}

impl Permissions {
    /// The invariant of the type: defined flags only.
    #[verifier::type_invariant]
    pub closed spec fn well_formed(self) -> bool {
        defined_only(self.bits)
    }

    /// The set without any flag.
    pub fn empty() -> (r: Permissions)
        ensures
            r@ == 0,
    {
        proof {
            lemma_defined_only_closed(0, 0);
        }
        Permissions { bits: 0 }
    }

    /// The set of every defined flag.
    pub fn all() -> (r: Permissions)
        ensures
            r@ == ALL_BITS,
    {
        proof {
            lemma_defined_only_closed(0, 0);
        }
        Permissions { bits: ALL_BITS }
    }

    /// The raw bit pattern, which holds defined flags only.
    pub fn bits(&self) -> (r: u64)
        ensures
            r == self@,
            defined_only(r),
    {
        proof {
            use_type_invariant(self);
        }
        self.bits
    }

    /// The set with exactly the given bits, unless one of them is no defined
    /// flag.
    pub fn from_bits(bits: u64) -> (r: Option<Permissions>)
        ensures
            defined_only(bits) ==> r.is_some() && r.unwrap()@ == bits,
            !defined_only(bits) ==> r.is_none(),
    {
        if bits & !ALL_BITS == 0 {
            Some(Permissions { bits })
        } else {
            None
        }
    }

    /// The set of the defined flags among the given bits.
    pub closed spec fn truncated(bits: u64) -> Permissions {
        Permissions { bits: bits & ALL_BITS }
    }

    /// The bits of `truncated`.
    pub proof fn lemma_truncated(bits: u64)
        ensures
            Permissions::truncated(bits)@ == bits & ALL_BITS,
    {
    }

    /// The set of the defined flags among the given bits.
    pub fn from_bits_truncate(bits: u64) -> (r: Permissions)
        ensures
            r == Permissions::truncated(bits),
            r@ == bits & ALL_BITS,
    {
        proof {
            lemma_defined_only_closed(bits, 0);
        }
        Permissions { bits: bits & ALL_BITS }
    }

    /// Whether no flag is set.
    pub fn is_empty(&self) -> (r: bool)
        ensures
            r == (self@ == 0),
    {
        self.bits == 0
    }

    /// Whether every defined flag is set.
    pub fn is_all(&self) -> (r: bool)
        ensures
            r == (self@ == ALL_BITS),
    {
        self.bits == ALL_BITS
    }

    /// Whether every flag of `other` is set in `self`.
    pub fn contains(&self, other: Permissions) -> (r: bool)
        ensures
            r == (self@ & other@ == other@),
    {
        self.bits & other.bits == other.bits
    }

    /// Whether some flag of `other` is set in `self`.
    pub fn intersects(&self, other: Permissions) -> (r: bool)
        ensures
            r == (self@ & other@ != 0),
    {
        self.bits & other.bits != 0
    }

    /// The flags set in `self` or in `other`.
    pub fn union(self, other: Permissions) -> (r: Permissions)
        ensures
            r@ == self@ | other@,
    {
        proof {
            use_type_invariant(self);
            use_type_invariant(other);
            lemma_defined_only_closed(self.bits, other.bits);
        }
        Permissions { bits: self.bits | other.bits }
    }

    /// The flags set in both `self` and `other`.
    pub fn intersect(self, other: Permissions) -> (r: Permissions)
        ensures
            r@ == self@ & other@,
    {
        proof {
            use_type_invariant(self);
            lemma_defined_only_closed(self.bits, other.bits);
        }
        Permissions { bits: self.bits & other.bits }
    }

    /// The flags of `self` with those of `other` cleared.
    pub fn subtract(self, other: Permissions) -> (r: Permissions)
        ensures
            r@ == self@ & !other@,
    {
        proof {
            use_type_invariant(self);
            lemma_defined_only_closed(self.bits, other.bits);
        }
        Permissions { bits: self.bits & !other.bits }
    }

    /// The defined flags that are not set in `self`.
    pub fn complement(self) -> (r: Permissions)
        ensures
            r@ == !self@ & ALL_BITS,
    {
        proof {
            lemma_defined_only_closed(self.bits, 0);
        }
        Permissions { bits: !self.bits & ALL_BITS }
    }

    /// Sets the flags of `other` in `self`.
    pub fn insert(&mut self, other: Permissions)
        ensures
            final(self)@ == old(self)@ | other@,
    {
        *self = self.union(other);
    }

    /// Clears the flags of `other` in `self`.
    pub fn remove(&mut self, other: Permissions)
        ensures
            final(self)@ == old(self)@ & !other@,
    {
        *self = self.subtract(other);
    }
}

impl core::ops::BitOr for Permissions {
    type Output = Permissions;

    /// The flags set in `self` or in `rhs`.
    fn bitor(self, rhs: Permissions) -> (r: Permissions)
        ensures
            r@ == self@ | rhs@,
    {
        self.union(rhs)
    }
}

impl BitOrSpecImpl for Permissions {
    open spec fn obeys_bitor_spec() -> bool {
        true
    }

    open spec fn bitor_req(self, rhs: Permissions) -> bool {
        true
    }

    closed spec fn bitor_spec(self, rhs: Permissions) -> Permissions {
        Permissions { bits: self.bits | rhs.bits }
    }
}

impl core::ops::BitAnd for Permissions {
    type Output = Permissions;

    /// The flags set in both `self` and `rhs`.
    fn bitand(self, rhs: Permissions) -> (r: Permissions)
        ensures
            r@ == self@ & rhs@,
    {
        self.intersect(rhs)
    }
}

impl BitAndSpecImpl for Permissions {
    open spec fn obeys_bitand_spec() -> bool {
        true
    }

    open spec fn bitand_req(self, rhs: Permissions) -> bool {
        true
    }

    closed spec fn bitand_spec(self, rhs: Permissions) -> Permissions {
        Permissions { bits: self.bits & rhs.bits }
    }
}

impl core::ops::Sub for Permissions {
    type Output = Permissions;

    /// The flags of `self` with those of `rhs` cleared.
    fn sub(self, rhs: Permissions) -> (r: Permissions)
        ensures
            r@ == self@ & !rhs@,
    {
        self.subtract(rhs)
    }
}

impl SubSpecImpl for Permissions {
    open spec fn obeys_sub_spec() -> bool {
        true
    }

    open spec fn sub_req(self, rhs: Permissions) -> bool {
        true
    }

    closed spec fn sub_spec(self, rhs: Permissions) -> Permissions {
        Permissions { bits: self.bits & !rhs.bits }
    }
}

impl core::ops::Not for Permissions {
    type Output = Permissions;

    /// The defined flags that are not set in `self`.
    fn not(self) -> (r: Permissions)
        ensures
            r@ == !self@ & ALL_BITS,
    {
        self.complement()
    }
}

impl NotSpecImpl for Permissions {
    open spec fn obeys_not_spec() -> bool {
        true
    }

    open spec fn not_req(self) -> bool {
        true
    }

    closed spec fn not_spec(self) -> Permissions {
        Permissions { bits: !self.bits & ALL_BITS }
    }
}

/// Two sets with the same bits are the same set.
pub proof fn lemma_view_injective(a: Permissions, b: Permissions)
    ensures
        a@ == b@ <==> a == b,
{
}

} // verus!
