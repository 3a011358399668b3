//! The search for members by name.

use std::cmp::Ordering;
use vstd::prelude::*;
use vstd::string::StringSliceAdditionalSpecFns;
use vstd::utf8::encode_utf8;

use crate::guild::Guild;
use crate::guild::Member;
use crate::text::contains;
use crate::text::find;
use crate::text::first_occurrence;
use crate::text::lowercase;
use crate::text::occurs_at;
use crate::text::same_text;
use crate::text::starts_with;
use crate::text::to_lowercase;
use crate::user::OnlineStatus;

verus! {

/// Whether the lowercase form of `to_look_at` holds `to_find`, which is
/// taken as it is.
pub fn contains_case_insensitive(to_look_at: &str, to_find: &str) -> (r: bool)
    ensures
        r == first_occurrence(
            encode_utf8(lowercase(to_look_at@)),
            to_find.spec_bytes(),
            0,
        ).is_some(),
{
    let lowered = to_lowercase(to_look_at);
    contains(lowered.as_str(), to_find)
}

/// Whether the lowercase form of `to_look_at` begins with `to_find`, which
/// is taken as it is.
pub fn starts_with_case_insensitive(to_look_at: &str, to_find: &str) -> (r: bool)
    ensures
        r == occurs_at(encode_utf8(lowercase(to_look_at@)), to_find.spec_bytes(), 0),
{
    let lowered = to_lowercase(to_look_at);
    starts_with(lowered.as_str(), to_find)
}

/// How far a word is from a text that it holds: the position at which the
/// text first stands in the word, plus the length of the word, both in
/// bytes. A word that does not hold the text has no distance.
pub open spec fn distance_to_origin(origin: Seq<u8>, word: Seq<u8>) -> Option<int> {
    match first_occurrence(word, origin, 0) {
        Some(at) => Some(at + word.len()),
        None => None,
    }
}

/// Which of two words is closer to `origin`: the one with the smaller
/// `distance_to_origin`. A first word that does not hold `origin` counts as
/// farther, whatever the second is; otherwise a second word that does not
/// hold it counts as farther.
pub fn closest_to_origin(origin: &str, word_a: &str, word_b: &str) -> (r: Ordering)
    ensures
        r == match distance_to_origin(origin.spec_bytes(), word_a.spec_bytes()) {
            None => Ordering::Greater,
            Some(a) => match distance_to_origin(origin.spec_bytes(), word_b.spec_bytes()) {
                None => Ordering::Less,
                Some(b) => if a < b {
                    Ordering::Less
                } else if a == b {
                    Ordering::Equal
                } else {
                    Ordering::Greater
                },
            },
        },
{
    let at_a = match find(word_a, origin) {
        Some(at) => at,
        None => {
            return Ordering::Greater;
        },
    };
    let at_b = match find(word_b, origin) {
        Some(at) => at,
        None => {
            return Ordering::Less;
        },
    };
    let len_a = word_a.as_bytes().len();
    let len_b = word_b.as_bytes().len();
    if at_a >= at_b && len_a >= len_b {
        if at_a == at_b && len_a == len_b {
            Ordering::Equal
        } else {
            Ordering::Greater
        }
    } else if at_a <= at_b && len_a <= len_b {
        Ordering::Less
    } else if at_a > at_b {
        let more: usize = at_a - at_b;
        let less: usize = len_b - len_a;
        if more < less {
            Ordering::Less
        } else if more == less {
            Ordering::Equal
        } else {
            Ordering::Greater
        }
    } else {
        let more: usize = len_a - len_b;
        let less: usize = at_b - at_a;
        if more < less {
            Ordering::Less
        } else if more == less {
            Ordering::Equal
        } else {
            Ordering::Greater
        }
    }
}

/// What members of a guild are asked for.
#[derive(Clone, Copy, Debug)]
pub enum MemberQuery<'a> {
    /// Those whose username or nickname begins with a text.
    StartingWith { prefix: &'a str, case_sensitive: bool },
    /// Those whose username or nickname holds a text.
    Containing { substring: &'a str, case_sensitive: bool },
    /// Those whose username holds a text.
    UsernameContaining { substring: &'a str, case_sensitive: bool },
    /// Those whose nickname holds a text.
    NickContaining { substring: &'a str, case_sensitive: bool },
    /// Those who are present with a status.
    WithStatus(OnlineStatus),
}

/// Whether a name begins with a text. Unless the case counts, it is the
/// lowercase form of the name that is looked at; the text is taken as it is.
pub open spec fn name_starts_with(name: Seq<char>, text: Seq<u8>, case_sensitive: bool) -> bool {
    if case_sensitive {
        occurs_at(encode_utf8(name), text, 0)
    } else {
        occurs_at(encode_utf8(lowercase(name)), text, 0)
    }
}

/// Whether a name holds a text. Unless the case counts, it is the lowercase
/// form of the name that is looked at; the text is taken as it is.
pub open spec fn name_contains(name: Seq<char>, text: Seq<u8>, case_sensitive: bool) -> bool {
    if case_sensitive {
        first_occurrence(encode_utf8(name), text, 0).is_some()
    } else {
        first_occurrence(encode_utf8(lowercase(name)), text, 0).is_some()
    }
}

/// Whether a name begins with a text.
fn starts(name: &str, text: &str, case_sensitive: bool) -> (r: bool)
    ensures
        r == name_starts_with(name@, text.spec_bytes(), case_sensitive),
{
    if case_sensitive {
        starts_with(name, text)
    } else {
        starts_with_case_insensitive(name, text)
    }
}

/// Whether a name holds a text.
fn holds(name: &str, text: &str, case_sensitive: bool) -> (r: bool)
    ensures
        r == name_contains(name@, text.spec_bytes(), case_sensitive),
{
    if case_sensitive {
        contains(name, text)
    } else {
        contains_case_insensitive(name, text)
    }
}

impl<'a> MemberQuery<'a> {
    /// Whether the member under `key` is asked for.
    pub open spec fn wants(self, guild: &Guild, key: u64) -> bool {
        let member = guild.members@[key];
        match self {
            MemberQuery::StartingWith { prefix, case_sensitive } => name_starts_with(
                member.user.name@,
                prefix.spec_bytes(),
                case_sensitive,
            ) || (member.nick matches Some(nick) && name_starts_with(
                nick@,
                prefix.spec_bytes(),
                case_sensitive,
            )),
            MemberQuery::Containing { substring, case_sensitive } => name_contains(
                member.user.name@,
                substring.spec_bytes(),
                case_sensitive,
            ) || (member.nick matches Some(nick) && name_contains(
                nick@,
                substring.spec_bytes(),
                case_sensitive,
            )),
            MemberQuery::UsernameContaining { substring, case_sensitive } => name_contains(
                member.user.name@,
                substring.spec_bytes(),
                case_sensitive,
            ),
            MemberQuery::NickContaining { substring, case_sensitive } => member.nick matches Some(
                nick,
            ) && name_contains(nick@, substring.spec_bytes(), case_sensitive),
            MemberQuery::WithStatus(status) => guild.presences@.contains_key(key)
                && guild.presences@[key].status == status,
        }
    }

    /// Whether the member under `key` is asked for.
    fn test(&self, guild: &Guild, key: u64, member: &Member) -> (r: bool)
        requires
            guild.members@.contains_key(key),
            guild.members@[key] == *member,
        ensures
            r == self.wants(guild, key),
    {
        broadcast use vstd::std_specs::hash::group_hash_axioms;

        match self {
            MemberQuery::StartingWith { prefix, case_sensitive } => {
                if starts(member.user.name.as_str(), prefix, *case_sensitive) {
                    true
                } else {
                    match &member.nick {
                        Some(nick) => starts(nick.as_str(), prefix, *case_sensitive),
                        None => false,
                    }
                }
            },
            MemberQuery::Containing { substring, case_sensitive } => {
                if holds(member.user.name.as_str(), substring, *case_sensitive) {
                    true
                } else {
                    match &member.nick {
                        Some(nick) => holds(nick.as_str(), substring, *case_sensitive),
                        None => false,
                    }
                }
            },
            MemberQuery::UsernameContaining { substring, case_sensitive } => holds(
                member.user.name.as_str(),
                substring,
                *case_sensitive,
            ),
            MemberQuery::NickContaining { substring, case_sensitive } => match &member.nick {
                Some(nick) => holds(nick.as_str(), substring, *case_sensitive),
                None => false,
            },
            MemberQuery::WithStatus(status) => match guild.presences.get(&key) {
                Some(presence) => presence.status == *status,
                None => false,
            },
        }
    }

    /// The text that was asked for.
    pub open spec fn origin(self) -> Seq<u8> {
        match self {
            MemberQuery::StartingWith { prefix, .. } => prefix.spec_bytes(),
            MemberQuery::Containing { substring, .. } => substring.spec_bytes(),
            MemberQuery::UsernameContaining { substring, .. } => substring.spec_bytes(),
            MemberQuery::NickContaining { substring, .. } => substring.spec_bytes(),
            MemberQuery::WithStatus(_) => Seq::empty(),
        }
    }

    /// The text that was asked for.
    fn text(&self) -> (r: &'a str)
        ensures
            r.spec_bytes() == self.origin(),
    {
        match self {
            MemberQuery::StartingWith { prefix, .. } => prefix,
            MemberQuery::Containing { substring, .. } => substring,
            MemberQuery::UsernameContaining { substring, .. } => substring,
            MemberQuery::NickContaining { substring, .. } => substring,
            MemberQuery::WithStatus(_) => {
                proof {
                    reveal_strlit("");
                    assert(""@ =~= Seq::<char>::empty());
                    assert(encode_utf8(Seq::<char>::empty()) =~= Seq::<u8>::empty()) by {
                        reveal_with_fuel(encode_utf8, 1);
                    }
                }
                ""
            },
        }
    }

    /// The name by which a member is put in order. Where both the username
    /// and the nickname were searched, it is the username if its lowercase
    /// form holds the text, and the nickname otherwise; where the nickname
    /// was searched, it is the nickname. A member without a nickname goes by
    /// the username.
    pub open spec fn sort_name(self, member: Member) -> Seq<char> {
        match self {
            MemberQuery::StartingWith { .. } | MemberQuery::Containing { .. } => match member.nick {
                Some(nick) => if name_contains(member.user.name@, self.origin(), false) {
                    member.user.name@
                } else {
                    nick@
                },
                None => member.user.name@,
            },
            MemberQuery::NickContaining { .. } => match member.nick {
                Some(nick) => nick@,
                None => member.user.name@,
            },
            _ => member.user.name@,
        }
    }

    /// The name by which a member is put in order.
    fn name_of<'m>(&self, member: &'m Member) -> (r: &'m str)
        ensures
            r@ == self.sort_name(*member),
    {
        match self {
            MemberQuery::StartingWith { .. } | MemberQuery::Containing { .. } => {
                match &member.nick {
                    Some(nick) => if contains_case_insensitive(
                        member.user.name.as_str(),
                        self.text(),
                    ) {
                        member.user.name.as_str()
                    } else {
                        nick.as_str()
                    },
                    None => member.user.name.as_str(),
                }
            },
            MemberQuery::NickContaining { .. } => match &member.nick {
                Some(nick) => nick.as_str(),
                None => member.user.name.as_str(),
            },
            _ => member.user.name.as_str(),
        }
    }

    /// How far a member is from the text that was asked for.
    pub open spec fn distance(self, member: Member) -> Option<int> {
        distance_to_origin(self.origin(), encode_utf8(self.sort_name(member)))
    }

    /// Whether members stand in the order of their distance from the text
    /// that was asked for, those whose name does not hold the text last.
    pub open spec fn ordered(self, listed: Seq<&Member>) -> bool {
        forall|i: int, j: int|
            0 <= i < j < listed.len() && self.distance(*listed[j]).is_some() ==> self.distance(
                *listed[i],
            ).is_some() && self.distance(*listed[i]).unwrap() <= self.distance(
                *listed[j],
            ).unwrap()
    }

    /// Whether a member is farther from the text than another, as
    /// `closest_to_origin` sees it.
    fn farther(&self, member: &Member, other: &Member) -> (r: bool)
        ensures
            r == match self.distance(*member) {
                None => true,
                Some(a) => match self.distance(*other) {
                    None => false,
                    Some(b) => a > b,
                },
            },
    {
        match closest_to_origin(self.text(), self.name_of(member), self.name_of(other)) {
            Ordering::Greater => true,
            _ => false,
        }
    }
}

impl Guild {
    /// Whether `listed` holds the members that are asked for, each of them
    /// once, in some order; and, if `sorted`, in the order of their distance
    /// from the text that was asked for.
    pub open spec fn lists(&self, query: MemberQuery, sorted: bool, listed: Seq<&Member>) -> bool {
        exists|keys: Seq<u64>|
            {
                &&& keys.no_duplicates()
                &&& forall|key: u64|
                    #![trigger keys.contains(key)]
                    #![trigger self.members@.contains_key(key)]
                    #![trigger query.wants(self, key)]
                    keys.contains(key) <==> self.members@.contains_key(key) && query.wants(
                        self,
                        key,
                    )
                &&& listed.len() == keys.len()
                &&& forall|i: int|
                    0 <= i < listed.len() ==> *#[trigger] listed[i] == self.members@[keys[i]]
                &&& sorted ==> query.ordered(listed)
            }
    }

    /// The members that are asked for.
    fn list_members<'a>(&'a self, query: &MemberQuery, sorted: bool) -> (r: Vec<&'a Member>)
        ensures
            self.lists(*query, sorted, r@),
    {
        broadcast use vstd::std_specs::hash::group_hash_axioms;

        let mut listed: Vec<&'a Member> = Vec::new();
        let ghost mut keys: Seq<u64> = Seq::empty();
        for pair in it: self.members.iter()
            invariant
                it.seq().no_duplicates(),
                forall|i: int|
                    0 <= i < it.seq().len() ==> self.members@.contains_key(
                        *(#[trigger] it.seq()[i]).0,
                    ) && self.members@[*it.seq()[i].0] == *it.seq()[i].1,
                forall|key: u64| #[trigger]
                    self.members@.contains_key(key) ==> exists|i: int|
                        0 <= i < it.seq().len() && *(#[trigger] it.seq()[i]).0 == key,
                keys.no_duplicates(),
                forall|key: u64|
                    keys.contains(key) <==> (exists|i: int|
                        0 <= i < it.index() && *(#[trigger] it.seq()[i]).0 == key) && query.wants(
                        self,
                        key,
                    ),
                listed@.len() == keys.len(),
                forall|i: int|
                    0 <= i < listed@.len() ==> *#[trigger] listed@[i] == self.members@[keys[i]],
                sorted ==> query.ordered(listed@),
        {
            let key: u64 = *pair.0;
            let member: &'a Member = pair.1;
            let ghost seen = it.index();
            let ghost keys_at_start = keys;
            proof {
                assert(*it.seq()[seen].0 == key);
                if keys.contains(key) {
                    let earlier = choose|i: int|
                        0 <= i < seen && *(#[trigger] it.seq()[i]).0 == key;
                    assert(it.seq()[earlier] == it.seq()[seen]);
                }
            }
            let wanted = query.test(self, key, member);
            if wanted {
                let mut at: usize = listed.len();
                let mut searching = sorted;
                while searching && at > 0
                    invariant
                        at <= listed@.len(),
                        forall|j: int|
                            at <= j < listed@.len() ==> match query.distance(
                                *#[trigger] listed@[j],
                            ) {
                                None => true,
                                Some(a) => match query.distance(*member) {
                                    None => false,
                                    Some(b) => a > b,
                                },
                            },
                        searching || !sorted || at == 0 || match query.distance(
                            *listed@[at - 1],
                        ) {
                            None => false,
                            Some(a) => match query.distance(*member) {
                                None => true,
                                Some(b) => a <= b,
                            },
                        },
                    decreases at + (if searching { 1int } else { 0int }),
                {
                    if query.farther(listed[at - 1], member) {
                        at -= 1;
                    } else {
                        searching = false;
                    }
                }
                let ghost before = listed@;
                let ghost keys_before = keys;
                listed.insert(at, member);
                proof {
                    keys = keys_before.insert(at as int, key);
                    lemma_insert_key(keys_before, at as int, key);
                    assert forall|i: int| 0 <= i < listed@.len() implies *#[trigger] listed@[i]
                        == self.members@[keys[i]] by {
                        if i < at {
                            assert(listed@[i] == before[i]);
                        } else if i > at {
                            assert(listed@[i] == before[i - 1]);
                        }
                    }
                    if sorted {
                        assert forall|i: int, j: int|
                            0 <= i < j < listed@.len() && query.distance(
                                *listed@[j],
                            ).is_some() implies query.distance(*listed@[i]).is_some()
                            && query.distance(*listed@[i]).unwrap() <= query.distance(
                            *listed@[j],
                        ).unwrap() by {
                            let old_i = if i < at {
                                i
                            } else {
                                i - 1
                            };
                            let old_j = if j < at {
                                j
                            } else {
                                j - 1
                            };
                            if i != at && j != at {
                                assert(listed@[i] == before[old_i]);
                                assert(listed@[j] == before[old_j]);
                            } else if j == at {
                                assert(listed@[i] == before[i]);
                                if i < at - 1 {
                                    assert(query.distance(*before[at - 1]).is_some());
                                }
                            } else {
                                assert(listed@[j] == before[j - 1]);
                            }
                        }
                    }
                }
            }
            proof {
                assert forall|other: u64|
                    keys.contains(other) <==> (exists|i: int|
                        0 <= i < seen + 1 && *(#[trigger] it.seq()[i]).0 == other) && query.wants(
                        self,
                        other,
                    ) by {
                    if keys_at_start.contains(other) {
                        let earlier = choose|i: int|
                            0 <= i < seen && *(#[trigger] it.seq()[i]).0 == other;
                        assert(0 <= earlier < seen + 1);
                    }
                    if (exists|i: int| 0 <= i < seen + 1 && *(#[trigger] it.seq()[i]).0 == other)
                        && query.wants(self, other) {
                        let i = choose|i: int|
                            0 <= i < seen + 1 && *(#[trigger] it.seq()[i]).0 == other;
                        if i < seen {
                            assert(keys_at_start.contains(other));
                        }
                    }
                }
            }
        }
        proof {
            assert(self.lists(*query, sorted, listed@)) by {
                assert(keys.no_duplicates());
            }
        }
        listed
    }

    /// Whether the member under `key` has `name` as username.
    pub open spec fn is_named(&self, key: u64, name: Seq<char>) -> bool {
        self.members@[key].user.name@ == name
    }

    /// Whether the member under `key` has `name` as nickname.
    pub open spec fn is_nicknamed(&self, key: u64, name: Seq<char>) -> bool {
        self.members@[key].nick matches Some(nick) && nick@ == name
    }

    /// A member whose username is `name`; or, if there is none, a member
    /// whose nickname is `name`. The text is taken whole, a `#` and what
    /// follows it included, so it is never a username with a discriminator
    /// that is looked for. Where several members qualify, any of them may
    /// come back.
    pub fn member_named(&self, name: &str) -> (r: Option<&Member>)
        ensures
            match r {
                Some(member) => exists|key: u64|
                    #![trigger self.members@[key]]
                    {
                        &&& self.members@.contains_key(key)
                        &&& self.members@[key] == *member
                        &&& self.is_named(key, name@) || (self.is_nicknamed(key, name@)
                            && forall|other: u64| #[trigger]
                            self.members@.contains_key(other) ==> !self.is_named(other, name@))
                    },
                None => forall|key: u64| #[trigger]
                    self.members@.contains_key(key) ==> !self.is_named(key, name@)
                        && !self.is_nicknamed(key, name@),
            },
    {
        broadcast use vstd::std_specs::hash::group_hash_axioms;

        for pair in it: self.members.iter()
            invariant
                forall|i: int|
                    0 <= i < it.seq().len() ==> self.members@.contains_key(
                        *(#[trigger] it.seq()[i]).0,
                    ) && self.members@[*it.seq()[i].0] == *it.seq()[i].1,
                forall|key: u64| #[trigger]
                    self.members@.contains_key(key) ==> exists|i: int|
                        0 <= i < it.seq().len() && *(#[trigger] it.seq()[i]).0 == key,
                forall|i: int|
                    0 <= i < it.index() ==> !self.is_named(*(#[trigger] it.seq()[i]).0, name@),
        {
            let member: &Member = pair.1;
            if same_text(member.user.name.as_str(), name) {
                assert(self.members@[*pair.0] == *member);
                return Some(member);
            }
        }
        assert forall|other: u64| #[trigger] self.members@.contains_key(other) implies !self.is_named(
            other,
            name@,
        ) by {
        }
        for pair in it: self.members.iter()
            invariant
                forall|other: u64| #[trigger]
                    self.members@.contains_key(other) ==> !self.is_named(other, name@),
                forall|i: int|
                    0 <= i < it.seq().len() ==> self.members@.contains_key(
                        *(#[trigger] it.seq()[i]).0,
                    ) && self.members@[*it.seq()[i].0] == *it.seq()[i].1,
                forall|key: u64| #[trigger]
                    self.members@.contains_key(key) ==> exists|i: int|
                        0 <= i < it.seq().len() && *(#[trigger] it.seq()[i]).0 == key,
                forall|i: int|
                    0 <= i < it.index() ==> !self.is_nicknamed(
                        *(#[trigger] it.seq()[i]).0,
                        name@,
                    ),
        {
            let member: &Member = pair.1;
            let found = match &member.nick {
                Some(nick) => same_text(nick.as_str(), name),
                None => false,
            };
            if found {
                assert(self.members@[*pair.0] == *member);
                return Some(member);
            }
        }
        None
    }

    /// The members that are present with a status, each of them once, in no
    /// particular order.
    pub fn members_with_status(&self, status: OnlineStatus) -> (r: Vec<&Member>)
        ensures
            self.lists(MemberQuery::WithStatus(status), false, r@),
    {
        self.list_members(&MemberQuery::WithStatus(status), false)
    }

    /// The members whose username or nickname begins with `prefix`, each of
    /// them once. If `sorted`, they stand in the order of their distance from
    /// `prefix`.
    pub fn members_starting_with(&self, prefix: &str, case_sensitive: bool, sorted: bool) -> (r:
        Vec<&Member>)
        ensures
            self.lists(MemberQuery::StartingWith { prefix, case_sensitive }, sorted, r@),
    {
        self.list_members(&MemberQuery::StartingWith { prefix, case_sensitive }, sorted)
    }

    /// The members whose username or nickname holds `substring`, each of
    /// them once. If `sorted`, they stand in the order of their distance from
    /// `substring`.
    pub fn members_containing(&self, substring: &str, case_sensitive: bool, sorted: bool) -> (r:
        Vec<&Member>)
        ensures
            self.lists(MemberQuery::Containing { substring, case_sensitive }, sorted, r@),
    {
        self.list_members(&MemberQuery::Containing { substring, case_sensitive }, sorted)
    }

    /// The members whose username holds `substring`, each of them once. If
    /// `sorted`, they stand in the order of their distance from `substring`.
    pub fn members_username_containing(
        &self,
        substring: &str,
        case_sensitive: bool,
        sorted: bool,
    ) -> (r: Vec<&Member>)
        ensures
            self.lists(MemberQuery::UsernameContaining { substring, case_sensitive }, sorted, r@),
    {
        self.list_members(&MemberQuery::UsernameContaining { substring, case_sensitive }, sorted)
    }

    /// The members whose nickname holds `substring`, each of them once. If
    /// `sorted`, they stand in the order of their distance from `substring`.
    pub fn members_nick_containing(&self, substring: &str, case_sensitive: bool, sorted: bool) -> (r:
        Vec<&Member>)
        ensures
            self.lists(MemberQuery::NickContaining { substring, case_sensitive }, sorted, r@),
    {
        self.list_members(&MemberQuery::NickContaining { substring, case_sensitive }, sorted)
    }
}

/// A list of keys without duplicates stays one when a new key is put in,
/// and holds the new key besides the old ones.
proof fn lemma_insert_key(keys: Seq<u64>, at: int, key: u64)
    requires
        keys.no_duplicates(),
        !keys.contains(key),
        0 <= at <= keys.len(),
    ensures
        keys.insert(at, key).no_duplicates(),
        keys.insert(at, key).len() == keys.len() + 1,
        keys.insert(at, key)[at] == key,
        forall|i: int| 0 <= i < at ==> keys.insert(at, key)[i] == keys[i],
        forall|i: int| at < i <= keys.len() ==> keys.insert(at, key)[i] == keys[i - 1],
        forall|other: u64|
            keys.insert(at, key).contains(other) <==> other == key || keys.contains(other),
{
    let longer = keys.insert(at, key);
    assert forall|i: int, j: int| 0 <= i < longer.len() && 0 <= j < longer.len() && i != j implies
        longer[i] != longer[j] by {
        let old_i = if i < at {
            i
        } else {
            i - 1
        };
        let old_j = if j < at {
            j
        } else {
            j - 1
        };
        if i != at && j != at {
            assert(longer[i] == keys[old_i]);
            assert(longer[j] == keys[old_j]);
        } else if i == at {
            assert(longer[j] == keys[old_j]);
        } else {
            assert(longer[i] == keys[old_i]);
        }
    }
    assert forall|other: u64| longer.contains(other) <==> other == key || keys.contains(
        other,
    ) by {
        if longer.contains(other) {
            let i = choose|i: int| 0 <= i < longer.len() && longer[i] == other;
            if i < at {
                assert(keys[i] == other);
            } else if i > at {
                assert(keys[i - 1] == other);
            }
        }
        if keys.contains(other) {
            let i = choose|i: int| 0 <= i < keys.len() && keys[i] == other;
            if i < at {
                assert(longer[i] == other);
            } else {
                assert(longer[i + 1] == other);
            }
        }
        if other == key {
            assert(longer[at] == other);
        }
    }
}

} // verus!
