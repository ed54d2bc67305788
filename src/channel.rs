use vstd::prelude::*;

use crate::permissions::Override;

verus! {

/// First value stored under `key`, reading entries front to back.
pub open spec fn lookup<V>(entries: Seq<(String, V)>, key: Seq<char>) -> Option<V>
    decreases entries.len(),
{
    if entries.len() == 0 {
        None
    } else if entries[0].0@ == key {
        Some(entries[0].1)
    } else {
        lookup(entries.drop_first(), key)
    }
}

/// Index of the first entry stored under `key`.
pub fn find_entry<V>(entries: &Vec<(String, V)>, key: &String) -> (r: Option<usize>)
    ensures
        match r {
            Some(i) => i < entries@.len() && entries@[i as int].0@ == key@ && lookup(entries@, key@)
                == Some(entries@[i as int].1) && forall|k: int|
                0 <= k < i ==> entries@[k].0@ != key@,
            None => lookup(entries@, key@) is None && forall|k: int|
                0 <= k < entries@.len() ==> entries@[k].0@ != key@,
        },
{
    let mut i: usize = 0;
    assert(entries@.skip(0) =~= entries@);
    while i < entries.len()
        invariant
            i <= entries@.len(),
            lookup(entries@, key@) == lookup(entries@.skip(i as int), key@),
            forall|k: int| 0 <= k < i ==> entries@[k].0@ != key@,
        decreases entries@.len() - i,
    {
        if entries[i].0 == *key {
            return Some(i);
        }
        assert(entries@.skip(i as int).drop_first() =~= entries@.skip(i as int + 1));
        i = i + 1;
    }
    None
}

proof fn lemma_lookup_update<V>(entries: Seq<(String, V)>, i: int, e: (String, V))
    requires
        0 <= i < entries.len(),
        entries[i].0@ == e.0@,
        forall|k: int| 0 <= k < i ==> entries[k].0@ != e.0@,
    ensures
        forall|key: Seq<char>|
            #[trigger] lookup(entries.update(i, e), key) == if key == e.0@ {
                Some(e.1)
            } else {
                lookup(entries, key)
            },
    decreases i,
{
    let u = entries.update(i, e);
    assert forall|key: Seq<char>| #[trigger]
        lookup(u, key) == if key == e.0@ {
            Some(e.1)
        } else {
            lookup(entries, key)
        } by {
        if i > 0 {
            lemma_lookup_update(entries.drop_first(), i - 1, e);
            assert(u.drop_first() =~= entries.drop_first().update(i - 1, e));
            assert(u[0] == entries[0]);
            assert(entries[0].0@ != e.0@);
            if entries[0].0@ != key {
                assert(lookup(u, key) == lookup(u.drop_first(), key));
                assert(lookup(entries, key) == lookup(entries.drop_first(), key));
            }
        } else {
            assert(u.drop_first() =~= entries.drop_first());
            assert(u[0] == e);
        }
    }
}

proof fn lemma_lookup_push<V>(entries: Seq<(String, V)>, e: (String, V))
    requires
        forall|k: int| 0 <= k < entries.len() ==> entries[k].0@ != e.0@,
    ensures
        forall|key: Seq<char>|
            #[trigger] lookup(entries.push(e), key) == if key == e.0@ {
                Some(e.1)
            } else {
                lookup(entries, key)
            },
    decreases entries.len(),
{
    let p = entries.push(e);
    assert forall|key: Seq<char>| #[trigger]
        lookup(p, key) == if key == e.0@ {
            Some(e.1)
        } else {
            lookup(entries, key)
        } by {
        assert(p.len() > 0);
        if entries.len() > 0 {
            lemma_lookup_push(entries.drop_first(), e);
            assert(p.drop_first() =~= entries.drop_first().push(e));
            assert(p[0] == entries[0]);
            assert(entries[0].0@ != e.0@);
            if entries[0].0@ != key {
                assert(lookup(p, key) == lookup(p.drop_first(), key));
                assert(lookup(entries, key) == lookup(entries.drop_first(), key));
            }
        } else {
            assert(p.drop_first() =~= Seq::<(String, V)>::empty());
            assert(p[0] == e);
            if key != e.0@ {
                assert(lookup(p, key) == lookup(p.drop_first(), key));
            }
        }
    }
}

/// Stores `value` under `key`, replacing the first entry under that key.
pub fn set_entry<V>(entries: &mut Vec<(String, V)>, key: String, value: V)
    ensures
        forall|k: Seq<char>|
            #[trigger] lookup(final(entries)@, k) == if k == key@ {
                Some(value)
            } else {
                lookup(old(entries)@, k)
            },
{
    match find_entry(entries, &key) {
        Some(i) => {
            proof {
                lemma_lookup_update(entries@, i as int, (key, value));
            }
            entries.set(i, (key, value));
        },
        None => {
            proof {
                lemma_lookup_push(entries@, (key, value));
            }
            entries.push((key, value));
        },
    }
}

/// A server role.
#[derive(Clone, Debug)]
pub struct Role {
    pub name: String,
    /// The role's server-wide override.
    pub permissions: Override,
    pub colour: Option<String>,
    pub hoist: bool,
    /// Lower rank means more authority.
    pub rank: i64,
}

/// A server: its channels, roles keyed by id, and default permissions.
#[derive(Clone, Debug)]
pub struct Server {
    pub id: String,
    pub owner: String,
    pub name: String,
    pub channels: Vec<String>,
    pub roles: Vec<(String, Role)>,
    /// Applies to every member before any role override.
    pub default_permissions: u64,
}

/// A channel. Only text and voice channels carry per-role overrides; the
/// others grant access by membership.
#[derive(Clone, Debug)]
pub enum Channel {
    SavedMessages { id: String, user: String },
    DirectMessage { id: String, active: bool, recipients: Vec<String> },
    Group { id: String, name: String, owner: String, recipients: Vec<String> },
    TextChannel {
        id: String,
        server: String,
        name: String,
        role_permissions: Vec<(String, Override)>,
    },
    VoiceChannel {
        id: String,
        server: String,
        name: String,
        role_permissions: Vec<(String, Override)>,
    },
}

/// Whether the channel carries per-role overrides.
pub open spec fn is_permission_bearing(c: Channel) -> bool {
    c is TextChannel || c is VoiceChannel
}

/// The per-role overrides of a channel; empty where it has none.
pub open spec fn role_overrides(c: Channel) -> Seq<(String, Override)> {
    match c {
        Channel::TextChannel { role_permissions, .. } => role_permissions@,
        Channel::VoiceChannel { role_permissions, .. } => role_permissions@,
        _ => Seq::empty(),
    }
}

pub open spec fn channel_id(c: Channel) -> Seq<char> {
    match c {
        Channel::SavedMessages { id, .. } => id@,
        Channel::DirectMessage { id, .. } => id@,
        Channel::Group { id, .. } => id@,
        Channel::TextChannel { id, .. } => id@,
        Channel::VoiceChannel { id, .. } => id@,
    }
}

/// The two channels agree in everything but their per-role overrides.
pub open spec fn same_but_overrides(a: Channel, b: Channel) -> bool {
    match (a, b) {
        (
            Channel::TextChannel { id: i1, server: s1, name: n1, .. },
            Channel::TextChannel { id: i2, server: s2, name: n2, .. },
        ) => i1 == i2 && s1 == s2 && n1 == n2,
        (
            Channel::VoiceChannel { id: i1, server: s1, name: n1, .. },
            Channel::VoiceChannel { id: i2, server: s2, name: n2, .. },
        ) => i1 == i2 && s1 == s2 && n1 == n2,
        _ => a == b,
    }
}

impl Channel {
    /// The channel's id.
    pub fn id(&self) -> (r: String)
        ensures
            r@ == channel_id(*self),
    {
        match self {
            Channel::SavedMessages { id, .. } => id.clone(),
            Channel::DirectMessage { id, .. } => id.clone(),
            Channel::Group { id, .. } => id.clone(),
            Channel::TextChannel { id, .. } => id.clone(),
            Channel::VoiceChannel { id, .. } => id.clone(),
        }
    }

    /// The channel's override for a role; none where the channel has no
    /// entry for it or carries no per-role overrides.
    pub fn role_override(&self, role_id: &String) -> (r: Option<Override>)
        ensures
            r == lookup(role_overrides(*self), role_id@),
    {
        match self {
            Channel::TextChannel { role_permissions, .. } | Channel::VoiceChannel {
                role_permissions,
                ..
            } => match find_entry(role_permissions, role_id) {
                Some(i) => Some(role_permissions[i].1),
                None => None,
            },
            _ => None,
        }
    }

    /// Stores an override for a role; channels without per-role overrides
    /// are left as they are.
    pub fn set_role_permission(&mut self, role_id: String, value: Override)
        ensures
            same_but_overrides(*old(self), *final(self)),
            is_permission_bearing(*old(self)) ==> forall|k: Seq<char>|
                #[trigger] lookup(role_overrides(*final(self)), k) == if k == role_id@ {
                    Some(value)
                } else {
                    lookup(role_overrides(*old(self)), k)
                },
            !is_permission_bearing(*old(self)) ==> *final(self) == *old(self),
    {
        match self {
            Channel::TextChannel { role_permissions, .. } => {
                set_entry(role_permissions, role_id, value);
            },
            Channel::VoiceChannel { role_permissions, .. } => {
                set_entry(role_permissions, role_id, value);
            },
            _ => {},
        }
    }
}

} // verus!
