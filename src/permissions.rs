use vstd::prelude::*;
use vstd::seq_lib::to_multiset_build;
use vstd::seq_lib::to_multiset_insert;

use crate::error::Error;

verus! {

/// A named capability and its fixed bit position in a permission bitfield.
///
/// The same position means the same capability at server and at channel level.
#[derive(Clone, Copy, Debug, PartialEq, Eq, Structural)]
pub enum ChannelPermission {
    ManageChannel,
    ManageServer,
    ManagePermissions,
    ManageRole,
    ManageCustomisation,
    KickMembers,
    BanMembers,
    TimeoutMembers,
    AssignRoles,
    ChangeNickname,
    ManageNicknames,
    ChangeAvatar,
    RemoveAvatars,
    ViewChannel,
    ReadMessageHistory,
    SendMessage,
    ManageMessages,
    ManageWebhooks,
    InviteOthers,
    SendEmbeds,
    UploadFiles,
    Masquerade,
    React,
    Connect,
    Speak,
    Video,
    MuteMembers,
    DeafenMembers,
    MoveMembers,
}

/// Bit position of each capability.
pub open spec fn bit_index(p: ChannelPermission) -> u64 {
    match p {
        ChannelPermission::ManageChannel => 0,
        ChannelPermission::ManageServer => 1,
        ChannelPermission::ManagePermissions => 2,
        ChannelPermission::ManageRole => 3,
        ChannelPermission::ManageCustomisation => 4,
        ChannelPermission::KickMembers => 6,
        ChannelPermission::BanMembers => 7,
        ChannelPermission::TimeoutMembers => 8,
        ChannelPermission::AssignRoles => 9,
        ChannelPermission::ChangeNickname => 10,
        ChannelPermission::ManageNicknames => 11,
        ChannelPermission::ChangeAvatar => 12,
        ChannelPermission::RemoveAvatars => 13,
        ChannelPermission::ViewChannel => 20,
        ChannelPermission::ReadMessageHistory => 21,
        ChannelPermission::SendMessage => 22,
        ChannelPermission::ManageMessages => 23,
        ChannelPermission::ManageWebhooks => 24,
        ChannelPermission::InviteOthers => 25,
        ChannelPermission::SendEmbeds => 26,
        ChannelPermission::UploadFiles => 27,
        ChannelPermission::Masquerade => 28,
        ChannelPermission::React => 29,
        ChannelPermission::Connect => 30,
        ChannelPermission::Speak => 31,
        ChannelPermission::Video => 32,
        ChannelPermission::MuteMembers => 33,
        ChannelPermission::DeafenMembers => 34,
        ChannelPermission::MoveMembers => 35,
    }
}

/// The single-bit mask of a capability.
pub open spec fn bit_of(p: ChannelPermission) -> u64 {
    1u64 << bit_index(p)
}

impl ChannelPermission {
    /// The single-bit mask of this capability.
    pub fn bit(&self) -> (r: u64)
        ensures
            r == bit_of(*self),
    {
        let i: u64 = match self {
            ChannelPermission::ManageChannel => 0,
            ChannelPermission::ManageServer => 1,
            ChannelPermission::ManagePermissions => 2,
            ChannelPermission::ManageRole => 3,
            ChannelPermission::ManageCustomisation => 4,
            ChannelPermission::KickMembers => 6,
            ChannelPermission::BanMembers => 7,
            ChannelPermission::TimeoutMembers => 8,
            ChannelPermission::AssignRoles => 9,
            ChannelPermission::ChangeNickname => 10,
            ChannelPermission::ManageNicknames => 11,
            ChannelPermission::ChangeAvatar => 12,
            ChannelPermission::RemoveAvatars => 13,
            ChannelPermission::ViewChannel => 20,
            ChannelPermission::ReadMessageHistory => 21,
            ChannelPermission::SendMessage => 22,
            ChannelPermission::ManageMessages => 23,
            ChannelPermission::ManageWebhooks => 24,
            ChannelPermission::InviteOthers => 25,
            ChannelPermission::SendEmbeds => 26,
            ChannelPermission::UploadFiles => 27,
            ChannelPermission::Masquerade => 28,
            ChannelPermission::React => 29,
            ChannelPermission::Connect => 30,
            ChannelPermission::Speak => 31,
            ChannelPermission::Video => 32,
            ChannelPermission::MuteMembers => 33,
            ChannelPermission::DeafenMembers => 34,
            ChannelPermission::MoveMembers => 35,
        };
        1u64 << i
    }
}

/// A permission delta: bits to grant and bits to revoke.
#[derive(Clone, Copy, Debug, PartialEq, Eq, Structural)]
pub struct Override {
    pub allow: u64,
    pub deny: u64,
}

/// An override layered onto a base value: deny first, then allow.
pub open spec fn apply_spec(base: u64, o: Override) -> u64 {
    (base & !o.deny) | o.allow
}

/// Left-to-right fold of an override chain over a base value.
pub open spec fn resolve_spec(base: u64, chain: Seq<Override>) -> u64
    decreases chain.len(),
{
    if chain.len() == 0 {
        base
    } else {
        apply_spec(resolve_spec(base, chain.drop_last()), chain.last())
    }
}

/// An override that neither grants nor revokes in the same bit.
pub open spec fn is_normalized(o: Override) -> bool {
    o.allow & o.deny == 0
}

impl Override {
    /// Builds an override; where a bit is both allowed and denied, deny wins.
    pub fn new(allow: u64, deny: u64) -> (r: Override)
        ensures
            r.allow == allow & !deny,
            r.deny == deny,
            is_normalized(r),
    {
        let r = Override { allow: allow & !deny, deny };
        assert((allow & !deny) & deny == 0) by (bit_vector);
        r
    }

    /// The value of `base` after this override.
    pub fn apply_to(&self, base: u64) -> (r: u64)
        ensures
            r == apply_spec(base, *self),
    {
        (base & !self.deny) | self.allow
    }
}

/// A 64-bit permission bitfield.
#[derive(Clone, Copy, Debug, PartialEq, Eq, Structural)]
pub struct PermissionValue {
    pub value: u64,
}

impl PermissionValue {
    /// Whether every bit of `flags` is held.
    pub fn has(&self, flags: u64) -> (r: bool)
        ensures
            r == (self.value & flags == flags),
    {
        self.value & flags == flags
    }

    /// Whether the capability's bit is held.
    pub fn has_channel_permission(&self, p: ChannelPermission) -> (r: bool)
        ensures
            r == (self.value & bit_of(p) != 0),
    {
        self.value & p.bit() != 0
    }

    /// Fails with `Unauthorized` when the capability's bit is not held.
    pub fn throw_if_lacking_channel_permission(&self, p: ChannelPermission) -> (r: Result<(), Error>)
        ensures
            r == (if self.value & bit_of(p) != 0 {
                Ok::<(), Error>(())
            } else {
                Err(Error::Unauthorized)
            }),
    {
        if self.has_channel_permission(p) {
            Ok(())
        } else {
            Err(Error::Unauthorized)
        }
    }

    /// Layers an override onto this value.
    pub fn apply(&mut self, o: Override)
        ensures
            final(self).value == apply_spec(old(self).value, o),
    {
        self.value = o.apply_to(self.value);
    }
}

/// Folds the override chain left to right onto `base`.
pub fn resolve(base: u64, chain: &Vec<Override>) -> (r: u64)
    ensures
        r == resolve_spec(base, chain@),
{
    let mut acc: u64 = base;
    let mut i: usize = 0;
    while i < chain.len()
        invariant
            i <= chain@.len(),
            acc == resolve_spec(base, chain@.take(i as int)),
        decreases chain@.len() - i,
    {
        assert(chain@.take(i as int + 1).drop_last() =~= chain@.take(i as int));
        acc = chain[i].apply_to(acc);
        i = i + 1;
    }
    assert(chain@.take(i as int) =~= chain@);
    acc
}

/// Folding a concatenation is folding its first part, then the second.
pub proof fn lemma_resolve_concat(base: u64, a: Seq<Override>, b: Seq<Override>)
    ensures
        resolve_spec(base, a + b) == resolve_spec(resolve_spec(base, a), b),
    decreases b.len(),
{
    if b.len() == 0 {
        assert(a + b =~= a);
    } else {
        assert((a + b).drop_last() =~= a + b.drop_last());
        lemma_resolve_concat(base, a, b.drop_last());
    }
}

/// A single normalized override turns `base` into `(base & !deny) | allow`.
pub proof fn lemma_resolve_single(base: u64, o: Override)
    requires
        is_normalized(o),
    ensures
        resolve_spec(base, seq![o]) == (base & !o.deny) | o.allow,
{
    reveal_with_fuel(resolve_spec, 2);
    assert(seq![o].drop_last() =~= Seq::<Override>::empty());
}

/// Layering overrides in sequence groups either way: applying `a`, then `b`
/// and `c` together, equals applying `a` and `b` together, then `c`.
pub proof fn lemma_resolve_associative(
    base: u64,
    a: Seq<Override>,
    b: Seq<Override>,
    c: Seq<Override>,
)
    ensures
        resolve_spec(resolve_spec(base, a), b + c) == resolve_spec(
            resolve_spec(base, a + b),
            c,
        ),
        resolve_spec(base, (a + b) + c) == resolve_spec(base, a + (b + c)),
{
    lemma_resolve_concat(resolve_spec(base, a), b, c);
    lemma_resolve_concat(base, a, b);
    assert((a + b) + c =~= a + (b + c));
}

/// A role that the member holds, as seen from one channel.
#[derive(Clone, Copy, Debug, PartialEq, Eq, Structural)]
pub struct HeldRole {
    /// Lower rank means more authority.
    pub rank: i64,
    /// The role's server-wide override.
    pub server: Override,
    /// The channel's override for this role, if the channel has one.
    pub channel: Option<Override>,
}

/// The sources of one member's permissions in one channel.
#[derive(Clone, Debug)]
pub struct PermissionContext {
    pub default_permissions: u64,
    pub roles: Vec<HeldRole>,
    /// A direct override for the member, applied last.
    pub member: Option<Override>,
}

/// Roles in the order their overrides apply: least authority first, so the
/// most authoritative role is applied last and wins conflicts.
pub open spec fn is_authority_order(order: Seq<HeldRole>, roles: Seq<HeldRole>) -> bool {
    &&& order.to_multiset() == roles.to_multiset()
    &&& forall|i: int, j: int| 0 <= i < j < order.len() ==> order[i].rank >= order[j].rank
}

pub open spec fn channel_or_none(r: HeldRole) -> Override {
    match r.channel {
        Some(o) => o,
        None => Override { allow: 0, deny: 0 },
    }
}

/// The override chain: server-wide role overrides, then channel role
/// overrides in the same order, then the member's own override.
pub open spec fn chain_spec(order: Seq<HeldRole>, member: Option<Override>) -> Seq<Override> {
    order.map_values(|r: HeldRole| r.server) + order.map_values(|r: HeldRole| channel_or_none(r))
        + match member {
        Some(m) => seq![m],
        None => Seq::<Override>::empty(),
    }
}

/// Orders roles so that the most authoritative (lowest rank) come last;
/// roles of equal rank keep their relative order.
fn authority_order(roles: &Vec<HeldRole>) -> (r: Vec<HeldRole>)
    ensures
        is_authority_order(r@, roles@),
{
    broadcast use to_multiset_build, to_multiset_insert;

    let mut out: Vec<HeldRole> = Vec::new();
    let mut i: usize = 0;
    assert(roles@.take(0) =~= out@);
    while i < roles.len()
        invariant
            i <= roles@.len(),
            out@.to_multiset() == roles@.take(i as int).to_multiset(),
            forall|a: int, b: int| 0 <= a < b < out@.len() ==> out@[a].rank >= out@[b].rank,
        decreases roles@.len() - i,
    {
        let x = roles[i];
        let mut j: usize = 0;
        while j < out.len() && out[j].rank >= x.rank
            invariant
                j <= out@.len(),
                forall|k: int| 0 <= k < j ==> out@[k].rank >= x.rank,
            decreases out@.len() - j,
        {
            j = j + 1;
        }
        let ghost prev = out@;
        out.insert(j, x);
        assert(roles@.take(i as int + 1) =~= roles@.take(i as int).push(x));
        proof {
            to_multiset_insert(prev, j as int, x);
            to_multiset_build(roles@.take(i as int), x);
        }
        assert forall|a: int, b: int| 0 <= a < b < out@.len() implies out@[a].rank
            >= out@[b].rank by {
            if j < prev.len() {
                assert(prev[j as int].rank < x.rank);
            }
        }
        i = i + 1;
    }
    assert(roles@.take(i as int) =~= roles@);
    out
}

/// Effective permissions of one member in one channel: the server default,
/// then each held role's server-wide override and each held role's channel
/// override in authority order, then the member's direct override.
pub fn calculate_channel_permissions(ctx: &PermissionContext) -> (r: PermissionValue)
    ensures
        exists|order: Seq<HeldRole>|
            #![trigger is_authority_order(order, ctx.roles@)]
            is_authority_order(order, ctx.roles@) && r.value == resolve_spec(
                ctx.default_permissions,
                chain_spec(order, ctx.member),
            ),
{
    let order = authority_order(&ctx.roles);
    let mut chain: Vec<Override> = Vec::new();
    let mut i: usize = 0;
    while i < order.len()
        invariant
            i <= order@.len(),
            chain@ =~= order@.take(i as int).map_values(|r: HeldRole| r.server),
        decreases order@.len() - i,
    {
        chain.push(order[i].server);
        i = i + 1;
    }
    assert(order@.take(i as int) =~= order@);
    let ghost first = chain@;
    let mut k: usize = 0;
    while k < order.len()
        invariant
            k <= order@.len(),
            first == order@.map_values(|r: HeldRole| r.server),
            chain@ =~= first + order@.take(k as int).map_values(|r: HeldRole| channel_or_none(r)),
        decreases order@.len() - k,
    {
        let o = match order[k].channel {
            Some(o) => o,
            None => Override { allow: 0, deny: 0 },
        };
        chain.push(o);
        k = k + 1;
    }
    assert(order@.take(k as int) =~= order@);
    match ctx.member {
        Some(m) => chain.push(m),
        None => {},
    }
    assert(chain@ =~= chain_spec(order@, ctx.member));
    PermissionValue { value: resolve(ctx.default_permissions, &chain) }
}

} // verus!
