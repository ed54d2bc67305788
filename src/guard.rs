use vstd::prelude::*;

use crate::channel::{
    is_permission_bearing, lookup, role_overrides, same_but_overrides, Channel, Server,
};
use crate::error::Error;
use crate::permissions::{bit_of, ChannelPermission, Override, PermissionValue};

verus! {

/// Bits that differ between two overrides, in the allow or the deny plane.
pub open spec fn changed_bits(current: Override, proposed: Override) -> u64 {
    (current.allow ^ proposed.allow) | (current.deny ^ proposed.deny)
}

/// Outcome of a proposed override change by an actor holding `actor`.
pub open spec fn override_mutation_spec(actor: u64, current: Override, proposed: Override) -> Result<
    (),
    Error,
> {
    if changed_bits(current, proposed) & !actor == 0 {
        Ok(())
    } else {
        Err(Error::Unauthorized)
    }
}

/// Rank used for an actor; an unknown rank counts as the least authority.
pub open spec fn effective_rank(actor_rank: Option<i64>) -> i64 {
    match actor_rank {
        Some(r) => r,
        None => i64::MAX,
    }
}

/// Outcome of an actor of rank `actor_rank` editing a role of `target_rank`.
pub open spec fn role_target_spec(
    actor_rank: Option<i64>,
    actor_is_self_target: bool,
    target_rank: i64,
) -> Result<(), Error> {
    let a = effective_rank(actor_rank);
    if target_rank < a || (target_rank == a && !actor_is_self_target) {
        Err(Error::NotElevated)
    } else {
        Ok(())
    }
}

/// Rejects an override change that toggles a bit the actor does not hold.
pub fn authorize_override_mutation(actor: PermissionValue, current: Override, proposed: Override) -> (r:
    Result<(), Error>)
    ensures
        r == override_mutation_spec(actor.value, current, proposed),
{
    let changed = (current.allow ^ proposed.allow) | (current.deny ^ proposed.deny);
    if changed & !actor.value == 0 {
        Ok(())
    } else {
        Err(Error::Unauthorized)
    }
}

/// Rejects an edit of a role that ranks above the actor, or at the actor's
/// rank unless it is the actor's own role.
pub fn authorize_role_target(actor_rank: Option<i64>, actor_is_self_target: bool, target_rank: i64) -> (r:
    Result<(), Error>)
    ensures
        r == role_target_spec(actor_rank, actor_is_self_target, target_rank),
        target_rank < effective_rank(actor_rank) ==> r == Err::<(), Error>(Error::NotElevated),
        target_rank == effective_rank(actor_rank) ==> (r is Ok <==> actor_is_self_target),
        target_rank > effective_rank(actor_rank) ==> r is Ok,
{
    let a = match actor_rank {
        Some(r) => r,
        None => i64::MAX,
    };
    if target_rank < a || (target_rank == a && !actor_is_self_target) {
        Err(Error::NotElevated)
    } else {
        Ok(())
    }
}

/// A change of a single bit that the actor lacks is always rejected.
pub proof fn lemma_unheld_toggle_rejected(
    actor: u64,
    current: Override,
    proposed: Override,
    bit: u64,
)
    requires
        bit < 64,
        changed_bits(current, proposed) & (1u64 << bit) != 0,
        actor & (1u64 << bit) == 0,
    ensures
        override_mutation_spec(actor, current, proposed) == Err::<(), Error>(Error::Unauthorized),
{
    let c = changed_bits(current, proposed);
    assert(c & (1u64 << bit) != 0 && actor & (1u64 << bit) == 0 && bit < 64 ==> c & !actor != 0)
        by (bit_vector);
}

/// A change confined to bits the actor holds is always accepted.
pub proof fn lemma_held_toggles_accepted(actor: u64, current: Override, proposed: Override)
    requires
        changed_bits(current, proposed) & actor == changed_bits(current, proposed),
    ensures
        override_mutation_spec(actor, current, proposed) == Ok::<(), Error>(()),
{
    let c = changed_bits(current, proposed);
    assert(c & actor == c ==> c & !actor == 0) by (bit_vector);
}

/// Outcome of setting a role's override in a channel: the actor needs
/// `ManagePermissions`; the channel must carry per-role overrides; the role
/// must exist; it must rank below the actor (or be the actor's own role at
/// equal rank); and the change, measured against the channel's current
/// override for the role, may only touch bits the actor holds.
pub open spec fn role_permission_spec(
    permissions: u64,
    channel: Channel,
    server: Option<Server>,
    actor_rank: Option<i64>,
    actor_is_self_target: bool,
    role_id: Seq<char>,
    proposed: Override,
) -> Result<(), Error> {
    if permissions & bit_of(ChannelPermission::ManagePermissions) == 0 {
        Err(Error::Unauthorized)
    } else if !is_permission_bearing(channel) || server is None {
        Err(Error::InvalidOperation)
    } else {
        match lookup(server.unwrap().roles@, role_id) {
            None => Err(Error::NotFound),
            Some(role) => {
                if role_target_spec(actor_rank, actor_is_self_target, role.rank) is Err {
                    Err(Error::NotElevated)
                } else {
                    let current = match lookup(role_overrides(channel), role_id) {
                        Some(o) => o,
                        None => Override { allow: 0, deny: 0 },
                    };
                    override_mutation_spec(permissions, current, proposed)
                }
            },
        }
    }
}

/// Sets the channel's override for a role, after the authorization checks.
///
/// `server` is the channel's server, `actor_rank` the actor's rank in it, and
/// `actor_is_self_target` whether the actor may edit the role at equal rank
/// as one of its own. On success only the role's entry changes; on failure
/// the channel is left as it was.
pub fn set_role_permissions(
    permissions: PermissionValue,
    channel: &mut Channel,
    server: Option<&Server>,
    actor_rank: Option<i64>,
    actor_is_self_target: bool,
    role_id: &String,
    proposed: Override,
) -> (r: Result<(), Error>)
    ensures
        r == role_permission_spec(
            permissions.value,
            *old(channel),
            match server {
                Some(s) => Some(*s),
                None => None,
            },
            actor_rank,
            actor_is_self_target,
            role_id@,
            proposed,
        ),
        r is Ok ==> same_but_overrides(*old(channel), *final(channel)) && forall|k: Seq<char>|
            #[trigger] lookup(role_overrides(*final(channel)), k) == if k == role_id@ {
                Some(proposed)
            } else {
                lookup(role_overrides(*old(channel)), k)
            },
        r is Err ==> *final(channel) == *old(channel),
{
    permissions.throw_if_lacking_channel_permission(ChannelPermission::ManagePermissions)?;
    let server = match server {
        Some(s) => s,
        None => {
            return Err(Error::InvalidOperation);
        },
    };
    let bearing = match channel {
        Channel::TextChannel { .. } | Channel::VoiceChannel { .. } => true,
        _ => false,
    };
    if !bearing {
        return Err(Error::InvalidOperation);
    }
    let rank = match crate::channel::find_entry(&server.roles, role_id) {
        Some(i) => server.roles[i].1.rank,
        None => {
            return Err(Error::NotFound);
        },
    };
    if authorize_role_target(actor_rank, actor_is_self_target, rank).is_err() {
        return Err(Error::NotElevated);
    }
    let current = match channel.role_override(role_id) {
        Some(o) => o,
        None => Override { allow: 0, deny: 0 },
    };
    authorize_override_mutation(permissions, current, proposed)?;
    channel.set_role_permission(role_id.clone(), proposed);
    Ok(())
}

} // verus!
