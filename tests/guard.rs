use chatcore::channel::{Channel, Role, Server};
use chatcore::error::Error;
use chatcore::guard::{authorize_override_mutation, authorize_role_target, set_role_permissions};
use chatcore::permissions::{ChannelPermission, Override, PermissionValue};

fn role(rank: i64, permissions: Override) -> Role {
    Role { name: "role".to_string(), permissions, colour: None, hoist: false, rank }
}

fn server() -> Server {
    Server {
        id: "S".to_string(),
        owner: "O".to_string(),
        name: "server".to_string(),
        channels: vec!["C".to_string()],
        roles: vec![
            ("mod".to_string(), role(1, Override::new(0, 0))),
            ("member".to_string(), role(5, Override::new(0, 0))),
            ("admin".to_string(), role(0, Override::new(0, 0))),
        ],
        default_permissions: 0,
    }
}

fn text_channel(overrides: Vec<(String, Override)>) -> Channel {
    Channel::TextChannel {
        id: "C".to_string(),
        server: "S".to_string(),
        name: "general".to_string(),
        role_permissions: overrides,
    }
}

fn manager(extra: u64) -> PermissionValue {
    PermissionValue { value: ChannelPermission::ManagePermissions.bit() | extra }
}

fn overrides_of(c: &Channel) -> Vec<(String, Override)> {
    match c {
        Channel::TextChannel { role_permissions, .. } | Channel::VoiceChannel { role_permissions, .. } => {
            role_permissions.clone()
        }
        _ => vec![],
    }
}

#[test]
fn toggling_an_unheld_bit_is_rejected() {
    let actor = PermissionValue { value: 0b0011 };
    let current = Override::new(0, 0);
    assert_eq!(
        authorize_override_mutation(actor, current, Override::new(0b0100, 0)),
        Err(Error::Unauthorized)
    );
    assert_eq!(
        authorize_override_mutation(actor, current, Override::new(0, 0b1000)),
        Err(Error::Unauthorized)
    );
    let held = Override::new(0, 0b0100);
    assert_eq!(authorize_override_mutation(actor, held, Override::new(0, 0)), Err(Error::Unauthorized));
}

#[test]
fn toggling_held_bits_is_accepted() {
    let actor = PermissionValue { value: 0b0011 };
    assert_eq!(
        authorize_override_mutation(actor, Override::new(0, 0), Override::new(0b0001, 0b0010)),
        Ok(())
    );
    let unchanged = Override::new(0b1000, 0b0100);
    assert_eq!(authorize_override_mutation(actor, unchanged, unchanged), Ok(()));
}

#[test]
fn role_target_rank_rules() {
    assert_eq!(authorize_role_target(Some(3), true, 2), Err(Error::NotElevated));
    assert_eq!(authorize_role_target(Some(3), false, 3), Err(Error::NotElevated));
    assert_eq!(authorize_role_target(Some(3), true, 3), Ok(()));
    assert_eq!(authorize_role_target(Some(3), false, 4), Ok(()));
    assert_eq!(authorize_role_target(None, false, i64::MAX), Err(Error::NotElevated));
    assert_eq!(authorize_role_target(None, false, 100), Err(Error::NotElevated));
}

#[test]
fn set_role_permissions_updates_the_channel() {
    let mut channel = text_channel(vec![("member".to_string(), Override::new(0, 0b1))]);
    let s = server();
    let r = set_role_permissions(manager(0b11), &mut channel, Some(&s), Some(1), false, &"member".to_string(), Override::new(0b10, 0));
    assert_eq!(r, Ok(()));
    assert_eq!(channel.role_override(&"member".to_string()), Some(Override::new(0b10, 0)));
    assert_eq!(overrides_of(&channel).len(), 1);
    assert_eq!(channel.id(), "C");
}

#[test]
fn set_role_permissions_adds_a_missing_entry() {
    let mut channel = text_channel(vec![]);
    let s = server();
    let r = set_role_permissions(manager(0b1), &mut channel, Some(&s), Some(0), false, &"mod".to_string(), Override::new(0b1, 0));
    assert_eq!(r, Ok(()));
    assert_eq!(channel.role_override(&"mod".to_string()), Some(Override::new(0b1, 0)));
    assert_eq!(channel.role_override(&"member".to_string()), None);
}

#[test]
fn set_role_permissions_error_cases() {
    let s = server();
    let base = text_channel(vec![]);

    let mut c = base.clone();
    let r = set_role_permissions(PermissionValue { value: 0b1 }, &mut c, Some(&s), Some(0), false, &"member".to_string(), Override::new(0, 0));
    assert_eq!(r, Err(Error::Unauthorized));

    let mut dm = Channel::DirectMessage { id: "D".to_string(), active: true, recipients: vec![] };
    let r = set_role_permissions(manager(0), &mut dm, None, Some(0), false, &"member".to_string(), Override::new(0, 0));
    assert_eq!(r, Err(Error::InvalidOperation));

    let mut c = base.clone();
    let r = set_role_permissions(manager(0), &mut c, Some(&s), Some(0), false, &"ghost".to_string(), Override::new(0, 0));
    assert_eq!(r, Err(Error::NotFound));

    let mut c = base.clone();
    let r = set_role_permissions(manager(0), &mut c, Some(&s), Some(1), false, &"admin".to_string(), Override::new(0, 0));
    assert_eq!(r, Err(Error::NotElevated));

    let mut c = base.clone();
    let r = set_role_permissions(manager(0), &mut c, Some(&s), Some(1), false, &"mod".to_string(), Override::new(0, 0));
    assert_eq!(r, Err(Error::NotElevated));

    let mut c = base.clone();
    let r = set_role_permissions(manager(0), &mut c, Some(&s), None, false, &"member".to_string(), Override::new(0, 0));
    assert_eq!(r, Err(Error::NotElevated));

    let mut c = base.clone();
    let r = set_role_permissions(manager(0), &mut c, Some(&s), Some(0), false, &"member".to_string(), Override::new(0b1000, 0));
    assert_eq!(r, Err(Error::Unauthorized));
    assert_eq!(overrides_of(&c).len(), 0);
}

#[test]
fn own_role_at_equal_rank_may_be_edited() {
    let s = server();
    let mut c = text_channel(vec![]);
    let r = set_role_permissions(manager(0b1), &mut c, Some(&s), Some(1), true, &"mod".to_string(), Override::new(0b1, 0));
    assert_eq!(r, Ok(()));
}

#[test]
fn baseline_is_the_channel_override() {
    let s = server();
    // The channel already allows bit 3; keeping it needs no hold on bit 3.
    let mut c = text_channel(vec![("member".to_string(), Override::new(0b1000, 0))]);
    let r = set_role_permissions(manager(0b1), &mut c, Some(&s), Some(0), false, &"member".to_string(), Override::new(0b1001, 0));
    assert_eq!(r, Ok(()));
    // Dropping it does.
    let r = set_role_permissions(manager(0b1), &mut c, Some(&s), Some(0), false, &"member".to_string(), Override::new(0b0001, 0));
    assert_eq!(r, Err(Error::Unauthorized));
}
