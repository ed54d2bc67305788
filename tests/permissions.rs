use chatcore::error::Error;
use chatcore::permissions::{
    calculate_channel_permissions, resolve, ChannelPermission, HeldRole, Override,
    PermissionContext, PermissionValue,
};

#[test]
fn single_override_is_deny_then_allow() {
    let base: u64 = 0b1010;
    let o = Override::new(0b0001, 0b1000);
    assert_eq!(resolve(base, &vec![o]), (base & !0b1000) | 0b0001);
    assert_eq!(resolve(base, &vec![o]), 0b0011);
}

#[test]
fn empty_chain_keeps_base() {
    assert_eq!(resolve(0xFF, &vec![]), 0xFF);
}

#[test]
fn override_order_matters_on_shared_bits() {
    let grant = Override::new(0b1, 0);
    let revoke = Override::new(0, 0b1);
    assert_eq!(resolve(0, &vec![grant, revoke]), 0);
    assert_eq!(resolve(0, &vec![revoke, grant]), 1);
}

#[test]
fn chain_folds_like_its_parts() {
    let a = Override::new(0b0011, 0b0100);
    let b = Override::new(0b1000, 0b0001);
    let c = Override::new(0b0100, 0b0010);
    let whole = resolve(0b0110, &vec![a, b, c]);
    let first = resolve(0b0110, &vec![a]);
    assert_eq!(whole, resolve(first, &vec![b, c]));
    assert_eq!(whole, resolve(resolve(0b0110, &vec![a, b]), &vec![c]));
    assert_eq!(whole, 0b1100);
}

#[test]
fn override_new_lets_deny_win() {
    let o = Override::new(0b0110, 0b0100);
    assert_eq!(o.allow, 0b0010);
    assert_eq!(o.deny, 0b0100);
    assert_eq!(o.apply_to(0b0100), 0b0010);
}

#[test]
fn permission_bits_have_fixed_positions() {
    assert_eq!(ChannelPermission::ManageChannel.bit(), 1);
    assert_eq!(ChannelPermission::ManagePermissions.bit(), 1 << 2);
    assert_eq!(ChannelPermission::SendMessage.bit(), 1 << 22);
    assert_eq!(ChannelPermission::React.bit(), 1 << 29);
    assert_eq!(ChannelPermission::MoveMembers.bit(), 1 << 35);
}

#[test]
fn lacking_permission_is_unauthorized() {
    let v = PermissionValue { value: ChannelPermission::React.bit() };
    assert!(v.has_channel_permission(ChannelPermission::React));
    assert_eq!(v.throw_if_lacking_channel_permission(ChannelPermission::React), Ok(()));
    assert_eq!(
        v.throw_if_lacking_channel_permission(ChannelPermission::SendMessage),
        Err(Error::Unauthorized)
    );
    assert!(v.has(ChannelPermission::React.bit()));
    assert!(!v.has(ChannelPermission::React.bit() | 1));
}

#[test]
fn apply_layers_an_override() {
    let mut v = PermissionValue { value: 0b1100 };
    v.apply(Override::new(0b0001, 0b0100));
    assert_eq!(v.value, 0b1001);
}

#[test]
fn most_authoritative_role_wins_whatever_the_input_order() {
    let send = ChannelPermission::SendMessage.bit();
    let junior = HeldRole { rank: 5, server: Override::new(send, 0), channel: None };
    let senior = HeldRole { rank: 1, server: Override::new(0, send), channel: None };
    let a = PermissionContext { default_permissions: 0, roles: vec![junior, senior], member: None };
    let b = PermissionContext { default_permissions: 0, roles: vec![senior, junior], member: None };
    assert_eq!(calculate_channel_permissions(&a).value & send, 0);
    assert_eq!(calculate_channel_permissions(&b).value & send, 0);
}

#[test]
fn channel_overrides_follow_server_overrides() {
    let send = ChannelPermission::SendMessage.bit();
    let view = ChannelPermission::ViewChannel.bit();
    let senior = HeldRole { rank: 0, server: Override::new(send, 0), channel: None };
    let junior = HeldRole { rank: 9, server: Override::new(0, 0), channel: Some(Override::new(0, send)) };
    let ctx = PermissionContext {
        default_permissions: view,
        roles: vec![senior, junior],
        member: None,
    };
    assert_eq!(calculate_channel_permissions(&ctx).value, view);
}

#[test]
fn member_override_is_applied_last() {
    let send = ChannelPermission::SendMessage.bit();
    let role = HeldRole { rank: 0, server: Override::new(send, 0), channel: Some(Override::new(send, 0)) };
    let ctx = PermissionContext {
        default_permissions: 0,
        roles: vec![role],
        member: Some(Override::new(0, send)),
    };
    assert_eq!(calculate_channel_permissions(&ctx).value, 0);
    let ctx2 = PermissionContext { default_permissions: 0b1, roles: vec![], member: None };
    assert_eq!(calculate_channel_permissions(&ctx2).value, 0b1);
}
