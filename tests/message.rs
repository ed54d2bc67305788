use chatcore::error::Error;
use chatcore::mention::extract_mentions;
use chatcore::message::{Embed, Interactions, Message, SendableEmbed, SystemMessage};
use chatcore::nonce::{IdempotencyKey, NonceStore};
use chatcore::permissions::{ChannelPermission, PermissionValue};
use indexmap::IndexSet;

const U1: &str = "01HZX3K6Q8V2M4N5P7R9S0T1AB";

fn set(items: &[&str]) -> IndexSet<String> {
    let mut s = IndexSet::new();
    for i in items {
        s.insert(i.to_string());
    }
    s
}

#[test]
fn default_message_has_nothing_set() {
    let m = Message::default();
    assert!(m.nonce.is_none() && m.webhook.is_none() && m.content.is_none());
    assert!(m.system.is_none() && m.attachments.is_none() && m.edited.is_none());
    assert!(m.embeds.is_none() && m.mentions.is_none() && m.replies.is_none());
    assert!(m.masquerade.is_none());
    assert!(m.reactions.is_empty());
    assert!(m.interactions.is_default());
    assert_eq!(m.id, "");
}

#[test]
fn into_message_stamps_system_author() {
    let m = SystemMessage::UserJoined { id: "U".to_string() }.into_message("C".to_string());
    assert_eq!(m.author, "00000000000000000000000000");
    assert_eq!(m.channel, "C");
    assert_eq!(m.id.len(), 26);
    assert!(matches!(m.system, Some(SystemMessage::UserJoined { ref id }) if id == "U"));
    assert!(m.content.is_none() && m.nonce.is_none());
}

#[test]
fn can_use_respects_restriction() {
    let open = Interactions { reactions: None, restrict_reactions: false };
    assert!(open.can_use("🎉"));
    let restricted = Interactions { reactions: Some(set(&["🎉"])), restrict_reactions: true };
    assert!(restricted.can_use("🎉"));
    assert!(!restricted.can_use("👍"));
    let no_list = Interactions { reactions: None, restrict_reactions: true };
    assert!(!no_list.can_use("🎉"));
}

#[test]
fn is_default_only_at_zero_values() {
    assert!(Interactions::default().is_default());
    assert!(!Interactions { reactions: Some(set(&[])), restrict_reactions: false }.is_default());
    assert!(!Interactions { reactions: None, restrict_reactions: true }.is_default());
}

#[test]
fn validate_needs_react_and_bounds_the_list() {
    let react = PermissionValue { value: ChannelPermission::React.bit() };
    let none = PermissionValue { value: 0 };
    let i = Interactions { reactions: Some(set(&["a", "b"])), restrict_reactions: false };
    assert_eq!(i.validate(&react, 2), Ok(()));
    assert_eq!(i.validate(&react, 1), Err(Error::InvalidOperation));
    assert_eq!(i.validate(&none, 2), Err(Error::InvalidOperation));
    assert_eq!(Interactions::default().validate(&none, 0), Ok(()));
}

#[test]
fn check_restriction_cases() {
    assert_eq!(Interactions { reactions: None, restrict_reactions: true }.check_restriction(), Err(Error::InvalidProperty));
    assert_eq!(Interactions { reactions: Some(set(&[])), restrict_reactions: true }.check_restriction(), Err(Error::InvalidProperty));
    assert_eq!(Interactions { reactions: Some(set(&["🎉"])), restrict_reactions: true }.check_restriction(), Ok(()));
    assert_eq!(Interactions { reactions: None, restrict_reactions: false }.check_restriction(), Ok(()));
}

#[test]
fn attach_sendable_embed_appends() {
    let mut m = Message::default();
    let e = SendableEmbed {
        icon_url: None,
        url: Some("https://x".to_string()),
        title: None,
        description: Some("d".to_string()),
        media: None,
        colour: Some("red".to_string()),
    };
    m.attach_sendable_embed(e.clone(), None);
    m.attach_sendable_embed(e, None);
    let embeds = m.embeds.unwrap();
    assert_eq!(embeds.len(), 2);
    match &embeds[0] {
        Embed::Text(t) => {
            assert_eq!(t.url, Some("https://x".to_string()));
            assert_eq!(t.colour, Some("red".to_string()));
            assert!(t.media.is_none());
        }
        Embed::Empty => panic!("expected a text embed"),
    }
}

#[test]
fn mentions_are_parsed_and_deduplicated() {
    let text = format!("<@{U1}> and <@{U1}> again");
    assert_eq!(extract_mentions(&text), vec![U1.to_string()]);
}

#[test]
fn malformed_mentions_are_ignored() {
    assert!(extract_mentions("<@01hzx3k6q8v2m4n5p7r9s0t1ab>").is_empty());
    assert!(extract_mentions("<@01HZX3K6Q8V2M4N5P7R9S0T1A>").is_empty());
    assert!(extract_mentions("<@01HZX3K6Q8V2M4N5P7R9S0T1ABC>").is_empty());
    assert!(extract_mentions("<@01HZX3K6Q8V2M4N5P7R9S0T1AI>").is_empty());
    assert!(extract_mentions("").is_empty());
    assert_eq!(extract_mentions(&format!("é<@{U1}>é")), vec![U1.to_string()]);
}

#[test]
fn fresh_key_is_an_id_and_nonce_replaces_it() {
    let key = IdempotencyKey::new();
    assert_eq!(key.into_key().len(), 26);
    let mut store = NonceStore::new();
    let mut key = IdempotencyKey::new();
    assert_eq!(key.consume_nonce(&mut store, None), Ok(()));
    assert!(store.claimed.is_empty());
    assert_eq!(key.consume_nonce(&mut store, Some("abc".to_string())), Ok(()));
    assert_eq!(key.clone().into_key(), "abc");
    let mut other = IdempotencyKey::new();
    assert_eq!(other.consume_nonce(&mut store, Some("abc".to_string())), Err(Error::InvalidOperation));
    assert_ne!(other.into_key(), "abc");
}
