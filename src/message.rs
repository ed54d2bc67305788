use indexmap::{IndexMap, IndexSet};
use iso8601_timestamp::Timestamp;
use vstd::prelude::*;

use crate::error::Error;
use crate::ids::{is_id, new_ulid};
use crate::permissions::{bit_of, ChannelPermission, PermissionValue};
use crate::reactions::{emoji_list, emoji_set_contains, emoji_set_len, no_reactions, reaction_keys};

verus! {

/// iso8601_timestamp's timestamp, carried as an opaque value.
#[verifier::external_type_specification]
#[verifier::external_body]
pub struct ExTimestamp(Timestamp);

/// Author id stamped on platform-authored messages: the all-zero id.
pub open spec fn system_author_id() -> Seq<char> {
    Seq::new(26, |_i: int| '0')
}

/// The all-zero author id of platform-authored messages.
pub fn system_author() -> (r: String)
    ensures
        r@ == system_author_id(),
{
    let s = "00000000000000000000000000";
    proof {
        reveal_strlit("00000000000000000000000000");
    }
    let r = s.to_owned();
    assert(r@ =~= system_author_id());
    r
}

/// An uploaded file.
#[derive(Clone, Debug)]
pub struct File {
    pub id: String,
    pub tag: String,
    pub filename: String,
    pub content_type: String,
    pub size: u64,
}

/// A text embed as stored on a message.
#[derive(Clone, Debug)]
pub struct Text {
    pub icon_url: Option<String>,
    pub url: Option<String>,
    pub title: Option<String>,
    pub description: Option<String>,
    pub media: Option<File>,
    pub colour: Option<String>,
}

/// An embed stored on a message.
#[derive(Clone, Debug)]
pub enum Embed {
    Text(Text),
    /// An embed with nothing to show.
    Empty,
}

/// An embed as a client sends it; `media` names an uploaded file.
#[derive(Clone, Debug)]
pub struct SendableEmbed {
    pub icon_url: Option<String>,
    pub url: Option<String>,
    pub title: Option<String>,
    pub description: Option<String>,
    pub media: Option<String>,
    pub colour: Option<String>,
}

/// The webhook that sent a message.
#[derive(Clone, Debug)]
pub struct MessageWebhook {
    pub id: String,
    pub name: String,
    pub avatar: Option<String>,
}

/// Who sends a message.
#[derive(Clone, Debug)]
pub enum MessageAuthor {
    User { id: String },
    Webhook(MessageWebhook),
    System { username: String, avatar: Option<String> },
}

/// A message being replied to, and whether its author is to be mentioned.
#[derive(Clone, Debug)]
pub struct ReplyIntent {
    pub id: String,
    pub mention: bool,
}

/// Name and / or avatar overrides for a message.
#[derive(Clone, Debug)]
pub struct Masquerade {
    pub name: Option<String>,
    pub avatar: Option<String>,
    pub colour: Option<String>,
}

/// How a message may be reacted to.
#[derive(Clone, Debug)]
pub struct Interactions {
    /// Reactions which always appear and are distinct.
    pub reactions: Option<IndexSet<String>>,
    /// Whether reactions are restricted to the given list.
    pub restrict_reactions: bool,
}

/// A platform-authored event.
#[derive(Clone, Debug)]
pub enum SystemMessage {
    Text { content: String },
    UserAdded { id: String, by: String },
    UserRemove { id: String, by: String },
    UserJoined { id: String },
    UserLeft { id: String },
    UserKicked { id: String },
    UserBanned { id: String },
    ChannelRenamed { name: String, by: String },
    ChannelDescriptionChanged { by: String },
    ChannelIconChanged { by: String },
    ChannelOwnershipChanged { from: String, to: String },
}

/// Content appended to an existing message.
#[derive(Clone, Debug)]
pub struct AppendMessage {
    pub embeds: Option<Vec<Embed>>,
}

/// A message.
#[derive(Clone, Debug)]
pub struct Message {
    pub id: String,
    pub nonce: Option<String>,
    pub channel: String,
    pub author: String,
    pub webhook: Option<MessageWebhook>,
    pub content: Option<String>,
    pub system: Option<SystemMessage>,
    pub attachments: Option<Vec<File>>,
    pub edited: Option<Timestamp>,
    pub embeds: Option<Vec<Embed>>,
    pub mentions: Option<Vec<String>>,
    pub replies: Option<Vec<String>>,
    /// Emoji to the users who reacted with it.
    pub reactions: IndexMap<String, IndexSet<String>>,
    pub interactions: Interactions,
    pub masquerade: Option<Masquerade>,
}

/// Interactions at their zero value: no list, no restriction.
pub open spec fn is_default_interactions(i: Interactions) -> bool {
    i.reactions is None && !i.restrict_reactions
}

/// A message with every optional field absent, no reactions and default
/// interactions.
pub open spec fn is_bare(m: Message) -> bool {
    &&& m.nonce is None
    &&& m.webhook is None
    &&& m.content is None
    &&& m.system is None
    &&& m.attachments is None
    &&& m.edited is None
    &&& m.embeds is None
    &&& m.mentions is None
    &&& m.replies is None
    &&& reaction_keys(m.reactions).len() == 0
    &&& is_default_interactions(m.interactions)
    &&& m.masquerade is None
}

impl Default for Interactions {
    fn default() -> (r: Interactions)
        ensures
            is_default_interactions(r),
    {
        Interactions { reactions: None, restrict_reactions: false }
    }
}

impl Default for Message {
    fn default() -> (r: Message)
        ensures
            is_bare(r),
            r.id@.len() == 0,
            r.channel@.len() == 0,
            r.author@.len() == 0,
    {
        Message {
            id: String::new(),
            nonce: None,
            channel: String::new(),
            author: String::new(),
            webhook: None,
            content: None,
            system: None,
            attachments: None,
            edited: None,
            embeds: None,
            mentions: None,
            replies: None,
            reactions: no_reactions(),
            interactions: Interactions { reactions: None, restrict_reactions: false },
            masquerade: None,
        }
    }
}

/// Whether `emoji` may be used to react under these interactions.
pub open spec fn can_use_spec(i: Interactions, emoji: Seq<char>) -> bool {
    if i.restrict_reactions {
        match i.reactions {
            Some(s) => emoji_list(s).contains(emoji),
            None => false,
        }
    } else {
        true
    }
}

/// Restricting reactions needs a non-empty list of them.
pub open spec fn restriction_ok(i: Interactions) -> bool {
    i.restrict_reactions ==> match i.reactions {
        Some(s) => emoji_list(s).len() > 0,
        None => false,
    }
}

impl Interactions {
    /// Whether a given emoji may be used to react.
    pub fn can_use(&self, emoji: &str) -> (r: bool)
        ensures
            r == can_use_spec(*self, emoji@),
    {
        if self.restrict_reactions {
            match &self.reactions {
                Some(reactions) => emoji_set_contains(reactions, emoji),
                None => false,
            }
        } else {
            true
        }
    }

    /// Whether both fields are at their zero value.
    pub fn is_default(&self) -> (r: bool)
        ensures
            r == is_default_interactions(*self),
    {
        !self.restrict_reactions && self.reactions.is_none()
    }

    /// Fails with `InvalidProperty` when reactions are restricted to an
    /// absent or empty list.
    pub fn check_restriction(&self) -> (r: Result<(), Error>)
        ensures
            r is Ok <==> restriction_ok(*self),
            r is Err ==> r == Err::<(), Error>(Error::InvalidProperty),
    {
        if self.restrict_reactions {
            let disallowed = match &self.reactions {
                Some(list) => emoji_set_len(list) == 0,
                None => true,
            };
            if disallowed {
                return Err(Error::InvalidProperty);
            }
        }
        Ok(())
    }

    /// Checks a reaction list before it is stored on a message: listing
    /// reactions needs the `React` permission and at most `max_reactions`
    /// of them; both failures are `InvalidOperation`. Whether each listed
    /// emoji is usable is for the caller to check against the emoji store.
    pub fn validate(&self, permissions: &PermissionValue, max_reactions: usize) -> (r: Result<
        (),
        Error,
    >)
        ensures
            r == match self.reactions {
                None => Ok(()),
                Some(s) => if permissions.value & bit_of(ChannelPermission::React) == 0
                    || emoji_list(s).len() > max_reactions {
                    Err(Error::InvalidOperation)
                } else {
                    Ok::<(), Error>(())
                },
            },
    {
        if let Some(reactions) = &self.reactions {
            if !permissions.has_channel_permission(ChannelPermission::React) {
                return Err(Error::InvalidOperation);
            }
            if emoji_set_len(reactions) > max_reactions {
                return Err(Error::InvalidOperation);
            }
        }
        Ok(())
    }
}

impl SystemMessage {
    /// A message carrying this event: a fresh id, the system author and no
    /// other content.
    pub fn into_message(self, channel: String) -> (r: Message)
        ensures
            is_id(r.id@),
            r.channel == channel,
            r.author@ == system_author_id(),
            r.system == Some(self),
            r.nonce is None && r.webhook is None && r.content is None && r.attachments is None,
            r.edited is None && r.embeds is None && r.mentions is None && r.replies is None,
            reaction_keys(r.reactions).len() == 0,
            is_default_interactions(r.interactions),
            r.masquerade is None,
    {
        Message {
            id: new_ulid(),
            nonce: None,
            channel,
            author: system_author(),
            webhook: None,
            content: None,
            system: Some(self),
            attachments: None,
            edited: None,
            embeds: None,
            mentions: None,
            replies: None,
            reactions: no_reactions(),
            interactions: Interactions { reactions: None, restrict_reactions: false },
            masquerade: None,
        }
    }
}

/// Number of bytes of a string in UTF-8.
pub open spec fn byte_len(s: Seq<char>) -> nat {
    vstd::utf8::encode_utf8(s).len()
}

/// Number of bytes of a string in UTF-8.
pub fn byte_count(s: &String) -> (n: usize)
    ensures
        n == byte_len(s@),
{
    s.as_str().as_bytes().len()
}

/// Total bytes of the embeds' descriptions.
pub open spec fn descriptions_len(embeds: Seq<SendableEmbed>) -> nat
    decreases embeds.len(),
{
    if embeds.len() == 0 {
        0
    } else {
        descriptions_len(embeds.drop_last()) + content_len(embeds.last().description)
    }
}

/// Bytes of content plus embed descriptions.
pub open spec fn payload_len(content: Option<String>, embeds: Seq<SendableEmbed>) -> nat {
    content_len(content) + descriptions_len(embeds)
}

/// Bytes of the content; none when absent.
pub open spec fn content_len(content: Option<String>) -> nat {
    match content {
        Some(c) => byte_len(c@),
        None => 0,
    }
}

/// The stored form of a sendable embed, with its media resolved to `media`.
pub open spec fn stored_embed(e: SendableEmbed, media: Option<File>) -> Embed {
    Embed::Text(
        Text {
            icon_url: e.icon_url,
            url: e.url,
            title: e.title,
            description: e.description,
            media,
            colour: e.colour,
        },
    )
}

/// The embeds of a message as a sequence; none when absent.
pub open spec fn embed_seq(m: Message) -> Seq<Embed> {
    match m.embeds {
        Some(v) => v@,
        None => Seq::empty(),
    }
}

/// The two messages agree in every field but their embeds.
pub open spec fn same_but_embeds(a: Message, b: Message) -> bool {
    &&& a.id == b.id
    &&& a.nonce == b.nonce
    &&& a.channel == b.channel
    &&& a.author == b.author
    &&& a.webhook == b.webhook
    &&& a.content == b.content
    &&& a.system == b.system
    &&& a.attachments == b.attachments
    &&& a.edited == b.edited
    &&& a.mentions == b.mentions
    &&& a.replies == b.replies
    &&& a.reactions == b.reactions
    &&& a.interactions == b.interactions
    &&& a.masquerade == b.masquerade
}

impl Message {
    /// Fails with `PayloadTooLarge` when content and embed descriptions
    /// together exceed `max_length` bytes.
    pub fn validate_sum(content: &Option<String>, embeds: &[SendableEmbed], max_length: usize) -> (r:
        Result<(), Error>)
        ensures
            r is Ok <==> payload_len(*content, embeds@) <= max_length,
            r is Err ==> r == Err::<(), Error>(Error::PayloadTooLarge),
    {
        let mut running_total: usize = 0;
        if let Some(content) = content {
            let n = byte_count(content);
            if n > max_length {
                return Err(Error::PayloadTooLarge);
            }
            running_total = n;
        }
        let ghost head: nat = running_total as nat;
        assert(embeds@.take(0) =~= Seq::<SendableEmbed>::empty());
        let mut i: usize = 0;
        while i < embeds.len()
            invariant
                i <= embeds@.len(),
                running_total <= max_length,
                head == content_len(*content),
                running_total == head + descriptions_len(embeds@.take(i as int)),
            decreases embeds@.len() - i,
        {
            assert(embeds@.take(i as int + 1).drop_last() =~= embeds@.take(i as int));
            if let Some(desc) = &embeds[i].description {
                let n = byte_count(desc);
                if n > max_length - running_total {
                    proof {
                        lemma_descriptions_prefix(embeds@, i as int + 1);
                    }
                    return Err(Error::PayloadTooLarge);
                }
                running_total = running_total + n;
            }
            i = i + 1;
        }
        assert(embeds@.take(i as int) =~= embeds@);
        Ok(())
    }

    /// Appends the stored form of a sendable embed, its media already
    /// claimed as `media`.
    pub fn attach_sendable_embed(&mut self, embed: SendableEmbed, media: Option<File>)
        ensures
            same_but_embeds(*old(self), *final(self)),
            final(self).embeds is Some,
            embed_seq(*final(self)) == embed_seq(*old(self)).push(stored_embed(embed, media)),
    {
        let e = Embed::Text(
            Text {
                icon_url: embed.icon_url,
                url: embed.url,
                title: embed.title,
                description: embed.description,
                media,
                colour: embed.colour,
            },
        );
        match &mut self.embeds {
            Some(embeds) => {
                embeds.push(e);
            },
            None => {
                self.embeds = Some(vec![e]);
            },
        }
    }
}

/// The description total of a prefix never exceeds that of the whole.
proof fn lemma_descriptions_prefix(embeds: Seq<SendableEmbed>, k: int)
    requires
        0 <= k <= embeds.len(),
    ensures
        descriptions_len(embeds.take(k)) <= descriptions_len(embeds),
    decreases embeds.len() - k,
{
    if k < embeds.len() {
        lemma_descriptions_prefix(embeds, k + 1);
        assert(embeds.take(k + 1).drop_last() =~= embeds.take(k));
    } else {
        assert(embeds.take(k) =~= embeds);
    }
}

} // verus!
