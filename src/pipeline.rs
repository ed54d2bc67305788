use vstd::prelude::*;

use crate::channel::Channel;
use crate::error::Error;
use crate::ids::{is_id, new_ulid};
use crate::mention::{distinct_views, extract_mentions, holds_view, mentioned_ids, push_unique};
use crate::message::{
    payload_len, restriction_ok, stored_embed, system_author,
    system_author_id, embed_seq, Interactions, Masquerade, Message, MessageAuthor, MessageWebhook,
    ReplyIntent, SendableEmbed, File,
};
use crate::nonce::{consume_spec, IdempotencyKey, NonceStore};
use crate::reactions::{no_reactions, reaction_keys};

verus! {

/// A message as a client asks to send it.
#[derive(Clone, Debug)]
pub struct DataMessageSend {
    pub nonce: Option<String>,
    pub content: Option<String>,
    /// Ids of uploaded files to attach.
    pub attachments: Option<Vec<String>>,
    pub replies: Option<Vec<ReplyIntent>>,
    pub embeds: Option<Vec<SendableEmbed>>,
    pub masquerade: Option<Masquerade>,
    pub interactions: Option<Interactions>,
}

/// Configured bounds on a message.
#[derive(Clone, Copy, Debug, PartialEq, Eq, Structural)]
pub struct Limits {
    /// Bytes of content plus embed descriptions.
    pub message_length: usize,
    pub message_replies: usize,
    pub message_attachments: usize,
    pub message_embeds: usize,
    pub message_reactions: usize,
}

/// A message that a reply points at, as fetched from storage.
#[derive(Clone, Debug)]
pub struct RepliedMessage {
    pub id: String,
    pub author: String,
}

/// Background work queued once a message is stored.
#[derive(Clone, Debug)]
pub enum Task {
    /// Move the channel's last-message marker to `id`.
    LastMessageId { channel: String, id: String, is_dm: bool },
    /// Record that `user` was mentioned by the messages `ids`.
    AddMention { channel: String, user: String, ids: Vec<String> },
    /// Generate embeds from links in `content`.
    ProcessEmbeds { channel: String, id: String, content: String },
}

/// Length of an optional list; zero when absent.
pub open spec fn opt_len<T>(v: Option<Vec<T>>) -> nat {
    match v {
        Some(v) => v@.len(),
        None => 0,
    }
}

/// The embeds of a request as a sequence.
pub open spec fn sendable_seq(d: DataMessageSend) -> Seq<SendableEmbed> {
    match d.embeds {
        Some(v) => v@,
        None => Seq::empty(),
    }
}

/// Content, attachments and embeds are all absent or empty.
pub open spec fn is_empty_send(d: DataMessageSend) -> bool {
    &&& match d.content {
        Some(c) => c@.len() == 0,
        None => true,
    }
    &&& opt_len(d.attachments) == 0
    &&& opt_len(d.embeds) == 0
}

pub open spec fn nonce_view(n: Option<String>) -> Option<Seq<char>> {
    match n {
        Some(s) => Some(s@),
        None => None,
    }
}

/// Whether the checks before any storage access fail and how: payload
/// size, then the nonce claim, then emptiness, then the reaction
/// restriction, then the reply count.
pub open spec fn send_check_spec(d: DataMessageSend, claimed: Seq<Seq<char>>, limits: Limits) -> Result<
    (),
    Error,
> {
    if payload_len(d.content, sendable_seq(d)) > limits.message_length {
        Err(Error::PayloadTooLarge)
    } else if consume_spec(claimed, nonce_view(d.nonce)).0 is Err {
        Err(Error::InvalidOperation)
    } else if is_empty_send(d) {
        Err(Error::EmptyMessage)
    } else if (match d.interactions {
        Some(i) => !restriction_ok(i),
        None => false,
    }) {
        Err(Error::InvalidProperty)
    } else if opt_len(d.replies) > limits.message_replies {
        Err(Error::TooManyReplies { max: limits.message_replies })
    } else {
        Ok(())
    }
}

/// Whether the attachment and embed counts are within bounds.
pub open spec fn binding_check_spec(d: DataMessageSend, limits: Limits) -> Result<(), Error> {
    if opt_len(d.attachments) > limits.message_attachments {
        Err(Error::TooManyAttachments { max: limits.message_attachments })
    } else if opt_len(d.embeds) > limits.message_embeds {
        Err(Error::TooManyEmbeds { max: limits.message_embeds })
    } else {
        Ok(())
    }
}

/// The ids the content mentions; none when there is no content.
pub open spec fn content_mentions(content: Option<String>) -> Set<Seq<char>> {
    match content {
        Some(c) => mentioned_ids(c@),
        None => Set::empty(),
    }
}

/// Whether the `i`-th reply asks to mention the replied-to author.
pub open spec fn reply_mentions(d: DataMessageSend, i: int) -> bool {
    match d.replies {
        Some(v) => v@[i].mention,
        None => false,
    }
}

/// Users to mention: those the content mentions and the authors of replies
/// that ask for it, when mentions are allowed at all.
pub open spec fn expected_mentions(
    d: DataMessageSend,
    replied: Seq<RepliedMessage>,
    allow: bool,
) -> Set<Seq<char>> {
    if !allow {
        Set::empty()
    } else {
        content_mentions(d.content).union(
            Set::new(
                |x: Seq<char>|
                    exists|i: int|
                        0 <= i < replied.len() && reply_mentions(d, i) && #[trigger] replied[i].author@
                            == x,
            ),
        )
    }
}

/// Ids of the replied-to messages.
pub open spec fn expected_replies(replied: Seq<RepliedMessage>) -> Set<Seq<char>> {
    Set::new(|x: Seq<char>| exists|i: int| 0 <= i < replied.len() && #[trigger] replied[i].id@ == x)
}

/// An optional list stored for a set: absent when the set is empty, else
/// each member once.
pub open spec fn stored_as_set(v: Option<Vec<String>>, s: Set<Seq<char>>) -> bool {
    match v {
        None => s == Set::<Seq<char>>::empty(),
        Some(v) => v@.len() > 0 && distinct_views(v@) && forall|x: Seq<char>|
            #[trigger] holds_view(v@, x) == s.contains(x),
    }
}

pub open spec fn author_id_spec(a: MessageAuthor) -> Seq<char> {
    match a {
        MessageAuthor::User { id } => id@,
        MessageAuthor::Webhook(w) => w.id@,
        MessageAuthor::System { .. } => system_author_id(),
    }
}

pub open spec fn author_webhook_spec(a: MessageAuthor) -> Option<MessageWebhook> {
    match a {
        MessageAuthor::Webhook(w) => Some(w),
        _ => None,
    }
}

/// The mentions of a message as a sequence; empty when absent.
pub open spec fn mention_seq(m: Message) -> Seq<String> {
    match m.mentions {
        Some(v) => v@,
        None => Seq::empty(),
    }
}

fn stored_set(v: Vec<String>, Ghost(s): Ghost<Set<Seq<char>>>) -> (r: Option<Vec<String>>)
    requires
        distinct_views(v@),
        forall|x: Seq<char>| #[trigger] holds_view(v@, x) == s.contains(x),
    ensures
        stored_as_set(r, s),
{
    if v.len() == 0 {
        assert(s =~= Set::<Seq<char>>::empty()) by {
            assert forall|x: Seq<char>| !s.contains(x) by {
                assert(!holds_view(v@, x));
            }
        }
        None
    } else {
        Some(v)
    }
}

impl Message {
    /// The checks of a send before any storage access: payload size, the
    /// nonce claim, emptiness, the reaction restriction and the reply
    /// count, in that order. On success, returns a fresh id for the message.
    ///
    /// The nonce is claimed once the payload size passes, whatever the
    /// later checks say.
    pub fn begin_send(
        data: &DataMessageSend,
        idempotency: &mut IdempotencyKey,
        store: &mut NonceStore,
        limits: &Limits,
    ) -> (r: Result<String, Error>)
        ensures
            match r {
                Ok(id) => send_check_spec(*data, old(store)@, *limits) is Ok && is_id(id@),
                Err(e) => send_check_spec(*data, old(store)@, *limits) == Err::<(), Error>(e),
            },
            final(store)@ == if payload_len(data.content, sendable_seq(*data))
                > limits.message_length {
                old(store)@
            } else {
                consume_spec(old(store)@, nonce_view(data.nonce)).1
            },
            final(idempotency).key_view() == match data.nonce {
                Some(n) => if payload_len(data.content, sendable_seq(*data)) <= limits.message_length
                    && !old(store)@.contains(n@) {
                    n@
                } else {
                    old(idempotency).key_view()
                },
                None => old(idempotency).key_view(),
            },
    {
        let none: Vec<SendableEmbed> = Vec::new();
        let embeds = match &data.embeds {
            Some(v) => v.as_slice(),
            None => none.as_slice(),
        };
        Message::validate_sum(&data.content, embeds, limits.message_length)?;
        let nonce = match &data.nonce {
            Some(n) => Some(n.clone()),
            None => None,
        };
        if idempotency.consume_nonce(store, nonce).is_err() {
            return Err(Error::InvalidOperation);
        }
        let no_content = match &data.content {
            Some(c) => c.as_str().is_empty(),
            None => true,
        };
        let no_attachments = match &data.attachments {
            Some(v) => v.len() == 0,
            None => true,
        };
        let no_embeds = match &data.embeds {
            Some(v) => v.len() == 0,
            None => true,
        };
        if no_content && no_attachments && no_embeds {
            return Err(Error::EmptyMessage);
        }
        if let Some(interactions) = &data.interactions {
            interactions.check_restriction()?;
        }
        if let Some(entries) = &data.replies {
            if entries.len() > limits.message_replies {
                return Err(Error::TooManyReplies { max: limits.message_replies });
            }
        }
        Ok(new_ulid())
    }

    /// The attachment and embed counts, checked after the replies are
    /// fetched and before any attachment is claimed.
    pub fn check_bindings(data: &DataMessageSend, limits: &Limits) -> (r: Result<(), Error>)
        ensures
            r == binding_check_spec(*data, *limits),
    {
        if let Some(v) = &data.attachments {
            if v.len() > limits.message_attachments {
                return Err(Error::TooManyAttachments { max: limits.message_attachments });
            }
        }
        if let Some(v) = &data.embeds {
            if v.len() > limits.message_embeds {
                return Err(Error::TooManyEmbeds { max: limits.message_embeds });
            }
        }
        Ok(())
    }

    /// Builds the message to store once the replied-to messages are fetched
    /// (`replied`, one for each reply, in order) and the attachments and
    /// embed media are claimed (`embed_media`, one for each embed).
    pub fn assemble(
        id: String,
        channel: &Channel,
        data: DataMessageSend,
        author: MessageAuthor,
        replied: &Vec<RepliedMessage>,
        attachments: Vec<File>,
        embed_media: Vec<Option<File>>,
        idempotency: IdempotencyKey,
        allow_mentions: bool,
    ) -> (r: Message)
        requires
            replied@.len() == opt_len(data.replies),
            embed_media@.len() == opt_len(data.embeds),
        ensures
            r.id == id,
            r.channel@ == crate::channel::channel_id(*channel),
            r.author@ == author_id_spec(author),
            r.webhook == author_webhook_spec(author),
            r.content == data.content,
            r.system is None,
            r.edited is None,
            r.nonce is Some && r.nonce.unwrap()@ == idempotency.key_view(),
            stored_as_set(r.mentions, expected_mentions(data, replied@, allow_mentions)),
            stored_as_set(r.replies, expected_replies(replied@)),
            r.attachments == if attachments@.len() == 0 {
                None
            } else {
                Some(attachments)
            },
            r.embeds is None <==> opt_len(data.embeds) == 0,
            embed_seq(r) == Seq::new(
                opt_len(data.embeds),
                |i: int| stored_embed(sendable_seq(data)[i], embed_media@[i]),
            ),
            reaction_keys(r.reactions).len() == 0,
            r.interactions == match data.interactions {
                Some(i) => i,
                None => Interactions { reactions: None, restrict_reactions: false },
            },
            r.masquerade == data.masquerade,
    {
        let ghost d = data;
        let mut mentions: Vec<String> = Vec::new();
        if allow_mentions {
            if let Some(content) = &data.content {
                mentions = extract_mentions(content.as_str());
            }
        }
        let ghost base = if allow_mentions {
            content_mentions(d.content)
        } else {
            Set::<Seq<char>>::empty()
        };
        let mut reply_ids: Vec<String> = Vec::new();
        let mut i: usize = 0;
        while i < replied.len()
            invariant
                d == data,
                replied@.len() == opt_len(d.replies),
                i <= replied@.len(),
                distinct_views(mentions@),
                distinct_views(reply_ids@),
                forall|x: Seq<char>|
                    #[trigger] holds_view(mentions@, x) == (base.contains(x) || (allow_mentions
                        && exists|j: int|
                        0 <= j < i && reply_mentions(d, j) && #[trigger] replied@[j].author@ == x)),
                forall|x: Seq<char>|
                    #[trigger] holds_view(reply_ids@, x) == exists|j: int|
                        0 <= j < i && #[trigger] replied@[j].id@ == x,
            decreases replied@.len() - i,
        {
            let wants = match &data.replies {
                Some(v) => v[i].mention,
                None => false,
            };
            let ghost before_m = mentions@;
            let ghost before_r = reply_ids@;
            if wants && allow_mentions {
                push_unique(&mut mentions, replied[i].author.clone());
            }
            push_unique(&mut reply_ids, replied[i].id.clone());
            assert forall|x: Seq<char>| #[trigger]
                holds_view(mentions@, x) == (base.contains(x) || (allow_mentions && exists|j: int|
                    0 <= j < i + 1 && reply_mentions(d, j) && #[trigger] replied@[j].author@ == x)) by {
                if allow_mentions && exists|j: int|
                    0 <= j < i + 1 && reply_mentions(d, j) && #[trigger] replied@[j].author@ == x {
                    let j = choose|j: int|
                        0 <= j < i + 1 && reply_mentions(d, j) && #[trigger] replied@[j].author@ == x;
                    if j < i {
                        assert(holds_view(before_m, x));
                    }
                }
            }
            assert forall|x: Seq<char>| #[trigger]
                holds_view(reply_ids@, x) == exists|j: int|
                    0 <= j < i + 1 && #[trigger] replied@[j].id@ == x by {
                if exists|j: int| 0 <= j < i + 1 && #[trigger] replied@[j].id@ == x {
                    let j = choose|j: int| 0 <= j < i + 1 && #[trigger] replied@[j].id@ == x;
                    if j < i {
                        assert(holds_view(before_r, x));
                    }
                }
            }
            i = i + 1;
        }
        let ghost want_m = expected_mentions(d, replied@, allow_mentions);
        assert forall|x: Seq<char>| #[trigger] holds_view(mentions@, x) == want_m.contains(x) by {}
        let ghost want_r = expected_replies(replied@);
        assert forall|x: Seq<char>| #[trigger] holds_view(reply_ids@, x) == want_r.contains(x) by {}

        let (author_id, webhook) = match author {
            MessageAuthor::User { id } => (id, None),
            MessageAuthor::Webhook(w) => (w.id.clone(), Some(w)),
            MessageAuthor::System { .. } => (system_author(), None),
        };
        let DataMessageSend {
            nonce: _,
            content,
            attachments: _,
            replies: _,
            embeds,
            masquerade,
            interactions,
        } = data;
        let interactions = match interactions {
            Some(i) => i,
            None => Interactions { reactions: None, restrict_reactions: false },
        };
        let mut message = Message {
            id,
            nonce: Some(idempotency.into_key()),
            channel: channel.id(),
            author: author_id,
            webhook,
            content,
            system: None,
            attachments: if attachments.len() == 0 {
                None
            } else {
                Some(attachments)
            },
            edited: None,
            embeds: None,
            mentions: stored_set(mentions, Ghost(want_m)),
            replies: stored_set(reply_ids, Ghost(want_r)),
            reactions: no_reactions(),
            interactions,
            masquerade,
        };
        let ghost fixed = message;
        let mut sendable = match embeds {
            Some(v) => v,
            None => Vec::new(),
        };
        let mut media = embed_media;
        let ghost all = sendable_seq(d);
        let ghost all_media = media@;
        let total_len: usize = sendable.len();
        let ghost total = all.len();
        assert(sendable@ == all);
        let mut k: usize = 0;
        while sendable.len() > 0
            invariant
                all.len() == all_media.len(),
                total == all.len(),
                k <= total,
                sendable@.len() + k == total,
                total == total_len,
                sendable@ == all.skip(k as int),
                media@ == all_media.skip(k as int),
                crate::message::same_but_embeds(fixed, message),
                k == 0 ==> message.embeds is None,
                k > 0 ==> message.embeds is Some,
                embed_seq(message) == Seq::new(
                    k as nat,
                    |i: int| stored_embed(all[i], all_media[i]),
                ),
            decreases sendable@.len(),
        {
            let e = sendable.remove(0);
            let m = media.remove(0);
            assert(all.skip(k as int)[0] == all[k as int]);
            assert(all_media.skip(k as int)[0] == all_media[k as int]);
            message.attach_sendable_embed(e, m);
            assert(all.skip(k as int).remove(0) =~= all.skip(k as int + 1));
            assert(all_media.skip(k as int).remove(0) =~= all_media.skip(k as int + 1));
            k = k + 1;
            assert(embed_seq(message) =~= Seq::new(
                k as nat,
                |i: int| stored_embed(all[i], all_media[i]),
            ));
        }
        message
    }

    /// Background work to queue once this message is stored: the channel's
    /// last-message marker, one mention entry for each mentioned user and,
    /// when asked for and there is content, embed generation.
    pub fn notification_tasks(&self, is_dm: bool, generate_embeds: bool) -> (r: Vec<Task>)
        ensures
            r@.len() == 1 + mention_seq(*self).len() + if generate_embeds
                && self.content is Some {
                1int
            } else {
                0int
            },
            r@[0] == (Task::LastMessageId { channel: self.channel, id: self.id, is_dm }),
            forall|k: int|
                0 <= k < mention_seq(*self).len() ==> match #[trigger] r@[1 + k] {
                    Task::AddMention { channel, user, ids } => channel == self.channel && user
                        == mention_seq(*self)[k] && ids@ == seq![self.id],
                    _ => false,
                },
            generate_embeds && self.content is Some ==> r@.last() == (Task::ProcessEmbeds {
                channel: self.channel,
                id: self.id,
                content: self.content.unwrap(),
            }),
    {
        let mut tasks: Vec<Task> = Vec::new();
        tasks.push(
            Task::LastMessageId { channel: self.channel.clone(), id: self.id.clone(), is_dm },
        );
        if let Some(mentions) = &self.mentions {
            let mut k: usize = 0;
            while k < mentions.len()
                invariant
                    mention_seq(*self) == mentions@,
                    k <= mentions@.len(),
                    tasks@.len() == 1 + k,
                    tasks@[0] == (Task::LastMessageId {
                        channel: self.channel,
                        id: self.id,
                        is_dm,
                    }),
                    forall|j: int|
                        0 <= j < k ==> match #[trigger] tasks@[1 + j] {
                            Task::AddMention { channel, user, ids } => channel == self.channel
                                && user == mentions@[j] && ids@ == seq![self.id],
                            _ => false,
                        },
                decreases mentions@.len() - k,
            {
                let mut ids: Vec<String> = Vec::new();
                ids.push(self.id.clone());
                assert(ids@ =~= seq![self.id]);
                tasks.push(
                    Task::AddMention {
                        channel: self.channel.clone(),
                        user: mentions[k].clone(),
                        ids,
                    },
                );
                k = k + 1;
            }
        }
        if generate_embeds {
            if let Some(content) = &self.content {
                tasks.push(
                    Task::ProcessEmbeds {
                        channel: self.channel.clone(),
                        id: self.id.clone(),
                        content: content.clone(),
                    },
                );
            }
        }
        tasks
    }

    /// Users to send a push notification to: in direct messages and groups
    /// every recipient but the author; in server channels the mentioned
    /// users; in saved messages nobody.
    pub fn push_recipients(&self, channel: &Channel) -> (r: Vec<String>)
        ensures
            match *channel {
                Channel::DirectMessage { recipients, .. } | Channel::Group { recipients, .. } => forall|
                    x: Seq<char>,
                | #[trigger] holds_view(r@, x) == (holds_view(recipients@, x) && x != self.author@),
                Channel::TextChannel { .. } | Channel::VoiceChannel { .. } => r@ == mention_seq(
                    *self,
                ),
                Channel::SavedMessages { .. } => r@.len() == 0,
            },
    {
        match channel {
            Channel::DirectMessage { recipients, .. } | Channel::Group { recipients, .. } => {
                let mut out: Vec<String> = Vec::new();
                let mut k: usize = 0;
                assert forall|x: Seq<char>| #[trigger]
                    holds_view(out@, x) == ((exists|j: int|
                        0 <= j < k && #[trigger] recipients@[j]@ == x) && x != self.author@) by {
                    assert(!holds_view(out@, x));
                }
                while k < recipients.len()
                    invariant
                        k <= recipients@.len(),
                        forall|x: Seq<char>|
                            #[trigger] holds_view(out@, x) == ((exists|j: int|
                                0 <= j < k && #[trigger] recipients@[j]@ == x) && x != self.author@),
                    decreases recipients@.len() - k,
                {
                    let ghost before = out@;
                    if recipients[k] != self.author {
                        out.push(recipients[k].clone());
                    }
                    assert forall|x: Seq<char>| #[trigger]
                        holds_view(out@, x) == ((exists|j: int|
                            0 <= j < k + 1 && #[trigger] recipients@[j]@ == x) && x != self.author@) by {
                        if holds_view(out@, x) {
                            let i = choose|i: int| 0 <= i < out@.len() && #[trigger] out@[i]@ == x;
                            if i < before.len() {
                                assert(before[i]@ == x);
                                assert(holds_view(before, x));
                            }
                        }
                        if (exists|j: int| 0 <= j < k + 1 && #[trigger] recipients@[j]@ == x) && x
                            != self.author@ {
                            let j = choose|j: int| 0 <= j < k + 1 && #[trigger] recipients@[j]@ == x;
                            if j < k {
                                assert(holds_view(before, x));
                                let i = choose|i: int|
                                    0 <= i < before.len() && #[trigger] before[i]@ == x;
                                assert(out@[i] == before[i]);
                            } else {
                                assert(out@[out@.len() - 1]@ == x);
                            }
                        }
                    }
                    k = k + 1;
                }
                assert forall|x: Seq<char>| #[trigger]
                    holds_view(out@, x) == (holds_view(recipients@, x) && x != self.author@) by {
                    if holds_view(recipients@, x) {
                        let j = choose|j: int|
                            0 <= j < recipients@.len() && #[trigger] recipients@[j]@ == x;
                        assert(0 <= j < k);
                    }
                }
                out
            },
            Channel::TextChannel { .. } | Channel::VoiceChannel { .. } => {
                let mut out: Vec<String> = Vec::new();
                if let Some(mentions) = &self.mentions {
                    let mut k: usize = 0;
                    while k < mentions.len()
                        invariant
                            k <= mentions@.len(),
                            out@ == mentions@.take(k as int),
                        decreases mentions@.len() - k,
                    {
                        out.push(mentions[k].clone());
                        assert(mentions@.take(k as int + 1) =~= mentions@.take(k as int).push(
                            mentions@[k as int],
                        ));
                        k = k + 1;
                    }
                    assert(mentions@.take(k as int) =~= mentions@);
                } else {
                    assert(out@ =~= Seq::<String>::empty());
                }
                out
            },
            Channel::SavedMessages { .. } => Vec::new(),
        }
    }
}

/// Limit boundaries: a count equal to its bound passes and one more fails
/// with that bound's error, for replies (once the earlier checks pass) and
/// for attachments and embeds.
pub proof fn lemma_limit_boundaries(d: DataMessageSend, claimed: Seq<Seq<char>>, limits: Limits)
    ensures
        ({
            let earlier_pass = payload_len(d.content, sendable_seq(d)) <= limits.message_length
                && consume_spec(claimed, nonce_view(d.nonce)).0 is Ok && !is_empty_send(d) && match d.interactions {
                Some(i) => restriction_ok(i),
                None => true,
            };
            &&& earlier_pass && opt_len(d.replies) == limits.message_replies ==> send_check_spec(
                d,
                claimed,
                limits,
            ) is Ok
            &&& earlier_pass && opt_len(d.replies) == limits.message_replies + 1 ==> send_check_spec(
                d,
                claimed,
                limits,
            ) == Err::<(), Error>(Error::TooManyReplies { max: limits.message_replies })
        }),
        opt_len(d.attachments) == limits.message_attachments && opt_len(d.embeds)
            <= limits.message_embeds ==> binding_check_spec(d, limits) is Ok,
        opt_len(d.attachments) == limits.message_attachments + 1 ==> binding_check_spec(d, limits)
            == Err::<(), Error>(Error::TooManyAttachments { max: limits.message_attachments }),
        opt_len(d.attachments) <= limits.message_attachments && opt_len(d.embeds)
            == limits.message_embeds ==> binding_check_spec(d, limits) is Ok,
        opt_len(d.attachments) <= limits.message_attachments && opt_len(d.embeds)
            == limits.message_embeds + 1 ==> binding_check_spec(d, limits) == Err::<(), Error>(
            Error::TooManyEmbeds { max: limits.message_embeds },
        ),
{
}

} // verus!
