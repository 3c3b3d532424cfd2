//! The shared mutable state of the service and the per-utterance reaction
//! steps that drive it.
//!
//! All sessions share one [`SharedContext`] behind one mutual-exclusion
//! lock, which the service holds across a whole turn; reactions are
//! therefore fully serialized process-wide, and the appends these steps
//! make land in the memory in exactly the order the turns ran.
//!
//! One utterance runs through three steps, with the service performing the
//! external calls between them:
//! 1. [`note_user_utterance`] — append the user turn, stage the vector
//!    record (the service then embeds and stores it, and commits the
//!    store's counter only on success);
//! 2. [`build_turn_request`] — render the outbound completion request from
//!    the snapshot (the service then performs the HTTP call);
//! 3. [`accept_provider_reply`] — validate and decode the reply, record
//!    the provider's turn on success, and hand back the reaction or the
//!    error that ends the stream.

use vstd::prelude::*;

use crate::decode::{decode_reply, spec_decode_reply, ProviderCallView, ValidationFault};
use crate::memory::{push_bounded, ConversationMemory};
use crate::messages::{Message, MessageView, Role};
use crate::reaction::Reaction;
use crate::request::{
    build_messages, build_request_body, message_views, spec_request_body,
};
use crate::store::{LongTermMemoryStore, MetaData, PendingRecord};

verus! {

/// Why one reaction turn failed. Either way the stream is terminated: there
/// are no retries, the caller must re-establish the stream and resend.
#[derive(Debug)]
pub enum ReactError {
    /// The completion provider, the embedding provider or the vector
    /// database failed; the detail carries the upstream status and body.
    Upstream(String),
    /// The provider's reply failed validation or decoding.
    Validation(ValidationFault),
}

impl ReactError {
    /// The operator-facing description of this error.
    pub open spec fn spec_message(self) -> Seq<char> {
        match self {
            ReactError::Upstream(d) => d@,
            ReactError::Validation(f) => f.spec_message(),
        }
    }

    /// Returns the operator-facing description of this error.
    pub fn message(&self) -> (r: String)
        ensures
            r@ == self.spec_message(),
    {
        match self {
            ReactError::Upstream(d) => d.clone(),
            ReactError::Validation(f) => f.message().to_owned(),
        }
    }
}

/// The single mutable record shared by all sessions: model selection,
/// system prompt, short-term memory and long-term memory bookkeeping.
pub struct SharedContext {
    pub model: String,
    pub prompt: String,
    pub memory: ConversationMemory,
    pub store: LongTermMemoryStore,
}

impl SharedContext {
    /// Both memories are well formed.
    pub open spec fn wf(self) -> bool {
        &&& self.memory.wf()
        &&& self.store.wf()
    }

    /// A fresh context with an empty conversation memory.
    pub fn new(model: String, prompt: String, capacity: usize, store: LongTermMemoryStore) -> (r:
        SharedContext)
        requires
            store.wf(),
        ensures
            r.wf(),
            r.model@ == model@,
            r.prompt@ == prompt@,
            r.memory@ =~= Seq::<MessageView>::empty(),
            r.memory.spec_capacity() == capacity,
            r.store == store,
    {
        SharedContext { model, prompt, memory: ConversationMemory::new(capacity), store }
    }
}

/// The user turn recorded for an utterance.
pub open spec fn user_message_view(text: Seq<char>) -> MessageView {
    MessageView { role: Role::User, content: Some(text), name: None, function_call: None }
}

/// The provider turn recorded for a decoded function call.
pub open spec fn provider_message_view(pc: ProviderCallView) -> MessageView {
    MessageView { role: Role::Assistant, content: None, name: pc.name, function_call: Some(
        pc.call,
    ) }
}

/// The outbound message list of a turn: the system prompt first, then the
/// whole remembered conversation in order.
pub open spec fn turn_message_views(ctx: SharedContext) -> Seq<MessageView> {
    seq![
        MessageView {
            role: Role::System,
            content: Some(ctx.prompt@),
            name: None,
            function_call: None,
        },
    ] + ctx.memory@
}

/// Appends the user's utterance to the conversation memory and stages the
/// long-term record for it, under the store's next identifier. Nothing else
/// of the context changes; in particular the store's counter does not
/// advance until the service commits the record.
pub fn note_user_utterance(ctx: &mut SharedContext, text: String, author: String) -> (r:
    PendingRecord)
    requires
        old(ctx).wf(),
    ensures
        final(ctx).wf(),
        final(ctx).memory@ =~= push_bounded(
            old(ctx).memory@,
            old(ctx).memory.spec_capacity(),
            user_message_view(text@),
        ),
        final(ctx).memory.spec_capacity() == old(ctx).memory.spec_capacity(),
        final(ctx).store == old(ctx).store,
        final(ctx).model == old(ctx).model,
        final(ctx).prompt == old(ctx).prompt,
        r.id == old(ctx).store.spec_next_id(),
        r.collection@ == old(ctx).store.spec_collection(),
        r.dimension == old(ctx).store.spec_dimension(),
        r.text@ == text@,
        r.meta.author@ == author@,
{
    ctx.memory.add(Message::text(Role::User, text.clone()));
    ctx.store.begin_upsert(text, MetaData::new(author))
}

/// Renders the outbound completion request for the current snapshot: the
/// system prompt, the remembered conversation, and the forced reaction
/// generator.
pub fn build_turn_request(ctx: &SharedContext) -> (r: String)
    ensures
        r@ == spec_request_body(ctx.model@, turn_message_views(*ctx)),
{
    let snapshot = ctx.memory.get();
    let messages = build_messages(ctx.prompt.clone(), snapshot);
    proof {
        assert(message_views(messages@) =~= turn_message_views(*ctx));
    }
    build_request_body(ctx.model.as_str(), &messages)
}

/// The messages a sequence of fully decoded turns appends, in turn order:
/// for each turn the user's utterance, then the provider's recorded call.
pub open spec fn spec_turn_log(turns: Seq<(Seq<char>, ProviderCallView)>) -> Seq<MessageView>
    decreases turns.len(),
{
    if turns.len() == 0 {
        Seq::empty()
    } else {
        spec_turn_log(turns.drop_last()) + seq![
            user_message_view(turns.last().0),
            provider_message_view(turns.last().1),
        ]
    }
}

/// What one fully decoded turn does to the remembered sequence: the user
/// append of [`note_user_utterance`], then the provider append of
/// [`accept_provider_reply`].
pub open spec fn spec_apply_turn(
    s: Seq<MessageView>,
    cap: nat,
    turn: (Seq<char>, ProviderCallView),
) -> Seq<MessageView> {
    push_bounded(push_bounded(s, cap, user_message_view(turn.0)), cap, provider_message_view(
        turn.1,
    ))
}

/// The remembered sequence after a series of fully decoded turns ran, one
/// after the other, against a memory of capacity `cap`.
pub open spec fn spec_run_turns(
    s: Seq<MessageView>,
    cap: nat,
    turns: Seq<(Seq<char>, ProviderCallView)>,
) -> Seq<MessageView>
    decreases turns.len(),
{
    if turns.len() == 0 {
        s
    } else {
        spec_apply_turn(spec_run_turns(s, cap, turns.drop_last()), cap, turns.last())
    }
}

/// Turns never interleave: every turn mutates the context only while it
/// holds the process-wide lock, so running a series of turns from an empty
/// memory leaves exactly the appends of those turns, two per turn, in
/// lock-acquisition order — the bounded window over the turns' combined
/// log. In particular the remembered conversation is never inconsistent
/// with the order in which the turns acquired the lock.
pub proof fn lemma_serialized_turns(cap: nat, turns: Seq<(Seq<char>, ProviderCallView)>)
    ensures
        spec_run_turns(Seq::empty(), cap, turns) =~= crate::memory::run_adds(
            cap,
            spec_turn_log(turns),
        ),
    decreases turns.len(),
{
    if turns.len() == 0 {
        assert(spec_turn_log(turns) =~= Seq::<MessageView>::empty());
    } else {
        lemma_serialized_turns(cap, turns.drop_last());
        let log = spec_turn_log(turns);
        let prev = spec_turn_log(turns.drop_last());
        let u = user_message_view(turns.last().0);
        let p = provider_message_view(turns.last().1);
        assert(log =~= prev + seq![u, p]);
        assert(log.drop_last() =~= prev.push(u));
        assert(log.last() == p);
        assert(log.drop_last().drop_last() =~= prev);
        assert(log.drop_last().last() == u);
        assert(crate::memory::run_adds(cap, log) == push_bounded(
            crate::memory::run_adds(cap, log.drop_last()),
            cap,
            p,
        ));
        assert(crate::memory::run_adds(cap, log.drop_last()) == push_bounded(
            crate::memory::run_adds(cap, prev),
            cap,
            u,
        ));
        assert(spec_run_turns(Seq::empty(), cap, turns) == push_bounded(
            push_bounded(spec_run_turns(Seq::empty(), cap, turns.drop_last()), cap, u),
            cap,
            p,
        ));
    }
}

/// Accepts what came back from the completion provider: an upstream failure
/// as the service reports it, or the reply body. On a fully decoded reply
/// the provider's turn is recorded in the conversation memory and the
/// reaction is returned; on any failure the memory is left unchanged and
/// the error that terminates the stream is returned.
pub fn accept_provider_reply(ctx: &mut SharedContext, reply: Result<String, String>) -> (r: Result<
    Reaction,
    ReactError,
>)
    requires
        old(ctx).wf(),
    ensures
        final(ctx).wf(),
        final(ctx).model == old(ctx).model,
        final(ctx).prompt == old(ctx).prompt,
        final(ctx).store == old(ctx).store,
        final(ctx).memory.spec_capacity() == old(ctx).memory.spec_capacity(),
        (reply matches Err(d) ==> {
            &&& r matches Err(e) && e == ReactError::Upstream(d)
            &&& final(ctx).memory@ == old(ctx).memory@
        }),
        (reply matches Ok(body) ==> match spec_decode_reply(body@) {
            Err(f) => {
                &&& r == Err::<Reaction, ReactError>(ReactError::Validation(f))
                &&& final(ctx).memory@ == old(ctx).memory@
            },
            Ok(pr) => {
                &&& r == Ok::<Reaction, ReactError>(pr.1)
                &&& final(ctx).memory@ =~= push_bounded(
                    old(ctx).memory@,
                    old(ctx).memory.spec_capacity(),
                    provider_message_view(pr.0),
                )
            },
        }),
{
    match reply {
        Err(detail) => Err(ReactError::Upstream(detail)),
        Ok(body) => match decode_reply(body.as_str()) {
            Err(f) => Err(ReactError::Validation(f)),
            Ok((pc, reaction)) => {
                ctx.memory.add(Message::function(Role::Assistant, pc.name, pc.call));
                Ok(reaction)
            },
        },
    }
}

} // verus!
