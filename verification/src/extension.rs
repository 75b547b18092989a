//! What the Arma extension does with each call, apart from the shared
//! memory and the UDP socket: it remembers the local player, keeps every
//! player's latest state and builds the message for the Mumble plugin.
use vstd::prelude::*;
use crate::payload::{PayloadError, normalized_single, normalize_single_string_arg};
use crate::protocol::{
    PlayerState, PlayerStateView, PlayerSummary, PlayerSummaryView, RadioStateMessage,
    RadioStateMessageView, PROTOCOL_VERSION, check_version, summary_of,
    summary_views,
};
use crate::store::{PlayerStore, state_views};
use crate::text::{same_text, string_from_chars, trim_chars, trimmed};

verus! {

/// The summaries of the states `ps`, in order.
pub open spec fn summaries(ps: Seq<PlayerStateView>) -> Seq<PlayerSummaryView> {
    ps.map_values(|p: PlayerStateView| summary_of(p))
}

/// The message describing `store` for the local player `local_id`: server
/// and tick come from the local player's state ("" and 0 if unknown), and
/// every stored player is summarised.
pub open spec fn message_of(store: PlayerStore, local_id: Seq<char>) -> RadioStateMessageView {
    let known = store@.contains_key(local_id);
    RadioStateMessageView {
        v: PROTOCOL_VERSION,
        msg_type: "radio_state"@,
        server_id: if known { store@[local_id].server_id } else { Seq::empty() },
        tick: if known { store@[local_id].tick } else { 0 },
        local_player: local_id,
        players: summaries(store.entries()),
    }
}

pub fn build_message(store: &PlayerStore, local_id: &str) -> (r: RadioStateMessage)
    requires
        store.wf(),
    ensures
        r@ == message_of(*store, local_id@),
{
    let (server_id, tick) = match store.get(local_id) {
        Some(s) => (s.server_id.clone(), s.tick),
        None => (String::new(), 0u64),
    };
    let all = store.all();
    let mut players: Vec<PlayerSummary> = Vec::new();
    let mut i: usize = 0;
    while i < all.len()
        invariant
            state_views(all@) == store.entries(),
            i <= all@.len(),
            summary_views(players@) == summaries(store.entries()).take(i as int),
        decreases all@.len() - i,
    {
        let s = PlayerSummary::from_state(&all[i]);
        assert(store.entries()[i as int] == state_views(all@)[i as int]);
        assert(s@ == summaries(store.entries())[i as int]);
        let ghost prev = players@;
        let ghost sv = s@;
        players.push(s);
        assert(players@ == prev.push(s));
        assert(summary_views(players@) =~= summary_views(prev).push(sv));
        assert(summaries(store.entries()).take(i + 1) =~= summaries(store.entries()).take(i as int).push(sv));
        i = i + 1;
    }
    assert(summaries(store.entries()).take(all@.len() as int) =~= summaries(store.entries()));
    let local = crate::text::owned(local_id);
    RadioStateMessage::new(server_id, tick, local, players)
}

/// The extension's memory between calls.
pub struct ExtensionCore {
    pub store: PlayerStore,
    /// The id of the player running this game client, once `init` named it.
    pub local_id: Option<String>,
}

impl ExtensionCore {
    pub open spec fn wf(&self) -> bool {
        self.store.wf()
    }

    /// The local player's id, "" before `init`.
    pub open spec fn local_text(&self) -> Seq<char> {
        match self.local_id {
            Some(id) => id@,
            None => Seq::empty(),
        }
    }

    pub fn new() -> (r: Self)
        ensures
            r.wf(),
            r.store@ == Map::<Seq<char>, PlayerStateView>::empty(),
            r.local_id is None,
    {
        ExtensionCore { store: PlayerStore::new(), local_id: None }
    }

    /// Whether `state` is the local player's.
    pub fn is_local(&self, state: &PlayerState) -> (r: bool)
        ensures
            r == (self.local_id matches Some(id) && id@ == state@.player_id),
    {
        match &self.local_id {
            Some(id) => same_text(id.as_str(), state.player_id.as_str()),
            None => false,
        }
    }

    fn local_or_empty(&self) -> (r: String)
        ensures
            r@ == self.local_text(),
    {
        match &self.local_id {
            Some(id) => id.clone(),
            None => String::new(),
        }
    }

    /// Takes in the state that a `send` call carried: stores it and builds
    /// the message for the plugin. A state of another protocol version is
    /// refused and changes nothing.
    pub fn handle_state(&mut self, state: PlayerState) -> (r: Result<RadioStateMessage, PayloadError>)
        requires
            old(self).wf(),
        ensures
            final(self).wf(),
            final(self).local_id == old(self).local_id,
            state@.v != PROTOCOL_VERSION ==> r == Err::<RadioStateMessage, PayloadError>(PayloadError::WrongVersion(state@.v))
                && final(self).store@ == old(self).store@,
            state@.v == PROTOCOL_VERSION ==> final(self).store@ == old(self).store@.insert(state@.player_id, state@)
                && (r matches Ok(m) && m@ == message_of(final(self).store, old(self).local_text())),
    {
        match check_version(state.v) {
            Err(_) => {
                return Err(PayloadError::WrongVersion(state.v));
            },
            Ok(()) => {},
        }
        self.store.update(state);
        let local = self.local_or_empty();
        Ok(build_message(&self.store, local.as_str()))
    }

    /// Forgets the player `player_id` and builds the message for the plugin.
    pub fn handle_forget(&mut self, player_id: &str) -> (r: RadioStateMessage)
        requires
            old(self).wf(),
        ensures
            final(self).wf(),
            final(self).local_id == old(self).local_id,
            final(self).store@ == old(self).store@.remove(player_id@),
            r@ == message_of(final(self).store, old(self).local_text()),
    {
        let _known = self.store.remove(player_id);
        let local = self.local_or_empty();
        build_message(&self.store, local.as_str())
    }
}

/// The `init` call: names the local player (a plain, JSON-string or
/// one-string JSON-array argument).
pub fn handle_init(core: &mut ExtensionCore, local_id_raw: &str) -> (r: Result<(), PayloadError>)
    requires
        old(core).wf(),
    ensures
        final(core).wf(),
        final(core).store == old(core).store,
        match normalized_single(local_id_raw@) {
            Ok(id) => r is Ok && (final(core).local_id matches Some(l) && l@ == id),
            Err(e) => r == Err::<(), PayloadError>(e) && final(core).local_id == old(core).local_id,
        },
{
    let local_id = normalize_single_string_arg(local_id_raw)?;
    core.local_id = Some(local_id);
    Ok(())
}

/// The `forget` call: forgets the player named by the argument, without
/// surrounding whitespace, and builds the message for the plugin.
pub fn handle_forget_arg(core: &mut ExtensionCore, raw: &str) -> (r: RadioStateMessage)
    requires
        old(core).wf(),
    ensures
        final(core).wf(),
        final(core).local_id == old(core).local_id,
        final(core).store@ == old(core).store@.remove(trimmed(raw@)),
        r@ == message_of(final(core).store, old(core).local_text()),
{
    let t = trim_chars(raw);
    let id = string_from_chars(&t, 0, t.len());
    assert(t@.subrange(0, t@.len() as int) =~= t@);
    core.handle_forget(id.as_str())
}

/// A call Arma makes with arguments.
#[derive(Debug, Clone, Copy, PartialEq, Eq, Structural)]
pub enum ExtCommand {
    Init,
    Send,
    Forget,
    Version,
    Unknown,
}

/// Which call `func` with `arg_count` arguments is: `init`, `send` and
/// `forget` need at least one argument, `version` none.
pub open spec fn command_of(func: Seq<char>, arg_count: i32) -> ExtCommand {
    if func == "init"@ && arg_count >= 1 {
        ExtCommand::Init
    } else if func == "send"@ && arg_count >= 1 {
        ExtCommand::Send
    } else if func == "forget"@ && arg_count >= 1 {
        ExtCommand::Forget
    } else if func == "version"@ {
        ExtCommand::Version
    } else {
        ExtCommand::Unknown
    }
}

pub fn classify_command(func: &str, arg_count: i32) -> (r: ExtCommand)
    ensures
        r == command_of(func@, arg_count),
{
    if same_text(func, "init") && arg_count >= 1 {
        ExtCommand::Init
    } else if same_text(func, "send") && arg_count >= 1 {
        ExtCommand::Send
    } else if same_text(func, "forget") && arg_count >= 1 {
        ExtCommand::Forget
    } else if same_text(func, "version") {
        ExtCommand::Version
    } else {
        ExtCommand::Unknown
    }
}

/// The code a call with arguments returns to Arma: 0 for a handled call
/// that succeeded (and for `version`), -1 for one that failed, -2 for an
/// unknown call.
pub open spec fn status_code(cmd: ExtCommand, ok: bool) -> int {
    match cmd {
        ExtCommand::Unknown => -2,
        ExtCommand::Version => 0,
        _ => if ok { 0 } else { -1 },
    }
}

pub fn command_status(cmd: ExtCommand, ok: bool) -> (r: i32)
    ensures
        r == status_code(cmd, ok),
{
    match cmd {
        ExtCommand::Unknown => -2,
        ExtCommand::Version => 0,
        _ => if ok { 0 } else { -1 },
    }
}

/// The answer to a call without arguments.
#[derive(Debug, Clone, Copy, PartialEq, Eq, Structural)]
pub enum SimpleReply {
    /// The extension's version text.
    Version,
    /// "pong".
    Pong,
    /// "".
    Nothing,
}

pub open spec fn simple_reply_of(func: Seq<char>) -> SimpleReply {
    if func == "version"@ {
        SimpleReply::Version
    } else if func == "ping"@ {
        SimpleReply::Pong
    } else {
        SimpleReply::Nothing
    }
}

pub fn simple_reply(func: &str) -> (r: SimpleReply)
    ensures
        r == simple_reply_of(func@),
{
    if same_text(func, "version") {
        SimpleReply::Version
    } else if same_text(func, "ping") {
        SimpleReply::Pong
    } else {
        SimpleReply::Nothing
    }
}

/// How many bytes of a `data_len`-byte answer go into Arma's output buffer
/// of `size` bytes, which also needs room for a terminating NUL; `None`
/// when the buffer has no room at all.
pub fn output_len(size: i32, data_len: usize) -> (r: Option<usize>)
    ensures
        size <= 0 ==> r is None,
        size > 0 ==> r == Some(if data_len < size - 1 { data_len } else { (size - 1) as usize }),
{
    if size <= 0 {
        return None;
    }
    let room = (size - 1) as usize;
    if data_len < room {
        Some(data_len)
    } else {
        Some(room)
    }
}

} // verus!
