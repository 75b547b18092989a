//! The standalone bridge: every player state it receives from the game is
//! stored and answered with a radio state message for the Mumble plugin.
use vstd::prelude::*;
use crate::extension::{build_message, message_of};
use crate::protocol::{PlayerState, ProtocolError, RadioStateMessage, PROTOCOL_VERSION, check_version};
use crate::store::PlayerStore;
use crate::text::owned;

verus! {

/// The player the bridge's message is for: the configured local player,
/// else the sender of the state just received.
pub open spec fn bridge_local(configured: Option<Seq<char>>, sender: Seq<char>) -> Seq<char> {
    match configured {
        Some(id) => id,
        None => sender,
    }
}

/// What the bridge does with one received player state: a state of another
/// protocol version is refused and changes nothing; otherwise the state is
/// stored and the message is built for the configured local player, or,
/// without one, for the sender.
pub fn bridge_receive(store: &mut PlayerStore, state: PlayerState, local_id: Option<&str>) -> (r: Result<RadioStateMessage, ProtocolError>)
    requires
        old(store).wf(),
    ensures
        final(store).wf(),
        state@.v != PROTOCOL_VERSION ==> (r matches Err(ProtocolError::WrongVersion(v)) && v == state@.v)
            && final(store)@ == old(store)@,
        state@.v == PROTOCOL_VERSION ==> final(store)@ == old(store)@.insert(state@.player_id, state@)
            && (r matches Ok(m) && m@ == message_of(
                *final(store),
                bridge_local(
                    match local_id {
                        Some(l) => Some(l@),
                        None => None,
                    },
                    state@.player_id,
                ),
            )),
{
    match check_version(state.v) {
        Ok(()) => {},
        Err(e) => {
            return Err(e);
        },
    }
    let local = match local_id {
        Some(l) => owned(l),
        None => state.player_id.clone(),
    };
    store.update(state);
    Ok(build_message(store, local.as_str()))
}

} // verus!
