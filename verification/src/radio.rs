//! Whether one player hears another on the radio.
use vstd::prelude::*;
use crate::protocol::{PlayerState, PlayerStateView, RadioConfig};
use crate::text::same_text;

verus! {

/// Two radios on the same frequency and channel.
pub open spec fn same_net(a: Option<crate::protocol::RadioConfigView>, b: Option<crate::protocol::RadioConfigView>) -> bool {
    a matches Some(x) && b matches Some(y) && x.freq == y.freq && x.channel == y.channel
}

/// Whether `rx` hears `tx` on the radio. Both must be alive and conscious;
/// a short-range transmission is heard on the same short-range frequency
/// and channel, within the short-range reach (`within_sr_range`); failing
/// that, a long-range one likewise on the long-range radios
/// (`within_lr_range`).
pub open spec fn hears_radio(tx: PlayerStateView, rx: PlayerStateView, within_sr_range: bool, within_lr_range: bool) -> bool {
    if !tx.alive || !rx.alive || !tx.conscious || !rx.conscious {
        false
    } else if tx.transmitting_sr() && same_net(tx.radio_sr, rx.radio_sr) {
        within_sr_range
    } else if tx.transmitting_lr() && same_net(tx.radio_lr, rx.radio_lr) {
        within_lr_range
    } else {
        false
    }
}

fn same_net_exec(a: &Option<RadioConfig>, b: &Option<RadioConfig>) -> (r: bool)
    ensures
        r == same_net(crate::protocol::opt_radio(*a), crate::protocol::opt_radio(*b)),
{
    match (a, b) {
        (Some(x), Some(y)) => same_text(x.freq.as_str(), y.freq.as_str()) && x.channel == y.channel,
        _ => false,
    }
}

/// `within_sr_range` and `within_lr_range` say whether the two players are
/// no farther apart than the short-range and the long-range reach.
pub fn can_hear_radio(transmitter: &PlayerState, receiver: &PlayerState, within_sr_range: bool, within_lr_range: bool) -> (r: bool)
    ensures
        r == hears_radio(transmitter@, receiver@, within_sr_range, within_lr_range),
{
    if !transmitter.alive || !receiver.alive {
        return false;
    }
    if !transmitter.conscious || !receiver.conscious {
        return false;
    }
    if transmitter.is_transmitting_sr() && same_net_exec(&transmitter.radio_sr, &receiver.radio_sr) {
        return within_sr_range;
    }
    if transmitter.is_transmitting_lr() && same_net_exec(&transmitter.radio_lr, &receiver.radio_lr) {
        return within_lr_range;
    }
    false
}

} // verus!
