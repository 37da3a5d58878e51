use vstd::prelude::*;

verus! {

/// Where the broker is and which topics carry commands and status.
pub struct Mqtt {
    pub broker: String,
    pub client_id: String,
    pub username: String,
    pub password: String,
    pub status_topic: String,
    pub command_topic: String,
}

/// A hardware line: its number, and whether its level is inverted.
#[derive(Clone, Copy, Debug, PartialEq, Eq)]
pub struct IoPin {
    pub number: u64,
    pub inverted: bool,
}

/// The settings of a station controller. An absent line is neither driven nor
/// watched; an absent guard time means no transmit cutoff.
pub struct Config {
    pub mqtt: Mqtt,
    pub tx_power_enable: Option<IoPin>,
    pub tx_power_status: Option<IoPin>,
    pub ptt_enable: Option<IoPin>,
    pub ptt_status: Option<IoPin>,
    /// Longest continuous transmission, in milliseconds.
    pub tx_guard_time: Option<u64>,
}

} // verus!
