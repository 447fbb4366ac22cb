use vstd::prelude::*;

use crate::esp12f::{ConnWifi, Error, WifiScan};
use crate::sht31::SHT31Reading;

verus! {

/// Number of tasks that can send commands to the ESP8266 task.
pub const ESP12F_CONSUMER_LEN: usize = 2;

/// Time without commands after which the ESP8266 is put to sleep, in milliseconds.
pub const MAX_LAST_COMMAND_DURATION_MS: u64 = 100;

/// The outcome of a scan: the networks found.
pub type ScanReturn = Result<heapless::Vec<WifiScan, 10>, Error>;

/// The outcome of a connect command.
pub type ConnectReturn = Result<(), Error>;

/// The outcome of sending a climate reading.
pub type SendClimateReturn = Result<(), Error>;

/// A result sent back by the ESP8266 task.
pub enum ESP12FResult {
    Scan(ScanReturn),
    Connect(ConnectReturn),
    SendClimate(SendClimateReturn),
}

/// A command sent to the ESP8266 task.
pub enum ESP12Command {
    Scan,
    Connect(ConnWifi),
    SendClimate(SHT31Reading),
}

impl ESP12FResult {
    /// The scan outcome of the answer to a scan command.
    pub fn into_scan(self) -> (r: ScanReturn)
        requires
            self is Scan,
        ensures
            self matches ESP12FResult::Scan(res) && r == res,
    {
        match self {
            ESP12FResult::Scan(res) => res,
            _ => vstd::pervasive::unreached(),
        }
    }

    /// The connect outcome of the answer to a connect command.
    pub fn into_connect(self) -> (r: ConnectReturn)
        requires
            self is Connect,
        ensures
            self matches ESP12FResult::Connect(res) && r == res,
    {
        match self {
            ESP12FResult::Connect(res) => res,
            _ => vstd::pervasive::unreached(),
        }
    }
}

/// What the ESP8266 task does on one poll of a command channel.
#[derive(Clone, Copy, PartialEq, Eq, Structural, Debug)]
pub enum IdleAction {
    /// A command arrived: carry it out and send back its result.
    Serve,
    /// No command, and none for longer than the idle limit: put the module to sleep.
    TurnOff,
    /// No command yet: poll again.
    Wait,
}

/// The decision of one poll: `received` tells whether a command arrived, `idle_micros`
/// how long ago the last command arrived, in microseconds. The module is put to sleep
/// once that is longer than `MAX_LAST_COMMAND_DURATION_MS`.
pub fn idle_action(received: bool, idle_micros: u64) -> (r: IdleAction)
    ensures
        r == (if received {
            IdleAction::Serve
        } else if idle_micros > MAX_LAST_COMMAND_DURATION_MS * 1000 {
            IdleAction::TurnOff
        } else {
            IdleAction::Wait
        }),
{
    if received {
        IdleAction::Serve
    } else if idle_micros > MAX_LAST_COMMAND_DURATION_MS * 1000 {
        IdleAction::TurnOff
    } else {
        IdleAction::Wait
    }
}

/// The answer to a command that needs no exchange with the ESP8266: sending a climate
/// reading succeeds at once. Scan and connect commands need the device.
pub fn immediate_result(command: &ESP12Command) -> (r: Option<ESP12FResult>)
    ensures
        match command {
            ESP12Command::SendClimate(_) => r matches Some(ESP12FResult::SendClimate(res))
                && res == Ok::<(), Error>(()),
            _ => r is None,
        },
{
    match command {
        ESP12Command::SendClimate(_) => Some(ESP12FResult::SendClimate(Ok(()))),
        _ => None,
    }
}

} // verus!
