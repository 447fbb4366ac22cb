use embassy_time::Duration;
use vstd::prelude::*;

use crate::esp12f::ConnWifi;

verus! {

#[verifier::external_type_specification]
#[verifier::external_body]
pub struct ExDuration(Duration);

/// The whole number of milliseconds that embassy-time's `Duration::as_millis` returns
/// for `d`.
pub uninterp spec fn duration_as_millis(d: Duration) -> u64;

/// The `Duration` that embassy-time's `Duration::from_millis` returns for `ms`.
pub uninterp spec fn duration_from_millis(ms: u64) -> Duration;

/// embassy-time `Duration::as_millis`: the duration in whole milliseconds. At the
/// default tick rate of 1 MHz, which this crate builds with, it is the tick count divided
/// by 1000, so at most `u64::MAX / 1000`.
#[verifier::external_body]
pub(crate) fn as_millis(d: &Duration) -> (r: u64)
    ensures
        r == duration_as_millis(*d),
        r <= u64::MAX / 1000,
{
    d.as_millis()
}

/// embassy-time `Duration::from_millis`: at the default tick rate of 1 MHz, which this
/// crate builds with, the duration is `ms * 1000` ticks, and `as_millis` gives back `ms`.
/// The multiplication overflows for larger `ms`, which `requires` leaves out.
#[verifier::external_body]
pub(crate) fn from_millis(ms: u64) -> (d: Duration)
    requires
        ms <= u64::MAX / 1000,
    ensures
        d == duration_from_millis(ms),
        duration_as_millis(d) == ms,
{
    Duration::from_millis(ms)
}

/// The WiFi settings: the network to join, if any, and the reporting interval.
pub struct WifiConfig {
    pub wifi: Option<ConnWifi>,
    pub interval: Duration,
}

impl View for WifiConfig {
    /// The credentials, if any, and the interval in milliseconds.
    type V = (Option<(Seq<u8>, Seq<u8>)>, u64);

    open spec fn view(&self) -> (Option<(Seq<u8>, Seq<u8>)>, u64) {
        (
            match self.wifi {
                Some(w) => Some(w@),
                None => None,
            },
            duration_as_millis(self.interval),
        )
    }
}

impl Clone for WifiConfig {
    fn clone(&self) -> (r: Self)
        ensures
            r@ == self@,
            r.interval == self.interval,
    {
        WifiConfig {
            wifi: match &self.wifi {
                Some(w) => Some(w.clone()),
                None => None,
            },
            interval: self.interval,
        }
    }
}

impl Default for WifiConfig {
    /// No network, and a 15 second interval.
    fn default() -> (r: Self)
        ensures
            r.wifi is None,
            duration_as_millis(r.interval) == 15000,
    {
        Self { wifi: None, interval: from_millis(15000) }
    }
}

} // verus!
