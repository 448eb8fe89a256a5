//! Instants on the UTC time line.

use vstd::prelude::*;

verus! {

/// An instant: the whole seconds since the Unix epoch, and the nanoseconds into that
/// second.
#[derive(Copy, Clone, Eq, PartialEq, Ord, PartialOrd, Hash, Debug)]
pub struct UtcDateTime {
    pub secs: i64,
    pub nanos: u32,
}

/// Reads the system clock with `chrono::Utc::now` and hands the instant back as the
/// seconds (`timestamp`) and nanoseconds (`timestamp_subsec_nanos`) that chrono reports.
/// Which instant comes back is the clock's matter. What holds of every instant that does:
/// `Utc::now` makes it of a `Duration`'s whole seconds and of its `subsec_nanos`, which
/// are less than a second, and `timestamp_subsec_nanos` gives these nanoseconds back.
/// `Utc::now` takes no input; it gives up only on a clock that is set to a time before
/// 1970.
#[verifier::external_body]
fn utc_now() -> (now: UtcDateTime)
    ensures
        now.within_the_second(),
{
    let now = chrono::Utc::now();
    UtcDateTime { secs: now.timestamp(), nanos: now.timestamp_subsec_nanos() }
}

impl UtcDateTime {
    /// Whether the nanoseconds are those of a moment within the second that `secs`
    /// counts: less than a second.
    pub open spec fn within_the_second(self) -> bool {
        self.nanos < 1_000_000_000
    }

    /// The instant `epoch_ms` milliseconds after the Unix epoch.
    pub open spec fn spec_from_epoch_ms(epoch_ms: u64) -> UtcDateTime {
        UtcDateTime {
            secs: (epoch_ms / 1000) as i64,
            nanos: ((epoch_ms % 1000) * 1_000_000) as u32,
        }
    }

    /// The milliseconds from the Unix epoch to this instant, rounded down.
    pub open spec fn epoch_ms(self) -> int {
        self.secs * 1000 + self.nanos / 1_000_000
    }

    /// The instant `epoch_ms` milliseconds after the Unix epoch.
    pub fn from_epoch_ms(epoch_ms: u64) -> (instant: UtcDateTime)
        ensures
            instant == Self::spec_from_epoch_ms(epoch_ms),
            instant.epoch_ms() == epoch_ms,
            instant.nanos < 1_000_000_000,
    {
        let secs: u64 = epoch_ms / 1000;
        let millis: u64 = epoch_ms % 1000;
        UtcDateTime { secs: secs as i64, nanos: (millis * 1_000_000) as u32 }
    }

    /// The instant that the system clock shows: a moment within the second that it
    /// counts, whichever second that is.
    pub fn now() -> (now: UtcDateTime)
        ensures
            now.within_the_second(),
    {
        utc_now()
    }
}

} // verus!
