use crate::models::Timestamp;
use vstd::prelude::*;

verus! {

/// The value of the nil UUID, all 128 bits zero (`uuid::Uuid::nil()`, which
/// is also `Uuid::default()`).
pub const NIL_UUID: u128 = 0;

/// A random UUID as `uuid::Uuid::new_v4` makes it: version nibble 4 and the
/// RFC 4122 variant bits `10`.
pub open spec fn is_random_uuid(u: u128) -> bool {
    &&& (u >> 76u128) & 0xfu128 == 4
    &&& (u >> 62u128) & 0x3u128 == 2
}

/// A random UUID is never the nil UUID.
pub proof fn random_uuid_is_not_nil(u: u128)
    requires
        is_random_uuid(u),
    ensures
        u != NIL_UUID,
{
    assert(u == 0 ==> (u >> 76u128) & 0xfu128 == 0) by (bit_vector);
}

/// Calls `uuid::Uuid::new_v4` and gives its 128-bit value. The source masks a
/// random number and sets the version bits to 4 and the variant bits to
/// `10`; that is all this states: which other bits come out is chance.
#[verifier::external_body]
pub(crate) fn new_uuid_v4() -> (u: u128)
    ensures
        is_random_uuid(u),
{
    uuid::Uuid::new_v4().as_u128()
}

/// A reading of the UTC clock: the instant `utc_now` saw. Its private field
/// keeps any other module from building one, so a reading held elsewhere in
/// the crate came from the clock.
pub struct ClockReading {
    time: Timestamp,
}

impl ClockReading {
    /// The instant the clock showed.
    pub closed spec fn at(self) -> Timestamp {
        self.time
    }

    /// The instant the clock showed.
    pub fn time(&self) -> (t: Timestamp)
        ensures
            t == self.at(),
    {
        self.time
    }
}

/// Calls `chrono::Utc::now` and gives the instant as seconds since the epoch
/// and the nanoseconds past that second. Which instant comes back is the
/// clock's. The source builds it from the system time's distance to the
/// epoch (panicking on a clock before 1970) and that distance's sub-second
/// nanoseconds, so the seconds are not negative and the nanoseconds stay
/// below 1,000,000,000.
#[verifier::external_body]
pub(crate) fn utc_now() -> (r: ClockReading)
    ensures
        r.at().secs >= 0,
        r.at().nanos < 1_000_000_000,
{
    let now = chrono::Utc::now();
    ClockReading { time: Timestamp { secs: now.timestamp(), nanos: now.timestamp_subsec_nanos() } }
}

} // verus!
