//! The Redis writes of the location bus and of the one-time-password flow:
//! which keys are written, with what, and for how long.
use vstd::prelude::*;
use crate::keys::{
    channel, channel_name, geo_key, geo_key_name, otp_key, otp_key_name, pending_key, pending_key_name,
    position_field, position_field_name, position_key, position_key_name, OTP_TTL_SECS,
    PENDING_TTL_SECS, POSITION_TTL_SECS,
};
use crate::otp::{decimal, otp_text};

verus! {

/// What publishing one location update writes: the payload is broadcast on
/// the parcel's channel, the driver is placed in the geo set, and the payload
/// becomes the parcel's last known position for five hours.
pub struct LocationWrite {
    pub channel: String,
    pub payload: String,
    pub geo_key: String,
    pub driver_id: String,
    pub position_key: String,
    pub position_field: String,
    pub ttl_secs: u64,
}

/// The writes of a location update of `driver_id` for `parcel_id`.
pub fn location_write(parcel_id: &str, payload: &str, driver_id: &str) -> (r: LocationWrite)
    ensures
        r.channel@ == channel_name(parcel_id@),
        r.payload@ == payload@,
        r.geo_key@ == geo_key_name(),
        r.driver_id@ == driver_id@,
        r.position_key@ == position_key_name(parcel_id@),
        r.position_field@ == position_field_name(),
        r.ttl_secs == POSITION_TTL_SECS,
{
    LocationWrite {
        channel: channel(parcel_id),
        payload: payload.to_owned(),
        geo_key: geo_key(),
        driver_id: driver_id.to_owned(),
        position_key: position_key(parcel_id),
        position_field: position_field(),
        ttl_secs: POSITION_TTL_SECS,
    }
}

/// Where the last known position of a parcel is read from.
pub struct PositionRead {
    pub key: String,
    pub field: String,
}

/// The hash key and field holding the last known position of `parcel_id`.
pub fn position_read(parcel_id: &str) -> (r: PositionRead)
    ensures
        r.key@ == position_key_name(parcel_id@),
        r.field@ == position_field_name(),
{
    PositionRead { key: position_key(parcel_id), field: position_field() }
}

/// What sending a one-time password writes: the code, in decimal, for five
/// minutes, and the pending registration (its JSON text is added by the
/// caller) for fifteen minutes.
pub struct OtpWrite {
    pub otp_key: String,
    pub otp_text: String,
    pub otp_ttl_secs: u64,
    pub pending_key: String,
    pub pending_ttl_secs: u64,
}

/// The writes that store code `otp` for `email`.
pub fn otp_write(otp: u32, email: &str) -> (r: OtpWrite)
    ensures
        r.otp_key@ == otp_key_name(email@),
        r.otp_text@ == decimal(otp as nat),
        r.otp_ttl_secs == OTP_TTL_SECS,
        r.pending_key@ == pending_key_name(email@),
        r.pending_ttl_secs == PENDING_TTL_SECS,
{
    OtpWrite {
        otp_key: otp_key(email),
        otp_text: otp_text(otp),
        otp_ttl_secs: OTP_TTL_SECS,
        pending_key: pending_key(email),
        pending_ttl_secs: PENDING_TTL_SECS,
    }
}

/// The keys read, and deleted once the code is confirmed, when `email`
/// sends a code back.
pub struct OtpKeys {
    pub otp_key: String,
    pub pending_key: String,
}

/// The code key and the pending-registration key of `email`.
pub fn otp_keys(email: &str) -> (r: OtpKeys)
    ensures
        r.otp_key@ == otp_key_name(email@),
        r.pending_key@ == pending_key_name(email@),
{
    OtpKeys { otp_key: otp_key(email), pending_key: pending_key(email) }
}

} // verus!
