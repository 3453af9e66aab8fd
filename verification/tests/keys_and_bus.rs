use parcel_tracker::bus::{location_write, otp_keys, otp_write, position_read};
use parcel_tracker::keys::{
    channel, geo_key, history_key, otp_key, payload_field, pending_key, position_field,
    position_key, OTP_TTL_SECS, PENDING_TTL_SECS, POSITION_TTL_SECS,
};

#[test]
fn channel_names_the_parcel() {
    assert_eq!(channel("abc-123"), "parcel:abc-123");
    assert_eq!(channel(""), "parcel:");
}

#[test]
fn position_key_names_the_parcel() {
    assert_eq!(position_key("abc-123"), "parcel:abc-123");
    assert_eq!(position_key("p1"), channel("p1"));
}

#[test]
fn fixed_keys() {
    assert_eq!(geo_key(), "active_drivers");
    assert_eq!(history_key(), "parcel:history");
    assert_eq!(position_key("history"), history_key());
    assert_ne!(position_key("histories"), history_key());
    assert_eq!(position_field(), "data");
    assert_eq!(payload_field(), "payload");
}

#[test]
fn otp_keys_name_the_address() {
    assert_eq!(otp_key("a@b.c"), "otp for a@b.c");
    assert_eq!(pending_key("a@b.c"), "pending for a@b.c");
    assert_ne!(otp_key("x"), pending_key("x"));
}

#[test]
fn lifetimes() {
    assert_eq!(POSITION_TTL_SECS, 5 * 3600);
    assert_eq!(OTP_TTL_SECS, 300);
    assert_eq!(PENDING_TTL_SECS, 900);
}

#[test]
fn location_write_layout() {
    let w = location_write("p7", "{\"x\":1}", "driver-9");
    assert_eq!(w.channel, "parcel:p7");
    assert_eq!(w.payload, "{\"x\":1}");
    assert_eq!(w.geo_key, "active_drivers");
    assert_eq!(w.driver_id, "driver-9");
    assert_eq!(w.position_key, "parcel:p7");
    assert_eq!(w.position_field, "data");
    assert_eq!(w.ttl_secs, 18000);
}

#[test]
fn position_read_layout() {
    let r = position_read("p7");
    assert_eq!(r.key, "parcel:p7");
    assert_eq!(r.field, "data");
}

#[test]
fn otp_write_layout() {
    let w = otp_write(482913, "user@example.com");
    assert_eq!(w.otp_key, "otp for user@example.com");
    assert_eq!(w.otp_text, "482913");
    assert_eq!(w.otp_ttl_secs, 300);
    assert_eq!(w.pending_key, "pending for user@example.com");
    assert_eq!(w.pending_ttl_secs, 900);
    let k = otp_keys("user@example.com");
    assert_eq!(k.otp_key, w.otp_key);
    assert_eq!(k.pending_key, w.pending_key);
}

#[test]
fn position_read_finds_location_write() {
    let w = location_write("parcel-42", "{}", "d");
    let r = position_read("parcel-42");
    assert_eq!(r.key, w.position_key);
    assert_eq!(r.field, w.position_field);
}
