//! Names of the Redis channels, keys and fields the service uses, and the
//! lifetimes it gives them.
use vstd::prelude::*;

verus! {

/// How long the last known position of a parcel is kept: five hours, the
/// window in which a reconnecting driver resumes its session.
pub const POSITION_TTL_SECS: u64 = 18000;

/// How long a one-time password stays valid: five minutes.
pub const OTP_TTL_SECS: u64 = 300;

/// How long a pending (not yet confirmed) registration is kept: fifteen minutes.
pub const PENDING_TTL_SECS: u64 = 900;

/// Prefix shared by the per-parcel channel and the per-parcel position key.
pub open spec fn parcel_prefix() -> Seq<char> {
    seq!['p', 'a', 'r', 'c', 'e', 'l', ':']
}

/// The pub/sub channel on which the positions of one parcel are broadcast.
pub open spec fn channel_name(parcel_id: Seq<char>) -> Seq<char> {
    parcel_prefix() + parcel_id
}

/// The hash that holds the last known position of one parcel.
pub open spec fn position_key_name(parcel_id: Seq<char>) -> Seq<char> {
    parcel_prefix() + parcel_id
}

/// The geo set of drivers that are on the road.
pub open spec fn geo_key_name() -> Seq<char> {
    seq!['a', 'c', 't', 'i', 'v', 'e', '_', 'd', 'r', 'i', 'v', 'e', 'r', 's']
}

/// The stream that collects the position history of all parcels.
pub open spec fn history_key_name() -> Seq<char> {
    parcel_prefix() + seq!['h', 'i', 's', 't', 'o', 'r', 'y']
}

/// Channel name convention: one channel per parcel, `parcel:{parcel_id}`.
pub fn channel(parcel_id: &str) -> (r: String)
    ensures
        r@ == channel_name(parcel_id@),
{
    let mut r = String::from_str("parcel:");
    proof {
        reveal_strlit("parcel:");
    }
    r.append(parcel_id);
    r
}

/// Redis key of the hash that holds the last known position, `parcel:{parcel_id}`.
pub fn position_key(parcel_id: &str) -> (r: String)
    ensures
        r@ == position_key_name(parcel_id@),
{
    let mut r = String::from_str("parcel:");
    proof {
        reveal_strlit("parcel:");
    }
    r.append(parcel_id);
    r
}

/// Redis key of the geo set of active drivers.
pub fn geo_key() -> (r: String)
    ensures
        r@ == geo_key_name(),
{
    proof {
        reveal_strlit("active_drivers");
    }
    String::from_str("active_drivers")
}

/// Redis key of the position history stream.
pub fn history_key() -> (r: String)
    ensures
        r@ == history_key_name(),
{
    proof {
        reveal_strlit("parcel:history");
    }
    String::from_str("parcel:history")
}


/// Key of the one-time password sent to an e-mail address, `otp for {email}`.
pub open spec fn otp_key_name(email: Seq<char>) -> Seq<char> {
    seq!['o', 't', 'p', ' ', 'f', 'o', 'r', ' '] + email
}

/// Key of the registration waiting for its one-time password, `pending for {email}`.
pub open spec fn pending_key_name(email: Seq<char>) -> Seq<char> {
    seq!['p', 'e', 'n', 'd', 'i', 'n', 'g', ' ', 'f', 'o', 'r', ' '] + email
}

/// Field of the position hash that holds the last payload.
pub open spec fn position_field_name() -> Seq<char> {
    seq!['d', 'a', 't', 'a']
}

/// Field of a history stream entry that holds the recorded payload.
pub open spec fn payload_field_name() -> Seq<char> {
    seq!['p', 'a', 'y', 'l', 'o', 'a', 'd']
}

/// Redis key of the one-time password sent to `email`.
pub fn otp_key(email: &str) -> (r: String)
    ensures
        r@ == otp_key_name(email@),
{
    let mut r = String::from_str("otp for ");
    proof {
        reveal_strlit("otp for ");
    }
    r.append(email);
    r
}

/// Redis key of the pending registration of `email`.
pub fn pending_key(email: &str) -> (r: String)
    ensures
        r@ == pending_key_name(email@),
{
    let mut r = String::from_str("pending for ");
    proof {
        reveal_strlit("pending for ");
    }
    r.append(email);
    r
}

/// Name of the field of the position hash.
pub fn position_field() -> (r: String)
    ensures
        r@ == position_field_name(),
{
    proof {
        reveal_strlit("data");
    }
    String::from_str("data")
}

/// Name of the payload field of a history stream entry.
pub fn payload_field() -> (r: String)
    ensures
        r@ == payload_field_name(),
{
    proof {
        reveal_strlit("payload");
    }
    String::from_str("payload")
}

/// A parcel's broadcast channel and its position hash carry the same name
/// (pub/sub channels and keys live in separate Redis namespaces).
pub proof fn lemma_channel_is_position_key(parcel_id: Seq<char>)
    ensures
        channel_name(parcel_id) == position_key_name(parcel_id),
{
}

/// Different parcels never share a position key (nor a channel).
pub proof fn lemma_position_keys_distinct(p: Seq<char>, q: Seq<char>)
    requires
        p != q,
    ensures
        position_key_name(p) != position_key_name(q),
        channel_name(p) != channel_name(q),
{
    if position_key_name(p) == position_key_name(q) {
        assert(p =~= position_key_name(p).subrange(7, position_key_name(p).len() as int));
        assert(q =~= position_key_name(q).subrange(7, position_key_name(q).len() as int));
    }
}

/// The history stream shares its name with the position key of exactly one
/// parcel id, `history`; no position key is the geo set of drivers.
pub proof fn lemma_history_and_geo_keys(parcel_id: Seq<char>)
    ensures
        position_key_name(parcel_id) == history_key_name() <==> parcel_id == seq![
            'h',
            'i',
            's',
            't',
            'o',
            'r',
            'y',
        ],
        position_key_name(parcel_id) != geo_key_name(),
{
    let h = seq!['h', 'i', 's', 't', 'o', 'r', 'y'];
    if position_key_name(parcel_id) == history_key_name() {
        assert(parcel_id =~= position_key_name(parcel_id).subrange(7, position_key_name(parcel_id).len() as int));
        assert(h =~= history_key_name().subrange(7, 14));
    }
    if parcel_id == h {
        assert(position_key_name(parcel_id) =~= history_key_name());
    }
    assert(position_key_name(parcel_id)[0] == 'p');
    assert(geo_key_name()[0] == 'a');
}

/// The password key and the pending-registration key of any two addresses
/// differ, and each of them determines its address.
pub proof fn lemma_otp_keys_distinct(e: Seq<char>, f: Seq<char>)
    ensures
        otp_key_name(e) != pending_key_name(f),
        otp_key_name(e) == otp_key_name(f) ==> e == f,
        pending_key_name(e) == pending_key_name(f) ==> e == f,
{
    assert(otp_key_name(e)[0] == 'o');
    assert(pending_key_name(f)[0] == 'p');
    if otp_key_name(e) == otp_key_name(f) {
        assert(e =~= otp_key_name(e).subrange(8, otp_key_name(e).len() as int));
        assert(f =~= otp_key_name(f).subrange(8, otp_key_name(f).len() as int));
    }
    if pending_key_name(e) == pending_key_name(f) {
        assert(e =~= pending_key_name(e).subrange(12, pending_key_name(e).len() as int));
        assert(f =~= pending_key_name(f).subrange(12, pending_key_name(f).len() as int));
    }
}

} // verus!
