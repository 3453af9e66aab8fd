//! What a driver reports and how a WebSocket client says who it is.
use vstd::prelude::*;
use crate::text::same_text;

verus! {

/// The delivery state a driver reports with each position.
#[derive(Debug, Clone, Copy, PartialEq, Eq, Structural)]
pub enum DriverStatus {
    PickedUp,
    InTransit,
    DroppedOff,
    NotAvailable,
    Nearby,
}

/// The wire name of a status (snake case).
pub open spec fn status_name(s: DriverStatus) -> Seq<char> {
    match s {
        DriverStatus::PickedUp => seq!['p', 'i', 'c', 'k', 'e', 'd', '_', 'u', 'p'],
        DriverStatus::InTransit => seq!['i', 'n', '_', 't', 'r', 'a', 'n', 's', 'i', 't'],
        DriverStatus::DroppedOff => seq!['d', 'r', 'o', 'p', 'p', 'e', 'd', '_', 'o', 'f', 'f'],
        DriverStatus::NotAvailable => seq![
            'n',
            'o',
            't',
            '_',
            'a',
            'v',
            'a',
            'i',
            'l',
            'a',
            'b',
            'l',
            'e',
        ],
        DriverStatus::Nearby => seq!['n', 'e', 'a', 'r', 'b', 'y'],
    }
}

/// The status whose wire name is `name`, if any.
pub open spec fn status_named(name: Seq<char>) -> Option<DriverStatus> {
    if name == status_name(DriverStatus::PickedUp) {
        Some(DriverStatus::PickedUp)
    } else if name == status_name(DriverStatus::InTransit) {
        Some(DriverStatus::InTransit)
    } else if name == status_name(DriverStatus::DroppedOff) {
        Some(DriverStatus::DroppedOff)
    } else if name == status_name(DriverStatus::NotAvailable) {
        Some(DriverStatus::NotAvailable)
    } else if name == status_name(DriverStatus::Nearby) {
        Some(DriverStatus::Nearby)
    } else {
        None
    }
}

impl DriverStatus {
    /// The wire name of this status.
    pub fn as_str(&self) -> (r: &'static str)
        ensures
            r@ == status_name(*self),
    {
        proof {
            reveal_strlit("picked_up");
            reveal_strlit("in_transit");
            reveal_strlit("dropped_off");
            reveal_strlit("not_available");
            reveal_strlit("nearby");
        }
        let r = match self {
            DriverStatus::PickedUp => "picked_up",
            DriverStatus::InTransit => "in_transit",
            DriverStatus::DroppedOff => "dropped_off",
            DriverStatus::NotAvailable => "not_available",
            DriverStatus::Nearby => "nearby",
        };
        assert(r@ =~= status_name(*self));
        r
    }

    /// The status a wire name stands for; `None` for any other text.
    pub fn from_name(name: &str) -> (r: Option<DriverStatus>)
        ensures
            r == status_named(name@),
    {
        if same_text(name, DriverStatus::PickedUp.as_str()) {
            Some(DriverStatus::PickedUp)
        } else if same_text(name, DriverStatus::InTransit.as_str()) {
            Some(DriverStatus::InTransit)
        } else if same_text(name, DriverStatus::DroppedOff.as_str()) {
            Some(DriverStatus::DroppedOff)
        } else if same_text(name, DriverStatus::NotAvailable.as_str()) {
            Some(DriverStatus::NotAvailable)
        } else if same_text(name, DriverStatus::Nearby.as_str()) {
            Some(DriverStatus::Nearby)
        } else {
            None
        }
    }
}

/// Every status is read back from its own wire name.
pub proof fn lemma_status_name_round_trip(s: DriverStatus)
    ensures
        status_named(status_name(s)) == Some(s),
{
    let a = status_name(DriverStatus::PickedUp);
    let b = status_name(DriverStatus::InTransit);
    let c = status_name(DriverStatus::DroppedOff);
    let d = status_name(DriverStatus::NotAvailable);
    let e = status_name(DriverStatus::Nearby);
    assert(a[0] == 'p' && b[0] == 'i' && c[0] == 'd' && d[0] == 'n' && e[0] == 'n');
    assert(d.len() != e.len());
}

/// The query of a WebSocket connection: which parcel, and in which role
/// (`"driver"` or `"customer"`).
pub struct ConnectParams {
    pub parcel_id: String,
    pub role: String,
}

/// The role text that opens a driver session.
pub open spec fn driver_role_name() -> Seq<char> {
    seq!['d', 'r', 'i', 'v', 'e', 'r']
}

impl ConnectParams {
    /// Whether the connection is served as a driver session; every other
    /// role is refused (the socket is dropped without a session).
    pub fn is_driver(&self) -> (r: bool)
        ensures
            r == (self.role@ == driver_role_name()),
    {
        proof {
            reveal_strlit("driver");
        }
        let r = same_text(self.role.as_str(), "driver");
        assert("driver"@ =~= driver_role_name());
        r
    }
}

} // verus!
