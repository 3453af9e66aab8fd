use parcel_tracker::driver::{
    next_driver_action, DriverAction, DriverEvent, DriverReply, DRIVER_IDLE_TIMEOUT_SECS, HISTORY_TICK_SECS,
};
use parcel_tracker::location::{ConnectParams, DriverStatus};
use parcel_tracker::subscriber::{next_subscriber_action, SubscriberAction, SubscriberEvent, PARCEL_CHANNEL_CAPACITY};
use parcel_tracker::channels::ParcelChannels;

#[test]
fn driver_publishes_well_formed_updates() {
    assert_eq!(next_driver_action(DriverEvent::LocationText { well_formed: true }), DriverAction::PublishLocation);
    assert_eq!(
        next_driver_action(DriverEvent::PublishFinished { ok: true }),
        DriverAction::Reply { reply: DriverReply::Success, stay_open: true }
    );
    assert_eq!(next_driver_action(DriverEvent::PublishFinished { ok: false }), DriverAction::Disconnect);
}

#[test]
fn driver_closes_on_bad_input() {
    let close = DriverAction::Reply { reply: DriverReply::Close, stay_open: false };
    assert_eq!(next_driver_action(DriverEvent::LocationText { well_formed: false }), close);
    assert_eq!(next_driver_action(DriverEvent::ReceiveFailed), close);
    assert_eq!(next_driver_action(DriverEvent::SocketClosed), close);
    assert_eq!(
        next_driver_action(DriverEvent::OtherFrame),
        DriverAction::Reply { reply: DriverReply::Malformed, stay_open: false }
    );
}

#[test]
fn driver_history_ticks_keep_the_session() {
    assert_eq!(HISTORY_TICK_SECS, 20);
    assert_eq!(next_driver_action(DriverEvent::Tick), DriverAction::RecordHistory);
    assert_eq!(
        next_driver_action(DriverEvent::HistoryFinished { ok: true }),
        DriverAction::Reply { reply: DriverReply::Stream, stay_open: true }
    );
    assert_eq!(
        next_driver_action(DriverEvent::HistoryFinished { ok: false }),
        DriverAction::Reply { reply: DriverReply::Close, stay_open: true }
    );
}

#[test]
fn driver_reply_texts() {
    assert_eq!(DriverReply::Success.text(), "Success");
    assert_eq!(DriverReply::Close.text(), "Close");
    assert_eq!(DriverReply::Malformed.text(), "Location not properly formatted");
    assert_eq!(DriverReply::Stream.text(), "Stream");
}

#[test]
fn status_names() {
    let all = [
        (DriverStatus::PickedUp, "picked_up"),
        (DriverStatus::InTransit, "in_transit"),
        (DriverStatus::DroppedOff, "dropped_off"),
        (DriverStatus::NotAvailable, "not_available"),
        (DriverStatus::Nearby, "nearby"),
    ];
    for (s, name) in all {
        assert_eq!(s.as_str(), name);
        assert_eq!(DriverStatus::from_name(name), Some(s));
    }
    assert_eq!(DriverStatus::from_name("PickedUp"), None);
    assert_eq!(DriverStatus::from_name(""), None);
}

#[test]
fn only_drivers_get_a_session() {
    let p = |role: &str| ConnectParams { parcel_id: "p1".to_string(), role: role.to_string() };
    assert!(p("driver").is_driver());
    assert!(!p("customer").is_driver());
    assert!(!p("Driver").is_driver());
    assert!(!p("").is_driver());
}

#[test]
fn subscriber_decisions() {
    assert_eq!(PARCEL_CHANNEL_CAPACITY, 32);
    assert_eq!(next_subscriber_action(SubscriberEvent::UndecodableMessage), SubscriberAction::Skip);
    assert_eq!(next_subscriber_action(SubscriberEvent::Message { listeners: 0 }), SubscriberAction::Retire);
    assert_eq!(next_subscriber_action(SubscriberEvent::Message { listeners: 3 }), SubscriberAction::Forward);
    assert_eq!(next_subscriber_action(SubscriberEvent::StreamEnded), SubscriberAction::Stop);
    assert_eq!(next_subscriber_action(SubscriberEvent::ConnectFailed), SubscriberAction::Stop);
    assert_eq!(next_subscriber_action(SubscriberEvent::SubscribeFailed), SubscriberAction::Stop);
}

#[test]
fn delivery_reaches_listeners_and_retires_idle_parcels() {
    let mut channels = ParcelChannels::new();
    assert_eq!(channels.deliver("p1", "hello".to_string()), (SubscriberAction::Retire, 0));
    let mut rx = channels.channel_for("p2").subscribe();
    assert_eq!(channels.deliver("p2", "pos".to_string()), (SubscriberAction::Forward, 1));
    assert_eq!(rx.try_recv().unwrap(), "pos");
    // the same channel is handed out again for the same parcel
    let mut rx2 = channels.channel_for("p2").subscribe();
    assert_eq!(channels.deliver("p2", "next".to_string()), (SubscriberAction::Forward, 2));
    assert_eq!(rx.try_recv().unwrap(), "next");
    assert_eq!(rx2.try_recv().unwrap(), "next");
}

#[test]
fn silent_driver_is_dropped() {
    assert_eq!(DRIVER_IDLE_TIMEOUT_SECS, 60);
    assert_eq!(
        next_driver_action(DriverEvent::IdleTimeout),
        DriverAction::Reply { reply: DriverReply::Close, stay_open: false }
    );
}

#[test]
fn heartbeats_keep_the_session() {
    assert_eq!(next_driver_action(DriverEvent::Heartbeat), DriverAction::Listen);
}

#[test]
fn retiring_one_parcel_keeps_the_others() {
    let mut channels = ParcelChannels::new();
    let mut rx = channels.channel_for("kept").subscribe();
    assert_eq!(channels.deliver("idle", "x".to_string()), (SubscriberAction::Retire, 0));
    assert_eq!(channels.deliver("kept", "y".to_string()), (SubscriberAction::Forward, 1));
    assert_eq!(rx.try_recv().unwrap(), "y");
    channels.forget("kept");
    // a forgotten parcel gets a fresh channel without the old receiver
    assert_eq!(channels.deliver("kept", "z".to_string()), (SubscriberAction::Retire, 0));
}

#[test]
fn one_channel_per_parcel() {
    let mut channels = ParcelChannels::new();
    let a = channels.channel_for("p");
    let b = channels.channel_for("p");
    assert!(a.same_channel(&b));
    let c = channels.channel_for("q");
    assert!(!a.same_channel(&c));
    // retiring q leaves p's channel in place
    assert_eq!(channels.deliver("q", "x".to_string()), (SubscriberAction::Retire, 0));
    assert!(channels.channel_for("p").same_channel(&a));
}
