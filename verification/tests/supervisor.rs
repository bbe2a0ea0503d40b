use rumqttc::{ConnAck, ConnectReturnCode, ConnectionError, Event, Outgoing, Packet};
use vr_status::publisher::PublisherEvent;
use vr_status::supervisor::{
    ConnectNotice, LinkEvent, Notice, Supervisor, SupervisorAction, MIN_DELAY_NANOS,
};

#[test]
fn minimum_delay_is_one_second() {
    assert_eq!(MIN_DELAY_NANOS, 1_000_000_000);
}

#[test]
fn accepted_connection_notifies_publisher() {
    let mut supervisor = Supervisor::new();
    assert_eq!(supervisor.react(LinkEvent::ConnectAccepted, 5), SupervisorAction::Notify);
    assert!(!supervisor.stopping);
}

#[test]
fn other_traffic_is_passed_over() {
    let mut supervisor = Supervisor::new();
    assert_eq!(supervisor.react(LinkEvent::Other, 5), SupervisorAction::Continue);
    assert!(!supervisor.stopping);
}

#[test]
fn immediate_failure_waits_a_full_second() {
    let mut supervisor = Supervisor::new();
    assert_eq!(
        supervisor.react(LinkEvent::Failed, 0),
        SupervisorAction::Retry { delay_nanos: 1_000_000_000 }
    );
}

#[test]
fn failure_waits_for_the_rest_of_the_second() {
    let mut supervisor = Supervisor::new();
    assert_eq!(
        supervisor.react(LinkEvent::Failed, 250_000_000),
        SupervisorAction::Retry { delay_nanos: 750_000_000 }
    );
    assert_eq!(
        supervisor.react(LinkEvent::Failed, 999_999_999),
        SupervisorAction::Retry { delay_nanos: 1 }
    );
}

#[test]
fn late_failure_retries_at_once() {
    let mut supervisor = Supervisor::new();
    assert_eq!(
        supervisor.react(LinkEvent::Failed, 1_000_000_000),
        SupervisorAction::Retry { delay_nanos: 0 }
    );
    assert_eq!(
        supervisor.react(LinkEvent::Failed, u128::MAX),
        SupervisorAction::Retry { delay_nanos: 0 }
    );
}

#[test]
fn repeated_failures_keep_retrying() {
    let mut supervisor = Supervisor::new();
    for _ in 0..10 {
        let action = supervisor.react(LinkEvent::Failed, 1_000);
        assert_eq!(action, SupervisorAction::Retry { delay_nanos: 999_999_000 });
    }
    assert!(!supervisor.stopping);
}

#[test]
fn failure_after_disconnect_stops() {
    let mut supervisor = Supervisor::new();
    assert_eq!(supervisor.react(LinkEvent::DisconnectSent, 0), SupervisorAction::Continue);
    assert!(supervisor.stopping);
    assert_eq!(supervisor.react(LinkEvent::Other, 0), SupervisorAction::Continue);
    assert_eq!(supervisor.react(LinkEvent::ConnectAccepted, 0), SupervisorAction::Notify);
    assert!(supervisor.stopping);
    assert_eq!(supervisor.react(LinkEvent::Failed, 0), SupervisorAction::Stop);
}

#[test]
fn poll_result_connack_success_notifies() {
    let mut supervisor = Supervisor::new();
    let polled =
        Ok(Event::Incoming(Packet::ConnAck(ConnAck::new(ConnectReturnCode::Success, false))));
    assert_eq!(supervisor.on_poll(&polled, 0), SupervisorAction::Notify);
}

#[test]
fn poll_result_refused_connack_is_other_traffic() {
    let mut supervisor = Supervisor::new();
    let polled =
        Ok(Event::Incoming(Packet::ConnAck(ConnAck::new(ConnectReturnCode::NotAuthorized, false))));
    assert_eq!(supervisor.on_poll(&polled, 0), SupervisorAction::Continue);
    assert!(!supervisor.stopping);
}

#[test]
fn poll_result_outgoing_disconnect_marks_stopping() {
    let mut supervisor = Supervisor::new();
    let polled = Ok(Event::Outgoing(Outgoing::Disconnect));
    assert_eq!(supervisor.on_poll(&polled, 0), SupervisorAction::Continue);
    assert!(supervisor.stopping);
    let failed = Err(ConnectionError::NetworkTimeout);
    assert_eq!(supervisor.on_poll(&failed, 0), SupervisorAction::Stop);
}

#[test]
fn poll_result_other_events_continue() {
    let mut supervisor = Supervisor::new();
    let ping = Ok(Event::Outgoing(Outgoing::PingReq));
    assert_eq!(supervisor.on_poll(&ping, 0), SupervisorAction::Continue);
    let pong = Ok(Event::Incoming(Packet::PingResp));
    assert_eq!(supervisor.on_poll(&pong, 0), SupervisorAction::Continue);
    let incoming_disconnect = Ok(Event::Incoming(Packet::Disconnect));
    assert_eq!(supervisor.on_poll(&incoming_disconnect, 0), SupervisorAction::Continue);
    assert!(!supervisor.stopping);
}

#[test]
fn poll_result_error_backs_off() {
    let mut supervisor = Supervisor::new();
    let failed = Err(ConnectionError::NetworkTimeout);
    assert_eq!(
        supervisor.on_poll(&failed, 400_000_000),
        SupervisorAction::Retry { delay_nanos: 600_000_000 }
    );
    let refused = Err(ConnectionError::ConnectionRefused(ConnectReturnCode::BadUserNamePassword));
    assert_eq!(
        supervisor.on_poll(&refused, 2_000_000_000),
        SupervisorAction::Retry { delay_nanos: 0 }
    );
}

#[test]
fn connect_notice_keeps_presence_not_count() {
    let mut notice = ConnectNotice::new();
    assert_eq!(notice.take(), Notice::Nothing);
    assert!(notice.raise());
    assert!(!notice.raise());
    assert!(!notice.raise());
    assert_eq!(notice.take(), Notice::Connected);
    assert_eq!(notice.take(), Notice::Nothing);
    assert!(notice.raise());
    assert_eq!(notice.take(), Notice::Connected);
}

#[test]
fn connect_notice_reports_pending_connection_before_close() {
    let mut notice = ConnectNotice::new();
    assert!(notice.raise());
    notice.close();
    assert_eq!(notice.take(), Notice::Connected);
    assert_eq!(notice.take(), Notice::Closed);
    assert_eq!(notice.take(), Notice::Closed);
}

#[test]
fn notices_become_publisher_events() {
    assert_eq!(PublisherEvent::from_notice(Notice::Connected), Some(PublisherEvent::Connected));
    assert_eq!(PublisherEvent::from_notice(Notice::Nothing), None);
    assert_eq!(PublisherEvent::from_notice(Notice::Closed), Some(PublisherEvent::SupervisorGone));
}
