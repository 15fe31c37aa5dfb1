use zombiesplit::model::session::action::{Action, OldDestination, Pop};
use zombiesplit::model::session::{event, Event};
use zombiesplit::model::timing::time::Time;
use zombiesplit::net::client::{self, Request};
use zombiesplit::net::proto::{self, decode};
use zombiesplit::net::server::{self, Incoming, Step};

#[test]
fn client_requests_round_trip_through_server() {
    for dest in [OldDestination::Save, OldDestination::Discard] {
        let a = Action::NewRun(dest);
        match client::request(a).expect("encodes") {
            Request::NewAttempt(r) => {
                assert_eq!(r.save, dest == OldDestination::Save);
                assert_eq!(server::new_attempt(&r), a);
            }
            other => panic!("unexpected request {other:?}"),
        }
    }
    let push = Action::Push(4, Time::from_millis(-12));
    match client::request(push).expect("encodes") {
        Request::Push(r) => assert_eq!(decode::action::push(&r), Ok(push)),
        other => panic!("unexpected request {other:?}"),
    }
    let pop = Action::Pop(1, Pop::All);
    assert_eq!(
        client::request(pop),
        Ok(Request::Pop(proto::PopRequest {
            index: 1,
            pop_type: 1
        }))
    );
}

#[test]
fn client_handles_stream() {
    let closed = client::handle_event(None).expect("no error");
    assert!(!closed.open);
    assert!(closed.event.is_none());
    let empty = client::handle_event(Some(proto::Event { payload: None })).expect("no error");
    assert!(empty.open);
    assert!(empty.event.is_none());
    let pace = proto::Event {
        payload: Some(proto::EventPayload::Split(proto::EventSplit {
            sid: "s".to_string(),
            payload: Some(proto::SplitPayload::Pop(0)),
        })),
    };
    let got = client::handle_event(Some(pace)).expect("no error");
    assert!(got.open);
    match got.event {
        Some(Event::Split(n, s)) => {
            assert_eq!(n.0, "s");
            assert_eq!(s, event::Split::Popped(Pop::One));
        }
        other => panic!("unexpected event {other:?}"),
    }
    let bad = proto::Event {
        payload: Some(proto::EventPayload::Split(proto::EventSplit {
            sid: "s".to_string(),
            payload: Some(proto::SplitPayload::Pop(3)),
        })),
    };
    assert!(matches!(
        client::handle_event(Some(bad)),
        Err(decode::Error::Unknown(decode::Unknown::Pop))
    ));
}

#[test]
fn server_info_is_fixed() {
    let s = server::info();
    assert_eq!(s.ident, "zsserver");
    assert_eq!((s.version.major, s.version.minor, s.version.patch), (0, 1, 0));
}

#[test]
fn server_connection_steps() {
    assert!(matches!(
        server::on_incoming(Incoming::Event(7)),
        Step::Forward(7)
    ));
    assert!(matches!(
        server::on_incoming(Incoming::<u8>::Closed),
        Step::Stop
    ));
    assert!(matches!(
        server::on_incoming(Incoming::<u8>::Lagged(3)),
        Step::Continue
    ));
}

#[test]
fn server_client_messages() {
    assert!(matches!(
        server::on_client_message(Some(Action::Pop(0, Pop::One))),
        Step::Forward(Action::Pop(0, Pop::One))
    ));
    assert!(matches!(
        server::on_client_message::<Action>(None),
        Step::Stop
    ));
}
