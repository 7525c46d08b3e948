use demokit::proc_macros::{should_print_expr, should_print_pat, PathSegment, TracedExpr};
use demokit::exit::Exit;
use demokit::stopwatch::{Stopwatch, StopwatchMessage, Span};
use demokit::tooltip::TooltipExample;
use demokit::actor::{MyActor, MyActorMessage};
use demokit::clock::{hour_hand_seconds, minute_hand_seconds, second_hand_seconds};
use demokit::errors::{invalid_header_text, DataStoreError, MyError1};
use demokit::events_log::{Events, EventsCommand, EventsMessage};
use demokit::proc_macros::{check_lazy_static, is_assign_op, BinOp, TeaAttributes, TeaError, TeaMeta};
use demokit::quic_server::{conn_id_from_tag, connection_id, decide_packet, PacketDecision, mint_token, request_target, validate_token, PartialResponse, SendResult, MAX_CONN_ID_LEN};
use demokit::reactive_counter::ReactiveCounter;
use demokit::shared_state::DarkMode;
use demokit::{rainbow, Rainbow};

#[test]
fn actor_hands_out_increasing_ids() {
    let mut actor = MyActor::new();
    let ids: Vec<usize> = (0..10).map(|_| actor.handle_message(MyActorMessage::GetUniqueId)).collect();
    assert_eq!(ids, (1..=10).collect::<Vec<usize>>());
}

#[test]
fn clock_hands() {
    assert_eq!(second_hand_seconds(59), 59);
    assert_eq!(minute_hand_seconds(30, 15), 1815);
    assert_eq!(hour_hand_seconds(15, 30, 0), 55800);
    assert_eq!(hour_hand_seconds(0, 0, 0), 0);
}

#[test]
fn rainbow_mesh_is_a_fan() {
    let r: Rainbow = rainbow();
    assert_eq!(r.vertex_count(), 9);
    assert_eq!(
        r.mesh_indices(),
        vec![0, 1, 2, 0, 2, 3, 0, 3, 4, 0, 4, 5, 0, 5, 6, 0, 6, 7, 0, 7, 8, 0, 8, 1]
    );
}

#[test]
fn event_log_keeps_last_twenty() {
    let mut e: Events<u32> = Events::new();
    assert_eq!(e.title(), "Events - Iced");
    let cmd = e.update::<u8>(EventsMessage::EventOccurred { event: 1, close_request: None });
    assert_eq!(cmd, EventsCommand::Nothing);
    assert!(e.last.is_empty(), "events are ignored while not listening");
    assert_eq!(
        e.update::<u8>(EventsMessage::EventOccurred { event: 1, close_request: Some(3) }),
        EventsCommand::Close(3)
    );
    e.update::<u8>(EventsMessage::Toogled(true));
    for i in 0..25u32 {
        e.update::<u8>(EventsMessage::EventOccurred { event: i, close_request: None });
    }
    assert_eq!(e.last, (5..25).collect::<Vec<u32>>());
    assert_eq!(e.update::<u8>(EventsMessage::Exit), EventsCommand::CloseMain);
}

#[test]
fn error_messages() {
    assert_eq!(DataStoreError::Redaction(String::from("k1")).to_string(), "the data for key `k1` is not available");
    assert_eq!(
        DataStoreError::InvalidHeader { expected: String::from("a\"b"), found: String::from("c") }.to_string(),
        "invalid header (expected \"a\\\"b\", found \"c\")"
    );
    assert_eq!(DataStoreError::Unknown.to_string(), "unknown data store error");
    let e: DataStoreError = std::io::Error::from(std::io::ErrorKind::AddrInUse).into();
    assert!(matches!(e, DataStoreError::Disconnect(_)));
    assert_eq!(e.to_string(), "data store disconnected");
    assert_eq!(invalid_header_text("x", "y"), "invalid header (expected x, found y)");
    let e1 = MyError1::from_io(std::io::Error::from(std::io::ErrorKind::AddrInUse));
    assert_eq!(e1.to_string(), "Hello world");
    match e1 {
        MyError1::Io { source, .. } => assert_eq!(source.kind(), std::io::ErrorKind::AddrInUse),
    }
}

#[test]
fn tokens_round_trip() {
    let addr = [127u8, 0, 0, 1];
    let dcid = [9u8, 8, 7, 6, 5];
    let token = mint_token(&dcid, &addr);
    assert_eq!(&token[..6], b"quiche");
    assert_eq!(token.len(), 6 + 4 + 5);
    assert_eq!(validate_token(&addr, &token), Some(dcid.to_vec()));
    assert_eq!(validate_token(&[127, 0, 0, 2], &token), None);
    assert_eq!(validate_token(&addr, b"quich"), None);
    assert_eq!(validate_token(&addr, b"quichx127"), None);
    assert_eq!(validate_token(&addr, b"quiche\x7f\x00\x00"), None);
    assert_eq!(validate_token(&addr, b"quiche\x7f\x00\x00\x01"), Some(vec![]));
}

#[test]
fn partial_responses() {
    let mut r = PartialResponse { body: b"hello world".to_vec(), written: 0 };
    assert_eq!(r.unsent(), b"hello world");
    assert!(!r.record_send(SendResult::Sent(5)));
    assert_eq!(r.unsent(), b" world");
    assert!(!r.record_send(SendResult::Done));
    assert!(r.record_send(SendResult::Sent(6)));
    assert_eq!(r.written, 11);
    let mut r = PartialResponse { body: b"abc".to_vec(), written: 1 };
    assert!(r.record_send(SendResult::Failed));
    assert_eq!(r.written, 1);
}

#[test]
fn requests_are_never_taken() {
    assert_eq!(request_target(b"GET /index.html"), None);
    assert_eq!(request_target(b"GET"), None);
}

#[test]
fn dark_mode_switch() {
    let mut d = DarkMode::new();
    assert!(d.label_style().contains("border: 1px solid black;"));
    d.set_from_input("true");
    assert!(d.0);
    assert!(d.label_style().contains("background-color: black;"));
    d.set_from_input("True");
    assert!(!d.0);
    d.set_from_input("true ");
    assert!(!d.0);
}

#[test]
fn reactive_counter_page() {
    let mut c = ReactiveCounter::new();
    assert!(!c.is_red());
    c.click();
    assert!(c.is_red());
    assert_eq!(c.double_count(), 1);
    assert_eq!(c.left_style(), "101px");
    assert_eq!(c.background_style(), "rgb(1, 100, 100)");
    let c = ReactiveCounter { count: -3 };
    assert!(!c.is_red());
    assert_eq!(c.left_style(), "97px");
    assert_eq!(c.background_style(), "rgb(-3, 100, 100)");
    let c = ReactiveCounter { count: i32::MIN };
    assert_eq!(c.background_style(), format!("rgb({}, 100, 100)", i32::MIN));
}

#[test]
fn macro_decisions() {
    assert!(is_assign_op(BinOp::ShlAssign));
    assert!(!is_assign_op(BinOp::Shl));
    assert!(!is_assign_op(BinOp::Eq));
    let mut t = TeaAttributes::new();
    assert_eq!(t.parse(TeaMeta { path: String::from("hot"), value: Err(String::new()), nested: vec![] }), Ok(()));
    assert!(t.hot);
    assert_eq!(t.parse(TeaMeta { path: String::from("kind"), value: Ok(String::from("Green")), nested: vec![] }), Ok(()));
    assert_eq!(t.kind.as_deref(), Some("Green"));
    let err = t.parse(TeaMeta { path: String::from("kind"), value: Err(String::from("expected `=`")), nested: vec![] });
    assert_eq!(err, Err(TeaError::KindValue(String::from("expected `=`"))));
    assert_eq!(t.kind.as_deref(), Some("Green"));
    t.parse(TeaMeta { path: String::from("with"), value: Err(String::new()), nested: vec![String::from("Sugar"), String::from("Milk")] }).unwrap();
    assert_eq!(t.with, vec![String::from("Sugar"), String::from("Milk")]);
    let err = t.parse(TeaMeta { path: String::from("cold"), value: Err(String::new()), nested: vec![] }).unwrap_err();
    assert_eq!(err, TeaError::Unsupported);
    assert_eq!(err.message(), "unsupportted tea property");
    let c = check_lazy_static("FOO", false);
    assert!(c.warn_name && !c.reject_unit);
    assert_eq!(c.name_warning(), "come on, pick a more creative name");
    let c = check_lazy_static("BAR", true);
    assert!(!c.warn_name && c.reject_unit);
}

#[test]
fn tracer_decisions() {
    let vars = vec![String::from("a"), String::from("total")];
    let path = |colon: bool, names: &[&str], args: bool| TracedExpr::Path {
        leading_colon: colon,
        segments: names
            .iter()
            .map(|n| PathSegment { ident: n.to_string(), has_arguments: args })
            .collect(),
    };
    assert!(should_print_expr(&vars, &path(false, &["total"], false)));
    assert!(!should_print_expr(&vars, &path(true, &["total"], false)));
    assert!(!should_print_expr(&vars, &path(false, &["std", "total"], false)));
    assert!(!should_print_expr(&vars, &path(false, &["total"], true)));
    assert!(!should_print_expr(&vars, &path(false, &["b"], false)));
    assert!(!should_print_expr(&vars, &TracedExpr::Other));
    assert!(should_print_pat(&vars, Some("a")));
    assert!(!should_print_pat(&vars, Some("b")));
    assert!(!should_print_pat(&vars, None));
}

#[test]
fn window_titles_and_labels() {
    assert_eq!(Exit::new().title(), "Exit = Iced");
    assert_eq!(TooltipExample::new().title(), "Tooltip - Iced");
    let mut w = Stopwatch::new();
    assert_eq!(w.toggle_label(), "Start");
    w.update(StopwatchMessage::Toggle { now: Span { secs: 1, nanos: 0 } });
    assert_eq!(w.toggle_label(), "Stop");
}

#[test]
fn packet_decisions() {

    let addr = [10u8, 0, 0, 7];
    let dcid = [1u8; 20];
    assert!(matches!(decide_packet(true, false, false, &dcid, &[], &addr, 20), PacketDecision::Known));
    assert!(matches!(decide_packet(false, false, true, &dcid, &[], &addr, 20), PacketDecision::NotInitial));
    assert!(matches!(decide_packet(false, true, false, &dcid, &[], &addr, 20), PacketDecision::NegotiateVersion));
    let token = match decide_packet(false, true, true, &dcid, &[], &addr, 20) {
        PacketDecision::Retry(t) => t,
        _ => panic!("expected a retry"),
    };
    assert_eq!(token, mint_token(&dcid, &addr));
    let new_dcid = [2u8; 20];
    match decide_packet(false, true, true, &new_dcid, &token, &addr, 20) {
        PacketDecision::Accept(odcid) => assert_eq!(odcid, dcid.to_vec()),
        _ => panic!("expected an accept"),
    }
    assert!(matches!(decide_packet(false, true, true, &new_dcid, &token, &[10, 0, 0, 8], 20), PacketDecision::InvalidToken));
    assert!(matches!(decide_packet(false, true, true, &[3u8; 8], &token, &addr, 20), PacketDecision::InvalidConnectionId));
}

#[test]
fn conn_id_is_the_first_twenty_bytes_of_the_tag() {
    let tag: Vec<u8> = (0u8..32).collect();
    assert_eq!(conn_id_from_tag(&tag), Some((0u8..20).collect::<Vec<u8>>()));
    assert_eq!(conn_id_from_tag(&tag[..20]), Some(tag[..20].to_vec()));
    assert_eq!(conn_id_from_tag(&tag[..19]), None);
    assert_eq!(conn_id_from_tag(&[]), None);
    assert_eq!(MAX_CONN_ID_LEN, 20);
}

#[test]
fn connection_id_cuts_the_hmac_of_the_dcid() {
    let seed = [42u8; 32];
    let dcid = [1u8, 2, 3, 4, 5];
    let id = connection_id(&seed, &dcid);
    assert_eq!(id.len(), 20);
    assert_ne!(&id[..5], &dcid[..]);
    let key = ring::hmac::Key::new(ring::hmac::HMAC_SHA256, &seed);
    let tag = ring::hmac::sign(&key, &dcid);
    assert_eq!(&id[..], &tag.as_ref()[..20]);
    assert_eq!(connection_id(&seed, &dcid), id);
    assert_ne!(connection_id(&seed, &[9u8]), id);
    assert_ne!(connection_id(&[7u8; 32], &dcid), id);
}
