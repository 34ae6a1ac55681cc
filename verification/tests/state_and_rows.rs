use amr_database::api::routes::UpdateStateRequest;
use amr_database::api::socket::{forward_step, ForwardAction, ForwardEvent};
use amr_database::api::{MAX_UPLOAD_BYTES, POSE_CHANNEL_CAPACITY};
use amr_database::database::connection::db_connect_options;
use amr_database::database::queries::{db_row_id, pose_from_row, state_update_values};
use amr_database::models::state::{render_state_text, state_type_text};
use amr_database::models::{AmrState, StateLog};
use amr_database::text::push_decimal;
use amr_database::utils::AppError;

#[test]
fn state_text_of_unit_states() {
    assert_eq!(state_type_text(&AmrState::Idle), "Idle");
    assert_eq!(state_type_text(&AmrState::Charging), "Charging");
}

#[test]
fn state_text_matches_debug() {
    let states = vec![
        AmrState::Idle,
        AmrState::Charging,
        AmrState::Navigating { target_location: "dock A".to_string() },
        AmrState::Navigating { target_location: "say \"hi\"\n\t'q' \\ ห้อง".to_string() },
        AmrState::Error { code: 0, message: String::new() },
        AmrState::Error { code: 4_294_967_295, message: "motor\u{7f} stall\u{0}".to_string() },
        AmrState::Error { code: 1007, message: "e\u{301}x".to_string() },
    ];
    for s in states {
        assert_eq!(state_type_text(&s), format!("{:?}", s));
    }
}

#[test]
fn state_text_exact_examples() {
    let s = AmrState::Navigating { target_location: "A1".to_string() };
    assert_eq!(state_type_text(&s), "Navigating { target_location: \"A1\" }");
    let s = AmrState::Error { code: 12, message: "low battery".to_string() };
    assert_eq!(state_type_text(&s), "Error { code: 12, message: \"low battery\" }");
}

#[test]
fn render_uses_given_quoted_text() {
    let s = AmrState::Navigating { target_location: "ignored".to_string() };
    assert_eq!(render_state_text(&s, "<q>"), "Navigating { target_location: <q> }");
    let s = AmrState::Error { code: 7, message: "ignored".to_string() };
    assert_eq!(render_state_text(&s, "Q"), "Error { code: 7, message: Q }");
    assert_eq!(render_state_text(&AmrState::Idle, "Q"), "Idle");
}

#[test]
fn decimal_digits() {
    for n in [0u32, 7, 10, 99, 100, 65535, u32::MAX] {
        let mut s = String::from("x=");
        push_decimal(&mut s, n);
        assert_eq!(s, format!("x={}", n));
    }
}

#[test]
fn row_id_is_twos_complement() {
    assert_eq!(db_row_id(1), 1);
    assert_eq!(db_row_id(i64::MAX as u64), i64::MAX);
    assert_eq!(db_row_id(u64::MAX), -1);
    assert_eq!(db_row_id(1u64 << 63), i64::MIN);
}

#[test]
fn state_update_values_bind_text_and_id() {
    let (text, id) = state_update_values(3, &AmrState::Charging);
    assert_eq!(text, "Charging");
    assert_eq!(id, 3);
}

#[test]
fn pose_from_complete_row() {
    let origin = (0.0f64, 0.0f64, 0.0f64);
    assert_eq!(pose_from_row(Some((Some(1.5), Some(-2.0), Some(0.25))), origin).unwrap(), (1.5, -2.0, 0.25));
    assert_eq!(pose_from_row(Some((Some(1.5), None, Some(0.25))), origin).unwrap(), origin);
    assert_eq!(pose_from_row(Some((None, None, None)), origin).unwrap(), origin);
}

#[test]
fn pose_of_unknown_robot_is_not_found() {
    match pose_from_row::<f64>(None, (0.0, 0.0, 0.0)) {
        Err(e @ AppError::NotFound(_)) => {
            assert_eq!(e.status_code(), 404);
            let r = e.into_reply();
            assert_eq!((r.status, r.body.as_str()), (404, "ไม่พบ AMR ในระบบ"));
        }
        other => panic!("unexpected {:?}", other),
    }
}

#[test]
fn connect_options_parse_or_fail() {
    assert!(db_connect_options("sqlite://amr.db").is_ok());
    assert!(db_connect_options("sqlite::memory:").is_ok());
    match db_connect_options("sqlite://amr.db?mode=fast") {
        Err(AppError::DatabaseError(m)) => assert!(m.contains("mode")),
        Ok(_) => panic!("unexpected success"),
        Err(other) => panic!("unexpected {:?}", other),
    }
    assert!(matches!(
        db_connect_options("sqlite://x.db?colour=red"),
        Err(AppError::DatabaseError(_))
    ));
}

#[test]
fn forward_steps() {
    match forward_step(ForwardEvent::Received(Some("{\"amr_name\":\"AMR-01\"}".into()))) {
        ForwardAction::Send(t) => assert_eq!(t, "{\"amr_name\":\"AMR-01\"}"),
        other => panic!("unexpected {:?}", other),
    }
    assert!(matches!(forward_step(ForwardEvent::Received(None)), ForwardAction::AwaitNext));
    assert!(matches!(forward_step(ForwardEvent::Sent), ForwardAction::AwaitNext));
    assert!(matches!(forward_step(ForwardEvent::ReceiveFailed), ForwardAction::Stop));
    assert!(matches!(forward_step(ForwardEvent::SendFailed), ForwardAction::Stop));
}

#[test]
fn error_replies() {
    assert_eq!(AppError::BadRequest("x".into()).status_code(), 400);
    assert_eq!(AppError::Internal("x".into()).status_code(), 500);
    assert_eq!(AppError::DatabaseError("x".into()).status_code(), 500);
    let r = AppError::DatabaseError("no such table".into()).into_reply();
    assert_eq!((r.status, r.body.as_str()), (500, "no such table"));
    let r = AppError::BadRequest("bad field".into()).into_reply();
    assert_eq!((r.status, r.body.as_str()), (400, "bad field"));
    assert_eq!(AppError::NotFound("x".into()).status_code(), 404);
}

#[test]
fn limits() {
    assert_eq!(MAX_UPLOAD_BYTES, 52_428_800);
    assert_eq!(POSE_CHANNEL_CAPACITY, 100);
}

#[test]
fn records_hold_their_values() {
    let log = StateLog { amr_id: 1, state: AmrState::Idle, timestamp: 1_700_000_000 };
    assert_eq!(log.state, AmrState::Idle);
    let req = UpdateStateRequest { state: AmrState::Charging };
    assert_eq!(req.state, AmrState::Charging);
}
