use campuslink::crypto::decrypt_message;
use campuslink::server::base64::{base64_decode, base64_encode};
use campuslink::server::export::{
    attendance_csv, csv_cell, format_duration, usage_csv, AttendanceExportRow, UsageExportRow,
};
use campuslink::server::import::{
    check_pending_students, check_seat_row, check_student_row, checkin_targets, find_duplicate_seat,
    seat_error_code, student_error_code, PendingRow, RowCheck, SeatRowCheck,
};
use campuslink::server::protocol::{
    ack_frame, broadcast_frame, fingerprint_accepted, generate_session_key, heartbeat_actions,
    mode_switch_message, mode_to_proto_value, mode_value_to_str, requires_checkin,
    validate_target_mode, ApiResponse, ServerFrame,
};
use campuslink::server::settings::{advertised_ip, log_page, photo_accepted, Config};

#[test]
fn base64_matches_standard_alphabet_and_round_trips() {
    assert_eq!(base64_encode(b""), "");
    assert_eq!(base64_encode(b"f"), "Zg==");
    assert_eq!(base64_encode(b"fo"), "Zm8=");
    assert_eq!(base64_encode(b"foo"), "Zm9v");
    assert_eq!(base64_encode(b"foobar"), "Zm9vYmFy");
    assert_eq!(base64_encode(&[0xff, 0xfe, 0x00]), "//4A");
    for data in [vec![], vec![1u8], vec![0, 255, 7, 9], (0..=255u8).collect::<Vec<u8>>()] {
        assert_eq!(base64_decode(&base64_encode(&data)).unwrap(), data);
    }
    assert_eq!(base64_decode("Zm9v\nYmFy").unwrap(), b"foobar".to_vec());
}

#[test]
fn mode_values_round_trip() {
    for m in ["open", "teaching", "exam", "locked"] {
        assert_eq!(mode_value_to_str(mode_to_proto_value(m)), m);
    }
    assert_eq!(mode_to_proto_value("exam"), 3);
    assert_eq!(mode_value_to_str(2), "open");
    assert!(requires_checkin("open") && requires_checkin("teaching") && !requires_checkin("exam"));
}

#[test]
fn mode_validation_and_messages() {
    assert!(validate_target_mode("exam").is_ok());
    assert_eq!(
        validate_target_mode("party").unwrap_err(),
        "非法模式: party（可选: open/teaching/exam/locked）"
    );
    assert_eq!(
        mode_switch_message("d1", "exam", "t", -5),
        "{\"type\":\"mode_switch\",\"device_id\":\"d1\",\"mode\":\"exam\",\"operator\":\"t\",\"timestamp\":-5}"
    );
    let ok: ApiResponse<u8> = ApiResponse::success(3);
    assert_eq!((ok.code, ok.message.as_str(), ok.data), (0, "ok", Some(3)));
    let err: ApiResponse<u8> = ApiResponse::error(500, "x".into());
    assert_eq!((err.code, err.data), (500, None));
}

#[test]
fn fingerprint_and_heartbeat_rules() {
    assert!(fingerprint_accepted("", "abc"));
    assert!(fingerprint_accepted("x", "pending_init"));
    assert!(fingerprint_accepted("abc", "abc"));
    assert!(!fingerprint_accepted("abc", "abd"));
    assert!(heartbeat_actions(None, Some("exam".into())).is_none());
    let a = heartbeat_actions(Some("d".into()), Some("exam".into())).unwrap();
    assert_eq!(a.record_mode.as_deref(), Some("exam"));
    assert!(a.ensure_exam_session);
    let b = heartbeat_actions(Some("d".into()), Some("weird".into())).unwrap();
    assert!(b.record_mode.is_none() && !b.ensure_exam_session);
}

#[test]
fn frames_are_sealed_with_session_keys() {
    let key = generate_session_key();
    assert_eq!(key.len(), 64);
    match ack_frame("") {
        ServerFrame::Text(t) => assert_eq!(t, "{\"type\":\"heartbeat_ack\",\"ack_code\":0,\"message\":\"ok\"}"),
        _ => panic!(),
    }
    match ack_frame(&key) {
        ServerFrame::Binary(b) => assert_eq!(decrypt_message(&b, &key).unwrap(), "{\"type\":\"heartbeat_ack\",\"ack_code\":0,\"message\":\"ok\"}"),
        _ => panic!(),
    }
    match broadcast_frame("proto:Zm9v", "") {
        Some(ServerFrame::Binary(b)) => assert_eq!(b, b"foo".to_vec()),
        _ => panic!(),
    }
    match broadcast_frame("hello", &key) {
        Some(ServerFrame::Binary(b)) => assert_eq!(decrypt_message(&b, &key).unwrap(), "hello"),
        _ => panic!(),
    }
    match broadcast_frame("hello", "bad") {
        Some(ServerFrame::Text(t)) => assert_eq!(t, "hello"),
        _ => panic!(),
    }
}

#[test]
fn csv_cells_and_durations() {
    assert_eq!(csv_cell("plain"), "plain");
    assert_eq!(csv_cell("a,b"), "\"a,b\"");
    assert_eq!(csv_cell("say \"hi\""), "\"say \"\"hi\"\"\"");
    assert_eq!(format_duration(Some(3661)), "01:01:01");
    assert_eq!(format_duration(Some(360000)), "100:00:00");
    assert_eq!(format_duration(Some(-1)), "");
    assert_eq!(format_duration(None), "");
}

#[test]
fn usage_and_attendance_exports() {
    let rows = vec![UsageExportRow {
        device_id: "d1".into(),
        device_name: None,
        class_name: Some("C,1".into()),
        seat_no: None,
        user_name: "Li".into(),
        start_time: "t0".into(),
        end_time: None,
        duration_seconds: Some(59),
        inspection_ok: false,
        inspection_summary: None,
    }];
    assert_eq!(
        usage_csv(&rows),
        "\u{feff}设备,班级,座位号,使用人,开始时间,结束时间,使用时长,检查结果\nd1,\"C,1\",,Li,t0,,00:00:59,异常\n"
    );
    let att = vec![AttendanceExportRow {
        student_name: Some("Li".into()),
        student_no: None,
        class_name: None,
        seat_no: Some("3".into()),
        device_id: "d1".into(),
        device_name: Some("PC1".into()),
        check_in_time: "t".into(),
        status: "ok".into(),
    }];
    assert_eq!(attendance_csv(&att), "\u{feff}学生姓名,学号,班级,座位号,设备,签到时间,状态\nLi,,,3,PC1,t,ok\n");
}

fn pending(line: usize, class_id: &str, seat: &str) -> PendingRow {
    PendingRow {
        line,
        student_no: "s".into(),
        name: "n".into(),
        password: "p".into(),
        class_id: class_id.into(),
        seat_no: seat.into(),
    }
}

#[test]
fn student_import_rules() {
    assert!(matches!(check_student_row(2, "", "", "", ""), RowCheck::Skip));
    assert!(matches!(check_student_row(2, "学号", "姓名", "班级", "座位号"), RowCheck::Skip));
    match check_student_row(3, "S1", "", "C", "1") {
        RowCheck::Reject(e) => assert_eq!(e, "第3行：姓名为必填项"),
        _ => panic!(),
    }
    match check_student_row(4, "S1", "Li", "C", "") {
        RowCheck::Reject(e) => assert_eq!(e, "第4行：座位号为必填项"),
        _ => panic!(),
    }
    assert!(matches!(check_student_row(5, "", "Li", "C", "1"), RowCheck::Candidate));
    let rows = vec![pending(2, "c1", "1"), pending(3, "c2", "1"), pending(4, "c1", "1")];
    assert_eq!(find_duplicate_seat(&rows), Some(2));
    assert_eq!(check_pending_students(&rows).unwrap_err(), "第4行：座位号 1 在导入文件中重复");
    assert_eq!(check_pending_students(&vec![]).unwrap_err(), "导入文件没有有效的学生数据");
    assert!(check_pending_students(&vec![pending(2, "c", "1")]).is_ok());
    assert_eq!(student_error_code("第3行：姓名为必填项"), 400);
    assert_eq!(student_error_code("database is locked"), 500);
    assert_eq!(seat_error_code("座位号重复"), 400);
}

#[test]
fn seat_import_and_class_mode_rules() {
    assert!(matches!(check_seat_row(2, "".into(), "".into()), SeatRowCheck::Skip));
    assert!(matches!(check_seat_row(2, "设备ID".into(), "座位号".into()), SeatRowCheck::Skip));
    match check_seat_row(5, "".into(), "3".into()) {
        SeatRowCheck::Reject(e) => assert_eq!(e, "第5行：设备ID为必填项"),
        _ => panic!(),
    }
    assert!(matches!(check_seat_row(5, "d".into(), "3".into()), SeatRowCheck::Accept(_)));
    let all = vec!["a".to_string(), "b".to_string()];
    let teaching = vec!["a".to_string()];
    assert_eq!(checkin_targets("teaching", all.clone(), teaching.clone()), teaching);
    assert_eq!(checkin_targets("open", all.clone(), teaching.clone()), all);
    assert!(checkin_targets("exam", all, teaching).is_empty());
}

#[test]
fn settings_rules() {
    let c = Config::default_with_db_url("sqlite://x.db");
    assert_eq!((c.server.host.as_str(), c.server.port), ("0.0.0.0", 8080));
    assert_eq!(c.database.url, "sqlite://x.db");
    assert_eq!(log_page(None, None), (1, 20));
    assert_eq!(log_page(Some(-3), Some(500)), (1, 100));
    assert!(photo_accepted("image/png", 2 * 1024 * 1024));
    assert!(!photo_accepted("image/png", 2 * 1024 * 1024 + 1));
    assert!(!photo_accepted("text/plain", 1));
    assert_eq!(advertised_ip(&vec![[127, 0, 0, 1], [169, 254, 1, 1], [10, 0, 0, 5]]), "10.0.0.5");
    assert_eq!(advertised_ip(&vec![[127, 0, 0, 1]]), "0.0.0.0");
}

#[test]
fn import_template_saves_as_zip_package() {
    let ws = campuslink::server::xlsx::import_template_sheet().expect("template sheet");
    let bytes = campuslink::server::xlsx::sheet_to_xlsx(ws).expect("saved file");
    assert!(bytes.len() > 4);
    assert_eq!(&bytes[0..4], &[0x50u8, 0x4b, 3, 4]);
}

#[test]
fn heartbeat_replies_put_pending_trigger_before_one_ack() {
    let trigger = campuslink::server::protocol::trigger_frame("d1", 5, "").expect("plain trigger");
    let replies = campuslink::server::protocol::text_frame_replies(Some(trigger), "");
    assert_eq!(replies.len(), 2);
    match &replies[0] {
        ServerFrame::Text(t) => assert!(t.contains("checkin_trigger") && t.contains("\"d1\"")),
        _ => panic!("expected a text trigger"),
    }
    match &replies[1] {
        ServerFrame::Text(t) => assert_eq!(t, r#"{"type":"heartbeat_ack","ack_code":0,"message":"ok"}"#),
        _ => panic!("expected a text ack"),
    }
    let alone = campuslink::server::protocol::text_frame_replies(None, "");
    assert_eq!(alone.len(), 1);
    assert!(matches!(&alone[0], ServerFrame::Text(_)));
}
