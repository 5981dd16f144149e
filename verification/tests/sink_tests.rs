use chat_export::error::ExportError;
use chat_export::http::{flush_url, insert_url, resolve_base_url, response_outcome};
use chat_export::socket::{resolve_socket_path, SocketProtocol, REPLY_ERROR, REPLY_OK};
use chat_export::surreal::{EndpointPlan, SurrealDBExporter};
use chat_export::txt::int_text;

#[test]
fn insert_frame_is_tag_length_then_payload() {
    let mut protocol = SocketProtocol::new();
    let payload: Vec<u8> = vec![1, 2, 3];
    let frame = protocol.insert_frame(&payload).expect("framing failed");
    assert_eq!(frame, vec![b'I', 0, 0, 0, 3, 1, 2, 3]);
    assert!(protocol.awaiting_reply);
}

#[test]
fn insert_frame_length_is_big_endian() {
    let mut protocol = SocketProtocol::new();
    let payload: Vec<u8> = vec![0; 0x0102];
    let frame = protocol.insert_frame(&payload).expect("framing failed");
    assert_eq!(&frame[0..5], &[b'I', 0, 0, 1, 2]);
    assert_eq!(frame.len(), 5 + 0x0102);
}

#[test]
fn flush_frame_is_the_tag_alone() {
    let mut protocol = SocketProtocol::new();
    let frame = protocol.flush_frame();
    assert_eq!(frame, vec![b'F']);
}

#[test]
fn error_reply_fails_the_batch_and_no_further_frame_is_sent() {
    let mut protocol = SocketProtocol::new();
    let payload: Vec<u8> = vec![7; 16];
    let _frame = protocol.insert_frame(&payload).expect("framing failed");
    assert_eq!(REPLY_ERROR, b'E');
    let outcome = protocol.on_reply(b'E');
    assert!(outcome.is_err());
    match outcome {
        Err(e) => assert_eq!(e.text(), "Server error"),
        Ok(()) => unreachable!(),
    }
    // The protocol is back at rest: the batch sent exactly one frame, and
    // only a fresh call may frame again.
    assert!(!protocol.awaiting_reply);
}

#[test]
fn ok_reply_succeeds() {
    let mut protocol = SocketProtocol::new();
    let payload: Vec<u8> = Vec::new();
    let _frame = protocol.insert_frame(&payload).expect("framing failed");
    assert_eq!(REPLY_OK, b'K');
    assert!(protocol.on_reply(b'K').is_ok());
}

#[test]
fn socket_path_keeps_absolute_values_and_defaults_the_rest() {
    assert_eq!(resolve_socket_path(Some("/var/run/export.sock".to_string())), "/var/run/export.sock");
    assert_eq!(resolve_socket_path(Some("relative.sock".to_string())), "/tmp/imessage-exporter.sock");
    assert_eq!(resolve_socket_path(Some(String::new())), "/tmp/imessage-exporter.sock");
    assert_eq!(resolve_socket_path(None), "/tmp/imessage-exporter.sock");
}

#[test]
fn base_url_keeps_a_secure_url_and_defaults_everything_else() {
    assert_eq!(
        resolve_base_url(Some("https://db.example:4443".to_string())),
        "https://db.example:4443"
    );
    assert_eq!(resolve_base_url(Some("http://db.example".to_string())), "https://localhost:3000");
    assert_eq!(resolve_base_url(Some("not a url at all".to_string())), "https://localhost:3000");
    assert_eq!(resolve_base_url(None), "https://localhost:3000");
}

#[test]
fn sink_endpoints_append_their_paths() {
    assert_eq!(insert_url("https://db.example"), "https://db.example/insert");
    assert_eq!(flush_url("https://db.example"), "https://db.example/flush");
}

#[test]
fn non_success_status_is_a_hard_error_carrying_the_body() {
    assert!(response_outcome(200, "").is_ok());
    assert!(response_outcome(299, "").is_ok());
    assert!(response_outcome(300, "").is_err());
    match response_outcome(404, "missing table") {
        Err(e) => assert_eq!(e.text(), "HTTP error 404: missing table"),
        Ok(()) => unreachable!(),
    }
    match response_outcome(199, "") {
        Err(e) => assert_eq!(e.text(), "HTTP error 199: "),
        Ok(()) => unreachable!(),
    }
}

#[test]
fn endpoint_plan_follows_the_configured_path_value() {
    let default_path = "/home/user/.cache/export/db".to_string();
    match SurrealDBExporter::plan_endpoint(Some("1".to_string()), default_path.clone()) {
        EndpointPlan::CreateDir(p) => assert_eq!(p, default_path),
        EndpointPlan::UseFallback => unreachable!(),
    }
    match SurrealDBExporter::plan_endpoint(Some("remote".to_string()), default_path.clone()) {
        EndpointPlan::UseFallback => {}
        EndpointPlan::CreateDir(_) => unreachable!(),
    }
    match SurrealDBExporter::plan_endpoint(Some("/data/db".to_string()), default_path.clone()) {
        EndpointPlan::CreateDir(p) => assert_eq!(p, "/data/db"),
        EndpointPlan::UseFallback => unreachable!(),
    }
    match SurrealDBExporter::plan_endpoint(Some(String::new()), default_path.clone()) {
        EndpointPlan::UseFallback => {}
        EndpointPlan::CreateDir(_) => unreachable!(),
    }
    match SurrealDBExporter::plan_endpoint(None, default_path.clone()) {
        EndpointPlan::CreateDir(p) => assert_eq!(p, default_path),
        EndpointPlan::UseFallback => unreachable!(),
    }
}

#[test]
fn endpoint_falls_back_to_websocket_when_the_directory_fails() {
    let plan = EndpointPlan::CreateDir("/data/db".to_string());
    let (endpoint, websocket) = SurrealDBExporter::endpoint_for(&plan, true);
    assert_eq!(endpoint, "rocksdb:/data/db");
    assert!(!websocket);
    let (endpoint, websocket) = SurrealDBExporter::endpoint_for(&plan, false);
    assert_eq!(endpoint, "ws://localhost:8000");
    assert!(websocket);
}

#[test]
fn credentials_default_unless_both_are_configured() {
    let (u, p) = SurrealDBExporter::resolve_credentials(
        Some("admin".to_string()),
        Some("hunter".to_string()),
    );
    assert_eq!((u.as_str(), p.as_str()), ("admin", "hunter"));
    let (u, p) = SurrealDBExporter::resolve_credentials(Some("admin".to_string()), None);
    assert_eq!((u.as_str(), p.as_str()), ("root", "root"));
}

#[test]
fn schema_declares_six_collections_with_unique_keys() {
    let statements = SurrealDBExporter::schema_statements();
    assert_eq!(statements.len(), 8);
    for table in ["persons", "threads", "messages", "sent", "messaged_in", "in_thread"] {
        assert!(statements
            .iter()
            .any(|s| s.starts_with(&format!("DEFINE TABLE IF NOT EXISTS {table}"))));
    }
    assert!(statements.iter().any(|s| s.contains("COLUMNS phone_number UNIQUE")));
    assert!(statements.iter().any(|s| s.contains("COLUMNS unique_chat_id UNIQUE")));
    // Every statement declares with IF NOT EXISTS, so a second setup run
    // changes nothing and raises no error.
    assert!(statements.iter().all(|s| s.contains("IF NOT EXISTS")));
}

#[test]
fn graph_script_is_one_transaction_keyed_on_the_unique_fields() {
    let script = SurrealDBExporter::graph_script();
    assert!(script.starts_with("BEGIN TRANSACTION;"));
    assert!(script.ends_with("COMMIT TRANSACTION;"));
    assert!(script.contains("persons:[$m.phone_number]"));
    assert!(script.contains("threads:[$m.unique_chat_id]"));
    assert!(script.contains("RELATE $p->sent->$m"));
    assert!(script.contains("RELATE $p->messaged_in->$t"));
    assert!(script.contains("RELATE $m->in_thread->$t"));
}

#[test]
fn decimal_text_renders_signs_and_extremes() {
    assert_eq!(int_text(0), "0");
    assert_eq!(int_text(-5), "-5");
    assert_eq!(int_text(120), "120");
    assert_eq!(int_text(i64::MAX), "9223372036854775807");
}

#[test]
fn error_kinds_carry_their_text() {
    assert_eq!(ExportError::Source("archive gone".to_string()).text(), "archive gone");
    assert_eq!(ExportError::SinkTransport("refused".to_string()).text(), "refused");
    assert_eq!(ExportError::GraphMaterialize("rolled back".to_string()).text(), "rolled back");
}
