use chat_export::model::{AttachmentInfo, ContentPart, PayloadFault, RawMessage};
use chat_export::pipeline::ExportPipeline;
use chat_export::render::Renderer;
use chat_export::store::MemoryStore;
use chat_export::transport::Message;

fn renderer() -> Renderer {
    Renderer { custom_name: None, offset: imessage_database::util::dates::get_offset() }
}

fn message_numbered(i: usize) -> RawMessage {
    RawMessage {
        rowid: i as i32,
        guid: format!("guid-{i}"),
        sender: format!("+1{:010}", i % 7),
        text: Some(format!("message number {i}")),
        date_text: "May 20, 2020 10:10:11 AM".to_string(),
        chat_id: Some((i % 3) as i32),
        parts: vec![ContentPart::Text { ranges: Vec::new() }],
        ..Default::default()
    }
}

#[test]
fn unique_chat_id_prefers_deduped_then_raw_then_fallback() {
    let r = renderer();
    let mut m = message_numbered(1);
    m.deduped_chat_id = Some(42);
    m.chat_id = Some(7);
    assert_eq!(r.unique_chat_id(&m), "42");
    m.deduped_chat_id = None;
    assert_eq!(r.unique_chat_id(&m), "7");
    m.chat_id = None;
    assert_eq!(r.unique_chat_id(&m), "+10000000001:Missing_chat_id");
}

#[test]
fn unique_chat_id_is_never_empty_even_with_empty_sender() {
    let r = renderer();
    let mut m = message_numbered(1);
    m.deduped_chat_id = None;
    m.chat_id = None;
    m.sender = String::new();
    let id = r.unique_chat_id(&m);
    assert!(!id.is_empty());
    assert_eq!(id, ":Missing_chat_id");
}

#[test]
fn unique_chat_id_renders_negative_ids() {
    let r = renderer();
    let mut m = message_numbered(1);
    m.deduped_chat_id = Some(-3);
    assert_eq!(r.unique_chat_id(&m), "-3");
}

#[test]
fn record_projects_the_message_and_resolves_paths_in_order() {
    let r = renderer();
    let mut m = message_numbered(5);
    m.thread_name = Some("Family".to_string());
    m.attachments = vec![
        AttachmentInfo { resolved_path: Some("a.png".to_string()), ..Default::default() },
        AttachmentInfo { resolved_path: None, fallback_name: "gone".to_string(), ..Default::default() },
        AttachmentInfo { resolved_path: Some("b.png".to_string()), ..Default::default() },
    ];
    let record = r.make_record(&m);
    assert_eq!(record.rowid, 5);
    assert_eq!(record.guid, "guid-5");
    // Stored dates are UTC renderings of the raw stamp, distinct from the
    // header's local display text.
    let expected_date = chrono::DateTime::<chrono::Utc>::from_timestamp(m.date + r.offset, 0)
        .unwrap()
        .format("%b %d, %Y %l:%M:%S %p")
        .to_string();
    assert_eq!(record.date, expected_date);
    assert_eq!(record.thread_name.as_deref(), Some("Family"));
    assert_eq!(record.attachment_paths, vec!["a.png".to_string(), "b.png".to_string()]);
    assert_eq!(record.phone_number, "+10000000005");
    assert_eq!(record.unique_chat_id, "2");
    assert!(record.full_message.ends_with("message number 5\n\n"));
}

#[test]
fn batch_of_1500_flushes_exactly_twice_with_sizes_1000_and_500() {
    let mut pipeline = ExportPipeline::new(renderer());
    let mut store = MemoryStore::new();
    store.setup_schema().expect("schema setup failed");

    let mut batch_sizes: Vec<usize> = Vec::new();
    for i in 0..1500 {
        let m = message_numbered(i);
        if let Some(batch) = pipeline.write_message(&m) {
            batch_sizes.push(batch.len());
            store.insert_batch(batch).expect("insert failed");
        }
    }
    let rest = pipeline.flush_messages();
    if !rest.is_empty() {
        batch_sizes.push(rest.len());
        store.insert_batch(rest).expect("insert failed");
    }
    store.flush().expect("flush failed");

    assert_eq!(batch_sizes, vec![1000, 500]);
    assert_eq!(pipeline.stats.messages_exported, 1500);
    assert_eq!(pipeline.stats.batches_flushed, 2);
    assert_eq!(store.messages.len(), 1500);
    // Batches arrive in source order.
    assert_eq!(store.messages[0].guid, "guid-0");
    assert_eq!(store.messages[1499].guid, "guid-1499");
}

#[test]
fn inline_decode_faults_are_counted_and_the_message_still_exports() {
    let mut pipeline = ExportPipeline::new(renderer());
    let mut faulty = message_numbered(1);
    faulty.parts = vec![ContentPart::AppBalloon {
        decoded: Err(PayloadFault::Malformed("bad plist".to_string())),
    }];
    assert!(pipeline.write_message(&faulty).is_none());
    assert!(pipeline.write_message(&message_numbered(2)).is_none());
    assert_eq!(pipeline.stats.messages_exported, 2);
    assert_eq!(pipeline.stats.render_faults, 1);
    assert_eq!(pipeline.flush_messages().len(), 2);
}

#[test]
fn a_message_the_decoder_rejected_is_recorded_and_skipped() {
    let mut pipeline = ExportPipeline::new(renderer());
    assert!(pipeline.write_message(&message_numbered(1)).is_none());
    pipeline.record_failed_message();
    assert_eq!(pipeline.stats.render_faults, 1);
    assert_eq!(pipeline.stats.messages_exported, 1);
    // The failed message was skipped: only the rendered one leaves.
    assert_eq!(pipeline.flush_messages().len(), 1);
}

#[test]
fn setup_schema_twice_changes_nothing_and_raises_no_error() {
    let mut store = MemoryStore::new();
    assert!(store.setup_schema().is_ok());
    let ready_once = store.schema_ready;
    let persons_once = store.persons.len();
    let messages_once = store.messages.len();
    assert!(store.setup_schema().is_ok());
    assert_eq!(store.schema_ready, ready_once);
    assert_eq!(store.persons.len(), persons_once);
    assert_eq!(store.messages.len(), messages_once);
}

fn record(phone: &str, guid: &str, chat: &str) -> Message {
    Message {
        guid: guid.to_string(),
        phone_number: phone.to_string(),
        unique_chat_id: chat.to_string(),
        ..Default::default()
    }
}

#[test]
fn graph_pass_derives_unique_persons_and_threads_and_three_edges_per_message() {
    let mut store = MemoryStore::new();
    store.setup_schema().expect("schema setup failed");
    store
        .insert_batch(vec![
            record("+15550001", "g1", "chat-1"),
            record("+15550002", "g2", "chat-1"),
            record("+15550001", "g3", "chat-2"),
        ])
        .expect("insert failed");

    let stats = store.materialize_graph();
    assert_eq!(stats.persons_created, 2);
    assert_eq!(stats.threads_created, 2);
    assert_eq!(stats.sent_edges, 3);
    assert_eq!(stats.messaged_in_edges, 3);
    assert_eq!(stats.in_thread_edges, 3);
    assert_eq!(stats.messages_processed, 3);
    assert_eq!(store.persons.len(), 2);
    assert_eq!(store.threads.len(), 2);
    assert_eq!(store.sent.len(), 3);
    assert_eq!(store.sent[0], ("+15550001".to_string(), "g1".to_string()));
}

#[test]
fn graph_pass_twice_keeps_person_and_thread_counts() {
    let mut store = MemoryStore::new();
    store.setup_schema().expect("schema setup failed");
    store
        .insert_batch(vec![
            record("+15550001", "g1", "chat-1"),
            record("+15550002", "g2", "chat-1"),
        ])
        .expect("insert failed");

    let first = store.materialize_graph();
    let persons_after_first = store.persons.len();
    let threads_after_first = store.threads.len();
    let second = store.materialize_graph();

    assert_eq!(first.persons_created, 2);
    assert_eq!(second.persons_created, 0);
    assert_eq!(second.threads_created, 0);
    assert_eq!(store.persons.len(), persons_after_first);
    assert_eq!(store.threads.len(), threads_after_first);
    // Edges are appended unconditionally: the second run duplicates them.
    assert_eq!(store.sent.len(), 4);
}

#[test]
fn archive_owner_flag_marks_the_person() {
    let mut store = MemoryStore::new();
    let mut own = record("+15550009", "g9", "chat-9");
    own.is_from_me = true;
    store.insert_batch(vec![own]).expect("insert failed");
    store.materialize_graph();
    assert_eq!(store.persons.len(), 1);
    assert!(store.persons[0].is_me);
    assert_eq!(store.persons[0].phone_number, "+15550009");
}
