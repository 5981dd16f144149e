use chat_export::model::{
    AppPayload, AttachmentInfo, CheckInKind, CheckInTiming, ContentPart, EditEvent, EditStatus,
    EditedInfo, EditedPart, Expressive, MusicBalloon, PayloadFault, RawMessage, Reaction,
    ReactionGroup, ReactionKind, Reply, ScreenEffect, TextRange, TypedBalloon, UrlBalloon,
};
use chat_export::render::Renderer;

fn renderer() -> Renderer {
    Renderer { custom_name: None, offset: imessage_database::util::dates::get_offset() }
}

fn plain_message() -> RawMessage {
    RawMessage {
        guid: "guid-1".to_string(),
        sender: "+15558675309".to_string(),
        text: Some("hello there".to_string()),
        date_text: "May 20, 2020 10:10:11 AM".to_string(),
        parts: vec![ContentPart::Text { ranges: Vec::new() }],
        ..Default::default()
    }
}

#[test]
fn plain_text_renders_four_lines() {
    let out = renderer().format_message(&plain_message(), 0);
    assert_eq!(out, "May 20, 2020 10:10:11 AM\n+15558675309\nhello there\n\n");
}

#[test]
fn nested_render_has_no_trailing_blank_line() {
    let out = renderer().format_message(&plain_message(), 4);
    assert_eq!(out, "    May 20, 2020 10:10:11 AM\n    +15558675309\n    hello there\n");
}

#[test]
fn removed_reaction_renders_nothing() {
    let r = renderer();
    let removed = Reaction {
        kind: ReactionKind::Tapback { label: "Loved".to_string(), added: false },
        actor: "Bad Actor".to_string(),
    };
    assert_eq!(r.format_tapback(&removed), "");

    let mut m = plain_message();
    m.tapbacks = vec![ReactionGroup { part_index: 0, reactions: vec![removed] }];
    let out = r.format_message(&m, 0);
    assert!(!out.contains("Tapbacks:"));
    assert!(!out.contains("Bad Actor"));
}

#[test]
fn added_reaction_renders_under_tapbacks_block() {
    let r = renderer();
    let mut m = plain_message();
    m.tapbacks = vec![ReactionGroup {
        part_index: 0,
        reactions: vec![Reaction {
            kind: ReactionKind::Tapback { label: "Loved".to_string(), added: true },
            actor: "Sam".to_string(),
        }],
    }];
    let out = r.format_message(&m, 0);
    assert!(out.contains("Tapbacks:\n"));
    assert!(out.contains("Loved by Sam\n"));
}

#[test]
fn sticker_reaction_renders_its_sticker_line_with_the_actor() {
    let r = renderer();
    let with_sticker = Reaction {
        kind: ReactionKind::Sticker {
            attachment: Some(AttachmentInfo {
                is_sticker: true,
                sticker_effect: None,
                resolved_path: Some("sticker.heic".to_string()),
                fallback_name: String::new(),
            }),
        },
        actor: "Sam".to_string(),
    };
    assert_eq!(r.format_tapback(&with_sticker), "Sticker from Sam: sticker.heic from Sam");

    let missing = Reaction {
        kind: ReactionKind::Sticker { attachment: None },
        actor: "Sam".to_string(),
    };
    assert_eq!(r.format_tapback(&missing), "Sticker from Sam not found!");
}

#[test]
fn edited_chain_renders_absolute_then_relative_times() {
    // Two edit events three minutes apart on part 0, plain text on part 1.
    let r = renderer();
    let base: i64 = 674526582885055488;
    let later = base + 180 * 1_000_000_000;
    let mut m = plain_message();
    m.text = Some("first version".to_string());
    m.parts = vec![
        ContentPart::Text { ranges: Vec::new() },
        ContentPart::Text { ranges: Vec::new() },
    ];
    m.edited = Some(EditedInfo {
        parts: vec![
            EditedPart {
                status: EditStatus::Edited,
                edit_history: vec![
                    EditEvent {
                        date: base,
                        date_text: String::new(),
                        elapsed_text: None,
                        text: "first version".to_string(),
                    },
                    EditEvent {
                        date: later,
                        date_text: String::new(),
                        elapsed_text: None,
                        text: "second version".to_string(),
                    },
                ],
            },
        ],
    });
    r.resolve_times(&mut m);
    let expected_stamp = imessage_database::util::dates::format(
        &imessage_database::util::dates::get_local_time(base, r.offset).unwrap(),
    );
    let out = r.format_message(&m, 0);
    assert!(out.contains(&format!("{expected_stamp} first version\n")));
    assert!(out.contains("Edited 3 minutes later: second version\n"));
    // Part 1 renders its plain text unmodified, after the edit chain.
    assert!(out.contains("\nfirst version\n"));
}

#[test]
fn unsent_part_renders_retraction_with_elapsed_time() {
    let r = renderer();
    let base: i64 = 674526582885055488;
    let mut m = plain_message();
    m.date = base;
    m.date_edited = base + 180 * 1_000_000_000;
    m.parts = vec![ContentPart::Retracted];
    m.edited = Some(EditedInfo {
        parts: vec![EditedPart { status: EditStatus::Unsent, edit_history: Vec::new() }],
    });
    r.resolve_times(&mut m);
    let out = r.format_message(&m, 0);
    assert!(out.contains("They unsent this message part 3 minutes after sending!\n"));
}

#[test]
fn read_receipt_appends_elapsed_time() {
    let r = renderer();
    let mut m = plain_message();
    m.read_after_text = Some("2 minutes".to_string());
    let time = r.get_time(&m);
    assert_eq!(time, "May 20, 2020 10:10:11 AM (Read by you after 2 minutes)");
}

#[test]
fn resolve_times_fills_the_read_receipt_from_the_stamps() {
    let r = renderer();
    let base: i64 = 674526582885055488;
    let mut m = plain_message();
    m.date = base;
    m.date_read = base + 120 * 1_000_000_000;
    r.resolve_times(&mut m);
    assert_eq!(m.read_after_text.as_deref(), Some("2 minutes"));
    let time = r.get_time(&m);
    assert!(time.ends_with(" (Read by you after 2 minutes)"));
}

#[test]
fn resolve_times_fills_header_date_from_stamp() {
    let r = renderer();
    let base: i64 = 674526582885055488;
    let mut m = plain_message();
    m.date = base;
    m.date_text = String::new();
    r.resolve_times(&mut m);
    let expected = imessage_database::util::dates::format(
        &imessage_database::util::dates::get_local_time(base, r.offset).unwrap(),
    );
    assert!(!expected.is_empty());
    assert_eq!(m.date_text, expected);
}

#[test]
fn unsent_elapsed_exists_exactly_when_the_edit_follows_the_send() {
    let r = renderer();
    let base: i64 = 674526582885055488;
    let mut m = plain_message();
    m.date = base;
    m.date_edited = base - 1_000_000_000;
    r.resolve_times(&mut m);
    assert!(m.unsent_after_text.is_none());
    m.date_edited = base + 180 * 1_000_000_000;
    r.resolve_times(&mut m);
    assert_eq!(m.unsent_after_text.as_deref(), Some("3 minutes"));
}

#[test]
fn first_edit_event_carries_no_elapsed_time() {
    let r = renderer();
    let base: i64 = 674526582885055488;
    let mut m = plain_message();
    m.parts = vec![ContentPart::Text { ranges: Vec::new() }];
    m.edited = Some(EditedInfo {
        parts: vec![EditedPart {
            status: EditStatus::Edited,
            edit_history: vec![
                EditEvent {
                    date: base,
                    date_text: String::new(),
                    elapsed_text: Some("stale".to_string()),
                    text: "only version".to_string(),
                },
            ],
        }],
    });
    r.resolve_times(&mut m);
    let events = &m.edited.as_ref().unwrap().parts[0].edit_history;
    assert!(events[0].elapsed_text.is_none());
    assert!(!events[0].date_text.is_empty());
}

#[test]
fn fitness_placeholder_replaced_when_text_starts_with_it() {
    let r = renderer();
    let mut m = plain_message();
    m.text = Some(
        "$(kIMTranscriptPluginBreadcrumbTextReceiverIdentifier) finished a workout".to_string(),
    );
    let out = r.format_message(&m, 0);
    assert!(out.contains("You finished a workout\n"));
    assert!(!out.contains("kIMTranscriptPluginBreadcrumbTextReceiverIdentifier"));
}

#[test]
fn text_ranges_select_spans_of_the_text() {
    let r = renderer();
    let mut m = plain_message();
    m.text = Some("hello there".to_string());
    m.parts = vec![ContentPart::Text {
        ranges: vec![TextRange { start: 0, end: 5 }, TextRange { start: 30, end: 40 }],
    }];
    let out = r.format_message(&m, 0);
    assert!(out.contains("\nhello\n"));
}

#[test]
fn attachment_slot_advances_only_on_success() {
    let r = renderer();
    let mut m = plain_message();
    m.parts = vec![ContentPart::Attachment, ContentPart::Attachment];
    m.attachments = vec![
        AttachmentInfo {
            resolved_path: None,
            fallback_name: "lost.heic".to_string(),
            ..Default::default()
        },
        AttachmentInfo {
            resolved_path: Some("kept.heic".to_string()),
            ..Default::default()
        },
    ];
    let out = r.format_message(&m, 0);
    // The failed resolution does not consume the slot, so the second part
    // renders the same attachment's fallback again.
    assert_eq!(out.matches("lost.heic").count(), 2);
    assert!(!out.contains("kept.heic"));
}

#[test]
fn attachments_resolve_in_order_and_missing_slot_is_annotated() {
    let r = renderer();
    let mut m = plain_message();
    m.parts = vec![
        ContentPart::Attachment,
        ContentPart::Attachment,
        ContentPart::Attachment,
    ];
    m.attachments = vec![
        AttachmentInfo { resolved_path: Some("a.png".to_string()), ..Default::default() },
        AttachmentInfo { resolved_path: Some("b.png".to_string()), ..Default::default() },
    ];
    let out = r.format_message(&m, 0);
    let a = out.find("a.png").unwrap();
    let b = out.find("b.png").unwrap();
    assert!(a < b);
    assert!(out.contains("Attachment missing!\n"));
}

#[test]
fn sticker_renders_with_actor_and_does_not_consume_the_slot() {
    let r = renderer();
    let mut m = plain_message();
    m.parts = vec![ContentPart::Attachment];
    m.attachments = vec![AttachmentInfo {
        is_sticker: true,
        sticker_effect: Some("Tapped".to_string()),
        resolved_path: Some("sticker.heic".to_string()),
        fallback_name: String::new(),
    }];
    let out = r.format_message(&m, 0);
    assert!(out.contains("Tapped Sticker from +15558675309: sticker.heic\n"));
}

#[test]
fn expressive_effect_label_repeats_once_per_part() {
    let r = renderer();
    let mut m = plain_message();
    m.parts = vec![
        ContentPart::Text { ranges: Vec::new() },
        ContentPart::Text { ranges: Vec::new() },
    ];
    m.expressive = Some(Expressive::Screen(ScreenEffect::Confetti));
    let out = r.format_message(&m, 0);
    assert_eq!(out.matches("Sent with Confetti").count(), 2);
}

#[test]
fn reply_renders_indented_and_tapback_replies_are_skipped() {
    let r = renderer();
    let mut reply = plain_message();
    reply.sender = "Me".to_string();
    reply.text = Some("a reply".to_string());
    let mut tapback_reply = plain_message();
    tapback_reply.is_tapback = true;
    tapback_reply.text = Some("invisible".to_string());
    let mut m = plain_message();
    m.replies = vec![
        Reply { part_index: 0, message: reply },
        Reply { part_index: 0, message: tapback_reply },
    ];
    let out = r.format_message(&m, 0);
    assert!(out.contains("    a reply\n"));
    assert!(!out.contains("invisible"));
}

#[test]
fn top_level_reply_carries_the_reply_note() {
    let r = renderer();
    let mut m = plain_message();
    m.is_reply = true;
    let top = r.format_message(&m, 0);
    assert!(top.contains("This message responded to an earlier message.\n"));
    let nested = r.format_message(&m, 4);
    assert!(!nested.contains("This message responded to an earlier message."));
}

#[test]
fn deleted_subject_and_location_notices_render() {
    let r = renderer();
    let mut m = plain_message();
    m.is_deleted = true;
    m.subject = Some("Re: plans".to_string());
    m.started_sharing_location = true;
    let out = r.format_message(&m, 0);
    assert!(out.contains("This message was deleted from the conversation!\n"));
    assert!(out.contains("Re: plans\n"));
    assert!(out.contains("Started sharing location!\n"));
}

#[test]
fn url_balloon_renders_fields_in_order_without_trailing_newline() {
    let r = renderer();
    let m = plain_message();
    let balloon = UrlBalloon {
        url: Some("https://example.com".to_string()),
        title: Some("Example".to_string()),
        summary: Some("A site".to_string()),
    };
    assert_eq!(r.format_url(&m, &balloon, ""), "https://example.com\nExample\nA site");
}

#[test]
fn url_balloon_falls_back_to_message_text() {
    let r = renderer();
    let mut m = plain_message();
    m.text = Some("https://fallback.example".to_string());
    let balloon = UrlBalloon { url: None, title: None, summary: None };
    assert_eq!(r.format_url(&m, &balloon, ""), "https://fallback.example");
}

#[test]
fn music_balloon_keeps_its_trailing_newline() {
    let r = renderer();
    let balloon = MusicBalloon {
        track_name: Some("Track".to_string()),
        album: None,
        artist: Some("Artist".to_string()),
        url: None,
    };
    assert_eq!(r.format_music(&balloon, ""), "Track\nArtist\n");
}

#[test]
fn apple_pay_balloon_renders_caption_and_fallback_amount() {
    let r = renderer();
    let with_caption = AppPayload {
        caption: Some("Sent".to_string()),
        ldtext: Some("$20".to_string()),
        ..Default::default()
    };
    assert_eq!(r.format_apple_pay(&with_caption, ""), "Sent transaction: $20");
    let without = AppPayload { caption: None, ldtext: None, ..Default::default() };
    assert_eq!(r.format_apple_pay(&without, ""), "unknown amount");
}

#[test]
fn generic_app_balloon_uses_bundle_id_when_unnamed() {
    let r = renderer();
    let payload = AppPayload { title: Some("A title".to_string()), ..Default::default() };
    assert_eq!(
        r.format_generic_app(&payload, "com.example.app", ""),
        "com.example.app message:\nA title"
    );
}

#[test]
fn check_in_balloon_labels_its_date_by_kind() {
    let r = renderer();
    let timing = Some(CheckInTiming {
        kind: CheckInKind::Estimated,
        seconds: 0,
        date_text: "May 20, 2020 10:10:11 AM".to_string(),
    });
    assert_eq!(
        r.format_check_in(&None, &timing, ""),
        "Check In\nExpected at May 20, 2020 10:10:11 AM"
    );
    let expired = Some(CheckInTiming {
        kind: CheckInKind::Expired,
        seconds: 0,
        date_text: "then".to_string(),
    });
    assert_eq!(
        r.format_check_in(&Some("Check-in time".to_string()), &expired, ""),
        "Check-in time\nWas expected at then"
    );
}

#[test]
fn resolve_times_fills_check_in_dates_from_raw_seconds() {
    let r = renderer();
    let seconds: i64 = 1_700_000_000;
    let mut m = plain_message();
    m.parts = vec![ContentPart::AppBalloon {
        decoded: Ok(TypedBalloon::CheckIn {
            caption: None,
            timing: Some(CheckInTiming {
                kind: CheckInKind::Estimated,
                seconds,
                date_text: String::new(),
            }),
        }),
    }];
    r.resolve_times(&mut m);
    let expected = imessage_database::util::dates::format(
        &imessage_database::util::dates::get_local_time(seconds * 1_000_000_000, 0).unwrap(),
    );
    let out = r.format_message(&m, 0);
    assert!(out.contains(&format!("\nExpected at {expected}\n")));
}

#[test]
fn balloon_decode_fault_renders_inline_diagnostic() {
    let r = renderer();
    let mut m = plain_message();
    m.parts = vec![ContentPart::AppBalloon { decoded: Err(PayloadFault::NoPayload) }];
    let out = r.format_message(&m, 0);
    assert!(out.contains("Unable to format app message: Unable to acquire payload data!\n"));
}

#[test]
fn app_balloon_renders_through_its_formatter() {
    let r = renderer();
    let mut m = plain_message();
    m.parts = vec![ContentPart::AppBalloon {
        decoded: Ok(TypedBalloon::Fitness(AppPayload {
            app_name: Some("Fitness".to_string()),
            ldtext: Some("5k run".to_string()),
            ..Default::default()
        })),
    }];
    let out = r.format_message(&m, 0);
    assert!(out.contains("Fitness message: 5k run\n"));
}

#[test]
fn announcement_renders_name_change_with_you_for_the_owner() {
    let r = renderer();
    let mut m = plain_message();
    m.sender = "Me".to_string();
    m.date_text = "T".to_string();
    let out = r.format_announcement(&m, &Some(chat_export::model::Announcement::NameChange(
        "fun times".to_string(),
    )));
    assert_eq!(out, "T You renamed the conversation to fun times\n\n");
    let unknown = r.format_announcement(&m, &Some(chat_export::model::Announcement::Unknown(7)));
    assert_eq!(unknown, "T You performed unknown action 7.\n\n");
    let none = r.format_announcement(&m, &None);
    assert_eq!(none, "Unable to format announcement!\n\n");
}
