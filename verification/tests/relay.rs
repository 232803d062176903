use iris::config::{Channel, ConfigToml};
use iris::error::ErrorCode;
use iris::relay::{
    build_file_payload, build_text_payload, caller_result, classify_response, DispatchMode,
    DispatchOutcome, ParseMode, MAX_FILE_SIZE,
};

fn registry() -> ConfigToml {
    ConfigToml {
        tel_token: "token".to_string(),
        channels: vec![
            (
                "ops".to_string(),
                Channel {
                    chat: "-100123".to_string(),
                    thread: Some("7".to_string()),
                    pass: "s3cr3t".to_string(),
                },
            ),
            (
                "alerts".to_string(),
                Channel {
                    chat: "-100900".to_string(),
                    thread: None,
                    pass: "hunter2".to_string(),
                },
            ),
        ],
    }
}

#[test]
fn unknown_channel_and_wrong_secret_indistinguishable() {
    let conf = registry();
    let unknown = build_text_payload(
        &conf,
        &"nosuch".to_string(),
        &"whatever".to_string(),
        &"hi".to_string(),
        None,
    )
    .unwrap_err();
    let wrong = build_text_payload(
        &conf,
        &"ops".to_string(),
        &"bad-pass".to_string(),
        &"hi".to_string(),
        None,
    )
    .unwrap_err();
    assert_eq!(unknown.status, 404);
    assert_eq!(unknown.code, ErrorCode::NotFound);
    assert_eq!(wrong.status, unknown.status);
    assert_eq!(wrong.code, unknown.code);
    assert_eq!(wrong.debug, unknown.debug);
}

#[test]
fn authorized_text_relay_builds_backend_payload() {
    let conf = registry();
    let body = build_text_payload(
        &conf,
        &"ops".to_string(),
        &"s3cr3t".to_string(),
        &"deploy done".to_string(),
        None,
    )
    .unwrap();
    assert_eq!(body.chat_id, "-100123");
    assert_eq!(body.message_thread_id, Some("7".to_string()));
    assert_eq!(body.text, "deploy done");

    let body = build_text_payload(
        &conf,
        &"alerts".to_string(),
        &"hunter2".to_string(),
        &"disk full".to_string(),
        None,
    )
    .unwrap();
    assert_eq!(body.chat_id, "-100900");
    assert_eq!(body.message_thread_id, None);
}

#[test]
fn ops_round_trip_scenario() {
    let conf = registry();
    let body = build_text_payload(
        &conf,
        &"ops".to_string(),
        &"s3cr3t".to_string(),
        &"hello".to_string(),
        None,
    )
    .unwrap();
    assert_eq!(body.chat_id, "-100123");
    assert_eq!(body.message_thread_id, Some("7".to_string()));
    assert_eq!(body.text, "hello");
    assert_eq!(body.parse_mode, None);
    assert!(!body.link_preview_options.is_disabled);
    assert!(body.link_preview_options.prefer_small_media);
}

#[test]
fn omitted_markup_mode_is_absent_from_payload() {
    let conf = registry();
    let body = build_text_payload(
        &conf,
        &"ops".to_string(),
        &"s3cr3t".to_string(),
        &"hi".to_string(),
        None,
    )
    .unwrap();
    assert!(body.parse_mode.is_none());

    let body = build_text_payload(
        &conf,
        &"ops".to_string(),
        &"s3cr3t".to_string(),
        &"hi".to_string(),
        Some(ParseMode::Markdown),
    )
    .unwrap();
    assert_eq!(body.parse_mode, Some("Markdown".to_string()));
}

#[test]
fn oversized_file_rejected_before_any_other_check() {
    let conf = registry();
    // Even an unknown channel with a wrong secret sees FileTooBig first.
    let err = build_file_payload(
        &conf,
        &"nosuch".to_string(),
        &"bad".to_string(),
        &"cap".to_string(),
        None,
        MAX_FILE_SIZE,
        None,
        None,
    )
    .unwrap_err();
    assert_eq!(err.status, 400);
    assert_eq!(err.code, ErrorCode::FileTooBig);

    let err = build_file_payload(
        &conf,
        &"ops".to_string(),
        &"s3cr3t".to_string(),
        &"cap".to_string(),
        None,
        60_000_000,
        None,
        None,
    )
    .unwrap_err();
    assert_eq!(err.code, ErrorCode::FileTooBig);
}

#[test]
fn file_just_under_limit_builds_form() {
    let conf = registry();
    let form = build_file_payload(
        &conf,
        &"ops".to_string(),
        &"s3cr3t".to_string(),
        &"the report".to_string(),
        Some(ParseMode::Html),
        MAX_FILE_SIZE - 1,
        Some("report.pdf".to_string()),
        Some("application/pdf".to_string()),
    )
    .unwrap();
    assert_eq!(form.chat_id, "-100123");
    assert_eq!(form.caption, "the report");
    assert_eq!(form.parse_mode, Some("HTML".to_string()));
    assert_eq!(form.message_thread_id, Some("7".to_string()));
    assert_eq!(form.file_name, Some("report.pdf".to_string()));
    assert_eq!(form.mime_type, Some("application/pdf".to_string()));
}

#[test]
fn file_relay_wrong_secret_is_not_found() {
    let conf = registry();
    let err = build_file_payload(
        &conf,
        &"ops".to_string(),
        &"bad".to_string(),
        &"cap".to_string(),
        None,
        10,
        None,
        None,
    )
    .unwrap_err();
    assert_eq!(err.status, 404);
    assert_eq!(err.code, ErrorCode::NotFound);
}

#[test]
fn only_status_200_is_success() {
    assert!(matches!(
        classify_response(200, "{\"ok\":true}".to_string()),
        DispatchOutcome::Success
    ));
    for status in [199u16, 201, 204, 400, 403, 404, 500, 502] {
        match classify_response(status, "body".to_string()) {
            DispatchOutcome::Success => panic!("status {} must not be success", status),
            DispatchOutcome::Failure { backend_status, backend_body_excerpt } => {
                assert_eq!(backend_status, status);
                assert_eq!(backend_body_excerpt, "body");
            }
        }
    }
}

#[test]
fn blocking_failure_hides_backend_body() {
    let outcome = classify_response(403, "secret backend internals".to_string());
    let err = caller_result(DispatchMode::Blocking, &outcome).unwrap_err();
    assert_eq!(err.status, 500);
    assert_eq!(err.code, ErrorCode::SendFailed);
    let debug = err.debug.unwrap();
    assert!(!debug.contains("secret backend internals"));
    assert_eq!(debug, "sending message to telegram failed");
}

#[test]
fn blocking_success_is_ok() {
    let outcome = classify_response(200, String::new());
    assert!(caller_result(DispatchMode::Blocking, &outcome).is_ok());
}

#[test]
fn fire_and_forget_caller_sees_success_despite_backend_failure() {
    let conf = registry();
    // Validation alone decides the caller's response...
    let form = build_file_payload(
        &conf,
        &"ops".to_string(),
        &"s3cr3t".to_string(),
        &"cap".to_string(),
        None,
        1024,
        None,
        None,
    );
    assert!(form.is_ok());
    // ...and a later backend failure is swallowed on the detached path.
    let outcome = classify_response(500, "backend down".to_string());
    assert!(caller_result(DispatchMode::Detached, &outcome).is_ok());
}

#[test]
fn parse_mode_wire_strings() {
    assert_eq!(ParseMode::Markdown.as_str(), "Markdown");
    assert_eq!(ParseMode::MarkdownV2.as_str(), "MarkdownV2");
    assert_eq!(ParseMode::Html.as_str(), "HTML");
}
