use xplane_web_api::cli::{
    base_url_is_blank, check_base_url, BaseUrlError, filter_name_param, is_white_space_char, select_activate_command_body,
    select_json_body, ActivateCommandBody, JsonBodyInputError, JsonBodySource,
};

#[test]
fn inline_body_is_selected() {
    assert_eq!(
        select_json_body(Some("{}"), None::<&str>, "start-flight"),
        Ok(JsonBodySource::Inline("{}"))
    );
}

#[test]
fn file_body_is_selected() {
    assert_eq!(
        select_json_body(None::<&str>, Some("body.json"), "update-flight"),
        Ok(JsonBodySource::File("body.json"))
    );
}

#[test]
fn missing_body_is_refused() {
    assert_eq!(
        select_json_body(None::<&str>, None::<&str>, "set-dataref"),
        Err(JsonBodyInputError::MissingJsonBody { context: "set-dataref" })
    );
}

#[test]
fn conflicting_body_inputs_are_refused() {
    assert_eq!(
        select_json_body(Some("{}"), Some("body.json"), "start-flight"),
        Err(JsonBodyInputError::ConflictingJsonBodyInputs { context: "start-flight" })
    );
}

#[test]
fn duration_wins_for_activate_command() {
    assert_eq!(
        select_activate_command_body(Some(1.5f64), None::<&str>, None::<&str>, "activate-command"),
        Ok(ActivateCommandBody::Duration(1.5f64))
    );
}

#[test]
fn activate_command_without_duration_needs_a_body() {
    assert_eq!(
        select_activate_command_body(None::<f64>, None::<&str>, None::<&str>, "activate-command"),
        Err(JsonBodyInputError::MissingJsonBody { context: "activate-command" })
    );
    assert_eq!(
        select_activate_command_body(None::<f64>, Some("{}"), None::<&str>, "activate-command"),
        Ok(ActivateCommandBody::Json(JsonBodySource::Inline("{}")))
    );
}

#[test]
fn blank_base_urls() {
    assert!(base_url_is_blank(""));
    assert!(base_url_is_blank("   "));
    assert!(base_url_is_blank("\t\n\u{3000}\u{a0}"));
    assert!(!base_url_is_blank(" http://localhost:8086 "));
    assert!(!base_url_is_blank("x"));
}

#[test]
fn blank_agrees_with_trim() {
    for text in ["", " ", "a", " a ", "\u{85}", "\u{200b}", "\u{2007}x", "\u{feff}"] {
        assert_eq!(base_url_is_blank(text), text.trim().is_empty(), "{text:?}");
    }
}

#[test]
fn white_space_agrees_with_std() {
    for code in 0u32..0x11000 {
        if let Some(c) = char::from_u32(code) {
            assert_eq!(is_white_space_char(c), c.is_whitespace(), "{code:#x}");
        }
    }
}

#[test]
fn empty_name_filter_is_not_sent() {
    let empty: Vec<String> = vec![];
    assert_eq!(filter_name_param(&empty), None);
    let names = vec!["sim/".to_string()];
    assert_eq!(filter_name_param(&names), Some(&names));
}

#[test]
fn body_input_error_messages() {
    assert_eq!(
        JsonBodyInputError::MissingJsonBody { context: "start-flight" }.message(),
        "Missing start-flight body. Provide --json-body or --json-body-file"
    );
    assert_eq!(
        JsonBodyInputError::ConflictingJsonBodyInputs { context: "update-flight" }.message(),
        "Conflicting update-flight body inputs. Provide either --json-body or --json-body-file"
    );
}

#[test]
fn empty_base_url_is_refused() {
    assert_eq!(check_base_url(""), Err(BaseUrlError::EmptyBaseUrl));
    assert_eq!(check_base_url("   "), Err(BaseUrlError::EmptyBaseUrl));
    assert_eq!(check_base_url("http://localhost:8086"), Ok(()));
    assert_eq!(BaseUrlError::EmptyBaseUrl.message(), "--base-url must not be empty");
}
