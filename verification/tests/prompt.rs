use auto_handoff::prompt::{
    render_preparation_prompt, SessionText, INSTRUCTIONS, METADATA_HEADING,
};
use auto_handoff::text::append_decimal;

const UNKNOWN: SessionText<'static> = SessionText {
    thread_id: None,
    thread_name: None,
    cwd: None,
    rollout_path: None,
};

#[test]
fn unknown_session_has_no_lines_of_its_own() {
    assert_eq!(
        render_preparation_prompt(7, UNKNOWN, 12),
        format!(
            "{INSTRUCTIONS}{METADATA_HEADING}\
             - Context compactions observed: 12 of configured threshold 7\n"
        )
    );
}

#[test]
fn all_parts_are_shown_in_order() {
    let session = SessionText {
        thread_id: Some(" id "),
        thread_name: Some(" name "),
        cwd: Some(""),
        rollout_path: Some(" path "),
    };
    assert_eq!(
        render_preparation_prompt(0, session, 0),
        format!(
            "{INSTRUCTIONS}{METADATA_HEADING}\
             - Previous thread id:  id \n\
             - Previous thread name: name\n\
             - Working directory: \n\
             - Previous rollout path:  path \n\
             - Context compactions observed: 0 of configured threshold 0\n"
        )
    );
}

#[test]
fn blank_name_is_no_name() {
    for name in ["", " ", "\n\u{2028}"] {
        let session = SessionText {
            thread_name: Some(name),
            ..UNKNOWN
        };
        assert_eq!(
            render_preparation_prompt(1, session, 1),
            render_preparation_prompt(1, UNKNOWN, 1)
        );
    }
}

#[test]
fn numbers_are_decimal() {
    for (n, expected) in [
        (0, "0"),
        (9, "9"),
        (10, "10"),
        (99, "99"),
        (100, "100"),
        (1234567890, "1234567890"),
        (u32::MAX, "4294967295"),
    ] {
        let mut text = String::from("n=");
        append_decimal(&mut text, n);
        assert_eq!(text, format!("n={expected}"));
    }
}
