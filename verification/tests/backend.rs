use richclip::clipboard::{create_backend, Backend, ClipError};

#[test]
fn wayland_is_picked_where_its_display_is_named() {
    assert_eq!(create_backend(true, false), Ok(Backend::Wayland));
    assert_eq!(create_backend(true, true), Ok(Backend::Wayland));
}

#[test]
fn x_is_picked_where_only_its_display_is_named() {
    assert_eq!(create_backend(false, true), Ok(Backend::X));
}

#[test]
fn without_a_display_there_is_no_engine() {
    assert_eq!(create_backend(false, false), Err(ClipError::NoDisplay));
}

#[test]
fn each_failure_has_its_words() {
    assert_eq!(ClipError::NoDisplay.message(), "Could not decide the clip backend");
    assert_eq!(
        ClipError::ProtocolViolation.message(),
        "Unexpected event from the display server"
    );
    assert_eq!(ClipError::NoMatchingType.message(), "No mime-type matches");
}
