use openweather::error::{ClientError, ErrorKind};

#[test]
fn new_keeps_kind_and_message() {
    let e = ClientError::new(ErrorKind::Api, String::from("city not found"));
    assert_eq!(e.kind, ErrorKind::Api);
    assert_eq!(e.message, "city not found");
}

#[test]
fn message_is_the_text_carried() {
    for kind in [ErrorKind::InvalidUrl, ErrorKind::Transport, ErrorKind::Api, ErrorKind::Decode] {
        let e = ClientError::new(kind, String::from("{\"cod\":\"404\"}"));
        assert_eq!(e.message(), "{\"cod\":\"404\"}");
    }
}

#[test]
fn empty_message_stays_empty() {
    assert_eq!(ClientError::new(ErrorKind::Transport, String::new()).message(), "");
}
