use fimo_utils::error_info::ErrorInfo;

#[test]
fn box_error() {
    let error_str = Box::new("my error message");
    let error_info = ErrorInfo::from(error_str.clone());
    let error_info_clone = error_info.clone();

    assert_eq!(*error_info.as_ref(), **error_str);
    assert_eq!(*error_info_clone.as_ref(), **error_str);
}

#[test]
fn error_info_bytes_match_message() {
    let info = ErrorInfo::from(Box::new("héllo"));
    assert_eq!(info.as_str(), "héllo".as_bytes());
}

#[test]
fn raw_round_trip_keeps_message() {
    let info = ErrorInfo::from(Box::new("lost résumé"));
    let raw = info.into_raw();
    assert_eq!(raw.as_slice(), "lost résumé".as_bytes());
    let back = ErrorInfo::from_raw(raw);
    assert_eq!(back.as_ref(), "lost résumé");
}
