use jsbridge::{handle_exception, read_text, Context, Error, RawValue, String};

fn text(ctx: &mut Context, s: &String) -> std::string::String {
    s.to_string(ctx).unwrap()
}

#[test]
fn round_trip_plain_text() {
    let mut ctx = Context::new(1, 1024);
    let s = String::from_str(&mut ctx, "foo bar baz").unwrap();
    assert_eq!(text(&mut ctx, &s), "foo bar baz".to_string());
}

#[test]
fn round_trip_non_ascii_text() {
    let mut ctx = Context::new(1, 1024);
    let host_text = "h\u{e9}llo w\u{f6}rld \u{2713} \u{1f600}";
    let s = String::from_str(&mut ctx, host_text).unwrap();
    assert_eq!(text(&mut ctx, &s), host_text.to_string());
}

#[test]
fn round_trip_empty_text() {
    let mut ctx = Context::new(1, 0);
    let s = String::from_str(&mut ctx, "").unwrap();
    assert_eq!(text(&mut ctx, &s), "".to_string());
}

#[test]
fn string_of_exactly_the_maximum_length_is_built() {
    let mut ctx = Context::new(1, 3);
    let s = String::from_str(&mut ctx, "abc").unwrap();
    assert_eq!(text(&mut ctx, &s), "abc".to_string());
}

#[test]
fn appending_a_suffix_in_the_engine() {
    let mut ctx = Context::new(1, 1024);
    let foo = String::from_str(&mut ctx, "foo").unwrap();
    let bar = String::from_str(&mut ctx, "bar").unwrap();
    let joined = foo.concat(&mut ctx, &bar).unwrap();
    assert_eq!(text(&mut ctx, &joined), "foobar".to_string());
    assert_eq!(text(&mut ctx, &foo), "foo".to_string());
}

#[test]
fn clone_outlives_dropped_first() {
    let mut ctx = Context::new(1, 1024);
    let first = String::from_str(&mut ctx, "shared").unwrap();
    let clone = first.dup(&mut ctx);
    assert!(clone == first);
    first.release(&mut ctx);
    assert_eq!(ctx.live_values(), 1);
    assert_eq!(text(&mut ctx, &clone), "shared".to_string());
    clone.release(&mut ctx);
    assert_eq!(ctx.live_values(), 0);
    assert!(ctx.close());
}

#[test]
fn equal_text_in_two_values_is_not_the_same_reference() {
    let mut ctx = Context::new(1, 1024);
    let a = String::from_str(&mut ctx, "same").unwrap();
    let b = String::from_str(&mut ctx, "same").unwrap();
    assert!(a != b);
    assert!(a.as_value() != b.as_value());
}

#[test]
fn failing_call_gives_engine_exception_and_drains_it() {
    let mut ctx = Context::new(1, 4);
    let err = String::from_str(&mut ctx, "too long").unwrap_err();
    assert_eq!(
        err,
        Error::Exception { message: Some("invalid string length".to_string()) }
    );
    assert!(!ctx.has_exception());
    let s = String::from_str(&mut ctx, "ok").unwrap();
    assert_eq!(text(&mut ctx, &s), "ok".to_string());
    s.release(&mut ctx);
    assert_eq!(ctx.live_values(), 0);
    assert!(ctx.close());
}

#[test]
fn failing_concat_gives_engine_exception() {
    let mut ctx = Context::new(1, 5);
    let a = String::from_str(&mut ctx, "abc").unwrap();
    let b = String::from_str(&mut ctx, "def").unwrap();
    let err = a.concat(&mut ctx, &b).unwrap_err();
    assert!(matches!(err, Error::Exception { message: Some(_) }));
    assert!(!ctx.has_exception());
    assert_eq!(ctx.live_values(), 2);
}

#[test]
fn invalid_utf8_gives_encoding_error() {
    let mut ctx = Context::new(1, 1024);
    let raw = ctx.new_string_len(&[0x66, 0x6f, 0xff, 0x6f]);
    let s = String::from_raw(&mut ctx, raw).unwrap();
    assert_eq!(s.to_string(&mut ctx), Err(Error::Utf8 { valid_up_to: 2 }));
    assert_eq!(ctx.open_buffers(), 0);
}

#[test]
fn lone_surrogate_bytes_give_encoding_error() {
    let mut ctx = Context::new(1, 1024);
    let raw = ctx.new_string_len(&[0x61, 0xed, 0xa0, 0x80]);
    let s = String::from_raw(&mut ctx, raw).unwrap();
    assert_eq!(s.to_string(&mut ctx), Err(Error::Utf8 { valid_up_to: 1 }));
}

#[test]
fn checked_call_passes_a_value_through() {
    let mut ctx = Context::new(1, 1024);
    let raw = ctx.new_string_len(b"xyz");
    assert_eq!(raw, RawValue::Slot(0));
    assert_eq!(handle_exception(&mut ctx, raw), Ok(0));
    assert_eq!(read_text(&mut ctx, 0), Ok("xyz".to_string()));
}

#[test]
fn checked_call_drains_the_sentinel() {
    let mut ctx = Context::new(1, 2);
    let raw = ctx.new_string_len(b"xyz");
    assert_eq!(raw, RawValue::Exception);
    assert!(ctx.has_exception());
    let err = handle_exception(&mut ctx, raw).unwrap_err();
    assert_eq!(
        err,
        Error::Exception { message: Some("invalid string length".to_string()) }
    );
    assert!(!ctx.has_exception());
    assert_eq!(ctx.live_values(), 0);
}

#[test]
fn reading_a_released_value_is_unknown() {
    let mut ctx = Context::new(1, 1024);
    let s = String::from_str(&mut ctx, "gone").unwrap();
    let slot = s.as_value().slot();
    s.release(&mut ctx);
    assert_eq!(read_text(&mut ctx, slot), Err(Error::Unknown));
    assert_eq!(read_text(&mut ctx, 99), Err(Error::Unknown));
}

#[test]
fn teardown_reports_a_reference_that_outlives_it() {
    let mut ctx = Context::new(1, 1024);
    let kept = String::from_str(&mut ctx, "kept").unwrap();
    let dropped = String::from_str(&mut ctx, "dropped").unwrap();
    dropped.release(&mut ctx);
    assert_eq!(ctx.live_values(), 1);
    assert!(kept.as_value().slot() == 0);
    assert!(!ctx.close());
}

#[test]
fn value_remembers_its_context() {
    let mut ctx = Context::new(7, 1024);
    assert_eq!(ctx.id(), 7);
    let s = String::from_str(&mut ctx, "a").unwrap();
    let again = s.dup(&mut ctx);
    assert!(again == s);
    assert_eq!(ctx.live_values(), 1);
}
