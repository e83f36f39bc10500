use objc::selector::sel_internal;

#[test]
fn test_sel_internal_multi_part_selector() {
    let input = "struct X ( __SEL_START_MARKER__ setObject : forKey : __SEL_END_MARKER__ , 0 )";
    let sd = sel_internal(input.as_bytes()).unwrap();
    assert_eq!(sd.data.as_slice(), "setObject:forKey:\0".as_bytes());
    assert_eq!(sd.len, 18);
}

#[test]
fn test_sel_internal_single_ident() {
    let input = "__SEL_START_MARKER__ description __SEL_END_MARKER__";
    let sd = sel_internal(input.as_bytes()).unwrap();
    assert_eq!(sd.data.as_slice(), "description\0".as_bytes());
    assert_eq!(sd.len, 12);
}

#[test]
fn test_sel_internal_empty_body() {
    let input = "__SEL_START_MARKER__ \t\n __SEL_END_MARKER__";
    let sd = sel_internal(input.as_bytes()).unwrap();
    assert_eq!(sd.data.as_slice(), "\0".as_bytes());
    assert_eq!(sd.len, 1);
}

#[test]
fn test_sel_internal_takes_last_end_marker() {
    let input = "__SEL_START_MARKER__ a __SEL_END_MARKER__ b __SEL_END_MARKER__";
    let sd = sel_internal(input.as_bytes()).unwrap();
    assert_eq!(sd.data.as_slice(), "a__SEL_END_MARKER__b\0".as_bytes());
    assert_eq!(sd.len, 21);
}

#[test]
fn test_sel_internal_missing_start_marker() {
    assert!(sel_internal("description __SEL_END_MARKER__".as_bytes()).is_none());
}

#[test]
fn test_sel_internal_missing_end_marker() {
    assert!(sel_internal("__SEL_START_MARKER__ description".as_bytes()).is_none());
}

#[test]
fn test_sel_internal_end_before_start() {
    assert!(sel_internal("__SEL_END_MARKER__ x __SEL_START_MARKER__".as_bytes()).is_none());
}
