use album_sync::status::is_success;

#[test]
fn success_is_the_range_from_200_to_299() {
    assert!(is_success(200));
    assert!(is_success(201));
    assert!(is_success(204));
    assert!(is_success(299));
    assert!(!is_success(199));
    assert!(!is_success(300));
    assert!(!is_success(404));
    assert!(!is_success(500));
}

#[test]
fn codes_that_are_no_status_are_no_success() {
    assert!(!is_success(0));
    assert!(!is_success(1));
    assert!(!is_success(99));
    assert!(!is_success(1000));
    assert!(!is_success(u16::MAX));
}

#[test]
fn success_holds_of_exactly_one_hundred_codes() {
    let mut count = 0;
    for code in 0..=u16::MAX {
        if is_success(code) {
            assert!((200..300).contains(&code));
            count += 1;
        }
    }
    assert_eq!(count, 100);
}
