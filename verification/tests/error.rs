use album_sync::error::{ErrorKind, Operation, Scope, SyncError};
use album_sync::text::{chars_of, find_in, to_decimal};

fn remote(operation: Operation) -> SyncError {
    SyncError::RemoteStatus {
        operation,
        album: Some("Holidays".to_string()),
        subject: "a.jpg".to_string(),
        status: 503,
        body: "try later".to_string(),
    }
}

#[test]
fn scope_follows_the_kind_of_failure() {
    assert_eq!(
        SyncError::UnknownPeer { peer: "a".to_string(), unknown: "b".to_string() }.scope(),
        Scope::Run
    );
    assert_eq!(SyncError::InvalidShareLink { link: "x".to_string() }.scope(), Scope::Run);
    assert_eq!(remote(Operation::Resolve).scope(), Scope::Edge);
    assert_eq!(remote(Operation::List).scope(), Scope::Edge);
    assert_eq!(remote(Operation::Download).scope(), Scope::Asset);
    assert_eq!(remote(Operation::Upload).scope(), Scope::Asset);
    assert_eq!(remote(Operation::Attach).scope(), Scope::Asset);
    for (operation, scope) in [
        (Operation::Resolve, Scope::Edge),
        (Operation::List, Scope::Edge),
        (Operation::Download, Scope::Asset),
        (Operation::Upload, Scope::Asset),
        (Operation::Attach, Scope::Asset),
    ] {
        let error = SyncError::RemoteFailure {
            operation,
            album: None,
            subject: "a.jpg".to_string(),
            detail: "reset".to_string(),
        };
        assert_eq!(error.scope(), scope);
    }
    assert_eq!(
        SyncError::Staging { file_name: "a.jpg".to_string(), detail: "full".to_string() }.scope(),
        Scope::Asset
    );
}

#[test]
fn messages_name_what_failed() {
    assert_eq!(
        SyncError::UnknownPeer { peer: "alice".to_string(), unknown: "zed".to_string() }.message(),
        "Peer alice syncs with unknown peer zed"
    );
    assert_eq!(
        SyncError::InvalidShareLink { link: "https://x".to_string() }.message(),
        "Invalid share link: https://x"
    );
    assert_eq!(
        remote(Operation::Download).message(),
        "Download failed for a.jpg in album Holidays with status 503: try later"
    );
    assert_eq!(
        remote(Operation::Upload).message(),
        "Upload failed for a.jpg in album Holidays with status 503: try later"
    );
    assert_eq!(
        remote(Operation::Attach).message(),
        "Adding to the album failed for a.jpg in album Holidays with status 503: try later"
    );
    assert_eq!(
        remote(Operation::Resolve).message(),
        "Resolving the share link failed for a.jpg in album Holidays with status 503: try later"
    );
    assert_eq!(
        SyncError::RemoteFailure {
            operation: Operation::List,
            album: Some("Holidays".to_string()),
            subject: "https://photos.example.com".to_string(),
            detail: "connection refused".to_string(),
        }
        .message(),
        "Listing the album failed for https://photos.example.com in album Holidays: connection refused"
    );
    assert_eq!(
        SyncError::RemoteFailure {
            operation: Operation::Resolve,
            album: None,
            subject: "https://photos.example.com".to_string(),
            detail: "connection refused".to_string(),
        }
        .message(),
        "Resolving the share link failed for https://photos.example.com: connection refused"
    );
    assert_eq!(
        SyncError::RemoteStatus {
            operation: Operation::Resolve,
            album: None,
            subject: "https://photos.example.com".to_string(),
            status: 401,
            body: "bad key".to_string(),
        }
        .message(),
        "Resolving the share link failed for https://photos.example.com with status 401: bad key"
    );
    assert_eq!(
        SyncError::Staging { file_name: "a.jpg".to_string(), detail: "disk full".to_string() }
            .message(),
        "Staging failed for a.jpg: disk full"
    );
}

#[test]
fn operation_names() {
    assert_eq!(Operation::Resolve.name(), "Resolving the share link");
    assert_eq!(Operation::List.name(), "Listing the album");
    assert_eq!(Operation::Download.name(), "Download");
    assert_eq!(Operation::Upload.name(), "Upload");
    assert_eq!(Operation::Attach.name(), "Adding to the album");
}

#[test]
fn clone_of_an_error_is_equal_to_it() {
    let errors = vec![
        SyncError::UnknownPeer { peer: "a".to_string(), unknown: "b".to_string() },
        SyncError::InvalidShareLink { link: "x".to_string() },
        remote(Operation::Attach),
        SyncError::RemoteFailure {
            operation: Operation::Upload,
            album: Some("a".to_string()),
            subject: "s".to_string(),
            detail: "d".to_string(),
        },
        SyncError::RemoteFailure {
            operation: Operation::Resolve,
            album: None,
            subject: "s".to_string(),
            detail: "d".to_string(),
        },
        SyncError::Staging { file_name: "f".to_string(), detail: "d".to_string() },
    ];
    for error in &errors {
        assert_eq!(&error.clone(), error);
    }
}

#[test]
fn decimal_writes_numbers_without_leading_zeros() {
    assert_eq!(to_decimal(0), "0");
    assert_eq!(to_decimal(7), "7");
    assert_eq!(to_decimal(9), "9");
    assert_eq!(to_decimal(10), "10");
    assert_eq!(to_decimal(404), "404");
    assert_eq!(to_decimal(1234567890), "1234567890");
    assert_eq!(to_decimal(u64::MAX), "18446744073709551615");
    for number in 0..2000u64 {
        assert_eq!(to_decimal(number), number.to_string());
    }
}

#[test]
fn find_gives_the_leftmost_position_from_the_start_given() {
    let text = chars_of("abcabcabc");
    let pattern = chars_of("bc");
    assert_eq!(find_in(&text, &pattern, 0), Some(1));
    assert_eq!(find_in(&text, &pattern, 1), Some(1));
    assert_eq!(find_in(&text, &pattern, 2), Some(4));
    assert_eq!(find_in(&text, &pattern, 7), Some(7));
    assert_eq!(find_in(&text, &pattern, 8), None);
    assert_eq!(find_in(&text, &pattern, 9), None);
    assert_eq!(find_in(&text, &pattern, 100), None);
    assert_eq!(find_in(&text, &chars_of("abcabcabcd"), 0), None);
    assert_eq!(find_in(&text, &chars_of("cab"), 0), Some(2));
    assert_eq!(find_in(&text, &chars_of("x"), 0), None);
}

#[test]
fn empty_pattern_stands_everywhere() {
    let text = chars_of("ab");
    let empty = chars_of("");
    assert_eq!(find_in(&text, &empty, 0), Some(0));
    assert_eq!(find_in(&text, &empty, 1), Some(1));
    assert_eq!(find_in(&text, &empty, 2), Some(2));
    assert_eq!(find_in(&text, &empty, 3), None);
    assert_eq!(find_in(&empty, &empty, 0), Some(0));
}

#[test]
fn chars_of_gives_the_characters() {
    assert_eq!(chars_of("héllo"), vec!['h', 'é', 'l', 'l', 'o']);
    assert_eq!(chars_of(""), Vec::<char>::new());
}

#[test]
fn kind_follows_the_variant() {
    assert_eq!(
        SyncError::UnknownPeer { peer: "a".to_string(), unknown: "b".to_string() }.kind(),
        ErrorKind::Config
    );
    assert_eq!(
        SyncError::InvalidShareLink { link: "x".to_string() }.kind(),
        ErrorKind::ReferenceParse
    );
    assert_eq!(remote(Operation::List).kind(), ErrorKind::Remote);
    assert_eq!(
        SyncError::RemoteFailure {
            operation: Operation::Upload,
            album: None,
            subject: "s".to_string(),
            detail: "d".to_string(),
        }
        .kind(),
        ErrorKind::Remote
    );
    assert_eq!(
        SyncError::Staging { file_name: "f".to_string(), detail: "d".to_string() }.kind(),
        ErrorKind::LocalIo
    );
}
