use album_sync::asset::Asset;
use album_sync::error::{Operation, SyncError};
use album_sync::link::{ShareReference, SharedLink};
use album_sync::transfer::{Phase, Reply, Request, Transfer, TransferOutcome};

fn asset(file_name: &str) -> Asset {
    Asset {
        id: "asset-1".to_string(),
        checksum: "c1".to_string(),
        file_name: file_name.to_string(),
        device_asset_id: "device-asset".to_string(),
        device_id: "device".to_string(),
        file_created_at: "2024-01-01T00:00:00Z".to_string(),
        file_modified_at: "2024-01-02T00:00:00Z".to_string(),
        path: None,
    }
}

fn source() -> SharedLink {
    let reference = ShareReference::parse("https://source.example/share/skey").unwrap();
    SharedLink::new(reference, "source-album".to_string(), "Source".to_string())
}

fn destination() -> SharedLink {
    let reference = ShareReference::parse("https://dest.example/share/dkey").unwrap();
    SharedLink::new(reference, "dest-album".to_string(), "Destination".to_string())
}

fn downloaded(status: u16) -> Reply {
    Reply::Downloaded { status, content_disposition: None, body: String::new() }
}

fn step(transfer: &mut Transfer, reply: Reply) {
    transfer.advance(reply, &source(), &destination());
}

fn staged_transfer() -> Transfer {
    let mut transfer = Transfer::new(asset("a.jpg"));
    step(&mut transfer, downloaded(200));
    step(&mut transfer, Reply::Staged { path: "/staging/a.jpg".to_string() });
    transfer
}

#[test]
fn transfer_goes_from_download_to_attachment() {
    let mut transfer = Transfer::new(asset("a.jpg"));
    assert_eq!(transfer.phase, Phase::Downloading);
    assert_eq!(transfer.outcome(), None);
    assert_eq!(
        transfer.request(&source(), &destination()),
        Some(Request::Download {
            url: "https://source.example/api/assets/asset-1/original?key=skey&edited=true"
                .to_string()
        })
    );

    step(&mut transfer, downloaded(200));
    assert_eq!(transfer.phase, Phase::Staging { file_name: "a.jpg".to_string() });
    assert_eq!(
        transfer.request(&source(), &destination()),
        Some(Request::Stage { file_name: "a.jpg".to_string() })
    );
    assert_eq!(transfer.asset.path, None);

    step(&mut transfer, Reply::Staged { path: "/staging/a.jpg".to_string() });
    assert_eq!(transfer.phase, Phase::Uploading { path: "/staging/a.jpg".to_string() });
    assert_eq!(transfer.asset.path, Some("/staging/a.jpg".to_string()));
    assert_eq!(
        transfer.request(&source(), &destination()),
        Some(Request::Upload {
            url: "https://dest.example/api/assets?key=dkey".to_string(),
            device_id: "device".to_string(),
            device_asset_id: "device-asset".to_string(),
            file_created_at: "2024-01-01T00:00:00Z".to_string(),
            file_modified_at: "2024-01-02T00:00:00Z".to_string(),
            path: "/staging/a.jpg".to_string(),
        })
    );

    step(&mut transfer, Reply::Uploaded {
        status: 201,
        id: Some("new-7".to_string()),
        body: String::new(),
    });
    assert_eq!(transfer.phase, Phase::Attaching { new_id: "new-7".to_string() });
    assert_eq!(
        transfer.request(&source(), &destination()),
        Some(Request::Attach {
            url: "https://dest.example/api/albums/dest-album/assets?key=dkey".to_string(),
            asset_id: "new-7".to_string(),
        })
    );
    assert_eq!(transfer.outcome(), None);

    step(&mut transfer, Reply::Attached { status: 200, body: String::new() });
    assert_eq!(transfer.phase, Phase::Succeeded { new_id: "new-7".to_string() });
    assert_eq!(transfer.request(&source(), &destination()), None);
    assert_eq!(transfer.outcome(), Some(TransferOutcome::Success { new_id: "new-7".to_string() }));

    // Everything but the staging path is as it was.
    let mut expected = asset("a.jpg");
    expected.path = Some("/staging/a.jpg".to_string());
    assert_eq!(transfer.asset, expected);
}

#[test]
fn staged_name_comes_from_the_header_when_none_is_recorded() {
    let mut transfer = Transfer::new(asset(""));
    step(&mut transfer, Reply::Downloaded {
        status: 200,
        content_disposition: Some("attachment; filename*=UTF-8''vacation.jpg".to_string()),
        body: String::new(),
    });
    assert_eq!(transfer.phase, Phase::Staging { file_name: "vacation.jpg".to_string() });

    let mut transfer = Transfer::new(asset(""));
    step(&mut transfer, downloaded(200));
    assert_eq!(transfer.phase, Phase::Staging { file_name: "asset-1".to_string() });

    let mut transfer = Transfer::new(asset("recorded.jpg"));
    step(&mut transfer, Reply::Downloaded {
        status: 200,
        content_disposition: Some("attachment; filename*=UTF-8''vacation.jpg".to_string()),
        body: String::new(),
    });
    assert_eq!(transfer.phase, Phase::Staging { file_name: "recorded.jpg".to_string() });
}

#[test]
fn refused_download_ends_the_transfer() {
    let mut transfer = Transfer::new(asset("a.jpg"));
    step(&mut transfer, Reply::Downloaded {
        status: 404,
        content_disposition: None,
        body: "no such asset".to_string(),
    });
    let error = SyncError::RemoteStatus {
        operation: Operation::Download,
        album: Some("Source".to_string()),
        subject: "a.jpg".to_string(),
        status: 404,
        body: "no such asset".to_string(),
    };
    assert_eq!(transfer.phase, Phase::Failed { error: error.clone() });
    assert_eq!(transfer.outcome(), Some(TransferOutcome::Failure { error }));
    assert_eq!(transfer.request(&source(), &destination()), None);
}

#[test]
fn status_at_the_edges_of_the_success_range() {
    for (status, goes_on) in [(199, false), (200, true), (299, true), (300, false)] {
        let mut transfer = Transfer::new(asset("a.jpg"));
        step(&mut transfer, downloaded(status));
        assert_eq!(
            transfer.phase == Phase::Staging { file_name: "a.jpg".to_string() },
            goes_on,
            "status {status}"
        );
    }
}

#[test]
fn failed_download_ends_the_transfer() {
    let mut transfer = Transfer::new(asset("a.jpg"));
    step(&mut transfer, Reply::Failed { detail: "connection reset".to_string() });
    assert_eq!(
        transfer.outcome(),
        Some(TransferOutcome::Failure {
            error: SyncError::RemoteFailure {
                operation: Operation::Download,
                album: Some("Source".to_string()),
                subject: "a.jpg".to_string(),
                detail: "connection reset".to_string(),
            }
        })
    );
}

#[test]
fn failed_staging_ends_the_transfer() {
    let mut transfer = Transfer::new(asset("a.jpg"));
    step(&mut transfer, downloaded(200));
    step(&mut transfer, Reply::Failed { detail: "disk full".to_string() });
    assert_eq!(
        transfer.outcome(),
        Some(TransferOutcome::Failure {
            error: SyncError::Staging {
                file_name: "a.jpg".to_string(),
                detail: "disk full".to_string(),
            }
        })
    );
    assert_eq!(transfer.asset.path, None);
}

#[test]
fn refused_upload_ends_the_transfer_with_the_body() {
    let mut transfer = staged_transfer();
    step(&mut transfer, Reply::Uploaded {
        status: 413,
        id: Some("ignored".to_string()),
        body: "too large".to_string(),
    });
    assert_eq!(
        transfer.outcome(),
        Some(TransferOutcome::Failure {
            error: SyncError::RemoteStatus {
                operation: Operation::Upload,
                album: Some("Destination".to_string()),
                subject: "a.jpg".to_string(),
                status: 413,
                body: "too large".to_string(),
            }
        })
    );
}

#[test]
fn upload_without_identifier_ends_the_transfer() {
    let mut transfer = staged_transfer();
    step(&mut transfer, Reply::Uploaded { status: 200, id: None, body: "not json".to_string() });
    assert_eq!(
        transfer.outcome(),
        Some(TransferOutcome::Failure {
            error: SyncError::RemoteFailure {
                operation: Operation::Upload,
                album: Some("Destination".to_string()),
                subject: "a.jpg".to_string(),
                detail: "not json".to_string(),
            }
        })
    );
}

#[test]
fn failed_upload_ends_the_transfer() {
    let mut transfer = staged_transfer();
    step(&mut transfer, Reply::Failed { detail: "timeout".to_string() });
    assert_eq!(
        transfer.outcome(),
        Some(TransferOutcome::Failure {
            error: SyncError::RemoteFailure {
                operation: Operation::Upload,
                album: Some("Destination".to_string()),
                subject: "a.jpg".to_string(),
                detail: "timeout".to_string(),
            }
        })
    );
}

#[test]
fn refused_attachment_ends_the_transfer_with_the_body() {
    let mut transfer = staged_transfer();
    step(&mut transfer, Reply::Uploaded { status: 200, id: Some("n".to_string()), body: String::new() });
    step(&mut transfer, Reply::Attached { status: 400, body: "bad album".to_string() });
    assert_eq!(
        transfer.outcome(),
        Some(TransferOutcome::Failure {
            error: SyncError::RemoteStatus {
                operation: Operation::Attach,
                album: Some("Destination".to_string()),
                subject: "a.jpg".to_string(),
                status: 400,
                body: "bad album".to_string(),
            }
        })
    );
}

#[test]
fn failed_attachment_ends_the_transfer() {
    let mut transfer = staged_transfer();
    step(&mut transfer, Reply::Uploaded { status: 200, id: Some("n".to_string()), body: String::new() });
    step(&mut transfer, Reply::Failed { detail: "gone".to_string() });
    assert_eq!(
        transfer.outcome(),
        Some(TransferOutcome::Failure {
            error: SyncError::RemoteFailure {
                operation: Operation::Attach,
                album: Some("Destination".to_string()),
                subject: "a.jpg".to_string(),
                detail: "gone".to_string(),
            }
        })
    );
}

#[test]
fn reply_that_does_not_answer_the_request_changes_nothing() {
    let mut transfer = Transfer::new(asset("a.jpg"));
    step(&mut transfer, Reply::Staged { path: "/x".to_string() });
    assert_eq!(transfer, Transfer::new(asset("a.jpg")));
    step(&mut transfer, Reply::Uploaded { status: 200, id: Some("n".to_string()), body: String::new() });
    assert_eq!(transfer, Transfer::new(asset("a.jpg")));
    step(&mut transfer, Reply::Attached { status: 200, body: String::new() });
    assert_eq!(transfer, Transfer::new(asset("a.jpg")));

    step(&mut transfer, downloaded(200));
    step(&mut transfer, downloaded(500));
    assert_eq!(transfer.phase, Phase::Staging { file_name: "a.jpg".to_string() });

    let mut transfer = staged_transfer();
    step(&mut transfer, Reply::Staged { path: "/elsewhere".to_string() });
    assert_eq!(transfer, staged_transfer());
    step(&mut transfer, Reply::Attached { status: 200, body: String::new() });
    assert_eq!(transfer, staged_transfer());
}

#[test]
fn ended_transfer_stays_as_it_is() {
    let mut transfer = Transfer::new(asset("a.jpg"));
    step(&mut transfer, downloaded(500));
    let ended = transfer.outcome();
    assert!(ended.is_some());
    step(&mut transfer, downloaded(200));
    step(&mut transfer, Reply::Failed { detail: "late".to_string() });
    step(&mut transfer, Reply::Staged { path: "/x".to_string() });
    assert_eq!(transfer.outcome(), ended);
    assert_eq!(transfer.asset.path, None);

    let mut transfer = staged_transfer();
    step(&mut transfer, Reply::Uploaded { status: 200, id: Some("n".to_string()), body: String::new() });
    step(&mut transfer, Reply::Attached { status: 204, body: String::new() });
    step(&mut transfer, Reply::Failed { detail: "late".to_string() });
    assert_eq!(transfer.outcome(), Some(TransferOutcome::Success { new_id: "n".to_string() }));
}

#[test]
fn refused_attachment_names_the_album_in_its_message() {
    let reference = ShareReference::parse("https://dest.example/share/dkey").unwrap();
    let holiday = SharedLink::new(reference, "dest-album".to_string(), "Holiday".to_string());
    let mut transfer = Transfer::new(asset("a.jpg"));
    transfer.advance(downloaded(200), &source(), &holiday);
    transfer.advance(Reply::Staged { path: "/staging/a.jpg".to_string() }, &source(), &holiday);
    transfer.advance(
        Reply::Uploaded { status: 200, id: Some("n".to_string()), body: String::new() },
        &source(),
        &holiday,
    );
    transfer.advance(Reply::Attached { status: 500, body: "no".to_string() }, &source(), &holiday);
    let Some(TransferOutcome::Failure { error }) = transfer.outcome() else {
        panic!("the transfer did not fail");
    };
    let message = error.message();
    assert_eq!(message, "Adding to the album failed for a.jpg in album Holiday with status 500: no");
    assert!(message.contains("Holiday"));
    assert!(message.contains("no"));
}

#[test]
fn failure_of_an_asset_without_file_name_names_its_identifier() {
    let mut transfer = Transfer::new(asset(""));
    transfer.advance(
        Reply::Downloaded { status: 404, content_disposition: None, body: "gone".to_string() },
        &source(),
        &destination(),
    );
    assert_eq!(
        transfer.outcome(),
        Some(TransferOutcome::Failure {
            error: SyncError::RemoteStatus {
                operation: Operation::Download,
                album: Some("Source".to_string()),
                subject: "asset-1".to_string(),
                status: 404,
                body: "gone".to_string(),
            }
        })
    );

    let mut transfer = Transfer::new(asset(""));
    step(&mut transfer, Reply::Failed { detail: "reset".to_string() });
    assert_eq!(
        transfer.outcome(),
        Some(TransferOutcome::Failure {
            error: SyncError::RemoteFailure {
                operation: Operation::Download,
                album: Some("Source".to_string()),
                subject: "asset-1".to_string(),
                detail: "reset".to_string(),
            }
        })
    );
}

#[test]
fn name_that_is_no_plain_file_name_is_not_staged() {
    for name in ["../escape.jpg", "/etc/passwd", "sub/dir.jpg", "..", ".", "a\\b.jpg", "x/.."] {
        let mut transfer = Transfer::new(asset(name));
        step(&mut transfer, downloaded(200));
        assert_eq!(
            transfer.phase,
            Phase::Failed {
                error: SyncError::Staging {
                    file_name: name.to_string(),
                    detail: "not a plain file name".to_string(),
                }
            },
            "name {name}"
        );
        assert_eq!(transfer.request(&source(), &destination()), None);
    }

    // The name that the header carries is held to the same rule.
    let mut transfer = Transfer::new(asset(""));
    transfer.advance(
        Reply::Downloaded {
            status: 200,
            content_disposition: Some("filename*=UTF-8''../../x.jpg".to_string()),
            body: String::new(),
        },
        &source(),
        &destination(),
    );
    assert_eq!(
        transfer.phase,
        Phase::Failed {
            error: SyncError::Staging {
                file_name: "../../x.jpg".to_string(),
                detail: "not a plain file name".to_string(),
            }
        }
    );

    // Dots inside a name are no harm.
    for name in ["..a", "a..", ".hidden", "a.b.c", "..."] {
        let mut transfer = Transfer::new(asset(name));
        step(&mut transfer, downloaded(200));
        assert_eq!(transfer.phase, Phase::Staging { file_name: name.to_string() });
    }
}
