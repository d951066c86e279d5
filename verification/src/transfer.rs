//! The transfer of one asset: download, staging, upload, attachment.
//!
//! A `Transfer` never touches the network or the disk.  It says which
//! request is pending, the caller carries the request out and reports the
//! reply, and the transfer moves on.  A reply that does not answer the
//! pending request changes nothing.

use crate::asset::{label_of, Asset};
use crate::error::{lemma_message_holds_context, message_of, Operation, SyncError};
use crate::text::holds;
use crate::filename::{is_plain_name, plain_name, resolve_file_name, staged_name};
use crate::link::{attach_address, download_address, upload_address, SharedLink};
use crate::status::{in_success_range, is_success};
use vstd::prelude::*;

verus! {

/// What the caller is asked to do for an asset.
#[derive(Debug, PartialEq, Eq)]
pub enum Request {
    /// Fetch the bytes of the asset from `url`.
    Download { url: String },
    /// Write the fetched bytes to a file named `file_name` in the staging
    /// directory.
    Stage { file_name: String },
    /// Send the staged file at `path` to `url` as a new asset, with the
    /// device and time fields of the asset.
    Upload {
        url: String,
        device_id: String,
        device_asset_id: String,
        file_created_at: String,
        file_modified_at: String,
        path: String,
    },
    /// Add the uploaded asset `asset_id` to the album behind `url`.
    Attach { url: String, asset_id: String },
}

/// What became of a request.
#[derive(Debug, PartialEq, Eq)]
pub enum Reply {
    /// The service answered a download with `status`.  `content_disposition`
    /// is that header of the answer, if it had one; `body` is the text that
    /// came with a refusal.
    Downloaded { status: u16, content_disposition: Option<String>, body: String },
    /// The bytes were written to `path`.
    Staged { path: String },
    /// The service answered an upload with `status`.  `id` is the
    /// identifier it gave the new asset, if one could be read; `body` is
    /// the text that came with a refusal.
    Uploaded { status: u16, id: Option<String>, body: String },
    /// The service answered an attachment with `status` and `body`.
    Attached { status: u16, body: String },
    /// The request could not be carried out, or its answer not be read.
    Failed { detail: String },
}

/// How the transfer of one asset ended.
#[derive(Debug, PartialEq, Eq)]
pub enum TransferOutcome {
    /// The asset is in the destination album under `new_id`.
    Success { new_id: String },
    /// The transfer stopped with `error`.
    Failure { error: SyncError },
}

impl Clone for TransferOutcome {
    fn clone(&self) -> (res: Self)
        ensures
            res == *self,
    {
        match self {
            TransferOutcome::Success { new_id } => TransferOutcome::Success {
                new_id: new_id.clone(),
            },
            TransferOutcome::Failure { error } => TransferOutcome::Failure { error: error.clone() },
        }
    }
}

/// Where the transfer of an asset stands.
#[derive(Debug, PartialEq, Eq)]
pub enum Phase {
    /// The bytes are being fetched from the source.
    Downloading,
    /// The bytes are being written to the staging file `file_name`.
    Staging { file_name: String },
    /// The staged file at `path` is being sent to the destination.
    Uploading { path: String },
    /// The uploaded asset `new_id` is being added to the destination album.
    Attaching { new_id: String },
    /// The asset is in the destination album under `new_id`.
    Succeeded { new_id: String },
    /// The transfer stopped with `error`.
    Failed { error: SyncError },
}

/// The transfer of one asset from a source album to a destination album.
#[derive(Debug, PartialEq, Eq)]
pub struct Transfer {
    /// The asset; its `path` is set once its bytes are staged.
    pub asset: Asset,
    /// Where the transfer stands.
    pub phase: Phase,
}

/// The view of an optional header.
pub open spec fn header_view(header: Option<String>) -> Option<Seq<char>> {
    match header {
        Some(text) => Some(text@),
        None => None,
    }
}

/// Whether `request` is what `transfer` waits for, with `source` as the
/// album that holds the asset and `destination` as the album that lacks it.
pub open spec fn pending(
    transfer: Transfer,
    source: SharedLink,
    destination: SharedLink,
    request: Option<Request>,
) -> bool {
    match transfer.phase {
        Phase::Downloading => {
            &&& request matches Some(Request::Download { url })
            &&& url@ == download_address(source.base_url@, transfer.asset.id@, source.key@)
        },
        Phase::Staging { file_name } => {
            &&& request matches Some(Request::Stage { file_name: wanted })
            &&& wanted == file_name
        },
        Phase::Uploading { path } => {
            &&& request matches Some(
                Request::Upload {
                    url,
                    device_id,
                    device_asset_id,
                    file_created_at,
                    file_modified_at,
                    path: staged,
                },
            )
            &&& url@ == upload_address(destination.base_url@, destination.key@)
            &&& device_id == transfer.asset.device_id
            &&& device_asset_id == transfer.asset.device_asset_id
            &&& file_created_at == transfer.asset.file_created_at
            &&& file_modified_at == transfer.asset.file_modified_at
            &&& staged == path
        },
        Phase::Attaching { new_id } => {
            &&& request matches Some(Request::Attach { url, asset_id })
            &&& url@ == attach_address(
                destination.base_url@,
                destination.album.id@,
                destination.key@,
            )
            &&& asset_id == new_id
        },
        Phase::Succeeded { .. } | Phase::Failed { .. } => request is None,
    }
}

/// The phase of a transfer of `asset` that ended because the service
/// refused `operation` with `status` and `body`; `album` is the display
/// name of the album that the call was about.
pub open spec fn refused(
    operation: Operation,
    album: String,
    asset: Asset,
    status: u16,
    body: String,
) -> Phase {
    Phase::Failed {
        error: SyncError::RemoteStatus {
            operation,
            album: Some(album),
            subject: label_of(asset),
            status,
            body,
        },
    }
}

/// The phase of a transfer of `asset` that ended because `operation` got no
/// usable answer; `album` is the display name of the album that the call
/// was about.
pub open spec fn broken(operation: Operation, album: String, asset: Asset, detail: String) -> Phase {
    Phase::Failed {
        error: SyncError::RemoteFailure {
            operation,
            album: Some(album),
            subject: label_of(asset),
            detail,
        },
    }
}

/// What the failure of a staged name that is no plain file name says.
pub open spec fn unsafe_name_detail() -> Seq<char> {
    "not a plain file name"@
}

/// Whether `after` is the phase that follows `before` on `reply`, for the
/// transfer of `asset` from the album named `source_album` to the album
/// named `destination_album`.
///
/// A download or an upload that the service refuses, an attachment that it
/// refuses, a request that fails and an upload whose answer names no asset
/// each end the transfer with the failure that names the step, the asset
/// and the album: the source album for the download, the destination album
/// for the upload and the attachment.  A download whose staged name is no
/// plain file name ends the transfer before anything is staged.  A reply
/// that does not belong to the phase leaves it as it is.
pub open spec fn follows(
    asset: Asset,
    source_album: String,
    destination_album: String,
    before: Phase,
    reply: Reply,
    after: Phase,
) -> bool {
    match (before, reply) {
        (Phase::Downloading, Reply::Downloaded { status, content_disposition, body }) => {
            let name = staged_name(asset.file_name@, asset.id@, header_view(content_disposition));
            if !in_success_range(status) {
                after == refused(Operation::Download, source_album, asset, status, body)
            } else if is_plain_name(name) {
                &&& after matches Phase::Staging { file_name }
                &&& file_name@ == name
            } else {
                &&& after matches Phase::Failed { error: SyncError::Staging { file_name, detail } }
                &&& file_name@ == name
                &&& detail@ == unsafe_name_detail()
            }
        },
        (Phase::Downloading, Reply::Failed { detail }) => after == broken(
            Operation::Download,
            source_album,
            asset,
            detail,
        ),
        (Phase::Staging { .. }, Reply::Staged { path }) => after == (Phase::Uploading { path }),
        (Phase::Staging { file_name }, Reply::Failed { detail }) => after == (Phase::Failed {
            error: SyncError::Staging { file_name, detail },
        }),
        (Phase::Uploading { .. }, Reply::Uploaded { status, id, body }) => {
            if !in_success_range(status) {
                after == refused(Operation::Upload, destination_album, asset, status, body)
            } else {
                match id {
                    Some(new_id) => after == (Phase::Attaching { new_id }),
                    None => after == broken(Operation::Upload, destination_album, asset, body),
                }
            }
        },
        (Phase::Uploading { .. }, Reply::Failed { detail }) => after == broken(
            Operation::Upload,
            destination_album,
            asset,
            detail,
        ),
        (Phase::Attaching { new_id }, Reply::Attached { status, body }) => {
            if in_success_range(status) {
                after == (Phase::Succeeded { new_id })
            } else {
                after == refused(Operation::Attach, destination_album, asset, status, body)
            }
        },
        (Phase::Attaching { .. }, Reply::Failed { detail }) => after == broken(
            Operation::Attach,
            destination_album,
            asset,
            detail,
        ),
        _ => after == before,
    }
}

/// The staging path of an asset after `reply` came in during `before`: the
/// path of the reply when staging succeeded, else what it was.
pub open spec fn path_after(path: Option<String>, before: Phase, reply: Reply) -> Option<String> {
    match (before, reply) {
        (Phase::Staging { .. }, Reply::Staged { path: staged }) => Some(staged),
        _ => path,
    }
}

/// How a transfer in `phase` ended, if it has ended.
pub open spec fn outcome_of(phase: Phase) -> Option<TransferOutcome> {
    match phase {
        Phase::Succeeded { new_id } => Some(TransferOutcome::Success { new_id }),
        Phase::Failed { error } => Some(TransferOutcome::Failure { error }),
        _ => None,
    }
}

impl Transfer {
    /// A transfer of `asset` that has not fetched anything yet.
    pub fn new(asset: Asset) -> (transfer: Transfer)
        ensures
            transfer.asset == asset,
            transfer.phase == Phase::Downloading,
    {
        Transfer { asset, phase: Phase::Downloading }
    }

    /// The request that the transfer waits for, with `source` as the album
    /// that holds the asset and `destination` as the album that lacks it.
    /// `None` once the transfer has ended.
    pub fn request(&self, source: &SharedLink, destination: &SharedLink) -> (request: Option<
        Request,
    >)
        ensures
            pending(*self, *source, *destination, request),
    {
        match &self.phase {
            Phase::Downloading => Some(
                Request::Download { url: source.download_url(self.asset.id.as_str()) },
            ),
            Phase::Staging { file_name } => Some(Request::Stage { file_name: file_name.clone() }),
            Phase::Uploading { path } => Some(
                Request::Upload {
                    url: destination.upload_url(),
                    device_id: self.asset.device_id.clone(),
                    device_asset_id: self.asset.device_asset_id.clone(),
                    file_created_at: self.asset.file_created_at.clone(),
                    file_modified_at: self.asset.file_modified_at.clone(),
                    path: path.clone(),
                },
            ),
            Phase::Attaching { new_id } => Some(
                Request::Attach { url: destination.attach_url(), asset_id: new_id.clone() },
            ),
            Phase::Succeeded { .. } => None,
            Phase::Failed { .. } => None,
        }
    }

    /// The phase of this transfer when the service refused `operation`.
    fn refuse(&self, operation: Operation, album: &String, status: u16, body: String) -> (phase:
        Phase)
        ensures
            phase == refused(operation, *album, self.asset, status, body),
    {
        Phase::Failed {
            error: SyncError::RemoteStatus {
                operation,
                album: Some(album.clone()),
                subject: self.asset.label(),
                status,
                body,
            },
        }
    }

    /// The phase of this transfer when `operation` got no usable answer.
    fn give_up(&self, operation: Operation, album: &String, detail: String) -> (phase: Phase)
        ensures
            phase == broken(operation, *album, self.asset, detail),
    {
        Phase::Failed {
            error: SyncError::RemoteFailure {
                operation,
                album: Some(album.clone()),
                subject: self.asset.label(),
                detail,
            },
        }
    }

    /// Moves the transfer on by `reply`, with `source` as the album that
    /// holds the asset and `destination` as the album that lacks it.
    ///
    /// The phase changes as `follows` says.  The asset is kept, but for its
    /// staging path, which is set when the reply reports the staged file.
    pub fn advance(&mut self, reply: Reply, source: &SharedLink, destination: &SharedLink)
        ensures
            follows(
                old(self).asset,
                source.album.name,
                destination.album.name,
                old(self).phase,
                reply,
                final(self).phase,
            ),
            final(self).asset == (Asset {
                path: path_after(old(self).asset.path, old(self).phase, reply),
                ..old(self).asset
            }),
    {
        match &self.phase {
            Phase::Downloading => match reply {
                Reply::Downloaded { status, content_disposition, body } => {
                    if !is_success(status) {
                        self.phase = self.refuse(
                            Operation::Download,
                            &source.album.name,
                            status,
                            body,
                        );
                    } else {
                        let file_name = match &content_disposition {
                            Some(header) => resolve_file_name(&self.asset, Some(header.as_str())),
                            None => resolve_file_name(&self.asset, None),
                        };
                        if plain_name(file_name.as_str()) {
                            self.phase = Phase::Staging { file_name };
                        } else {
                            self.phase = Phase::Failed {
                                error: SyncError::Staging {
                                    file_name,
                                    detail: "not a plain file name".to_owned(),
                                },
                            };
                        }
                    }
                },
                Reply::Failed { detail } => {
                    self.phase = self.give_up(Operation::Download, &source.album.name, detail);
                },
                _ => {},
            },
            Phase::Staging { file_name } => match reply {
                Reply::Staged { path } => {
                    self.asset.path = Some(path.clone());
                    self.phase = Phase::Uploading { path };
                },
                Reply::Failed { detail } => {
                    self.phase = Phase::Failed {
                        error: SyncError::Staging { file_name: file_name.clone(), detail },
                    };
                },
                _ => {},
            },
            Phase::Uploading { .. } => match reply {
                Reply::Uploaded { status, id, body } => {
                    if !is_success(status) {
                        self.phase = self.refuse(
                            Operation::Upload,
                            &destination.album.name,
                            status,
                            body,
                        );
                    } else {
                        match id {
                            Some(new_id) => {
                                self.phase = Phase::Attaching { new_id };
                            },
                            None => {
                                self.phase = self.give_up(
                                    Operation::Upload,
                                    &destination.album.name,
                                    body,
                                );
                            },
                        }
                    }
                },
                Reply::Failed { detail } => {
                    self.phase = self.give_up(Operation::Upload, &destination.album.name, detail);
                },
                _ => {},
            },
            Phase::Attaching { new_id } => match reply {
                Reply::Attached { status, body } => {
                    if is_success(status) {
                        self.phase = Phase::Succeeded { new_id: new_id.clone() };
                    } else {
                        self.phase = self.refuse(
                            Operation::Attach,
                            &destination.album.name,
                            status,
                            body,
                        );
                    }
                },
                Reply::Failed { detail } => {
                    self.phase = self.give_up(Operation::Attach, &destination.album.name, detail);
                },
                _ => {},
            },
            Phase::Succeeded { .. } => {},
            Phase::Failed { .. } => {},
        }
    }

    /// How the transfer ended; `None` while it is under way.
    pub fn outcome(&self) -> (outcome: Option<TransferOutcome>)
        ensures
            outcome == outcome_of(self.phase),
    {
        match &self.phase {
            Phase::Succeeded { new_id } => Some(
                TransferOutcome::Success { new_id: new_id.clone() },
            ),
            Phase::Failed { error } => Some(TransferOutcome::Failure { error: error.clone() }),
            _ => None,
        }
    }
}

/// A refused attachment says which album it was: the transfer ends with a
/// failure whose message holds the display name of the destination album,
/// the text that the service sent, the status, and the name of the asset.
/// The asset does not count as transferred.
pub proof fn lemma_refused_attachment_names_album(
    asset: Asset,
    source_album: String,
    destination_album: String,
    new_id: String,
    status: u16,
    body: String,
    after: Phase,
)
    requires
        !in_success_range(status),
        follows(
            asset,
            source_album,
            destination_album,
            Phase::Attaching { new_id },
            Reply::Attached { status, body },
            after,
        ),
    ensures
        outcome_of(after) matches Some(TransferOutcome::Failure { error }) && {
            &&& holds(message_of(error), destination_album@)
            &&& holds(message_of(error), body@)
            &&& holds(message_of(error), crate::text::decimal(status as nat))
            &&& holds(message_of(error), label_of(asset)@)
        },
{
    lemma_message_holds_context(
        SyncError::RemoteStatus {
            operation: Operation::Attach,
            album: Some(destination_album),
            subject: label_of(asset),
            status,
            body,
        },
    );
}

/// Every failure of a step of a transfer names the asset and the album of
/// the step in its message: where `after` follows a phase that had not
/// ended and is the failure of a call, the message holds the label of the
/// asset and the display name of the source album, for the download, or of
/// the destination album, for the upload and the attachment.
pub proof fn lemma_transfer_failure_names_asset_and_album(
    asset: Asset,
    source_album: String,
    destination_album: String,
    before: Phase,
    reply: Reply,
    after: Phase,
)
    requires
        !(before is Failed),
        follows(asset, source_album, destination_album, before, reply, after),
    ensures
        after matches Phase::Failed { error } ==> match error {
            SyncError::RemoteStatus { operation, .. } | SyncError::RemoteFailure {
                operation,
                ..
            } => {
                &&& holds(message_of(error), label_of(asset)@)
                &&& holds(
                    message_of(error),
                    if operation == Operation::Download {
                        source_album@
                    } else {
                        destination_album@
                    },
                )
            },
            _ => true,
        },
{
    if let Phase::Failed { error } = after {
        lemma_message_holds_context(error);
    }
}

/// An upload comes only after staging: a phase that uploads either was
/// uploading before, or follows the report that the bytes were staged, and
/// sends the file at the path of that report.
pub proof fn lemma_upload_follows_staging(
    asset: Asset,
    source_album: String,
    destination_album: String,
    before: Phase,
    reply: Reply,
    after: Phase,
)
    requires
        follows(asset, source_album, destination_album, before, reply, after),
    ensures
        after matches Phase::Uploading { path } ==> before == after || (before is Staging && reply
            == (Reply::Staged { path }) && path_after(asset.path, before, reply) == Some(path)),
{
}

/// Only a plain file name is staged: the name of the staging phase that
/// follows a download holds no separator and is neither empty, `.` nor
/// `..`, so the staged file lies in the staging directory itself.
pub proof fn lemma_staged_name_is_plain(
    asset: Asset,
    source_album: String,
    destination_album: String,
    reply: Reply,
    after: Phase,
)
    requires
        follows(asset, source_album, destination_album, Phase::Downloading, reply, after),
    ensures
        after matches Phase::Staging { file_name } ==> is_plain_name(file_name@),
{
}

} // verus!
