//! What can go wrong during a run, and how far each failure reaches.

use crate::text::{decimal, holds, lemma_holds_middle, to_decimal};
use vstd::prelude::*;

verus! {

/// One of the five calls that are made to a remote service.
#[derive(Debug, Clone, Copy, PartialEq, Eq, Structural)]
pub enum Operation {
    /// Turning a share link into the album it stands for.
    Resolve,
    /// Listing the assets of an album.
    List,
    /// Fetching the bytes of one asset.
    Download,
    /// Creating an asset from staged bytes.
    Upload,
    /// Adding an uploaded asset to an album.
    Attach,
}

/// The unit of work that a failure brings to an end.
#[derive(Debug, Clone, Copy, PartialEq, Eq, Structural)]
pub enum Scope {
    /// The transfer of one asset; its siblings go on.
    Asset,
    /// One destination and source pair.
    Edge,
    /// Everything.
    Run,
}

/// The kinds of failure.
#[derive(Debug, Clone, Copy, PartialEq, Eq, Structural)]
pub enum ErrorKind {
    /// The peer table is at fault.
    Config,
    /// A share link cannot be taken apart.
    ReferenceParse,
    /// A call to a service failed or was refused.
    Remote,
    /// A staging file could not be written.
    LocalIo,
}

/// A failure of the synchronisation.
#[derive(Debug, PartialEq, Eq)]
pub enum SyncError {
    /// The peer `peer` asks to sync with `unknown`, which the peer table
    /// does not hold.
    UnknownPeer { peer: String, unknown: String },
    /// `link` cannot be split into a base address and an access key.
    InvalidShareLink { link: String },
    /// The service answered `operation` on `subject` with a status outside
    /// the success range; `body` is what it sent along.  `album` is the
    /// display name of the album that the call was about, where it is
    /// known.  `subject` is the asset for the steps of a transfer, and the
    /// address of the service for the others.
    RemoteStatus {
        operation: Operation,
        album: Option<String>,
        subject: String,
        status: u16,
        body: String,
    },
    /// `operation` on `subject` got no usable answer: the request did not
    /// go through, or the answer could not be read.  `album` and `subject`
    /// are as in `RemoteStatus`.
    RemoteFailure { operation: Operation, album: Option<String>, subject: String, detail: String },
    /// The bytes of an asset could not be staged as `file_name`.
    Staging { file_name: String, detail: String },
}

/// A copy of an optional name.
pub fn clone_name(name: &Option<String>) -> (copy: Option<String>)
    ensures
        copy == *name,
{
    match name {
        Some(text) => Some(text.clone()),
        None => None,
    }
}

impl Clone for SyncError {
    fn clone(&self) -> (res: Self)
        ensures
            res == *self,
    {
        match self {
            SyncError::UnknownPeer { peer, unknown } => SyncError::UnknownPeer {
                peer: peer.clone(),
                unknown: unknown.clone(),
            },
            SyncError::InvalidShareLink { link } => SyncError::InvalidShareLink {
                link: link.clone(),
            },
            SyncError::RemoteStatus {
                operation,
                album,
                subject,
                status,
                body,
            } => SyncError::RemoteStatus {
                operation: *operation,
                album: clone_name(album),
                subject: subject.clone(),
                status: *status,
                body: body.clone(),
            },
            SyncError::RemoteFailure {
                operation,
                album,
                subject,
                detail,
            } => SyncError::RemoteFailure {
                operation: *operation,
                album: clone_name(album),
                subject: subject.clone(),
                detail: detail.clone(),
            },
            SyncError::Staging { file_name, detail } => SyncError::Staging {
                file_name: file_name.clone(),
                detail: detail.clone(),
            },
        }
    }
}

/// How far a failure of `operation` reaches: resolving a link or listing an
/// album stops the edge that needed it, the three steps of a transfer stop
/// that transfer only.
pub open spec fn operation_scope(operation: Operation) -> Scope {
    match operation {
        Operation::Resolve | Operation::List => Scope::Edge,
        Operation::Download | Operation::Upload | Operation::Attach => Scope::Asset,
    }
}

/// The unit of work that `error` brings to an end.
pub open spec fn scope_of(error: SyncError) -> Scope {
    match error {
        SyncError::UnknownPeer { .. } => Scope::Run,
        SyncError::InvalidShareLink { .. } => Scope::Run,
        SyncError::RemoteStatus { operation, .. } => operation_scope(operation),
        SyncError::RemoteFailure { operation, .. } => operation_scope(operation),
        SyncError::Staging { .. } => Scope::Asset,
    }
}

/// The kind of `error`.
pub open spec fn kind_of(error: SyncError) -> ErrorKind {
    match error {
        SyncError::UnknownPeer { .. } => ErrorKind::Config,
        SyncError::InvalidShareLink { .. } => ErrorKind::ReferenceParse,
        SyncError::RemoteStatus { .. } => ErrorKind::Remote,
        SyncError::RemoteFailure { .. } => ErrorKind::Remote,
        SyncError::Staging { .. } => ErrorKind::LocalIo,
    }
}

impl SyncError {
    /// The kind of this failure.
    pub fn kind(&self) -> (kind: ErrorKind)
        ensures
            kind == kind_of(*self),
    {
        match self {
            SyncError::UnknownPeer { .. } => ErrorKind::Config,
            SyncError::InvalidShareLink { .. } => ErrorKind::ReferenceParse,
            SyncError::RemoteStatus { .. } => ErrorKind::Remote,
            SyncError::RemoteFailure { .. } => ErrorKind::Remote,
            SyncError::Staging { .. } => ErrorKind::LocalIo,
        }
    }

    /// The unit of work that this failure brings to an end.
    pub fn scope(&self) -> (scope: Scope)
        ensures
            scope == scope_of(*self),
    {
        match self {
            SyncError::UnknownPeer { .. } => Scope::Run,
            SyncError::InvalidShareLink { .. } => Scope::Run,
            SyncError::RemoteStatus { operation, .. } | SyncError::RemoteFailure {
                operation,
                ..
            } => match operation {
                Operation::Resolve | Operation::List => Scope::Edge,
                Operation::Download | Operation::Upload | Operation::Attach => Scope::Asset,
            },
            SyncError::Staging { .. } => Scope::Asset,
        }
    }
}

/// The name of `operation` in messages.
pub open spec fn operation_name(operation: Operation) -> Seq<char> {
    match operation {
        Operation::Resolve => "Resolving the share link"@,
        Operation::List => "Listing the album"@,
        Operation::Download => "Download"@,
        Operation::Upload => "Upload"@,
        Operation::Attach => "Adding to the album"@,
    }
}

/// How a message names the album of a call: by its display name, where it
/// is known.
pub open spec fn album_part(album: Option<String>) -> Seq<char> {
    match album {
        Some(name) => " in album "@ + name@,
        None => Seq::empty(),
    }
}

/// What `error` says to the user: what failed, for which peer, link, album
/// or asset, and what the service or the system said about it.
pub open spec fn message_of(error: SyncError) -> Seq<char> {
    match error {
        SyncError::UnknownPeer { peer, unknown } => "Peer "@ + peer@ + " syncs with unknown peer "@
            + unknown@,
        SyncError::InvalidShareLink { link } => "Invalid share link: "@ + link@,
        SyncError::RemoteStatus { operation, album, subject, status, body } => operation_name(
            operation,
        ) + " failed for "@ + subject@ + album_part(album) + " with status "@ + decimal(
            status as nat,
        ) + ": "@ + body@,
        SyncError::RemoteFailure { operation, album, subject, detail } => operation_name(operation)
            + " failed for "@ + subject@ + album_part(album) + ": "@ + detail@,
        SyncError::Staging { file_name, detail } => "Staging failed for "@ + file_name@ + ": "@
            + detail@,
    }
}

/// The message of a failed or refused call holds what the call was about
/// and what came back: the subject, the display name of the album where it
/// is known, and the text of the service; that of a refused call holds the
/// status too.
pub proof fn lemma_message_holds_context(error: SyncError)
    ensures
        match error {
            SyncError::RemoteStatus { operation, album, subject, status, body } => {
                &&& holds(message_of(error), subject@)
                &&& album matches Some(name) ==> holds(message_of(error), name@)
                &&& holds(message_of(error), decimal(status as nat))
                &&& holds(message_of(error), body@)
            },
            SyncError::RemoteFailure { operation, album, subject, detail } => {
                &&& holds(message_of(error), subject@)
                &&& album matches Some(name) ==> holds(message_of(error), name@)
                &&& holds(message_of(error), detail@)
            },
            SyncError::Staging { file_name, detail } => {
                &&& holds(message_of(error), file_name@)
                &&& holds(message_of(error), detail@)
            },
            SyncError::UnknownPeer { peer, unknown } => {
                &&& holds(message_of(error), peer@)
                &&& holds(message_of(error), unknown@)
            },
            SyncError::InvalidShareLink { link } => holds(message_of(error), link@),
        },
{
    let text = message_of(error);
    let none = Seq::<char>::empty();
    match error {
        SyncError::RemoteStatus { operation, album, subject, status, body } => {
            let start = operation_name(operation) + " failed for "@;
            let code = " with status "@ + decimal(status as nat) + ": "@;
            lemma_holds_middle(start, subject@, album_part(album) + code + body@);
            assert(text =~= start + subject@ + (album_part(album) + code + body@));
            if let Some(name) = album {
                lemma_holds_middle(start + subject@ + " in album "@, name@, code + body@);
                assert(text =~= start + subject@ + " in album "@ + name@ + (code + body@));
            }
            let front = start + subject@ + album_part(album) + " with status "@;
            lemma_holds_middle(front, decimal(status as nat), ": "@ + body@);
            assert(text =~= front + decimal(status as nat) + (": "@ + body@));
            lemma_holds_middle(front + decimal(status as nat) + ": "@, body@, none);
            assert(text =~= front + decimal(status as nat) + ": "@ + body@ + none);
        },
        SyncError::RemoteFailure { operation, album, subject, detail } => {
            let start = operation_name(operation) + " failed for "@;
            lemma_holds_middle(start, subject@, album_part(album) + ": "@ + detail@);
            assert(text =~= start + subject@ + (album_part(album) + ": "@ + detail@));
            if let Some(name) = album {
                lemma_holds_middle(start + subject@ + " in album "@, name@, ": "@ + detail@);
                assert(text =~= start + subject@ + " in album "@ + name@ + (": "@ + detail@));
            }
            lemma_holds_middle(start + subject@ + album_part(album) + ": "@, detail@, none);
            assert(text =~= start + subject@ + album_part(album) + ": "@ + detail@ + none);
        },
        SyncError::Staging { file_name, detail } => {
            lemma_holds_middle("Staging failed for "@, file_name@, ": "@ + detail@);
            assert(text =~= "Staging failed for "@ + file_name@ + (": "@ + detail@));
            lemma_holds_middle("Staging failed for "@ + file_name@ + ": "@, detail@, none);
            assert(text =~= "Staging failed for "@ + file_name@ + ": "@ + detail@ + none);
        },
        SyncError::UnknownPeer { peer, unknown } => {
            lemma_holds_middle("Peer "@, peer@, " syncs with unknown peer "@ + unknown@);
            assert(text =~= "Peer "@ + peer@ + (" syncs with unknown peer "@ + unknown@));
            lemma_holds_middle("Peer "@ + peer@ + " syncs with unknown peer "@, unknown@, none);
            assert(text =~= "Peer "@ + peer@ + " syncs with unknown peer "@ + unknown@ + none);
        },
        SyncError::InvalidShareLink { link } => {
            lemma_holds_middle("Invalid share link: "@, link@, none);
            assert(text =~= "Invalid share link: "@ + link@ + none);
        },
    }
}

/// Adds to `text` how a message names `album`.
fn append_album(text: &mut String, album: &Option<String>)
    ensures
        final(text)@ == old(text)@ + album_part(*album),
{
    match album {
        Some(name) => {
            text.append(" in album ");
            text.append(name.as_str());
        },
        None => {},
    }
}

impl Operation {
    /// The name of the operation in messages.
    pub fn name(&self) -> (name: &'static str)
        ensures
            name@ == operation_name(*self),
    {
        match self {
            Operation::Resolve => "Resolving the share link",
            Operation::List => "Listing the album",
            Operation::Download => "Download",
            Operation::Upload => "Upload",
            Operation::Attach => "Adding to the album",
        }
    }
}

impl SyncError {
    /// What this failure says to the user.
    pub fn message(&self) -> (text: String)
        ensures
            text@ == message_of(*self),
    {
        match self {
            SyncError::UnknownPeer { peer, unknown } => {
                let mut text = "Peer ".to_owned();
                text.append(peer.as_str());
                text.append(" syncs with unknown peer ");
                text.append(unknown.as_str());
                text
            },
            SyncError::InvalidShareLink { link } => {
                let mut text = "Invalid share link: ".to_owned();
                text.append(link.as_str());
                text
            },
            SyncError::RemoteStatus { operation, album, subject, status, body } => {
                let code = to_decimal(*status as u64);
                let mut text = operation.name().to_owned();
                text.append(" failed for ");
                text.append(subject.as_str());
                append_album(&mut text, album);
                text.append(" with status ");
                text.append(code.as_str());
                text.append(": ");
                text.append(body.as_str());
                text
            },
            SyncError::RemoteFailure { operation, album, subject, detail } => {
                let mut text = operation.name().to_owned();
                text.append(" failed for ");
                text.append(subject.as_str());
                append_album(&mut text, album);
                text.append(": ");
                text.append(detail.as_str());
                text
            },
            SyncError::Staging { file_name, detail } => {
                let mut text = "Staging failed for ".to_owned();
                text.append(file_name.as_str());
                text.append(": ");
                text.append(detail.as_str());
                text
            },
        }
    }
}

} // verus!
