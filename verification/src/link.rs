//! Share links and the addresses of the remote calls.

use crate::asset::{Album, Asset};
use crate::answer::{accept, accepted, Answer};
use crate::error::{Operation, SyncError};
use crate::text::{chars_of, find, find_in, occurs_at};
use vstd::prelude::*;

verus! {

/// The text that parts a share link into base address and key.
pub open spec fn share_marker() -> Seq<char> {
    "/share/"@
}

/// The base address and the key that `link` holds: what stands before the
/// first marker, and what stands between it and the next marker or the end.
/// `None` when `link` holds no marker.
pub open spec fn split_link(link: Seq<char>) -> Option<(Seq<char>, Seq<char>)> {
    match find(link, share_marker(), 0) {
        None => None,
        Some(at) => {
            let start = at + share_marker().len();
            let end = match find(link, share_marker(), start) {
                Some(next) => next,
                None => link.len() as int,
            };
            Some((link.subrange(0, at), link.subrange(start, end)))
        },
    }
}

/// A share link taken apart.
#[derive(Debug, PartialEq, Eq)]
pub struct ShareReference {
    /// Address of the service, without a trailing path.
    pub base_url: String,
    /// Access key of the shared album.
    pub key: String,
}

impl ShareReference {
    /// Splits `link` at the share marker into base address and key.
    ///
    /// Fails with `InvalidShareLink` exactly when `link` holds no marker.
    pub fn parse(link: &str) -> (result: Result<ShareReference, SyncError>)
        ensures
            match split_link(link@) {
                Some((base, key)) => result matches Ok(reference) && reference.base_url@ == base
                    && reference.key@ == key,
                None => result matches Err(SyncError::InvalidShareLink { link: kept }) && kept@
                    == link@,
            },
    {
        let text = chars_of(link);
        let marker = chars_of("/share/");
        let length = text.len();
        proof {
            reveal_strlit("/share/");
            crate::text::lemma_find_leftmost(text@, marker@, 0);
        }
        match find_in(&text, &marker, 0) {
            None => Err(SyncError::InvalidShareLink { link: link.to_owned() }),
            Some(at) => {
                assert(occurs_at(text@, marker@, at as int));
                let start = at + marker.len();
                proof {
                    crate::text::lemma_find_leftmost(text@, marker@, start as int);
                }
                let end = match find_in(&text, &marker, start) {
                    Some(next) => next,
                    None => length,
                };
                let base_url = link.substring_char(0, at).to_owned();
                let key = link.substring_char(start, end).to_owned();
                Ok(ShareReference { base_url, key })
            },
        }
    }
}

/// Address of the call that resolves a share link into its album.
pub open spec fn resolve_address(base: Seq<char>, key: Seq<char>) -> Seq<char> {
    base + "/api/shared-links/me?key="@ + key
}

/// Address of the call that lists an album.
pub open spec fn album_address(base: Seq<char>, album: Seq<char>, key: Seq<char>) -> Seq<char> {
    base + "/api/albums/"@ + album + "?key="@ + key
}

/// Address of the call that fetches the bytes of an asset, edits applied.
pub open spec fn download_address(base: Seq<char>, asset: Seq<char>, key: Seq<char>) -> Seq<
    char,
> {
    base + "/api/assets/"@ + asset + "/original?key="@ + key + "&edited=true"@
}

/// Address of the call that creates an asset.
pub open spec fn upload_address(base: Seq<char>, key: Seq<char>) -> Seq<char> {
    base + "/api/assets?key="@ + key
}

/// Address of the call that adds assets to an album.
pub open spec fn attach_address(base: Seq<char>, album: Seq<char>, key: Seq<char>) -> Seq<char> {
    base + "/api/albums/"@ + album + "/assets?key="@ + key
}

impl ShareReference {
    /// Address of the call that resolves this reference into its album.
    pub fn resolve_url(&self) -> (url: String)
        ensures
            url@ == resolve_address(self.base_url@, self.key@),
    {
        let mut url = self.base_url.clone();
        url.append("/api/shared-links/me?key=");
        url.append(self.key.as_str());
        url
    }
}

/// What the answer to resolving a share link tells of its album.
#[derive(Debug, PartialEq, Eq)]
pub struct AlbumInfo {
    /// Identifier of the album on its service.
    pub id: String,
    /// Display name of the album.
    pub name: String,
}

/// A resolved share link: the album it stands for, with the address and
/// the key under which the album is reached.
#[derive(Debug)]
pub struct SharedLink {
    /// The album, with the assets it was last seen to hold.
    pub album: Album,
    /// Access key of the shared album.
    pub key: String,
    /// Address of the service, without a trailing path.
    pub base_url: String,
}

impl SharedLink {
    /// The link that `reference` resolved to: the album `id` named `name`,
    /// with no asset listed yet.
    pub fn new(reference: ShareReference, id: String, name: String) -> (link: SharedLink)
        ensures
            link.base_url == reference.base_url,
            link.key == reference.key,
            link.album.id == id,
            link.album.name == name,
            link.album.assets@ == Seq::<Asset>::empty(),
    {
        SharedLink {
            album: Album { name, id, assets: Vec::new() },
            key: reference.key,
            base_url: reference.base_url,
        }
    }

    /// Decides what the answer to resolving `reference` comes to: the link
    /// to the album that the answer tells of, with no asset listed yet,
    /// where the service answered in the success range and the answer could
    /// be read; else the failure of the call, which names the address of
    /// the service.
    pub fn resolved(reference: ShareReference, answer: Answer<AlbumInfo>) -> (result: Result<
        SharedLink,
        SyncError,
    >)
        ensures
            match accepted(answer, Operation::Resolve, None, reference.base_url) {
                Ok(info) => {
                    &&& result matches Ok(link)
                    &&& link.base_url == reference.base_url
                    &&& link.key == reference.key
                    &&& link.album.id == info.id
                    &&& link.album.name == info.name
                    &&& link.album.assets@ == Seq::<Asset>::empty()
                },
                Err(error) => result == Err::<SharedLink, SyncError>(error),
            },
    {
        match accept(answer, Operation::Resolve, None, reference.base_url.clone()) {
            Ok(info) => Ok(SharedLink::new(reference, info.id, info.name)),
            Err(error) => Err(error),
        }
    }

    /// Decides what the answer to listing the album comes to.  Where the
    /// service answered in the success range and the answer could be read,
    /// the assets of the answer take the place of those that the album was
    /// last seen to hold.  Else the link stays as it was, and the failure
    /// of the call names the address of the service and the album.
    pub fn listed(&mut self, answer: Answer<Vec<Asset>>) -> (result: Result<(), SyncError>)
        ensures
            match accepted(
                answer,
                Operation::List,
                Some(old(self).album.name),
                old(self).base_url,
            ) {
                Ok(assets) => {
                    &&& result is Ok
                    &&& final(self).album.assets == assets
                    &&& final(self).album.id == old(self).album.id
                    &&& final(self).album.name == old(self).album.name
                    &&& final(self).key == old(self).key
                    &&& final(self).base_url == old(self).base_url
                },
                Err(error) => result == Err::<(), SyncError>(error) && *final(self) == *old(self),
            },
    {
        let album = Some(self.album.name.clone());
        match accept(answer, Operation::List, album, self.base_url.clone()) {
            Ok(assets) => {
                self.album.assets = assets;
                Ok(())
            },
            Err(error) => Err(error),
        }
    }

    /// Address of the call that lists the album.
    pub fn assets_url(&self) -> (url: String)
        ensures
            url@ == album_address(self.base_url@, self.album.id@, self.key@),
    {
        let mut url = self.base_url.clone();
        url.append("/api/albums/");
        url.append(self.album.id.as_str());
        url.append("?key=");
        url.append(self.key.as_str());
        url
    }

    /// Replaces the assets that the album was last seen to hold by `assets`.
    pub fn set_assets(&mut self, assets: Vec<Asset>)
        ensures
            final(self).album.assets == assets,
            final(self).album.id == old(self).album.id,
            final(self).album.name == old(self).album.name,
            final(self).key == old(self).key,
            final(self).base_url == old(self).base_url,
    {
        self.album.assets = assets;
    }

    /// Address of the call that fetches the bytes of the asset `asset_id`.
    pub fn download_url(&self, asset_id: &str) -> (url: String)
        ensures
            url@ == download_address(self.base_url@, asset_id@, self.key@),
    {
        let mut url = self.base_url.clone();
        url.append("/api/assets/");
        url.append(asset_id);
        url.append("/original?key=");
        url.append(self.key.as_str());
        url.append("&edited=true");
        url
    }

    /// Address of the call that creates an asset on this link's service.
    pub fn upload_url(&self) -> (url: String)
        ensures
            url@ == upload_address(self.base_url@, self.key@),
    {
        let mut url = self.base_url.clone();
        url.append("/api/assets?key=");
        url.append(self.key.as_str());
        url
    }

    /// Address of the call that adds assets to the album.
    pub fn attach_url(&self) -> (url: String)
        ensures
            url@ == attach_address(self.base_url@, self.album.id@, self.key@),
    {
        let mut url = self.base_url.clone();
        url.append("/api/albums/");
        url.append(self.album.id.as_str());
        url.append("/assets?key=");
        url.append(self.key.as_str());
        url
    }
}

} // verus!
