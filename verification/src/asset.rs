//! Assets, albums and the checksum diff between two albums.

use vstd::hash_set::StringHashSet;
use vstd::prelude::*;

verus! {

/// One media item of an album.
///
/// Only `checksum` takes part in comparisons between albums; every other
/// field is carried through from download to upload.
#[derive(Debug, PartialEq, Eq, Hash)]
pub struct Asset {
    /// Identifier of the asset on the service that lists it.
    pub id: String,
    /// Content hash of the asset's bytes.
    pub checksum: String,
    /// File name recorded by the service; empty when none was recorded.
    pub file_name: String,
    /// Identifier that the originating device gave the asset.
    pub device_asset_id: String,
    /// Identifier of the originating device.
    pub device_id: String,
    /// Creation time of the file, as the service reports it.
    pub file_created_at: String,
    /// Modification time of the file, as the service reports it.
    pub file_modified_at: String,
    /// Where the asset's bytes were staged, once they were downloaded.
    pub path: Option<String>,
}

impl Clone for Asset {
    fn clone(&self) -> (res: Self)
        ensures
            res == *self,
    {
        let path = match &self.path {
            Some(p) => Some(p.clone()),
            None => None,
        };
        Asset {
            id: self.id.clone(),
            checksum: self.checksum.clone(),
            file_name: self.file_name.clone(),
            device_asset_id: self.device_asset_id.clone(),
            device_id: self.device_id.clone(),
            file_created_at: self.file_created_at.clone(),
            file_modified_at: self.file_modified_at.clone(),
            path,
        }
    }
}

/// The name by which messages refer to `asset`: its recorded file name,
/// or its identifier where no file name was recorded.
pub open spec fn label_of(asset: Asset) -> String {
    if asset.file_name@.len() > 0 {
        asset.file_name
    } else {
        asset.id
    }
}

impl Asset {
    /// The name by which messages refer to the asset.
    pub fn label(&self) -> (label: String)
        ensures
            label == label_of(*self),
    {
        if self.file_name.as_str().is_empty() {
            self.id.clone()
        } else {
            self.file_name.clone()
        }
    }
}

/// A shared album with the assets it was last seen to hold.
#[derive(Debug)]
pub struct Album {
    /// Display name of the album.
    pub name: String,
    /// Identifier of the album on its service.
    pub id: String,
    /// The assets of the album, in the order the service listed them.
    pub assets: Vec<Asset>,
}

/// The checksums that occur in `assets`.
pub open spec fn checksums(assets: Seq<Asset>) -> Set<Seq<char>> {
    Set::new(|c: Seq<char>| exists|i: int| 0 <= i < assets.len() && assets[i].checksum@ == c)
}

/// Whether `asset` counts as absent from `dest`: no asset of `dest` has its
/// checksum.
pub open spec fn absent_from(asset: Asset, dest: Seq<Asset>) -> bool {
    !checksums(dest).contains(asset.checksum@)
}

/// The assets of `source` that are absent from `dest`, in the order of
/// `source`.
pub open spec fn missing(source: Seq<Asset>, dest: Seq<Asset>) -> Seq<Asset> {
    source.filter(|a: Asset| absent_from(a, dest))
}

/// Collects the checksums of `assets` into a hash set.
fn checksum_set(assets: &Vec<Asset>) -> (set: StringHashSet)
    ensures
        set@ == checksums(assets@),
{
    let mut set = StringHashSet::new();
    let mut i: usize = 0;
    while i < assets.len()
        invariant
            i <= assets.len(),
            set@ == checksums(assets@.take(i as int)),
        decreases assets.len() - i,
    {
        set.insert(assets[i].checksum.clone());
        proof {
            let before = assets@.take(i as int);
            let after = assets@.take(i + 1);
            assert forall|c: Seq<char>|
                checksums(after).contains(c) <==> checksums(before).insert(
                    assets[i as int].checksum@,
                ).contains(c) by {
                if checksums(after).contains(c) {
                    let j = choose|j: int| 0 <= j < after.len() && after[j].checksum@ == c;
                    if j < i {
                        assert(before[j].checksum@ == c);
                    }
                }
                if checksums(before).contains(c) {
                    let j = choose|j: int| 0 <= j < before.len() && before[j].checksum@ == c;
                    assert(after[j].checksum@ == c);
                }
                if c == assets[i as int].checksum@ {
                    assert(after[i as int].checksum@ == c);
                }
            }
            assert(set@ =~= checksums(after));
        }
        i += 1;
    }
    proof {
        assert(assets@.take(assets.len() as int) =~= assets@);
    }
    set
}

impl Album {
    /// Returns the assets of this album that `other` lacks: those whose
    /// checksum no asset of `other` has.  The order of this album is kept,
    /// and assets of this album that share a checksum are each returned.
    pub fn missing_from_other(&self, other: &Self) -> (result: Vec<Asset>)
        ensures
            result@ == missing(self.assets@, other.assets@),
    {
        let other_checksums = checksum_set(&other.assets);
        let ghost absent = |a: Asset| absent_from(a, other.assets@);
        let mut result: Vec<Asset> = Vec::new();
        let mut i: usize = 0;
        while i < self.assets.len()
            invariant
                i <= self.assets.len(),
                other_checksums@ == checksums(other.assets@),
                absent == |a: Asset| absent_from(a, other.assets@),
                result@ == self.assets@.take(i as int).filter(absent),
            decreases self.assets.len() - i,
        {
            proof {
                reveal(Seq::filter);
                assert(self.assets@.take(i + 1).drop_last() =~= self.assets@.take(i as int));
            }
            if !other_checksums.contains(self.assets[i].checksum.as_str()) {
                result.push(self.assets[i].clone());
            }
            i += 1;
        }
        proof {
            assert(self.assets@.take(self.assets.len() as int) =~= self.assets@);
        }
        result
    }
}

/// The diff of one asset: the asset itself where `dest` lacks its checksum,
/// nothing where `dest` has it.
pub proof fn lemma_missing_one(asset: Asset, dest: Seq<Asset>)
    ensures
        missing(seq![asset], dest) == if absent_from(asset, dest) {
            seq![asset]
        } else {
            Seq::<Asset>::empty()
        },
{
    reveal_with_fuel(Seq::filter, 2);
    assert(seq![asset].drop_last() =~= Seq::<Asset>::empty());
    assert(Seq::<Asset>::empty().push(asset) =~= seq![asset]);
}

/// The diff goes through the source from front to back: the diff of two
/// sources in a row is the diff of the first followed by that of the
/// second.  With `lemma_missing_one` this says that the diff holds exactly
/// the assets of the source that the destination lacks, each as often as
/// the source has it, in the order of the source.
pub proof fn lemma_missing_in_order(first: Seq<Asset>, second: Seq<Asset>, dest: Seq<Asset>)
    ensures
        missing(first + second, dest) == missing(first, dest) + missing(second, dest),
{
    Seq::filter_distributes_over_add(
        first,
        second,
        |a: Asset| absent_from(a, dest),
    );
}

/// An asset is in the diff exactly when the source holds it and no asset of
/// the destination has its checksum.
pub proof fn lemma_missing_members(source: Seq<Asset>, dest: Seq<Asset>, asset: Asset)
    ensures
        missing(source, dest).contains(asset) <==> source.contains(asset) && absent_from(
            asset,
            dest,
        ),
{
    let absent = |a: Asset| absent_from(a, dest);
    if missing(source, dest).contains(asset) {
        let i = choose|i: int|
            0 <= i < source.filter(absent).len() && source.filter(absent)[i] == asset;
        source.lemma_filter_pred(absent, i);
        lemma_filter_from_source(source, absent, i);
    }
    if source.contains(asset) && absent_from(asset, dest) {
        let i = choose|i: int| 0 <= i < source.len() && source[i] == asset;
        source.lemma_filter_contains(absent, i);
    }
}

/// Every element of a filtered sequence is an element of the sequence.
proof fn lemma_filter_from_source(source: Seq<Asset>, keep: spec_fn(Asset) -> bool, i: int)
    requires
        0 <= i < source.filter(keep).len(),
    ensures
        source.contains(source.filter(keep)[i]),
    decreases source.len(),
{
    reveal(Seq::filter);
    if source.len() > 0 {
        let front = source.drop_last();
        if i < front.filter(keep).len() {
            lemma_filter_from_source(front, keep, i);
            let j = choose|j: int| 0 <= j < front.len() && front[j] == front.filter(keep)[i];
            assert(source[j] == front[j]);
        } else {
            assert(source.filter(keep)[i] == source.last());
            assert(source[source.len() - 1] == source.last());
        }
    }
}

/// Nothing is missing from an album that is compared with itself.
pub proof fn lemma_missing_from_self(assets: Seq<Asset>)
    ensures
        missing(assets, assets) == Seq::<Asset>::empty(),
{
    let absent = |a: Asset| absent_from(a, assets);
    if assets.filter(absent).len() > 0 {
        let kept = assets.filter(absent)[0];
        assets.lemma_filter_pred(absent, 0);
        lemma_filter_from_source(assets, absent, 0);
        let j = choose|j: int| 0 <= j < assets.len() && assets[j] == kept;
        assert(checksums(assets).contains(assets[j].checksum@));
    }
    assert(assets.filter(absent) =~= Seq::<Asset>::empty());
}

/// An empty destination lacks the whole source.
pub proof fn lemma_missing_from_empty(source: Seq<Asset>)
    ensures
        missing(source, Seq::<Asset>::empty()) == source,
    decreases source.len(),
{
    reveal(Seq::filter);
    if source.len() > 0 {
        lemma_missing_from_empty(source.drop_last());
        assert(absent_from(source.last(), Seq::<Asset>::empty()));
        assert(source.drop_last().push(source.last()) =~= source);
    }
}

/// Nothing is missing of an empty source.
pub proof fn lemma_missing_of_empty(dest: Seq<Asset>)
    ensures
        missing(Seq::<Asset>::empty(), dest) == Seq::<Asset>::empty(),
{
    reveal(Seq::filter);
}

/// Of the destination only its checksums count: two destinations with the
/// same checksums lack the same assets, whatever else their assets hold.
pub proof fn lemma_missing_by_checksums(source: Seq<Asset>, dest: Seq<Asset>, other: Seq<Asset>)
    requires
        checksums(dest) == checksums(other),
    ensures
        missing(source, dest) == missing(source, other),
{
    let by_dest = |a: Asset| absent_from(a, dest);
    let by_other = |a: Asset| absent_from(a, other);
    assert(by_dest =~= by_other);
}

/// Two assets stand for the same content exactly when their checksums are
/// equal: an asset of the destination makes an asset of the source present
/// if it has the same checksum, whatever their names, devices and times,
/// and never if its checksum differs, though all the rest be equal.
pub proof fn lemma_same_content(source: Asset, dest: Asset)
    ensures
        source.checksum@ == dest.checksum@ ==> missing(seq![source], seq![dest]) == Seq::<
            Asset,
        >::empty(),
        source.checksum@ != dest.checksum@ ==> missing(seq![source], seq![dest]) == seq![source],
{
    lemma_missing_one(source, seq![dest]);
    if source.checksum@ == dest.checksum@ {
        assert(seq![dest][0].checksum@ == source.checksum@);
    }
}

} // verus!
