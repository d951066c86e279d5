//! One edge of a run: what to transfer, and what came of it.

use crate::asset::{missing, Asset};
use crate::answer::{accepted, Answer};
use crate::error::{Operation, SyncError};
use crate::link::SharedLink;
use crate::pipeline::{Pipeline, PipelineView, Poll};
use crate::text::{decimal, to_decimal};
use crate::transfer::{Phase, Transfer, TransferOutcome};
use vstd::prelude::*;

verus! {

/// What an edge calls for.
#[derive(Debug, Clone, Copy, PartialEq, Eq, Structural)]
pub enum PlanKind {
    /// The destination lacks nothing.
    UpToDate,
    /// The run is a dry run: the missing assets are named, not moved.
    Report,
    /// The missing assets are moved.
    Transfer,
}

/// What an edge calls for, given how many assets are missing and whether
/// the run is a dry run.
pub open spec fn plan_kind(missing: nat, dry_run: bool) -> PlanKind {
    if missing == 0 {
        PlanKind::UpToDate
    } else if dry_run {
        PlanKind::Report
    } else {
        PlanKind::Transfer
    }
}

/// The work of one edge: the assets that the destination lacks, fixed at
/// the time the two listings were compared.
#[derive(Debug)]
pub struct EdgePlan {
    /// The assets of the source that the destination lacks, in the order
    /// of the source.
    pub missing: Vec<Asset>,
    /// Whether the run only reports what it would transfer.
    pub dry_run: bool,
}

/// The line that announces an edge: the peers by name, each with the
/// display name of its album.
pub open spec fn headline_of(
    source_peer: Seq<char>,
    source_album: Seq<char>,
    destination_peer: Seq<char>,
    destination_album: Seq<char>,
) -> Seq<char> {
    "Adding assets from "@ + source_peer + " ("@ + source_album + ") to "@ + destination_peer
        + " ("@ + destination_album + ") ..."@
}

/// The line that says what a plan calls for, with the number of assets that
/// are transferred or would be.
pub open spec fn description_of(missing: nat, dry_run: bool) -> Seq<char> {
    match plan_kind(missing, dry_run) {
        PlanKind::UpToDate => "No assets to synchronize"@,
        PlanKind::Report => decimal(missing) + " assets would be synced:"@,
        PlanKind::Transfer => "Uploading "@ + decimal(missing) + " missing assets"@,
    }
}

/// Writes the line that announces the edge from `source` to `destination`,
/// given the names of the two peers.
pub fn headline(
    source_peer: &str,
    source: &SharedLink,
    destination_peer: &str,
    destination: &SharedLink,
) -> (text: String)
    ensures
        text@ == headline_of(
            source_peer@,
            source.album.name@,
            destination_peer@,
            destination.album.name@,
        ),
{
    let mut text = "Adding assets from ".to_owned();
    text.append(source_peer);
    text.append(" (");
    text.append(source.album.name.as_str());
    text.append(") to ");
    text.append(destination_peer);
    text.append(" (");
    text.append(destination.album.name.as_str());
    text.append(") ...");
    text
}

/// The file names of `assets`, in order.
pub open spec fn file_names(assets: Seq<Asset>) -> Seq<String> {
    Seq::new(assets.len(), |i: int| assets[i].file_name)
}

impl SharedLink {
    /// Plans the edge that brings to this link's album what it lacks of the
    /// album of `other`, given the answer to listing this link's album anew.
    ///
    /// Where the listing went through, its assets take the place of those
    /// that the album was last seen to hold, and the plan holds what they
    /// lack of the assets that `other` was last seen to hold; a dry run
    /// plans the same assets as a run that transfers.  Where the listing
    /// failed, there is no plan, so that nothing is transferred: the link
    /// stays as it was and the failure of the listing comes back.
    pub fn upload_missing(
        &mut self,
        listing: Answer<Vec<Asset>>,
        other: &SharedLink,
        dry_run: bool,
    ) -> (result: Result<EdgePlan, SyncError>)
        ensures
            match accepted(
                listing,
                Operation::List,
                Some(old(self).album.name),
                old(self).base_url,
            ) {
                Ok(assets) => {
                    &&& result matches Ok(plan)
                    &&& plan.missing@ == missing(other.album.assets@, assets@)
                    &&& plan.dry_run == dry_run
                    &&& final(self).album.assets == assets
                    &&& final(self).album.id == old(self).album.id
                    &&& final(self).album.name == old(self).album.name
                    &&& final(self).key == old(self).key
                    &&& final(self).base_url == old(self).base_url
                },
                Err(error) => result matches Err(failure) && failure == error && *final(self)
                    == *old(self),
            },
    {
        match self.listed(listing) {
            Ok(()) => Ok(self.plan(other, dry_run)),
            Err(error) => Err(error),
        }
    }

    /// Plans the edge that brings to this link's album what it lacks of the
    /// album of `other`, going by the assets that both were last seen to
    /// hold.  A dry run plans the same assets as a run that transfers.
    pub fn plan(&self, other: &SharedLink, dry_run: bool) -> (plan: EdgePlan)
        ensures
            plan.missing@ == missing(other.album.assets@, self.album.assets@),
            plan.dry_run == dry_run,
    {
        EdgePlan { missing: other.album.missing_from_other(&self.album), dry_run }
    }
}

impl EdgePlan {
    /// What the plan calls for.
    pub fn kind(&self) -> (kind: PlanKind)
        ensures
            kind == plan_kind(self.missing@.len(), self.dry_run),
    {
        if self.missing.len() == 0 {
            PlanKind::UpToDate
        } else if self.dry_run {
            PlanKind::Report
        } else {
            PlanKind::Transfer
        }
    }

    /// Writes the line that says what the plan calls for.
    pub fn describe(&self) -> (text: String)
        ensures
            text@ == description_of(self.missing@.len(), self.dry_run),
    {
        match self.kind() {
            PlanKind::UpToDate => "No assets to synchronize".to_owned(),
            PlanKind::Report => {
                let mut text = to_decimal(self.missing.len() as u64);
                text.append(" assets would be synced:");
                text
            },
            PlanKind::Transfer => {
                let mut text = "Uploading ".to_owned();
                text.append(to_decimal(self.missing.len() as u64).as_str());
                text.append(" missing assets");
                text
            },
        }
    }

    /// The file names of the missing assets, in order.
    pub fn names(&self) -> (names: Vec<String>)
        ensures
            names@ == file_names(self.missing@),
    {
        let mut names: Vec<String> = Vec::new();
        let mut i: usize = 0;
        while i < self.missing.len()
            invariant
                i <= self.missing.len(),
                names@ == file_names(self.missing@.take(i as int)),
            decreases self.missing.len() - i,
        {
            names.push(self.missing[i].file_name.clone());
            i += 1;
            assert(names@ =~= file_names(self.missing@.take(i as int)));
        }
        assert(self.missing@.take(self.missing.len() as int) =~= self.missing@);
        names
    }

    /// The transfer of the missing asset at `index`, not yet begun; `None`
    /// where the plan has no asset at `index`.
    pub fn transfer(&self, index: usize) -> (transfer: Option<Transfer>)
        ensures
            transfer == if index < self.missing@.len() {
                Some(Transfer { asset: self.missing@[index as int], phase: Phase::Downloading })
            } else {
                None
            },
    {
        if index < self.missing.len() {
            Some(Transfer::new(self.missing[index].clone()))
        } else {
            None
        }
    }

    /// The pipeline that schedules the transfers of the plan.
    pub fn pipeline(&self) -> (pipeline: Pipeline)
        ensures
            pipeline@ == PipelineView::initial(self.missing@.len(), self.dry_run),
            pipeline@.wf(),
    {
        Pipeline::new(self.missing.len(), self.dry_run)
    }
}

/// A dry run covers the same assets as a run that transfers, and its
/// pipeline starts none of them: the first poll says that it is finished.
pub proof fn lemma_dry_run_same_set(dry: EdgePlan, wet: EdgePlan, source: Seq<Asset>, dest: Seq<Asset>)
    requires
        dry.dry_run,
        !wet.dry_run,
        dry.missing@ == missing(source, dest),
        wet.missing@ == missing(source, dest),
    ensures
        dry.missing@.len() == wet.missing@.len(),
        dry.missing@ == wet.missing@,
        PipelineView::initial(dry.missing@.len(), dry.dry_run).poll() == Poll::Finished,
        plan_kind(dry.missing@.len(), dry.dry_run) != PlanKind::Transfer,
{
}

/// Whether `outcome` is a success.
pub open spec fn succeeded(outcome: Option<TransferOutcome>) -> bool {
    outcome matches Some(TransferOutcome::Success { .. })
}

/// Whether `outcome` is a failure.
pub open spec fn failed_to(outcome: Option<TransferOutcome>) -> bool {
    outcome matches Some(TransferOutcome::Failure { .. })
}

/// The number of the first `upto` outcomes of which `property` holds.
pub open spec fn count(
    outcomes: Seq<Option<TransferOutcome>>,
    upto: int,
    property: spec_fn(Option<TransferOutcome>) -> bool,
) -> nat
    decreases upto,
{
    if upto <= 0 {
        0
    } else {
        count(outcomes, upto - 1, property) + if property(outcomes[upto - 1]) {
            1nat
        } else {
            0nat
        }
    }
}

/// The transfers of an edge by the way they ended.
#[derive(Debug, Clone, Copy, PartialEq, Eq, Structural)]
pub struct EdgeSummary {
    /// Assets that are now in the destination album.
    pub transferred: usize,
    /// Assets whose transfer failed.
    pub failed: usize,
    /// Assets whose transfer did not run or did not end.
    pub skipped: usize,
}

/// The first failure among `outcomes`, in their order.
pub open spec fn first_failure(outcomes: Seq<Option<TransferOutcome>>) -> Option<SyncError>
    decreases outcomes.len(),
{
    if outcomes.len() == 0 {
        None
    } else {
        match outcomes[0] {
            Some(TransferOutcome::Failure { error }) => Some(error),
            _ => first_failure(outcomes.drop_first()),
        }
    }
}

/// Counts `outcomes` by the way the transfers ended.
pub fn summarize(outcomes: &Vec<Option<TransferOutcome>>) -> (summary: EdgeSummary)
    ensures
        summary.transferred == count(outcomes@, outcomes@.len() as int, |o| succeeded(o)),
        summary.failed == count(outcomes@, outcomes@.len() as int, |o| failed_to(o)),
        summary.skipped == count(outcomes@, outcomes@.len() as int, |o| o is None),
        summary.transferred + summary.failed + summary.skipped == outcomes@.len(),
{
    let mut transferred: usize = 0;
    let mut failed: usize = 0;
    let mut skipped: usize = 0;
    let mut i: usize = 0;
    while i < outcomes.len()
        invariant
            i <= outcomes.len(),
            transferred == count(outcomes@, i as int, |o| succeeded(o)),
            failed == count(outcomes@, i as int, |o| failed_to(o)),
            skipped == count(outcomes@, i as int, |o: Option<TransferOutcome>| o is None),
            transferred + failed + skipped == i,
        decreases outcomes.len() - i,
    {
        match &outcomes[i] {
            Some(TransferOutcome::Success { .. }) => {
                transferred += 1;
            },
            Some(TransferOutcome::Failure { .. }) => {
                failed += 1;
            },
            None => {
                skipped += 1;
            },
        }
        i += 1;
    }
    EdgeSummary { transferred, failed, skipped }
}

/// Decides whether an edge went through: it did unless a transfer failed.
/// Returns the number of assets transferred, or the first failure in the
/// order of the missing set.
pub fn edge_result(outcomes: &Vec<Option<TransferOutcome>>) -> (result: Result<usize, SyncError>)
    ensures
        match first_failure(outcomes@) {
            Some(error) => result == Err::<usize, SyncError>(error),
            None => result matches Ok(transferred) && transferred == count(
                outcomes@,
                outcomes@.len() as int,
                |o| succeeded(o),
            ),
        },
{
    let mut i: usize = 0;
    assert(outcomes@.skip(0) =~= outcomes@);
    while i < outcomes.len()
        invariant
            i <= outcomes.len(),
            first_failure(outcomes@) == first_failure(outcomes@.skip(i as int)),
        decreases outcomes.len() - i,
    {
        proof {
            let rest = outcomes@.skip(i as int);
            assert(rest[0] == outcomes@[i as int]);
            assert(rest.drop_first() =~= outcomes@.skip(i + 1));
        }
        match &outcomes[i] {
            Some(TransferOutcome::Failure { error }) => {
                return Err(error.clone());
            },
            _ => {},
        }
        i += 1;
    }
    Ok(summarize(outcomes).transferred)
}

} // verus!
