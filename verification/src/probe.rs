//! The steps of one probe.
//!
//! A probe first looks at the vendor file. Only if that does not confirm its
//! provider does it ask the metadata server. If either confirms, it reports
//! its identity once; then it returns. Nothing that it observes makes it fail
//! or wait: every outcome leads on to the next stage.
//!
//! The probe decides, its driver acts: the driver takes the probe's
//! [`Action`], performs it, and hands the outcome to [`Probe::advance`].

use vstd::prelude::*;
use crate::provider_id::ProviderId;

verus! {

/// Where a probe stands.
#[derive(Debug, Clone, Copy, PartialEq, Eq, Structural)]
pub enum Stage {
    /// The vendor file is to be checked.
    VendorFile,
    /// The vendor file did not confirm; the metadata server is to be asked.
    Metadata,
    /// A check confirmed; the identity is to be reported.
    Reporting,
    /// The probe is through.
    Done,
}

/// What the driver of a probe is to do next.
#[derive(Debug, Clone, Copy, PartialEq, Eq, Structural)]
pub enum Action {
    /// Read the vendor file and check it.
    ReadVendorFile,
    /// Ask the metadata server and check its reply.
    QueryMetadata,
    /// Report this identity to the race.
    Report(ProviderId),
    /// Return: the probe's run is over.
    Finish,
}

impl Stage {
    /// The stage that follows this one. For a check, `outcome` says whether it
    /// confirmed the provider; for a report, whether the report was taken,
    /// which makes no difference.
    pub open spec fn after(self, outcome: bool) -> Stage {
        match self {
            Stage::VendorFile => if outcome {
                Stage::Reporting
            } else {
                Stage::Metadata
            },
            Stage::Metadata => if outcome {
                Stage::Reporting
            } else {
                Stage::Done
            },
            Stage::Reporting => Stage::Done,
            Stage::Done => Stage::Done,
        }
    }

    /// What is to be done at this stage by the probe for `id`.
    pub open spec fn action(self, id: ProviderId) -> Action {
        match self {
            Stage::VendorFile => Action::ReadVendorFile,
            Stage::Metadata => Action::QueryMetadata,
            Stage::Reporting => Action::Report(id),
            Stage::Done => Action::Finish,
        }
    }
}

/// Whether a probe reports, given what its two checks would find: it reports
/// if it comes to the stage `Reporting`.
pub open spec fn reports(vendor_file: bool, metadata: bool) -> bool {
    let second = Stage::VendorFile.after(vendor_file);
    second == Stage::Reporting || second.after(metadata) == Stage::Reporting
}

/// Whether a probe asks the metadata server, given what the vendor file holds.
pub open spec fn asks_metadata(vendor_file: bool) -> bool {
    Stage::VendorFile.after(vendor_file) == Stage::Metadata
}

/// One probe: the identity it checks for and the stage it has come to.
pub struct Probe {
    id: ProviderId,
    stage: Stage,
}

impl Probe {
    /// The identity that the probe checks for.
    pub closed spec fn id(&self) -> ProviderId {
        self.id
    }

    /// The stage that the probe has come to.
    pub closed spec fn at(&self) -> Stage {
        self.stage
    }

    /// A probe for `id`, before its first check.
    pub fn new(id: ProviderId) -> (probe: Probe)
        ensures
            probe.id() == id,
            probe.at() == Stage::VendorFile,
    {
        Probe { id, stage: Stage::VendorFile }
    }

    /// The identity that the probe checks for.
    pub fn identifier(&self) -> (id: ProviderId)
        ensures
            id == self.id(),
    {
        self.id
    }

    /// The stage that the probe has come to.
    pub fn stage(&self) -> (stage: Stage)
        ensures
            stage == self.at(),
    {
        self.stage
    }

    /// What the driver is to do now.
    pub fn action(&self) -> (action: Action)
        ensures
            action == self.at().action(self.id()),
    {
        match self.stage {
            Stage::VendorFile => Action::ReadVendorFile,
            Stage::Metadata => Action::QueryMetadata,
            Stage::Reporting => Action::Report(self.id),
            Stage::Done => Action::Finish,
        }
    }

    /// Takes the outcome of the action and moves to the next stage. For a
    /// check, `outcome` says whether it confirmed the provider, and a check
    /// that failed in any way did not. For a report it says whether the report
    /// was taken; the probe goes on to return either way.
    pub fn advance(&mut self, outcome: bool)
        ensures
            final(self).id() == old(self).id(),
            final(self).at() == old(self).at().after(outcome),
    {
        self.stage = match self.stage {
            Stage::VendorFile => if outcome {
                Stage::Reporting
            } else {
                Stage::Metadata
            },
            Stage::Metadata => if outcome {
                Stage::Reporting
            } else {
                Stage::Done
            },
            Stage::Reporting => Stage::Done,
            Stage::Done => Stage::Done,
        };
    }

    /// Whether the probe is through.
    pub fn is_done(&self) -> (done: bool)
        ensures
            done == (self.at() == Stage::Done),
    {
        self.stage == Stage::Done
    }
}

/// A probe always returns: whatever its checks find and whether or not its
/// report is taken, it is through after three steps at most, and stays so.
pub proof fn law_probe_always_returns(first: bool, second: bool, third: bool, later: bool)
    ensures
        Stage::VendorFile.after(first).after(second).after(third) == Stage::Done,
        Stage::Done.after(later) == Stage::Done,
{
}

/// A probe reports if and only if one of its checks confirmed, and it asks the
/// metadata server only if the vendor file did not confirm. In particular a
/// probe whose checks both fail reports nothing and returns.
pub proof fn law_probe_reports_what_it_confirmed(vendor_file: bool, metadata: bool)
    ensures
        reports(vendor_file, metadata) == (vendor_file || metadata),
        asks_metadata(vendor_file) == !vendor_file,
        !vendor_file && !metadata ==> Stage::VendorFile.after(vendor_file).after(metadata)
            == Stage::Done,
{
}

} // verus!
