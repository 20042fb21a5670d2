//! Making sure the indexing tool is on a volume before the catalog is used.
//!
//! The caller probes the file system, fetches and unpacks; [`advance`] decides
//! from each outcome what comes next.

use std::io::Read;
use vstd::prelude::*;
use crate::download::Outcome;
use crate::error::Error;
use crate::platform::{ArchiveKind, Platform};
use crate::text::{join, joined};

verus! {

/// Where the tool's binary is once the platform's archive has been unpacked
/// at the root of a volume.
pub open spec fn tool_path(platform: Platform, root: Seq<char>) -> Seq<char> {
    joined(
        platform,
        joined(platform, joined(platform, root, platform.spec_install_dir()), "bin"@),
        platform.spec_executable(),
    )
}

/// The tool's path on the volume mounted at `drive_mount_point`. It depends
/// on nothing but the platform and the mount point.
pub fn get_wit_path(platform: Platform, drive_mount_point: &str) -> (path: String)
    ensures
        path@ == tool_path(platform, drive_mount_point@),
{
    let base_dir = join(platform, drive_mount_point, platform.install_dir().as_str());
    let bin_dir = join(platform, base_dir.as_str(), "bin");
    join(platform, bin_dir.as_str(), platform.executable().as_str())
}

/// What has to be fetched, how it is packed and where it unpacks to.
#[derive(Debug, Clone, PartialEq, Eq)]
pub struct FetchPlan {
    pub url: String,
    pub kind: ArchiveKind,
    pub destination: String,
}

/// The fetch that puts the tool on the volume mounted at `drive_mount_point`.
pub fn download_wit(platform: Platform, drive_mount_point: &str) -> (plan: FetchPlan)
    ensures
        plan.url@ == platform.spec_download_url(),
        plan.kind == platform.spec_archive_kind(),
        plan.destination@ == drive_mount_point@,
{
    FetchPlan {
        url: platform.download_url(),
        kind: platform.archive_kind(),
        destination: String::from_str(drive_mount_point),
    }
}

/// How far provisioning has come on one volume.
#[derive(Debug, Clone, Copy, PartialEq, Eq, Structural)]
pub enum Provisioning {
    /// Not yet known whether the tool is there.
    Checking,
    Fetching,
    Installing,
    /// Unpacked; not yet known whether that put the tool in its place.
    Verifying,
    Ready,
    Failed(Error),
}

/// What the caller found out for the machine.
#[derive(Debug, Clone, Copy, PartialEq, Eq, Structural)]
pub enum Finding {
    /// Whether a file is at the tool's path.
    ToolPresent(bool),
    Fetched(Outcome),
    /// Whether the archive unpacked without an error.
    Unpacked(bool),
}

/// What the caller has to do next.
#[derive(Debug, Clone, Copy, PartialEq, Eq, Structural)]
pub enum Task {
    /// Look whether a file is at the tool's path.
    Probe,
    Fetch,
    Unpack,
    /// The tool is there: go on with it.
    Use,
    GiveUp(Error),
}

pub open spec fn spec_advance(state: Provisioning, finding: Finding) -> Provisioning {
    match (state, finding) {
        (Provisioning::Checking, Finding::ToolPresent(true)) => Provisioning::Ready,
        (Provisioning::Checking, Finding::ToolPresent(false)) => Provisioning::Fetching,
        (Provisioning::Fetching, Finding::Fetched(Outcome::Completed { .. })) => {
            Provisioning::Installing
        },
        (Provisioning::Fetching, Finding::Fetched(Outcome::Failed)) => Provisioning::Failed(
            Error::NetworkFailure,
        ),
        (Provisioning::Installing, Finding::Unpacked(true)) => Provisioning::Verifying,
        (Provisioning::Installing, Finding::Unpacked(false)) => Provisioning::Failed(
            Error::ArchiveFailure,
        ),
        (Provisioning::Verifying, Finding::ToolPresent(true)) => Provisioning::Ready,
        (Provisioning::Verifying, Finding::ToolPresent(false)) => Provisioning::Failed(
            Error::ProvisioningFailed,
        ),
        _ => state,
    }
}

pub open spec fn spec_task(state: Provisioning) -> Task {
    match state {
        Provisioning::Checking => Task::Probe,
        Provisioning::Fetching => Task::Fetch,
        Provisioning::Installing => Task::Unpack,
        Provisioning::Verifying => Task::Probe,
        Provisioning::Ready => Task::Use,
        Provisioning::Failed(error) => Task::GiveUp(error),
    }
}

/// The state after `finding`. A finding that answers no task of the state
/// leaves it as it is.
pub fn advance(state: Provisioning, finding: Finding) -> (next: Provisioning)
    ensures
        next == spec_advance(state, finding),
{
    match state {
        Provisioning::Checking => match finding {
            Finding::ToolPresent(true) => Provisioning::Ready,
            Finding::ToolPresent(false) => Provisioning::Fetching,
            _ => state,
        },
        Provisioning::Fetching => match finding {
            Finding::Fetched(Outcome::Completed { .. }) => Provisioning::Installing,
            Finding::Fetched(Outcome::Failed) => Provisioning::Failed(Error::NetworkFailure),
            _ => state,
        },
        Provisioning::Installing => match finding {
            Finding::Unpacked(true) => Provisioning::Verifying,
            Finding::Unpacked(false) => Provisioning::Failed(Error::ArchiveFailure),
            _ => state,
        },
        Provisioning::Verifying => match finding {
            Finding::ToolPresent(true) => Provisioning::Ready,
            Finding::ToolPresent(false) => Provisioning::Failed(Error::ProvisioningFailed),
            _ => state,
        },
        _ => state,
    }
}

/// What the caller has to do in `state`.
pub fn task(state: Provisioning) -> (task: Task)
    ensures
        task == spec_task(state),
{
    match state {
        Provisioning::Checking => Task::Probe,
        Provisioning::Fetching => Task::Fetch,
        Provisioning::Installing => Task::Unpack,
        Provisioning::Verifying => Task::Probe,
        Provisioning::Ready => Task::Use,
        Provisioning::Failed(error) => Task::GiveUp(error),
    }
}

/// The state that `findings`, taken in order, lead to from `state`.
pub open spec fn after(state: Provisioning, findings: Seq<Finding>) -> Provisioning
    decreases findings.len(),
{
    if findings.len() == 0 {
        state
    } else {
        after(spec_advance(state, findings.first()), findings.drop_first())
    }
}

/// The tasks that are asked for while `findings` come in, the one of
/// `state` first.
pub open spec fn tasks(state: Provisioning, findings: Seq<Finding>) -> Seq<Task>
    decreases findings.len(),
{
    if findings.len() == 0 {
        seq![spec_task(state)]
    } else {
        seq![spec_task(state)] + tasks(
            spec_advance(state, findings.first()),
            findings.drop_first(),
        )
    }
}

/// Once the tool is there, nothing but its use is ever asked for.
pub proof fn lemma_ready_stays_ready(findings: Seq<Finding>)
    ensures
        after(Provisioning::Ready, findings) == Provisioning::Ready,
        forall|i: int|
            0 <= i < tasks(Provisioning::Ready, findings).len() ==> #[trigger] tasks(
                Provisioning::Ready,
                findings,
            )[i] == Task::Use,
    decreases findings.len(),
{
    if findings.len() > 0 {
        lemma_ready_stays_ready(findings.drop_first());
    }
}

/// On a volume that already holds the tool, provisioning asks for one probe
/// and then for nothing but the tool's use: no fetch and no unpacking, however
/// often it is run and whatever is reported to it afterwards.
pub proof fn lemma_provisioned_needs_no_work(later: Seq<Finding>)
    ensures
        after(Provisioning::Checking, seq![Finding::ToolPresent(true)] + later)
            == Provisioning::Ready,
        forall|i: int|
            0 <= i < tasks(
                Provisioning::Checking,
                seq![Finding::ToolPresent(true)] + later,
            ).len() ==> {
                let asked = #[trigger] tasks(
                    Provisioning::Checking,
                    seq![Finding::ToolPresent(true)] + later,
                )[i];
                asked != Task::Fetch && asked != Task::Unpack
            },
{
    let findings = seq![Finding::ToolPresent(true)] + later;
    assert(findings.first() == Finding::ToolPresent(true));
    assert(findings.drop_first() =~= later);
    lemma_ready_stays_ready(later);
    let all = tasks(Provisioning::Checking, findings);
    assert(all == seq![Task::Probe] + tasks(Provisioning::Ready, later));
    assert forall|i: int| 0 <= i < all.len() implies {
        let asked = #[trigger] all[i];
        asked != Task::Fetch && asked != Task::Unpack
    } by {
        if i > 0 {
            assert(all[i] == tasks(Provisioning::Ready, later)[i - 1]);
        }
    }
}

/// How unpacking an archive ended.
#[derive(Debug, Clone, Copy, PartialEq, Eq)]
pub struct InstallReport {
    pub result: Result<(), Error>,
    /// The archive was unpacked, but its temporary file could not be
    /// deleted afterwards.
    pub archive_left_behind: bool,
}

/// What to make of an installation: it succeeded exactly when the archive
/// unpacked. The temporary file is deleted after a success only, and a
/// failure to delete it is reported beside the success, not in place of it.
pub fn install_report(unpacked: bool, archive_deleted: bool) -> (report: InstallReport)
    ensures
        report.result == if unpacked {
            Ok::<(), Error>(())
        } else {
            Err::<(), Error>(Error::ArchiveFailure)
        },
        report.archive_left_behind == (unpacked && !archive_deleted),
{
    if unpacked {
        InstallReport { result: Ok(()), archive_left_behind: !archive_deleted }
    } else {
        InstallReport { result: Err(Error::ArchiveFailure), archive_left_behind: false }
    }
}

#[verifier::external_type_specification]
#[verifier::external_body]
pub struct ExIoError(std::io::Error);

/// What `flate2::bufread::GzDecoder` reads out of the gzip stream `bytes`
/// until its end; nothing where reading fails.
pub uninterp spec fn gz_decoded(bytes: Seq<u8>) -> Option<Seq<u8>>;

/// Decompresses `bytes` with `flate2::bufread::GzDecoder`, read to its end.
/// Not proved: that the result is the one that `gz_decoded` names, which
/// says no more than that it depends on the bytes alone.
#[verifier::external_body]
fn gunzip(bytes: &[u8]) -> (r: Result<Vec<u8>, std::io::Error>)
    ensures
        match r {
            Ok(plain) => gz_decoded(bytes@) == Some(plain@),
            Err(_) => gz_decoded(bytes@) is None,
        },
{
    let mut plain = Vec::new();
    flate2::bufread::GzDecoder::new(bytes).read_to_end(&mut plain)?;
    Ok(plain)
}

/// The archive that is handed to the unpacker: a zip file goes as it came,
/// a compressed tar file is decompressed first. The kind alone decides; the
/// bytes are not looked at to guess it.
pub open spec fn spec_archive_payload(kind: ArchiveKind, bytes: Seq<u8>) -> Result<
    Seq<u8>,
    Error,
> {
    match kind {
        ArchiveKind::Zip => Ok(bytes),
        ArchiveKind::TarGz => match gz_decoded(bytes) {
            Some(plain) => Ok(plain),
            None => Err(Error::ArchiveFailure),
        },
    }
}

/// Readies a fetched archive for unpacking.
pub fn archive_payload(kind: ArchiveKind, bytes: Vec<u8>) -> (r: Result<Vec<u8>, Error>)
    ensures
        match r {
            Ok(payload) => spec_archive_payload(kind, bytes@) == Ok::<Seq<u8>, Error>(payload@),
            Err(e) => spec_archive_payload(kind, bytes@) == Err::<Seq<u8>, Error>(e),
        },
{
    match kind {
        ArchiveKind::Zip => Ok(bytes),
        ArchiveKind::TarGz => match gunzip(bytes.as_slice()) {
            Ok(plain) => Ok(plain),
            Err(_) => Err(Error::ArchiveFailure),
        },
    }
}

} // verus!
