//! The volumes that can hold a game library.
//!
//! The caller enumerates the disks of the machine; this module picks the
//! ones that qualify. A [`Drive`] is a snapshot: to refresh one, enumerate
//! again and look its mount point up with [`refresh`].

use vstd::prelude::*;
use crate::error::Error;

verus! {

/// A disk as the platform reports it.
#[derive(Debug, Clone, PartialEq, Eq)]
pub struct Disk {
    pub name: String,
    /// Capacity in bytes.
    pub total_space: u64,
    /// Free space in bytes.
    pub available_space: u64,
    pub mount_point: String,
    pub removable: bool,
}

/// A removable volume. Its mount point is what identifies it.
#[derive(Debug, Clone, PartialEq, Eq)]
pub struct Drive {
    pub name: String,
    /// Capacity in bytes.
    pub total_space: u64,
    /// Free space in bytes.
    pub available_space: u64,
    pub mount_point: String,
}

pub struct DiskView {
    pub name: Seq<char>,
    pub total_space: u64,
    pub available_space: u64,
    pub mount_point: Seq<char>,
    pub removable: bool,
}

pub struct DriveView {
    pub name: Seq<char>,
    pub total_space: u64,
    pub available_space: u64,
    pub mount_point: Seq<char>,
}

impl View for Disk {
    type V = DiskView;

    open spec fn view(&self) -> DiskView {
        DiskView {
            name: self.name@,
            total_space: self.total_space,
            available_space: self.available_space,
            mount_point: self.mount_point@,
            removable: self.removable,
        }
    }
}

impl View for Drive {
    type V = DriveView;

    open spec fn view(&self) -> DriveView {
        DriveView {
            name: self.name@,
            total_space: self.total_space,
            available_space: self.available_space,
            mount_point: self.mount_point@,
        }
    }
}

pub open spec fn disks_view(disks: Seq<Disk>) -> Seq<DiskView> {
    disks.map_values(|d: Disk| d@)
}

pub open spec fn drives_view(drives: Seq<Drive>) -> Seq<DriveView> {
    drives.map_values(|d: Drive| d@)
}

impl DiskView {
    /// A disk qualifies when the platform flags it removable and it is
    /// mounted somewhere.
    pub open spec fn qualifies(self) -> bool {
        self.removable && self.mount_point.len() > 0
    }

    pub open spec fn as_drive(self) -> DriveView {
        DriveView {
            name: self.name,
            total_space: self.total_space,
            available_space: self.available_space,
            mount_point: self.mount_point,
        }
    }
}

/// The drives among `disks`: those that qualify, in the order of `disks`.
pub open spec fn drives_among(disks: Seq<DiskView>) -> Seq<DriveView>
    decreases disks.len(),
{
    if disks.len() == 0 {
        seq![]
    } else if disks.last().qualifies() {
        drives_among(disks.drop_last()).push(disks.last().as_drive())
    } else {
        drives_among(disks.drop_last())
    }
}

/// Every drive among `disks` has a mount point and is one of the disks that
/// the platform flags removable.
pub proof fn lemma_drives_are_removable(disks: Seq<DiskView>)
    ensures
        forall|i: int|
            0 <= i < drives_among(disks).len() ==> {
                let drive = #[trigger] drives_among(disks)[i];
                &&& drive.mount_point.len() > 0
                &&& exists|j: int|
                    0 <= j < disks.len() && disks[j].removable && disks[j].as_drive() == drive
            },
    decreases disks.len(),
{
    if disks.len() > 0 {
        let front = disks.drop_last();
        lemma_drives_are_removable(front);
        assert forall|i: int| 0 <= i < drives_among(disks).len() implies {
            let drive = #[trigger] drives_among(disks)[i];
            &&& drive.mount_point.len() > 0
            &&& exists|j: int|
                0 <= j < disks.len() && disks[j].removable && disks[j].as_drive() == drive
        } by {
            let drive = drives_among(disks)[i];
            if i < drives_among(front).len() {
                assert(drive == drives_among(front)[i]);
                let j = choose|j: int|
                    0 <= j < front.len() && front[j].removable && front[j].as_drive() == drive;
                assert(disks[j] == front[j]);
            } else {
                let j = disks.len() - 1;
                assert(disks[j].removable && disks[j].as_drive() == drive);
            }
        }
    }
}

fn drive_from(disk: &Disk) -> (drive: Drive)
    ensures
        drive@ == disk@.as_drive(),
{
    Drive {
        name: disk.name.clone(),
        total_space: disk.total_space,
        available_space: disk.available_space,
        mount_point: disk.mount_point.clone(),
    }
}

fn qualifies(disk: &Disk) -> (yes: bool)
    ensures
        yes == disk@.qualifies(),
{
    disk.removable && disk.mount_point.as_str().unicode_len() > 0
}

/// The drives among the disks of the machine.
pub fn list(disks: &Vec<Disk>) -> (drives: Vec<Drive>)
    ensures
        drives_view(drives@) == drives_among(disks_view(disks@)),
        forall|i: int|
            0 <= i < drives.len() ==> {
                &&& (#[trigger] drives[i]).mount_point@.len() > 0
                &&& exists|j: int|
                    0 <= j < disks.len() && disks[j].removable && disks[j]@.as_drive()
                        == drives[i]@
            },
{
    let mut drives: Vec<Drive> = Vec::new();
    let ghost all = disks_view(disks@);
    let mut i: usize = 0;
    proof {
        assert(all.take(0) =~= Seq::<DiskView>::empty());
        assert(drives_view(drives@) =~= Seq::<DriveView>::empty());
    }
    while i < disks.len()
        invariant
            i <= disks.len(),
            all == disks_view(disks@),
            drives_view(drives@) == drives_among(all.take(i as int)),
        decreases disks.len() - i,
    {
        let ghost before = drives@;
        proof {
            assert(all.take(i + 1).drop_last() =~= all.take(i as int));
            assert(all.take(i + 1).last() == disks@[i as int]@);
        }
        if qualifies(&disks[i]) {
            let drive = drive_from(&disks[i]);
            drives.push(drive);
            proof {
                assert(drives_view(drives@) =~= drives_view(before).push(drive@));
            }
        }
        i = i + 1;
    }
    proof {
        assert(all.take(i as int) =~= all);
        lemma_drives_are_removable(all);
        assert forall|k: int| 0 <= k < drives.len() implies {
            &&& (#[trigger] drives[k]).mount_point@.len() > 0
            &&& exists|j: int|
                0 <= j < disks.len() && disks[j].removable && disks[j]@.as_drive() == drives[k]@
        } by {
            let drive = drives_among(all)[k];
            assert(drive == drives[k]@);
            let j = choose|j: int|
                0 <= j < all.len() && all[j].removable && all[j].as_drive() == drive;
            assert(all[j] == disks[j]@);
        }
    }
    drives
}

/// Whether the drive at place `i` of `drives` is the first that is mounted at
/// `mount_point`.
pub open spec fn is_first_at(drives: Seq<DriveView>, i: int, mount_point: Seq<char>) -> bool {
    &&& 0 <= i < drives.len()
    &&& drives[i].mount_point == mount_point
    &&& forall|j: int| 0 <= j < i ==> (#[trigger] drives[j]).mount_point != mount_point
}

/// The drive that is mounted at `identity` now, from a fresh enumeration of
/// the disks. It is the first such drive of the enumeration; where no drive
/// is mounted there any more the volume is reported as not found.
pub fn refresh(disks: &Vec<Disk>, identity: &str) -> (r: Result<Drive, Error>)
    ensures
        match r {
            Ok(drive) => exists|i: int|
                #[trigger] is_first_at(drives_among(disks_view(disks@)), i, identity@)
                    && drives_among(disks_view(disks@))[i] == drive@,
            Err(e) => e == Error::VolumeNotFound && forall|i: int|
                0 <= i < drives_among(disks_view(disks@)).len() ==> (#[trigger] drives_among(
                    disks_view(disks@),
                )[i]).mount_point != identity@,
        },
{
    let wanted = String::from_str(identity);
    let mut drives = list(disks);
    let ghost found = drives_among(disks_view(disks@));
    let mut i: usize = 0;
    while i < drives.len()
        invariant
            i <= drives.len(),
            wanted@ == identity@,
            found == drives_among(disks_view(disks@)),
            drives_view(drives@) == found,
            forall|j: int| 0 <= j < i ==> (#[trigger] found[j]).mount_point != identity@,
        decreases drives.len() - i,
    {
        proof {
            assert(found[i as int] == drives@[i as int]@);
        }
        if drives[i].mount_point == wanted {
            let drive = drives.swap_remove(i);
            proof {
                assert(found[i as int] == drive@);
                assert(is_first_at(found, i as int, identity@));
            }
            return Ok(drive);
        }
        i = i + 1;
    }
    proof {
        assert(found.len() == drives.len());
    }
    Err(Error::VolumeNotFound)
}

} // verus!
