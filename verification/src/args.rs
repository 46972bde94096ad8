//! What the operator asks for.

use vstd::prelude::*;
use crate::text::owned;

verus! {

/// How the disk gets its partitions.
#[derive(Debug, Clone, Copy, PartialEq, Eq, Structural)]
pub enum PartitionMode {
    /// The whole device is partitioned anew.
    Auto,
    /// The operator names existing partitions.
    Manual,
}

/// A partition that the operator names in manual mode.
#[derive(Debug, Clone, PartialEq, Eq)]
pub struct Partition {
    /// Where the partition is mounted.
    pub mountpoint: String,
    /// The partition's block device.
    pub blockdevice: String,
    /// The file system to make on it, or the wish to leave it as it is.
    pub filesystem: String,
}

/// What a [`Partition`] says, over sequences of characters.
pub struct PartitionView {
    pub mountpoint: Seq<char>,
    pub blockdevice: Seq<char>,
    pub filesystem: Seq<char>,
}

impl View for Partition {
    type V = PartitionView;

    open spec fn view(&self) -> PartitionView {
        PartitionView {
            mountpoint: self.mountpoint@,
            blockdevice: self.blockdevice@,
            filesystem: self.filesystem@,
        }
    }
}

/// What a sequence of partitions says, one by one.
pub open spec fn partitions_view(partitions: Seq<Partition>) -> Seq<PartitionView> {
    Seq::new(partitions.len(), |i: int| partitions[i]@)
}

impl Partition {
    /// The partition `blockdevice`, to be mounted at `mountpoint` with the file
    /// system `filesystem`.
    pub fn new(mountpoint: &str, blockdevice: &str, filesystem: &str) -> (partition: Partition)
        ensures
            partition@ == (PartitionView {
                mountpoint: mountpoint@,
                blockdevice: blockdevice@,
                filesystem: filesystem@,
            }),
    {
        Partition {
            mountpoint: owned(mountpoint),
            blockdevice: owned(blockdevice),
            filesystem: owned(filesystem),
        }
    }
}

} // verus!
