//! Why a plan cannot be made.

use vstd::prelude::*;
use vstd::string::*;
use crate::step::Step;
use crate::text::glue;

verus! {

/// A request that is turned down. Each one ends the run with [`EXIT_STATUS`].
#[derive(Debug, Clone, PartialEq, Eq)]
pub enum PlanError {
    /// The device to partition does not exist.
    DeviceMissing { device: String },
    /// The operator named a file system that is not known.
    UnknownFilesystem { filesystem: String, blockdevice: String },
    /// The EFI directory does not exist in the target tree.
    EfiDirMissing { efidir: String },
    /// The device to put the boot loader on does not exist.
    BootDeviceMissing { device: String },
}

/// What a [`PlanError`] says, over sequences of characters.
pub enum PlanErrorView {
    DeviceMissing { device: Seq<char> },
    UnknownFilesystem { filesystem: Seq<char>, blockdevice: Seq<char> },
    EfiDirMissing { efidir: Seq<char> },
    BootDeviceMissing { device: Seq<char> },
}

impl View for PlanError {
    type V = PlanErrorView;

    open spec fn view(&self) -> PlanErrorView {
        match self {
            PlanError::DeviceMissing { device } => PlanErrorView::DeviceMissing {
                device: device@,
            },
            PlanError::UnknownFilesystem { filesystem, blockdevice } => {
                PlanErrorView::UnknownFilesystem {
                    filesystem: filesystem@,
                    blockdevice: blockdevice@,
                }
            },
            PlanError::EfiDirMissing { efidir } => PlanErrorView::EfiDirMissing {
                efidir: efidir@,
            },
            PlanError::BootDeviceMissing { device } => PlanErrorView::BootDeviceMissing {
                device: device@,
            },
        }
    }
}

/// A plan that ends in a fatal condition: the steps in `done` are performed,
/// then the run ends with `cause`.
#[derive(Debug, Clone, PartialEq, Eq)]
pub struct Halt {
    /// What is performed before the run ends.
    pub done: Vec<Step>,
    /// Why the run ends.
    pub cause: PlanError,
}

/// The status with which the process ends after a fatal condition.
pub const EXIT_STATUS: i32 = 1;

/// A path as `std` writes it for debugging: between double quotes, with the
/// characters that need it escaped.
pub uninterp spec fn path_debug(path: Seq<char>) -> Seq<char>;

/// Writes `path` as the `Debug` impl of `std::path::Path` does. The contract
/// claims only that the text depends on the path's characters alone.
#[verifier::external_body]
fn quote_path(path: &str) -> (quoted: String)
    ensures
        quoted@ == path_debug(path@),
{
    format!("{:?}", std::path::Path::new(path))
}

/// The message of `error`, where `quoted` is how its path is written for
/// debugging. An unknown file system is named as it is, and `quoted` is not used.
pub open spec fn message_text(error: PlanErrorView, quoted: Seq<char>) -> Seq<char> {
    match error {
        PlanErrorView::DeviceMissing { device } => "The device "@ + quoted + " doesn't exist"@,
        PlanErrorView::UnknownFilesystem { filesystem, blockdevice } => "Unknown filesystem "@
            + filesystem + ", used in partition "@ + blockdevice,
        PlanErrorView::EfiDirMissing { efidir } => "The efidir "@ + quoted + " doesn't exist"@,
        PlanErrorView::BootDeviceMissing { device } => "The device "@ + quoted
            + " does not exist"@,
    }
}

/// The path that the message of `error` names, or nothing where it names none.
pub open spec fn named_path(error: PlanErrorView) -> Seq<char> {
    match error {
        PlanErrorView::DeviceMissing { device } => device,
        PlanErrorView::UnknownFilesystem { filesystem, blockdevice } => Seq::empty(),
        PlanErrorView::EfiDirMissing { efidir } => efidir,
        PlanErrorView::BootDeviceMissing { device } => device,
    }
}

impl PlanError {
    /// The message for the operator, given how the error's path is written
    /// for debugging.
    pub fn message_with(&self, quoted: &str) -> (text: String)
        ensures
            text@ == message_text(self@, quoted@),
    {
        match self {
            PlanError::DeviceMissing { device } => {
                let mut text = glue("The device ", quoted);
                text.append(" doesn't exist");
                text
            },
            PlanError::UnknownFilesystem { filesystem, blockdevice } => {
                let mut text = glue("Unknown filesystem ", filesystem.as_str());
                text.append(", used in partition ");
                text.append(blockdevice.as_str());
                text
            },
            PlanError::EfiDirMissing { efidir } => {
                let mut text = glue("The efidir ", quoted);
                text.append(" doesn't exist");
                text
            },
            PlanError::BootDeviceMissing { device } => {
                let mut text = glue("The device ", quoted);
                text.append(" does not exist");
                text
            },
        }
    }

    /// The message for the operator.
    pub fn message(&self) -> (text: String)
        ensures
            text@ == message_text(self@, path_debug(named_path(self@))),
    {
        let quoted = match self {
            PlanError::DeviceMissing { device } => quote_path(device.as_str()),
            PlanError::UnknownFilesystem { filesystem, blockdevice } => String::new(),
            PlanError::EfiDirMissing { efidir } => quote_path(efidir.as_str()),
            PlanError::BootDeviceMissing { device } => quote_path(device.as_str()),
        };
        self.message_with(quoted.as_str())
    }
}

} // verus!
