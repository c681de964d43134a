//! The error types returned by the build pipeline.

use vstd::prelude::*;

verus! {

/// Something is wrong with the bootloader dependency or the metadata
/// describing it.
#[derive(Debug)]
pub enum BootloaderError {
    /// The kernel package declares no dependency named or renamed
    /// `bootloader`.
    BootloaderNotFound,
    /// The bootloader dependency has not the right format.
    BootloaderInvalid(String),
    /// The kernel package's manifest path is missing from the package graph.
    KernelPackageNotFound {
        /// The manifest path that was looked up.
        manifest_path: String,
    },
    /// A required key is missing from the package graph.
    CargoMetadataIncomplete {
        /// The key that was not found.
        key: String,
    },
}

/// An error that occurred while creating a new builder.
#[derive(Debug)]
pub enum BuilderError {
    /// The project's manifest could not be located.
    LocateCargoManifest(String),
    /// The metadata provider failed.
    CargoMetadata(String),
}

/// An error that occurred while building the kernel.
#[derive(Debug)]
pub enum BuildKernelError {
    /// An unexpected I/O error occurred.
    Io {
        /// Description of the failed I/O operation.
        message: String,
        /// The I/O error's text.
        error: String,
    },
    /// The `cargo xbuild` tool is not installed.
    XbuildNotFound,
    /// The kernel build command failed.
    BuildFailed {
        /// The build command's standard error output.
        stderr: Vec<u8>,
    },
    /// The build record stream was not valid UTF-8.
    BuildJsonOutputInvalidUtf8(String),
    /// A line of the build record stream was not valid JSON; holds the line.
    BuildJsonOutputInvalidJson(String),
}

/// An error that occurred while creating a bootable disk image.
#[derive(Debug)]
pub enum CreateBootimageError {
    /// Resolving or configuring the bootloader failed.
    Bootloader(BootloaderError),
    /// The metadata provider failed.
    CargoMetadata(String),
    /// The bootloader build command failed.
    BootloaderBuildFailed {
        /// The build command's standard error output.
        stderr: Vec<u8>,
    },
    /// Turning the bootloader executable into a disk image failed.
    DiskImage(DiskImageError),
    /// An unexpected I/O error occurred.
    Io {
        /// Description of the failed I/O operation.
        message: String,
        /// The I/O error's text.
        error: String,
    },
    /// The build record stream was not valid UTF-8.
    BuildJsonOutputInvalidUtf8(String),
    /// A line of the build record stream was not valid JSON; holds the line.
    BuildJsonOutputInvalidJson(String),
}

/// An error that occurred while converting and padding the disk image.
#[derive(Debug)]
pub enum DiskImageError {
    /// The toolset providing the object-copy utility was not found.
    LlvmToolsNotFound,
    /// Another problem occurred while locating the toolset.
    LlvmTools(String),
    /// The toolset does not contain the object-copy utility.
    LlvmObjcopyNotFound,
    /// The object-copy command failed.
    ObjcopyFailed {
        /// The command's standard error output.
        stderr: Vec<u8>,
    },
    /// Creating the image with the ISO-mastering tool failed.
    MkRescueFailed {
        /// The tool's standard error output.
        stderr: Vec<u8>,
    },
    /// An unexpected I/O error occurred.
    Io {
        /// Description of the failed I/O operation.
        message: String,
        /// The I/O error's text.
        error: String,
    },
}

} // verus!
