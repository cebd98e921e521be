//! What a container does at run time, as decisions: where its image comes
//! from, which command is executed, which steps isolate it and in what
//! order, what is mounted and created on the way, how the end of its
//! process is read, and how its filesystem becomes an image again.
//!
//! Every function here computes what is to be done or what an outcome
//! means. The caller does the work on the kernel and the disk.

use vstd::prelude::*;
use vstd::string::*;
use crate::config::Config;
use crate::container::{Container, ContainerError};
use crate::image::{ExtractedImage, Extraction, Image, ImageError, ImageStore};
use crate::text::{contains_char, holds, join_path, joined, slice_of};

verus! {

/// Where the root filesystem of a container comes from.
#[derive(Debug, PartialEq, Eq)]
pub enum ImageSource {
    /// The image is already unpacked here.
    Cached(ExtractedImage),
    /// The image has to be unpacked to `destination` first.
    Archive { image: Image, destination: String },
}

/// The namespaces that a process is created in.
#[derive(Debug, Clone, Copy, PartialEq, Eq, Structural)]
pub struct Namespaces {
    /// A process-id namespace of its own.
    pub pid: bool,
    /// A hostname namespace of its own.
    pub uts: bool,
    /// A mount namespace of its own.
    pub mount: bool,
    /// A network namespace of its own.
    pub network: bool,
    /// A user namespace of its own.
    pub user: bool,
}

/// The namespaces of a container's process: fresh ones for process ids,
/// hostname and mounts; network and users stay those of the host.
pub open spec fn container_namespaces() -> Namespaces {
    Namespaces { pid: true, uts: true, mount: true, network: false, user: false }
}

/// The namespaces that a container's process is created in.
pub fn namespaces() -> (r: Namespaces)
    ensures
        r == container_namespaces(),
{
    Namespaces { pid: true, uts: true, mount: true, network: false, user: false }
}

/// The exit status by which a container's process says that its setup
/// failed. A command that exits with it is read as a failed setup.
pub const SETUP_FAILURE_STATUS: i32 = 242;

/// The file that an export writes the archive to before it is imported.
pub open spec fn temporary_archive() -> Seq<char> {
    "/tmp/image.tar.gz"@
}

/// How the process of a container ended, as its parent saw it.
#[derive(Debug, Clone, PartialEq, Eq)]
pub enum ChildReport {
    /// The process could not be started or awaited.
    Failed(String),
    /// The process exited with this status.
    Exited(i32),
    /// The process ended otherwise: by a signal, or it did not end.
    Other,
}

/// What running a command comes to, from how the process ended.
pub open spec fn run_result(child: ChildReport) -> Result<(), ContainerError> {
    match child {
        ChildReport::Failed(cause) => Err(ContainerError::ContainerExecutionError(cause)),
        ChildReport::Exited(status) => if status == 0 {
            Ok(())
        } else if status == SETUP_FAILURE_STATUS {
            Err(ContainerError::ContainerSetupError)
        } else {
            Err(ContainerError::CommandExitedWithError(status))
        },
        ChildReport::Other => Err(ContainerError::ContainerExitedAbnormally),
    }
}

/// The steps that isolate a container's process, each named by what it
/// does.
#[derive(Debug, Clone, Copy, PartialEq, Eq, Structural)]
pub enum SetupStep {
    /// Put the process into the container's CPU control group.
    CpuCgroup,
    /// Put the process into the container's memory control group.
    MemoryCgroup,
    /// Set the hostname to the container's name.
    Hostname,
    /// Remount `/` private and recursive, so that no mount leaks out.
    PrivateRoot,
    /// Mount the overlay filesystem at the container's root.
    Overlay,
    /// Mount the kernel's filesystems inside the root.
    KernelFilesystems,
    /// Create the device nodes inside the root.
    Devices,
    /// Pivot to the new root and change to `/`.
    PivotRoot,
    /// Unmount the old root lazily.
    DetachOldRoot,
    /// Remove the directory that the old root was mounted at.
    RemoveOldRoot,
    /// Replace the process with the shell that runs the command.
    Exec,
}

/// The steps of the setup in the order in which they are taken. Each must
/// succeed before the next is tried.
pub open spec fn setup_order() -> Seq<SetupStep> {
    seq![
        SetupStep::CpuCgroup,
        SetupStep::MemoryCgroup,
        SetupStep::Hostname,
        SetupStep::PrivateRoot,
        SetupStep::Overlay,
        SetupStep::KernelFilesystems,
        SetupStep::Devices,
        SetupStep::PivotRoot,
        SetupStep::DetachOldRoot,
        SetupStep::RemoveOldRoot,
        SetupStep::Exec,
    ]
}

/// Whether `a` is taken before `b`.
pub open spec fn precedes(a: SetupStep, b: SetupStep) -> bool {
    exists|i: int, j: int|
        0 <= i < j < setup_order().len() && setup_order()[i] == a && setup_order()[j] == b
}

/// The order of the setup keeps its discipline: the root is made private
/// before anything is mounted, the overlay stands before the kernel's
/// filesystems, the devices are created before the pivot, the pivot comes
/// before the old root is detached and removed, and that before the
/// command is executed. No step is taken twice.
pub proof fn setup_order_is_disciplined()
    ensures
        precedes(SetupStep::PrivateRoot, SetupStep::Overlay),
        precedes(SetupStep::PrivateRoot, SetupStep::KernelFilesystems),
        precedes(SetupStep::Overlay, SetupStep::KernelFilesystems),
        precedes(SetupStep::Devices, SetupStep::PivotRoot),
        precedes(SetupStep::PivotRoot, SetupStep::DetachOldRoot),
        precedes(SetupStep::DetachOldRoot, SetupStep::RemoveOldRoot),
        precedes(SetupStep::RemoveOldRoot, SetupStep::Exec),
        forall|i: int, j: int|
            0 <= i < j < setup_order().len() ==> setup_order()[i] != setup_order()[j],
{
    let s = setup_order();
    assert(s[3] == SetupStep::PrivateRoot && s[4] == SetupStep::Overlay);
    assert(s[5] == SetupStep::KernelFilesystems && s[6] == SetupStep::Devices);
    assert(s[7] == SetupStep::PivotRoot && s[8] == SetupStep::DetachOldRoot);
    assert(s[9] == SetupStep::RemoveOldRoot && s[10] == SetupStep::Exec);
    assert(s[0] == SetupStep::CpuCgroup && s[1] == SetupStep::MemoryCgroup);
    assert(s[2] == SetupStep::Hostname);
}

/// The steps of the setup, in the order in which they are taken.
pub fn setup_sequence() -> (r: Vec<SetupStep>)
    ensures
        r@ == setup_order(),
{
    let mut steps: Vec<SetupStep> = Vec::new();
    steps.push(SetupStep::CpuCgroup);
    steps.push(SetupStep::MemoryCgroup);
    steps.push(SetupStep::Hostname);
    steps.push(SetupStep::PrivateRoot);
    steps.push(SetupStep::Overlay);
    steps.push(SetupStep::KernelFilesystems);
    steps.push(SetupStep::Devices);
    steps.push(SetupStep::PivotRoot);
    steps.push(SetupStep::DetachOldRoot);
    steps.push(SetupStep::RemoveOldRoot);
    steps.push(SetupStep::Exec);
    assert(steps@ =~= setup_order());
    steps
}

/// The context that a failure of a step is reported under. Setting the
/// hostname and executing the command are reported with their cause alone.
pub open spec fn step_context(step: SetupStep) -> Option<Seq<char>> {
    match step {
        SetupStep::CpuCgroup => Some("cannot setup a CPU cgroup"@),
        SetupStep::MemoryCgroup => Some("cannot setup a memory cgroup"@),
        SetupStep::Hostname => None,
        SetupStep::PrivateRoot => Some("cannot mount"@),
        SetupStep::Overlay => Some("cannot setup the container's root filesystem"@),
        SetupStep::KernelFilesystems => Some("cannot mount kernel-related filesystems"@),
        SetupStep::Devices => Some("cannot create devices"@),
        SetupStep::PivotRoot => Some("cannot move to new root"@),
        SetupStep::DetachOldRoot => Some("cannot unmount the old root"@),
        SetupStep::RemoveOldRoot => Some("cannot remove the old root"@),
        SetupStep::Exec => None,
    }
}

/// The report of a failed setup step: `error: `, the step's context and a
/// colon where it has one, then the cause.
pub open spec fn failure_report(step: SetupStep, cause: Seq<char>) -> Seq<char> {
    match step_context(step) {
        Some(context) => "error: "@ + context + ": "@ + cause,
        None => "error: "@ + cause,
    }
}

/// The context that a failure of `step` is reported under, if any.
pub fn setup_context(step: SetupStep) -> (r: Option<&'static str>)
    ensures
        match step_context(step) {
            Some(context) => r matches Some(text) && text@ == context,
            None => r is None,
        },
{
    match step {
        SetupStep::CpuCgroup => Some("cannot setup a CPU cgroup"),
        SetupStep::MemoryCgroup => Some("cannot setup a memory cgroup"),
        SetupStep::Hostname => None,
        SetupStep::PrivateRoot => Some("cannot mount"),
        SetupStep::Overlay => Some("cannot setup the container's root filesystem"),
        SetupStep::KernelFilesystems => Some("cannot mount kernel-related filesystems"),
        SetupStep::Devices => Some("cannot create devices"),
        SetupStep::PivotRoot => Some("cannot move to new root"),
        SetupStep::DetachOldRoot => Some("cannot unmount the old root"),
        SetupStep::RemoveOldRoot => Some("cannot remove the old root"),
        SetupStep::Exec => None,
    }
}

/// The line that a container's process prints when `step` fails with
/// `cause`, before it exits with the status of a failed setup.
pub fn setup_failure_report(step: SetupStep, cause: &str) -> (r: String)
    ensures
        r@ == failure_report(step, cause@),
{
    match setup_context(step) {
        Some(context) => String::from_str("error: ").concat(context).concat(": ").concat(cause),
        None => String::from_str("error: ").concat(cause),
    }
}

/// The options of a mount.
#[derive(Debug, Clone, Copy, PartialEq, Eq, Structural)]
pub struct MountFlags {
    /// Access times are not updated.
    pub no_atime: bool,
    /// Set-user-id bits are ignored.
    pub no_suid: bool,
    /// Access times are always updated.
    pub strict_atime: bool,
    /// The mount's propagation is made private.
    pub private: bool,
    /// The change applies to the mounts below as well.
    pub recursive: bool,
    /// The kernel does not log the mount.
    pub silent: bool,
}

/// A mount to perform.
#[derive(Debug, Clone, PartialEq, Eq)]
pub struct Mount {
    /// What is mounted, where the filesystem has a source.
    pub source: Option<String>,
    /// Where it is mounted.
    pub target: String,
    /// The type of the filesystem, where one is mounted.
    pub fstype: Option<String>,
    /// The options of the mount.
    pub flags: MountFlags,
    /// The data handed to the filesystem, where it takes any.
    pub data: Option<String>,
}

/// Whether `m` mounts the kernel filesystem `fstype` at `target` with
/// `flags`, without source or data.
pub open spec fn mounts(m: Mount, target: Seq<char>, fstype: Seq<char>, flags: MountFlags) -> bool {
    &&& m.source is None
    &&& m.target@ == target
    &&& m.fstype matches Some(t) && t@ == fstype
    &&& m.flags == flags
    &&& m.data is None
}

/// No option at all.
pub open spec fn no_flags() -> MountFlags {
    MountFlags {
        no_atime: false,
        no_suid: false,
        strict_atime: false,
        private: false,
        recursive: false,
        silent: false,
    }
}

/// Access times are not updated, and nothing else is asked for.
pub open spec fn no_atime() -> MountFlags {
    MountFlags { no_atime: true, ..no_flags() }
}

/// Set-user-id bits are ignored and access times are always updated.
pub open spec fn no_suid_strict_atime() -> MountFlags {
    MountFlags { no_suid: true, strict_atime: true, ..no_flags() }
}

/// Private propagation, for the mounts below as well.
pub open spec fn private_recursive() -> MountFlags {
    MountFlags { private: true, recursive: true, ..no_flags() }
}

/// The kernel does not log the mount, and nothing else is asked for.
pub open spec fn silent() -> MountFlags {
    MountFlags { silent: true, ..no_flags() }
}

/// The mount that a kernel filesystem takes.
fn kernel_mount(target: String, fstype: &str, flags: MountFlags) -> (r: Mount)
    ensures
        mounts(r, target@, fstype@, flags),
{
    Mount { source: None, target, fstype: Some(String::from_str(fstype)), flags, data: None }
}

/// The remount of `/` that keeps every later mount of the container from
/// leaking out: no source, no type, no data, private and recursive.
pub fn private_root() -> (r: Mount)
    ensures
        r.source is None,
        r.target@ == "/"@,
        r.fstype is None,
        r.flags == private_recursive(),
        r.data is None,
{
    Mount {
        source: None,
        target: String::from_str("/"),
        fstype: None,
        flags: MountFlags {
            no_atime: false,
            no_suid: false,
            strict_atime: false,
            private: true,
            recursive: true,
            silent: false,
        },
        data: None,
    }
}

/// A device node to create inside a container's root.
#[derive(Debug, Clone, PartialEq, Eq)]
pub struct Device {
    /// Where to create the node.
    pub path: String,
    /// The major number of the device.
    pub major: u64,
    /// The minor number of the device.
    pub minor: u64,
    /// The device number that the two make.
    pub number: u64,
}

/// The permissions of a device node: reading and writing for the owner,
/// the group and all others.
pub const DEVICE_MODE: u32 = 0o666;

/// The device number that a major and a minor number make, as Linux packs
/// them.
pub open spec fn device_number_of(major: u64, minor: u64) -> u64 {
    ((major & 0xffff_f000) << 32) | ((major & 0x0000_0fff) << 8) | ((minor & 0xffff_ff00) << 12) | (
    minor & 0x0000_00ff)
}

/// Packs a device number. Calls `nix::sys::stat::makedev`. Trusted: that
/// the result is the four masked and shifted parts of the two numbers,
/// or-ed together, as the function's body on Linux writes them.
#[verifier::external_body]
pub(crate) fn device_number(major: u64, minor: u64) -> (r: u64)
    ensures
        r == device_number_of(major, minor),
{
    nix::sys::stat::makedev(major, minor)
}

/// Whether `d` is the character device `major`:`minor` at `path`.
pub open spec fn is_device(d: Device, path: Seq<char>, major: u64, minor: u64) -> bool {
    d.path@ == path && d.major == major && d.minor == minor && d.number == device_number_of(
        major,
        minor,
    )
}

/// The character device `major`:`minor`, to be created as `name` in `dir`.
pub fn device(dir: &str, name: &str, major: u64, minor: u64) -> (r: Device)
    ensures
        is_device(r, joined(dir@, name@), major, minor),
{
    Device { path: join_path(dir, name), major, minor, number: device_number(major, minor) }
}

/// The control group of a container under one controller.
#[derive(Debug, Clone, PartialEq, Eq)]
pub struct Cgroup {
    /// The directory of the group, to be created with its parents where
    /// it does not exist.
    pub directory: String,
    /// The file in it that takes the identifier of the process.
    pub tasks_file: String,
}

/// The directory of the control group of the container `name` under the
/// controller `group`.
pub open spec fn cgroup_directory(group: Seq<char>, name: Seq<char>) -> Seq<char> {
    joined(joined(joined("/sys/fs/cgroup"@, group), "jocker"@), name)
}

/// The overlay filesystem that makes a container's root.
#[derive(Debug, Clone, PartialEq, Eq)]
pub struct Overlay {
    /// The writable upper layer.
    pub upper_dir: String,
    /// The working directory that the overlay filesystem needs.
    pub work_dir: String,
    /// Where the merged tree is mounted: the container's root.
    pub rootfs: String,
    /// The data of the mount, which names the three layers.
    pub options: String,
}

/// What went on when an overlay was set up.
#[derive(Debug, Clone, PartialEq, Eq)]
pub enum OverlayOutcome {
    /// One of the three directories is absent and could not be created.
    DirectoryFailed(String),
    /// The directories exist and the overlay could not be mounted.
    MountFailed,
    /// The overlay is mounted at the container's root.
    Mounted,
}

impl Overlay {
    /// The mount of the overlay: source and type are `overlay`, the target
    /// is the container's root, the data names the three layers, and the
    /// kernel is asked not to log it.
    pub fn mount(&self) -> (r: Mount)
        ensures
            r.source matches Some(source) && source@ == "overlay"@,
            r.target@ == self.rootfs@,
            r.fstype matches Some(fstype) && fstype@ == "overlay"@,
            r.flags == silent(),
            r.data matches Some(data) && data@ == self.options@,
    {
        Mount {
            source: Some(String::from_str("overlay")),
            target: self.rootfs.clone(),
            fstype: Some(String::from_str("overlay")),
            flags: MountFlags {
                no_atime: false,
                no_suid: false,
                strict_atime: false,
                private: false,
                recursive: false,
                silent: true,
            },
            data: Some(self.options.clone()),
        }
    }

    /// The result of setting the overlay up: a directory that could not be
    /// created is a `CreationError` with the cause, a failed mount a
    /// `ContainerSetupError`.
    pub fn result(&self, outcome: OverlayOutcome) -> (r: Result<(), ContainerError>)
        ensures
            match outcome {
                OverlayOutcome::DirectoryFailed(cause) => r == Err::<(), ContainerError>(
                    ContainerError::CreationError(cause),
                ),
                OverlayOutcome::MountFailed => r == Err::<(), ContainerError>(
                    ContainerError::ContainerSetupError,
                ),
                OverlayOutcome::Mounted => r is Ok,
            },
    {
        match outcome {
            OverlayOutcome::DirectoryFailed(cause) => Err(ContainerError::CreationError(cause)),
            OverlayOutcome::MountFailed => Err(ContainerError::ContainerSetupError),
            OverlayOutcome::Mounted => Ok(()),
        }
    }
}

/// The data of an overlay mount over the three layers.
pub open spec fn overlay_options(lower: Seq<char>, upper: Seq<char>, work: Seq<char>) -> Seq<char> {
    "lowerdir="@ + lower + ",upperdir="@ + upper + ",workdir="@ + work
}

/// The pivot to a container's root.
#[derive(Debug, Clone, PartialEq, Eq)]
pub struct Pivot {
    /// The directory that becomes `/`.
    pub new_root: String,
    /// The directory, to be created inside the new root, that the old root
    /// is moved to.
    pub put_old: String,
    /// Where the old root is found after the pivot, to be unmounted and
    /// removed.
    pub old_root: String,
}

/// What went on when a container was exported.
#[derive(Debug, Clone, PartialEq, Eq)]
pub enum ExportOutcome {
    /// The filesystem could not be archived.
    ArchiveFailed(String),
    /// The archive was written and the root could not be unmounted.
    UnmountFailed,
    /// The root was unmounted and the archive could not be imported.
    ImportFailed(ImageError),
    /// The archive was imported and the temporary file could not be removed.
    CleanupFailed(String),
    /// The archive was imported and the temporary file removed.
    Completed,
}

/// What an export into the store at `images` under `name` comes to: the
/// directory of the new image, or the error of the stage that failed.
pub open spec fn export_result(images: Seq<char>, name: Seq<char>, outcome: ExportOutcome) -> Result<
    Seq<char>,
    ContainerError,
> {
    match outcome {
        ExportOutcome::ArchiveFailed(cause) => Err(ContainerError::ArchiveError(cause)),
        ExportOutcome::UnmountFailed => Err(ContainerError::ContainerSetupError),
        ExportOutcome::ImportFailed(e) => Err(ContainerError::ExportError(e)),
        ExportOutcome::CleanupFailed(cause) => Err(ContainerError::ArchiveError(cause)),
        ExportOutcome::Completed => Ok(joined(images, name)),
    }
}

/// The rootfs directory of the container at `path`.
pub open spec fn rootfs_of(path: Seq<char>) -> Seq<char> {
    joined(path, "rootfs"@)
}

impl Container {
    /// Where this container's root filesystem comes from. `cached` says
    /// whether the extracted image's directory exists, `stored` whether the
    /// image's directory does.
    ///
    /// An image that is already extracted is used as it is. Otherwise the
    /// stored image is to be unpacked to the directory where the extracted
    /// image was looked for: the one of the image's name in the store of
    /// extracted images. Where there is neither, the container cannot be
    /// initialized: the image is invalid.
    pub fn extract_image(&self, config: &Config, cached: bool, stored: bool) -> (r: Result<
        ImageSource,
        ContainerError,
    >)
        ensures
            cached ==> (r matches Ok(ImageSource::Cached(extracted)) && extracted.spec_path()
                == joined(config.spec_extracted_images(), self@.image_name)),
            !cached && stored ==> (r matches Ok(ImageSource::Archive { image, destination })
                && image.spec_path() == joined(config.spec_images(), self@.image_name)
                && destination@ == joined(config.spec_extracted_images(), self@.image_name)),
            !cached && !stored ==> r == Err::<ImageSource, ContainerError>(
                ContainerError::InitializationError(ImageError::InvalidImage),
            ),
    {
        let extracted_image_store = config.extracted_image_store();
        match extracted_image_store.get_extracted_image(self.image_name(), cached) {
            Some(extracted) => Ok(ImageSource::Cached(extracted)),
            None => {
                let image_store = config.image_store();
                match image_store.get_image(self.image_name(), stored) {
                    None => Err(ContainerError::InitializationError(ImageError::InvalidImage)),
                    Some(image) => {
                        let destination = extracted_image_store.image_path(self.image_name());
                        Ok(ImageSource::Archive { image, destination })
                    },
                }
            },
        }
    }

    /// The extracted image that a source gives: the cached one as it is,
    /// or the one unpacked at the destination; a failure to unpack is an
    /// `InitializationError`.
    pub fn initialize(source: ImageSource, outcome: Extraction) -> (r: Result<
        ExtractedImage,
        ContainerError,
    >)
        ensures
            match source {
                ImageSource::Cached(extracted) => r == Ok::<ExtractedImage, ContainerError>(
                    extracted,
                ),
                ImageSource::Archive { image, destination } => match outcome {
                    Extraction::Unopenable => r == Err::<ExtractedImage, ContainerError>(
                        ContainerError::InitializationError(ImageError::InvalidImage),
                    ),
                    Extraction::Corrupt(cause) => r == Err::<ExtractedImage, ContainerError>(
                        ContainerError::InitializationError(ImageError::UnpackError(cause)),
                    ),
                    Extraction::Unpacked => r matches Ok(extracted) && extracted.spec_path()
                        == destination@,
                },
            },
    {
        match source {
            ImageSource::Cached(extracted) => Ok(extracted),
            ImageSource::Archive { image, destination } => {
                match image.extract_to(destination.as_str(), outcome) {
                    Ok(extracted) => Ok(extracted),
                    Err(e) => Err(ContainerError::InitializationError(e)),
                }
            },
        }
    }

    /// The arguments that a container executes for `command`: `/bin/sh`,
    /// `-c` and the command. A command that holds a null character cannot
    /// be handed to a shell and is an `InvalidCommand`.
    pub fn shell_arguments(command: &str) -> (r: Result<Vec<String>, ContainerError>)
        ensures
            holds(command@, '\0') ==> r == Err::<Vec<String>, ContainerError>(
                ContainerError::InvalidCommand,
            ),
            !holds(command@, '\0') ==> (r matches Ok(args) && args@.len() == 3 && args@[0]@
                == "/bin/sh"@ && args@[1]@ == "-c"@ && args@[2]@ == command@),
    {
        if contains_char(command, '\0') {
            Err(ContainerError::InvalidCommand)
        } else {
            let mut args: Vec<String> = Vec::new();
            args.push(String::from_str("/bin/sh"));
            args.push(String::from_str("-c"));
            args.push(String::from_str(command));
            Ok(args)
        }
    }

    /// The result of running `command` in this container, from how its
    /// process ended.
    ///
    /// A command that holds a null character is an `InvalidCommand`,
    /// whatever was reported. Else a process that could not be started or
    /// awaited is a `ContainerExecutionError`; one that exited with 0 is a
    /// success; with 242, a `ContainerSetupError`; with another status, a
    /// `CommandExitedWithError` of that status; and one that ended
    /// otherwise is a `ContainerExitedAbnormally`.
    pub fn run_command(&self, command: &str, child: ChildReport) -> (r: Result<(), ContainerError>)
        ensures
            holds(command@, '\0') ==> r == Err::<(), ContainerError>(
                ContainerError::InvalidCommand,
            ),
            !holds(command@, '\0') ==> r == run_result(child),
    {
        if contains_char(command, '\0') {
            return Err(ContainerError::InvalidCommand);
        }
        match child {
            ChildReport::Failed(cause) => Err(ContainerError::ContainerExecutionError(cause)),
            ChildReport::Exited(status) => {
                if status == 0 {
                    Ok(())
                } else if status == SETUP_FAILURE_STATUS {
                    Err(ContainerError::ContainerSetupError)
                } else {
                    Err(ContainerError::CommandExitedWithError(status))
                }
            },
            ChildReport::Other => Err(ContainerError::ContainerExitedAbnormally),
        }
    }

    /// The control group of this container under the controller
    /// `group_name`.
    pub fn setup_cgroup(&self, group_name: &str) -> (r: Cgroup)
        ensures
            r.directory@ == cgroup_directory(group_name@, self@.name),
            r.tasks_file@ == joined(r.directory@, "tasks"@),
    {
        let controller = join_path("/sys/fs/cgroup", group_name);
        let engine = join_path(controller.as_str(), "jocker");
        let directory = join_path(engine.as_str(), self.name());
        let tasks_file = join_path(directory.as_str(), "tasks");
        Cgroup { directory, tasks_file }
    }

    /// The memory control group of this container. No limit is set in it.
    pub fn setup_memory_cgroup(&self) -> (r: Cgroup)
        ensures
            r.directory@ == cgroup_directory("memory"@, self@.name),
            r.tasks_file@ == joined(r.directory@, "tasks"@),
    {
        self.setup_cgroup("memory")
    }

    /// The CPU control group of this container. No limit is set in it.
    pub fn setup_cpu_cgroup(&self) -> (r: Cgroup)
        ensures
            r.directory@ == cgroup_directory("cpu"@, self@.name),
            r.tasks_file@ == joined(r.directory@, "tasks"@),
    {
        self.setup_cgroup("cpu")
    }

    /// The overlay that makes this container's root over `image`: the
    /// three directories, each to be created where it does not exist, and
    /// the data of the mount, with the extracted image as the lower layer.
    pub fn setup_overlay(&self, image: &ExtractedImage) -> (r: Overlay)
        ensures
            r.upper_dir@ == joined(self@.path, "cow_rw"@),
            r.work_dir@ == joined(self@.path, "cow_workdir"@),
            r.rootfs@ == rootfs_of(self@.path),
            r.options@ == overlay_options(image.spec_path(), r.upper_dir@, r.work_dir@),
    {
        let upper_dir = join_path(self.path(), "cow_rw");
        let work_dir = join_path(self.path(), "cow_workdir");
        let rootfs = join_path(self.path(), "rootfs");
        let options = String::from_str("lowerdir=").concat(image.path()).concat(",upperdir=").concat(
            upper_dir.as_str(),
        ).concat(",workdir=").concat(work_dir.as_str());
        Overlay { upper_dir, work_dir, rootfs, options }
    }

    /// The kernel filesystems to mount inside the root, in this order:
    /// `proc` at `proc`, `sysfs` at `sys`, `tmpfs` at `tmp` and `devpts` at
    /// `dev/pts`.
    pub fn mount_kernel_filesystems(&self) -> (r: Vec<Mount>)
        ensures
            r@.len() == 4,
            mounts(r@[0], joined(rootfs_of(self@.path), "proc"@), "proc"@, no_atime()),
            mounts(r@[1], joined(rootfs_of(self@.path), "sys"@), "sysfs"@, no_atime()),
            mounts(r@[2], joined(rootfs_of(self@.path), "tmp"@), "tmpfs"@, no_suid_strict_atime()),
            mounts(
                r@[3],
                joined(joined(rootfs_of(self@.path), "dev"@), "pts"@),
                "devpts"@,
                no_atime(),
            ),
    {
        let rootfs = join_path(self.path(), "rootfs");
        let dev = join_path(rootfs.as_str(), "dev");
        let quiet = MountFlags {
            no_atime: true,
            no_suid: false,
            strict_atime: false,
            private: false,
            recursive: false,
            silent: false,
        };
        let strict = MountFlags {
            no_atime: false,
            no_suid: true,
            strict_atime: true,
            private: false,
            recursive: false,
            silent: false,
        };
        let mut list: Vec<Mount> = Vec::new();
        list.push(kernel_mount(join_path(rootfs.as_str(), "proc"), "proc", quiet));
        list.push(kernel_mount(join_path(rootfs.as_str(), "sys"), "sysfs", quiet));
        list.push(kernel_mount(join_path(rootfs.as_str(), "tmp"), "tmpfs", strict));
        list.push(kernel_mount(join_path(dev.as_str(), "pts"), "devpts", quiet));
        list
    }

    /// The device nodes to create inside the root where they are absent,
    /// in this order: `null` (1:3), `zero` (1:5), `random` (1:8) and
    /// `urandom` (1:9), all under `dev`.
    pub fn create_devices(&self) -> (r: Vec<Device>)
        ensures
            r@.len() == 4,
            is_device(r@[0], joined(joined(rootfs_of(self@.path), "dev"@), "null"@), 1, 3),
            is_device(r@[1], joined(joined(rootfs_of(self@.path), "dev"@), "zero"@), 1, 5),
            is_device(r@[2], joined(joined(rootfs_of(self@.path), "dev"@), "random"@), 1, 8),
            is_device(r@[3], joined(joined(rootfs_of(self@.path), "dev"@), "urandom"@), 1, 9),
    {
        let rootfs = join_path(self.path(), "rootfs");
        let dev = join_path(rootfs.as_str(), "dev");
        let mut list: Vec<Device> = Vec::new();
        list.push(device(dev.as_str(), "null", 1, 3));
        list.push(device(dev.as_str(), "zero", 1, 5));
        list.push(device(dev.as_str(), "random", 1, 8));
        list.push(device(dev.as_str(), "urandom", 1, 9));
        list
    }

    /// The pivot to this container's root: the root itself, `old_root`
    /// inside it for the old one, and `/old_root`, where the old one is
    /// found afterwards.
    pub fn move_to_new_root(&self) -> (r: Pivot)
        ensures
            r.new_root@ == rootfs_of(self@.path),
            r.put_old@ == joined(rootfs_of(self@.path), "old_root"@),
            r.old_root@ == "/old_root"@,
    {
        let new_root = join_path(self.path(), "rootfs");
        let put_old = join_path(new_root.as_str(), "old_root");
        Pivot { new_root, put_old, old_root: String::from_str("/old_root") }
    }

    /// The path that an export writes the archive to.
    pub fn temporary_archive_path() -> (r: &'static str)
        ensures
            r@ == temporary_archive(),
    {
        "/tmp/image.tar.gz"
    }

    /// The result of exporting this container as the image `name`, from
    /// what went on: the image in the store's directory for that name
    /// where every stage succeeded; an `ArchiveError` where the archive
    /// could not be written or the temporary file not removed; a
    /// `ContainerSetupError` where the root could not be unmounted; an
    /// `ExportError` where the archive could not be imported.
    pub fn export_as_image(&self, config: &Config, name: String, outcome: ExportOutcome) -> (r:
        Result<Image, ContainerError>)
        ensures
            match export_result(config.spec_images(), name@, outcome) {
                Ok(path) => r matches Ok(image) && image.spec_path() == path,
                Err(e) => r == Err::<Image, ContainerError>(e),
            },
    {
        match outcome {
            ExportOutcome::ArchiveFailed(cause) => Err(ContainerError::ArchiveError(cause)),
            ExportOutcome::UnmountFailed => Err(ContainerError::ContainerSetupError),
            ExportOutcome::ImportFailed(e) => Err(ContainerError::ExportError(e)),
            ExportOutcome::CleanupFailed(cause) => Err(ContainerError::ArchiveError(cause)),
            ExportOutcome::Completed => {
                let store: ImageStore = config.image_store();
                Ok(Image::new(store.image_path(name.as_str())))
            },
        }
    }
}

/// The exit status of a command decides the result of running it: 0 is
/// the only success, 242 is read as a failed setup, and every other status
/// comes back in `CommandExitedWithError`.
pub proof fn exit_status_decides(status: i32)
    ensures
        run_result(ChildReport::Exited(status)) is Ok <==> status == 0,
        status == 242 ==> run_result(ChildReport::Exited(status)) == Err::<(), ContainerError>(
            ContainerError::ContainerSetupError,
        ),
        status != 0 && status != 242 ==> run_result(ChildReport::Exited(status)) == Err::<
            (),
            ContainerError,
        >(ContainerError::CommandExitedWithError(status)),
{
}

/// What kind of file an entry of a directory is, links not followed.
#[derive(Debug, Clone, Copy, PartialEq, Eq, Structural)]
pub enum EntryKind {
    /// A regular file.
    File,
    /// A directory.
    Directory,
    /// A symbolic link.
    Symlink,
    /// Anything else: a device, a socket, a pipe.
    Other,
}

/// What an export does with one entry of a container's root.
#[derive(Debug, Clone, PartialEq, Eq)]
pub enum ArchiveMember {
    /// The entry is left out.
    Skipped,
    /// The root itself: its entries are walked and it is not archived.
    Root,
    /// A directory, archived under this name; its entries are walked too.
    Directory(String),
    /// A file or a symbolic link, archived under this name.
    File(String),
}

/// How many characters of a path below `root` stand before its relative
/// part: the root and the separator after it.
pub open spec fn prefix_len(root: Seq<char>) -> int {
    if root.len() == 0 || root[root.len() - 1] == '/' {
        root.len() as int
    } else {
        root.len() as int + 1
    }
}

/// Whether `path` is `root` or lies below it.
pub open spec fn is_within(root: Seq<char>, path: Seq<char>) -> bool {
    path == root || (path.len() > prefix_len(root) && path.subrange(0, root.len() as int) == root
        && (prefix_len(root) == root.len() || path[root.len() as int] == '/'))
}

/// The path of an entry relative to the root: empty for the root itself.
pub open spec fn relative(root: Seq<char>, path: Seq<char>) -> Seq<char> {
    if path.len() <= prefix_len(root) {
        Seq::<char>::empty()
    } else {
        path.subrange(prefix_len(root), path.len() as int)
    }
}

/// What an export does with the entry at `path`, of the kind `kind`.
pub open spec fn member(root: Seq<char>, path: Seq<char>, kind: EntryKind) -> ArchiveMemberView {
    match kind {
        EntryKind::Other => ArchiveMemberView::Skipped,
        EntryKind::Directory => if relative(root, path).len() == 0 {
            ArchiveMemberView::Root
        } else {
            ArchiveMemberView::Directory(relative(root, path))
        },
        _ => ArchiveMemberView::File(relative(root, path)),
    }
}

/// An `ArchiveMember` as plain values.
pub enum ArchiveMemberView {
    Skipped,
    Root,
    Directory(Seq<char>),
    File(Seq<char>),
}

impl View for ArchiveMember {
    type V = ArchiveMemberView;

    open spec fn view(&self) -> ArchiveMemberView {
        match *self {
            ArchiveMember::Skipped => ArchiveMemberView::Skipped,
            ArchiveMember::Root => ArchiveMemberView::Root,
            ArchiveMember::Directory(name) => ArchiveMemberView::Directory(name@),
            ArchiveMember::File(name) => ArchiveMemberView::File(name@),
        }
    }
}

/// Whether an entry of this kind goes into an exported archive: regular
/// files, directories and symbolic links do, nothing else.
pub fn is_archived(kind: EntryKind) -> (r: bool)
    ensures
        r == (kind != EntryKind::Other),
{
    match kind {
        EntryKind::Other => false,
        _ => true,
    }
}

/// Whether `path` is `root` or lies below it.
pub fn lies_within(root: &str, path: &str) -> (r: bool)
    ensures
        r == is_within(root@, path@),
{
    let n: usize = root.unicode_len();
    let m: usize = path.unicode_len();
    if m < n {
        proof {
            assert(path@ != root@);
        }
        return false;
    }
    let mut i: usize = 0;
    while i < n
        invariant
            i <= n <= m,
            n == root@.len(),
            m == path@.len(),
            forall|j: int| 0 <= j < i ==> root@[j] == path@[j],
        decreases n - i,
    {
        if root.get_char(i) != path.get_char(i) {
            proof {
                assert(path@.subrange(0, n as int)[i as int] == path@[i as int]);
            }
            return false;
        }
        i += 1;
    }
    proof {
        assert(path@.subrange(0, n as int) =~= root@);
        if m == n {
            assert(path@ =~= root@);
        }
    }
    if m == n {
        return true;
    }
    if n == 0 || root.get_char(n - 1) == '/' {
        true
    } else {
        m > n + 1 && path.get_char(n) == '/'
    }
}

/// What an export does with the entry at `path` below `root`: an entry
/// that is no file, directory or symbolic link is skipped; the root is
/// walked and not archived; every other directory is walked and archived,
/// and every file or link archived, under its path relative to the root.
pub fn archive_member(root: &str, path: &str, kind: EntryKind) -> (r: ArchiveMember)
    requires
        is_within(root@, path@),
    ensures
        r@ == member(root@, path@, kind),
{
    let n: usize = root.unicode_len();
    let m: usize = path.unicode_len();
    let skip: usize = if n == 0 || root.get_char(n - 1) == '/' {
        n
    } else if m == n {
        n
    } else {
        n + 1
    };
    let name: String = if m <= skip {
        String::new()
    } else {
        slice_of(path, skip, m)
    };
    proof {
        assert(name@ =~= relative(root@, path@));
    }
    match kind {
        EntryKind::Other => ArchiveMember::Skipped,
        EntryKind::Directory => {
            if name.as_str().unicode_len() == 0 {
                ArchiveMember::Root
            } else {
                ArchiveMember::Directory(name)
            }
        },
        _ => ArchiveMember::File(name),
    }
}

/// Whether an entry is walked: it is of a kind that is archived.
pub open spec fn walked() -> spec_fn((String, EntryKind)) -> bool {
    |entry: (String, EntryKind)| entry.1 != EntryKind::Other
}

/// An entry as the walk holds it: its path, and whether it is a directory.
pub open spec fn held() -> spec_fn((String, EntryKind)) -> (Seq<char>, bool) {
    |entry: (String, EntryKind)| (entry.0@, entry.1 == EntryKind::Directory)
}

/// What the entries of a directory add to a walk: those that are
/// archived, in their order.
pub open spec fn additions(entries: Seq<(String, EntryKind)>) -> Seq<(Seq<char>, bool)> {
    entries.filter(walked()).map_values(held())
}

/// The walk over a container's root for an export: the entries found and
/// not yet visited, of which the last is visited next.
#[derive(Debug, Clone, PartialEq, Eq)]
pub struct Walk {
    stack: Vec<(String, bool)>,
}

impl View for Walk {
    type V = Seq<(Seq<char>, bool)>;

    closed spec fn view(&self) -> Seq<(Seq<char>, bool)> {
        Seq::new(self.stack@.len(), |i: int| (self.stack@[i].0@, self.stack@[i].1))
    }
}

impl Walk {
    /// A walk that starts at the directory `root`.
    pub fn start(root: &str) -> (r: Self)
        ensures
            r@ == seq![(root@, true)],
    {
        let mut stack: Vec<(String, bool)> = Vec::new();
        stack.push((String::from_str(root), true));
        let r = Walk { stack };
        assert(r@ =~= seq![(root@, true)]);
        r
    }

    /// Takes the entry to visit next, the one found last: its path, and
    /// whether it is a directory, whose entries are then to be added. The
    /// walk is over when nothing is left.
    pub fn next(&mut self) -> (r: Option<(String, bool)>)
        ensures
            old(self)@.len() == 0 ==> r is None && final(self)@ == old(self)@,
            old(self)@.len() > 0 ==> (r matches Some(entry) && (entry.0@, entry.1) == old(
                self,
            )@.last() && final(self)@ == old(self)@.drop_last()),
    {
        let ghost before = self@;
        let r = self.stack.pop();
        proof {
            if before.len() > 0 {
                assert(self@ =~= before.drop_last());
            } else {
                assert(self@ =~= before);
            }
        }
        r
    }

    /// Adds the entries of the directory just visited: those that are
    /// regular files, directories or symbolic links, in the order given.
    pub fn visit(&mut self, entries: &Vec<(String, EntryKind)>)
        ensures
            final(self)@ == old(self)@ + additions(entries@),
    {
        let ghost before = self@;
        let mut i: usize = 0;
        proof {
            reveal(Seq::filter);
            assert(entries@.take(0) =~= Seq::<(String, EntryKind)>::empty());
            assert(before + additions(entries@.take(0)) =~= before);
        }
        while i < entries.len()
            invariant
                i <= entries@.len(),
                self@ == before + additions(entries@.take(i as int)),
            decreases entries@.len() - i,
        {
            let ghost earlier = self@;
            let ghost seen = entries@.take(i as int);
            let ghost entry = entries@[i as int];
            proof {
                assert(entries@.take(i as int + 1) =~= seen.push(entry));
                seen.lemma_filter_push(entry, walked());
            }
            let kind: EntryKind = entries[i].1;
            if is_archived(kind) {
                let directory: bool = match kind {
                    EntryKind::Directory => true,
                    _ => false,
                };
                self.stack.push((entries[i].0.clone(), directory));
                proof {
                    assert(self@ =~= earlier.push(held()(entry)));
                    assert(seen.filter(walked()).push(entry).map_values(held()) =~= seen.filter(
                        walked(),
                    ).map_values(held()).push(held()(entry)));
                    assert(self@ =~= before + additions(entries@.take(i as int + 1)));
                }
            }
            i += 1;
        }
        proof {
            assert(entries@.take(entries@.len() as int) =~= entries@);
        }
    }
}

/// An entry joined to the root is archived under the name it was joined
/// with.
pub proof fn relative_of_joined(root: Seq<char>, name: Seq<char>)
    requires
        name.len() > 0,
        name[0] != '/',
    ensures
        is_within(root, joined(root, name)),
        relative(root, joined(root, name)) == name,
{
    let p = joined(root, name);
    assert(p.subrange(0, root.len() as int) =~= root);
    assert(p.subrange(prefix_len(root), p.len() as int) =~= name);
}

} // verus!
