//! Containers, their configuration and the store that holds them.
//!
//! A container is a directory that holds its configuration file and the
//! working directories of its root filesystem. Reading and writing that
//! directory is left to the caller, who reports what happened.

use vstd::prelude::*;
use vstd::string::*;
use crate::image::{image_error_text, ImageError};
use crate::text::{decimal, decimal_text, joined, join_path};

verus! {

/// What can go wrong with a container. A `String` cause is the text of the
/// underlying failure.
#[derive(Debug, Clone, PartialEq, Eq)]
pub enum ContainerError {
    /// The configuration file does not hold a configuration.
    InvalidConfigurationFile,
    /// The command cannot be handed to a shell.
    InvalidCommand,
    /// An entry of the store could not be read.
    InvalidContainerDirectory(String),
    /// The configuration file could not be opened.
    CannotOpenConfigurationFile(String),
    /// The configuration file could not be written.
    CannotSaveConfigurationFile,
    /// A directory of the container could not be created.
    CreationError(String),
    /// The container's image could not be made ready.
    InitializationError(ImageError),
    /// The archive of the container could not be stored as an image.
    ExportError(ImageError),
    /// The container's filesystem could not be archived.
    ArchiveError(String),
    /// The container's process could not be started or awaited.
    ContainerExecutionError(String),
    /// The isolation of the container could not be set up.
    ContainerSetupError,
    /// The command ran and ended with this status.
    CommandExitedWithError(i32),
    /// The container's process ended otherwise than by exiting.
    ContainerExitedAbnormally,
}

/// The text that a container error is reported with.
pub open spec fn container_error_text(e: ContainerError) -> Seq<char> {
    match e {
        ContainerError::InvalidConfigurationFile => "invalid configuration file"@,
        ContainerError::InvalidCommand => "invalid command"@,
        ContainerError::InvalidContainerDirectory(_) => "invalid container directory"@,
        ContainerError::CannotOpenConfigurationFile(cause) =>
            "cannot open the configuration file: "@ + cause@,
        ContainerError::CannotSaveConfigurationFile => "cannot save the configuration file"@,
        ContainerError::CreationError(cause) => "cannot create the container: "@ + cause@,
        ContainerError::InitializationError(cause) => "cannot initialize the container: "@
            + image_error_text(cause),
        ContainerError::ExportError(cause) => "cannot export the container as an image: "@
            + image_error_text(cause),
        ContainerError::ArchiveError(cause) => "cannot archive the container: "@ + cause@,
        ContainerError::ContainerExecutionError(cause) => "container execution failed: "@ + cause@,
        ContainerError::ContainerSetupError => "unable to setup the container"@,
        ContainerError::CommandExitedWithError(status) => "command exited with error code: "@
            + decimal(status as int),
        ContainerError::ContainerExitedAbnormally => "the container exited abnormally"@,
    }
}

impl ContainerError {
    /// A copy of this error.
    pub fn duplicate(&self) -> (r: Self)
        ensures
            r == *self,
    {
        match self {
            ContainerError::InvalidConfigurationFile => ContainerError::InvalidConfigurationFile,
            ContainerError::InvalidCommand => ContainerError::InvalidCommand,
            ContainerError::InvalidContainerDirectory(cause) =>
                ContainerError::InvalidContainerDirectory(cause.clone()),
            ContainerError::CannotOpenConfigurationFile(cause) =>
                ContainerError::CannotOpenConfigurationFile(cause.clone()),
            ContainerError::CannotSaveConfigurationFile =>
                ContainerError::CannotSaveConfigurationFile,
            ContainerError::CreationError(cause) => ContainerError::CreationError(cause.clone()),
            ContainerError::InitializationError(cause) => ContainerError::InitializationError(
                cause.duplicate(),
            ),
            ContainerError::ExportError(cause) => ContainerError::ExportError(cause.duplicate()),
            ContainerError::ArchiveError(cause) => ContainerError::ArchiveError(cause.clone()),
            ContainerError::ContainerExecutionError(cause) =>
                ContainerError::ContainerExecutionError(cause.clone()),
            ContainerError::ContainerSetupError => ContainerError::ContainerSetupError,
            ContainerError::CommandExitedWithError(status) =>
                ContainerError::CommandExitedWithError(*status),
            ContainerError::ContainerExitedAbnormally => ContainerError::ContainerExitedAbnormally,
        }
    }

    /// The report of this error: its context, then its cause.
    pub fn message(&self) -> (r: String)
        ensures
            r@ == container_error_text(*self),
    {
        match self {
            ContainerError::InvalidConfigurationFile => String::from_str(
                "invalid configuration file",
            ),
            ContainerError::InvalidCommand => String::from_str("invalid command"),
            ContainerError::InvalidContainerDirectory(_) => String::from_str(
                "invalid container directory",
            ),
            ContainerError::CannotOpenConfigurationFile(cause) => String::from_str(
                "cannot open the configuration file: ",
            ).concat(cause.as_str()),
            ContainerError::CannotSaveConfigurationFile => String::from_str(
                "cannot save the configuration file",
            ),
            ContainerError::CreationError(cause) => String::from_str(
                "cannot create the container: ",
            ).concat(cause.as_str()),
            ContainerError::InitializationError(cause) => String::from_str(
                "cannot initialize the container: ",
            ).concat(cause.message().as_str()),
            ContainerError::ExportError(cause) => String::from_str(
                "cannot export the container as an image: ",
            ).concat(cause.message().as_str()),
            ContainerError::ArchiveError(cause) => String::from_str(
                "cannot archive the container: ",
            ).concat(cause.as_str()),
            ContainerError::ContainerExecutionError(cause) => String::from_str(
                "container execution failed: ",
            ).concat(cause.as_str()),
            ContainerError::ContainerSetupError => String::from_str(
                "unable to setup the container",
            ),
            ContainerError::CommandExitedWithError(status) => String::from_str(
                "command exited with error code: ",
            ).concat(decimal_text(*status as i64).as_str()),
            ContainerError::ContainerExitedAbnormally => String::from_str(
                "the container exited abnormally",
            ),
        }
    }
}

/// What was observed when a configuration file was read.
#[derive(Debug, Clone, PartialEq, Eq)]
pub enum ConfigRead {
    /// The file could not be opened.
    Unopenable(String),
    /// The file does not hold exactly the two fields of a configuration.
    Malformed,
    /// The file holds these two fields.
    Parsed { name: String, image_name: String },
}

impl ConfigRead {
    /// A copy of this observation.
    pub fn duplicate(&self) -> (r: Self)
        ensures
            r == *self,
    {
        match self {
            ConfigRead::Unopenable(cause) => ConfigRead::Unopenable(cause.clone()),
            ConfigRead::Malformed => ConfigRead::Malformed,
            ConfigRead::Parsed { name, image_name } => ConfigRead::Parsed {
                name: name.clone(),
                image_name: image_name.clone(),
            },
        }
    }
}

/// What was observed when a container's directory was made.
#[derive(Debug, Clone, PartialEq, Eq)]
pub enum Creation {
    /// The directory could not be created.
    DirectoryFailed(String),
    /// The directory exists and the configuration could not be written.
    SaveFailed,
    /// The directory exists and holds the configuration.
    Created,
}

/// The file that holds a container's configuration, inside its directory.
pub open spec fn config_file() -> Seq<char> {
    "config.json"@
}

/// A container's configuration: its name and the name of its image.
#[derive(Debug, Clone, PartialEq, Eq)]
pub struct ContainerConfig {
    name: String,
    image_name: String,
}

impl View for ContainerConfig {
    type V = (Seq<char>, Seq<char>);

    closed spec fn view(&self) -> (Seq<char>, Seq<char>) {
        (self.name@, self.image_name@)
    }
}

/// What reading a configuration file comes to.
pub open spec fn config_result(read: ConfigRead) -> Result<(Seq<char>, Seq<char>), ContainerError> {
    match read {
        ConfigRead::Unopenable(cause) => Err(ContainerError::CannotOpenConfigurationFile(cause)),
        ConfigRead::Malformed => Err(ContainerError::InvalidConfigurationFile),
        ConfigRead::Parsed { name, image_name } => Ok((name@, image_name@)),
    }
}

impl ContainerConfig {
    /// The configuration of the container `name` on the image `image_name`.
    pub fn from(name: String, image_name: String) -> (r: Self)
        ensures
            r@ == (name@, image_name@),
    {
        ContainerConfig { name, image_name }
    }

    /// The configuration that a read of its file gives:
    /// `CannotOpenConfigurationFile` where the file could not be opened,
    /// `InvalidConfigurationFile` where its content is malformed, else the
    /// two fields as they were parsed.
    pub fn load_from_file(read: ConfigRead) -> (r: Result<Self, ContainerError>)
        ensures
            match config_result(read) {
                Ok(fields) => r matches Ok(config) && config@ == fields,
                Err(e) => r == Err::<Self, ContainerError>(e),
            },
    {
        match read {
            ConfigRead::Unopenable(cause) => Err(
                ContainerError::CannotOpenConfigurationFile(cause),
            ),
            ConfigRead::Malformed => Err(ContainerError::InvalidConfigurationFile),
            ConfigRead::Parsed { name, image_name } => Ok(ContainerConfig { name, image_name }),
        }
    }

    /// The result of saving the configuration: success exactly when the
    /// file was written.
    pub fn save(&self, written: bool) -> (r: Result<(), ContainerError>)
        ensures
            written ==> r is Ok,
            !written ==> r == Err::<(), ContainerError>(
                ContainerError::CannotSaveConfigurationFile,
            ),
    {
        if written {
            Ok(())
        } else {
            Err(ContainerError::CannotSaveConfigurationFile)
        }
    }

    /// The name of the container.
    pub fn name(&self) -> (r: &str)
        ensures
            r@ == self@.0,
    {
        self.name.as_str()
    }

    /// The name of the container's image.
    pub fn image_name(&self) -> (r: &str)
        ensures
            r@ == self@.1,
    {
        self.image_name.as_str()
    }
}

/// What a container is, as plain values.
pub struct ContainerView {
    pub name: Seq<char>,
    pub image_name: Seq<char>,
    pub path: Seq<char>,
}

/// A container: its configuration and its directory.
#[derive(Debug, Clone, PartialEq, Eq)]
pub struct Container {
    config: ContainerConfig,
    path: String,
}

impl View for Container {
    type V = ContainerView;

    closed spec fn view(&self) -> ContainerView {
        ContainerView { name: self.config@.0, image_name: self.config@.1, path: self.path@ }
    }
}

/// What making the container `name` on `image_name` at `path` comes to.
pub open spec fn creation_result(
    name: Seq<char>,
    path: Seq<char>,
    image_name: Seq<char>,
    outcome: Creation,
) -> Result<ContainerView, ContainerError> {
    match outcome {
        Creation::DirectoryFailed(cause) => Err(ContainerError::CreationError(cause)),
        Creation::SaveFailed => Err(ContainerError::CannotSaveConfigurationFile),
        Creation::Created => Ok(ContainerView { name, image_name, path }),
    }
}

/// What loading the container at `path` comes to.
pub open spec fn load_result(path: Seq<char>, read: ConfigRead) -> Result<
    ContainerView,
    ContainerError,
> {
    match config_result(read) {
        Ok(fields) => Ok(ContainerView { name: fields.0, image_name: fields.1, path }),
        Err(e) => Err(e),
    }
}

/// Whether `r` is the container or the error that `expected` describes.
pub open spec fn container_result_is(
    r: Result<Container, ContainerError>,
    expected: Result<ContainerView, ContainerError>,
) -> bool {
    match expected {
        Ok(v) => r matches Ok(container) && container@ == v,
        Err(e) => r == Err::<Container, ContainerError>(e),
    }
}

impl Container {
    /// The container stored at `path`, from what a read of its
    /// configuration file gave.
    pub fn from_directory(path: String, read: ConfigRead) -> (r: Result<Self, ContainerError>)
        ensures
            container_result_is(r, load_result(path@, read)),
    {
        match ContainerConfig::load_from_file(read) {
            Ok(config) => Ok(Container { config, path }),
            Err(e) => Err(e),
        }
    }

    /// The container `name` on `image_name` at `path`, from what making
    /// its directory gave: `CreationError` where the directory could not be
    /// created, `CannotSaveConfigurationFile` where the configuration could
    /// not be written.
    pub fn create(name: String, path: String, image_name: String, outcome: Creation) -> (r: Result<
        Self,
        ContainerError,
    >)
        ensures
            container_result_is(r, creation_result(name@, path@, image_name@, outcome)),
    {
        match outcome {
            Creation::DirectoryFailed(cause) => Err(ContainerError::CreationError(cause)),
            Creation::SaveFailed => Err(ContainerError::CannotSaveConfigurationFile),
            Creation::Created => Ok(
                Container { config: ContainerConfig::from(name, image_name), path },
            ),
        }
    }

    /// The name of the container.
    pub fn name(&self) -> (r: &str)
        ensures
            r@ == self@.name,
    {
        self.config.name()
    }

    /// The name of the container's image.
    pub fn image_name(&self) -> (r: &str)
        ensures
            r@ == self@.image_name,
    {
        self.config.image_name()
    }

    /// The container's directory.
    pub fn path(&self) -> (r: &str)
        ensures
            r@ == self@.path,
    {
        self.path.as_str()
    }

    /// The path of the container's configuration file.
    pub fn config_path(&self) -> (r: String)
        ensures
            r@ == joined(self@.path, config_file()),
    {
        join_path(self.path.as_str(), "config.json")
    }
}

/// What was found at one entry of the store's directory.
#[derive(Debug, Clone, PartialEq, Eq)]
pub enum StoreEntry {
    /// The entry could not be read.
    Unreadable(String),
    /// The entry's path, and what a read of the configuration in it gave.
    Found { path: String, read: ConfigRead },
}

/// What one entry of the store comes to.
pub open spec fn entry_result(entry: StoreEntry) -> Result<ContainerView, ContainerError> {
    match entry {
        StoreEntry::Unreadable(cause) => Err(ContainerError::InvalidContainerDirectory(cause)),
        StoreEntry::Found { path, read } => load_result(path@, read),
    }
}

/// A handle on a directory that stores containers.
#[derive(Debug, Clone, PartialEq, Eq)]
pub struct ContainerStore {
    containers_dir: String,
}

impl ContainerStore {
    /// The root directory of the store.
    pub closed spec fn spec_path(&self) -> Seq<char> {
        self.containers_dir@
    }

    /// A store rooted at `containers_dir`.
    pub fn from_directory(containers_dir: &str) -> (r: Self)
        ensures
            r.spec_path() == containers_dir@,
    {
        ContainerStore { containers_dir: String::from_str(containers_dir) }
    }

    /// The root directory of the store.
    pub fn path(&self) -> (r: &str)
        ensures
            r@ == self.spec_path(),
    {
        self.containers_dir.as_str()
    }

    /// The directory that a container of this name has in the store.
    pub fn container_path(&self, name: &str) -> (r: String)
        ensures
            r@ == joined(self.spec_path(), name@),
    {
        join_path(self.containers_dir.as_str(), name)
    }

    /// The containers behind the entries of the store's directory, in the
    /// order given, each loaded or failed on its own.
    pub fn containers(&self, entries: Vec<StoreEntry>) -> (r: Vec<Result<Container, ContainerError>>)
        ensures
            r@.len() == entries@.len(),
            forall|i: int|
                0 <= i < entries@.len() ==> container_result_is(
                    #[trigger] r@[i],
                    entry_result(entries@[i]),
                ),
    {
        let mut out: Vec<Result<Container, ContainerError>> = Vec::new();
        let mut i: usize = 0;
        while i < entries.len()
            invariant
                i <= entries@.len(),
                out@.len() == i,
                forall|j: int|
                    0 <= j < i ==> container_result_is(
                        #[trigger] out@[j],
                        entry_result(entries@[j]),
                    ),
            decreases entries@.len() - i,
        {
            let loaded = match &entries[i] {
                StoreEntry::Unreadable(cause) => Err(
                    ContainerError::InvalidContainerDirectory(cause.clone()),
                ),
                StoreEntry::Found { path, read } => Container::from_directory(
                    path.clone(),
                    read.duplicate(),
                ),
            };
            out.push(loaded);
            i += 1;
        }
        out
    }

    /// The result of creating the container `name` on `image_name` in this
    /// store: the container at the store's directory for that name, or the
    /// error that the observation calls for.
    pub fn create_container(&self, name: String, image_name: String, outcome: Creation) -> (r:
        Result<Container, ContainerError>)
        ensures
            container_result_is(
                r,
                creation_result(name@, joined(self.spec_path(), name@), image_name@, outcome),
            ),
    {
        let path = self.container_path(name.as_str());
        Container::create(name, path, image_name, outcome)
    }

    /// A handle on the container of this name. `found` is `None` where the
    /// container's directory does not exist, else what a read of the
    /// configuration in it gave.
    ///
    /// A missing directory gives no container and no error. A directory
    /// whose configuration is malformed is an `InvalidConfigurationFile`,
    /// one whose configuration cannot be opened a
    /// `CannotOpenConfigurationFile`. Otherwise the container is the one
    /// that the configuration describes, at the store's directory for
    /// `name`.
    pub fn get_container(&self, name: &str, found: Option<ConfigRead>) -> (r: Result<
        Option<Container>,
        ContainerError,
    >)
        ensures
            match found {
                None => r == Ok::<Option<Container>, ContainerError>(None),
                Some(read) => match load_result(joined(self.spec_path(), name@), read) {
                    Ok(v) => r matches Ok(Some(container)) && container@ == v,
                    Err(e) => r == Err::<Option<Container>, ContainerError>(e),
                },
            },
    {
        match found {
            Some(read) => {
                let path = self.container_path(name);
                match Container::from_directory(path, read) {
                    Ok(container) => Ok(Some(container)),
                    Err(e) => Err(e),
                }
            },
            None => Ok(None),
        }
    }

    /// The result of removing a container: what removing its directory
    /// gave.
    pub fn remove_container(&self, container: Container, removal: Result<(), String>) -> (r:
        Result<(), String>)
        ensures
            r == removal,
    {
        removal
    }
}

/// Creating a container again under the same name and image, with the
/// directory work succeeding again, gives the container that the first
/// creation gave.
pub proof fn create_again_gives_same_container(
    store: ContainerStore,
    name: Seq<char>,
    image_name: Seq<char>,
    first: Result<Container, ContainerError>,
    second: Result<Container, ContainerError>,
)
    requires
        container_result_is(
            first,
            creation_result(name, joined(store.spec_path(), name), image_name, Creation::Created),
        ),
        container_result_is(
            second,
            creation_result(name, joined(store.spec_path(), name), image_name, Creation::Created),
        ),
    ensures
        first is Ok,
        second is Ok,
        first->Ok_0@ == second->Ok_0@,
        first->Ok_0@.name == name,
        first->Ok_0@.image_name == image_name,
{
}

} // verus!
