//! The typed configuration model.
//!
//! A configuration names the container and carries at most one of three
//! container kinds (a plain image, a local build recipe, or a compose
//! stack), together with optional run-time parameters, port mappings and
//! volume mounts. Exactly one kind must be set before any operation that
//! builds or starts a container; that rule is checked by the command
//! builders, not here, so the model itself can represent every parsed
//! file.

use vstd::prelude::*;

verus! {

/// A plain image kind: the container comes from pulling this image.
pub struct ImageConfig {
    /// The image reference to pull and run.
    pub name: String,
}

/// A local build kind: the image is built from a dockerfile.
pub struct BuildConfig {
    /// The tag given to the built image, and the image run afterwards.
    pub name: String,
    /// Path of the dockerfile.
    pub dockerfile: String,
    /// Path of the build context directory.
    pub context: String,
    /// Optional build stage to stop at.
    pub target: Option<String>,
    /// Build arguments, as name and value pairs in emission order.
    pub args: Vec<(String, String)>,
}

/// A compose kind: the container topology comes from compose files.
pub struct ComposeConfig {
    /// The compose files, in the order their flags are emitted.
    pub files: Vec<String>,
    /// The service to target, required only by `exec`.
    pub service: Option<String>,
    /// Informational: the workspace folder inside the service.
    pub workspace_folder: Option<String>,
    /// Informational: what to do with the stack on shutdown.
    pub shutdown_action: Option<String>,
    /// Informational: whether the service command is overridden.
    pub override_command: Option<bool>,
}

/// Run-time parameters for a single (non-compose) container.
pub struct RunConfig {
    /// Working directory inside the container.
    pub workdir: String,
    /// Optional user to run as.
    pub user: Option<String>,
    /// Extra raw arguments passed verbatim to the run invocation.
    pub run_args: Vec<String>,
}

/// Port mappings; each port is published identically on host and
/// container sides.
pub struct PortsConfig {
    /// Application ports, in input order.
    pub app: Vec<u16>,
    /// Forwarded ports, in input order.
    pub forward: Vec<u16>,
}

/// A single volume mount.
pub struct VolumeMount {
    /// Path on the host.
    pub host: String,
    /// Path inside the container.
    pub container: String,
    /// Mount mode; absent means read-write.
    pub mode: Option<String>,
}

/// A named volume mount. The configuration file keys mounts by name;
/// the names play no role in the emitted arguments.
pub struct VolumeEntry {
    /// The key under which the mount was declared.
    pub name: String,
    /// The mount itself.
    pub mount: VolumeMount,
}

/// The whole configuration, as parsed from the configuration file.
pub struct DevcontainerConfig {
    /// Name of the resulting container.
    pub name: String,
    /// Plain image kind, if set.
    pub image: Option<ImageConfig>,
    /// Local build kind, if set.
    pub build: Option<BuildConfig>,
    /// Compose kind, if set.
    pub compose: Option<ComposeConfig>,
    /// Run-time parameters, if set.
    pub run: Option<RunConfig>,
    /// Port mappings, if set.
    pub ports: Option<PortsConfig>,
    /// Volume mounts, in emission order.
    pub volumes: Vec<VolumeEntry>,
}

impl DevcontainerConfig {
    /// How many of the three mutually exclusive container kinds are set.
    pub open spec fn kind_count(&self) -> int {
        (if self.image is Some { 1int } else { 0int })
        + (if self.build is Some { 1int } else { 0int })
        + (if self.compose is Some { 1int } else { 0int })
    }

    /// Whether exactly one container kind is set: the precondition of
    /// every operation that builds or starts a container.
    pub open spec fn has_one_kind(&self) -> bool {
        self.kind_count() == 1
    }
}

} // verus!
