use vstd::prelude::*;

use vstd::string::StringExecFns;

use crate::text::{decimal, decimal_string};

verus! {

/// Relies on rand::random: draws a value from the thread-local generator.
/// Nothing is promised of the value.
pub assume_specification<T>[ rand::random::<T> ]() -> (r: T)
    where
        rand::distributions::Standard: rand::distributions::Distribution<T>,
;

/// The directory an image is unpacked into.
pub open spec fn unpack_dir(image: Seq<char>) -> Seq<char> {
    "/tmp/containerd/unpacked/"@ + image
}

/// What the runtime reports of a started command.
#[derive(Clone, Copy, Debug, PartialEq, Eq, Structural)]
pub enum CommandStatus {
    /// Still running: look again later.
    Running,
    /// Ended with this exit code.
    Exited(i32),
    /// The runtime cannot tell.
    Unknown,
}

/// Reads an inspection of a started command: an exit code that fits ends
/// it with that code; without one, a command that is no longer running
/// ended normally and one still running is waited for; anything else is
/// unknown.
pub fn command_status(running: Option<bool>, exit_code: Option<i64>) -> (r: CommandStatus)
    ensures
        r == (match exit_code {
            Some(c) => if i32::MIN <= c <= i32::MAX {
                CommandStatus::Exited(c as i32)
            } else {
                CommandStatus::Unknown
            },
            None => match running {
                Some(true) => CommandStatus::Running,
                Some(false) => CommandStatus::Exited(0),
                None => CommandStatus::Unknown,
            },
        }),
{
    match exit_code {
        Some(c) => if i32::MIN as i64 <= c && c <= i32::MAX as i64 {
            CommandStatus::Exited(c as i32)
        } else {
            CommandStatus::Unknown
        },
        None => match running {
            Some(true) => CommandStatus::Running,
            Some(false) => CommandStatus::Exited(0),
            None => CommandStatus::Unknown,
        },
    }
}

/// A named execution environment provisioned from an image. The runtime
/// backend materialises, runs commands in and removes it; this value names
/// it for those requests.
pub struct Container {
    id: String,
    image: String,
    rootfs: String,
}

/// A request to run `command` in a container, optionally in `working_dir`.
pub struct ExecRequest {
    pub container_id: String,
    pub command: String,
    pub working_dir: Option<String>,
}

pub fn clone_opt_string(o: &Option<String>) -> (r: Option<String>)
    ensures
        r == *o,
{
    match o {
        Some(s) => Some(s.clone()),
        None => None,
    }
}

impl Container {
    pub closed spec fn spec_id(&self) -> Seq<char> {
        self.id@
    }

    pub closed spec fn spec_image(&self) -> Seq<char> {
        self.image@
    }

    pub closed spec fn spec_rootfs(&self) -> Seq<char> {
        self.rootfs@
    }

    /// A container with a fresh, randomly drawn decimal id, whose image is
    /// unpacked under the directory of the image's name.
    pub fn build(image: String) -> (r: Container)
        ensures
            r.spec_image() == image@,
            r.spec_rootfs() == unpack_dir(image@),
            exists|n: u64| r.spec_id() == decimal(n as nat),
    {
        let n: u64 = rand::random();
        Container::with_id(decimal_string(n), image)
    }

    /// A container whose id is already known.
    pub fn with_id(id: String, image: String) -> (r: Container)
        ensures
            r.spec_id() == id@,
            r.spec_image() == image@,
            r.spec_rootfs() == unpack_dir(image@),
    {
        let mut rootfs = String::from_str("/tmp/containerd/unpacked/");
        rootfs.append(image.as_str());
        Container { id, image, rootfs }
    }

    pub fn id(&self) -> (r: &String)
        ensures
            r@ == self.spec_id(),
    {
        &self.id
    }

    pub fn image(&self) -> (r: &String)
        ensures
            r@ == self.spec_image(),
    {
        &self.image
    }

    pub fn rootfs(&self) -> (r: &String)
        ensures
            r@ == self.spec_rootfs(),
    {
        &self.rootfs
    }

    /// The request that starts `command` in this container.
    pub fn exec(&self, command: String, working_dir: Option<String>) -> (r: ExecRequest)
        ensures
            r.container_id@ == self.spec_id(),
            r.command == command,
            r.working_dir == working_dir,
    {
        ExecRequest { container_id: self.id.clone(), command, working_dir }
    }
}

/// The OCI platform name of a machine architecture: `amd64` for `x86_64`,
/// `arm64` for `aarch64`, any other name as it is.
pub open spec fn oci_arch(arch: Seq<char>) -> Seq<char> {
    if arch == "x86_64"@ {
        "amd64"@
    } else if arch == "aarch64"@ {
        "arm64"@
    } else {
        arch
    }
}

/// The architecture under which an image is pulled for a machine of
/// architecture `arch`.
pub fn oci_architecture(arch: &String) -> (r: String)
    ensures
        r@ == oci_arch(arch@),
{
    if *arch == String::from_str("x86_64") {
        String::from_str("amd64")
    } else if *arch == String::from_str("aarch64") {
        String::from_str("arm64")
    } else {
        arch.clone()
    }
}

} // verus!
