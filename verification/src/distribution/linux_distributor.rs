//! Which distribution a host runs, and how its package manager is called.

use crate::process::{Invocation, InvocationView};
use crate::utils::text::{contains, str_contains, text_view};
use vstd::prelude::*;
use vstd::string::*;

verus! {

/// The file whose presence marks an Arch Linux host.
pub const ARCH_RELEASE_PATH: &'static str = "/etc/arch-release";

/// The file that describes the distribution of a host.
pub const LSB_RELEASE_PATH: &'static str = "/etc/lsb-release";

/// What marks an Ubuntu host in the file that describes the distribution.
pub const UBUNTU_MARKER: &'static str = "Ubuntu";

/// What marks the answer of `yay` where it is asked for its version.
pub const YAY_MARKER: &'static str = "yay v";

/// The distribution of a host.
#[derive(Clone, Copy, PartialEq, Eq, Structural, Debug)]
pub enum DistributionType {
    Ubuntu,
    ArchLinux,
    /// None that is known. A unit restricted to a named distribution never
    /// applies to such a host.
    Unknown,
}

/// The distribution of a host, from what its files show: Arch Linux where
/// the Arch marker file is there; else Ubuntu where the distribution file
/// could be read and names Ubuntu; else unknown.
pub open spec fn spec_identify(arch_release: bool, lsb_release: Option<Seq<char>>)
    -> DistributionType {
    if arch_release {
        DistributionType::ArchLinux
    } else if lsb_release matches Some(text) && contains(text, UBUNTU_MARKER@) {
        DistributionType::Ubuntu
    } else {
        DistributionType::Unknown
    }
}

/// A type that names the distribution of a host.
pub trait LinuxDistributor: Sized {
    /// The value for a host on which the Arch marker file is present or
    /// not, and whose distribution file holds this text, if it could be read.
    spec fn spec_check(arch_release: bool, lsb_release: Option<Seq<char>>) -> Self;

    /// Tells the distribution from what the host's files show.
    fn check(arch_release: bool, lsb_release: Option<&str>) -> (distribution: Self)
        ensures
            distribution == Self::spec_check(arch_release, text_view(lsb_release)),
    ;
}

impl LinuxDistributor for DistributionType {
    open spec fn spec_check(arch_release: bool, lsb_release: Option<Seq<char>>) -> Self {
        spec_identify(arch_release, lsb_release)
    }

    fn check(arch_release: bool, lsb_release: Option<&str>) -> (distribution: Self) {
        if arch_release {
            return DistributionType::ArchLinux;
        }
        if let Some(content) = lsb_release {
            if str_contains(content, UBUNTU_MARKER) {
                return DistributionType::Ubuntu;
            }
        }
        DistributionType::Unknown
    }
}

impl DistributionType {
    pub open spec fn spec_name(self) -> Seq<char> {
        match self {
            DistributionType::Ubuntu => "Ubuntu"@,
            DistributionType::ArchLinux => "Arch Linux"@,
            DistributionType::Unknown => "Unknown"@,
        }
    }

    /// The name of the distribution.
    pub fn to_string(&self) -> (name: String)
        ensures
            name@ == self.spec_name(),
    {
        match self {
            DistributionType::Ubuntu => "Ubuntu".to_owned(),
            DistributionType::ArchLinux => "Arch Linux".to_owned(),
            DistributionType::Unknown => "Unknown".to_owned(),
        }
    }
}

/// Identifies the distribution of a host. `arch_release` says whether the
/// file at [`ARCH_RELEASE_PATH`] exists; `lsb_release` is the text of the
/// file at [`LSB_RELEASE_PATH`], or nothing where it cannot be read.
pub fn identify_linux_distribution(arch_release: bool, lsb_release: Option<&str>) -> (distribution:
    DistributionType)
    ensures
        distribution == spec_identify(arch_release, text_view(lsb_release)),
{
    DistributionType::check(arch_release, lsb_release)
}

/// The invocation of `program` with `leading` arguments and then `package`.
pub open spec fn package_command(program: Seq<char>, leading: Seq<Seq<char>>, package: Seq<char>)
    -> InvocationView {
    InvocationView { program, args: leading.push(package), attached: false }
}

/// A package manager of a distribution.
pub trait PackageInstaller: Sized {
    /// The invocation that installs `package` with this manager.
    spec fn spec_install_package(self, package: Seq<char>, use_sudo: bool) -> InvocationView;

    /// The manager of a host on which `yay --version` wrote this text.
    spec fn spec_package_manager(version_output: Seq<char>) -> Self;

    /// The invocation that installs `package` with this manager.
    fn install_package(&self, package: &str, use_sudo: bool) -> (invocation: Invocation)
        ensures
            invocation@ == self.spec_install_package(package@, use_sudo),
    ;

    /// The manager of a host on which `yay --version` wrote this text.
    fn package_manager(version_output: &str) -> (manager: Self)
        ensures
            manager == Self::spec_package_manager(version_output@),
    ;
}

/// The package managers of Arch Linux.
#[derive(Clone, Copy, PartialEq, Eq, Structural, Debug)]
pub enum ArchLinux {
    Pacman,
    Yay,
}

impl Default for ArchLinux {
    fn default() -> (manager: ArchLinux)
        ensures
            manager == ArchLinux::Pacman,
    {
        ArchLinux::Pacman
    }
}

/// The views of `texts`, in order.
pub open spec fn words(texts: Seq<&'static str>) -> Seq<Seq<char>> {
    Seq::new(texts.len(), |i: int| texts[i]@)
}

/// The invocation of `program` with `leading` arguments and then `package`.
fn package_invocation(program: &str, leading: Vec<&'static str>, package: &str) -> (invocation:
    Invocation)
    ensures
        invocation@ == package_command(program@, words(leading@), package@),
{
    let mut args: Vec<String> = Vec::new();
    let mut index: usize = 0;
    while index < leading.len()
        invariant
            index <= leading.len(),
            args@.len() == index,
            forall|i: int| 0 <= i < index ==> args@[i]@ == leading@[i]@,
        decreases leading.len() - index,
    {
        args.push(leading[index].to_owned());
        index += 1;
    }
    args.push(package.to_owned());
    let invocation = Invocation { program: program.to_owned(), args, attached: false };
    assert(invocation@.args =~= words(leading@).push(package@));
    invocation
}

impl ArchLinux {
    /// The invocation that asks `yay` for its version, by whose answer the
    /// manager of a host is known.
    pub fn version_probe() -> (invocation: Invocation)
        ensures
            invocation@ == package_command("yay"@, Seq::empty(), "--version"@),
    {
        let leading: Vec<&'static str> = Vec::new();
        assert(words(leading@) =~= Seq::<Seq<char>>::empty());
        package_invocation("yay", leading, "--version")
    }
}

impl PackageInstaller for ArchLinux {
    open spec fn spec_install_package(self, package: Seq<char>, use_sudo: bool) -> InvocationView {
        match self {
            ArchLinux::Pacman => package_command(
                "pacman"@,
                seq!["-S"@, "--noconfirm"@, "--needed"@],
                package,
            ),
            ArchLinux::Yay => package_command(
                "yay"@,
                seq!["-S"@, "--noconfirm"@, "--overwrite"@],
                package,
            ),
        }
    }

    open spec fn spec_package_manager(version_output: Seq<char>) -> Self {
        if contains(version_output, YAY_MARKER@) {
            ArchLinux::Yay
        } else {
            ArchLinux::Pacman
        }
    }

    fn install_package(&self, package: &str, use_sudo: bool) -> (invocation: Invocation) {
        match self {
            ArchLinux::Pacman => {
                let leading = vec!["-S", "--noconfirm", "--needed"];
                assert(words(leading@) =~= seq!["-S"@, "--noconfirm"@, "--needed"@]);
                package_invocation("pacman", leading, package)
            },
            ArchLinux::Yay => {
                let leading = vec!["-S", "--noconfirm", "--overwrite"];
                assert(words(leading@) =~= seq!["-S"@, "--noconfirm"@, "--overwrite"@]);
                package_invocation("yay", leading, package)
            },
        }
    }

    fn package_manager(version_output: &str) -> (manager: Self) {
        if str_contains(version_output, YAY_MARKER) {
            ArchLinux::Yay
        } else {
            ArchLinux::Pacman
        }
    }
}

/// The package managers of Ubuntu.
#[derive(Clone, Copy, PartialEq, Eq, Structural, Debug)]
pub enum Ubuntu {
    Apt,
}

impl Default for Ubuntu {
    fn default() -> (manager: Ubuntu)
        ensures
            manager == Ubuntu::Apt,
    {
        Ubuntu::Apt
    }
}

impl PackageInstaller for Ubuntu {
    open spec fn spec_install_package(self, package: Seq<char>, use_sudo: bool) -> InvocationView {
        if use_sudo {
            package_command("sudo"@, seq!["apt"@, "install"@, "-y"@], package)
        } else {
            package_command("apt"@, seq!["install"@, "-y"@], package)
        }
    }

    open spec fn spec_package_manager(version_output: Seq<char>) -> Self {
        Ubuntu::Apt
    }

    fn install_package(&self, package: &str, use_sudo: bool) -> (invocation: Invocation) {
        if use_sudo {
            let leading = vec!["apt", "install", "-y"];
            assert(words(leading@) =~= seq!["apt"@, "install"@, "-y"@]);
            package_invocation("sudo", leading, package)
        } else {
            let leading = vec!["install", "-y"];
            assert(words(leading@) =~= seq!["install"@, "-y"@]);
            package_invocation("apt", leading, package)
        }
    }

    fn package_manager(version_output: &str) -> (manager: Self) {
        Ubuntu::Apt
    }
}

} // verus!
