//! Linux distributions: telling them apart, and their package managers.

mod linux_distributor;

pub use linux_distributor::identify_linux_distribution;
pub use linux_distributor::ArchLinux;
pub use linux_distributor::DistributionType;
pub use linux_distributor::LinuxDistributor;
pub use linux_distributor::PackageInstaller;
pub use linux_distributor::Ubuntu;
pub use linux_distributor::{ARCH_RELEASE_PATH, LSB_RELEASE_PATH, UBUNTU_MARKER, YAY_MARKER};
