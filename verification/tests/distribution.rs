use setup_engine::distribution::{
    identify_linux_distribution, ArchLinux, DistributionType, LinuxDistributor, PackageInstaller,
    Ubuntu, ARCH_RELEASE_PATH, LSB_RELEASE_PATH,
};
use setup_engine::process::Invocation;

fn strings(items: &[&str]) -> Vec<String> {
    items.iter().map(|item| item.to_string()).collect()
}

#[test]
fn test_display_linux_distribution() {
    assert_eq!(DistributionType::Ubuntu.to_string(), "Ubuntu");
    assert_eq!(DistributionType::ArchLinux.to_string(), "Arch Linux");
    assert_eq!(DistributionType::Unknown.to_string(), "Unknown");
}

#[test]
fn test_identify_linux_distribution() {
    let arch_release = std::path::Path::new(ARCH_RELEASE_PATH).exists();
    let distro = identify_linux_distribution(arch_release, None);
    assert!(matches!(
        distro,
        DistributionType::Ubuntu | DistributionType::ArchLinux | DistributionType::Unknown
    ));
}

#[test]
fn test_identify_by_what_the_files_show() {
    let ubuntu = "DISTRIB_ID=Ubuntu\nDISTRIB_RELEASE=22.04\n";
    assert_eq!(
        identify_linux_distribution(true, None),
        DistributionType::ArchLinux
    );
    assert_eq!(
        identify_linux_distribution(true, Some(ubuntu)),
        DistributionType::ArchLinux
    );
    assert_eq!(
        identify_linux_distribution(false, Some(ubuntu)),
        DistributionType::Ubuntu
    );
    assert_eq!(
        identify_linux_distribution(false, Some("DISTRIB_ID=Debian\n")),
        DistributionType::Unknown
    );
    assert_eq!(
        identify_linux_distribution(false, Some("distrib_id=ubuntu\n")),
        DistributionType::Unknown
    );
    assert_eq!(
        identify_linux_distribution(false, Some("")),
        DistributionType::Unknown
    );
    assert_eq!(
        identify_linux_distribution(false, None),
        DistributionType::Unknown
    );
    assert_eq!(
        DistributionType::check(false, Some(ubuntu)),
        DistributionType::Ubuntu
    );
}

#[test]
fn test_marker_paths() {
    assert_eq!(ARCH_RELEASE_PATH, "/etc/arch-release");
    assert_eq!(LSB_RELEASE_PATH, "/etc/lsb-release");
}

#[test]
fn test_arch_install_package() {
    assert_eq!(
        ArchLinux::Pacman.install_package("git", false),
        Invocation {
            program: "pacman".to_string(),
            args: strings(&["-S", "--noconfirm", "--needed", "git"]),
            attached: false,
        }
    );
    assert_eq!(
        ArchLinux::Yay.install_package("git", true),
        Invocation {
            program: "yay".to_string(),
            args: strings(&["-S", "--noconfirm", "--overwrite", "git"]),
            attached: false,
        }
    );
}

#[test]
fn test_arch_package_manager() {
    assert_eq!(
        ArchLinux::version_probe(),
        Invocation {
            program: "yay".to_string(),
            args: strings(&["--version"]),
            attached: false,
        }
    );
    assert_eq!(
        ArchLinux::package_manager("yay v12.3.5 - libalpm v14.0.0\n"),
        ArchLinux::Yay
    );
    assert_eq!(ArchLinux::package_manager(""), ArchLinux::Pacman);
    assert_eq!(ArchLinux::package_manager("YAY V1"), ArchLinux::Pacman);
    assert_eq!(ArchLinux::default(), ArchLinux::Pacman);
}

#[test]
fn test_ubuntu_install_package() {
    assert_eq!(
        Ubuntu::Apt.install_package("git", true),
        Invocation {
            program: "sudo".to_string(),
            args: strings(&["apt", "install", "-y", "git"]),
            attached: false,
        }
    );
    assert_eq!(
        Ubuntu::Apt.install_package("git", false),
        Invocation {
            program: "apt".to_string(),
            args: strings(&["install", "-y", "git"]),
            attached: false,
        }
    );
    assert_eq!(Ubuntu::package_manager("anything"), Ubuntu::Apt);
    assert_eq!(Ubuntu::default(), Ubuntu::Apt);
}
