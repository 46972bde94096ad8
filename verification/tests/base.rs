use jade::error::PlanError;
use jade::functions::base::{
    efi_directory, efi_probe_path, genfstab, install_base_packages, install_bootloader_grub_efi,
    install_bootloader_grub_legacy, install_bootloader_refind, install_flatpak, install_homemgr,
    install_zram, kernel_warning, setup_timeshift, Kernel,
};
use jade::functions::partition::umount;
use jade::internal::install::install;
use jade::step::Step;

fn grub_tail() -> Vec<Step> {
    vec![
        Step::append_file(
            "/mnt/etc/default/grub",
            "GRUB_THEME=\"/usr/share/grub/themes/crystal/theme.txt\"",
            "enable crystal grub theme",
        ),
        Step::exec_chroot("grub-mkconfig", vec!["-o", "/boot/grub/grub.cfg"], "create grub.cfg"),
    ]
}

#[test]
fn install_runs_pacstrap_and_unmounts_dev() {
    assert_eq!(
        install(vec!["grub", "efibootmgr", "os-prober"]),
        vec![
            Step::exec(
                "pacstrap",
                vec!["/mnt", "grub", "efibootmgr", "os-prober"],
                "Installing packages: grub, efibootmgr, os-prober"
            ),
            umount("/mnt/dev"),
        ]
    );
}

#[test]
fn install_of_one_package_has_no_separator() {
    assert_eq!(
        install(vec!["nix"])[0],
        Step::exec("pacstrap", vec!["/mnt", "nix"], "Installing packages: nix")
    );
    assert_eq!(
        install(Vec::new())[0],
        Step::exec("pacstrap", vec!["/mnt"], "Installing packages: ")
    );
}

#[test]
fn kernel_is_chosen_from_a_closed_set() {
    assert_eq!(Kernel::select(""), Kernel::Linux);
    assert_eq!(Kernel::select("linux"), Kernel::Linux);
    assert_eq!(Kernel::select("linux-lts"), Kernel::Lts);
    assert_eq!(Kernel::select("linux-zen"), Kernel::Zen);
    assert_eq!(Kernel::select("linux-hardened"), Kernel::Hardened);
    assert_eq!(Kernel::select("linux-rt"), Kernel::Linux);
    assert_eq!(Kernel::parse("linux-rt"), None);
    assert_eq!(Kernel::parse(""), None);
    assert_eq!(Kernel::parse("linux-zen"), Some(Kernel::Zen));
    assert_eq!(Kernel::Hardened.package(), "linux-hardened");
    assert_eq!(Kernel::Lts.package(), "linux-lts");
}

#[test]
fn unknown_kernel_is_warned_about() {
    assert_eq!(
        kernel_warning("linux-rt"),
        Some("Unknown kernel: linux-rt, using default instead".to_string())
    );
    assert_eq!(kernel_warning(""), None);
    assert_eq!(kernel_warning("linux"), None);
    assert_eq!(kernel_warning("linux-zen"), None);
}

#[test]
fn base_packages_get_kernel_and_headers_behind_the_first() {
    let plan = install_base_packages("linux-zen", &vec!["base", "networkmanager", "sudo"]);
    let mut expected = vec![Step::create_directory("/mnt/etc", "create directory /mnt/etc")];
    expected.extend(install(vec![
        "base",
        "linux-zen",
        "linux-zen-headers",
        "networkmanager",
        "sudo",
    ]));
    expected.push(Step::copy_file("/etc/pacman.conf", "/mnt/etc/pacman.conf"));
    expected.push(Step::exec_chroot("systemctl", vec!["enable", "bluetooth"], "Enable bluetooth"));
    expected.push(Step::exec_chroot("systemctl", vec!["enable", "cups"], "Enable CUPS"));
    assert_eq!(plan, expected);
}

#[test]
fn base_packages_fall_back_to_standard_kernel() {
    for kernel in ["", "linux", "nonsense"] {
        let plan = install_base_packages(kernel, &vec!["base"]);
        assert_eq!(
            plan[1],
            Step::exec(
                "pacstrap",
                vec!["/mnt", "base", "linux", "linux-headers"],
                "Installing packages: base, linux, linux-headers"
            )
        );
    }
}

#[test]
fn genfstab_appends_to_fstab() {
    assert_eq!(
        genfstab(),
        vec![Step::exec(
            "bash",
            vec!["-c", "genfstab -U /mnt >> /mnt/etc/fstab"],
            "Generate fstab"
        )]
    );
}

#[test]
fn efi_directory_is_joined_below_mnt() {
    assert_eq!(efi_directory("/boot/efi"), "/boot/efi");
    assert_eq!(efi_directory("boot/efi"), "/mnt/boot/efi");
    assert_eq!(efi_directory(""), "/mnt/");
    assert_eq!(efi_probe_path("/boot/efi"), "/mnt/boot/efi");
    assert_eq!(efi_probe_path("boot/efi"), "/mnt/mnt/boot/efi");
    assert_eq!(
        std::path::Path::new("/mnt").join("boot/efi").to_str().unwrap(),
        efi_directory("boot/efi")
    );
    assert_eq!(std::path::Path::new("/mnt").join("").to_str().unwrap(), efi_directory(""));
    assert_eq!(
        std::path::Path::new("/mnt").join("/efi").to_str().unwrap(),
        efi_directory("/efi")
    );
}

#[test]
fn grub_efi_is_rejected_without_efi_directory() {
    assert_eq!(
        install_bootloader_grub_efi("/boot/efi", false),
        Err(PlanError::EfiDirMissing { efidir: "/boot/efi".to_string() })
    );
    assert_eq!(
        install_bootloader_grub_efi("efi", false),
        Err(PlanError::EfiDirMissing { efidir: "/mnt/efi".to_string() })
    );
}

#[test]
fn grub_efi_installs_removable_and_registered() {
    let plan = install_bootloader_grub_efi("/boot/efi", true).unwrap();
    let mut expected = install(vec![
        "grub",
        "efibootmgr",
        "crystal-grub-theme",
        "os-prober",
        "crystal-branding",
    ]);
    expected.push(Step::exec_chroot(
        "grub-install",
        vec![
            "--target=x86_64-efi",
            "--efi-directory=/boot/efi",
            "--bootloader-id=crystal",
            "--removable",
        ],
        "install grub as efi with --removable",
    ));
    expected.push(Step::exec_chroot(
        "grub-install",
        vec!["--target=x86_64-efi", "--efi-directory=/boot/efi", "--bootloader-id=crystal"],
        "install grub as efi without --removable",
    ));
    expected.extend(grub_tail());
    assert_eq!(plan, expected);
}

#[test]
fn grub_legacy_is_rejected_without_device() {
    assert_eq!(
        install_bootloader_grub_legacy("/dev/sdq", false),
        Err(PlanError::BootDeviceMissing { device: "/dev/sdq".to_string() })
    );
}

#[test]
fn grub_legacy_installs_onto_device() {
    let plan = install_bootloader_grub_legacy("/dev/sda", true).unwrap();
    let mut expected =
        install(vec!["grub", "crystal-grub-theme", "os-prober", "crystal-branding"]);
    expected.push(Step::exec_chroot(
        "grub-install",
        vec!["--target=i386-pc", "/dev/sda"],
        "install grub as legacy",
    ));
    expected.extend(grub_tail());
    assert_eq!(plan, expected);
}

#[test]
fn refind_is_rejected_without_efi_directory() {
    for default in [true, false] {
        assert_eq!(
            install_bootloader_refind("/boot/efi", false, default, "/dev/sda"),
            Err(PlanError::EfiDirMissing { efidir: "/boot/efi".to_string() })
        );
    }
}

#[test]
fn refind_as_default_needs_no_firmware_entry() {
    let plan = install_bootloader_refind("/boot/efi", true, true, "/dev/sda").unwrap();
    let mut expected = install(vec!["refind", "efibootmgr"]);
    expected.push(Step::create_directory("/mnt/boot/efi/EFI/BOOT", "create esp dir"));
    expected.push(Step::copy_file(
        "/mnt/usr/share/refind/refind_x64.efi ",
        "/mnt/boot/efi/EFI/BOOT/bootx64.efi",
    ));
    assert_eq!(plan, expected);
}

#[test]
fn refind_beside_default_registers_itself() {
    let plan = install_bootloader_refind("/boot/efi", true, false, "/dev/nvme0n1").unwrap();
    let mut expected = install(vec!["refind", "efibootmgr"]);
    expected.push(Step::create_directory("/mnt/boot/efi/EFI/refind", "create esp dir"));
    expected.push(Step::copy_file(
        "/mnt/usr/share/refind/refind_x64.efi ",
        "/mnt/boot/efi/EFI/refind/refind_x64.efi",
    ));
    expected.push(Step::exec_chroot(
        "efibootmgr",
        vec![
            "--create",
            "--disk",
            "/dev/nvme0n1",
            "--part",
            "1",
            "--loader",
            "/EFI/refind/refind_x64.efi",
            "--label",
            "rEFInd Boot Manager",
            "--unicode",
        ],
        "creating uefi boot entry for refind",
    ));
    assert_eq!(plan, expected);
}

#[test]
fn timeshift_adds_grub_btrfs_only_with_grub() {
    let tail = Step::exec_chroot("timeshift", vec!["--btrfs"], "setup timeshift");
    for bootloader in ["grub", "grub-efi", "legacy-grub2"] {
        let mut expected = install(vec!["timeshift", "timeshift-autosnap", "grub-btrfs"]);
        expected.push(tail.clone());
        assert_eq!(setup_timeshift(bootloader), expected);
    }
    for bootloader in ["refind", "", "gru", "GRUB"] {
        let mut expected = install(vec!["timeshift", "timeshift-autosnap"]);
        expected.push(tail.clone());
        assert_eq!(setup_timeshift(bootloader), expected);
    }
}

#[test]
fn homemgr_installs_nix() {
    assert_eq!(install_homemgr(), install(vec!["nix"]));
}

#[test]
fn flatpak_adds_flathub() {
    let mut expected = install(vec!["flatpak"]);
    expected.push(Step::exec_chroot(
        "flatpak",
        vec![
            "remote-add",
            "--if-not-exists",
            "flathub",
            "https://flathub.org/repo/flathub.flatpakrepo",
        ],
        "Add flathub remote",
    ));
    assert_eq!(install_flatpak(), expected);
}

#[test]
fn zram_writes_generator_config() {
    let mut expected = install(vec!["zram-generator"]);
    expected.push(Step::create_file("/mnt/etc/systemd/zram-generator.conf"));
    expected.push(Step::append_file(
        "/mnt/etc/systemd/zram-generator.conf",
        "[zram0]",
        "Write zram-generator config",
    ));
    assert_eq!(install_zram(), expected);
}
