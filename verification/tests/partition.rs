use jade::args::{Partition, PartitionMode};
use jade::error::{Halt, PlanError};
use jade::functions::partition::{
    auto_format, create_partitions, encrypt_partition, fmt_mount, mount, mount_disks, partition,
    partition_paths, umount,
};
use jade::order::sort_by_mountpoint;
use jade::step::Step;

fn strings(items: &[&str]) -> Vec<String> {
    items.iter().map(|s| s.to_string()).collect()
}

fn mounts_at(step: &Step) -> Option<&str> {
    match step {
        Step::Exec { program, args, .. } if program == "mount" => Some(args[1].as_str()),
        _ => None,
    }
}

#[test]
fn planner_names_traditional_device_with_efi() {
    assert_eq!(
        partition_paths("/dev/sda", true),
        strings(&["/dev/sda1", "/dev/sda2", "/dev/sda3"])
    );
}

#[test]
fn planner_names_nvme_device_with_efi() {
    assert_eq!(
        partition_paths("/dev/nvme0n1", true),
        strings(&["/dev/nvme0n1p1", "/dev/nvme0n1p2", "/dev/nvme0n1p3"])
    );
}

#[test]
fn planner_names_two_partitions_without_efi() {
    assert_eq!(partition_paths("/dev/vda", false), strings(&["/dev/vda1", "/dev/vda2"]));
    assert_eq!(
        partition_paths("/dev/mmcblk0", false),
        strings(&["/dev/mmcblk0p1", "/dev/mmcblk0p2"])
    );
    assert_eq!(
        partition_paths("/dev/nvme1n1", false),
        strings(&["/dev/nvme1n1p1", "/dev/nvme1n1p2"])
    );
}

#[test]
fn planner_length_follows_boot_mode() {
    for device in ["/dev/sda", "/dev/nvme0n1", "/dev/mmcblk1", "", "x"] {
        assert_eq!(partition_paths(device, true).len(), 3);
        assert_eq!(partition_paths(device, false).len(), 2);
    }
}

#[test]
fn table_writer_makes_gpt_with_three_partitions() {
    let plan = create_partitions("/dev/sda", true);
    assert_eq!(
        plan,
        vec![
            Step::exec(
                "parted",
                vec!["-s", "/dev/sda", "mklabel", "gpt"],
                "Create gpt label on /dev/sda"
            ),
            Step::exec(
                "parted",
                vec!["-s", "/dev/sda", "mkpart", "fat32", "1MiB", "125MiB"],
                "create EFI partition"
            ),
            Step::exec(
                "parted",
                vec!["-s", "/dev/sda", "mkpart", "primary", "ext4", "125MIB", "637MIB"],
                "create boot partition"
            ),
            Step::exec(
                "parted",
                vec!["-s", "/dev/sda", "mkpart", "primary", "btrfs", "637MiB", "100%"],
                "create btrfs root partition"
            ),
        ]
    );
}

#[test]
fn table_writer_makes_mbr_with_two_partitions() {
    let plan = create_partitions("/dev/vdb", false);
    assert_eq!(
        plan,
        vec![
            Step::exec(
                "parted",
                vec!["-s", "/dev/vdb", "mklabel", "msdos"],
                "Create msdos label on /dev/vdb"
            ),
            Step::exec(
                "parted",
                vec!["-s", "/dev/vdb", "mkpart", "primary", "ext4", "1MIB", "512MIB"],
                "create bios boot partition"
            ),
            Step::exec(
                "parted",
                vec!["-s", "/dev/vdb", "mkpart", "primary", "btrfs", "512MIB", "100%"],
                "create btrfs root partition"
            ),
        ]
    );
}

#[test]
fn table_writer_and_planner_agree_on_count() {
    for efi in [true, false] {
        let made = create_partitions("/dev/sda", efi).len() - 1;
        assert_eq!(made, partition_paths("/dev/sda", efi).len());
    }
}

#[test]
fn encryption_replaces_root_with_efi() {
    let raw = strings(&["efi", "boot", "root"]);
    let (_, mapped) = encrypt_partition(&raw, "secret", true);
    assert_eq!(mapped, strings(&["efi", "boot", "/dev/mapper/root"]));
}

#[test]
fn encryption_replaces_root_without_efi() {
    let raw = strings(&["/dev/sda1", "/dev/sda2"]);
    let (_, mapped) = encrypt_partition(&raw, "secret", false);
    assert_eq!(mapped, strings(&["/dev/sda1", "/dev/mapper/root"]));
}

#[test]
fn encryption_steps_format_open_close_open_and_stage_script() {
    let raw = strings(&["/dev/sda1", "/dev/sda2", "/dev/sda3"]);
    let (steps, _) = encrypt_partition(&raw, "hunter2", true);
    let open = Step::exec(
        "bash",
        vec!["-c", "echo hunter2 | cryptsetup luksOpen /dev/sda3 root"],
        "LUKS open /dev/sda3",
    );
    assert_eq!(
        steps,
        vec![
            Step::exec(
                "bash",
                vec!["-c", "echo hunter2 | cryptsetup luksFormat /dev/sda3"],
                "LUKS encrypt /dev/sda3"
            ),
            open.clone(),
            Step::exec("cryptsetup", vec!["close", "root"], "LUKS close /dev/sda3"),
            open,
            Step::create_file("/tmp/encryption.sh"),
            Step::append_file("/tmp/encryption.sh", "#!/bin/bash", "Write encryption script"),
            Step::append_file(
                "/tmp/encryption.sh",
                "UUID=$(lsblk -pdfo UUID /dev/sda3 | grep -v UUID)",
                "Write encryption script"
            ),
            Step::append_file(
                "/tmp/encryption.sh",
                "sed -i \"s/UUID=/UUID=${UUID}/g\" /mnt/etc/default/grub",
                "Write encryption script"
            ),
        ]
    );
}

#[test]
fn formatter_labels_three_partitions_with_efi() {
    let plan = auto_format(true, &strings(&["/dev/sda1", "/dev/sda2", "/dev/mapper/root"]));
    assert_eq!(
        plan,
        vec![
            Step::exec(
                "mkfs.vfat",
                vec!["-F32", "-n", "crystal-efi", "/dev/sda1"],
                "format /dev/sda1 as fat32 with label crystal-efi"
            ),
            Step::exec(
                "mkfs.ext4",
                vec!["-F", "-L", "crystal-boot", "/dev/sda2"],
                "format /dev/sda2 as ext4 with label crystal-boot"
            ),
            Step::exec(
                "mkfs.btrfs",
                vec!["-f", "-L", "crystal-root", "/dev/mapper/root"],
                "format /dev/mapper/root as btrfs with label crystal-root"
            ),
        ]
    );
}

#[test]
fn formatter_roles_shift_without_efi() {
    let plan = auto_format(false, &strings(&["/dev/sda1", "/dev/sda2"]));
    assert_eq!(
        plan,
        vec![
            Step::exec(
                "mkfs.ext4",
                vec!["-F", "-L", "crystal-boot", "/dev/sda1"],
                "format /dev/sda1 as ext4 with label crystal-boot"
            ),
            Step::exec(
                "mkfs.btrfs",
                vec!["-f", "-L", "crystal-root", "/dev/sda2"],
                "format /dev/sda2 as btrfs with label crystal-root"
            ),
        ]
    );
}

#[test]
fn mount_with_and_without_options() {
    assert_eq!(
        mount("/dev/sda2", "/mnt/boot", ""),
        Step::exec(
            "mount",
            vec!["/dev/sda2", "/mnt/boot"],
            "mount /dev/sda2 with no options at /mnt/boot"
        )
    );
    assert_eq!(
        mount("/dev/sda3", "/mnt", "subvol=@"),
        Step::exec(
            "mount",
            vec!["/dev/sda3", "/mnt", "-o", "subvol=@"],
            "mount /dev/sda3 with options subvol=@ at /mnt"
        )
    );
}

#[test]
fn umount_names_the_mountpoint() {
    assert_eq!(umount("/mnt"), Step::exec("umount", vec!["/mnt"], "unmount /mnt"));
}

#[test]
fn mount_orchestrator_follows_the_protocol() {
    let root = "/dev/disk/by-label/crystal-root";
    let plan = mount_disks(true, false);
    assert_eq!(
        plan,
        vec![
            mount(root, "/mnt", ""),
            Step::exec_workdir(
                "btrfs",
                "/mnt",
                vec!["subvolume", "create", "@"],
                "create btrfs subvolume @"
            ),
            Step::exec_workdir(
                "btrfs",
                "/mnt",
                vec!["subvolume", "create", "@home"],
                "create btrfs subvolume @home"
            ),
            umount("/mnt"),
            mount(root, "/mnt", "subvol=@"),
            Step::create_directory("/mnt/home", "create directory /mnt/home"),
            mount(root, "/mnt/home", "subvol=@home"),
            Step::create_directory("/mnt/boot", "create directory /mnt/boot"),
            mount("/dev/disk/by-label/crystal-boot", "/mnt/boot", ""),
            Step::create_directory("/mnt/boot/efi", "create directory /mnt/boot/efi"),
            mount("/dev/disk/by-label/crystal-efi", "/mnt/boot/efi", ""),
        ]
    );
}

#[test]
fn mount_orchestrator_uses_mapped_device_when_encrypted() {
    let plan = mount_disks(false, true);
    assert_eq!(plan.len(), 9);
    assert_eq!(plan[0], mount("/dev/mapper/root", "/mnt", ""));
    assert_eq!(plan[4], mount("/dev/mapper/root", "/mnt", "subvol=@"));
    assert_eq!(plan[6], mount("/dev/mapper/root", "/mnt/home", "subvol=@home"));
    assert_eq!(plan[8], mount("/dev/disk/by-label/crystal-boot", "/mnt/boot", ""));
}

#[test]
fn children_are_mounted_after_root_subvolume() {
    for efi in [true, false] {
        for encrypted in [true, false] {
            let plan = mount_disks(efi, encrypted);
            let mut root_ready = false;
            let mut children = 0;
            for step in &plan {
                match step {
                    Step::Exec { program, args, .. } if program == "mount" => {
                        if args[1] == "/mnt" {
                            root_ready = args.len() == 4 && args[3] == "subvol=@";
                        } else {
                            assert!(root_ready);
                            children += 1;
                        }
                    }
                    Step::Exec { program, args, .. } if program == "umount" => {
                        if args[0] == "/mnt" {
                            root_ready = false;
                        }
                    }
                    _ => {}
                }
            }
            assert_eq!(children, if efi { 3 } else { 2 });
            let order: Vec<&str> = plan.iter().filter_map(mounts_at).collect();
            let mut expected = vec!["/mnt", "/mnt", "/mnt/home", "/mnt/boot"];
            if efi {
                expected.push("/mnt/boot/efi");
            }
            assert_eq!(order, expected);
        }
    }
}

#[test]
fn fmt_mount_formats_creates_and_mounts() {
    let plan = fmt_mount("/mnt/data", "ext4", "/dev/sdb1").unwrap();
    assert_eq!(
        plan,
        vec![
            Step::exec("mkfs.ext4", vec!["/dev/sdb1"], "Formatting /dev/sdb1 as ext4"),
            Step::exec(
                "mkdir",
                vec!["-p", "/mnt/data"],
                "Creating mountpoint /mnt/data for /dev/sdb1"
            ),
            mount("/dev/sdb1", "/mnt/data", ""),
        ]
    );
}

#[test]
fn fmt_mount_gives_vfat_and_btrfs_their_flags() {
    let plan = fmt_mount("/mnt/boot/efi", "vfat", "/dev/sda1").unwrap();
    assert_eq!(
        plan[0],
        Step::exec("mkfs.vfat", vec!["-F32", "/dev/sda1"], "Formatting /dev/sda1 as vfat")
    );
    let plan = fmt_mount("/mnt", "btrfs", "/dev/sda3").unwrap();
    assert_eq!(
        plan[0],
        Step::exec("mkfs.btrfs", vec!["-f", "/dev/sda3"], "Formatting /dev/sda3 as btrfs")
    );
}

#[test]
fn fmt_mount_knows_every_mkfs_kind() {
    for kind in [
        "vfat", "bfs", "cramfs", "ext3", "fat", "msdos", "xfs", "btrfs", "ext2", "ext4", "minix",
        "f2fs",
    ] {
        let plan = fmt_mount("/mnt/x", kind, "/dev/sdc1").unwrap();
        assert_eq!(plan.len(), 3);
        match &plan[0] {
            Step::Exec { program, args, purpose } => {
                assert_eq!(program, &format!("mkfs.{kind}"));
                assert_eq!(args.last().unwrap(), "/dev/sdc1");
                assert_eq!(purpose, &format!("Formatting /dev/sdc1 as {kind}"));
            }
            other => panic!("{other:?}"),
        }
    }
}

#[test]
fn fmt_mount_leaves_contents_when_asked() {
    for kind in ["don't format", "noformat"] {
        let plan = fmt_mount("/mnt/home", kind, "/dev/sdb2").unwrap();
        assert_eq!(
            plan,
            vec![
                Step::exec(
                    "mkdir",
                    vec!["-p", "/mnt/home"],
                    "Creating mountpoint /mnt/home for /dev/sdb2"
                ),
                mount("/dev/sdb2", "/mnt/home", ""),
            ]
        );
    }
}

#[test]
fn fmt_mount_rejects_unknown_filesystem() {
    for kind in ["ntfs", "", "EXT4", "ext", "ext44"] {
        assert_eq!(
            fmt_mount("/mnt", kind, "/dev/sda1"),
            Err(PlanError::UnknownFilesystem {
                filesystem: kind.to_string(),
                blockdevice: "/dev/sda1".to_string(),
            })
        );
    }
}

#[test]
fn auto_mode_rejects_missing_device() {
    let mut partitions = Vec::new();
    let plan =
        partition("/dev/nope", false, PartitionMode::Auto, true, false, "", &mut partitions);
    assert_eq!(
        plan,
        Err(Halt {
            done: Vec::new(),
            cause: PlanError::DeviceMissing { device: "/dev/nope".to_string() },
        })
    );
}

#[test]
fn auto_mode_plain_efi_runs_every_stage_in_order() {
    let mut partitions = Vec::new();
    let plan =
        partition("/dev/sda", true, PartitionMode::Auto, true, false, "", &mut partitions)
            .unwrap();
    let mut expected = create_partitions("/dev/sda", true);
    expected.extend(auto_format(true, &strings(&["/dev/sda1", "/dev/sda2", "/dev/sda3"])));
    expected.extend(mount_disks(true, false));
    assert_eq!(plan, expected);
    assert_eq!(plan.len(), 4 + 3 + 11);
}

#[test]
fn auto_mode_encrypted_formats_the_mapped_device() {
    let mut partitions = vec![Partition::new("/mnt", "/dev/sdz1", "ext4")];
    let plan =
        partition("/dev/nvme0n1", true, PartitionMode::Auto, false, true, "pw", &mut partitions)
            .unwrap();
    let raw = strings(&["/dev/nvme0n1p1", "/dev/nvme0n1p2"]);
    let (locking, mapped) = encrypt_partition(&raw, "pw", false);
    let mut expected = create_partitions("/dev/nvme0n1", false);
    expected.extend(locking);
    expected.extend(auto_format(false, &mapped));
    expected.extend(mount_disks(false, true));
    assert_eq!(plan, expected);
    assert!(plan.contains(&Step::exec(
        "mkfs.btrfs",
        vec!["-f", "-L", "crystal-root", "/dev/mapper/root"],
        "format /dev/mapper/root as btrfs with label crystal-root"
    )));
    assert!(!plan.iter().any(|step| matches!(step,
        Step::Exec { program, args, .. } if program.starts_with("mkfs") && args.contains(&"/dev/nvme0n1p2".to_string()))));
    assert_eq!(partitions, vec![Partition::new("/mnt", "/dev/sdz1", "ext4")]);
}

#[test]
fn manual_mode_mounts_parents_before_children() {
    let mut partitions = vec![
        Partition::new("/mnt/boot/efi", "/dev/sda1", "vfat"),
        Partition::new("/mnt/home", "/dev/sda4", "noformat"),
        Partition::new("/mnt", "/dev/sda3", "btrfs"),
        Partition::new("/mnt/boot", "/dev/sda2", "ext4"),
    ];
    let plan =
        partition("", false, PartitionMode::Manual, true, true, "ignored", &mut partitions)
            .unwrap();
    assert_eq!(
        partitions,
        vec![
            Partition::new("/mnt", "/dev/sda3", "btrfs"),
            Partition::new("/mnt/home", "/dev/sda4", "noformat"),
            Partition::new("/mnt/boot", "/dev/sda2", "ext4"),
            Partition::new("/mnt/boot/efi", "/dev/sda1", "vfat"),
        ]
    );
    let mut expected = fmt_mount("/mnt", "btrfs", "/dev/sda3").unwrap();
    expected.extend(fmt_mount("/mnt/home", "noformat", "/dev/sda4").unwrap());
    expected.extend(fmt_mount("/mnt/boot", "ext4", "/dev/sda2").unwrap());
    expected.extend(fmt_mount("/mnt/boot/efi", "vfat", "/dev/sda1").unwrap());
    assert_eq!(plan, expected);
    let order: Vec<&str> = plan.iter().filter_map(mounts_at).collect();
    assert_eq!(order, vec!["/mnt", "/mnt/home", "/mnt/boot", "/mnt/boot/efi"]);
}

#[test]
fn manual_mode_stops_at_first_unknown_filesystem() {
    let mut partitions = vec![
        Partition::new("/mnt/home", "/dev/sda4", "zfs"),
        Partition::new("/mnt/boot/efi", "/dev/sda1", "hfs"),
        Partition::new("/mnt", "/dev/sda3", "btrfs"),
    ];
    let plan = partition("", false, PartitionMode::Manual, false, false, "", &mut partitions);
    assert_eq!(
        plan,
        Err(Halt {
            done: fmt_mount("/mnt", "btrfs", "/dev/sda3").unwrap(),
            cause: PlanError::UnknownFilesystem {
                filesystem: "zfs".to_string(),
                blockdevice: "/dev/sda4".to_string(),
            },
        })
    );
}

#[test]
fn manual_mode_with_no_partitions_plans_nothing() {
    let mut partitions = Vec::new();
    let plan = partition("", false, PartitionMode::Manual, false, false, "", &mut partitions);
    assert_eq!(plan, Ok(Vec::new()));
}

#[test]
fn sort_is_by_length_and_stable() {
    let mut partitions = vec![
        Partition::new("/bbb", "first", "ext4"),
        Partition::new("/a", "second", "ext4"),
        Partition::new("/ccc", "third", "ext4"),
        Partition::new("/", "fourth", "ext4"),
        Partition::new("/d", "fifth", "ext4"),
    ];
    sort_by_mountpoint(&mut partitions);
    let order: Vec<&str> = partitions.iter().map(|p| p.blockdevice.as_str()).collect();
    assert_eq!(order, vec!["fourth", "second", "fifth", "first", "third"]);
}

#[test]
fn sort_counts_bytes() {
    let mut partitions = vec![
        Partition::new("/mnt/\u{e9}\u{e9}", "wide", "ext4"),
        Partition::new("/mnt/abc", "narrow", "ext4"),
    ];
    sort_by_mountpoint(&mut partitions);
    assert_eq!(partitions[0].blockdevice, "narrow");
    assert_eq!(partitions[1].blockdevice, "wide");
}

#[test]
fn sorting_twice_changes_nothing() {
    let mut partitions = vec![
        Partition::new("/mnt/boot/efi", "/dev/sda1", "vfat"),
        Partition::new("/mnt", "/dev/sda3", "btrfs"),
        Partition::new("/mnt/boot", "/dev/sda2", "ext4"),
        Partition::new("/mnt/home", "/dev/sda4", "ext4"),
    ];
    sort_by_mountpoint(&mut partitions);
    let once = partitions.clone();
    sort_by_mountpoint(&mut partitions);
    assert_eq!(partitions, once);
    for pair in partitions.windows(2) {
        assert!(pair[0].mountpoint.len() <= pair[1].mountpoint.len());
    }
}
