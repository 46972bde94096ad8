//! Partitioning, encryption, formatting and mounting of the target disk.

use vstd::prelude::*;
use vstd::string::*;
use crate::step::{plan_view, put, put_all, Step, StepView};
use crate::args::{partitions_view, Partition, PartitionMode, PartitionView};
use crate::error::{Halt, PlanError, PlanErrorView};
use crate::order::{ordered, sort_by_mountpoint, sorted_by_length};
use crate::text::{glue, contains, has_substring, owned, same_text, strings_view, strs_view};

verus! {

/// The step that mounts `partition` at `mountpoint`: with `-o options` where
/// `options` is not empty, without it otherwise.
pub open spec fn mount_step(
    partition: Seq<char>,
    mountpoint: Seq<char>,
    options: Seq<char>,
) -> StepView {
    if options.len() > 0 {
        StepView::Exec {
            program: "mount"@,
            args: seq![partition, mountpoint, "-o"@, options],
            purpose: "mount "@ + partition + " with options "@ + options + " at "@ + mountpoint,
        }
    } else {
        StepView::Exec {
            program: "mount"@,
            args: seq![partition, mountpoint],
            purpose: "mount "@ + partition + " with no options at "@ + mountpoint,
        }
    }
}

/// The step that unmounts `mountpoint`.
pub open spec fn umount_step(mountpoint: Seq<char>) -> StepView {
    StepView::Exec {
        program: "umount"@,
        args: seq![mountpoint],
        purpose: "unmount "@ + mountpoint,
    }
}

/// Mounts `partition` at `mountpoint`, with `options` if there are any.
pub fn mount(partition: &str, mountpoint: &str, options: &str) -> (step: Step)
    ensures
        step@ == mount_step(partition@, mountpoint@, options@),
{
    if !options.is_empty() {
        let mut purpose = glue("mount ", partition);
        purpose.append(" with options ");
        purpose.append(options);
        purpose.append(" at ");
        purpose.append(mountpoint);
        let args: Vec<&str> = vec![partition, mountpoint, "-o", options];
        assert(strs_view(args@) =~= seq![partition@, mountpoint@, "-o"@, options@]);
        Step::exec("mount", args, purpose.as_str())
    } else {
        let mut purpose = glue("mount ", partition);
        purpose.append(" with no options at ");
        purpose.append(mountpoint);
        let args: Vec<&str> = vec![partition, mountpoint];
        assert(strs_view(args@) =~= seq![partition@, mountpoint@]);
        Step::exec("mount", args, purpose.as_str())
    }
}

/// Unmounts `mountpoint`.
pub fn umount(mountpoint: &str) -> (step: Step)
    ensures
        step@ == umount_step(mountpoint@),
{
    let purpose = glue("unmount ", mountpoint);
    let args: Vec<&str> = vec![mountpoint];
    assert(strs_view(args@) =~= seq![mountpoint@]);
    Step::exec("umount", args, purpose.as_str())
}

/// The name of the partition table that `parted` is asked for.
pub open spec fn label_kind(efi: bool) -> Seq<char> {
    if efi {
        "gpt"@
    } else {
        "msdos"@
    }
}

/// The step that runs `parted -s device` with `words` behind it.
pub open spec fn parted_step(
    device: Seq<char>,
    words: Seq<Seq<char>>,
    purpose: Seq<char>,
) -> StepView {
    StepView::Exec { program: "parted"@, args: seq!["-s"@, device] + words, purpose }
}

/// The steps that write the partition table of `device`: the label, then the
/// partitions from the start of the disk on. With `efi` these are the EFI
/// system partition, the boot partition and the root partition; without it the
/// boot partition and the root partition. The root partition takes what is left.
pub open spec fn create_partitions_plan(device: Seq<char>, efi: bool) -> Seq<StepView> {
    let label = parted_step(
        device,
        seq!["mklabel"@, label_kind(efi)],
        "Create "@ + label_kind(efi) + " label on "@ + device,
    );
    if efi {
        seq![
            label,
            parted_step(
                device,
                seq!["mkpart"@, "fat32"@, "1MiB"@, "125MiB"@],
                "create EFI partition"@,
            ),
            parted_step(
                device,
                seq!["mkpart"@, "primary"@, "ext4"@, "125MIB"@, "637MIB"@],
                "create boot partition"@,
            ),
            parted_step(
                device,
                seq!["mkpart"@, "primary"@, "btrfs"@, "637MiB"@, "100%"@],
                "create btrfs root partition"@,
            ),
        ]
    } else {
        seq![
            label,
            parted_step(
                device,
                seq!["mkpart"@, "primary"@, "ext4"@, "1MIB"@, "512MIB"@],
                "create bios boot partition"@,
            ),
            parted_step(
                device,
                seq!["mkpart"@, "primary"@, "btrfs"@, "512MIB"@, "100%"@],
                "create btrfs root partition"@,
            ),
        ]
    }
}

/// Runs `parted -s device` with `words` behind it.
fn parted(device: &str, words: Vec<&str>, purpose: &str) -> (step: Step)
    ensures
        step@ == parted_step(device@, strs_view(words@), purpose@),
{
    let mut args: Vec<&str> = vec!["-s", device];
    let mut i: usize = 0;
    while i < words.len()
        invariant
            i <= words@.len(),
            args@.len() == i + 2,
            args@[0]@ == "-s"@,
            args@[1]@ == device@,
            forall|k: int| 0 <= k < i ==> args@[k + 2]@ == words@[k]@,
        decreases words@.len() - i,
    {
        args.push(words[i]);
        i += 1;
    }
    assert(strs_view(args@) =~= seq!["-s"@, device@] + strs_view(words@));
    Step::exec("parted", args, purpose)
}

/// Writes the partition table of `device`: a GPT with three partitions where
/// `efi` is set, an MBR with two otherwise.
pub fn create_partitions(device: &str, efi: bool) -> (plan: Vec<Step>)
    ensures
        plan_view(plan@) == create_partitions_plan(device@, efi),
{
    let kind: &str = if efi { "gpt" } else { "msdos" };
    let mut purpose = glue("Create ", kind);
    purpose.append(" label on ");
    purpose.append(device);
    let mut plan: Vec<Step> = Vec::new();
    let words: Vec<&str> = vec!["mklabel", kind];
    assert(strs_view(words@) =~= seq!["mklabel"@, label_kind(efi)]);
    put(&mut plan, parted(device, words, purpose.as_str()));
    if efi {
        let words: Vec<&str> = vec!["mkpart", "fat32", "1MiB", "125MiB"];
        assert(strs_view(words@) =~= seq!["mkpart"@, "fat32"@, "1MiB"@, "125MiB"@]);
        put(&mut plan, parted(device, words, "create EFI partition"));
        let words: Vec<&str> = vec!["mkpart", "primary", "ext4", "125MIB", "637MIB"];
        assert(strs_view(words@) =~= seq!["mkpart"@, "primary"@, "ext4"@, "125MIB"@, "637MIB"@]);
        put(&mut plan, parted(device, words, "create boot partition"));
        let words: Vec<&str> = vec!["mkpart", "primary", "btrfs", "637MiB", "100%"];
        assert(strs_view(words@) =~= seq!["mkpart"@, "primary"@, "btrfs"@, "637MiB"@, "100%"@]);
        put(&mut plan, parted(device, words, "create btrfs root partition"));
    } else {
        let words: Vec<&str> = vec!["mkpart", "primary", "ext4", "1MIB", "512MIB"];
        assert(strs_view(words@) =~= seq!["mkpart"@, "primary"@, "ext4"@, "1MIB"@, "512MIB"@]);
        put(&mut plan, parted(device, words, "create bios boot partition"));
        let words: Vec<&str> = vec!["mkpart", "primary", "btrfs", "512MIB", "100%"];
        assert(strs_view(words@) =~= seq!["mkpart"@, "primary"@, "btrfs"@, "512MIB"@, "100%"@]);
        put(&mut plan, parted(device, words, "create btrfs root partition"));
    }
    assert(plan_view(plan@) =~= create_partitions_plan(device@, efi));
    plan
}

/// Whether the partitions of `device` are named with a `p` before the number,
/// as those of NVMe and eMMC devices are.
pub open spec fn has_p_separator(device: Seq<char>) -> bool {
    has_substring(device, "nvme"@) || has_substring(device, "mmcblk"@)
}

/// The path of the partition of `device` with the given number.
pub open spec fn partition_path(device: Seq<char>, number: Seq<char>) -> Seq<char> {
    if has_p_separator(device) {
        device + "p"@ + number
    } else {
        device + number
    }
}

/// How many partitions the partition table holds.
pub open spec fn layout_len(efi: bool) -> nat {
    if efi {
        3
    } else {
        2
    }
}

/// Where the root partition stands in the layout: it is the last one.
pub open spec fn root_index(efi: bool) -> int {
    layout_len(efi) - 1
}

/// The paths of the partitions that the partition table of `device` holds, in
/// the order in which they lie on the disk.
pub open spec fn layout(device: Seq<char>, efi: bool) -> Seq<Seq<char>> {
    if efi {
        seq![
            partition_path(device, "1"@),
            partition_path(device, "2"@),
            partition_path(device, "3"@),
        ]
    } else {
        seq![partition_path(device, "1"@), partition_path(device, "2"@)]
    }
}

/// The path of partition `number` of `device`, where `separator` says whether a
/// `p` stands before the number.
fn numbered(device: &str, separator: bool, number: &str) -> (path: String)
    ensures
        path@ == if separator {
            device@ + "p"@ + number@
        } else {
            device@ + number@
        },
{
    let mut path = String::from_str(device);
    if separator {
        path.append("p");
    }
    path.append(number);
    path
}

/// Derives the paths of the partitions that [`create_partitions`] makes on
/// `device`, from the device's name alone: nothing is read from the disk.
pub fn partition_paths(device: &str, efi: bool) -> (paths: Vec<String>)
    ensures
        strings_view(paths@) == layout(device@, efi),
{
    let separator = contains(device, "nvme") || contains(device, "mmcblk");
    let mut paths: Vec<String> = Vec::new();
    paths.push(numbered(device, separator, "1"));
    paths.push(numbered(device, separator, "2"));
    if efi {
        paths.push(numbered(device, separator, "3"));
    }
    assert(strings_view(paths@) =~= layout(device@, efi));
    paths
}

/// The device under which the opened encrypted volume appears.
pub open spec fn mapped_root() -> Seq<char> {
    "/dev/mapper/root"@
}

/// The layout once the root partition is encrypted: the mapped device stands
/// in the root partition's place.
pub open spec fn encrypted_layout(partitions: Seq<Seq<char>>, efi: bool) -> Seq<Seq<char>> {
    partitions.take(root_index(efi)).push(mapped_root())
}

/// The step that opens the encrypted volume on `root` under the name `root`.
pub open spec fn luks_open_step(root: Seq<char>, passphrase: Seq<char>) -> StepView {
    StepView::Exec {
        program: "bash"@,
        args: seq!["-c"@, "echo "@ + passphrase + " | cryptsetup luksOpen "@ + root + " root"@],
        purpose: "LUKS open "@ + root,
    }
}

/// The steps that encrypt the partition `root`: format it, open it, close it
/// and open it again, then write the script that will put the volume's UUID
/// into the boot loader's configuration.
pub open spec fn encryption_plan(root: Seq<char>, passphrase: Seq<char>) -> Seq<StepView> {
    seq![
        StepView::Exec {
            program: "bash"@,
            args: seq!["-c"@, "echo "@ + passphrase + " | cryptsetup luksFormat "@ + root],
            purpose: "LUKS encrypt "@ + root,
        },
        luks_open_step(root, passphrase),
        StepView::Exec {
            program: "cryptsetup"@,
            args: seq!["close"@, "root"@],
            purpose: "LUKS close "@ + root,
        },
        luks_open_step(root, passphrase),
        StepView::CreateFile { path: "/tmp/encryption.sh"@ },
        StepView::AppendFile {
            path: "/tmp/encryption.sh"@,
            content: "#!/bin/bash"@,
            purpose: "Write encryption script"@,
        },
        StepView::AppendFile {
            path: "/tmp/encryption.sh"@,
            content: "UUID=$(lsblk -pdfo UUID "@ + root + " | grep -v UUID)"@,
            purpose: "Write encryption script"@,
        },
        StepView::AppendFile {
            path: "/tmp/encryption.sh"@,
            content: "sed -i \"s/UUID=/UUID=${UUID}/g\" /mnt/etc/default/grub"@,
            purpose: "Write encryption script"@,
        },
    ]
}

/// Opens the encrypted volume on `root` under the name `root`.
fn luks_open(root: &str, passphrase: &str) -> (step: Step)
    ensures
        step@ == luks_open_step(root@, passphrase@),
{
    let mut script = glue("echo ", passphrase);
    script.append(" | cryptsetup luksOpen ");
    script.append(root);
    script.append(" root");
    let purpose = glue("LUKS open ", root);
    let args: Vec<&str> = vec!["-c", script.as_str()];
    assert(strs_view(args@) =~= seq!["-c"@, script@]);
    Step::exec("bash", args, purpose.as_str())
}

/// Encrypts the root partition of `partitions` with `passphrase` and opens it.
/// Gives the steps, and the layout for the stages that follow, in which the
/// mapped device has taken the root partition's place.
pub fn encrypt_partition(
    partitions: &Vec<String>,
    passphrase: &str,
    efi: bool,
) -> (out: (Vec<Step>, Vec<String>))
    requires
        partitions@.len() >= layout_len(efi),
    ensures
        plan_view(out.0@) == encryption_plan(partitions@[root_index(efi)]@, passphrase@),
        strings_view(out.1@) == encrypted_layout(strings_view(partitions@), efi),
{
    let at: usize = if efi { 2 } else { 1 };
    let root: &str = partitions[at].as_str();
    let mut plan: Vec<Step> = Vec::new();

    let mut script = glue("echo ", passphrase);
    script.append(" | cryptsetup luksFormat ");
    script.append(root);
    let purpose = glue("LUKS encrypt ", root);
    let args: Vec<&str> = vec!["-c", script.as_str()];
    assert(strs_view(args@) =~= seq!["-c"@, script@]);
    put(&mut plan, Step::exec("bash", args, purpose.as_str()));

    put(&mut plan, luks_open(root, passphrase));

    let purpose = glue("LUKS close ", root);
    let args: Vec<&str> = vec!["close", "root"];
    assert(strs_view(args@) =~= seq!["close"@, "root"@]);
    put(&mut plan, Step::exec("cryptsetup", args, purpose.as_str()));

    put(&mut plan, luks_open(root, passphrase));

    put(&mut plan, Step::create_file("/tmp/encryption.sh"));
    put(
        &mut plan,
        Step::append_file("/tmp/encryption.sh", "#!/bin/bash", "Write encryption script"),
    );
    let mut line = glue("UUID=$(lsblk -pdfo UUID ", root);
    line.append(" | grep -v UUID)");
    put(
        &mut plan,
        Step::append_file("/tmp/encryption.sh", line.as_str(), "Write encryption script"),
    );
    put(
        &mut plan,
        Step::append_file(
            "/tmp/encryption.sh",
            "sed -i \"s/UUID=/UUID=${UUID}/g\" /mnt/etc/default/grub",
            "Write encryption script",
        ),
    );
    assert(plan_view(plan@) =~= encryption_plan(root@, passphrase@));

    let mut after: Vec<String> = Vec::new();
    let mut i: usize = 0;
    while i < at
        invariant
            at == root_index(efi),
            at < partitions@.len(),
            i <= at,
            after@.len() == i,
            forall|k: int| 0 <= k < i ==> after@[k]@ == partitions@[k]@,
        decreases at - i,
    {
        after.push(partitions[i].clone());
        i += 1;
    }
    after.push(String::from_str("/dev/mapper/root"));
    assert(strings_view(after@) =~= encrypted_layout(strings_view(partitions@), efi));
    (plan, after)
}

/// The step that makes a file system of kind `kind` on `device` with
/// `program`, and gives it the volume label `label`.
pub open spec fn mkfs_step(
    program: Seq<char>,
    force: Seq<char>,
    flag: Seq<char>,
    label: Seq<char>,
    device: Seq<char>,
    kind: Seq<char>,
) -> StepView {
    StepView::Exec {
        program,
        args: seq![force, flag, label, device],
        purpose: "format "@ + device + " as "@ + kind + " with label "@ + label,
    }
}

/// The step that makes the FAT32 file system of the EFI system partition.
pub open spec fn format_efi_step(device: Seq<char>) -> StepView {
    mkfs_step("mkfs.vfat"@, "-F32"@, "-n"@, "crystal-efi"@, device, "fat32"@)
}

/// The step that makes the ext4 file system of the boot partition.
pub open spec fn format_boot_step(device: Seq<char>) -> StepView {
    mkfs_step("mkfs.ext4"@, "-F"@, "-L"@, "crystal-boot"@, device, "ext4"@)
}

/// The step that makes the btrfs file system of the root partition, over
/// whatever the partition held.
pub open spec fn format_root_step(device: Seq<char>) -> StepView {
    mkfs_step("mkfs.btrfs"@, "-f"@, "-L"@, "crystal-root"@, device, "btrfs"@)
}

/// The steps that format the partitions of a layout, each by its role. Without
/// an EFI system partition the roles move up by one place.
pub open spec fn auto_format_plan(efi: bool, partitions: Seq<Seq<char>>) -> Seq<StepView> {
    if efi {
        seq![
            format_efi_step(partitions[0]),
            format_boot_step(partitions[1]),
            format_root_step(partitions[2]),
        ]
    } else {
        seq![format_boot_step(partitions[0]), format_root_step(partitions[1])]
    }
}

/// Makes a labelled file system on `device` with `program`.
fn mkfs(
    program: &str,
    force: &str,
    flag: &str,
    label: &str,
    device: &str,
    kind: &str,
) -> (step: Step)
    ensures
        step@ == mkfs_step(program@, force@, flag@, label@, device@, kind@),
{
    let mut purpose = glue("format ", device);
    purpose.append(" as ");
    purpose.append(kind);
    purpose.append(" with label ");
    purpose.append(label);
    let args: Vec<&str> = vec![force, flag, label, device];
    assert(strs_view(args@) =~= seq![force@, flag@, label@, device@]);
    Step::exec(program, args, purpose.as_str())
}

/// Formats the partitions of a layout: the EFI system partition, where there
/// is one, as FAT32, the boot partition as ext4, the root partition as btrfs.
pub fn auto_format(efi: bool, partitions: &Vec<String>) -> (plan: Vec<Step>)
    requires
        partitions@.len() >= layout_len(efi),
    ensures
        plan_view(plan@) == auto_format_plan(efi, strings_view(partitions@)),
{
    let mut plan: Vec<Step> = Vec::new();
    if efi {
        put(
            &mut plan,
            mkfs("mkfs.vfat", "-F32", "-n", "crystal-efi", partitions[0].as_str(), "fat32"),
        );
        put(
            &mut plan,
            mkfs("mkfs.ext4", "-F", "-L", "crystal-boot", partitions[1].as_str(), "ext4"),
        );
        put(
            &mut plan,
            mkfs("mkfs.btrfs", "-f", "-L", "crystal-root", partitions[2].as_str(), "btrfs"),
        );
    } else {
        put(
            &mut plan,
            mkfs("mkfs.ext4", "-F", "-L", "crystal-boot", partitions[0].as_str(), "ext4"),
        );
        put(
            &mut plan,
            mkfs("mkfs.btrfs", "-f", "-L", "crystal-root", partitions[1].as_str(), "btrfs"),
        );
    }
    assert(plan_view(plan@) =~= auto_format_plan(efi, strings_view(partitions@)));
    plan
}

/// The device that holds the root file system: the mapped device where the
/// root partition is encrypted, else the partition found by its label.
pub open spec fn root_device(encrypted: bool) -> Seq<char> {
    if encrypted {
        mapped_root()
    } else {
        "/dev/disk/by-label/crystal-root"@
    }
}

/// The step that creates the btrfs subvolume `name` in the file system mounted
/// at `/mnt`.
pub open spec fn subvolume_step(name: Seq<char>) -> StepView {
    StepView::ExecWorkdir {
        program: "btrfs"@,
        workdir: "/mnt"@,
        args: seq!["subvolume"@, "create"@, name],
        purpose: "create btrfs subvolume "@ + name,
    }
}

/// The step that creates the directory `path` as a place to mount at.
pub open spec fn mountpoint_step(path: Seq<char>) -> StepView {
    StepView::CreateDirectory { path, purpose: "create directory "@ + path }
}

/// The steps that put the target tree together under `/mnt`. The root file
/// system is mounted once to create the subvolumes `@` and `@home` in it and
/// unmounted again; then `@` is mounted at `/mnt`, `@home` at `/mnt/home`, the
/// boot partition at `/mnt/boot` and, with `efi`, the EFI system partition at
/// `/mnt/boot/efi`.
pub open spec fn mount_disks_plan(efi: bool, encrypted: bool) -> Seq<StepView> {
    let root = root_device(encrypted);
    let tree = seq![
        mount_step(root, "/mnt"@, ""@),
        subvolume_step("@"@),
        subvolume_step("@home"@),
        umount_step("/mnt"@),
        mount_step(root, "/mnt"@, "subvol=@"@),
        mountpoint_step("/mnt/home"@),
        mount_step(root, "/mnt/home"@, "subvol=@home"@),
        mountpoint_step("/mnt/boot"@),
        mount_step("/dev/disk/by-label/crystal-boot"@, "/mnt/boot"@, ""@),
    ];
    if efi {
        tree + seq![
            mountpoint_step("/mnt/boot/efi"@),
            mount_step("/dev/disk/by-label/crystal-efi"@, "/mnt/boot/efi"@, ""@),
        ]
    } else {
        tree
    }
}

/// Creates the btrfs subvolume `name` in the file system mounted at `/mnt`.
fn create_subvolume(name: &str) -> (step: Step)
    ensures
        step@ == subvolume_step(name@),
{
    let purpose = glue("create btrfs subvolume ", name);
    let args: Vec<&str> = vec!["subvolume", "create", name];
    assert(strs_view(args@) =~= seq!["subvolume"@, "create"@, name@]);
    Step::exec_workdir("btrfs", "/mnt", args, purpose.as_str())
}

/// Creates the directory `path` as a place to mount at.
fn create_mountpoint(path: &str) -> (step: Step)
    ensures
        step@ == mountpoint_step(path@),
{
    let purpose = glue("create directory ", path);
    Step::create_directory(path, purpose.as_str())
}

/// Puts the target tree together under `/mnt`, from the formatted partitions.
pub fn mount_disks(efi: bool, encrypted: bool) -> (plan: Vec<Step>)
    ensures
        plan_view(plan@) == mount_disks_plan(efi, encrypted),
{
    let root: &str = if encrypted { "/dev/mapper/root" } else { "/dev/disk/by-label/crystal-root" };
    let mut plan: Vec<Step> = Vec::new();
    put(&mut plan, mount(root, "/mnt", ""));
    put(&mut plan, create_subvolume("@"));
    put(&mut plan, create_subvolume("@home"));
    put(&mut plan, umount("/mnt"));
    put(&mut plan, mount(root, "/mnt", "subvol=@"));
    put(&mut plan, create_mountpoint("/mnt/home"));
    put(&mut plan, mount(root, "/mnt/home", "subvol=@home"));
    put(&mut plan, create_mountpoint("/mnt/boot"));
    put(&mut plan, mount("/dev/disk/by-label/crystal-boot", "/mnt/boot", ""));
    if efi {
        put(&mut plan, create_mountpoint("/mnt/boot/efi"));
        put(&mut plan, mount("/dev/disk/by-label/crystal-efi", "/mnt/boot/efi", ""));
    }
    assert(plan_view(plan@) =~= mount_disks_plan(efi, encrypted));
    plan
}

/// The file systems that are made with the `mkfs` program of their name.
pub open spec fn formats_with_mkfs(filesystem: Seq<char>) -> bool {
    ||| filesystem == "vfat"@
    ||| filesystem == "bfs"@
    ||| filesystem == "cramfs"@
    ||| filesystem == "ext3"@
    ||| filesystem == "fat"@
    ||| filesystem == "msdos"@
    ||| filesystem == "xfs"@
    ||| filesystem == "btrfs"@
    ||| filesystem == "ext2"@
    ||| filesystem == "ext4"@
    ||| filesystem == "minix"@
    ||| filesystem == "f2fs"@
}

/// The two ways to say that a partition keeps what it holds.
pub open spec fn keeps_contents(filesystem: Seq<char>) -> bool {
    filesystem == "don't format"@ || filesystem == "noformat"@
}

/// The file system names that [`fmt_mount`] accepts.
pub open spec fn known_filesystem(filesystem: Seq<char>) -> bool {
    formats_with_mkfs(filesystem) || keeps_contents(filesystem)
}

/// The step that makes the file system `filesystem` on `blockdevice`: FAT as
/// FAT32, btrfs over whatever the partition held.
pub open spec fn format_step(filesystem: Seq<char>, blockdevice: Seq<char>) -> StepView {
    StepView::Exec {
        program: "mkfs."@ + filesystem,
        args: if filesystem == "vfat"@ {
            seq!["-F32"@, blockdevice]
        } else if filesystem == "btrfs"@ {
            seq!["-f"@, blockdevice]
        } else {
            seq![blockdevice]
        },
        purpose: "Formatting "@ + blockdevice + " as "@ + filesystem,
    }
}

/// The steps that format `blockdevice`, unless it keeps what it holds, make
/// the directory `mountpoint` and mount the partition there.
pub open spec fn fmt_mount_plan(
    mountpoint: Seq<char>,
    filesystem: Seq<char>,
    blockdevice: Seq<char>,
) -> Seq<StepView> {
    let place = seq![
        StepView::Exec {
            program: "mkdir"@,
            args: seq!["-p"@, mountpoint],
            purpose: "Creating mountpoint "@ + mountpoint + " for "@ + blockdevice,
        },
        mount_step(blockdevice, mountpoint, ""@),
    ];
    if keeps_contents(filesystem) {
        place
    } else {
        seq![format_step(filesystem, blockdevice)] + place
    }
}

/// Whether `filesystem` is made with the `mkfs` program of its name.
fn is_mkfs_kind(filesystem: &str) -> (known: bool)
    ensures
        known == formats_with_mkfs(filesystem@),
{
    same_text(filesystem, "vfat")
        || same_text(filesystem, "bfs")
        || same_text(filesystem, "cramfs")
        || same_text(filesystem, "ext3")
        || same_text(filesystem, "fat")
        || same_text(filesystem, "msdos")
        || same_text(filesystem, "xfs")
        || same_text(filesystem, "btrfs")
        || same_text(filesystem, "ext2")
        || same_text(filesystem, "ext4")
        || same_text(filesystem, "minix")
        || same_text(filesystem, "f2fs")
}

/// Formats `blockdevice` as `filesystem` and mounts it at `mountpoint`. A name
/// that is no known file system is turned down, and nothing is planned.
pub fn fmt_mount(
    mountpoint: &str,
    filesystem: &str,
    blockdevice: &str,
) -> (plan: Result<Vec<Step>, PlanError>)
    ensures
        known_filesystem(filesystem@) ==> plan is Ok
            && plan_view(plan->Ok_0@) == fmt_mount_plan(mountpoint@, filesystem@, blockdevice@),
        !known_filesystem(filesystem@) ==> plan is Err
            && plan->Err_0@ == (PlanErrorView::UnknownFilesystem {
                filesystem: filesystem@,
                blockdevice: blockdevice@,
            }),
{
    let keep = same_text(filesystem, "don't format") || same_text(filesystem, "noformat");
    let mut steps: Vec<Step> = Vec::new();
    if !keep {
        if !is_mkfs_kind(filesystem) {
            return Err(
                PlanError::UnknownFilesystem {
                    filesystem: owned(filesystem),
                    blockdevice: owned(blockdevice),
                },
            );
        }
        let program = glue("mkfs.", filesystem);
        let mut purpose = glue("Formatting ", blockdevice);
        purpose.append(" as ");
        purpose.append(filesystem);
        let args: Vec<&str> = if same_text(filesystem, "vfat") {
            vec!["-F32", blockdevice]
        } else if same_text(filesystem, "btrfs") {
            vec!["-f", blockdevice]
        } else {
            vec![blockdevice]
        };
        assert(strs_view(args@) =~= format_step(filesystem@, blockdevice@)->Exec_args);
        put(&mut steps, Step::exec(program.as_str(), args, purpose.as_str()));
    }
    let mut purpose = glue("Creating mountpoint ", mountpoint);
    purpose.append(" for ");
    purpose.append(blockdevice);
    let args: Vec<&str> = vec!["-p", mountpoint];
    assert(strs_view(args@) =~= seq!["-p"@, mountpoint@]);
    put(&mut steps, Step::exec("mkdir", args, purpose.as_str()));
    put(&mut steps, mount(blockdevice, mountpoint, ""));
    assert(plan_view(steps@) =~= fmt_mount_plan(mountpoint@, filesystem@, blockdevice@));
    Ok(steps)
}

/// The steps of automatic mode: write the partition table, encrypt the root
/// partition if asked to, format the partitions, mount the target tree. With
/// encryption the mapped device stands for the root partition from the
/// formatting on.
pub open spec fn auto_plan(
    device: Seq<char>,
    efi: bool,
    encrypted: bool,
    password: Seq<char>,
) -> Seq<StepView> {
    let raw = layout(device, efi);
    if encrypted {
        create_partitions_plan(device, efi) + encryption_plan(raw[root_index(efi)], password)
            + auto_format_plan(efi, encrypted_layout(raw, efi)) + mount_disks_plan(efi, true)
    } else {
        create_partitions_plan(device, efi) + auto_format_plan(efi, raw) + mount_disks_plan(
            efi,
            false,
        )
    }
}

/// The steps of manual mode: each partition is formatted and mounted, in the
/// order in which the partitions stand.
pub open spec fn manual_plan(partitions: Seq<PartitionView>) -> Seq<StepView>
    decreases partitions.len(),
{
    if partitions.len() == 0 {
        Seq::empty()
    } else {
        let last = partitions.last();
        manual_plan(partitions.drop_last()) + fmt_mount_plan(
            last.mountpoint,
            last.filesystem,
            last.blockdevice,
        )
    }
}

/// How many partitions stand before the first one whose file system is not
/// known; all of them, where every file system is known.
pub open spec fn known_prefix(partitions: Seq<PartitionView>) -> nat
    decreases partitions.len(),
{
    if partitions.len() == 0 || !known_filesystem(partitions[0].filesystem) {
        0
    } else {
        1 + known_prefix(partitions.drop_first())
    }
}

/// Where the first `at` file systems are known and the next one, if there is
/// one, is not, `at` partitions stand before the first unknown one.
proof fn lemma_known_prefix(partitions: Seq<PartitionView>, at: int)
    requires
        0 <= at <= partitions.len(),
        forall|k: int| 0 <= k < at ==> known_filesystem((#[trigger] partitions[k]).filesystem),
        at < partitions.len() ==> !known_filesystem(partitions[at].filesystem),
    ensures
        known_prefix(partitions) == at,
    decreases at,
{
    if at > 0 {
        let rest = partitions.drop_first();
        assert(known_filesystem(partitions[0].filesystem));
        assert forall|k: int| 0 <= k < at - 1 implies known_filesystem(
            (#[trigger] rest[k]).filesystem,
        ) by {
            assert(rest[k] == partitions[k + 1]);
        }
        lemma_known_prefix(rest, at - 1);
    }
}

/// Plans the provisioning of the disk.
///
/// In automatic mode `device` is partitioned anew, its root partition
/// encrypted with `password` if `encrypted` is set, the partitions formatted
/// and the target tree mounted; `partitions` is left as it is. A device that
/// does not exist is turned down before anything is planned.
///
/// In manual mode `partitions` is put in the order of mounting, and each
/// partition is formatted and mounted. The first partition with an unknown
/// file system ends the run, after the partitions before it. Manual mode knows
/// no encryption: `encrypted` and `password` are not looked at.
pub fn partition(
    device: &str,
    device_exists: bool,
    mode: PartitionMode,
    efi: bool,
    encrypted: bool,
    password: &str,
    partitions: &mut Vec<Partition>,
) -> (plan: Result<Vec<Step>, Halt>)
    ensures
        mode == PartitionMode::Auto ==> final(partitions)@ == old(partitions)@,
        mode == PartitionMode::Auto && device_exists ==> plan is Ok
            && plan_view(plan->Ok_0@) == auto_plan(device@, efi, encrypted, password@),
        mode == PartitionMode::Auto && !device_exists ==> plan is Err
            && plan->Err_0.done@.len() == 0
            && plan->Err_0.cause@ == (PlanErrorView::DeviceMissing { device: device@ }),
        mode == PartitionMode::Manual ==> ({
            let sorted = sorted_by_length(partitions_view(old(partitions)@));
            let at = known_prefix(sorted) as int;
            &&& partitions_view(final(partitions)@) == sorted
            &&& ordered(sorted)
            &&& at <= sorted.len()
            &&& at == sorted.len() ==> plan is Ok && plan_view(plan->Ok_0@) == manual_plan(sorted)
            &&& at < sorted.len() ==> plan is Err
                && plan_view(plan->Err_0.done@) == manual_plan(sorted.take(at))
                && plan->Err_0.cause@ == (PlanErrorView::UnknownFilesystem {
                    filesystem: sorted[at].filesystem,
                    blockdevice: sorted[at].blockdevice,
                })
        }),
{
    match mode {
        PartitionMode::Auto => {
            if !device_exists {
                return Err(
                    Halt { done: Vec::new(), cause: PlanError::DeviceMissing { device: owned(device) } },
                );
            }
            let mut steps = create_partitions(device, efi);
            let raw = partition_paths(device, efi);
            assert(raw@.len() == strings_view(raw@).len());
            if encrypted {
                let (locking, mapped) = encrypt_partition(&raw, password, efi);
                assert(mapped@.len() == strings_view(mapped@).len());
                put_all(&mut steps, locking);
                put_all(&mut steps, auto_format(efi, &mapped));
            } else {
                put_all(&mut steps, auto_format(efi, &raw));
            }
            put_all(&mut steps, mount_disks(efi, encrypted));
            Ok(steps)
        },
        PartitionMode::Manual => {
            sort_by_mountpoint(partitions);
            let ghost sorted = partitions_view(partitions@);
            let mut steps: Vec<Step> = Vec::new();
            let mut i: usize = 0;
            while i < partitions.len()
                invariant
                    mode == PartitionMode::Manual,
                    ordered(sorted),
                    sorted == sorted_by_length(partitions_view(old(partitions)@)),
                    sorted == partitions_view(partitions@),
                    i <= partitions@.len(),
                    forall|k: int| 0 <= k < i ==> known_filesystem((#[trigger] sorted[k]).filesystem),
                    plan_view(steps@) == manual_plan(sorted.take(i as int)),
                decreases partitions@.len() - i,
            {
                let entry = &partitions[i];
                let ghost upto = sorted.take(i + 1);
                proof {
                    assert(upto.drop_last() =~= sorted.take(i as int));
                    assert(upto.last() == entry@);
                }
                match fmt_mount(
                    entry.mountpoint.as_str(),
                    entry.filesystem.as_str(),
                    entry.blockdevice.as_str(),
                ) {
                    Ok(more) => {
                        put_all(&mut steps, more);
                    },
                    Err(cause) => {
                        proof {
                            lemma_known_prefix(sorted, i as int);
                        }
                        return Err(Halt { done: steps, cause });
                    },
                }
                i += 1;
            }
            proof {
                lemma_known_prefix(sorted, sorted.len() as int);
                assert(sorted.take(sorted.len() as int) =~= sorted);
            }
            Ok(steps)
        },
    }
}

/// The digit that names the partition at place `i` of a layout.
pub open spec fn partition_digit(i: int) -> char {
    if i == 0 {
        '1'
    } else if i == 1 {
        '2'
    } else {
        '3'
    }
}

/// The layout holds three paths with EFI and two without. Each path is the
/// device's path and the partition's number, with a `p` between them where the
/// device's name holds `nvme` or `mmcblk`, and nothing between them otherwise.
/// The partition table writer makes one partition for each path, after the
/// label.
pub proof fn lemma_layout_shape(device: Seq<char>, efi: bool)
    ensures
        layout(device, efi).len() == if efi { 3int } else { 2int },
        forall|i: int|
            0 <= i < layout(device, efi).len() ==> #[trigger] layout(device, efi)[i]
                == if has_p_separator(device) {
                device + seq!['p', partition_digit(i)]
            } else {
                device + seq![partition_digit(i)]
            },
        create_partitions_plan(device, efi).len() == 1 + layout(device, efi).len(),
{
    reveal_strlit("p");
    reveal_strlit("1");
    reveal_strlit("2");
    reveal_strlit("3");
    assert("p"@ =~= seq!['p']);
    assert("1"@ =~= seq!['1']);
    assert("2"@ =~= seq!['2']);
    assert("3"@ =~= seq!['3']);
    assert forall|i: int| 0 <= i < layout(device, efi).len() implies #[trigger] layout(
        device,
        efi,
    )[i] == if has_p_separator(device) {
        device + seq!['p', partition_digit(i)]
    } else {
        device + seq![partition_digit(i)]
    } by {
        let digit = seq![partition_digit(i)];
        assert(device + seq!['p'] + digit =~= device + seq!['p', partition_digit(i)]);
    }
}

/// Encryption changes the last path of a layout to the mapped device, and
/// nothing else: the layout keeps its length and every path before the last.
pub proof fn lemma_encryption_replaces_root(partitions: Seq<Seq<char>>, efi: bool)
    requires
        partitions.len() == layout_len(efi),
    ensures
        encrypted_layout(partitions, efi).len() == partitions.len(),
        encrypted_layout(partitions, efi).last() == "/dev/mapper/root"@,
        forall|i: int|
            0 <= i < partitions.len() - 1 ==> #[trigger] encrypted_layout(partitions, efi)[i]
                == partitions[i],
{
}

/// `step` mounts something at `mountpoint`.
pub open spec fn mounts_at(step: StepView, mountpoint: Seq<char>) -> bool {
    &&& step is Exec
    &&& step->Exec_program == "mount"@
    &&& step->Exec_args.len() >= 2
    &&& step->Exec_args[1] == mountpoint
}

/// `step` mounts the subvolume `@` at `/mnt`.
pub open spec fn mounts_root_subvolume(step: StepView) -> bool {
    &&& mounts_at(step, "/mnt"@)
    &&& step->Exec_args.len() == 4
    &&& step->Exec_args[2] == "-o"@
    &&& step->Exec_args[3] == "subvol=@"@
}

/// `step` unmounts `/mnt`.
pub open spec fn unmounts_root(step: StepView) -> bool {
    &&& step is Exec
    &&& step->Exec_program == "umount"@
    &&& step->Exec_args == seq!["/mnt"@]
}

/// The places below `/mnt` at which the target tree has a mount.
pub open spec fn below_root(mountpoint: Seq<char>) -> bool {
    mountpoint == "/mnt/home"@ || mountpoint == "/mnt/boot"@ || mountpoint == "/mnt/boot/efi"@
}

/// Once the steps of `done` are performed, `/mnt` holds the subvolume `@`: one
/// of them mounted it there, and none after that one unmounted `/mnt`.
pub open spec fn root_ready(done: Seq<StepView>) -> bool {
    exists|j: int|
        0 <= j < done.len() && mounts_root_subvolume(#[trigger] done[j]) && forall|k: int|
            j < k < done.len() ==> !unmounts_root(#[trigger] done[k])
}

/// Nothing is mounted at `/mnt/home`, `/mnt/boot` or `/mnt/boot/efi` before
/// `/mnt` holds the subvolume `@`.
pub proof fn lemma_root_mounted_first(efi: bool, encrypted: bool)
    ensures
        forall|i: int, child: Seq<char>|
            0 <= i < mount_disks_plan(efi, encrypted).len() && below_root(child)
                && #[trigger] mounts_at(mount_disks_plan(efi, encrypted)[i], child) ==> root_ready(
                mount_disks_plan(efi, encrypted).take(i),
            ),
{
    reveal_strlit("/mnt");
    reveal_strlit("/mnt/home");
    reveal_strlit("/mnt/boot");
    reveal_strlit("/mnt/boot/efi");
    reveal_strlit("mount");
    reveal_strlit("umount");
    reveal_strlit("subvol=@");
    reveal_strlit("");
    let plan = mount_disks_plan(efi, encrypted);
    assert forall|i: int, child: Seq<char>|
        0 <= i < plan.len() && below_root(child) && #[trigger] mounts_at(
            plan[i],
            child,
        ) implies root_ready(plan.take(i)) by {
        assert(i >= 5);
        let done = plan.take(i);
        assert(mounts_root_subvolume(done[4]));
        assert("mount"@.len() != "umount"@.len());
        assert forall|k: int| 4 < k < done.len() implies !unmounts_root(#[trigger] done[k]) by {
            assert(done[k] == plan[k]);
            assert(k == 5 || k == 6 || k == 7 || k == 8 || k == 9 || k == 10);
            assert(plan[5] is CreateDirectory);
            assert(mounts_at(plan[6], "/mnt/home"@));
            assert(plan[7] is CreateDirectory);
            assert(mounts_at(plan[8], "/mnt/boot"@));
            if efi {
                assert(plan[9] is CreateDirectory);
                assert(mounts_at(plan[10], "/mnt/boot/efi"@));
            }
        }
    }
}

} // verus!
