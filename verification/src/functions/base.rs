//! Installing onto the mounted target tree: the base system, the boot loader
//! and the tools around it.

use vstd::prelude::*;
use vstd::string::*;
use crate::error::{PlanError, PlanErrorView};
use crate::internal::install::{install, install_plan};
use crate::step::{plan_view, put, put_all, Step, StepView};
use crate::text::{glue, contains, has_substring, owned, same_text, strs_view};

verus! {

/// The kernels that can be installed.
#[derive(Debug, Clone, Copy, PartialEq, Eq, Structural)]
pub enum Kernel {
    /// The standard kernel.
    Linux,
    /// The long-term support kernel.
    Lts,
    /// The Zen kernel.
    Zen,
    /// The hardened kernel.
    Hardened,
}

/// The kernel whose package is called `name`, if there is one.
pub open spec fn kernel_named(name: Seq<char>) -> Option<Kernel> {
    if name == "linux"@ {
        Some(Kernel::Linux)
    } else if name == "linux-lts"@ {
        Some(Kernel::Lts)
    } else if name == "linux-zen"@ {
        Some(Kernel::Zen)
    } else if name == "linux-hardened"@ {
        Some(Kernel::Hardened)
    } else {
        None
    }
}

/// The kernel that is installed when the operator asks for `name`: the one of
/// that name, or the standard kernel where there is none.
pub open spec fn selected_kernel(name: Seq<char>) -> Kernel {
    match kernel_named(name) {
        Some(kernel) => kernel,
        None => Kernel::Linux,
    }
}

/// Whether the operator is to be told that `name` is no kernel: an empty name
/// asks for the standard kernel and needs no warning.
pub open spec fn kernel_is_unknown(name: Seq<char>) -> bool {
    name.len() > 0 && kernel_named(name) is None
}

impl Kernel {
    /// The name of the kernel's package.
    pub open spec fn package_name(self) -> Seq<char> {
        match self {
            Kernel::Linux => "linux"@,
            Kernel::Lts => "linux-lts"@,
            Kernel::Zen => "linux-zen"@,
            Kernel::Hardened => "linux-hardened"@,
        }
    }

    /// The kernel whose package is called `name`, if there is one.
    pub fn parse(name: &str) -> (kernel: Option<Kernel>)
        ensures
            kernel == kernel_named(name@),
    {
        if same_text(name, "linux") {
            Some(Kernel::Linux)
        } else if same_text(name, "linux-lts") {
            Some(Kernel::Lts)
        } else if same_text(name, "linux-zen") {
            Some(Kernel::Zen)
        } else if same_text(name, "linux-hardened") {
            Some(Kernel::Hardened)
        } else {
            None
        }
    }

    /// The kernel to install when the operator asks for `name`.
    pub fn select(name: &str) -> (kernel: Kernel)
        ensures
            kernel == selected_kernel(name@),
    {
        match Kernel::parse(name) {
            Some(kernel) => kernel,
            None => Kernel::Linux,
        }
    }

    /// The name of the kernel's package.
    pub fn package(&self) -> (name: &'static str)
        ensures
            name@ == self.package_name(),
    {
        match self {
            Kernel::Linux => "linux",
            Kernel::Lts => "linux-lts",
            Kernel::Zen => "linux-zen",
            Kernel::Hardened => "linux-hardened",
        }
    }
}

/// The warning that is due when the operator asks for the kernel `name`:
/// none for a kernel that exists and none for the empty name.
pub fn kernel_warning(name: &str) -> (warning: Option<String>)
    ensures
        kernel_is_unknown(name@) ==> warning is Some
            && warning->Some_0@ == "Unknown kernel: "@ + name@ + ", using default instead"@,
        !kernel_is_unknown(name@) ==> warning is None,
{
    if name.is_empty() {
        return None;
    }
    match Kernel::parse(name) {
        Some(_) => None,
        None => {
            let mut text = glue("Unknown kernel: ", name);
            text.append(", using default instead");
            Some(text)
        },
    }
}

/// The packages of the base system: those of `packages`, with the kernel and
/// its headers behind the first of them.
pub open spec fn base_packages(kernel: Seq<char>, packages: Seq<Seq<char>>) -> Seq<Seq<char>> {
    let package = selected_kernel(kernel).package_name();
    seq![packages[0], package, package + "-headers"@] + packages.skip(1)
}

/// The step that runs `systemctl enable unit` in the target tree.
pub open spec fn enable_step(unit: Seq<char>, purpose: Seq<char>) -> StepView {
    StepView::ExecChroot { program: "systemctl"@, args: seq!["enable"@, unit], purpose }
}

/// The steps that install the base system: make `/mnt/etc`, install the
/// packages, copy the host's `pacman.conf` into the tree, and enable the
/// Bluetooth and printing services.
pub open spec fn base_plan(kernel: Seq<char>, packages: Seq<Seq<char>>) -> Seq<StepView> {
    seq![StepView::CreateDirectory { path: "/mnt/etc"@, purpose: "create directory /mnt/etc"@ }]
        + install_plan(base_packages(kernel, packages)) + seq![
        StepView::CopyFile { from: "/etc/pacman.conf"@, to: "/mnt/etc/pacman.conf"@ },
        enable_step("bluetooth"@, "Enable bluetooth"@),
        enable_step("cups"@, "Enable CUPS"@),
    ]
}

/// Runs `systemctl enable unit` in the target tree.
fn enable(unit: &str, purpose: &str) -> (step: Step)
    ensures
        step@ == enable_step(unit@, purpose@),
{
    let args: Vec<&str> = vec!["enable", unit];
    assert(strs_view(args@) =~= seq!["enable"@, unit@]);
    Step::exec_chroot("systemctl", args, purpose)
}

/// Installs the base system with the kernel that `kernel` asks for. The
/// packages are those of `packages`, which holds at least one; the kernel and
/// its headers go behind the first.
pub fn install_base_packages(kernel: &str, packages: &Vec<&str>) -> (plan: Vec<Step>)
    requires
        packages@.len() >= 1,
    ensures
        plan_view(plan@) == base_plan(kernel@, strs_view(packages@)),
{
    let package: &str = Kernel::select(kernel).package();
    let headers = glue(package, "-headers");
    let mut pkgs: Vec<&str> = vec![packages[0], package, headers.as_str()];
    let mut i: usize = 1;
    while i < packages.len()
        invariant
            1 <= i <= packages@.len(),
            pkgs@.len() == i + 2,
            pkgs@[0]@ == packages@[0]@,
            pkgs@[1]@ == package@,
            pkgs@[2]@ == headers@,
            forall|k: int| 1 <= k < i ==> pkgs@[k + 2]@ == packages@[k]@,
        decreases packages@.len() - i,
    {
        pkgs.push(packages[i]);
        i += 1;
    }
    assert(strs_view(pkgs@) =~= base_packages(kernel@, strs_view(packages@)));

    let mut plan: Vec<Step> = Vec::new();
    put(&mut plan, Step::create_directory("/mnt/etc", "create directory /mnt/etc"));
    put_all(&mut plan, install(pkgs));
    put(&mut plan, Step::copy_file("/etc/pacman.conf", "/mnt/etc/pacman.conf"));
    put(&mut plan, enable("bluetooth", "Enable bluetooth"));
    put(&mut plan, enable("cups", "Enable CUPS"));
    assert(plan_view(plan@) =~= base_plan(kernel@, strs_view(packages@)));
    plan
}

/// The steps that write the file system table of the target tree.
pub open spec fn genfstab_plan() -> Seq<StepView> {
    seq![
        StepView::Exec {
            program: "bash"@,
            args: seq!["-c"@, "genfstab -U /mnt >> /mnt/etc/fstab"@],
            purpose: "Generate fstab"@,
        },
    ]
}

/// Writes the file system table of the target tree, from what is mounted.
pub fn genfstab() -> (plan: Vec<Step>)
    ensures
        plan_view(plan@) == genfstab_plan(),
{
    let args: Vec<&str> = vec!["-c", "genfstab -U /mnt >> /mnt/etc/fstab"];
    assert(strs_view(args@) =~= seq!["-c"@, "genfstab -U /mnt >> /mnt/etc/fstab"@]);
    let mut plan: Vec<Step> = Vec::new();
    put(&mut plan, Step::exec("bash", args, "Generate fstab"));
    assert(plan_view(plan@) =~= genfstab_plan());
    plan
}

/// The EFI directory as the boot loader is told it: `efidir` itself where it
/// starts at the root, else `efidir` below `/mnt`.
pub open spec fn efi_target(efidir: Seq<char>) -> Seq<char> {
    if efidir.len() > 0 && efidir[0] == '/' {
        efidir
    } else {
        "/mnt/"@ + efidir
    }
}

/// The path at which the EFI directory must exist before a boot loader is
/// installed into it.
pub open spec fn efi_probe(efidir: Seq<char>) -> Seq<char> {
    "/mnt"@ + efi_target(efidir)
}

/// The EFI directory as the boot loader is told it.
pub fn efi_directory(efidir: &str) -> (target: String)
    ensures
        target@ == efi_target(efidir@),
{
    if efidir.unicode_len() > 0 && efidir.get_char(0) == '/' {
        owned(efidir)
    } else {
        glue("/mnt/", efidir)
    }
}

/// The path at which the EFI directory must exist: whoever asks for a boot
/// loader looks there first and says what was found.
pub fn efi_probe_path(efidir: &str) -> (path: String)
    ensures
        path@ == efi_probe(efidir@),
{
    let target = efi_directory(efidir);
    glue("/mnt", target.as_str())
}

/// The steps that give GRUB its theme and write its configuration.
pub open spec fn grub_config_plan() -> Seq<StepView> {
    seq![
        StepView::AppendFile {
            path: "/mnt/etc/default/grub"@,
            content: "GRUB_THEME=\"/usr/share/grub/themes/crystal/theme.txt\""@,
            purpose: "enable crystal grub theme"@,
        },
        StepView::ExecChroot {
            program: "grub-mkconfig"@,
            args: seq!["-o"@, "/boot/grub/grub.cfg"@],
            purpose: "create grub.cfg"@,
        },
    ]
}

/// The step that installs GRUB for EFI into `target`, with the words of
/// `more` behind the other arguments.
pub open spec fn grub_efi_step(
    target: Seq<char>,
    more: Seq<Seq<char>>,
    purpose: Seq<char>,
) -> StepView {
    StepView::ExecChroot {
        program: "grub-install"@,
        args: seq![
            "--target=x86_64-efi"@,
            "--efi-directory="@ + target,
            "--bootloader-id=crystal"@,
        ] + more,
        purpose,
    }
}

/// The steps that install GRUB for EFI into the EFI directory `target`: the
/// packages, GRUB as a removable-media loader and as a registered one, then
/// its theme and configuration.
pub open spec fn grub_efi_plan(target: Seq<char>) -> Seq<StepView> {
    install_plan(
        seq![
            "grub"@,
            "efibootmgr"@,
            "crystal-grub-theme"@,
            "os-prober"@,
            "crystal-branding"@,
        ],
    ) + seq![
        grub_efi_step(target, seq!["--removable"@], "install grub as efi with --removable"@),
        grub_efi_step(target, Seq::empty(), "install grub as efi without --removable"@),
    ] + grub_config_plan()
}

/// Gives GRUB its theme and writes its configuration.
fn configure_grub(plan: &mut Vec<Step>)
    ensures
        plan_view(final(plan)@) == plan_view(old(plan)@) + grub_config_plan(),
{
    let ghost before = plan_view(plan@);
    put(
        plan,
        Step::append_file(
            "/mnt/etc/default/grub",
            "GRUB_THEME=\"/usr/share/grub/themes/crystal/theme.txt\"",
            "enable crystal grub theme",
        ),
    );
    let args: Vec<&str> = vec!["-o", "/boot/grub/grub.cfg"];
    assert(strs_view(args@) =~= seq!["-o"@, "/boot/grub/grub.cfg"@]);
    put(plan, Step::exec_chroot("grub-mkconfig", args, "create grub.cfg"));
    assert(plan_view(plan@) =~= before + grub_config_plan());
}

/// Installs GRUB for EFI into the EFI directory `efidir`. `efidir_exists`
/// says whether the directory was found at [`efi_probe_path`]; where it was
/// not, the request is turned down and nothing is planned.
pub fn install_bootloader_grub_efi(
    efidir: &str,
    efidir_exists: bool,
) -> (plan: Result<Vec<Step>, PlanError>)
    ensures
        efidir_exists ==> plan is Ok
            && plan_view(plan->Ok_0@) == grub_efi_plan(efi_target(efidir@)),
        !efidir_exists ==> plan is Err
            && plan->Err_0@ == (PlanErrorView::EfiDirMissing { efidir: efi_target(efidir@) }),
{
    let target = efi_directory(efidir);
    if !efidir_exists {
        return Err(PlanError::EfiDirMissing { efidir: target });
    }
    let pkgs: Vec<&str> = vec![
        "grub",
        "efibootmgr",
        "crystal-grub-theme",
        "os-prober",
        "crystal-branding",
    ];
    assert(strs_view(pkgs@) =~= seq![
        "grub"@,
        "efibootmgr"@,
        "crystal-grub-theme"@,
        "os-prober"@,
        "crystal-branding"@,
    ]);
    let mut plan = install(pkgs);
    let directory = glue("--efi-directory=", target.as_str());
    let args: Vec<&str> = vec![
        "--target=x86_64-efi",
        directory.as_str(),
        "--bootloader-id=crystal",
        "--removable",
    ];
    assert(strs_view(args@) =~= seq![
        "--target=x86_64-efi"@,
        "--efi-directory="@ + target@,
        "--bootloader-id=crystal"@,
    ] + seq!["--removable"@]);
    put(&mut plan, Step::exec_chroot("grub-install", args, "install grub as efi with --removable"));
    let args: Vec<&str> = vec![
        "--target=x86_64-efi",
        directory.as_str(),
        "--bootloader-id=crystal",
    ];
    assert(strs_view(args@) =~= seq![
        "--target=x86_64-efi"@,
        "--efi-directory="@ + target@,
        "--bootloader-id=crystal"@,
    ] + Seq::<Seq<char>>::empty());
    put(
        &mut plan,
        Step::exec_chroot("grub-install", args, "install grub as efi without --removable"),
    );
    configure_grub(&mut plan);
    assert(plan_view(plan@) =~= grub_efi_plan(target@));
    Ok(plan)
}

/// The steps that install GRUB for a legacy boot onto `device`: the packages,
/// GRUB itself, then its theme and configuration.
pub open spec fn grub_legacy_plan(device: Seq<char>) -> Seq<StepView> {
    install_plan(seq!["grub"@, "crystal-grub-theme"@, "os-prober"@, "crystal-branding"@]) + seq![
        StepView::ExecChroot {
            program: "grub-install"@,
            args: seq!["--target=i386-pc"@, device],
            purpose: "install grub as legacy"@,
        },
    ] + grub_config_plan()
}

/// Installs GRUB for a legacy boot onto `device`. `device_exists` says
/// whether the device was found; where it was not, the request is turned down
/// and nothing is planned.
pub fn install_bootloader_grub_legacy(
    device: &str,
    device_exists: bool,
) -> (plan: Result<Vec<Step>, PlanError>)
    ensures
        device_exists ==> plan is Ok && plan_view(plan->Ok_0@) == grub_legacy_plan(device@),
        !device_exists ==> plan is Err
            && plan->Err_0@ == (PlanErrorView::BootDeviceMissing { device: device@ }),
{
    if !device_exists {
        return Err(PlanError::BootDeviceMissing { device: owned(device) });
    }
    let pkgs: Vec<&str> = vec!["grub", "crystal-grub-theme", "os-prober", "crystal-branding"];
    assert(strs_view(pkgs@) =~= seq![
        "grub"@,
        "crystal-grub-theme"@,
        "os-prober"@,
        "crystal-branding"@,
    ]);
    let mut plan = install(pkgs);
    let args: Vec<&str> = vec!["--target=i386-pc", device];
    assert(strs_view(args@) =~= seq!["--target=i386-pc"@, device@]);
    put(&mut plan, Step::exec_chroot("grub-install", args, "install grub as legacy"));
    configure_grub(&mut plan);
    assert(plan_view(plan@) =~= grub_legacy_plan(device@));
    Ok(plan)
}

/// The directory on the EFI system partition that holds rEFInd: the place of
/// the default loader where rEFInd is the default, its own otherwise.
pub open spec fn refind_directory(target: Seq<char>, default: bool) -> Seq<char> {
    if default {
        "/mnt"@ + target + "/EFI/BOOT"@
    } else {
        "/mnt"@ + target + "/EFI/refind"@
    }
}

/// The name under which the rEFInd binary is put into its directory.
pub open spec fn refind_binary(default: bool) -> Seq<char> {
    if default {
        "/bootx64.efi"@
    } else {
        "/refind_x64.efi"@
    }
}

/// The step that registers rEFInd, on the first partition of `device`, with
/// the firmware.
pub open spec fn refind_entry_step(device: Seq<char>) -> StepView {
    StepView::ExecChroot {
        program: "efibootmgr"@,
        args: seq![
            "--create"@,
            "--disk"@,
            device,
            "--part"@,
            "1"@,
            "--loader"@,
            "/EFI/refind/refind_x64.efi"@,
            "--label"@,
            "rEFInd Boot Manager"@,
            "--unicode"@,
        ],
        purpose: "creating uefi boot entry for refind"@,
    }
}

/// The steps that install rEFInd into the EFI directory `target`: the
/// packages, the directory, the binary, and, unless rEFInd is the default
/// loader, its entry in the firmware.
pub open spec fn refind_plan(
    target: Seq<char>,
    default: bool,
    device: Seq<char>,
) -> Seq<StepView> {
    let directory = refind_directory(target, default);
    let files = install_plan(seq!["refind"@, "efibootmgr"@]) + seq![
        StepView::CreateDirectory { path: directory, purpose: "create esp dir"@ },
        StepView::CopyFile {
            from: "/mnt/usr/share/refind/refind_x64.efi "@,
            to: directory + refind_binary(default),
        },
    ];
    if default {
        files
    } else {
        files + seq![refind_entry_step(device)]
    }
}

/// Installs rEFInd into the EFI directory `efidir`, as the default loader or
/// beside it, for the disk `device`. `efidir_exists` says whether the
/// directory was found at [`efi_probe_path`]; where it was not, the request is
/// turned down and nothing is planned.
pub fn install_bootloader_refind(
    efidir: &str,
    efidir_exists: bool,
    default: bool,
    device: &str,
) -> (plan: Result<Vec<Step>, PlanError>)
    ensures
        efidir_exists ==> plan is Ok
            && plan_view(plan->Ok_0@) == refind_plan(efi_target(efidir@), default, device@),
        !efidir_exists ==> plan is Err
            && plan->Err_0@ == (PlanErrorView::EfiDirMissing { efidir: efi_target(efidir@) }),
{
    let target = efi_directory(efidir);
    if !efidir_exists {
        return Err(PlanError::EfiDirMissing { efidir: target });
    }
    let pkgs: Vec<&str> = vec!["refind", "efibootmgr"];
    assert(strs_view(pkgs@) =~= seq!["refind"@, "efibootmgr"@]);
    let mut plan = install(pkgs);
    let mut directory = glue("/mnt", target.as_str());
    directory.append(if default { "/EFI/BOOT" } else { "/EFI/refind" });
    let binary = glue(directory.as_str(), if default { "/bootx64.efi" } else { "/refind_x64.efi" });
    put(&mut plan, Step::create_directory(directory.as_str(), "create esp dir"));
    put(&mut plan, Step::copy_file("/mnt/usr/share/refind/refind_x64.efi ", binary.as_str()));
    if !default {
        let args: Vec<&str> = vec![
            "--create",
            "--disk",
            device,
            "--part",
            "1",
            "--loader",
            "/EFI/refind/refind_x64.efi",
            "--label",
            "rEFInd Boot Manager",
            "--unicode",
        ];
        assert(strs_view(args@) =~= refind_entry_step(device@)->ExecChroot_args);
        put(
            &mut plan,
            Step::exec_chroot("efibootmgr", args, "creating uefi boot entry for refind"),
        );
    }
    assert(plan_view(plan@) =~= refind_plan(target@, default, device@));
    Ok(plan)
}

/// The packages of the snapshot tool: with GRUB as the boot loader, the
/// package that lists the snapshots in GRUB's menu comes with them.
pub open spec fn timeshift_packages(bootloader: Seq<char>) -> Seq<Seq<char>> {
    if has_substring(bootloader, "grub"@) {
        seq!["timeshift"@, "timeshift-autosnap"@, "grub-btrfs"@]
    } else {
        seq!["timeshift"@, "timeshift-autosnap"@]
    }
}

/// The steps that set up snapshots: the packages, then Timeshift on btrfs.
pub open spec fn timeshift_plan(bootloader: Seq<char>) -> Seq<StepView> {
    install_plan(timeshift_packages(bootloader)) + seq![
        StepView::ExecChroot {
            program: "timeshift"@,
            args: seq!["--btrfs"@],
            purpose: "setup timeshift"@,
        },
    ]
}

/// Sets up snapshots of the installed system. `bootloader` names the boot
/// loader that was installed.
pub fn setup_timeshift(bootloader: &str) -> (plan: Vec<Step>)
    ensures
        plan_view(plan@) == timeshift_plan(bootloader@),
{
    let mut pkgs: Vec<&str> = vec!["timeshift", "timeshift-autosnap"];
    if contains(bootloader, "grub") {
        pkgs.push("grub-btrfs");
    }
    assert(strs_view(pkgs@) =~= timeshift_packages(bootloader@));
    let mut plan = install(pkgs);
    let args: Vec<&str> = vec!["--btrfs"];
    assert(strs_view(args@) =~= seq!["--btrfs"@]);
    put(&mut plan, Step::exec_chroot("timeshift", args, "setup timeshift"));
    assert(plan_view(plan@) =~= timeshift_plan(bootloader@));
    plan
}

/// Installs the Nix package manager.
pub fn install_homemgr() -> (plan: Vec<Step>)
    ensures
        plan_view(plan@) == install_plan(seq!["nix"@]),
{
    let pkgs: Vec<&str> = vec!["nix"];
    assert(strs_view(pkgs@) =~= seq!["nix"@]);
    install(pkgs)
}

/// The steps that install Flatpak and make Flathub known to it.
pub open spec fn flatpak_plan() -> Seq<StepView> {
    install_plan(seq!["flatpak"@]) + seq![
        StepView::ExecChroot {
            program: "flatpak"@,
            args: seq![
                "remote-add"@,
                "--if-not-exists"@,
                "flathub"@,
                "https://flathub.org/repo/flathub.flatpakrepo"@,
            ],
            purpose: "Add flathub remote"@,
        },
    ]
}

/// Installs Flatpak and makes Flathub known to it.
pub fn install_flatpak() -> (plan: Vec<Step>)
    ensures
        plan_view(plan@) == flatpak_plan(),
{
    let pkgs: Vec<&str> = vec!["flatpak"];
    assert(strs_view(pkgs@) =~= seq!["flatpak"@]);
    let mut plan = install(pkgs);
    let args: Vec<&str> = vec![
        "remote-add",
        "--if-not-exists",
        "flathub",
        "https://flathub.org/repo/flathub.flatpakrepo",
    ];
    assert(strs_view(args@) =~= flatpak_plan()[2]->ExecChroot_args);
    put(&mut plan, Step::exec_chroot("flatpak", args, "Add flathub remote"));
    assert(plan_view(plan@) =~= flatpak_plan());
    plan
}

/// The steps that install the zram generator and write its configuration.
pub open spec fn zram_plan() -> Seq<StepView> {
    install_plan(seq!["zram-generator"@]) + seq![
        StepView::CreateFile { path: "/mnt/etc/systemd/zram-generator.conf"@ },
        StepView::AppendFile {
            path: "/mnt/etc/systemd/zram-generator.conf"@,
            content: "[zram0]"@,
            purpose: "Write zram-generator config"@,
        },
    ]
}

/// Installs the zram generator and writes its configuration.
pub fn install_zram() -> (plan: Vec<Step>)
    ensures
        plan_view(plan@) == zram_plan(),
{
    let pkgs: Vec<&str> = vec!["zram-generator"];
    assert(strs_view(pkgs@) =~= seq!["zram-generator"@]);
    let mut plan = install(pkgs);
    put(&mut plan, Step::create_file("/mnt/etc/systemd/zram-generator.conf"));
    put(
        &mut plan,
        Step::append_file(
            "/mnt/etc/systemd/zram-generator.conf",
            "[zram0]",
            "Write zram-generator config",
        ),
    );
    assert(plan_view(plan@) =~= zram_plan());
    plan
}

} // verus!
