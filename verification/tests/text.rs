use jade::error::{PlanError, EXIT_STATUS};
use jade::text::{chars_of, glue, contains, join, owned, same_text};

#[test]
fn contains_agrees_with_std() {
    let cases = [
        ("/dev/nvme0n1", "nvme"),
        ("/dev/sda", "nvme"),
        ("/dev/mmcblk0", "mmcblk"),
        ("nvm", "nvme"),
        ("", ""),
        ("abc", ""),
        ("", "a"),
        ("aab", "ab"),
        ("abab", "bab"),
        ("grub", "grub"),
        ("gr\u{fc}b-grub", "grub"),
        ("legacy", "grub"),
    ];
    for (hay, needle) in cases {
        assert_eq!(contains(hay, needle), hay.contains(needle), "{hay:?} {needle:?}");
    }
}

#[test]
fn join_puts_separator_between_neighbours() {
    assert_eq!(join(&vec!["a", "b", "c"], ", "), "a, b, c");
    assert_eq!(join(&vec!["a"], ", "), "a");
    assert_eq!(join(&Vec::new(), ", "), "");
    assert_eq!(join(&vec!["", ""], "-"), "-");
}

#[test]
fn text_helpers_keep_characters() {
    assert_eq!(owned("h\u{e9}llo"), "h\u{e9}llo");
    assert_eq!(glue("/mnt", "/boot"), "/mnt/boot");
    assert_eq!(chars_of("a\u{e9}b"), vec!['a', '\u{e9}', 'b']);
    assert!(same_text("ext4", "ext4"));
    assert!(!same_text("ext4", "ext3"));
    assert!(!same_text("ext4", "ext"));
}

#[test]
fn messages_name_what_is_missing() {
    let missing = PlanError::DeviceMissing { device: "/dev/sdz".to_string() };
    assert_eq!(missing.message(), "The device \"/dev/sdz\" doesn't exist");
    let unknown = PlanError::UnknownFilesystem {
        filesystem: "zfs".to_string(),
        blockdevice: "/dev/sda4".to_string(),
    };
    assert_eq!(unknown.message(), "Unknown filesystem zfs, used in partition /dev/sda4");
    let efidir = PlanError::EfiDirMissing { efidir: "/boot/efi".to_string() };
    assert_eq!(efidir.message(), "The efidir \"/boot/efi\" doesn't exist");
    let boot = PlanError::BootDeviceMissing { device: "/dev/sda".to_string() };
    assert_eq!(boot.message(), "The device \"/dev/sda\" does not exist");
    assert_eq!(EXIT_STATUS, 1);
}

#[test]
fn messages_quote_paths_as_debug_does() {
    let odd = PlanError::DeviceMissing { device: "/dev/a\"b\n".to_string() };
    assert_eq!(
        odd.message(),
        format!("The device {:?} doesn't exist", std::path::Path::new("/dev/a\"b\n"))
    );
    assert_eq!(odd.message(), "The device \"/dev/a\\\"b\\n\" doesn't exist");
    assert_eq!(odd.message_with("<x>"), "The device <x> doesn't exist");
}
