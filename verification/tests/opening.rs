use glibc_compat::flags::{
    mode_to_forward, open_needs_mode, O_CREAT, O_DIRECTORY, O_TMPFILE_BIT,
};

#[test]
fn open_rdonly_needs_no_mode() {
    assert!(!open_needs_mode(0));
}

#[test]
fn open_creat_needs_mode() {
    assert!(open_needs_mode(O_CREAT));
}

#[test]
fn open_wronly_creat_needs_mode() {
    assert!(open_needs_mode(1 | O_CREAT));
}

#[test]
fn open_tmpfile_needs_mode() {
    assert!(open_needs_mode(O_TMPFILE_BIT | O_DIRECTORY));
}

#[test]
fn open_directory_only_needs_no_mode() {
    assert!(!open_needs_mode(O_DIRECTORY));
}

#[test]
fn flag_values() {
    assert_eq!(O_CREAT, 64);
    assert_eq!(O_TMPFILE_BIT, 4_194_304);
    assert_eq!(O_DIRECTORY, 65_536);
}

#[test]
fn mode_is_dropped_unless_a_file_is_created() {
    assert_eq!(mode_to_forward(O_CREAT, 0o640), 0o640);
    assert_eq!(mode_to_forward(0, 0o640), 0);
    assert_eq!(mode_to_forward(0, 12345), mode_to_forward(0, 0));
}

#[test]
fn more_flags_keep_the_mode() {
    assert!(open_needs_mode(O_CREAT | 0o2001));
    assert!(open_needs_mode(-1));
}
