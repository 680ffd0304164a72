use glibc_compat::rewrite::{
    is_dev_shm_path, patch, sanitize_dev_shm_path, sanitize_on_stack, PathArg, DEV_SHM_PREFIX,
    DEV_SHM_PREFIX_LEN, NAME_BUF_LEN, PATH_BUF_LEN, SHM_NAME_MAX,
};

fn c_bytes(mem: &[u8]) -> Vec<u8> {
    mem.iter().copied().take_while(|&b| b != 0).collect()
}

fn sanitize(input: &[u8]) -> Option<Vec<u8>> {
    let mut buf = [0u8; SHM_NAME_MAX + 1];
    match sanitize_on_stack(input, &mut buf) {
        PathArg::Caller => None,
        PathArg::Buffer => Some(c_bytes(&buf)),
        PathArg::Null => panic!("a name is not null"),
    }
}

#[test]
fn no_embedded_slash() {
    assert_eq!(sanitize(b"/simple"), None);
}

#[test]
fn embedded_slash_replaced() {
    assert_eq!(sanitize(b"/sec/tss"), Some(b"/sec_tss".to_vec()));
}

#[test]
fn multiple_slashes_replaced() {
    assert_eq!(sanitize(b"/a/b/c"), Some(b"/a_b_c".to_vec()));
}

#[test]
fn leading_slash_preserved() {
    let result = sanitize(b"/a/b/c").unwrap();
    assert_eq!(result[0], b'/');
}

#[test]
fn no_leading_slash_no_embedded_slash() {
    assert_eq!(sanitize(b"noslash"), None);
}

#[test]
fn single_slash() {
    assert_eq!(sanitize(b"/"), None);
}

#[test]
fn empty_name() {
    assert_eq!(sanitize(b""), None);
}

#[test]
fn exactly_max_length() {
    let mut name = vec![b'/'];
    name.extend(std::iter::repeat_n(b'a', SHM_NAME_MAX - 2));
    name.push(b'/');
    assert_eq!(name.len(), SHM_NAME_MAX);

    let result = sanitize(&name).unwrap();
    assert_eq!(result.len(), SHM_NAME_MAX);
    assert_eq!(result[0], b'/');
    assert_eq!(*result.last().unwrap(), b'_');
}

#[test]
fn exceeds_max_length_passes_through() {
    let mut name = vec![b'/'];
    name.extend(std::iter::repeat_n(b'a', SHM_NAME_MAX));
    name.push(b'/');
    assert!(name.len() > SHM_NAME_MAX);

    assert_eq!(sanitize(&name), None);
}

fn sanitize_path(input: &[u8]) -> Option<Vec<u8>> {
    let mut buf = [0u8; DEV_SHM_PREFIX_LEN + SHM_NAME_MAX + 1];
    match sanitize_dev_shm_path(input, &mut buf) {
        PathArg::Caller => None,
        PathArg::Buffer => Some(c_bytes(&buf)),
        PathArg::Null => panic!("a path is not null"),
    }
}

#[test]
fn dev_shm_embedded_slash_rewritten() {
    assert_eq!(
        sanitize_path(b"/dev/shm/sec/tss_sdk_bus_1"),
        Some(b"/dev/shm/sec_tss_sdk_bus_1".to_vec())
    );
}

#[test]
fn dev_shm_multiple_slashes_rewritten() {
    assert_eq!(
        sanitize_path(b"/dev/shm/a/b/c"),
        Some(b"/dev/shm/a_b_c".to_vec())
    );
}

#[test]
fn dev_shm_no_embedded_slash_passes_through() {
    assert_eq!(sanitize_path(b"/dev/shm/simple"), None);
}

#[test]
fn non_dev_shm_path_passes_through() {
    assert_eq!(sanitize_path(b"/etc/passwd"), None);
    assert_eq!(
        sanitize_path(b"/home/neople/secsvr/zergsvr/zergsvr.pid"),
        None
    );
}

#[test]
fn dev_shm_empty_suffix_passes_through() {
    assert_eq!(sanitize_path(b"/dev/shm/"), None);
}

#[test]
fn dev_shm_prefix_only_passes_through() {
    assert_eq!(sanitize_path(b"/dev/shm"), None);
}

#[test]
fn dev_shm_exceeds_max_length_passes_through() {
    let mut path = DEV_SHM_PREFIX.to_vec();
    path.push(b'a');
    path.push(b'/');
    path.extend(std::iter::repeat_n(b'b', SHM_NAME_MAX));
    assert!(path.len() - DEV_SHM_PREFIX_LEN > SHM_NAME_MAX);

    assert_eq!(sanitize_path(&path), None);
}

#[test]
fn dev_shm_name_at_max_minus_one_rewritten() {
    let mut path = DEV_SHM_PREFIX.to_vec();
    path.push(b'a');
    path.push(b'/');
    path.extend(std::iter::repeat_n(b'b', SHM_NAME_MAX - 3));
    assert_eq!(path.len() - DEV_SHM_PREFIX_LEN, SHM_NAME_MAX - 1);

    let mut expected = DEV_SHM_PREFIX.to_vec();
    expected.push(b'a');
    expected.push(b'_');
    expected.extend(std::iter::repeat_n(b'b', SHM_NAME_MAX - 3));

    assert_eq!(sanitize_path(&path), Some(expected));
}

#[test]
fn dev_shm_multiple_slashes_at_max_minus_one_rewritten() {
    let mut name = vec![b'a', b'/', b'b', b'/', b'c', b'/'];
    name.extend(std::iter::repeat_n(b'd', SHM_NAME_MAX - 1 - name.len()));
    assert_eq!(name.len(), SHM_NAME_MAX - 1);

    let mut path = DEV_SHM_PREFIX.to_vec();
    path.extend_from_slice(&name);

    let mut expected = DEV_SHM_PREFIX.to_vec();
    expected.extend(name.iter().map(|&b| if b == b'/' { b'_' } else { b }));

    assert_eq!(sanitize_path(&path), Some(expected));
}

#[test]
fn dev_shm_name_at_max_passes_through() {
    let mut path = DEV_SHM_PREFIX.to_vec();
    path.push(b'a');
    path.push(b'/');
    path.extend(std::iter::repeat_n(b'b', SHM_NAME_MAX - 2));
    assert_eq!(path.len() - DEV_SHM_PREFIX_LEN, SHM_NAME_MAX);

    assert_eq!(sanitize_path(&path), None);
}

#[test]
fn dev_shm_dir_is_dev_shm_path() {
    assert!(is_dev_shm_path(b"/dev/shm/sec"));
}

#[test]
fn dev_shm_file_is_dev_shm_path() {
    assert!(is_dev_shm_path(b"/dev/shm/sec/tss_sdk_bus_1"));
}

#[test]
fn non_dev_shm_is_not_dev_shm_path() {
    assert!(!is_dev_shm_path(b"/etc/passwd"));
}

#[test]
fn dev_shm_prefix_only_is_not_dev_shm_path() {
    assert!(!is_dev_shm_path(b"/dev/shm/"));
    assert!(!is_dev_shm_path(b"/dev/shm"));
}

#[test]
fn dev_shm_lookalike_is_not_dev_shm_path() {
    assert!(!is_dev_shm_path(b"/dev/shmfoo"));
}

#[test]
fn prefix_is_dev_shm() {
    assert_eq!(&DEV_SHM_PREFIX, b"/dev/shm/");
    assert_eq!(DEV_SHM_PREFIX.len(), DEV_SHM_PREFIX_LEN);
    assert_eq!(NAME_BUF_LEN, 256);
    assert_eq!(PATH_BUF_LEN, 265);
}

#[test]
fn untouched_name_leaves_the_buffer_alone() {
    let mut buf = [7u8; NAME_BUF_LEN];
    assert_eq!(sanitize_on_stack(b"/simple", &mut buf), PathArg::Caller);
    assert!(buf.iter().all(|&b| b == 7));
}

#[test]
fn rewritten_name_is_terminated_and_nothing_else_changes() {
    let mut buf = [7u8; NAME_BUF_LEN];
    assert_eq!(sanitize_on_stack(b"a/b", &mut buf), PathArg::Buffer);
    assert_eq!(&buf[..4], b"a_b\0");
    assert!(buf[4..].iter().all(|&b| b == 7));
}

#[test]
fn longest_name_fills_the_buffer() {
    let mut name = vec![b'a'; SHM_NAME_MAX];
    name[1] = b'/';
    let mut buf = [7u8; NAME_BUF_LEN];
    assert_eq!(sanitize_on_stack(&name, &mut buf), PathArg::Buffer);
    assert_eq!(buf[1], b'_');
    assert_eq!(buf[SHM_NAME_MAX], 0);
}

#[test]
fn path_buffer_holds_what_was_copied() {
    let mut buf = [7u8; PATH_BUF_LEN];
    assert_eq!(sanitize_dev_shm_path(b"/etc/a/b", &mut buf), PathArg::Caller);
    assert!(buf.iter().all(|&b| b == 7));

    assert_eq!(sanitize_dev_shm_path(b"/dev/shm/ab", &mut buf), PathArg::Caller);
    assert_eq!(&buf[..11], b"/dev/shm/ab");
    assert!(buf[11..].iter().all(|&b| b == 7));

    let mut long = DEV_SHM_PREFIX.to_vec();
    long.extend(std::iter::repeat_n(b'/', SHM_NAME_MAX));
    assert_eq!(sanitize_dev_shm_path(&long, &mut buf), PathArg::Caller);
    assert!(buf[9..9 + 254].iter().all(|&b| b == b'_'));
    assert!(buf[9 + 254..].iter().all(|&b| b == 7));
}

#[test]
fn null_path_passes_through() {
    let mut buf = [7u8; PATH_BUF_LEN];
    assert_eq!(patch(None, &mut buf), PathArg::Null);
    assert!(buf.iter().all(|&b| b == 7));
    assert_eq!(patch(Some(b"/dev/shm/a/b"), &mut buf), PathArg::Buffer);
    assert_eq!(c_bytes(&buf), b"/dev/shm/a_b".to_vec());
}

#[test]
fn slash_right_behind_the_prefix_is_rewritten() {
    assert_eq!(sanitize_path(b"/dev/shm//a"), Some(b"/dev/shm/_a".to_vec()));
    assert_eq!(sanitize(b"//a"), Some(b"/_a".to_vec()));
}

#[test]
fn path_and_name_lead_to_one_object() {
    for x in [&b"sec/tss"[..], b"simple", b"/a", b"", b"a/b/c/"] {
        let mut name = b"/".to_vec();
        name.extend_from_slice(x);
        let opened = sanitize(&name).unwrap_or(name);
        let mut path = DEV_SHM_PREFIX.to_vec();
        path.extend_from_slice(x);
        let reached = sanitize_path(&path).unwrap_or(path);
        let mut object = DEV_SHM_PREFIX.to_vec();
        object.extend_from_slice(&opened[1..]);
        assert_eq!(reached, object);
    }
}

#[test]
fn bare_name_of_the_greatest_length_is_rewritten_only_as_a_name() {
    let mut x = vec![b'a'; SHM_NAME_MAX];
    x[1] = b'/';
    assert!(sanitize(&x).is_some());
    let mut path = DEV_SHM_PREFIX.to_vec();
    path.extend_from_slice(&x);
    assert_eq!(sanitize_path(&path), None);
}

#[test]
fn rewriting_twice_changes_nothing_more() {
    let once = sanitize(b"/a/b/c").unwrap();
    assert_eq!(sanitize(&once), None);
    let path = sanitize_path(b"/dev/shm/a/b/c").unwrap();
    assert_eq!(sanitize_path(&path), None);
}

#[test]
fn rewriting_keeps_the_length() {
    assert_eq!(sanitize(b"/a/b/c").unwrap().len(), 6);
    assert_eq!(sanitize_path(b"/dev/shm/a/b/c").unwrap().len(), 14);
}

#[test]
fn rewritten_paths_are_dev_shm_paths() {
    assert!(is_dev_shm_path(b"/dev/shm/a/b"));
    assert!(is_dev_shm_path(&sanitize_path(b"/dev/shm/a/b").unwrap()));
}
