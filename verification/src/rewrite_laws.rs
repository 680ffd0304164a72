//! What holds of the rewriting of names and paths, whatever the name.

use vstd::prelude::*;

use crate::rewrite;
use crate::rewrite::{
    is_dev_shm_path, patch, sanitize_dev_shm_path, sanitize_on_stack, PathArg, DEV_SHM_PREFIX,
    SHM_NAME_MAX,
};
use crate::text;

verus! {

proof fn lemma_object_part(x: Seq<u8>)
    ensures
        rewrite::under_dev_shm(DEV_SHM_PREFIX@ + x),
        rewrite::object_part(DEV_SHM_PREFIX@ + x) == x,
{
    assert(rewrite::object_part(DEV_SHM_PREFIX@ + x) =~= x);
}

/// One object: the path `/dev/shm/<x>` leads to the object that `shm_open`
/// makes for the name `/<x>`. Both are rewritten alike, or both are left alone.
pub proof fn law_path_reaches_the_object(x: Seq<u8>)
    ensures
        rewrite::dev_shm_path(DEV_SHM_PREFIX@ + x) == DEV_SHM_PREFIX@ + rewrite::shm_name(
            seq!['/' as u8] + x,
        ).skip(1),
        rewrite::redirects(DEV_SHM_PREFIX@ + x) == rewrite::renames(seq!['/' as u8] + x),
{
    let name = seq!['/' as u8] + x;
    lemma_object_part(x);
    assert(name.skip(1) =~= x);
    if x.contains('/' as u8) {
        let i = choose|i: int| 0 <= i < x.len() && x[i] == '/' as u8;
        assert(name[i + 1] == '/' as u8);
    }
    if rewrite::has_embedded_slash(name) {
        let i = choose|i: int| 1 <= i < name.len() && name[i] == '/' as u8;
        assert(x[i - 1] == '/' as u8);
    }
    assert(rewrite::shm_name(name).skip(1) =~= if rewrite::renames(name) {
        rewrite::underscored(x)
    } else {
        x
    });
}

/// The same for a name without a leading slash: `/dev/shm/<x>` leads to the
/// object of the name `<x>`. A name of exactly the greatest length is left out:
/// with an embedded slash it is rewritten as a name, but not as a path.
pub proof fn law_path_reaches_the_bare_object(x: Seq<u8>)
    requires
        x.len() > 0 ==> x[0] != '/' as u8,
        !(x.len() == SHM_NAME_MAX && rewrite::has_embedded_slash(x)),
    ensures
        rewrite::dev_shm_path(DEV_SHM_PREFIX@ + x) == DEV_SHM_PREFIX@ + rewrite::shm_name(x),
{
    lemma_object_part(x);
    if x.contains('/' as u8) {
        let i = choose|i: int| 0 <= i < x.len() && x[i] == '/' as u8;
        assert(1 <= i && x[i] == '/' as u8);
    }
    if rewrite::has_embedded_slash(x) {
        assert(x.contains('/' as u8));
    }
    if rewrite::renames(x) {
        assert(rewrite::shm_name(x) =~= rewrite::underscored(x));
    }
}

/// Rewriting keeps the length of a name and its first byte.
pub proof fn law_name_keeps_length_and_first_byte(name: Seq<u8>)
    ensures
        rewrite::shm_name(name).len() == name.len(),
        name.len() > 0 ==> rewrite::shm_name(name)[0] == name[0],
{
}

/// A name that is not too long goes out without embedded slashes.
pub proof fn law_name_is_flat(name: Seq<u8>)
    requires
        name.len() <= SHM_NAME_MAX,
    ensures
        !rewrite::has_embedded_slash(rewrite::shm_name(name)),
{
}

/// A name that was rewritten, or left alone, is left alone the next time.
pub proof fn law_name_rewriting_is_idempotent(name: Seq<u8>)
    ensures
        rewrite::shm_name(rewrite::shm_name(name)) == rewrite::shm_name(name),
{
    if rewrite::renames(name) {
        law_name_is_flat(name);
    }
}

/// Rewriting keeps the length of a path and whether it is under the prefix.
pub proof fn law_path_keeps_length_and_directory(path: Seq<u8>)
    ensures
        rewrite::dev_shm_path(path).len() == path.len(),
        rewrite::under_dev_shm(rewrite::dev_shm_path(path)) == rewrite::under_dev_shm(path),
{
    if rewrite::redirects(path) {
        lemma_object_part(rewrite::underscored(rewrite::object_part(path)));
    }
}

/// A rewritten path names one object: no slash follows the prefix.
pub proof fn law_rewritten_path_is_flat(path: Seq<u8>)
    requires
        rewrite::redirects(path),
    ensures
        rewrite::under_dev_shm(rewrite::dev_shm_path(path)),
        !rewrite::object_part(rewrite::dev_shm_path(path)).contains('/' as u8),
{
    lemma_object_part(rewrite::underscored(rewrite::object_part(path)));
}

/// A path that was rewritten, or left alone, is left alone the next time.
pub proof fn law_path_rewriting_is_idempotent(path: Seq<u8>)
    ensures
        rewrite::dev_shm_path(rewrite::dev_shm_path(path)) == rewrite::dev_shm_path(path),
{
    if rewrite::redirects(path) {
        law_rewritten_path_is_flat(path);
    }
}

/// Only paths under the prefix are ever rewritten, and `mkdir` fakes every path
/// that a rewrite can touch.
pub proof fn law_mkdir_fakes_every_rewritten_path(path: Seq<u8>)
    ensures
        rewrite::redirects(path) ==> rewrite::names_shm_object(path),
        !rewrite::names_shm_object(path) ==> rewrite::dev_shm_path(path) == path,
{
    if rewrite::redirects(path) {
        assert(rewrite::object_part(path).len() > 0);
    }
}

proof fn lemma_c_string(s: Seq<u8>, rest: Seq<u8>)
    requires
        rewrite::is_c_string(s),
    ensures
        rewrite::c_string(s.push(0) + rest) == s,
    decreases s.len(),
{
    let mem = s.push(0) + rest;
    if s.len() == 0 {
        assert(rewrite::c_string(mem) =~= s);
    } else {
        assert(s[0] != 0) by {
            assert(s.contains(s[0]));
        }
        assert(rewrite::is_c_string(s.skip(1))) by {
            if s.skip(1).contains(0u8) {
                let i = choose|i: int| 0 <= i < s.skip(1).len() && s.skip(1)[i] == 0;
                assert(s[i + 1] == 0);
            }
        }
        lemma_c_string(s.skip(1), rest);
        assert(mem.skip(1) =~= s.skip(1).push(0) + rest);
        assert(rewrite::c_string(mem) =~= s);
    }
}

proof fn lemma_c_string_in_buf(buf: Seq<u8>, s: Seq<u8>)
    requires
        rewrite::is_c_string(s),
        s.len() < buf.len(),
    ensures
        rewrite::c_string(text::put_at(buf, 0, s.push(0))) == s,
{
    let rest = buf.skip(s.len() as int + 1);
    assert(text::put_at(buf, 0, s.push(0)) =~= s.push(0) + rest);
    lemma_c_string(s, rest);
}

/// The real function reads the rewritten name, or null where the caller passed
/// null: what stands behind the pointer that a `shm` hook chose is `shm_name`
/// of the caller's name.
pub proof fn law_receiver_reads_the_shm_name(name: Option<Seq<u8>>, before: Seq<u8>)
    requires
        name matches Some(n) ==> rewrite::is_c_string(n),
        before.len() == rewrite::NAME_BUF_LEN,
    ensures
        rewrite::pointee(
            rewrite::sanitized(name),
            name,
            rewrite::sanitize_buf_after(name, before),
        ) == (match name {
            None => None,
            Some(n) => Some(rewrite::shm_name(n)),
        }),
{
    if let Some(n) = name {
        if rewrite::renames(n) {
            let out = rewrite::shm_name(n);
            assert(rewrite::is_c_string(out)) by {
                if out.contains(0u8) {
                    let i = choose|i: int| 0 <= i < out.len() && out[i] == 0;
                    assert(n[i] == 0);
                }
            }
            lemma_c_string_in_buf(before, out);
        }
    }
}

/// The real function reads the rewritten path, or null where the caller passed
/// null: what stands behind the pointer that [`rewrite::patch`] chose is
/// `dev_shm_path` of the caller's path.
pub proof fn law_receiver_reads_the_path(path: Option<Seq<u8>>, before: Seq<u8>)
    requires
        path matches Some(p) ==> rewrite::is_c_string(p),
        before.len() == rewrite::PATH_BUF_LEN,
    ensures
        rewrite::pointee(
            rewrite::patched(path),
            path,
            rewrite::patch_buf_after(path, before),
        ) == (match path {
            None => None,
            Some(p) => Some(rewrite::dev_shm_path(p)),
        }),
{
    if let Some(p) = path {
        if rewrite::redirects(p) {
            let out = rewrite::dev_shm_path(p);
            assert(rewrite::is_c_string(out)) by {
                if out.contains(0u8) {
                    let i = choose|i: int| 0 <= i < out.len() && out[i] == 0;
                    assert(p[i] == 0);
                }
            }
            lemma_c_string_in_buf(before, out);
        }
    }
}

/// The name that goes out differs from the caller's only where the caller's has
/// a slash behind its first byte: there it has an underscore. A name longer than
/// 255 bytes goes out as it is.
pub proof fn law_name_changes_slashes_only(name: Seq<u8>)
    ensures
        rewrite::shm_name(name).len() == name.len(),
        name.len() > 255 ==> rewrite::shm_name(name) == name,
        name.len() <= 255 ==> forall|i: int|
            0 <= i < name.len() ==> #[trigger] rewrite::shm_name(name)[i] == (if i > 0 && name[i]
                == '/' as u8 {
                '_' as u8
            } else {
                name[i]
            }),
        rewrite::sanitized(Some(name)) == rewrite::PathArg::Caller ==> rewrite::shm_name(name)
            == name,
        rewrite::sanitized(None) == rewrite::PathArg::Null,
{
}

/// The path that is reached differs from the caller's only where the caller's
/// has a slash behind `/dev/shm/`: there it has an underscore. A path with more
/// than 254 bytes behind `/dev/shm/` is left alone.
pub proof fn law_path_changes_slashes_only(path: Seq<u8>)
    requires
        path.len() >= 9,
        path.take(9) == seq!['/' as u8, 'd' as u8, 'e' as u8, 'v' as u8, '/' as u8, 's' as u8,
            'h' as u8, 'm' as u8, '/' as u8],
    ensures
        rewrite::dev_shm_path(path).len() == path.len(),
        path.len() > 9 + 254 ==> rewrite::dev_shm_path(path) == path,
        path.len() <= 9 + 254 ==> forall|i: int|
            0 <= i < path.len() ==> #[trigger] rewrite::dev_shm_path(path)[i] == (if i >= 9
                && path[i] == '/' as u8 {
                '_' as u8
            } else {
                path[i]
            }),
        rewrite::patched(Some(path)) == rewrite::PathArg::Caller ==> rewrite::dev_shm_path(path)
            == path,
{
    let name = rewrite::object_part(path);
    assert forall|i: int| 0 <= i < 9 implies path[i] == DEV_SHM_PREFIX@[i] by {
        assert(path[i] == path.take(9)[i]);
    }
    if name.contains('/' as u8) {
        let k = choose|k: int| 0 <= k < name.len() && name[k] == '/' as u8;
        assert(path[k + 9] == '/' as u8);
    } else {
        assert forall|i: int| 9 <= i < path.len() implies path[i] != '/' as u8 by {
            assert(name[i - 9] == path[i]);
        }
    }
}

/// A path whose first nine bytes are not `/dev/shm/` goes out as the caller's
/// own pointer, nothing is copied, and no directory is faked for it.
pub proof fn law_path_elsewhere_is_left_alone(path: Seq<u8>, before: Seq<u8>)
    requires
        path.len() < 9 || path.take(9) != seq!['/' as u8, 'd' as u8, 'e' as u8, 'v' as u8,
            '/' as u8, 's' as u8, 'h' as u8, 'm' as u8, '/' as u8],
    ensures
        rewrite::dev_shm_path(path) == path,
        rewrite::patched(Some(path)) == rewrite::PathArg::Caller,
        rewrite::path_buf_after(path, before) == before,
        !rewrite::names_shm_object(path),
{
    if rewrite::under_dev_shm(path) {
        assert(path.take(9) =~= seq!['/' as u8, 'd' as u8, 'e' as u8, 'v' as u8, '/' as u8,
            's' as u8, 'h' as u8, 'm' as u8, '/' as u8]);
    }
}

/// What [`sanitize_on_stack`] does: it takes the buffer exactly for a name of at
/// most 255 bytes with a slash behind the first, copies it with these slashes
/// turned into underscores, and ends it with a NUL. Nothing else is written.
pub proof fn law_sanitize_on_stack_turns_slashes_into_underscores(
    name: &[u8],
    buf: &mut [u8; 256],
    arg: PathArg,
)
    requires
        call_ensures(sanitize_on_stack, (name, buf), arg),
    ensures
        arg == PathArg::Buffer || arg == PathArg::Caller,
        arg == PathArg::Buffer <==> name@.len() <= 255 && exists|i: int|
            1 <= i < name@.len() && name@[i] == '/' as u8,
        arg == PathArg::Caller ==> final(buf)@ == old(buf)@,
        arg == PathArg::Buffer ==> forall|i: int|
            0 <= i < 256 ==> #[trigger] final(buf)@[i] == (if i > name@.len() {
                old(buf)@[i]
            } else if i == name@.len() {
                0
            } else if i > 0 && name@[i] == '/' as u8 {
                '_' as u8
            } else {
                name@[i]
            }),
{
}

/// What [`sanitize_dev_shm_path`] does: it takes the buffer exactly for a path
/// that starts with `/dev/shm/`, has a slash behind that, and at most 254 bytes.
/// The buffer then holds the path, these slashes turned into underscores, and a
/// NUL. Of a path elsewhere nothing is written, of another under `/dev/shm/` no
/// more than its copy.
pub proof fn law_sanitize_dev_shm_path_turns_slashes_into_underscores(
    path: &[u8],
    buf: &mut [u8; 265],
    arg: PathArg,
)
    requires
        call_ensures(sanitize_dev_shm_path, (path, buf), arg),
    ensures
        arg == PathArg::Buffer || arg == PathArg::Caller,
        arg == PathArg::Buffer <==> 9 <= path@.len() <= 263
            && path@.take(9) == seq!['/' as u8, 'd' as u8, 'e' as u8, 'v' as u8, '/' as u8,
            's' as u8, 'h' as u8, 'm' as u8, '/' as u8] && exists|
            i: int,
        |
            9 <= i < path@.len() && path@[i] == '/' as u8,
        path@.len() < 9 || path@.take(9) != seq!['/' as u8, 'd' as u8, 'e' as u8, 'v' as u8,
            '/' as u8, 's' as u8, 'h' as u8, 'm' as u8, '/' as u8] ==> final(buf)@ == old(buf)@,
        path@.len() >= 9 && path@.take(9) == seq!['/' as u8, 'd' as u8, 'e' as u8, 'v' as u8,
            '/' as u8, 's' as u8, 'h' as u8, 'm' as u8, '/' as u8] ==> forall|i: int|
            0 <= i < 265 ==> #[trigger] final(buf)@[i] == (if i < 263 && i < path@.len() {
                if i >= 9 && path@[i] == '/' as u8 {
                    '_' as u8
                } else {
                    path@[i]
                }
            } else if arg == PathArg::Buffer && i == path@.len() {
                0
            } else {
                old(buf)@[i]
            }),
{
    let p = path@;
    if p.len() < 9 || p.take(9) != seq!['/' as u8, 'd' as u8, 'e' as u8, 'v' as u8, '/' as u8,
        's' as u8, 'h' as u8, 'm' as u8, '/' as u8] {
        law_path_elsewhere_is_left_alone(p, old(buf)@);
    } else {
        let name = rewrite::object_part(p);
        assert forall|i: int| 0 <= i < 9 implies p[i] == DEV_SHM_PREFIX@[i] by {
            assert(p[i] == p.take(9)[i]);
        }
        assert(rewrite::under_dev_shm(p));
        if name.contains('/' as u8) {
            let k = choose|k: int| 0 <= k < name.len() && name[k] == '/' as u8;
            assert(p[k + 9] == '/' as u8);
        } else {
            assert forall|i: int| 9 <= i < p.len() implies p[i] != '/' as u8 by {
                assert(name[i - 9] == p[i]);
            }
        }
    }
}

/// What [`is_dev_shm_path`] returns: true exactly for `/dev/shm/` with something
/// behind it.
pub proof fn law_dev_shm_paths_start_with_dev_shm(bytes: &[u8], r: bool)
    requires
        call_ensures(is_dev_shm_path, (bytes,), r),
    ensures
        r <==> bytes@.len() > 9 && bytes@.take(9) == seq!['/' as u8, 'd' as u8, 'e' as u8,
            'v' as u8, '/' as u8, 's' as u8, 'h' as u8, 'm' as u8, '/' as u8],
{
    if bytes@.len() < 9 || bytes@.take(9) != seq!['/' as u8, 'd' as u8, 'e' as u8, 'v' as u8,
        '/' as u8, 's' as u8, 'h' as u8, 'm' as u8, '/' as u8] {
        law_path_elsewhere_is_left_alone(bytes@, bytes@);
    } else {
        assert forall|i: int| 0 <= i < 9 implies bytes@[i] == DEV_SHM_PREFIX@[i] by {
            assert(bytes@[i] == bytes@.take(9)[i]);
        }
    }
}

/// What [`patch`] does: null stays null and nothing is written; a path is
/// treated as by [`sanitize_dev_shm_path`].
pub proof fn law_patch_rewrites_what_is_not_null(
    path: &[u8],
    buf: &mut [u8; 265],
    arg: PathArg,
    twin: &mut [u8; 265],
    same: PathArg,
    untouched: &mut [u8; 265],
    null: PathArg,
)
    requires
        call_ensures(patch, (Some(path), buf), arg),
        call_ensures(sanitize_dev_shm_path, (path, twin), same),
        old(twin)@ == old(buf)@,
        call_ensures(patch, (None::<&[u8]>, untouched), null),
    ensures
        arg == same,
        final(buf)@ == final(twin)@,
        null == PathArg::Null,
        final(untouched)@ == old(untouched)@,
{
}

} // verus!
