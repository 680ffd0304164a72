//! Which name a shared memory object goes by: slashes inside the name become
//! underscores, in the names that `shm_open` takes and in `/dev/shm/` paths
//! alike.
//!
//! Names and paths are the bytes of a C string without its terminating NUL.

use vstd::prelude::*;

use crate::text;

verus! {

/// The longest name of a shared memory object, its leading slash included.
pub const SHM_NAME_MAX: usize = 255;

/// Room for a name and its terminating NUL.
pub const NAME_BUF_LEN: usize = SHM_NAME_MAX + 1;

/// The directory that holds the shared memory objects.
pub const DEV_SHM_PREFIX: [u8; 9] = [
    '/' as u8,
    'd' as u8,
    'e' as u8,
    'v' as u8,
    '/' as u8,
    's' as u8,
    'h' as u8,
    'm' as u8,
    '/' as u8,
];

pub const DEV_SHM_PREFIX_LEN: usize = 9;

/// Room for a path under the prefix and its terminating NUL.
pub const PATH_BUF_LEN: usize = DEV_SHM_PREFIX_LEN + SHM_NAME_MAX + 1;

/// Which pointer a hook hands on for a path argument of its caller.
#[derive(Clone, Copy, Debug, PartialEq, Eq, Structural)]
pub enum PathArg {
    /// The caller passed null, and so does the hook.
    Null,
    /// The caller's own pointer.
    Caller,
    /// The hook's buffer, which holds the rewritten string.
    Buffer,
}

/// `s` with every slash turned into an underscore.
pub open spec fn underscored(s: Seq<u8>) -> Seq<u8> {
    s.map_values(
        |b: u8|
            if b == '/' as u8 {
                '_' as u8
            } else {
                b
            },
    )
}

/// There is a slash in `name` behind its first byte.
pub open spec fn has_embedded_slash(name: Seq<u8>) -> bool {
    exists|i: int| 1 <= i < name.len() && name[i] == '/' as u8
}

/// `name` is rewritten: it has an embedded slash and is not too long.
pub open spec fn renames(name: Seq<u8>) -> bool {
    has_embedded_slash(name) && name.len() <= SHM_NAME_MAX
}

/// The name under which the object `name` is opened.
pub open spec fn shm_name(name: Seq<u8>) -> Seq<u8> {
    if renames(name) {
        name.take(1) + underscored(name.skip(1))
    } else {
        name
    }
}

/// `path` starts with the prefix.
pub open spec fn under_dev_shm(path: Seq<u8>) -> bool {
    DEV_SHM_PREFIX@.is_prefix_of(path)
}

/// The part of a path behind the prefix.
pub open spec fn object_part(path: Seq<u8>) -> Seq<u8> {
    path.skip(DEV_SHM_PREFIX_LEN as int)
}

/// `path` is rewritten: it is under the prefix, and what follows the prefix
/// holds a slash and is shorter than the longest name.
pub open spec fn redirects(path: Seq<u8>) -> bool {
    &&& under_dev_shm(path)
    &&& object_part(path).contains('/' as u8)
    &&& object_part(path).len() < SHM_NAME_MAX
}

/// The path that is reached for `path`.
pub open spec fn dev_shm_path(path: Seq<u8>) -> Seq<u8> {
    if redirects(path) {
        DEV_SHM_PREFIX@ + underscored(object_part(path))
    } else {
        path
    }
}

/// The buffer of [`sanitize_on_stack`] after the call: a rewritten name stands
/// in it as a C string, else it is as it was.
pub open spec fn name_buf_after(name: Seq<u8>, before: Seq<u8>) -> Seq<u8> {
    if renames(name) {
        text::put_at(before, 0, shm_name(name).push(0))
    } else {
        before
    }
}

/// The buffer of [`sanitize_dev_shm_path`] after the call: a rewritten path
/// stands in it as a C string. Of another path under the prefix it holds what
/// was copied before the path turned out not to be rewritten.
pub open spec fn path_buf_after(path: Seq<u8>, before: Seq<u8>) -> Seq<u8> {
    let name = object_part(path);
    if redirects(path) {
        text::put_at(before, 0, dev_shm_path(path).push(0))
    } else if !under_dev_shm(path) {
        before
    } else if name.len() < SHM_NAME_MAX {
        text::put_at(before, 0, path)
    } else {
        text::put_at(before, 0, DEV_SHM_PREFIX@ + underscored(name.take(SHM_NAME_MAX - 1)))
    }
}

/// A non-empty name under the prefix.
pub open spec fn names_shm_object(path: Seq<u8>) -> bool {
    under_dev_shm(path) && path.len() > DEV_SHM_PREFIX_LEN
}

/// The string behind a pointer that may be null.
pub open spec fn opt_view(path: Option<&[u8]>) -> Option<Seq<u8>> {
    match path {
        None => None,
        Some(bytes) => Some(bytes@),
    }
}

/// The pointer that a path hook hands on for `path`.
pub open spec fn patched(path: Option<Seq<u8>>) -> PathArg {
    match path {
        None => PathArg::Null,
        Some(p) => if redirects(p) {
            PathArg::Buffer
        } else {
            PathArg::Caller
        },
    }
}

/// The pointer that a `shm` hook hands on for `name`.
pub open spec fn sanitized(name: Option<Seq<u8>>) -> PathArg {
    match name {
        None => PathArg::Null,
        Some(n) => if renames(n) {
            PathArg::Buffer
        } else {
            PathArg::Caller
        },
    }
}

/// The name buffer of a `shm` hook after the call.
pub open spec fn sanitize_buf_after(name: Option<Seq<u8>>, before: Seq<u8>) -> Seq<u8> {
    match name {
        None => before,
        Some(n) => name_buf_after(n, before),
    }
}

/// The buffer of [`patch`] after the call.
pub open spec fn patch_buf_after(path: Option<Seq<u8>>, before: Seq<u8>) -> Seq<u8> {
    match path {
        None => before,
        Some(p) => path_buf_after(p, before),
    }
}

/// The C string at the start of `mem`: the bytes before the first NUL.
pub open spec fn c_string(mem: Seq<u8>) -> Seq<u8>
    decreases mem.len(),
{
    if mem.len() == 0 || mem[0] == 0 {
        seq![]
    } else {
        seq![mem[0]] + c_string(mem.skip(1))
    }
}

/// The string that the receiver of `arg` reads: `caller` is what the hook was
/// called with, `buf` its buffer.
pub open spec fn pointee(arg: PathArg, caller: Option<Seq<u8>>, buf: Seq<u8>) -> Option<Seq<u8>> {
    match arg {
        PathArg::Null => None,
        PathArg::Caller => caller,
        PathArg::Buffer => Some(c_string(buf)),
    }
}

/// A C string holds no NUL.
pub open spec fn is_c_string(s: Seq<u8>) -> bool {
    !s.contains(0u8)
}

/// Tells whether there is a slash in `name` behind its first byte.
fn embedded_slash(name: &[u8]) -> (found: bool)
    ensures
        found == has_embedded_slash(name@),
{
    let mut i: usize = 1;
    while i < name.len()
        invariant
            1 <= i,
            forall|j: int| 1 <= j < i && j < name@.len() ==> name@[j] != '/' as u8,
        decreases name@.len() - i,
    {
        if name[i] == '/' as u8 {
            return true;
        }
        i += 1;
    }
    false
}

/// Rewrites a name with embedded slashes: `/a/b` becomes `/a_b`, as a C string
/// in `buf`. A name without one, or one that is too long, stays the caller's.
pub fn sanitize_on_stack(name: &[u8], buf: &mut [u8; NAME_BUF_LEN]) -> (arg: PathArg)
    ensures
        arg == sanitized(Some(name@)),
        final(buf)@ == name_buf_after(name@, old(buf)@),
{
    if !embedded_slash(name) {
        return PathArg::Caller;
    }
    if name.len() > SHM_NAME_MAX {
        return PathArg::Caller;
    }
    let ghost start = buf@;
    let ghost out = shm_name(name@);
    let mut k: usize = 0;
    while k < name.len()
        invariant
            k <= name@.len() <= SHM_NAME_MAX,
            renames(name@),
            out == shm_name(name@),
            buf@ =~= text::put_at(start, 0, out.take(k as int)),
            start.len() == NAME_BUF_LEN,
        decreases name@.len() - k,
    {
        let byte: u8 = name[k];
        buf[k] = if byte == '/' as u8 && k > 0 {
            '_' as u8
        } else {
            byte
        };
        k += 1;
    }
    buf[name.len()] = 0;
    assert(buf@ =~= text::put_at(start, 0, out.push(0)));
    PathArg::Buffer
}

/// Tells whether `path` starts with the prefix.
fn has_prefix(path: &[u8]) -> (found: bool)
    ensures
        found == under_dev_shm(path@),
{
    let mut i: usize = 0;
    while i < DEV_SHM_PREFIX_LEN
        invariant
            i <= DEV_SHM_PREFIX_LEN,
            i <= path@.len(),
            forall|j: int| 0 <= j < i ==> path@[j] == DEV_SHM_PREFIX@[j],
        decreases DEV_SHM_PREFIX_LEN - i,
    {
        if i >= path.len() || path[i] != DEV_SHM_PREFIX[i] {
            assert(!under_dev_shm(path@));
            return false;
        }
        i += 1;
    }
    assert(under_dev_shm(path@));
    true
}

/// Rewrites a `/dev/shm/<a>/<b>` path to `/dev/shm/<a>_<b>`, as a C string in
/// `buf`. Keeps the caller's path when it is not under `/dev/shm/`.
pub fn sanitize_dev_shm_path(path: &[u8], buf: &mut [u8; PATH_BUF_LEN]) -> (arg: PathArg)
    ensures
        arg == patched(Some(path@)),
        final(buf)@ == path_buf_after(path@, old(buf)@),
{
    if !has_prefix(path) {
        return PathArg::Caller;
    }
    let ghost start = buf@;
    let ghost name = object_part(path@);
    let mut c: usize = 0;
    while c < DEV_SHM_PREFIX_LEN
        invariant
            c <= DEV_SHM_PREFIX_LEN,
            start.len() == PATH_BUF_LEN,
            buf@ =~= text::put_at(start, 0, DEV_SHM_PREFIX@.take(c as int)),
        decreases DEV_SHM_PREFIX_LEN - c,
    {
        buf[c] = DEV_SHM_PREFIX[c];
        c += 1;
    }
    let mut n: usize = 0;
    let mut had_slash: bool = false;
    while DEV_SHM_PREFIX_LEN + n < path.len()
        invariant
            start.len() == PATH_BUF_LEN,
            start == old(buf)@,
            under_dev_shm(path@),
            name == object_part(path@),
            n <= name.len(),
            n <= SHM_NAME_MAX - 1,
            had_slash == name.take(n as int).contains('/' as u8),
            buf@ =~= text::put_at(start, 0, DEV_SHM_PREFIX@ + underscored(name.take(n as int))),
        decreases path@.len() - n,
    {
        if n > SHM_NAME_MAX - 2 {
            return PathArg::Caller;
        }
        let b: u8 = path[DEV_SHM_PREFIX_LEN + n];
        let ghost before = name.take(n as int);
        assert(name.take(n + 1) =~= before.push(b));
        proof {
            if had_slash {
                let j = choose|j: int| 0 <= j < before.len() && before[j] == '/' as u8;
                assert(before.push(b)[j] == '/' as u8);
            } else if b == '/' as u8 {
                assert(before.push(b)[n as int] == '/' as u8);
            } else {
                assert forall|j: int| 0 <= j < n + 1 implies before.push(b)[j] != '/' as u8 by {
                    if j < n {
                        assert(before[j] != '/' as u8);
                    }
                }
            }
        }
        let w: u8 = if b == '/' as u8 {
            had_slash = true;
            '_' as u8
        } else {
            b
        };
        buf[DEV_SHM_PREFIX_LEN + n] = w;
        n += 1;
    }
    assert(name.take(n as int) =~= name);
    if !had_slash {
        assert(DEV_SHM_PREFIX@ + underscored(name) =~= path@) by {
            assert forall|j: int| 0 <= j < name.len() implies name[j] != '/' as u8 by {
                assert(!name.contains('/' as u8));
            }
        }
        return PathArg::Caller;
    }
    buf[DEV_SHM_PREFIX_LEN + n] = 0;
    assert(buf@ =~= text::put_at(start, 0, dev_shm_path(path@).push(0)));
    PathArg::Buffer
}

/// True for any non-empty name under `/dev/shm/`. `mkdir` and `mkdirat` use it
/// to fake success with no real directory. Wider than
/// [`sanitize_dev_shm_path`] on purpose: every `/dev/shm` mkdir is faked, only
/// names with a slash are rewritten.
pub fn is_dev_shm_path(bytes: &[u8]) -> (r: bool)
    ensures
        r == names_shm_object(bytes@),
{
    bytes.len() > DEV_SHM_PREFIX_LEN && has_prefix(bytes)
}

/// Rewrites a `/dev/shm/<a>/<b>` `path` into `buf`; null passes through.
pub fn patch(path: Option<&[u8]>, buf: &mut [u8; PATH_BUF_LEN]) -> (arg: PathArg)
    ensures
        arg == patched(opt_view(path)),
        final(buf)@ == patch_buf_after(opt_view(path), old(buf)@),
{
    match path {
        None => PathArg::Null,
        Some(bytes) => sanitize_dev_shm_path(bytes, buf),
    }
}

} // verus!
