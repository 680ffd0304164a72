//! The decisions of a shared library that stands in front of an old glibc: it
//! lets programs use slashes in the names of shared memory objects.
//!
//! A hooked libc function takes the strings behind its caller's pointers to
//! [`hooks`], which decides what goes to the real function or to the kernel and
//! what the caller is answered. [`rewrite`] says which name an object goes by,
//! [`symbol`] when the dynamic linker is asked for a real function, [`flags`]
//! when `open` takes a mode, [`reply`] how errors reach `errno`. [`trace`]
//! writes a record of a call, out of the numerals in [`text`].
//!
//! The modules whose names end in `laws` hold what is true of these together.

// Many modules are named in contracts alone.
#![allow(unused_imports)]

pub mod flags;
pub mod hooks;
pub mod reply;
pub mod rewrite;
pub mod rewrite_laws;
pub mod symbol;
pub mod text;
pub mod text_laws;
pub mod trace;
pub mod trace_laws;
