//! Open intent, and the platform flag bits both backends derive from it.

use vstd::prelude::*;
use crate::errors::ResolutionError;

verus! {

// Flag bits of the platform's open call, with their usual Linux values.
pub const O_RDONLY: u64 = 0o0;
pub const O_WRONLY: u64 = 0o1;
pub const O_RDWR: u64 = 0o2;
pub const O_CREAT: u64 = 0o100;
pub const O_EXCL: u64 = 0o200;
pub const O_TRUNC: u64 = 0o1000;
pub const O_APPEND: u64 = 0o2000;
pub const O_NOFOLLOW: u64 = 0o400000;
pub const O_CLOEXEC: u64 = 0o2000000;

/// The raw OS error for an invalid flag combination.
pub const ERRNO_INVALID: i32 = 22;

/// Read/write/creation intent for one resolution, immutable once resolution
/// begins. `create_new` demands that the target not already exist; `mode`
/// holds the permission bits applied only when a file is created;
/// `follow_trailing` says whether a symlink in the final component may be
/// expanded rather than opened as itself.
#[derive(Clone, Copy, Debug)]
pub struct OpenOptions {
    pub read: bool,
    pub write: bool,
    pub append: bool,
    pub truncate: bool,
    pub create: bool,
    pub create_new: bool,
    pub follow_trailing: bool,
    pub mode: u32,
}

/// An intent can be turned into flag bits only when it names an access mode
/// and only combines side effects with write access.
pub open spec fn oflags_valid(o: OpenOptions) -> bool {
    &&& (o.read || o.write || o.append)
    &&& ((o.truncate || o.create || o.create_new) ==> (o.write || o.append))
    &&& !(o.append && o.truncate && !o.create_new)
}

pub open spec fn access_flags(o: OpenOptions) -> u64 {
    if o.read && (o.write || o.append) {
        O_RDWR
    } else if o.write || o.append {
        O_WRONLY
    } else {
        O_RDONLY
    }
}

pub open spec fn append_flag(o: OpenOptions) -> u64 {
    if o.append {
        O_APPEND
    } else {
        0
    }
}

pub open spec fn creation_flags(o: OpenOptions) -> u64 {
    if o.create_new {
        O_CREAT | O_EXCL
    } else {
        (if o.create {
            O_CREAT
        } else {
            0
        }) | (if o.truncate {
            O_TRUNC
        } else {
            0
        })
    }
}

/// The flag bits a valid intent turns into.
pub open spec fn oflags_of(o: OpenOptions) -> u64 {
    O_CLOEXEC | access_flags(o) | append_flag(o) | creation_flags(o)
}

/// The permission bits handed to the open call: the caller's mode, masked to
/// the permission range, and only when the intent can create a file.
pub open spec fn creation_mode_of(o: OpenOptions) -> u32 {
    if o.create || o.create_new {
        o.mode & 0o7777
    } else {
        0
    }
}

impl OpenOptions {
    /// A fresh intent: no access, no side effects, permission bits 0o666,
    /// and a trailing symlink opened as itself rather than followed.
    pub fn new() -> (r: OpenOptions)
        ensures
            r == (OpenOptions {
                read: false,
                write: false,
                append: false,
                truncate: false,
                create: false,
                create_new: false,
                follow_trailing: false,
                mode: 0o666,
            }),
    {
        OpenOptions {
            read: false,
            write: false,
            append: false,
            truncate: false,
            create: false,
            create_new: false,
            follow_trailing: false,
            mode: 0o666,
        }
    }

    pub fn read(self, read: bool) -> (r: OpenOptions)
        ensures
            r == (OpenOptions { read, ..self }),
    {
        OpenOptions { read, ..self }
    }

    pub fn write(self, write: bool) -> (r: OpenOptions)
        ensures
            r == (OpenOptions { write, ..self }),
    {
        OpenOptions { write, ..self }
    }

    pub fn append(self, append: bool) -> (r: OpenOptions)
        ensures
            r == (OpenOptions { append, ..self }),
    {
        OpenOptions { append, ..self }
    }

    pub fn truncate(self, truncate: bool) -> (r: OpenOptions)
        ensures
            r == (OpenOptions { truncate, ..self }),
    {
        OpenOptions { truncate, ..self }
    }

    pub fn create(self, create: bool) -> (r: OpenOptions)
        ensures
            r == (OpenOptions { create, ..self }),
    {
        OpenOptions { create, ..self }
    }

    pub fn create_new(self, create_new: bool) -> (r: OpenOptions)
        ensures
            r == (OpenOptions { create_new, ..self }),
    {
        OpenOptions { create_new, ..self }
    }

    pub fn follow_trailing(self, follow_trailing: bool) -> (r: OpenOptions)
        ensures
            r == (OpenOptions { follow_trailing, ..self }),
    {
        OpenOptions { follow_trailing, ..self }
    }

    pub fn mode(self, mode: u32) -> (r: OpenOptions)
        ensures
            r == (OpenOptions { mode, ..self }),
    {
        OpenOptions { mode, ..self }
    }

    /// A copy of the intent with every side-effecting bit disabled, for a
    /// verification re-resolution that must not create or truncate anything.
    pub fn without_side_effects(&self) -> (r: OpenOptions)
        ensures
            r == (OpenOptions { truncate: false, create: false, create_new: false, ..*self }),
    {
        OpenOptions { truncate: false, create: false, create_new: false, ..*self }
    }
}

/// Turn an intent into the flag bits of the platform's open call, or reject
/// an invalid combination with the platform's "invalid argument" error.
pub fn compute_oflags(o: &OpenOptions) -> (r: Result<u64, ResolutionError>)
    ensures
        oflags_valid(*o) ==> r == Result::<u64, ResolutionError>::Ok(oflags_of(*o)),
        !oflags_valid(*o) ==> (r matches Err(ResolutionError::Io { errno, message })
            && errno == Some(ERRNO_INVALID) && message@ == "invalid open options"@),
{
    if !(o.read || o.write || o.append)
        || ((o.truncate || o.create || o.create_new) && !(o.write || o.append))
        || (o.append && o.truncate && !o.create_new) {
        return Err(ResolutionError::Io {
            errno: Some(ERRNO_INVALID),
            message: "invalid open options".to_string(),
        });
    }
    let access: u64 = if o.read && (o.write || o.append) {
        O_RDWR
    } else if o.write || o.append {
        O_WRONLY
    } else {
        O_RDONLY
    };
    let append: u64 = if o.append {
        O_APPEND
    } else {
        0
    };
    let creation: u64 = if o.create_new {
        O_CREAT | O_EXCL
    } else {
        (if o.create {
            O_CREAT
        } else {
            0
        }) | (if o.truncate {
            O_TRUNC
        } else {
            0
        })
    };
    Ok(O_CLOEXEC | access | append | creation)
}

/// The permission bits handed to the open call alongside the flag bits.
pub fn creation_mode(o: &OpenOptions) -> (m: u32)
    ensures
        m == creation_mode_of(*o),
{
    if o.create || o.create_new {
        o.mode & 0o7777
    } else {
        0
    }
}

/// Create-new law: an intent that demands "must not already exist" always
/// yields flag bits containing both CREAT and EXCL, so the terminal open —
/// on either backend, since both derive their flags here — fails on an
/// existing target instead of modifying it.
pub proof fn lemma_create_new_exclusive(o: OpenOptions)
    requires
        o.create_new,
    ensures
        oflags_of(o) & (O_CREAT | O_EXCL) == (O_CREAT | O_EXCL),
{
    let acc = access_flags(o);
    let app = append_flag(o);
    assert((0o2000000u64 | acc | app | (0o100u64 | 0o200u64)) & (0o100u64 | 0o200u64) == (
    0o100u64 | 0o200u64)) by (bit_vector);
}

} // verus!
