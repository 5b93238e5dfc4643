//! Equality between Linux error numbers and the portable POSIX error codes
//! of the `posix_errno` crate.
//!
//! A POSIX code stands for the Linux constant of the same name on the chosen
//! architecture. `ENOTSUP` has no equivalent: Linux gives it the number of
//! `EOPNOTSUPP`, which already stands for the POSIX code of that name.
use vstd::prelude::*;
use posix_errno::Error as P;
use crate::arch::Arch;
use crate::error::Error as LinuxError;
use crate::table::first_code;

verus! {

/// Declares `posix_errno::Error` with its variants (the POSIX error codes,
/// none with fields), so that the mapping below can match on them.
#[verifier::external_type_specification]
pub struct ExPosixError(P);

/// The symbolic name of a POSIX error code.
pub open spec fn posix_symbol(p: P) -> Seq<char> {
    match p {
        P::E2BIG => "E2BIG"@,
        P::EACCES => "EACCES"@,
        P::EADDRINUSE => "EADDRINUSE"@,
        P::EADDRNOTAVAIL => "EADDRNOTAVAIL"@,
        P::EAFNOSUPPORT => "EAFNOSUPPORT"@,
        P::EAGAIN => "EAGAIN"@,
        P::EALREADY => "EALREADY"@,
        P::EBADF => "EBADF"@,
        P::EBADMSG => "EBADMSG"@,
        P::EBUSY => "EBUSY"@,
        P::ECANCELED => "ECANCELED"@,
        P::ECHILD => "ECHILD"@,
        P::ECONNABORTED => "ECONNABORTED"@,
        P::ECONNREFUSED => "ECONNREFUSED"@,
        P::ECONNRESET => "ECONNRESET"@,
        P::EDEADLK => "EDEADLK"@,
        P::EDESTADDRREQ => "EDESTADDRREQ"@,
        P::EDOM => "EDOM"@,
        P::EDQUOT => "EDQUOT"@,
        P::EEXIST => "EEXIST"@,
        P::EFAULT => "EFAULT"@,
        P::EFBIG => "EFBIG"@,
        P::EHOSTUNREACH => "EHOSTUNREACH"@,
        P::EIDRM => "EIDRM"@,
        P::EILSEQ => "EILSEQ"@,
        P::EINPROGRESS => "EINPROGRESS"@,
        P::EINTR => "EINTR"@,
        P::EINVAL => "EINVAL"@,
        P::EIO => "EIO"@,
        P::EISCONN => "EISCONN"@,
        P::EISDIR => "EISDIR"@,
        P::ELOOP => "ELOOP"@,
        P::EMFILE => "EMFILE"@,
        P::EMLINK => "EMLINK"@,
        P::EMSGSIZE => "EMSGSIZE"@,
        P::EMULTIHOP => "EMULTIHOP"@,
        P::ENAMETOOLONG => "ENAMETOOLONG"@,
        P::ENETDOWN => "ENETDOWN"@,
        P::ENETRESET => "ENETRESET"@,
        P::ENETUNREACH => "ENETUNREACH"@,
        P::ENFILE => "ENFILE"@,
        P::ENOBUFS => "ENOBUFS"@,
        P::ENODATA => "ENODATA"@,
        P::ENODEV => "ENODEV"@,
        P::ENOENT => "ENOENT"@,
        P::ENOEXEC => "ENOEXEC"@,
        P::ENOLCK => "ENOLCK"@,
        P::ENOLINK => "ENOLINK"@,
        P::ENOMEM => "ENOMEM"@,
        P::ENOMSG => "ENOMSG"@,
        P::ENOPROTOOPT => "ENOPROTOOPT"@,
        P::ENOSPC => "ENOSPC"@,
        P::ENOSR => "ENOSR"@,
        P::ENOSTR => "ENOSTR"@,
        P::ENOSYS => "ENOSYS"@,
        P::ENOTCONN => "ENOTCONN"@,
        P::ENOTDIR => "ENOTDIR"@,
        P::ENOTEMPTY => "ENOTEMPTY"@,
        P::ENOTRECOVERABLE => "ENOTRECOVERABLE"@,
        P::ENOTSOCK => "ENOTSOCK"@,
        P::ENOTSUP => "ENOTSUP"@,
        P::ENOTTY => "ENOTTY"@,
        P::ENXIO => "ENXIO"@,
        P::EOPNOTSUPP => "EOPNOTSUPP"@,
        P::EOVERFLOW => "EOVERFLOW"@,
        P::EOWNERDEAD => "EOWNERDEAD"@,
        P::EPERM => "EPERM"@,
        P::EPIPE => "EPIPE"@,
        P::EPROTO => "EPROTO"@,
        P::EPROTONOSUPPORT => "EPROTONOSUPPORT"@,
        P::EPROTOTYPE => "EPROTOTYPE"@,
        P::ERANGE => "ERANGE"@,
        P::EROFS => "EROFS"@,
        P::ESPIPE => "ESPIPE"@,
        P::ESRCH => "ESRCH"@,
        P::ESTALE => "ESTALE"@,
        P::ETIME => "ETIME"@,
        P::ETIMEDOUT => "ETIMEDOUT"@,
        P::ETXTBSY => "ETXTBSY"@,
        P::EWOULDBLOCK => "EWOULDBLOCK"@,
        P::EXDEV => "EXDEV"@,
        _ => Seq::empty(),
    }
}

/// The number that the POSIX code `p` stands for on `arch`, if any.
pub open spec fn posix_code(arch: Arch, p: P) -> Option<u16> {
    if p is ENOTSUP {
        None
    } else {
        first_code(arch.listing(), posix_symbol(p))
    }
}

/// The symbolic name of a POSIX error code.
pub fn posix_name(p: P) -> (r: &'static str)
    ensures
        r@ == posix_symbol(p),
{
    match p {
        P::E2BIG => "E2BIG",
        P::EACCES => "EACCES",
        P::EADDRINUSE => "EADDRINUSE",
        P::EADDRNOTAVAIL => "EADDRNOTAVAIL",
        P::EAFNOSUPPORT => "EAFNOSUPPORT",
        P::EAGAIN => "EAGAIN",
        P::EALREADY => "EALREADY",
        P::EBADF => "EBADF",
        P::EBADMSG => "EBADMSG",
        P::EBUSY => "EBUSY",
        P::ECANCELED => "ECANCELED",
        P::ECHILD => "ECHILD",
        P::ECONNABORTED => "ECONNABORTED",
        P::ECONNREFUSED => "ECONNREFUSED",
        P::ECONNRESET => "ECONNRESET",
        P::EDEADLK => "EDEADLK",
        P::EDESTADDRREQ => "EDESTADDRREQ",
        P::EDOM => "EDOM",
        P::EDQUOT => "EDQUOT",
        P::EEXIST => "EEXIST",
        P::EFAULT => "EFAULT",
        P::EFBIG => "EFBIG",
        P::EHOSTUNREACH => "EHOSTUNREACH",
        P::EIDRM => "EIDRM",
        P::EILSEQ => "EILSEQ",
        P::EINPROGRESS => "EINPROGRESS",
        P::EINTR => "EINTR",
        P::EINVAL => "EINVAL",
        P::EIO => "EIO",
        P::EISCONN => "EISCONN",
        P::EISDIR => "EISDIR",
        P::ELOOP => "ELOOP",
        P::EMFILE => "EMFILE",
        P::EMLINK => "EMLINK",
        P::EMSGSIZE => "EMSGSIZE",
        P::EMULTIHOP => "EMULTIHOP",
        P::ENAMETOOLONG => "ENAMETOOLONG",
        P::ENETDOWN => "ENETDOWN",
        P::ENETRESET => "ENETRESET",
        P::ENETUNREACH => "ENETUNREACH",
        P::ENFILE => "ENFILE",
        P::ENOBUFS => "ENOBUFS",
        P::ENODATA => "ENODATA",
        P::ENODEV => "ENODEV",
        P::ENOENT => "ENOENT",
        P::ENOEXEC => "ENOEXEC",
        P::ENOLCK => "ENOLCK",
        P::ENOLINK => "ENOLINK",
        P::ENOMEM => "ENOMEM",
        P::ENOMSG => "ENOMSG",
        P::ENOPROTOOPT => "ENOPROTOOPT",
        P::ENOSPC => "ENOSPC",
        P::ENOSR => "ENOSR",
        P::ENOSTR => "ENOSTR",
        P::ENOSYS => "ENOSYS",
        P::ENOTCONN => "ENOTCONN",
        P::ENOTDIR => "ENOTDIR",
        P::ENOTEMPTY => "ENOTEMPTY",
        P::ENOTRECOVERABLE => "ENOTRECOVERABLE",
        P::ENOTSOCK => "ENOTSOCK",
        P::ENOTSUP => "ENOTSUP",
        P::ENOTTY => "ENOTTY",
        P::ENXIO => "ENXIO",
        P::EOPNOTSUPP => "EOPNOTSUPP",
        P::EOVERFLOW => "EOVERFLOW",
        P::EOWNERDEAD => "EOWNERDEAD",
        P::EPERM => "EPERM",
        P::EPIPE => "EPIPE",
        P::EPROTO => "EPROTO",
        P::EPROTONOSUPPORT => "EPROTONOSUPPORT",
        P::EPROTOTYPE => "EPROTOTYPE",
        P::ERANGE => "ERANGE",
        P::EROFS => "EROFS",
        P::ESPIPE => "ESPIPE",
        P::ESRCH => "ESRCH",
        P::ESTALE => "ESTALE",
        P::ETIME => "ETIME",
        P::ETIMEDOUT => "ETIMEDOUT",
        P::ETXTBSY => "ETXTBSY",
        P::EWOULDBLOCK => "EWOULDBLOCK",
        P::EXDEV => "EXDEV",
        _ => "",
    }
}

/// The Linux error that the POSIX code `p` stands for on `arch`, if any.
pub fn from_posix(arch: Arch, p: P) -> (r: Option<LinuxError>)
    ensures
        match posix_code(arch, p) {
            Some(c) => r matches Some(e) && e.value() == c,
            None => r is None,
        },
{
    if let P::ENOTSUP = p {
        return None;
    }
    arch.error_named(posix_name(p))
}

impl LinuxError {
    /// Whether this error is the one that the POSIX code `other` stands for
    /// on `arch`.
    pub fn eq_posix(&self, arch: Arch, other: &P) -> (r: bool)
        ensures
            r == (posix_code(arch, *other) == Some(self.value())),
    {
        match from_posix(arch, *other) {
            Some(e) => e.get() == self.get(),
            None => false,
        }
    }
}

/// Whether the POSIX code `p` stands, on `arch`, for the error `err`.
pub fn posix_eq(arch: Arch, p: &P, err: &LinuxError) -> (r: bool)
    ensures
        r == (posix_code(arch, *p) == Some(err.value())),
{
    err.eq_posix(arch, p)
}

/// On every architecture, a POSIX code equals (from either side, see
/// `LinuxError::eq_posix` and `posix_eq`) exactly the error of the Linux
/// constant of its own name, and `ENOTSUP` equals no error at all.
pub proof fn lemma_posix_bridge(arch: Arch, p: P, err: LinuxError)
    ensures
        posix_code(arch, p) == Some(err.value()) <==> (!(p is ENOTSUP) && first_code(
            arch.listing(),
            posix_symbol(p),
        ) == Some(err.value())),
        p is ENOTSUP ==> posix_code(arch, p) != Some(err.value()),
{
}

} // verus!
