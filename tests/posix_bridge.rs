use linux_errno::arch::{alpha, generic, mips, parisc, sparc};
use linux_errno::posix::{from_posix, posix_eq, posix_name};
use linux_errno::{Arch, Error};
use posix_errno::Error as P;

const CODES: [P; 81] = [
    P::E2BIG,
    P::EACCES,
    P::EADDRINUSE,
    P::EADDRNOTAVAIL,
    P::EAFNOSUPPORT,
    P::EAGAIN,
    P::EALREADY,
    P::EBADF,
    P::EBADMSG,
    P::EBUSY,
    P::ECANCELED,
    P::ECHILD,
    P::ECONNABORTED,
    P::ECONNREFUSED,
    P::ECONNRESET,
    P::EDEADLK,
    P::EDESTADDRREQ,
    P::EDOM,
    P::EDQUOT,
    P::EEXIST,
    P::EFAULT,
    P::EFBIG,
    P::EHOSTUNREACH,
    P::EIDRM,
    P::EILSEQ,
    P::EINPROGRESS,
    P::EINTR,
    P::EINVAL,
    P::EIO,
    P::EISCONN,
    P::EISDIR,
    P::ELOOP,
    P::EMFILE,
    P::EMLINK,
    P::EMSGSIZE,
    P::EMULTIHOP,
    P::ENAMETOOLONG,
    P::ENETDOWN,
    P::ENETRESET,
    P::ENETUNREACH,
    P::ENFILE,
    P::ENOBUFS,
    P::ENODATA,
    P::ENODEV,
    P::ENOENT,
    P::ENOEXEC,
    P::ENOLCK,
    P::ENOLINK,
    P::ENOMEM,
    P::ENOMSG,
    P::ENOPROTOOPT,
    P::ENOSPC,
    P::ENOSR,
    P::ENOSTR,
    P::ENOSYS,
    P::ENOTCONN,
    P::ENOTDIR,
    P::ENOTEMPTY,
    P::ENOTRECOVERABLE,
    P::ENOTSOCK,
    P::ENOTSUP,
    P::ENOTTY,
    P::ENXIO,
    P::EOPNOTSUPP,
    P::EOVERFLOW,
    P::EOWNERDEAD,
    P::EPERM,
    P::EPIPE,
    P::EPROTO,
    P::EPROTONOSUPPORT,
    P::EPROTOTYPE,
    P::ERANGE,
    P::EROFS,
    P::ESPIPE,
    P::ESRCH,
    P::ESTALE,
    P::ETIME,
    P::ETIMEDOUT,
    P::ETXTBSY,
    P::EWOULDBLOCK,
    P::EXDEV,
];

const ALL: [Arch; 10] = [
    Arch::Alpha,
    Arch::Arm,
    Arch::M68k,
    Arch::Mips,
    Arch::Parisc,
    Arch::PowerPc,
    Arch::RiscV,
    Arch::S390x,
    Arch::Sparc,
    Arch::X86,
];

#[test]
fn posix_names_match_variants() {
    for p in CODES {
        assert_eq!(posix_name(p), format!("{:?}", p));
    }
}

#[test]
fn posix_code_equals_constant_of_same_name() {
    for arch in ALL {
        for p in CODES {
            if p == P::ENOTSUP {
                continue;
            }
            let e = from_posix(arch, p);
            assert!(e.is_some(), "{:?} {:?}", arch, p);
            let e = e.unwrap();
            assert_eq!(Some(e), arch.error_named(posix_name(p)));
            assert!(e.eq_posix(arch, &p));
            assert!(posix_eq(arch, &p, &e));
        }
    }
}

#[test]
fn posix_equality_is_the_same_from_both_sides() {
    for arch in [Arch::X86, Arch::Alpha, Arch::Mips, Arch::Parisc, Arch::Sparc, Arch::PowerPc] {
        for raw in 1u16..=300 {
            let e = Error::new(raw).unwrap();
            for p in CODES {
                assert_eq!(e.eq_posix(arch, &p), posix_eq(arch, &p, &e));
                assert_eq!(e.eq_posix(arch, &p), from_posix(arch, p) == Some(e));
            }
        }
    }
}

#[test]
fn enotsup_equals_no_error() {
    for arch in ALL {
        assert_eq!(from_posix(arch, P::ENOTSUP), None);
        for raw in 1u16..=4095 {
            let e = Error::new(raw).unwrap();
            assert!(!e.eq_posix(arch, &P::ENOTSUP));
            assert!(!posix_eq(arch, &P::ENOTSUP, &e));
        }
    }
}

#[test]
fn posix_codes_follow_architecture() {
    assert_eq!(from_posix(Arch::X86, P::EAGAIN).unwrap().get(), generic::EAGAIN);
    assert_eq!(from_posix(Arch::Alpha, P::EAGAIN).unwrap().get(), alpha::EAGAIN);
    assert_eq!(from_posix(Arch::Alpha, P::EAGAIN).unwrap().get(), 35);
    assert_eq!(from_posix(Arch::X86, P::EWOULDBLOCK).unwrap().get(), 11);
    assert_eq!(from_posix(Arch::Mips, P::EDQUOT).unwrap().get(), mips::EDQUOT);
    assert_eq!(from_posix(Arch::Parisc, P::ECANCELED).unwrap().get(), parisc::ECANCELLED);
    assert_eq!(from_posix(Arch::Sparc, P::EDEADLK).unwrap().get(), sparc::EDEADLK);
    assert_eq!(from_posix(Arch::X86, P::ETIMEDOUT).unwrap().get(), 110);
    assert_eq!(from_posix(Arch::X86, P::EOPNOTSUPP).unwrap().get(), 95);
    let e = Error::new(11).unwrap();
    assert!(e.eq_posix(Arch::X86, &P::EAGAIN));
    assert!(e.eq_posix(Arch::X86, &P::EWOULDBLOCK));
    assert!(!e.eq_posix(Arch::Alpha, &P::EAGAIN));
    assert!(e.eq_posix(Arch::Alpha, &P::EDEADLK));
    assert!(!posix_eq(Arch::X86, &P::ENOMEM, &e));
}
