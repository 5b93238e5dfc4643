//! Linux error numbers for the `alpha` architecture.
use vstd::prelude::*;
use crate::table::Entry;

verus! {

// Linux v5.19, include/uapi/asm-generic/errno-base.h
//
// Except for EAGAIN, which is redefined for Alpha.
/// Operation not permitted
pub const EPERM: u16 = 1;
/// No such file or directory
pub const ENOENT: u16 = 2;
/// No such process
pub const ESRCH: u16 = 3;
/// Interrupted system call
pub const EINTR: u16 = 4;
/// I/O error
pub const EIO: u16 = 5;
/// No such device or address
pub const ENXIO: u16 = 6;
/// Argument list too long
pub const E2BIG: u16 = 7;
/// Exec format error
pub const ENOEXEC: u16 = 8;
/// Bad file number
pub const EBADF: u16 = 9;
/// No child processes
pub const ECHILD: u16 = 10;
/// Out of memory
pub const ENOMEM: u16 = 12;
/// Permission denied
pub const EACCES: u16 = 13;
/// Bad address
pub const EFAULT: u16 = 14;
/// Block device required
pub const ENOTBLK: u16 = 15;
/// Device or resource busy
pub const EBUSY: u16 = 16;
/// File exists
pub const EEXIST: u16 = 17;
/// Cross-device link
pub const EXDEV: u16 = 18;
/// No such device
pub const ENODEV: u16 = 19;
/// Not a directory
pub const ENOTDIR: u16 = 20;
/// Is a directory
pub const EISDIR: u16 = 21;
/// Invalid argument
pub const EINVAL: u16 = 22;
/// File table overflow
pub const ENFILE: u16 = 23;
/// Too many open files
pub const EMFILE: u16 = 24;
/// Not a typewriter
pub const ENOTTY: u16 = 25;
/// Text file busy
pub const ETXTBSY: u16 = 26;
/// File too large
pub const EFBIG: u16 = 27;
/// No space left on device
pub const ENOSPC: u16 = 28;
/// Illegal seek
pub const ESPIPE: u16 = 29;
/// Read-only file system
pub const EROFS: u16 = 30;
/// Too many links
pub const EMLINK: u16 = 31;
/// Broken pipe
pub const EPIPE: u16 = 32;
/// Math argument out of domain of func
pub const EDOM: u16 = 33;
/// Math result not representable
pub const ERANGE: u16 = 34;

// Linux v5.19, arch/alpha/include/uapi/asm/errno.h
/// Resource deadlock would occur
pub const EDEADLK: u16 = 11;
/// Try again
pub const EAGAIN: u16 = 35;
/// Operation now in progress
pub const EINPROGRESS: u16 = 36;
/// Operation already in progress
pub const EALREADY: u16 = 37;
/// Socket operation on non-socket
pub const ENOTSOCK: u16 = 38;
/// Destination address required
pub const EDESTADDRREQ: u16 = 39;
/// Message too long
pub const EMSGSIZE: u16 = 40;
/// Protocol wrong type for socket
pub const EPROTOTYPE: u16 = 41;
/// Protocol not available
pub const ENOPROTOOPT: u16 = 42;
/// Protocol not supported
pub const EPROTONOSUPPORT: u16 = 43;
/// Socket type not supported
pub const ESOCKTNOSUPPORT: u16 = 44;
/// Operation not supported on transport endpoint
pub const EOPNOTSUPP: u16 = 45;
/// Protocol family not supported
pub const EPFNOSUPPORT: u16 = 46;
/// Address family not supported by protocol
pub const EAFNOSUPPORT: u16 = 47;
/// Address already in use
pub const EADDRINUSE: u16 = 48;
/// Cannot assign requested address
pub const EADDRNOTAVAIL: u16 = 49;
/// Network is down
pub const ENETDOWN: u16 = 50;
/// Network is unreachable
pub const ENETUNREACH: u16 = 51;
/// Network dropped connection because of reset
pub const ENETRESET: u16 = 52;
/// Software caused connection abort
pub const ECONNABORTED: u16 = 53;
/// Connection reset by peer
pub const ECONNRESET: u16 = 54;
/// No buffer space available
pub const ENOBUFS: u16 = 55;
/// Transport endpoint is already connected
pub const EISCONN: u16 = 56;
/// Transport endpoint is not connected
pub const ENOTCONN: u16 = 57;
/// Cannot send after transport endpoint shutdown
pub const ESHUTDOWN: u16 = 58;
/// Too many references: cannot splice
pub const ETOOMANYREFS: u16 = 59;
/// Connection timed out
pub const ETIMEDOUT: u16 = 60;
/// Connection refused
pub const ECONNREFUSED: u16 = 61;
/// Too many symbolic links encountered
pub const ELOOP: u16 = 62;
/// File name too long
pub const ENAMETOOLONG: u16 = 63;
/// Host is down
pub const EHOSTDOWN: u16 = 64;
/// No route to host
pub const EHOSTUNREACH: u16 = 65;
/// Directory not empty
pub const ENOTEMPTY: u16 = 66;
/// Too many users
pub const EUSERS: u16 = 68;
/// Quota exceeded
pub const EDQUOT: u16 = 69;
/// Stale file handle
pub const ESTALE: u16 = 70;
/// Object is remote
pub const EREMOTE: u16 = 71;
/// No record locks available
pub const ENOLCK: u16 = 77;
/// Function not implemented
pub const ENOSYS: u16 = 78;
/// No message of desired type
pub const ENOMSG: u16 = 80;
/// Identifier removed
pub const EIDRM: u16 = 81;
/// Out of streams resources
pub const ENOSR: u16 = 82;
/// Timer expired
pub const ETIME: u16 = 83;
/// Not a data message
pub const EBADMSG: u16 = 84;
/// Protocol error
pub const EPROTO: u16 = 85;
/// No data available
pub const ENODATA: u16 = 86;
/// Device not a stream
pub const ENOSTR: u16 = 87;
/// Channel number out of range
pub const ECHRNG: u16 = 88;
/// Level 2 not synchronized
pub const EL2NSYNC: u16 = 89;
/// Level 3 halted
pub const EL3HLT: u16 = 90;
/// Level 3 reset
pub const EL3RST: u16 = 91;
/// Package not installed
pub const ENOPKG: u16 = 92;
/// Link number out of range
pub const ELNRNG: u16 = 93;
/// Protocol driver not attached
pub const EUNATCH: u16 = 94;
/// No CSI structure available
pub const ENOCSI: u16 = 95;
/// Level 2 halted
pub const EL2HLT: u16 = 96;
/// Invalid exchange
pub const EBADE: u16 = 97;
/// Invalid request descriptor
pub const EBADR: u16 = 98;
/// Exchange full
pub const EXFULL: u16 = 99;
/// No anode
pub const ENOANO: u16 = 100;
/// Invalid request code
pub const EBADRQC: u16 = 101;
/// Invalid slot
pub const EBADSLT: u16 = 102;
/// Bad font file format
pub const EBFONT: u16 = 104;
/// Machine is not on the network
pub const ENONET: u16 = 105;
/// Link has been severed
pub const ENOLINK: u16 = 106;
/// Advertise error
pub const EADV: u16 = 107;
/// Srmount error
pub const ESRMNT: u16 = 108;
/// Communication error on send
pub const ECOMM: u16 = 109;
/// Multihop attempted
pub const EMULTIHOP: u16 = 110;
/// RFS specific error
pub const EDOTDOT: u16 = 111;
/// Value too large for defined data type
pub const EOVERFLOW: u16 = 112;
/// Name not unique on network
pub const ENOTUNIQ: u16 = 113;
/// File descriptor in bad state
pub const EBADFD: u16 = 114;
/// Remote address changed
pub const EREMCHG: u16 = 115;
/// Illegal byte sequence
pub const EILSEQ: u16 = 116;
/// Structure needs cleaning
pub const EUCLEAN: u16 = 117;
/// Not a XENIX named type file
pub const ENOTNAM: u16 = 118;
/// No XENIX semaphores available
pub const ENAVAIL: u16 = 119;
/// Is a named type file
pub const EISNAM: u16 = 120;
/// Remote I/O error
pub const EREMOTEIO: u16 = 121;
/// Can not access a needed shared library
pub const ELIBACC: u16 = 122;
/// Accessing a corrupted shared library
pub const ELIBBAD: u16 = 123;
/// .lib section in a.out corrupted
pub const ELIBSCN: u16 = 124;
/// Attempting to link in too many shared libraries
pub const ELIBMAX: u16 = 125;
/// Cannot exec a shared library directly
pub const ELIBEXEC: u16 = 126;
/// Interrupted system call should be restarted
pub const ERESTART: u16 = 127;
/// Streams pipe error
pub const ESTRPIPE: u16 = 128;
/// No medium found
pub const ENOMEDIUM: u16 = 129;
/// Wrong medium type
pub const EMEDIUMTYPE: u16 = 130;
/// Operation Cancelled
pub const ECANCELED: u16 = 131;
/// Required key not available
pub const ENOKEY: u16 = 132;
/// Key has expired
pub const EKEYEXPIRED: u16 = 133;
/// Key has been revoked
pub const EKEYREVOKED: u16 = 134;
/// Key was rejected by service
pub const EKEYREJECTED: u16 = 135;
/// Owner died
pub const EOWNERDEAD: u16 = 136;
/// State not recoverable
pub const ENOTRECOVERABLE: u16 = 137;
/// Operation not possible due to RF-kill
pub const ERFKILL: u16 = 138;
/// Memory page has hardware error
pub const EHWPOISON: u16 = 139;

/// Alias for `EDEADLK`
pub const EDEADLOCK: u16 = EDEADLK;
/// Operation would block (alias for `EAGAIN`)
pub const EWOULDBLOCK: u16 = EAGAIN;

/// Every name of this listing with its number, in the order of declaration.
/// A name that shares its number with an earlier one is an alias.
pub const TABLE: [Entry; 133] = [
    ("EPERM", EPERM),
    ("ENOENT", ENOENT),
    ("ESRCH", ESRCH),
    ("EINTR", EINTR),
    ("EIO", EIO),
    ("ENXIO", ENXIO),
    ("E2BIG", E2BIG),
    ("ENOEXEC", ENOEXEC),
    ("EBADF", EBADF),
    ("ECHILD", ECHILD),
    ("ENOMEM", ENOMEM),
    ("EACCES", EACCES),
    ("EFAULT", EFAULT),
    ("ENOTBLK", ENOTBLK),
    ("EBUSY", EBUSY),
    ("EEXIST", EEXIST),
    ("EXDEV", EXDEV),
    ("ENODEV", ENODEV),
    ("ENOTDIR", ENOTDIR),
    ("EISDIR", EISDIR),
    ("EINVAL", EINVAL),
    ("ENFILE", ENFILE),
    ("EMFILE", EMFILE),
    ("ENOTTY", ENOTTY),
    ("ETXTBSY", ETXTBSY),
    ("EFBIG", EFBIG),
    ("ENOSPC", ENOSPC),
    ("ESPIPE", ESPIPE),
    ("EROFS", EROFS),
    ("EMLINK", EMLINK),
    ("EPIPE", EPIPE),
    ("EDOM", EDOM),
    ("ERANGE", ERANGE),
    ("EDEADLK", EDEADLK),
    ("EAGAIN", EAGAIN),
    ("EINPROGRESS", EINPROGRESS),
    ("EALREADY", EALREADY),
    ("ENOTSOCK", ENOTSOCK),
    ("EDESTADDRREQ", EDESTADDRREQ),
    ("EMSGSIZE", EMSGSIZE),
    ("EPROTOTYPE", EPROTOTYPE),
    ("ENOPROTOOPT", ENOPROTOOPT),
    ("EPROTONOSUPPORT", EPROTONOSUPPORT),
    ("ESOCKTNOSUPPORT", ESOCKTNOSUPPORT),
    ("EOPNOTSUPP", EOPNOTSUPP),
    ("EPFNOSUPPORT", EPFNOSUPPORT),
    ("EAFNOSUPPORT", EAFNOSUPPORT),
    ("EADDRINUSE", EADDRINUSE),
    ("EADDRNOTAVAIL", EADDRNOTAVAIL),
    ("ENETDOWN", ENETDOWN),
    ("ENETUNREACH", ENETUNREACH),
    ("ENETRESET", ENETRESET),
    ("ECONNABORTED", ECONNABORTED),
    ("ECONNRESET", ECONNRESET),
    ("ENOBUFS", ENOBUFS),
    ("EISCONN", EISCONN),
    ("ENOTCONN", ENOTCONN),
    ("ESHUTDOWN", ESHUTDOWN),
    ("ETOOMANYREFS", ETOOMANYREFS),
    ("ETIMEDOUT", ETIMEDOUT),
    ("ECONNREFUSED", ECONNREFUSED),
    ("ELOOP", ELOOP),
    ("ENAMETOOLONG", ENAMETOOLONG),
    ("EHOSTDOWN", EHOSTDOWN),
    ("EHOSTUNREACH", EHOSTUNREACH),
    ("ENOTEMPTY", ENOTEMPTY),
    ("EUSERS", EUSERS),
    ("EDQUOT", EDQUOT),
    ("ESTALE", ESTALE),
    ("EREMOTE", EREMOTE),
    ("ENOLCK", ENOLCK),
    ("ENOSYS", ENOSYS),
    ("ENOMSG", ENOMSG),
    ("EIDRM", EIDRM),
    ("ENOSR", ENOSR),
    ("ETIME", ETIME),
    ("EBADMSG", EBADMSG),
    ("EPROTO", EPROTO),
    ("ENODATA", ENODATA),
    ("ENOSTR", ENOSTR),
    ("ECHRNG", ECHRNG),
    ("EL2NSYNC", EL2NSYNC),
    ("EL3HLT", EL3HLT),
    ("EL3RST", EL3RST),
    ("ENOPKG", ENOPKG),
    ("ELNRNG", ELNRNG),
    ("EUNATCH", EUNATCH),
    ("ENOCSI", ENOCSI),
    ("EL2HLT", EL2HLT),
    ("EBADE", EBADE),
    ("EBADR", EBADR),
    ("EXFULL", EXFULL),
    ("ENOANO", ENOANO),
    ("EBADRQC", EBADRQC),
    ("EBADSLT", EBADSLT),
    ("EBFONT", EBFONT),
    ("ENONET", ENONET),
    ("ENOLINK", ENOLINK),
    ("EADV", EADV),
    ("ESRMNT", ESRMNT),
    ("ECOMM", ECOMM),
    ("EMULTIHOP", EMULTIHOP),
    ("EDOTDOT", EDOTDOT),
    ("EOVERFLOW", EOVERFLOW),
    ("ENOTUNIQ", ENOTUNIQ),
    ("EBADFD", EBADFD),
    ("EREMCHG", EREMCHG),
    ("EILSEQ", EILSEQ),
    ("EUCLEAN", EUCLEAN),
    ("ENOTNAM", ENOTNAM),
    ("ENAVAIL", ENAVAIL),
    ("EISNAM", EISNAM),
    ("EREMOTEIO", EREMOTEIO),
    ("ELIBACC", ELIBACC),
    ("ELIBBAD", ELIBBAD),
    ("ELIBSCN", ELIBSCN),
    ("ELIBMAX", ELIBMAX),
    ("ELIBEXEC", ELIBEXEC),
    ("ERESTART", ERESTART),
    ("ESTRPIPE", ESTRPIPE),
    ("ENOMEDIUM", ENOMEDIUM),
    ("EMEDIUMTYPE", EMEDIUMTYPE),
    ("ECANCELED", ECANCELED),
    ("ENOKEY", ENOKEY),
    ("EKEYEXPIRED", EKEYEXPIRED),
    ("EKEYREVOKED", EKEYREVOKED),
    ("EKEYREJECTED", EKEYREJECTED),
    ("EOWNERDEAD", EOWNERDEAD),
    ("ENOTRECOVERABLE", ENOTRECOVERABLE),
    ("ERFKILL", ERFKILL),
    ("EHWPOISON", EHWPOISON),
    ("EDEADLOCK", EDEADLOCK),
    ("EWOULDBLOCK", EWOULDBLOCK),
];

} // verus!
