//! POSIX-style error codes and a value type pairing a numeric code with a
//! human-readable message, plus conversions that classify native error
//! conditions into the closest POSIX code.

use vstd::prelude::*;

verus! {

/// Operation not permitted
pub const EPERM: i32 = 1;
/// No such file or directory
pub const ENOENT: i32 = 2;
/// No such process
pub const ESRCH: i32 = 3;
/// Interrupted system call
pub const EINTR: i32 = 4;
/// Input/output error
pub const EIO: i32 = 5;
/// Device not configured
pub const ENXIO: i32 = 6;
/// Argument list too long
pub const E2BIG: i32 = 7;
/// Exec format error
pub const ENOEXEC: i32 = 8;
/// Bad file descriptor
pub const EBADF: i32 = 9;
/// No child processes
pub const ECHILD: i32 = 10;
/// Resource deadlock avoided
pub const EDEADLK: i32 = 11;
/// Cannot allocate memory
pub const ENOMEM: i32 = 12;
/// Permission denied
pub const EACCES: i32 = 13;
/// Bad address
pub const EFAULT: i32 = 14;
/// Block device required
pub const ENOTBLK: i32 = 15;
/// Device busy
pub const EBUSY: i32 = 16;
/// File exists
pub const EEXIST: i32 = 17;
/// Cross-device link
pub const EXDEV: i32 = 18;
/// Operation not supported by device
pub const ENODEV: i32 = 19;
/// Not a directory
pub const ENOTDIR: i32 = 20;
/// Is a directory
pub const EISDIR: i32 = 21;
/// Invalid argument
pub const EINVAL: i32 = 22;
/// Too many open files in system
pub const ENFILE: i32 = 23;
/// Too many open files
pub const EMFILE: i32 = 24;
/// Inappropriate ioctl for device
pub const ENOTTY: i32 = 25;
/// Text file busy
pub const ETXTBSY: i32 = 26;
/// File too large
pub const EFBIG: i32 = 27;
/// No space left on device
pub const ENOSPC: i32 = 28;
/// Illegal seek
pub const ESPIPE: i32 = 29;
/// Read-only filesystem
pub const EROFS: i32 = 30;
/// Too many links
pub const EMLINK: i32 = 31;
/// Broken pipe
pub const EPIPE: i32 = 32;
/// Numerical argument out of domain
pub const EDOM: i32 = 33;
/// Result too large
pub const ERANGE: i32 = 34;
/// Resource temporarily unavailable
pub const EAGAIN: i32 = 35;
/// Resource temporarily unavailable (deliberate alias of EAGAIN)
pub const EWOULDBLOCK: i32 = 35;
/// Operation now in progress
pub const EINPROGRESS: i32 = 36;
/// Operation already in progress
pub const EALREADY: i32 = 37;
/// Socket operation on non-socket
pub const ENOTSOCK: i32 = 38;
/// Destination address required
pub const EDESTADDRREQ: i32 = 39;
/// Message too long
pub const EMSGSIZE: i32 = 40;
/// Protocol wrong type for socket
pub const EPROTOTYPE: i32 = 41;
/// Protocol not available
pub const ENOPROTOOPT: i32 = 42;
/// Protocol not supported
pub const EPROTONOSUPPORT: i32 = 43;
/// Socket type not supported
pub const ESOCKTNOSUPPORT: i32 = 44;
/// Operation not supported
pub const EOPNOTSUPP: i32 = 45;
/// Operation not supported (deliberate alias of EOPNOTSUPP)
pub const ENOTSUP: i32 = 45;
/// Protocol family not supported
pub const EPFNOSUPPORT: i32 = 46;
/// Address family not supported by protocol family
pub const EAFNOSUPPORT: i32 = 47;
/// Address already in use
pub const EADDRINUSE: i32 = 48;
/// Can't assign requested address
pub const EADDRNOTAVAIL: i32 = 49;
/// Network is down
pub const ENETDOWN: i32 = 50;
/// Network is unreachable
pub const ENETUNREACH: i32 = 51;
/// Network dropped connection on reset
pub const ENETRESET: i32 = 52;
/// Software caused connection abort
pub const ECONNABORTED: i32 = 53;
/// Connection reset by peer
pub const ECONNRESET: i32 = 54;
/// No buffer space available
pub const ENOBUFS: i32 = 55;
/// Socket is already connected
pub const EISCONN: i32 = 56;
/// Socket is not connected
pub const ENOTCONN: i32 = 57;
/// Can't send after socket shutdown
pub const ESHUTDOWN: i32 = 58;
/// Too many references: can't splice
pub const ETOOMANYREFS: i32 = 59;
/// Operation timed out
pub const ETIMEDOUT: i32 = 60;
/// Connection refused
pub const ECONNREFUSED: i32 = 61;
/// Too many levels of symbolic links
pub const ELOOP: i32 = 62;
/// File name too long
pub const ENAMETOOLONG: i32 = 63;
/// Host is down
pub const EHOSTDOWN: i32 = 64;
/// No route to host
pub const EHOSTUNREACH: i32 = 65;
/// Directory not empty
pub const ENOTEMPTY: i32 = 66;
/// Too many processes
pub const EPROCLIM: i32 = 67;
/// Too many users
pub const EUSERS: i32 = 68;
/// Disc quota exceeded
pub const EDQUOT: i32 = 69;
/// Stale NFS file handle
pub const ESTALE: i32 = 70;
/// Too many levels of remote in path
pub const EREMOTE: i32 = 71;
/// RPC struct is bad
pub const EBADRPC: i32 = 72;
/// RPC version wrong
pub const ERPCMISMATCH: i32 = 73;
/// RPC prog. not avail
pub const EPROGUNAVAIL: i32 = 74;
/// Program version wrong
pub const EPROGMISMATCH: i32 = 75;
/// Bad procedure for program
pub const EPROCUNAVAIL: i32 = 76;
/// No locks available
pub const ENOLCK: i32 = 77;
/// Function not implemented
pub const ENOSYS: i32 = 78;
/// Inappropriate file type or format
pub const EFTYPE: i32 = 79;
/// Authentication error
pub const EAUTH: i32 = 80;
/// Need authenticator
pub const ENEEDAUTH: i32 = 81;
/// Identifier removed
pub const EIDRM: i32 = 82;
/// No message of desired type
pub const ENOMSG: i32 = 83;
/// Value too large to be stored in data type
pub const EOVERFLOW: i32 = 84;
/// Operation canceled
pub const ECANCELED: i32 = 85;
/// Illegal byte sequence
pub const EILSEQ: i32 = 86;
/// Attribute not found
pub const ENOATTR: i32 = 87;
/// Programming error
pub const EDOOFUS: i32 = 88;
/// Bad message
pub const EBADMSG: i32 = 89;
/// Multihop attempted
pub const EMULTIHOP: i32 = 90;
/// Link has been severed
pub const ENOLINK: i32 = 91;
/// Protocol error
pub const EPROTO: i32 = 92;
/// Capabilities insufficient
pub const ENOTCAPABLE: i32 = 93;
/// Not permitted in capability mode
pub const ECAPMODE: i32 = 94;
/// State not recoverable
pub const ENOTRECOVERABLE: i32 = 95;
/// Previous owner died
pub const EOWNERDEAD: i32 = 96;
/// Must be equal largest errno
pub const ELAST: i32 = 96;
/// Command invoked cannot execute (shell exit-status range)
pub const ENOTEXEC: i32 = 126;
/// Command not found (shell exit-status range)
pub const ENOCMD: i32 = 127;
/// Invalid argument to exit (shell exit-status range)
pub const EINVALEXIT: i32 = 128;
/// Terminated by CTRL-C (shell exit-status range)
pub const ECTRLC: i32 = 130;
/// UTF-8 decode/encode error (custom code)
pub const EUTF8: i32 = 166;

/// A POSIX error: a numeric error code together with a message.
///
/// Immutable once constructed; equality covers both fields.
#[derive(Debug, Clone, PartialEq)]
pub struct PosixError {
    code: i32,
    message: String,
}

impl PosixError {
    /// The numeric code, as seen by specifications.
    pub closed spec fn spec_code(&self) -> i32 {
        self.code
    }

    /// The message text, as seen by specifications.
    pub closed spec fn spec_message(&self) -> Seq<char> {
        self.message@
    }

    /// Create a new [`PosixError`]. Total: any code and any message are accepted.
    pub fn new(code: i32, message: String) -> (r: Self)
        ensures
            r.spec_code() == code,
            r.spec_message() == message@,
    {
        PosixError { code, message }
    }

    /// Return the POSIX error code.
    pub fn code(&self) -> (r: i32)
        ensures
            r == self.spec_code(),
    {
        self.code
    }

    /// Return an independent copy of the error message.
    ///
    /// This is also the full human-facing rendering of the error: the text
    /// shown for a [`PosixError`] is exactly the message, never the code.
    pub fn message(&self) -> (r: String)
        ensures
            r@ == self.spec_message(),
    {
        self.message.clone()
    }
}

/// Build a [`PosixError`] from a code and a borrowed message.
pub fn posix_error(code: i32, msg: &str) -> (r: PosixError)
    ensures
        r.spec_code() == code,
        r.spec_message() == msg@,
{
    PosixError::new(code, msg.to_owned())
}

/// The categories a native I/O error is classified into before it is mapped
/// to a POSIX code. `Other` stands for every category outside the enumerated
/// set.
#[derive(Clone, Copy, Debug, PartialEq, Eq, Structural)]
pub enum IoErrorKind {
    NotFound,
    PermissionDenied,
    ConnectionRefused,
    ConnectionReset,
    ConnectionAborted,
    NotConnected,
    AddrInUse,
    AddrNotAvailable,
    BrokenPipe,
    AlreadyExists,
    WouldBlock,
    InvalidInput,
    InvalidData,
    TimedOut,
    WriteZero,
    Interrupted,
    UnexpectedEof,
    Other,
}

/// The fixed, total mapping from a native error category to its POSIX code.
///
/// Several pairings are deliberately non-obvious (`WriteZero` maps to the
/// "link severed" code, `UnexpectedEof` to the "socket shutdown" code) and
/// must stay exactly as they are. Every category outside the enumerated set
/// falls back to `EPERM`, a least-surprise default.
pub open spec fn code_for_kind(kind: IoErrorKind) -> i32 {
    match kind {
        IoErrorKind::NotFound => ENOENT,
        IoErrorKind::PermissionDenied => EACCES,
        IoErrorKind::ConnectionRefused => ECONNREFUSED,
        IoErrorKind::ConnectionReset => ECONNRESET,
        IoErrorKind::ConnectionAborted => ECONNABORTED,
        IoErrorKind::NotConnected => ENOTCONN,
        IoErrorKind::AddrInUse => EADDRINUSE,
        IoErrorKind::AddrNotAvailable => EADDRNOTAVAIL,
        IoErrorKind::BrokenPipe => EPIPE,
        IoErrorKind::AlreadyExists => EEXIST,
        IoErrorKind::WouldBlock => EWOULDBLOCK,
        IoErrorKind::InvalidInput => EINVAL,
        IoErrorKind::InvalidData => EFTYPE,
        IoErrorKind::TimedOut => ETIMEDOUT,
        IoErrorKind::WriteZero => ENOLINK,
        IoErrorKind::Interrupted => EINTR,
        IoErrorKind::UnexpectedEof => ESHUTDOWN,
        IoErrorKind::Other => EPERM,
    }
}

/// Convert a classified native I/O error to a [`PosixError`].
///
/// The code is the one `code_for_kind` assigns to the category; the message
/// is the native error's own rendered description, passed through verbatim.
pub fn to_posix_error(kind: IoErrorKind, message: String) -> (r: PosixError)
    ensures
        r.spec_code() == code_for_kind(kind),
        r.spec_message() == message@,
{
    let code: i32 = match kind {
        IoErrorKind::NotFound => ENOENT,
        IoErrorKind::PermissionDenied => EACCES,
        IoErrorKind::ConnectionRefused => ECONNREFUSED,
        IoErrorKind::ConnectionReset => ECONNRESET,
        IoErrorKind::ConnectionAborted => ECONNABORTED,
        IoErrorKind::NotConnected => ENOTCONN,
        IoErrorKind::AddrInUse => EADDRINUSE,
        IoErrorKind::AddrNotAvailable => EADDRNOTAVAIL,
        IoErrorKind::BrokenPipe => EPIPE,
        IoErrorKind::AlreadyExists => EEXIST,
        IoErrorKind::WouldBlock => EWOULDBLOCK,
        IoErrorKind::InvalidInput => EINVAL,
        IoErrorKind::InvalidData => EFTYPE,
        IoErrorKind::TimedOut => ETIMEDOUT,
        IoErrorKind::WriteZero => ENOLINK,
        IoErrorKind::Interrupted => EINTR,
        IoErrorKind::UnexpectedEof => ESHUTDOWN,
        IoErrorKind::Other => EPERM,
    };
    PosixError::new(code, message)
}

/// The full mapping table, stated as one law: every enumerated category
/// yields exactly its documented POSIX code, and the unclassified category
/// yields the `EPERM` fallback.
pub proof fn lemma_code_for_kind_table()
    ensures
        code_for_kind(IoErrorKind::NotFound) == ENOENT,
        code_for_kind(IoErrorKind::PermissionDenied) == EACCES,
        code_for_kind(IoErrorKind::ConnectionRefused) == ECONNREFUSED,
        code_for_kind(IoErrorKind::ConnectionReset) == ECONNRESET,
        code_for_kind(IoErrorKind::ConnectionAborted) == ECONNABORTED,
        code_for_kind(IoErrorKind::NotConnected) == ENOTCONN,
        code_for_kind(IoErrorKind::AddrInUse) == EADDRINUSE,
        code_for_kind(IoErrorKind::AddrNotAvailable) == EADDRNOTAVAIL,
        code_for_kind(IoErrorKind::BrokenPipe) == EPIPE,
        code_for_kind(IoErrorKind::AlreadyExists) == EEXIST,
        code_for_kind(IoErrorKind::WouldBlock) == EWOULDBLOCK,
        code_for_kind(IoErrorKind::InvalidInput) == EINVAL,
        code_for_kind(IoErrorKind::InvalidData) == EFTYPE,
        code_for_kind(IoErrorKind::TimedOut) == ETIMEDOUT,
        code_for_kind(IoErrorKind::WriteZero) == ENOLINK,
        code_for_kind(IoErrorKind::Interrupted) == EINTR,
        code_for_kind(IoErrorKind::UnexpectedEof) == ESHUTDOWN,
        code_for_kind(IoErrorKind::Other) == EPERM,
{
}

/// The code a finished subprocess contributes to a [`PosixError`]: its exit
/// status when present and non-zero, and 1 otherwise. The zero case should
/// not reach a conversion meant for failures, but is guarded defensively
/// rather than propagated.
pub open spec fn code_for_status(status: Option<i32>) -> i32 {
    match status {
        Some(c) => if c == 0 { 1 } else { c },
        None => 1,
    }
}

/// What a byte sequence decodes to under lossy UTF-8 decoding, with every
/// invalid sequence replaced by the replacement character.
pub uninterp spec fn lossy_decoded(bytes: Seq<u8>) -> Seq<char>;

/// Relies on `String::from_utf8_lossy`: the result is a function of the bytes
/// alone, valid sequences are decoded and invalid ones replaced with U+FFFD,
/// so decoding never fails and empty input gives the empty string.
#[verifier::external_body]
fn lossy_utf8(bytes: &[u8]) -> (r: String)
    ensures
        r@ == lossy_decoded(bytes@),
        bytes@.len() == 0 ==> r@.len() == 0,
{
    String::from_utf8_lossy(bytes).into_owned()
}

/// Build a [`PosixError`] from what a failed subprocess left behind: its exit
/// status (absent when it was terminated by a signal) and its captured
/// standard-error bytes.
///
/// Total: the standard-error bytes are decoded lossily, so this conversion
/// cannot fail on any input.
pub fn error_from_output(status: Option<i32>, stderr: &[u8]) -> (r: PosixError)
    ensures
        r.spec_code() == code_for_status(status),
        r.spec_message() == lossy_decoded(stderr@),
{
    let message = lossy_utf8(stderr);
    let code: i32 = match status {
        Some(c) => if c == 0 { 1 } else { c },
        None => 1,
    };
    PosixError::new(code, message)
}

} // verus!
