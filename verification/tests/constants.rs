use posix_errors::{
    E2BIG, EACCES, EADDRINUSE, EADDRNOTAVAIL, EAFNOSUPPORT, EAGAIN, EALREADY, EAUTH, EBADF,
    EBADMSG, EBADRPC, EBUSY, ECANCELED, ECAPMODE, ECHILD, ECONNABORTED, ECONNREFUSED, ECONNRESET,
    ECTRLC, EDEADLK, EDESTADDRREQ, EDOM, EDOOFUS, EDQUOT, EEXIST, EFAULT, EFBIG, EFTYPE,
    EHOSTDOWN, EHOSTUNREACH, EIDRM, EILSEQ, EINPROGRESS, EINTR, EINVAL, EINVALEXIT, EIO, EISCONN,
    EISDIR, ELAST, ELOOP, EMFILE, EMLINK, EMSGSIZE, EMULTIHOP, ENAMETOOLONG, ENEEDAUTH, ENETDOWN,
    ENETRESET, ENETUNREACH, ENFILE, ENOATTR, ENOBUFS, ENOCMD, ENODEV, ENOENT, ENOEXEC, ENOLCK,
    ENOLINK, ENOMEM, ENOMSG, ENOPROTOOPT, ENOSPC, ENOSYS, ENOTBLK, ENOTCAPABLE, ENOTCONN,
    ENOTDIR, ENOTEMPTY, ENOTEXEC, ENOTRECOVERABLE, ENOTSOCK, ENOTSUP, ENOTTY, ENXIO, EOPNOTSUPP,
    EOVERFLOW, EOWNERDEAD, EPERM, EPFNOSUPPORT, EPIPE, EPROCLIM, EPROCUNAVAIL, EPROGMISMATCH,
    EPROGUNAVAIL, EPROTO, EPROTONOSUPPORT, EPROTOTYPE, ERANGE, EREMOTE, EROFS, ERPCMISMATCH,
    ESHUTDOWN, ESOCKTNOSUPPORT, ESPIPE, ESRCH, ESTALE, ETIMEDOUT, ETOOMANYREFS, ETXTBSY, EUSERS,
    EUTF8, EWOULDBLOCK, EXDEV,
};

#[test]
fn posix_constants_keep_their_documented_values() {
    assert_eq!(EPERM, 1);
    assert_eq!(ENOENT, 2);
    assert_eq!(ESRCH, 3);
    assert_eq!(EINTR, 4);
    assert_eq!(EIO, 5);
    assert_eq!(ENXIO, 6);
    assert_eq!(E2BIG, 7);
    assert_eq!(ENOEXEC, 8);
    assert_eq!(EBADF, 9);
    assert_eq!(ECHILD, 10);
    assert_eq!(EDEADLK, 11);
    assert_eq!(ENOMEM, 12);
    assert_eq!(EACCES, 13);
    assert_eq!(EFAULT, 14);
    assert_eq!(ENOTBLK, 15);
    assert_eq!(EBUSY, 16);
    assert_eq!(EEXIST, 17);
    assert_eq!(EXDEV, 18);
    assert_eq!(ENODEV, 19);
    assert_eq!(ENOTDIR, 20);
    assert_eq!(EISDIR, 21);
    assert_eq!(EINVAL, 22);
    assert_eq!(ENFILE, 23);
    assert_eq!(EMFILE, 24);
    assert_eq!(ENOTTY, 25);
    assert_eq!(ETXTBSY, 26);
    assert_eq!(EFBIG, 27);
    assert_eq!(ENOSPC, 28);
    assert_eq!(ESPIPE, 29);
    assert_eq!(EROFS, 30);
    assert_eq!(EMLINK, 31);
    assert_eq!(EPIPE, 32);
    assert_eq!(EDOM, 33);
    assert_eq!(ERANGE, 34);
    assert_eq!(EAGAIN, 35);
    assert_eq!(EINPROGRESS, 36);
    assert_eq!(EALREADY, 37);
    assert_eq!(ENOTSOCK, 38);
    assert_eq!(EDESTADDRREQ, 39);
    assert_eq!(EMSGSIZE, 40);
    assert_eq!(EPROTOTYPE, 41);
    assert_eq!(ENOPROTOOPT, 42);
    assert_eq!(EPROTONOSUPPORT, 43);
    assert_eq!(ESOCKTNOSUPPORT, 44);
    assert_eq!(EOPNOTSUPP, 45);
    assert_eq!(EPFNOSUPPORT, 46);
    assert_eq!(EAFNOSUPPORT, 47);
    assert_eq!(EADDRINUSE, 48);
    assert_eq!(EADDRNOTAVAIL, 49);
    assert_eq!(ENETDOWN, 50);
    assert_eq!(ENETUNREACH, 51);
    assert_eq!(ENETRESET, 52);
    assert_eq!(ECONNABORTED, 53);
    assert_eq!(ECONNRESET, 54);
    assert_eq!(ENOBUFS, 55);
    assert_eq!(EISCONN, 56);
    assert_eq!(ENOTCONN, 57);
    assert_eq!(ESHUTDOWN, 58);
    assert_eq!(ETOOMANYREFS, 59);
    assert_eq!(ETIMEDOUT, 60);
    assert_eq!(ECONNREFUSED, 61);
    assert_eq!(ELOOP, 62);
    assert_eq!(ENAMETOOLONG, 63);
    assert_eq!(EHOSTDOWN, 64);
    assert_eq!(EHOSTUNREACH, 65);
    assert_eq!(ENOTEMPTY, 66);
    assert_eq!(EPROCLIM, 67);
    assert_eq!(EUSERS, 68);
    assert_eq!(EDQUOT, 69);
    assert_eq!(ESTALE, 70);
    assert_eq!(EREMOTE, 71);
    assert_eq!(EBADRPC, 72);
    assert_eq!(ERPCMISMATCH, 73);
    assert_eq!(EPROGUNAVAIL, 74);
    assert_eq!(EPROGMISMATCH, 75);
    assert_eq!(EPROCUNAVAIL, 76);
    assert_eq!(ENOLCK, 77);
    assert_eq!(ENOSYS, 78);
    assert_eq!(EFTYPE, 79);
    assert_eq!(EAUTH, 80);
    assert_eq!(ENEEDAUTH, 81);
    assert_eq!(EIDRM, 82);
    assert_eq!(ENOMSG, 83);
    assert_eq!(EOVERFLOW, 84);
    assert_eq!(ECANCELED, 85);
    assert_eq!(EILSEQ, 86);
    assert_eq!(ENOATTR, 87);
    assert_eq!(EDOOFUS, 88);
    assert_eq!(EBADMSG, 89);
    assert_eq!(EMULTIHOP, 90);
    assert_eq!(ENOLINK, 91);
    assert_eq!(EPROTO, 92);
    assert_eq!(ENOTCAPABLE, 93);
    assert_eq!(ECAPMODE, 94);
    assert_eq!(ENOTRECOVERABLE, 95);
    assert_eq!(EOWNERDEAD, 96);
    assert_eq!(ELAST, 96);
    assert_eq!(ENOTEXEC, 126);
    assert_eq!(ENOCMD, 127);
    assert_eq!(EINVALEXIT, 128);
    assert_eq!(ECTRLC, 130);
    assert_eq!(EUTF8, 166);
}

#[test]
fn deliberate_aliases_share_their_value() {
    assert_eq!(EWOULDBLOCK, EAGAIN);
    assert_eq!(EWOULDBLOCK, 35);
    assert_eq!(ENOTSUP, EOPNOTSUPP);
    assert_eq!(ENOTSUP, 45);
}
