use vstd::prelude::*;
use vstd::string::StringExecFns;

verus! {

/// Why a mapping could not be established.
///
/// Only the variants under "POSIX" can come out of [`MmapError::from_errno`]; the Windows
/// variants complete the set of host failures a mapping layer can report.
#[derive(Copy, Clone, Debug, PartialEq, Eq, Structural)]
pub enum MmapError {
    /// POSIX: the descriptor was not open for reading, or not for writing when a
    /// writable mapping was asked for.
    ErrFdNotAvail,
    /// POSIX: the descriptor was not valid.
    ErrInvalidFd,
    /// POSIX: an address or offset not aligned to the page size, or invalid flags.
    ErrUnaligned,
    /// POSIX: the file does not support mapping.
    ErrNoMapSupport,
    /// POSIX: address space or memory resources are exhausted.
    ErrNoMem,
    /// A zero-length mapping was asked for; refused on every host.
    ErrZeroLength,
    /// POSIX: an error code with no named kind; the code is kept.
    ErrUnknown(isize),
    /// Windows: unsupported combination of protection flags.
    ErrUnsupProt,
    /// Windows: an offset was given where none is supported.
    ErrUnsupOffset,
    /// Windows: the file already has a mapping.
    ErrAlreadyExists,
    /// Windows: unrecognised failure of `VirtualAlloc`, with its code.
    ErrVirtualAlloc(i32),
    /// Windows: unrecognised failure of `CreateFileMappingW`, with its code.
    ErrCreateFileMappingW(i32),
    /// Windows: unrecognised failure of `MapViewOfFile`, with its code.
    ErrMapViewOfFile(i32),
}

/// The kind of mapping failure that a Linux `errno` value stands for.
pub open spec fn errno_kind(code: i32) -> MmapError {
    if code == 13 {
        MmapError::ErrFdNotAvail
    } else if code == 9 {
        MmapError::ErrInvalidFd
    } else if code == 22 {
        MmapError::ErrUnaligned
    } else if code == 19 {
        MmapError::ErrNoMapSupport
    } else if code == 12 {
        MmapError::ErrNoMem
    } else {
        MmapError::ErrUnknown(code as isize)
    }
}

/// Relies on `libc::EACCES`, which libc defines as 13 on Linux.
#[verifier::external_body]
fn errno_eacces() -> (r: i32)
    ensures
        r == 13,
{
    libc::EACCES
}

/// Relies on `libc::EBADF`, which libc defines as 9 on Linux.
#[verifier::external_body]
fn errno_ebadf() -> (r: i32)
    ensures
        r == 9,
{
    libc::EBADF
}

/// Relies on `libc::EINVAL`, which libc defines as 22 on Linux.
#[verifier::external_body]
fn errno_einval() -> (r: i32)
    ensures
        r == 22,
{
    libc::EINVAL
}

/// Relies on `libc::ENODEV`, which libc defines as 19 on Linux.
#[verifier::external_body]
fn errno_enodev() -> (r: i32)
    ensures
        r == 19,
{
    libc::ENODEV
}

/// Relies on `libc::ENOMEM`, which libc defines as 12 on Linux.
#[verifier::external_body]
fn errno_enomem() -> (r: i32)
    ensures
        r == 12,
{
    libc::ENOMEM
}

/// Decimal digits of `n`, most significant first.
pub open spec fn digits(n: nat) -> Seq<char>
    decreases n,
{
    if n < 10 {
        seq![digit_char(n)]
    } else {
        digits(n / 10).push(digit_char(n % 10))
    }
}

pub open spec fn digit_char(d: nat) -> char {
    (('0' as nat) + d) as char
}

/// `n` written in decimal, with a leading `-` when negative.
pub open spec fn decimal(n: int) -> Seq<char> {
    if n < 0 {
        seq!['-'] + digits((-n) as nat)
    } else {
        digits(n as nat)
    }
}

fn digit_str(d: u8) -> (r: &'static str)
    requires
        d < 10,
    ensures
        r@ == seq![digit_char(d as nat)],
{
    proof {
        reveal_strlit("0");
        reveal_strlit("1");
        reveal_strlit("2");
        reveal_strlit("3");
        reveal_strlit("4");
        reveal_strlit("5");
        reveal_strlit("6");
        reveal_strlit("7");
        reveal_strlit("8");
        reveal_strlit("9");
    }
    match d {
        0 => "0",
        1 => "1",
        2 => "2",
        3 => "3",
        4 => "4",
        5 => "5",
        6 => "6",
        7 => "7",
        8 => "8",
        _ => "9",
    }
}

fn push_digits(s: &mut String, n: u128)
    ensures
        final(s)@ == old(s)@ + digits(n as nat),
    decreases n,
{
    if n < 10 {
        s.append(digit_str(n as u8));
    } else {
        push_digits(s, n / 10);
        s.append(digit_str((n % 10) as u8));
        assert(final(s)@ =~= old(s)@ + digits(n as nat));
    }
}

fn push_decimal(s: &mut String, n: i128)
    ensures
        final(s)@ == old(s)@ + decimal(n as int),
{
    if n < 0 {
        proof {
            reveal_strlit("-");
        }
        s.append("-");
        let m: u128 = if n == i128::MIN {
            170141183460469231731687303715884105728u128
        } else {
            (-n) as u128
        };
        push_digits(s, m);
        assert(final(s)@ =~= old(s)@ + decimal(n as int));
    } else {
        push_digits(s, n as u128);
    }
}

impl MmapError {
    /// The kind of failure for a raw `errno` value left by a failed `mmap`.
    pub fn from_errno(code: i32) -> (r: MmapError)
        ensures
            r == errno_kind(code),
    {
        if code == errno_eacces() {
            MmapError::ErrFdNotAvail
        } else if code == errno_ebadf() {
            MmapError::ErrInvalidFd
        } else if code == errno_einval() {
            MmapError::ErrUnaligned
        } else if code == errno_enodev() {
            MmapError::ErrNoMapSupport
        } else if code == errno_enomem() {
            MmapError::ErrNoMem
        } else {
            MmapError::ErrUnknown(code as isize)
        }
    }

    /// The fixed text of a kind, or for a kind that carries a code, the text before it.
    pub open spec fn label(self) -> Seq<char> {
        match self {
            MmapError::ErrFdNotAvail => "fd not available for reading or writing"@,
            MmapError::ErrInvalidFd => "Invalid fd"@,
            MmapError::ErrUnaligned =>
                "Unaligned address, invalid flags, negative length or unaligned offset"@,
            MmapError::ErrNoMapSupport => "File doesn't support mapping"@,
            MmapError::ErrNoMem => "Invalid address, or not enough available memory"@,
            MmapError::ErrUnsupProt => "Protection mode unsupported"@,
            MmapError::ErrUnsupOffset => "Offset in virtual memory mode is unsupported"@,
            MmapError::ErrAlreadyExists => "File mapping for specified file already exists"@,
            MmapError::ErrZeroLength => "Zero-length mapping not allowed"@,
            MmapError::ErrUnknown(_) => "Unknown error = "@,
            MmapError::ErrVirtualAlloc(_) => "VirtualAlloc failure = "@,
            MmapError::ErrCreateFileMappingW(_) => "CreateFileMappingW failure = "@,
            MmapError::ErrMapViewOfFile(_) => "MapViewOfFile failure = "@,
        }
    }

    /// The human-readable description: the label, followed by the code in decimal for
    /// the kinds that carry one.
    pub open spec fn message(self) -> Seq<char> {
        match self {
            MmapError::ErrUnknown(code) => self.label() + decimal(code as int),
            MmapError::ErrVirtualAlloc(code) => self.label() + decimal(code as int),
            MmapError::ErrCreateFileMappingW(code) => self.label() + decimal(code as int),
            MmapError::ErrMapViewOfFile(code) => self.label() + decimal(code as int),
            _ => self.label(),
        }
    }

    /// Renders the failure as text.
    pub fn to_string(&self) -> (r: String)
        ensures
            r@ == self.message(),
    {
        let label: &str = match *self {
            MmapError::ErrFdNotAvail => "fd not available for reading or writing",
            MmapError::ErrInvalidFd => "Invalid fd",
            MmapError::ErrUnaligned =>
                "Unaligned address, invalid flags, negative length or unaligned offset",
            MmapError::ErrNoMapSupport => "File doesn't support mapping",
            MmapError::ErrNoMem => "Invalid address, or not enough available memory",
            MmapError::ErrUnsupProt => "Protection mode unsupported",
            MmapError::ErrUnsupOffset => "Offset in virtual memory mode is unsupported",
            MmapError::ErrAlreadyExists => "File mapping for specified file already exists",
            MmapError::ErrZeroLength => "Zero-length mapping not allowed",
            MmapError::ErrUnknown(_) => "Unknown error = ",
            MmapError::ErrVirtualAlloc(_) => "VirtualAlloc failure = ",
            MmapError::ErrCreateFileMappingW(_) => "CreateFileMappingW failure = ",
            MmapError::ErrMapViewOfFile(_) => "MapViewOfFile failure = ",
        };
        let mut s = String::from_str(label);
        match *self {
            MmapError::ErrUnknown(code) => push_decimal(&mut s, code as i128),
            MmapError::ErrVirtualAlloc(code) => push_decimal(&mut s, code as i128),
            MmapError::ErrCreateFileMappingW(code) => push_decimal(&mut s, code as i128),
            MmapError::ErrMapViewOfFile(code) => push_decimal(&mut s, code as i128),
            _ => {},
        }
        s
    }

    /// The short description shared by all kinds.
    pub fn description(&self) -> (r: &'static str)
        ensures
            r@ == "memory map error"@,
    {
        "memory map error"
    }
}

} // verus!
