//! Linux x86 real-mode boot-protocol header inspection and early bzImage
//! triage: field reads at the fixed offsets of the boot protocol, the size of
//! the real-mode setup blob, and the next step toward running it. Nothing is
//! loaded or executed here.
use vstd::prelude::*;

use crate::bytes::{le16_at, le16_bytes, le16_of, le16_seq, le32_at, le32_bytes, le32_of, le32_seq};
use crate::text::{alt_hex, dec_digits, push_alt_hex, push_dec};

verus! {

/// Classic boot-sector signature at offset `0x1FE`.
pub const LINUX_BOOT_FLAG_AA55: u16 = 0xAA55;

/// Minimum buffer length to reach `loadflags` (`0x211`).
pub const LINUX_BOOT_HEADER_MIN_LEN: usize = 0x212;

/// Classic real-mode load base for the setup blob.
pub const LINUX_REALMODE_LOAD_ADDR: u64 = 0x9_0000;

/// Real-mode boot-protocol magic `HdrS` at offset `0x202`.
pub const LINUX_BOOT_HEADER_MAGIC: [u8; 4] = [0x48u8, 0x64u8, 0x72u8, 0x53u8];

/// The bytes of `HdrS`.
pub open spec fn hdrs_magic() -> Seq<u8> {
    seq![0x48u8, 0x64, 0x72, 0x53]
}

/// Error from [`inspect_linux_boot_protocol_header`].
#[derive(Clone, Copy, Debug, PartialEq, Eq, Structural)]
pub enum LinuxBootProtocolError {
    /// Buffer shorter than [`LINUX_BOOT_HEADER_MIN_LEN`].
    Truncated,
    /// Offset `0x1FE` is not `0xAA55`.
    BadBootFlag,
    /// Offset `0x202` is not `HdrS`.
    BadMagic,
}

/// Minimal real-mode Linux boot-protocol header fields.
#[derive(Clone, Copy, Debug, PartialEq, Eq)]
pub struct LinuxBootProtocolHeader {
    /// Offset `0x1F1`: sectors of setup code (0 means 4).
    pub setup_sects: u8,
    /// Offset `0x1F2`: `root_flags`.
    pub root_flags: u16,
    /// Offset `0x1F4`: `syssize`.
    pub syssize: u32,
    /// Offset `0x1FE`: always [`LINUX_BOOT_FLAG_AA55`] once accepted.
    pub boot_flag: u16,
    /// Offset `0x202`: always `HdrS` once accepted.
    pub header_magic: [u8; 4],
    /// Offset `0x206`: boot protocol version.
    pub version: u16,
    /// Offset `0x211`: `loadflags`.
    pub loadflags: u8,
    /// Offset `0x214`: `code32_start`, when the buffer reaches it.
    pub code32_start: Option<u32>,
}

impl LinuxBootProtocolHeader {
    /// True when `loadflags` bit 0 (`LOADED_HIGH`) is set.
    pub fn loaded_high(&self) -> (r: bool)
        ensures
            r == (self.loadflags % 2 == 1),
    {
        let f = self.loadflags;
        assert((f & 0x01 != 0) == (f % 2 == 1)) by (bit_vector);
        f & 0x01 != 0
    }
}

/// Why `buf` is not a boot-protocol header, if it is not one.
pub open spec fn header_error(buf: Seq<u8>) -> Option<LinuxBootProtocolError> {
    if buf.len() < LINUX_BOOT_HEADER_MIN_LEN {
        Some(LinuxBootProtocolError::Truncated)
    } else if le16_at(buf, 0x1FE) != 0xAA55 {
        Some(LinuxBootProtocolError::BadBootFlag)
    } else if buf.subrange(0x202, 0x206) != hdrs_magic() {
        Some(LinuxBootProtocolError::BadMagic)
    } else {
        None
    }
}

/// `code32_start` as far as the buffer holds it.
pub open spec fn code32_of(buf: Seq<u8>) -> Option<u32> {
    if buf.len() >= 0x218 {
        Some(le32_at(buf, 0x214) as u32)
    } else {
        None
    }
}

/// Boot protocol version at `0x206`.
pub open spec fn version_of(buf: Seq<u8>) -> u16 {
    le16_at(buf, 0x206) as u16
}

/// `LOADED_HIGH` bit of `loadflags`.
pub open spec fn loaded_high_of(buf: Seq<u8>) -> bool {
    buf[0x211] % 2 == 1
}

/// `h` holds exactly the header fields of `buf`.
pub open spec fn header_fields(buf: Seq<u8>, h: LinuxBootProtocolHeader) -> bool {
    &&& h.setup_sects == buf[0x1F1]
    &&& h.root_flags == le16_at(buf, 0x1F2)
    &&& h.syssize == le32_at(buf, 0x1F4)
    &&& h.boot_flag == LINUX_BOOT_FLAG_AA55
    &&& h.header_magic@ == hdrs_magic()
    &&& h.version == version_of(buf)
    &&& h.loadflags == buf[0x211]
    &&& h.code32_start == code32_of(buf)
}

/// Inspect a Linux real-mode boot-protocol header at the start of `buf`.
pub fn inspect_linux_boot_protocol_header(buf: &[u8]) -> (r: Result<
    LinuxBootProtocolHeader,
    LinuxBootProtocolError,
>)
    ensures
        match r {
            Ok(h) => header_error(buf@) is None && header_fields(buf@, h),
            Err(e) => header_error(buf@) == Some(e),
        },
{
    if buf.len() < LINUX_BOOT_HEADER_MIN_LEN {
        return Err(LinuxBootProtocolError::Truncated);
    }
    let boot_flag = le16_of(buf, 0x1FE);
    if boot_flag != LINUX_BOOT_FLAG_AA55 {
        return Err(LinuxBootProtocolError::BadBootFlag);
    }
    let header_magic: [u8; 4] = [buf[0x202], buf[0x203], buf[0x204], buf[0x205]];
    if header_magic[0] != 0x48 || header_magic[1] != 0x64 || header_magic[2] != 0x72
        || header_magic[3] != 0x53 {
        proof {
            if buf@.subrange(0x202, 0x206) == hdrs_magic() {
                assert(buf@.subrange(0x202, 0x206)[0] == buf@[0x202]);
                assert(buf@.subrange(0x202, 0x206)[1] == buf@[0x203]);
                assert(buf@.subrange(0x202, 0x206)[2] == buf@[0x204]);
                assert(buf@.subrange(0x202, 0x206)[3] == buf@[0x205]);
            }
        }
        return Err(LinuxBootProtocolError::BadMagic);
    }
    assert(buf@.subrange(0x202, 0x206) =~= hdrs_magic());
    assert(header_magic@ =~= hdrs_magic());
    let code32_start = if buf.len() >= 0x218 {
        Some(le32_of(buf, 0x214))
    } else {
        None
    };
    Ok(LinuxBootProtocolHeader {
        setup_sects: buf[0x1F1],
        root_flags: le16_of(buf, 0x1F2),
        syssize: le32_of(buf, 0x1F4),
        boot_flag,
        header_magic,
        version: le16_of(buf, 0x206),
        loadflags: buf[0x211],
        code32_start,
    })
}

/// Byte `i` of the synthetic header buffer: zero but for the setup count,
/// boot flag, `HdrS`, version, `loadflags` and `code32_start`.
pub open spec fn synthetic_header_byte(i: int, setup_sects: u8, version: u16, loadflags: u8, code32_start: u32) -> u8 {
    if i == 0x1F1 {
        setup_sects
    } else if i == 0x1FE {
        0x55
    } else if i == 0x1FF {
        0xAA
    } else if 0x202 <= i < 0x206 {
        hdrs_magic()[i - 0x202]
    } else if 0x206 <= i < 0x208 {
        le16_seq(version)[i - 0x206]
    } else if i == 0x211 {
        loadflags
    } else if 0x214 <= i < 0x218 {
        le32_seq(code32_start)[i - 0x214]
    } else {
        0
    }
}

/// The synthetic header buffer: `0x220` bytes.
pub open spec fn synthetic_header_spec(setup_sects: u8, version: u16, loadflags: u8, code32_start: u32) -> Seq<u8> {
    Seq::new(0x220, |i: int| synthetic_header_byte(i, setup_sects, version, loadflags, code32_start))
}

/// Build a minimal synthetic boot-protocol header buffer.
pub fn synthetic_linux_boot_protocol_header(
    setup_sects: u8,
    version: u16,
    loadflags: u8,
    code32_start: u32,
) -> (r: Vec<u8>)
    ensures
        r@ == synthetic_header_spec(setup_sects, version, loadflags, code32_start),
        r@.len() == 0x220,
        header_error(r@) is None,
        r@[0x1F1] == setup_sects,
        version_of(r@) == version,
        r@[0x211] == loadflags,
        code32_of(r@) == Some(code32_start),
{
    let mut buf: Vec<u8> = vec![0u8; 0x220];
    let (v0, v1) = le16_bytes(version);
    let (c0, c1, c2, c3) = le32_bytes(code32_start);
    buf.set(0x1F1, setup_sects);
    buf.set(0x1FE, 0x55);
    buf.set(0x1FF, 0xAA);
    buf.set(0x202, 0x48);
    buf.set(0x203, 0x64);
    buf.set(0x204, 0x72);
    buf.set(0x205, 0x53);
    buf.set(0x206, v0);
    buf.set(0x207, v1);
    buf.set(0x211, loadflags);
    buf.set(0x214, c0);
    buf.set(0x215, c1);
    buf.set(0x216, c2);
    buf.set(0x217, c3);
    proof {
        let s = synthetic_header_spec(setup_sects, version, loadflags, code32_start);
        assert(seq![v0, v1][0] == v0 && seq![v0, v1][1] == v1);
        assert(seq![c0, c1, c2, c3][0] == c0 && seq![c0, c1, c2, c3][1] == c1);
        assert(seq![c0, c1, c2, c3][2] == c2 && seq![c0, c1, c2, c3][3] == c3);
        assert forall|i: int| 0 <= i < 0x220 implies buf@[i] == s[i] by {
            if 0x202 <= i < 0x206 {
                assert(hdrs_magic()[i - 0x202] == buf@[i]);
            }
        }
        assert(buf@ =~= s);
        assert(buf@.subrange(0x202, 0x206) =~= hdrs_magic());
    }
    buf
}

/// Effective setup sector count (`0` means 4).
pub open spec fn setup_sect_count_spec(setup_sects: u8) -> u8 {
    if setup_sects == 0 {
        4
    } else {
        setup_sects
    }
}

/// Byte length of the real-mode blob: boot sector plus setup sectors.
pub open spec fn realmode_bytes_spec(setup_sects: u8) -> int {
    (setup_sect_count_spec(setup_sects) as int + 1) * 512
}

/// Effective setup sector count per the boot protocol (`0` means 4).
pub fn linux_setup_sect_count(setup_sects: u8) -> (r: u8)
    ensures
        r == setup_sect_count_spec(setup_sects),
{
    if setup_sects == 0 {
        4
    } else {
        setup_sects
    }
}

/// Byte length of the real-mode blob.
pub fn linux_realmode_bytes(setup_sects: u8) -> (r: usize)
    ensures
        r == realmode_bytes_spec(setup_sects),
        1024 <= r <= 256 * 512,
{
    ((linux_setup_sect_count(setup_sects) as usize) + 1) * 512
}

/// Next step after an early bzImage header/setup classify.
#[derive(Clone, Copy, Debug, PartialEq, Eq, Structural)]
pub enum BzImageNextStep {
    /// Protocol older than 2.00.
    UnsupportedOldProtocol { version: u16 },
    /// Protocol 2.02+ but `cmd_line_ptr` is zero.
    NeedCmdlinePtr,
    /// `LOADED_HIGH`, protocol 2.10+, and `init_size` is zero.
    NeedInitSize,
    /// Real-mode setup is loadable; next is to run it.
    RunRealModeSetup,
    /// `LOADED_HIGH`: next is the protected-mode kernel at `code32_start`.
    LoadHighProtectedKernel { code32_start: u32 },
}

impl BzImageNextStep {
    pub open spec fn spec_tag(self) -> Seq<char> {
        match self {
            BzImageNextStep::UnsupportedOldProtocol { .. } => "unsupported-old-protocol"@,
            BzImageNextStep::NeedCmdlinePtr => "need-cmdline-ptr"@,
            BzImageNextStep::NeedInitSize => "need-init-size"@,
            BzImageNextStep::RunRealModeSetup => "run-real-mode-setup"@,
            BzImageNextStep::LoadHighProtectedKernel { .. } => "load-high-protected-kernel"@,
        }
    }

    /// Stable triage tag.
    pub fn tag(&self) -> (r: &'static str)
        ensures
            r@ == self.spec_tag(),
    {
        match self {
            BzImageNextStep::UnsupportedOldProtocol { .. } => "unsupported-old-protocol",
            BzImageNextStep::NeedCmdlinePtr => "need-cmdline-ptr",
            BzImageNextStep::NeedInitSize => "need-init-size",
            BzImageNextStep::RunRealModeSetup => "run-real-mode-setup",
            BzImageNextStep::LoadHighProtectedKernel { .. } => "load-high-protected-kernel",
        }
    }
}

/// Early bzImage triage result.
#[derive(Clone, Copy, Debug, PartialEq, Eq, Structural)]
pub enum BzImageEarlyClass {
    /// Header parse failed.
    BadHeader(LinuxBootProtocolError),
    /// Buffer shorter than the real-mode blob `setup_sects` implies.
    IncompleteSetup { setup_sects: u8, have: usize, need: usize },
    /// Header and setup size are fine; `next` names the next step.
    SetupLoadable {
        setup_sects: u8,
        version: u16,
        loaded_high: bool,
        code32_start: Option<u32>,
        next: BzImageNextStep,
    },
}

impl BzImageEarlyClass {
    pub open spec fn spec_tag(self) -> Seq<char> {
        match self {
            BzImageEarlyClass::BadHeader(_) => "bad-header"@,
            BzImageEarlyClass::IncompleteSetup { .. } => "incomplete-setup"@,
            BzImageEarlyClass::SetupLoadable { .. } => "setup-loadable"@,
        }
    }

    /// Stable triage tag.
    pub fn tag(&self) -> (r: &'static str)
        ensures
            r@ == self.spec_tag(),
    {
        match self {
            BzImageEarlyClass::BadHeader(_) => "bad-header",
            BzImageEarlyClass::IncompleteSetup { .. } => "incomplete-setup",
            BzImageEarlyClass::SetupLoadable { .. } => "setup-loadable",
        }
    }
}

/// Next step named by the early classify of an accepted header.
pub open spec fn early_next_spec(buf: Seq<u8>) -> BzImageNextStep {
    if version_of(buf) < 0x0200 {
        BzImageNextStep::UnsupportedOldProtocol { version: version_of(buf) }
    } else if loaded_high_of(buf) {
        BzImageNextStep::LoadHighProtectedKernel {
            code32_start: match code32_of(buf) {
                Some(c) => c,
                None => 0x0010_0000u32,
            },
        }
    } else {
        BzImageNextStep::RunRealModeSetup
    }
}

/// What [`classify_bzimage_early`] reports for `buf`.
pub open spec fn early_class_spec(buf: Seq<u8>) -> BzImageEarlyClass {
    match header_error(buf) {
        Some(e) => BzImageEarlyClass::BadHeader(e),
        None => {
            let sects = buf[0x1F1];
            if buf.len() < realmode_bytes_spec(sects) {
                BzImageEarlyClass::IncompleteSetup {
                    setup_sects: sects,
                    have: buf.len() as usize,
                    need: realmode_bytes_spec(sects) as usize,
                }
            } else {
                BzImageEarlyClass::SetupLoadable {
                    setup_sects: sects,
                    version: version_of(buf),
                    loaded_high: loaded_high_of(buf),
                    code32_start: code32_of(buf),
                    next: early_next_spec(buf),
                }
            }
        },
    }
}

/// Classify a bzImage (or synthetic header) far enough to name the next gap.
pub fn classify_bzimage_early(buf: &[u8]) -> (r: BzImageEarlyClass)
    ensures
        r == early_class_spec(buf@),
{
    let hdr = match inspect_linux_boot_protocol_header(buf) {
        Ok(h) => h,
        Err(e) => return BzImageEarlyClass::BadHeader(e),
    };
    let need = linux_realmode_bytes(hdr.setup_sects);
    if buf.len() < need {
        return BzImageEarlyClass::IncompleteSetup {
            setup_sects: hdr.setup_sects,
            have: buf.len(),
            need,
        };
    }
    let loaded_high = hdr.loaded_high();
    let next = if hdr.version < 0x0200 {
        BzImageNextStep::UnsupportedOldProtocol { version: hdr.version }
    } else if loaded_high {
        BzImageNextStep::LoadHighProtectedKernel {
            code32_start: match hdr.code32_start {
                Some(c) => c,
                None => 0x0010_0000,
            },
        }
    } else {
        BzImageNextStep::RunRealModeSetup
    };
    BzImageEarlyClass::SetupLoadable {
        setup_sects: hdr.setup_sects,
        version: hdr.version,
        loaded_high,
        code32_start: hdr.code32_start,
        next,
    }
}

/// `cmd_line_ptr` at `0x228`, or 0 when the buffer does not reach it.
pub open spec fn cmdline_ptr_of(buf: Seq<u8>) -> int {
    if buf.len() >= 0x22C {
        le32_at(buf, 0x228)
    } else {
        0
    }
}

/// `init_size` at `0x260`, or 0 when the buffer does not reach it.
pub open spec fn init_size_of(buf: Seq<u8>) -> int {
    if buf.len() >= 0x264 {
        le32_at(buf, 0x260)
    } else {
        0
    }
}

/// The next step refined by protocol 2.02+ `cmd_line_ptr` and 2.10+
/// `init_size`.
pub open spec fn refined_next_spec(buf: Seq<u8>, version: u16, loaded_high: bool, next: BzImageNextStep) -> BzImageNextStep {
    match next {
        BzImageNextStep::RunRealModeSetup => {
            if version >= 0x0202 && cmdline_ptr_of(buf) == 0 {
                BzImageNextStep::NeedCmdlinePtr
            } else {
                next
            }
        },
        BzImageNextStep::LoadHighProtectedKernel { .. } => {
            if version >= 0x020A && loaded_high && init_size_of(buf) == 0 {
                BzImageNextStep::NeedInitSize
            } else {
                next
            }
        },
        _ => next,
    }
}

/// What [`classify_bzimage_setup_deeper`] reports for `buf`.
pub open spec fn deeper_class_spec(buf: Seq<u8>) -> BzImageEarlyClass {
    match early_class_spec(buf) {
        BzImageEarlyClass::SetupLoadable { setup_sects, version, loaded_high, code32_start, next } =>
            BzImageEarlyClass::SetupLoadable {
            setup_sects,
            version,
            loaded_high,
            code32_start,
            next: refined_next_spec(buf, version, loaded_high, next),
        },
        other => other,
    }
}

/// Deepen [`classify_bzimage_early`] with the protocol 2.02+ command-line
/// pointer and the protocol 2.10+ `init_size`.
pub fn classify_bzimage_setup_deeper(buf: &[u8]) -> (r: BzImageEarlyClass)
    ensures
        r == deeper_class_spec(buf@),
{
    let class = classify_bzimage_early(buf);
    match class {
        BzImageEarlyClass::SetupLoadable { setup_sects, version, loaded_high, code32_start, next } => {
            let refined = match next {
                BzImageNextStep::UnsupportedOldProtocol { .. } => next,
                BzImageNextStep::RunRealModeSetup => {
                    if version >= 0x0202 {
                        let cmd: u32 = if buf.len() >= 0x22C {
                            le32_of(buf, 0x228)
                        } else {
                            0
                        };
                        if cmd == 0 {
                            BzImageNextStep::NeedCmdlinePtr
                        } else {
                            next
                        }
                    } else {
                        next
                    }
                },
                BzImageNextStep::LoadHighProtectedKernel { code32_start: c32 } => {
                    if version >= 0x020A && loaded_high {
                        let init_size: u32 = if buf.len() >= 0x264 {
                            le32_of(buf, 0x260)
                        } else {
                            0
                        };
                        if init_size == 0 {
                            BzImageNextStep::NeedInitSize
                        } else {
                            BzImageNextStep::LoadHighProtectedKernel { code32_start: c32 }
                        }
                    } else {
                        next
                    }
                },
                other => other,
            };
            BzImageEarlyClass::SetupLoadable {
                setup_sects,
                version,
                loaded_high,
                code32_start,
                next: refined,
            }
        },
        other => other,
    }
}


impl LinuxBootProtocolError {
    pub open spec fn spec_message(self) -> Seq<char> {
        match self {
            LinuxBootProtocolError::Truncated => "linux-boot-protocol: truncated"@,
            LinuxBootProtocolError::BadBootFlag => "linux-boot-protocol: bad boot_flag"@,
            LinuxBootProtocolError::BadMagic => "linux-boot-protocol: bad HdrS magic"@,
        }
    }

    /// Human-readable description of the error.
    pub fn message(&self) -> (r: &'static str)
        ensures
            r@ == self.spec_message(),
    {
        match self {
            LinuxBootProtocolError::Truncated => "linux-boot-protocol: truncated",
            LinuxBootProtocolError::BadBootFlag => "linux-boot-protocol: bad boot_flag",
            LinuxBootProtocolError::BadMagic => "linux-boot-protocol: bad HdrS magic",
        }
    }
}

impl BzImageNextStep {
    /// The displayed step: the tag, with the protocol version (`0xVVVV`) or
    /// the 32-bit entry (`0xXXXXXXXX`) where the step carries one.
    pub open spec fn spec_display(self) -> Seq<char> {
        match self {
            BzImageNextStep::UnsupportedOldProtocol { version } => "unsupported-old-protocol:"@ + alt_hex(
                version as nat,
                6,
            ),
            BzImageNextStep::LoadHighProtectedKernel { code32_start } => "load-high-protected-kernel:"@
                + alt_hex(code32_start as nat, 10),
            _ => self.spec_tag(),
        }
    }

    /// Render the step as [`Self::spec_display`] describes.
    pub fn to_string(&self) -> (r: String)
        ensures
            r@ == self.spec_display(),
    {
        match self {
            BzImageNextStep::UnsupportedOldProtocol { version } => {
                let mut s = String::from_str("unsupported-old-protocol:");
                push_alt_hex(&mut s, *version as u64, 6);
                s
            },
            BzImageNextStep::LoadHighProtectedKernel { code32_start } => {
                let mut s = String::from_str("load-high-protected-kernel:");
                push_alt_hex(&mut s, *code32_start as u64, 10);
                s
            },
            _ => String::from_str(self.tag()),
        }
    }
}

impl BzImageEarlyClass {
    /// The displayed class: the header error, the setup sizes, or the next
    /// step.
    pub open spec fn spec_display(self) -> Seq<char> {
        match self {
            BzImageEarlyClass::BadHeader(e) => "bad-header:"@ + e.spec_message(),
            BzImageEarlyClass::IncompleteSetup { setup_sects, have, need } => "incomplete-setup:sects="@
                + dec_digits(setup_sects as nat) + " have="@ + dec_digits(have as nat) + " need="@
                + dec_digits(need as nat),
            BzImageEarlyClass::SetupLoadable { next, .. } => "setup-loadable:next="@ + next.spec_display(),
        }
    }

    /// Render the class as [`Self::spec_display`] describes.
    pub fn to_string(&self) -> (r: String)
        ensures
            r@ == self.spec_display(),
    {
        match self {
            BzImageEarlyClass::BadHeader(e) => {
                let mut s = String::from_str("bad-header:");
                s.append(e.message());
                s
            },
            BzImageEarlyClass::IncompleteSetup { setup_sects, have, need } => {
                let mut s = String::from_str("incomplete-setup:sects=");
                push_dec(&mut s, *setup_sects as u64);
                s.append(" have=");
                push_dec(&mut s, *have as u64);
                s.append(" need=");
                push_dec(&mut s, *need as u64);
                s
            },
            BzImageEarlyClass::SetupLoadable { next, .. } => {
                let mut s = String::from_str("setup-loadable:next=");
                let t = next.to_string();
                s.append(t.as_str());
                s
            },
        }
    }
}

} // verus!
