//! Linux-path media triage: El Torito CD candidacy, a peek at the no-emul
//! boot image for a bzImage setup header, the combined CD/bzImage class, and
//! the next actionable gap after a measure.
use vstd::prelude::*;

use crate::el_torito::{
    el_torito_spec, parse_el_torito, ElToritoInfo, EL_TORITO_MEDIA_NO_EMUL,
    EL_TORITO_SECTOR_BYTES,
};
use crate::guest_boot::{opt_view, GuestFirstFailureClass};
use crate::text::{alt_hex, dec_digits, push_alt_hex, push_dec};
use crate::linux_boot::{classify_bzimage_setup_deeper, deeper_class_spec, BzImageEarlyClass};

verus! {

/// El Torito media boot readiness of an attached CD.
#[derive(Clone, Debug, PartialEq, Eq)]
pub enum ElToritoMediaBootClass {
    /// No CD-ROM medium attached.
    NoMedium,
    /// Catalog / ISO parse failed.
    CatalogError(String),
    /// Default entry not bootable (`88h` missing).
    NotBootable,
    /// Floppy/HDD emulation media type.
    UnsupportedEmulation { media_type: u8 },
    /// No-emulation bootable image.
    NoEmulCandidate { load_rba: u32, sector_count: u16, load_segment: u16 },
}

impl ElToritoMediaBootClass {
    pub open spec fn spec_tag(&self) -> Seq<char> {
        match self {
            ElToritoMediaBootClass::NoMedium => "no-medium"@,
            ElToritoMediaBootClass::CatalogError(_) => "catalog-error"@,
            ElToritoMediaBootClass::NotBootable => "not-bootable"@,
            ElToritoMediaBootClass::UnsupportedEmulation { .. } => "unsupported-emulation"@,
            ElToritoMediaBootClass::NoEmulCandidate { .. } => "no-emul-candidate"@,
        }
    }

    /// Stable triage tag.
    pub fn tag(&self) -> (r: &'static str)
        ensures
            r@ == self.spec_tag(),
    {
        match self {
            ElToritoMediaBootClass::NoMedium => "no-medium",
            ElToritoMediaBootClass::CatalogError(_) => "catalog-error",
            ElToritoMediaBootClass::NotBootable => "not-bootable",
            ElToritoMediaBootClass::UnsupportedEmulation { .. } => "unsupported-emulation",
            ElToritoMediaBootClass::NoEmulCandidate { .. } => "no-emul-candidate",
        }
    }

    /// True when a no-emul boot image is present.
    pub fn is_boot_candidate(&self) -> (r: bool)
        ensures
            r == (self is NoEmulCandidate),
    {
        matches!(self, ElToritoMediaBootClass::NoEmulCandidate { .. })
    }
}

/// `r` is the media class of an attached CD image `cd` (`None`: no medium).
pub open spec fn media_class_matches(cd: Option<Seq<u8>>, r: ElToritoMediaBootClass) -> bool {
    match cd {
        None => r == ElToritoMediaBootClass::NoMedium,
        Some(img) => match el_torito_spec(img) {
            Err(e) => r is CatalogError && r->0@ == e.spec_message(),
            Ok(info) => if !info.bootable {
                r == ElToritoMediaBootClass::NotBootable
            } else if info.media_type != EL_TORITO_MEDIA_NO_EMUL {
                r == (ElToritoMediaBootClass::UnsupportedEmulation { media_type: info.media_type })
            } else {
                r == (ElToritoMediaBootClass::NoEmulCandidate {
                    load_rba: info.load_rba,
                    sector_count: info.sector_count,
                    load_segment: info.spec_effective_load_segment(),
                })
            },
        },
    }
}

/// The no-emul candidate entry of `cd`, when it has one.
pub open spec fn no_emul_candidate(cd: Option<Seq<u8>>) -> Option<ElToritoInfo> {
    match cd {
        None => None,
        Some(img) => match el_torito_spec(img) {
            Ok(info) => if info.bootable && info.media_type == EL_TORITO_MEDIA_NO_EMUL {
                Some(info)
            } else {
                None
            },
            Err(_) => None,
        },
    }
}

/// Classify an attached CD image for El Torito boot candidacy (`None`: no
/// CD-ROM medium).
pub fn classify_eltorito_media_boot(cd_image: Option<&[u8]>) -> (r: ElToritoMediaBootClass)
    ensures
        media_class_matches(opt_view(cd_image), r),
        (r is NoEmulCandidate) == (no_emul_candidate(opt_view(cd_image)) is Some),
{
    let img = match cd_image {
        None => return ElToritoMediaBootClass::NoMedium,
        Some(i) => i,
    };
    match parse_el_torito(img) {
        Err(e) => ElToritoMediaBootClass::CatalogError(String::from_str(e.message())),
        Ok(info) => {
            if !info.bootable {
                ElToritoMediaBootClass::NotBootable
            } else if info.media_type != EL_TORITO_MEDIA_NO_EMUL {
                ElToritoMediaBootClass::UnsupportedEmulation { media_type: info.media_type }
            } else {
                ElToritoMediaBootClass::NoEmulCandidate {
                    load_rba: info.load_rba,
                    sector_count: info.sector_count,
                    load_segment: info.effective_load_segment(),
                }
            }
        },
    }
}

/// El Torito catalog class plus a peek at the no-emul boot image.
#[derive(Clone, Debug, PartialEq, Eq)]
pub enum ElToritoPayloadClass {
    /// Catalog / medium class (no no-emul image to peek at).
    Media(ElToritoMediaBootClass),
    /// No-emul boot image without a loadable bzImage setup header.
    NoEmulHltStub { load_rba: u32, sector_count: u16, load_segment: u16 },
    /// No-emul boot image that is a loadable Linux setup.
    NoEmulBzImage {
        load_rba: u32,
        sector_count: u16,
        load_segment: u16,
        bzimage: BzImageEarlyClass,
    },
}

impl ElToritoPayloadClass {
    pub open spec fn spec_tag(&self) -> Seq<char> {
        match self {
            ElToritoPayloadClass::Media(_) => "media"@,
            ElToritoPayloadClass::NoEmulHltStub { .. } => "no-emul-hlt-stub"@,
            ElToritoPayloadClass::NoEmulBzImage { .. } => "no-emul-bzimage"@,
        }
    }

    /// Stable triage tag.
    pub fn tag(&self) -> (r: &'static str)
        ensures
            r@ == self.spec_tag(),
    {
        match self {
            ElToritoPayloadClass::Media(_) => "media",
            ElToritoPayloadClass::NoEmulHltStub { .. } => "no-emul-hlt-stub",
            ElToritoPayloadClass::NoEmulBzImage { .. } => "no-emul-bzimage",
        }
    }

    /// True when the boot image is a loadable bzImage setup.
    pub fn is_bzimage_candidate(&self) -> (r: bool)
        ensures
            r == (self is NoEmulBzImage && self->bzimage is SetupLoadable),
    {
        match self {
            ElToritoPayloadClass::NoEmulBzImage { bzimage, .. } => matches!(
                bzimage,
                BzImageEarlyClass::SetupLoadable { .. }
            ),
            _ => false,
        }
    }
}

/// `r` is the payload class of an attached CD image `cd`: without a no-emul
/// candidate, the media class; with one, its boot image (`sector_count` x 512
/// bytes from sector `load_rba`) is a bzImage setup, an HLT stub, or past the
/// end of the image.
pub open spec fn payload_class_matches(cd: Option<Seq<u8>>, r: ElToritoPayloadClass) -> bool {
    match no_emul_candidate(cd) {
        None => r is Media && media_class_matches(cd, r->Media_0),
        Some(info) => {
            let img = cd.unwrap();
            let rba = info.load_rba;
            let cnt = info.sector_count;
            let seg = info.spec_effective_load_segment();
            let off = rba as int * 2048;
            let end = off + cnt as int * 512;
            if cnt == 0 {
                r == (ElToritoPayloadClass::NoEmulHltStub {
                    load_rba: rba,
                    sector_count: cnt,
                    load_segment: seg,
                })
            } else if end > img.len() {
                r is Media && r->Media_0 is CatalogError && r->Media_0->CatalogError_0@
                    == "boot image truncated"@
            } else {
                let bz = deeper_class_spec(img.subrange(off, end));
                if bz is SetupLoadable {
                    r == (ElToritoPayloadClass::NoEmulBzImage {
                        load_rba: rba,
                        sector_count: cnt,
                        load_segment: seg,
                        bzimage: bz,
                    })
                } else {
                    r == (ElToritoPayloadClass::NoEmulHltStub {
                        load_rba: rba,
                        sector_count: cnt,
                        load_segment: seg,
                    })
                }
            }
        },
    }
}

/// Classify El Torito candidacy and peek at the no-emul boot image payload.
pub fn classify_eltorito_boot_payload(cd_image: Option<&[u8]>) -> (r: ElToritoPayloadClass)
    ensures
        payload_class_matches(opt_view(cd_image), r),
{
    let img = match cd_image {
        None => return ElToritoPayloadClass::Media(ElToritoMediaBootClass::NoMedium),
        Some(i) => i,
    };
    let info = match parse_el_torito(img) {
        Err(e) => {
            return ElToritoPayloadClass::Media(
                ElToritoMediaBootClass::CatalogError(String::from_str(e.message())),
            )
        },
        Ok(info) => info,
    };
    if !info.bootable {
        return ElToritoPayloadClass::Media(ElToritoMediaBootClass::NotBootable);
    }
    if info.media_type != EL_TORITO_MEDIA_NO_EMUL {
        return ElToritoPayloadClass::Media(
            ElToritoMediaBootClass::UnsupportedEmulation { media_type: info.media_type },
        );
    }
    let load_rba = info.load_rba;
    let sector_count = info.sector_count;
    let load_segment = info.effective_load_segment();
    if sector_count == 0 {
        return ElToritoPayloadClass::NoEmulHltStub { load_rba, sector_count, load_segment };
    }
    let src_off: u64 = (load_rba as u64) * (EL_TORITO_SECTOR_BYTES as u64);
    let src_end: u64 = src_off + (sector_count as u64) * 512;
    if src_end > img.len() as u64 {
        return ElToritoPayloadClass::Media(
            ElToritoMediaBootClass::CatalogError(String::from_str("boot image truncated")),
        );
    }
    let boot = &img[src_off as usize..src_end as usize];
    let bz = classify_bzimage_setup_deeper(boot);
    if matches!(bz, BzImageEarlyClass::SetupLoadable { .. }) {
        return ElToritoPayloadClass::NoEmulBzImage {
            load_rba,
            sector_count,
            load_segment,
            bzimage: bz,
        };
    }
    ElToritoPayloadClass::NoEmulHltStub { load_rba, sector_count, load_segment }
}

/// Combined Linux / El Torito media boot readiness.
#[derive(Clone, Debug, PartialEq, Eq)]
pub enum LinuxMediaBootClass {
    /// No CD and no bzImage buffer.
    NoMedia,
    /// Attached CD class.
    ElTorito(ElToritoMediaBootClass),
    /// bzImage buffer class (setup deepen).
    BzImage(BzImageEarlyClass),
    /// Attached CD and a bzImage buffer, each classified.
    ElToritoPlusBzImage { eltorito: ElToritoMediaBootClass, bzimage: BzImageEarlyClass },
}

impl LinuxMediaBootClass {
    pub open spec fn spec_tag(&self) -> Seq<char> {
        match self {
            LinuxMediaBootClass::NoMedia => "no-media"@,
            LinuxMediaBootClass::ElTorito(_) => "eltorito"@,
            LinuxMediaBootClass::BzImage(_) => "bzimage"@,
            LinuxMediaBootClass::ElToritoPlusBzImage { .. } => "eltorito-plus-bzimage"@,
        }
    }

    pub open spec fn spec_is_boot_candidate(&self) -> bool {
        match self {
            LinuxMediaBootClass::NoMedia => false,
            LinuxMediaBootClass::ElTorito(e) => e is NoEmulCandidate,
            LinuxMediaBootClass::BzImage(b) => b is SetupLoadable,
            LinuxMediaBootClass::ElToritoPlusBzImage { eltorito, bzimage } => eltorito is NoEmulCandidate
                || bzimage is SetupLoadable,
        }
    }

    /// Stable triage tag.
    pub fn tag(&self) -> (r: &'static str)
        ensures
            r@ == self.spec_tag(),
    {
        match self {
            LinuxMediaBootClass::NoMedia => "no-media",
            LinuxMediaBootClass::ElTorito(_) => "eltorito",
            LinuxMediaBootClass::BzImage(_) => "bzimage",
            LinuxMediaBootClass::ElToritoPlusBzImage { .. } => "eltorito-plus-bzimage",
        }
    }

    /// True when the CD is a no-emul candidate and/or the bzImage setup is
    /// loadable.
    pub fn is_boot_candidate(&self) -> (r: bool)
        ensures
            r == self.spec_is_boot_candidate(),
    {
        match self {
            LinuxMediaBootClass::NoMedia => false,
            LinuxMediaBootClass::ElTorito(e) => e.is_boot_candidate(),
            LinuxMediaBootClass::BzImage(b) => matches!(b, BzImageEarlyClass::SetupLoadable { .. }),
            LinuxMediaBootClass::ElToritoPlusBzImage { eltorito, bzimage } => {
                eltorito.is_boot_candidate() || matches!(
                    bzimage,
                    BzImageEarlyClass::SetupLoadable { .. }
                )
            },
        }
    }
}

/// `r` is the Linux media class of an optional CD image and an optional
/// bzImage buffer.
pub open spec fn linux_media_matches(cd: Option<Seq<u8>>, bz: Option<Seq<u8>>, r: LinuxMediaBootClass) -> bool {
    match (cd, bz) {
        (None, None) => r == LinuxMediaBootClass::NoMedia,
        (Some(_), None) => r is ElTorito && media_class_matches(cd, r->ElTorito_0),
        (None, Some(b)) => r == LinuxMediaBootClass::BzImage(deeper_class_spec(b)),
        (Some(_), Some(b)) => r is ElToritoPlusBzImage && media_class_matches(cd, r->eltorito)
            && r->bzimage == deeper_class_spec(b),
    }
}

/// Classify Linux-path media: an optional attached CD image and/or bzImage
/// bytes.
pub fn classify_linux_media_boot(cd_image: Option<&[u8]>, bzimage: Option<&[u8]>) -> (r: LinuxMediaBootClass)
    ensures
        linux_media_matches(opt_view(cd_image), opt_view(bzimage), r),
{
    let cd = match cd_image {
        Some(_) => Some(classify_eltorito_media_boot(cd_image)),
        None => None,
    };
    let bz = match bzimage {
        Some(b) => Some(classify_bzimage_setup_deeper(b)),
        None => None,
    };
    match (cd, bz) {
        (None, None) => LinuxMediaBootClass::NoMedia,
        (Some(e), None) => LinuxMediaBootClass::ElTorito(e),
        (None, Some(b)) => LinuxMediaBootClass::BzImage(b),
        (Some(e), Some(b)) => LinuxMediaBootClass::ElToritoPlusBzImage { eltorito: e, bzimage: b },
    }
}

/// Next actionable gap on the Linux serial/media path.
#[derive(Clone, Copy, Debug, PartialEq, Eq, Structural)]
pub enum LinuxNextGap {
    /// A non-halt first failure already names the gap.
    SeeFirstFailure,
    /// El Torito / serial stub halted; next is real bzImage setup.
    SyntheticMediaHalt,
    /// Real-mode setup loaded but `CS:IP` not armed at its entry.
    SetupLoadedMissingEntry,
    /// Setup entry executed; next is the protected-mode kernel.
    SetupExecutedMissingProtectedKernel,
    /// A real bzImage and firmware path are needed.
    RealKernelAndFirmware,
}

impl LinuxNextGap {
    pub open spec fn spec_tag(self) -> Seq<char> {
        match self {
            LinuxNextGap::SeeFirstFailure => "see-first-failure"@,
            LinuxNextGap::SyntheticMediaHalt => "synthetic-media-halt"@,
            LinuxNextGap::SetupLoadedMissingEntry => "setup-loaded-missing-entry"@,
            LinuxNextGap::SetupExecutedMissingProtectedKernel => "setup-executed-missing-protected-kernel"@,
            LinuxNextGap::RealKernelAndFirmware => "real-kernel-and-firmware"@,
        }
    }

    pub open spec fn spec_host_note(self) -> Seq<char> {
        match self {
            LinuxNextGap::SeeFirstFailure => "Next gap: see first-failure class (non-halt stop)"@,
            LinuxNextGap::SyntheticMediaHalt =>
                "Next gap: synthetic El Torito/serial halt — need bzImage setup entry; NOT a serial shell"@,
            LinuxNextGap::SetupLoadedMissingEntry =>
                "Next gap: real-mode setup loaded but CS:IP not at entry 0x200; NOT a serial shell"@,
            LinuxNextGap::SetupExecutedMissingProtectedKernel =>
                "Next gap: real-mode setup entry executed (synthetic) — missing protected kernel/jump; NOT a serial shell"@,
            LinuxNextGap::RealKernelAndFirmware =>
                "Next gap: real bzImage + SeaBIOS/firmware path (fixture is not progress)"@,
        }
    }

    /// Stable triage tag.
    pub fn tag(&self) -> (r: &'static str)
        ensures
            r@ == self.spec_tag(),
    {
        match self {
            LinuxNextGap::SeeFirstFailure => "see-first-failure",
            LinuxNextGap::SyntheticMediaHalt => "synthetic-media-halt",
            LinuxNextGap::SetupLoadedMissingEntry => "setup-loaded-missing-entry",
            LinuxNextGap::SetupExecutedMissingProtectedKernel => "setup-executed-missing-protected-kernel",
            LinuxNextGap::RealKernelAndFirmware => "real-kernel-and-firmware",
        }
    }

    /// Report sentence for this gap.
    pub fn host_note(&self) -> (r: &'static str)
        ensures
            r@ == self.spec_host_note(),
    {
        match self {
            LinuxNextGap::SeeFirstFailure => "Next gap: see first-failure class (non-halt stop)",
            LinuxNextGap::SyntheticMediaHalt =>
                "Next gap: synthetic El Torito/serial halt — need bzImage setup entry; NOT a serial shell",
            LinuxNextGap::SetupLoadedMissingEntry =>
                "Next gap: real-mode setup loaded but CS:IP not at entry 0x200; NOT a serial shell",
            LinuxNextGap::SetupExecutedMissingProtectedKernel =>
                "Next gap: real-mode setup entry executed (synthetic) — missing protected kernel/jump; NOT a serial shell",
            LinuxNextGap::RealKernelAndFirmware =>
                "Next gap: real bzImage + SeaBIOS/firmware path (fixture is not progress)",
        }
    }
}

/// Whether the media class carries a loadable bzImage setup.
pub open spec fn media_has_loadable_setup(media: LinuxMediaBootClass) -> bool {
    match media {
        LinuxMediaBootClass::BzImage(b) => b is SetupLoadable,
        LinuxMediaBootClass::ElToritoPlusBzImage { bzimage, .. } => bzimage is SetupLoadable,
        _ => false,
    }
}

/// The Linux next gap: a non-halt first failure names itself; an armed
/// setup entry leaves the protected-mode kernel; a loadable setup that was
/// not armed leaves the entry; other boot-candidate media leave the setup.
pub open spec fn linux_next_gap_spec(first_failure: GuestFirstFailureClass, media: LinuxMediaBootClass, setup_entry_armed: bool) -> LinuxNextGap {
    if first_failure != GuestFirstFailureClass::SyntheticHalt {
        LinuxNextGap::SeeFirstFailure
    } else if setup_entry_armed {
        LinuxNextGap::SetupExecutedMissingProtectedKernel
    } else if media_has_loadable_setup(media) {
        LinuxNextGap::SetupLoadedMissingEntry
    } else if media.spec_is_boot_candidate() {
        LinuxNextGap::SyntheticMediaHalt
    } else {
        LinuxNextGap::RealKernelAndFirmware
    }
}

/// Classify the Linux-path next gap after a measure.
pub fn classify_linux_next_gap(
    first_failure: &GuestFirstFailureClass,
    media: &LinuxMediaBootClass,
    setup_entry_armed: bool,
) -> (r: LinuxNextGap)
    ensures
        r == linux_next_gap_spec(*first_failure, *media, setup_entry_armed),
{
    if !matches!(first_failure, GuestFirstFailureClass::SyntheticHalt) {
        return LinuxNextGap::SeeFirstFailure;
    }
    if setup_entry_armed {
        return LinuxNextGap::SetupExecutedMissingProtectedKernel;
    }
    let loadable = match media {
        LinuxMediaBootClass::BzImage(b) => matches!(b, BzImageEarlyClass::SetupLoadable { .. }),
        LinuxMediaBootClass::ElToritoPlusBzImage { bzimage, .. } => matches!(
            bzimage,
            BzImageEarlyClass::SetupLoadable { .. }
        ),
        _ => false,
    };
    if loadable {
        return LinuxNextGap::SetupLoadedMissingEntry;
    }
    if media.is_boot_candidate() {
        return LinuxNextGap::SyntheticMediaHalt;
    }
    LinuxNextGap::RealKernelAndFirmware
}


impl ElToritoMediaBootClass {
    /// The displayed class: the tag, with the catalog error text, the media
    /// type (`0xTT`) or the no-emul entry (`rba=`, `sectors=`, `seg=0xSSSS`).
    pub open spec fn spec_display(&self) -> Seq<char> {
        match self {
            ElToritoMediaBootClass::CatalogError(e) => "catalog-error:"@ + e@,
            ElToritoMediaBootClass::UnsupportedEmulation { media_type } => "unsupported-emulation:"@
                + alt_hex(*media_type as nat, 4),
            ElToritoMediaBootClass::NoEmulCandidate { load_rba, sector_count, load_segment } => no_emul_text(
                "no-emul-candidate"@,
                *load_rba,
                *sector_count,
                *load_segment,
            ),
            _ => self.spec_tag(),
        }
    }

    /// Render the class as [`Self::spec_display`] describes.
    pub fn to_string(&self) -> (r: String)
        ensures
            r@ == self.spec_display(),
    {
        match self {
            ElToritoMediaBootClass::CatalogError(e) => {
                let mut s = String::from_str("catalog-error:");
                s.append(e.as_str());
                s
            },
            ElToritoMediaBootClass::UnsupportedEmulation { media_type } => {
                let mut s = String::from_str("unsupported-emulation:");
                push_alt_hex(&mut s, *media_type as u64, 4);
                s
            },
            ElToritoMediaBootClass::NoEmulCandidate { load_rba, sector_count, load_segment } => {
                let mut s = String::from_str("no-emul-candidate");
                push_no_emul_fields(&mut s, *load_rba, *sector_count, *load_segment);
                s
            },
            _ => String::from_str(self.tag()),
        }
    }
}

/// `tag:rba=R sectors=N seg=0xSSSS`.
pub open spec fn no_emul_text(tag: Seq<char>, load_rba: u32, sector_count: u16, load_segment: u16) -> Seq<char> {
    tag + ":rba="@ + dec_digits(load_rba as nat) + " sectors="@ + dec_digits(sector_count as nat)
        + " seg="@ + alt_hex(load_segment as nat, 6)
}

fn push_no_emul_fields(s: &mut String, load_rba: u32, sector_count: u16, load_segment: u16)
    ensures
        final(s)@ == no_emul_text(old(s)@, load_rba, sector_count, load_segment),
{
    s.append(":rba=");
    push_dec(s, load_rba as u64);
    s.append(" sectors=");
    push_dec(s, sector_count as u64);
    s.append(" seg=");
    push_alt_hex(s, load_segment as u64, 6);
}

impl ElToritoPayloadClass {
    /// The displayed class: `media:` and the media class, or the no-emul
    /// entry, with the bzImage class for a loadable setup.
    pub open spec fn spec_display(&self) -> Seq<char> {
        match self {
            ElToritoPayloadClass::Media(m) => "media:"@ + m.spec_display(),
            ElToritoPayloadClass::NoEmulHltStub { load_rba, sector_count, load_segment } => no_emul_text(
                "no-emul-hlt-stub"@,
                *load_rba,
                *sector_count,
                *load_segment,
            ),
            ElToritoPayloadClass::NoEmulBzImage { load_rba, sector_count, load_segment, bzimage } =>
                no_emul_text("no-emul-bzimage"@, *load_rba, *sector_count, *load_segment) + " bz="@
                + bzimage.spec_display(),
        }
    }

    /// Render the class as [`Self::spec_display`] describes.
    pub fn to_string(&self) -> (r: String)
        ensures
            r@ == self.spec_display(),
    {
        match self {
            ElToritoPayloadClass::Media(m) => {
                let mut s = String::from_str("media:");
                let t = m.to_string();
                s.append(t.as_str());
                s
            },
            ElToritoPayloadClass::NoEmulHltStub { load_rba, sector_count, load_segment } => {
                let mut s = String::from_str("no-emul-hlt-stub");
                push_no_emul_fields(&mut s, *load_rba, *sector_count, *load_segment);
                s
            },
            ElToritoPayloadClass::NoEmulBzImage { load_rba, sector_count, load_segment, bzimage } => {
                let mut s = String::from_str("no-emul-bzimage");
                push_no_emul_fields(&mut s, *load_rba, *sector_count, *load_segment);
                s.append(" bz=");
                let t = bzimage.to_string();
                s.append(t.as_str());
                s
            },
        }
    }
}

impl LinuxMediaBootClass {
    /// The displayed class: `no-media`, or each attached medium's class.
    pub open spec fn spec_display(&self) -> Seq<char> {
        match self {
            LinuxMediaBootClass::NoMedia => "no-media"@,
            LinuxMediaBootClass::ElTorito(e) => "eltorito:"@ + e.spec_display(),
            LinuxMediaBootClass::BzImage(b) => "bzimage:"@ + b.spec_display(),
            LinuxMediaBootClass::ElToritoPlusBzImage { eltorito, bzimage } => "eltorito-plus-bzimage:cd="@
                + eltorito.spec_display() + " bz="@ + bzimage.spec_display(),
        }
    }

    /// Render the class as [`Self::spec_display`] describes.
    pub fn to_string(&self) -> (r: String)
        ensures
            r@ == self.spec_display(),
    {
        match self {
            LinuxMediaBootClass::NoMedia => String::from_str("no-media"),
            LinuxMediaBootClass::ElTorito(e) => {
                let mut s = String::from_str("eltorito:");
                let t = e.to_string();
                s.append(t.as_str());
                s
            },
            LinuxMediaBootClass::BzImage(b) => {
                let mut s = String::from_str("bzimage:");
                let t = b.to_string();
                s.append(t.as_str());
                s
            },
            LinuxMediaBootClass::ElToritoPlusBzImage { eltorito, bzimage } => {
                let mut s = String::from_str("eltorito-plus-bzimage:cd=");
                let t = eltorito.to_string();
                s.append(t.as_str());
                s.append(" bz=");
                let u = bzimage.to_string();
                s.append(u.as_str());
                s
            },
        }
    }
}

} // verus!
