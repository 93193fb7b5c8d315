use machine_pc::boot_load::MachineError;
use machine_pc::boot_media::Int19BootMediaClass;
use machine_pc::el_torito::ElToritoError;
use machine_pc::firmware::{BiosRomError, OptionRomError};
use machine_pc::guest_boot::{GuestFailureSite, GuestFirstFailureClass};
use machine_pc::guest_load::BzImageLoadError;
use machine_pc::linux_boot::{BzImageEarlyClass, BzImageNextStep, LinuxBootProtocolError};
use machine_pc::linux_media::{ElToritoMediaBootClass, ElToritoPayloadClass, LinuxMediaBootClass};

#[test]
fn int19_class_display() {
    let c = Int19BootMediaClass::HdActivePartition { part_lba: 1, part_type: 0x01 };
    assert_eq!(c.to_string(), "hd-active-partition:lba=1 type=0x01");
    assert_eq!(Int19BootMediaClass::FloppyBootSector.to_string(), "floppy-boot-sector");
}

#[test]
fn first_failure_display() {
    assert_eq!(
        GuestFirstFailureClass::UnsupportedOpcode { opcode: 0x0F }.to_string(),
        "unsupported-opcode:0x0F"
    );
    assert_eq!(GuestFirstFailureClass::MemoryFault { addr: 0xB8000 }.to_string(), "memory-fault:0xb8000");
    assert_eq!(GuestFirstFailureClass::ArchFault { vector: 13 }.to_string(), "arch-fault:vec=13");
    assert_eq!(GuestFirstFailureClass::UnclaimedIo { port: 0x3F8 }.to_string(), "unclaimed-io:0x03F8");
    assert_eq!(GuestFirstFailureClass::UnmappedMmio { page: 0 }.to_string(), "unmapped-mmio:0x0");
    assert_eq!(GuestFirstFailureClass::Int13Cf { ah: 0x80 }.to_string(), "int13-cf:AH=80");
    assert_eq!(GuestFirstFailureClass::SyntheticHalt.to_string(), "synthetic-halt");
}

#[test]
fn failure_site_display() {
    assert_eq!(GuestFailureSite { cs: 0xF000, eip: 0xFFF0 }.to_string(), "F000:0000FFF0");
}

#[test]
fn bzimage_classes_display() {
    assert_eq!(
        BzImageNextStep::UnsupportedOldProtocol { version: 0x01FF }.to_string(),
        "unsupported-old-protocol:0x01ff"
    );
    assert_eq!(
        BzImageNextStep::LoadHighProtectedKernel { code32_start: 0x0010_0000 }.to_string(),
        "load-high-protected-kernel:0x00100000"
    );
    assert_eq!(
        BzImageEarlyClass::BadHeader(LinuxBootProtocolError::BadMagic).to_string(),
        "bad-header:linux-boot-protocol: bad HdrS magic"
    );
    assert_eq!(
        BzImageEarlyClass::IncompleteSetup { setup_sects: 4, have: 600, need: 2560 }.to_string(),
        "incomplete-setup:sects=4 have=600 need=2560"
    );
    let loadable = BzImageEarlyClass::SetupLoadable {
        setup_sects: 1,
        version: 0x0200,
        loaded_high: false,
        code32_start: Some(0),
        next: BzImageNextStep::RunRealModeSetup,
    };
    assert_eq!(loadable.to_string(), "setup-loadable:next=run-real-mode-setup");
    assert_eq!(
        BzImageLoadError::IncompleteSetup { have: 10, need: 1024 }.to_string(),
        "bzImage load: incomplete setup have=10 need=1024"
    );
    assert_eq!(
        BzImageLoadError::Classify(LinuxBootProtocolError::Truncated).to_string(),
        "bzImage load: linux-boot-protocol: truncated"
    );
}

#[test]
fn eltorito_classes_display() {
    let cand = ElToritoMediaBootClass::NoEmulCandidate { load_rba: 24, sector_count: 4, load_segment: 0x07C0 };
    assert_eq!(cand.to_string(), "no-emul-candidate:rba=24 sectors=4 seg=0x07c0");
    assert_eq!(
        ElToritoMediaBootClass::UnsupportedEmulation { media_type: 2 }.to_string(),
        "unsupported-emulation:0x02"
    );
    assert_eq!(
        ElToritoMediaBootClass::CatalogError(String::from("El Torito Boot Catalog truncated")).to_string(),
        "catalog-error:El Torito Boot Catalog truncated"
    );
    let stub = ElToritoPayloadClass::NoEmulHltStub { load_rba: 24, sector_count: 4, load_segment: 0x07C0 };
    assert_eq!(stub.to_string(), "no-emul-hlt-stub:rba=24 sectors=4 seg=0x07c0");
    let media = ElToritoPayloadClass::Media(ElToritoMediaBootClass::NoMedium);
    assert_eq!(media.to_string(), "media:no-medium");
    let both = LinuxMediaBootClass::ElToritoPlusBzImage {
        eltorito: cand,
        bzimage: BzImageEarlyClass::BadHeader(LinuxBootProtocolError::BadBootFlag),
    };
    assert_eq!(
        both.to_string(),
        "eltorito-plus-bzimage:cd=no-emul-candidate:rba=24 sectors=4 seg=0x07c0 bz=bad-header:linux-boot-protocol: bad boot_flag"
    );
    assert_eq!(LinuxMediaBootClass::NoMedia.to_string(), "no-media");
}

#[test]
fn error_messages() {
    assert_eq!(BiosRomError::TooLarge.message(), "BIOS ROM image exceeds 262144 bytes");
    assert_eq!(OptionRomError::OutsideRegion.message(), "option ROM does not fit in 0xC0000-0xDFFFF");
    assert_eq!(OptionRomError::Misaligned.message(), "option ROM base is not 2048-byte aligned");
    assert_eq!(MachineError::InvalidMbrSignature.message(), "invalid MBR signature (expected 0x55AA)");
    assert_eq!(MachineError::BiosRom(BiosRomError::Empty).message(), "BIOS ROM image is empty");
    assert_eq!(
        MachineError::ElTorito(ElToritoError::NoBootRecord).message(),
        "no El Torito Boot Record Volume Descriptor"
    );
}
