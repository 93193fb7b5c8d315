//! PC firmware placement, boot-media parsing and physical-memory decode for an
//! x86 PC machine model.
pub mod bytes;
pub mod firmware;
pub mod el_torito;
pub mod mem;
pub mod mbr;
pub mod boot_media;
pub mod fat12;
pub mod hello_rom;
pub mod int13;
pub mod int13_disk;
pub mod int13_floppy;
pub mod ivt;
pub mod boot_load;
pub mod rom_load;
pub mod int16;
pub mod int10;
pub mod int15_mem;
pub mod int15_apm;
pub mod cmos_equipment;
pub mod linux_boot;
pub mod post_report;
pub mod guest_boot;
pub mod linux_media;
pub mod guest_images;
pub mod guest_load;
pub mod text;
pub mod cli;
pub mod bda_kbd;
pub mod bda_timer;
pub mod vga_frame;
