//! Command-line options of the emulator runner: argument parsing, the usage
//! text, the option-ROM header report, the guest-boot media policy, and the
//! textual forms of the runner's reports and errors.
use vstd::prelude::*;

use crate::bytes::{checksum8, checksum_of};
use crate::firmware::{option_rom_declared_len, option_rom_error, OptionRomError};
use crate::guest_boot::GuestBootMedia;
use crate::hello_rom::EXPECTED_HELLO;
use crate::mem::PhysMem;
use crate::post_report::{
    PostSpinConfig, PostTraceConfig, DEFAULT_POST_SPIN_WINDOW, DEFAULT_POST_TRACE_CAPACITY,
};
use crate::text::{
    dec_digits, hex_min, is_ws, parse_uint, parse_uint_spec, push_char, push_dec, push_hex, str_eq,
    trim, trim_bounds, trim_end,
};

verus! {

/// Default instruction budget when `--steps` is omitted.
pub const DEFAULT_MAX_STEPS: u64 = 100_000;

/// Default physical base for `--option-rom` (the video option ROM region).
pub const DEFAULT_OPTION_ROM_BASE: u64 = 0x000C_0000;

/// Option ROM size granularity: the header's block count counts 512 bytes.
pub const OPTION_ROM_BLOCK_BYTES: usize = 512;

/// Columns of the VGA text screen.
pub const VGA_TEXT_COLS: usize = 80;

/// Rows of the VGA text screen.
pub const VGA_TEXT_ROWS: usize = 25;

/// Parsed CLI options.
#[derive(Clone, Debug, PartialEq, Eq)]
pub struct Options {
    /// Lab / HELLO ROM path (high map only).
    pub rom_path: Option<String>,
    /// Legacy BIOS path (dual map).
    pub bios_path: Option<String>,
    /// Instruction budget.
    pub max_steps: u64,
    /// Run the POST first-contact diagnostic.
    pub post_probe: bool,
    /// Bounded POST event trace; implies `post_probe` when set by its flag.
    pub post_trace: Option<PostTraceConfig>,
    /// Spin-summary window; `None` disables it.
    pub post_spin: Option<PostSpinConfig>,
    /// Dump the VGA text buffer after the run.
    pub vga_text: bool,
    /// Render the display and report the frame.
    pub vga_frame: bool,
    /// Option ROM image to map.
    pub option_rom_path: Option<String>,
    /// Physical base of the option ROM.
    pub option_rom_base: u64,
    /// Raw IDE disk image.
    pub ide_image: Option<String>,
    /// Raw 1.44 MB floppy image.
    pub floppy_image: Option<String>,
    /// Raw ATAPI / ISO CD-ROM image.
    pub cdrom_image: Option<String>,
    /// Measure-first guest boot.
    pub guest_measure: bool,
    /// With `guest_measure`, prefer the floppy.
    pub guest_floppy_first: bool,
    /// With `guest_measure`, use the El Torito handoff.
    pub guest_eltorito: bool,
    /// FreeDOS-like measure harness.
    pub guest_freedos_measure: bool,
    /// Linux serial-path measure harness.
    pub guest_linux_serial_measure: bool,
}

/// The options as mathematical values (paths as character sequences).
pub struct OptionsModel {
    pub rom_path: Option<Seq<char>>,
    pub bios_path: Option<Seq<char>>,
    pub max_steps: u64,
    pub post_probe: bool,
    pub post_trace: Option<PostTraceConfig>,
    pub post_spin: Option<PostSpinConfig>,
    pub vga_text: bool,
    pub vga_frame: bool,
    pub option_rom_path: Option<Seq<char>>,
    pub option_rom_base: u64,
    pub ide_image: Option<Seq<char>>,
    pub floppy_image: Option<Seq<char>>,
    pub cdrom_image: Option<Seq<char>>,
    pub guest_measure: bool,
    pub guest_floppy_first: bool,
    pub guest_eltorito: bool,
    pub guest_freedos_measure: bool,
    pub guest_linux_serial_measure: bool,
}

/// View of an optional string.
pub open spec fn opt_string(o: Option<String>) -> Option<Seq<char>> {
    match o {
        Some(s) => Some(s@),
        None => None,
    }
}

impl View for Options {
    type V = OptionsModel;

    open spec fn view(&self) -> OptionsModel {
        OptionsModel {
            rom_path: opt_string(self.rom_path),
            bios_path: opt_string(self.bios_path),
            max_steps: self.max_steps,
            post_probe: self.post_probe,
            post_trace: self.post_trace,
            post_spin: self.post_spin,
            vga_text: self.vga_text,
            vga_frame: self.vga_frame,
            option_rom_path: opt_string(self.option_rom_path),
            option_rom_base: self.option_rom_base,
            ide_image: opt_string(self.ide_image),
            floppy_image: opt_string(self.floppy_image),
            cdrom_image: opt_string(self.cdrom_image),
            guest_measure: self.guest_measure,
            guest_floppy_first: self.guest_floppy_first,
            guest_eltorito: self.guest_eltorito,
            guest_freedos_measure: self.guest_freedos_measure,
            guest_linux_serial_measure: self.guest_linux_serial_measure,
        }
    }
}

/// The options before any argument is read.
pub open spec fn default_options() -> OptionsModel {
    OptionsModel {
        rom_path: None,
        bios_path: None,
        max_steps: DEFAULT_MAX_STEPS,
        post_probe: false,
        post_trace: None,
        post_spin: Some(PostSpinConfig { window: DEFAULT_POST_SPIN_WINDOW }),
        vga_text: false,
        vga_frame: false,
        option_rom_path: None,
        option_rom_base: DEFAULT_OPTION_ROM_BASE,
        ide_image: None,
        floppy_image: None,
        cdrom_image: None,
        guest_measure: false,
        guest_floppy_first: false,
        guest_eltorito: false,
        guest_freedos_measure: false,
        guest_linux_serial_measure: false,
    }
}

impl Default for Options {
    fn default() -> (r: Self)
        ensures
            r@ == default_options(),
    {
        Options {
            rom_path: None,
            bios_path: None,
            max_steps: DEFAULT_MAX_STEPS,
            post_probe: false,
            post_trace: None,
            post_spin: Some(PostSpinConfig::default()),
            vga_text: false,
            vga_frame: false,
            option_rom_path: None,
            option_rom_base: DEFAULT_OPTION_ROM_BASE,
            ide_image: None,
            floppy_image: None,
            cdrom_image: None,
            guest_measure: false,
            guest_floppy_first: false,
            guest_eltorito: false,
            guest_freedos_measure: false,
            guest_linux_serial_measure: false,
        }
    }
}

/// Result of parsing argv (program name excluded).
#[derive(Clone, Debug, PartialEq, Eq)]
pub enum ParsedArgs {
    Help,
    Run(Options),
}

/// [`ParsedArgs`] as mathematical values.
pub enum ParsedArgsModel {
    Help,
    Run(OptionsModel),
}

impl View for ParsedArgs {
    type V = ParsedArgsModel;

    open spec fn view(&self) -> ParsedArgsModel {
        match self {
            ParsedArgs::Help => ParsedArgsModel::Help,
            ParsedArgs::Run(o) => ParsedArgsModel::Run(o@),
        }
    }
}

/// Which firmware image was installed before the run.
#[derive(Clone, Copy, Debug, PartialEq, Eq, Structural)]
pub enum FirmwareKind {
    /// Built-in HELLO ROM.
    Hello,
    /// Explicit `--rom` image (high map only).
    Rom,
    /// Explicit `--bios` image (top of 4 GiB plus the below-1 MiB alias).
    Bios,
}

/// CLI argument / usage errors.
#[derive(Clone, Debug, PartialEq, Eq)]
pub enum CliError {
    UnknownArgument(String),
    MissingValue(&'static str),
    InvalidSteps(String),
    InvalidAddress(String),
    RomAndBios,
    GuestMeasureNeedsImage,
    Io(String),
    Machine(String),
}

/// [`CliError`] as mathematical values.
pub enum CliErrorModel {
    UnknownArgument(Seq<char>),
    MissingValue(Seq<char>),
    InvalidSteps(Seq<char>),
    InvalidAddress(Seq<char>),
    RomAndBios,
    GuestMeasureNeedsImage,
    Io(Seq<char>),
    Machine(Seq<char>),
}

impl View for CliError {
    type V = CliErrorModel;

    open spec fn view(&self) -> CliErrorModel {
        match self {
            CliError::UnknownArgument(s) => CliErrorModel::UnknownArgument(s@),
            CliError::MissingValue(s) => CliErrorModel::MissingValue(s@),
            CliError::InvalidSteps(s) => CliErrorModel::InvalidSteps(s@),
            CliError::InvalidAddress(s) => CliErrorModel::InvalidAddress(s@),
            CliError::RomAndBios => CliErrorModel::RomAndBios,
            CliError::GuestMeasureNeedsImage => CliErrorModel::GuestMeasureNeedsImage,
            CliError::Io(s) => CliErrorModel::Io(s@),
            CliError::Machine(s) => CliErrorModel::Machine(s@),
        }
    }
}

impl CliError {
    /// The error's message.
    pub open spec fn spec_message(&self) -> Seq<char> {
        match self {
            CliError::UnknownArgument(a) => "Unknown argument: "@ + a@,
            CliError::MissingValue(f) => "Missing value for "@ + f@,
            CliError::InvalidSteps(v) => "Invalid --steps value: "@ + v@,
            CliError::InvalidAddress(v) => "Invalid --option-rom-base value: "@ + v@,
            CliError::RomAndBios => "Use only one of --rom or --bios"@,
            CliError::GuestMeasureNeedsImage =>
                "--guest-measure requires --ide-image, --floppy-image, and/or --cdrom-image"@,
            CliError::Io(m) => m@,
            CliError::Machine(m) => m@,
        }
    }

    /// The error's message.
    pub fn to_string(&self) -> (r: String)
        ensures
            r@ == self.spec_message(),
    {
        match self {
            CliError::UnknownArgument(a) => {
                let mut s = String::from_str("Unknown argument: ");
                s.append(a.as_str());
                s
            },
            CliError::MissingValue(f) => {
                let mut s = String::from_str("Missing value for ");
                s.append(f);
                s
            },
            CliError::InvalidSteps(v) => {
                let mut s = String::from_str("Invalid --steps value: ");
                s.append(v.as_str());
                s
            },
            CliError::InvalidAddress(v) => {
                let mut s = String::from_str("Invalid --option-rom-base value: ");
                s.append(v.as_str());
                s
            },
            CliError::RomAndBios => String::from_str("Use only one of --rom or --bios"),
            CliError::GuestMeasureNeedsImage => String::from_str(
                "--guest-measure requires --ide-image, --floppy-image, and/or --cdrom-image",
            ),
            CliError::Io(m) => m.clone(),
            CliError::Machine(m) => m.clone(),
        }
    }
}

/// View of a parse result.
pub open spec fn parse_result_view(r: Result<ParsedArgs, CliError>) -> Result<ParsedArgsModel, CliErrorModel> {
    match r {
        Ok(p) => Ok(p@),
        Err(e) => Err(e@),
    }
}

/// `s` as a `u64` (`str::parse`).
pub open spec fn parse_u64_spec(s: Seq<char>) -> Option<nat> {
    parse_uint_spec(s, 10, u64::MAX as nat)
}

/// `s` as a `usize` (`str::parse`).
pub open spec fn parse_usize_spec(s: Seq<char>) -> Option<nat> {
    parse_uint_spec(s, 10, usize::MAX as nat)
}

/// A physical address: trimmed, then hexadecimal after `0x` / `0X`, else
/// decimal.
pub open spec fn parse_address_spec(s: Seq<char>) -> Option<nat> {
    let t = trim(s);
    if t.len() >= 2 && t[0] == '0' && (t[1] == 'x' || t[1] == 'X') {
        parse_uint_spec(t.skip(2), 16, u64::MAX as nat)
    } else {
        parse_uint_spec(t, 10, u64::MAX as nat)
    }
}

/// The checks after every argument was read: not both `--rom` and
/// `--bios`; a guest measure needs an image; the El Torito handoff needs a
/// CD image.
pub open spec fn finish_spec(o: OptionsModel) -> Result<ParsedArgsModel, CliErrorModel> {
    if o.rom_path is Some && o.bios_path is Some {
        Err(CliErrorModel::RomAndBios)
    } else if o.guest_measure && o.ide_image is None && o.floppy_image is None && o.cdrom_image is None {
        Err(CliErrorModel::GuestMeasureNeedsImage)
    } else if o.guest_eltorito && o.cdrom_image is None {
        Err(CliErrorModel::GuestMeasureNeedsImage)
    } else {
        Ok(ParsedArgsModel::Run(o))
    }
}

/// Parsing `args` from index `i` with the options read so far `o`.
pub open spec fn parse_from(args: Seq<Seq<char>>, i: int, o: OptionsModel) -> Result<ParsedArgsModel, CliErrorModel>
    decreases args.len() - i,
{
    if i < 0 || i >= args.len() {
        finish_spec(o)
    } else {
        let a = args[i];
        let has_value = i + 1 < args.len();
        let v = args[i + 1];
        if a == "--help"@ || a == "-h"@ {
            Ok(ParsedArgsModel::Help)
        } else if a == "--rom"@ {
            if has_value {
                parse_from(args, i + 2, OptionsModel { rom_path: Some(v), ..o })
            } else {
                Err(CliErrorModel::MissingValue("--rom"@))
            }
        } else if a == "--bios"@ {
            if has_value {
                parse_from(args, i + 2, OptionsModel { bios_path: Some(v), ..o })
            } else {
                Err(CliErrorModel::MissingValue("--bios"@))
            }
        } else if a == "--post-probe"@ {
            parse_from(args, i + 1, OptionsModel { post_probe: true, ..o })
        } else if a == "--post-trace"@ {
            if has_value && parse_usize_spec(v) is Some {
                parse_from(
                    args,
                    i + 2,
                    OptionsModel {
                        post_probe: true,
                        post_trace: Some(
                            PostTraceConfig { capacity: parse_usize_spec(v).unwrap() as usize },
                        ),
                        ..o
                    },
                )
            } else {
                parse_from(
                    args,
                    i + 1,
                    OptionsModel {
                        post_probe: true,
                        post_trace: Some(PostTraceConfig { capacity: DEFAULT_POST_TRACE_CAPACITY }),
                        ..o
                    },
                )
            }
        } else if a == "--post-spin"@ {
            let window: nat = if has_value && parse_usize_spec(v) is Some {
                parse_usize_spec(v).unwrap()
            } else {
                DEFAULT_POST_SPIN_WINDOW as nat
            };
            let step: int = if has_value && parse_usize_spec(v) is Some {
                2
            } else {
                1
            };
            parse_from(
                args,
                i + step,
                OptionsModel {
                    post_probe: true,
                    post_spin: if window == 0 {
                        None
                    } else {
                        Some(PostSpinConfig { window: window as usize })
                    },
                    ..o
                },
            )
        } else if a == "--vga-text"@ {
            parse_from(args, i + 1, OptionsModel { vga_text: true, ..o })
        } else if a == "--vga-frame"@ {
            parse_from(args, i + 1, OptionsModel { vga_frame: true, ..o })
        } else if a == "--option-rom"@ {
            if has_value {
                parse_from(args, i + 2, OptionsModel { option_rom_path: Some(v), ..o })
            } else {
                Err(CliErrorModel::MissingValue("--option-rom"@))
            }
        } else if a == "--option-rom-base"@ {
            if !has_value {
                Err(CliErrorModel::MissingValue("--option-rom-base"@))
            } else if parse_address_spec(v) is None {
                Err(CliErrorModel::InvalidAddress(v))
            } else {
                parse_from(
                    args,
                    i + 2,
                    OptionsModel { option_rom_base: parse_address_spec(v).unwrap() as u64, ..o },
                )
            }
        } else if a == "--ide-image"@ {
            if has_value {
                parse_from(args, i + 2, OptionsModel { ide_image: Some(v), ..o })
            } else {
                Err(CliErrorModel::MissingValue("--ide-image"@))
            }
        } else if a == "--floppy-image"@ {
            if has_value {
                parse_from(args, i + 2, OptionsModel { floppy_image: Some(v), ..o })
            } else {
                Err(CliErrorModel::MissingValue("--floppy-image"@))
            }
        } else if a == "--cdrom-image"@ {
            if has_value {
                parse_from(args, i + 2, OptionsModel { cdrom_image: Some(v), ..o })
            } else {
                Err(CliErrorModel::MissingValue("--cdrom-image"@))
            }
        } else if a == "--guest-measure"@ {
            parse_from(args, i + 1, OptionsModel { guest_measure: true, ..o })
        } else if a == "--guest-floppy-first"@ {
            parse_from(args, i + 1, OptionsModel { guest_floppy_first: true, ..o })
        } else if a == "--guest-eltorito"@ {
            parse_from(args, i + 1, OptionsModel { guest_eltorito: true, ..o })
        } else if a == "--guest-freedos-measure"@ {
            parse_from(args, i + 1, OptionsModel { guest_freedos_measure: true, ..o })
        } else if a == "--guest-linux-serial-measure"@ {
            parse_from(args, i + 1, OptionsModel { guest_linux_serial_measure: true, ..o })
        } else if a == "--steps"@ {
            if !has_value {
                Err(CliErrorModel::MissingValue("--steps"@))
            } else if parse_u64_spec(v) is None {
                Err(CliErrorModel::InvalidSteps(v))
            } else {
                parse_from(args, i + 2, OptionsModel { max_steps: parse_u64_spec(v).unwrap() as u64, ..o })
            }
        } else {
            Err(CliErrorModel::UnknownArgument(a))
        }
    }
}

/// The views of a list of argument strings.
pub open spec fn args_view(args: Seq<&str>) -> Seq<Seq<char>> {
    args.map_values(|s: &str| s@)
}

/// Parse a decimal or `0x`-prefixed physical address.
fn parse_address(value: &str) -> (r: Result<u64, CliError>)
    ensures
        match parse_address_spec(value@) {
            Some(v) => r == Ok::<u64, CliError>(v as u64),
            None => r is Err && r->Err_0@ == CliErrorModel::InvalidAddress(value@),
        },
{
    let (lo, hi) = trim_bounds(value);
    let ghost t = trim(value@);
    let hex = hi - lo >= 2 && value.get_char(lo) == '0' && (value.get_char(lo + 1) == 'x'
        || value.get_char(lo + 1) == 'X');
    let parsed = if hex {
        proof {
            assert(value@.subrange(lo + 2, hi as int) =~= t.skip(2));
        }
        parse_uint(value, lo + 2, hi, 16, u64::MAX)
    } else {
        parse_uint(value, lo, hi, 10, u64::MAX)
    };
    match parsed {
        Some(v) => Ok(v),
        None => Err(CliError::InvalidAddress(String::from_str(value))),
    }
}

/// Parse `s` as a `usize`.
fn parse_usize(s: &str) -> (r: Option<usize>)
    ensures
        match parse_usize_spec(s@) {
            Some(v) => r == Some(v as usize),
            None => r is None,
        },
{
    let n = s.unicode_len();
    proof {
        assert(s@.subrange(0, n as int) =~= s@);
    }
    match parse_uint(s, 0, n, 10, usize::MAX as u64) {
        Some(v) => Some(v as usize),
        None => None,
    }
}

/// Parse `s` as a `u64`.
fn parse_u64(s: &str) -> (r: Option<u64>)
    ensures
        match parse_u64_spec(s@) {
            Some(v) => r == Some(v as u64),
            None => r is None,
        },
{
    let n = s.unicode_len();
    proof {
        assert(s@.subrange(0, n as int) =~= s@);
    }
    parse_uint(s, 0, n, 10, u64::MAX)
}

/// Outcome of reading the argument at one index.
enum ArgStep {
    /// Continue at this index.
    Next(usize),
    /// Parsing ended with this result.
    Done(Result<ParsedArgs, CliError>),
}

/// Read the argument at index `i` into `opts`.
#[verifier::rlimit(100)]
fn parse_arg_at(args: &[&str], i: usize, opts: &mut Options) -> (r: ArgStep)
    requires
        i < args@.len(),
    ensures
        match r {
            ArgStep::Next(j) => i < j <= args@.len() && parse_from(args_view(args@), i as int, old(opts)@)
                == parse_from(args_view(args@), j as int, final(opts)@),
            ArgStep::Done(res) => parse_result_view(res) == parse_from(args_view(args@), i as int, old(opts)@),
        },
{
    let ghost av = args_view(args@);
    let n = args.len();
    let a = args[i];
    assert(av[i as int] == a@);
    let has_value = i + 1 < n;
    proof {
        if has_value {
            assert(av[i + 1] == args@[i + 1]@);
        }
    }
    if str_eq(a, "--help") || str_eq(a, "-h") {
        return ArgStep::Done(Ok(ParsedArgs::Help));
    } else if str_eq(a, "--rom") {
        if !has_value {
            return ArgStep::Done(Err(CliError::MissingValue("--rom")));
        }
        opts.rom_path = Some(String::from_str(args[i + 1]));
        return ArgStep::Next(i + 2);
    } else if str_eq(a, "--bios") {
        if !has_value {
            return ArgStep::Done(Err(CliError::MissingValue("--bios")));
        }
        opts.bios_path = Some(String::from_str(args[i + 1]));
        return ArgStep::Next(i + 2);
    } else if str_eq(a, "--post-probe") {
        opts.post_probe = true;
        return ArgStep::Next(i + 1);
    } else if str_eq(a, "--post-trace") {
        let parsed = if has_value {
            parse_usize(args[i + 1])
        } else {
            None
        };
        let (capacity, next) = match parsed {
            Some(c) => (c, i + 2),
            None => (DEFAULT_POST_TRACE_CAPACITY, i + 1),
        };
        opts.post_probe = true;
        opts.post_trace = Some(PostTraceConfig::with_capacity(capacity));
        return ArgStep::Next(next);
    } else if str_eq(a, "--post-spin") {
        let parsed = if has_value {
            parse_usize(args[i + 1])
        } else {
            None
        };
        let (window, next) = match parsed {
            Some(w) => (w, i + 2),
            None => (DEFAULT_POST_SPIN_WINDOW, i + 1),
        };
        opts.post_probe = true;
        opts.post_spin = if window == 0 {
            None
        } else {
            Some(PostSpinConfig::with_window(window))
        };
        return ArgStep::Next(next);
    } else if str_eq(a, "--vga-text") {
        opts.vga_text = true;
        return ArgStep::Next(i + 1);
    } else if str_eq(a, "--vga-frame") {
        opts.vga_frame = true;
        return ArgStep::Next(i + 1);
    } else if str_eq(a, "--option-rom") {
        if !has_value {
            return ArgStep::Done(Err(CliError::MissingValue("--option-rom")));
        }
        opts.option_rom_path = Some(String::from_str(args[i + 1]));
        return ArgStep::Next(i + 2);
    } else if str_eq(a, "--option-rom-base") {
        if !has_value {
            return ArgStep::Done(Err(CliError::MissingValue("--option-rom-base")));
        }
        match parse_address(args[i + 1]) {
            Ok(v) => {
                opts.option_rom_base = v;
            },
            Err(e) => {
                return ArgStep::Done(Err(e));
            },
        }
        return ArgStep::Next(i + 2);
    } else if str_eq(a, "--ide-image") {
        if !has_value {
            return ArgStep::Done(Err(CliError::MissingValue("--ide-image")));
        }
        opts.ide_image = Some(String::from_str(args[i + 1]));
        return ArgStep::Next(i + 2);
    } else if str_eq(a, "--floppy-image") {
        if !has_value {
            return ArgStep::Done(Err(CliError::MissingValue("--floppy-image")));
        }
        opts.floppy_image = Some(String::from_str(args[i + 1]));
        return ArgStep::Next(i + 2);
    } else if str_eq(a, "--cdrom-image") {
        if !has_value {
            return ArgStep::Done(Err(CliError::MissingValue("--cdrom-image")));
        }
        opts.cdrom_image = Some(String::from_str(args[i + 1]));
        return ArgStep::Next(i + 2);
    } else if str_eq(a, "--guest-measure") {
        opts.guest_measure = true;
        return ArgStep::Next(i + 1);
    } else if str_eq(a, "--guest-floppy-first") {
        opts.guest_floppy_first = true;
        return ArgStep::Next(i + 1);
    } else if str_eq(a, "--guest-eltorito") {
        opts.guest_eltorito = true;
        return ArgStep::Next(i + 1);
    } else if str_eq(a, "--guest-freedos-measure") {
        opts.guest_freedos_measure = true;
        return ArgStep::Next(i + 1);
    } else if str_eq(a, "--guest-linux-serial-measure") {
        opts.guest_linux_serial_measure = true;
        return ArgStep::Next(i + 1);
    } else if str_eq(a, "--steps") {
        if !has_value {
            return ArgStep::Done(Err(CliError::MissingValue("--steps")));
        }
        match parse_u64(args[i + 1]) {
            Some(v) => {
                opts.max_steps = v;
            },
            None => {
                return ArgStep::Done(Err(CliError::InvalidSteps(String::from_str(args[i + 1]))));
            },
        }
        return ArgStep::Next(i + 2);
    } else {
        return ArgStep::Done(Err(CliError::UnknownArgument(String::from_str(a))));
    }
}

/// Parse CLI arguments (program name excluded).
pub fn parse_args(args: &[&str]) -> (r: Result<ParsedArgs, CliError>)
    ensures
        parse_result_view(r) == parse_from(args_view(args@), 0, default_options()),
{
    let ghost av = args_view(args@);
    let mut opts = Options::default();
    let n = args.len();
    let mut i: usize = 0;
    while i < n
        invariant
            n == args@.len(),
            av == args_view(args@),
            i <= n,
            parse_from(av, i as int, opts@) == parse_from(av, 0, default_options()),
        decreases n - i,
    {
        match parse_arg_at(args, i, &mut opts) {
            ArgStep::Next(j) => {
                i = j;
            },
            ArgStep::Done(res) => {
                return res;
            },
        }
    }
    if opts.rom_path.is_some() && opts.bios_path.is_some() {
        return Err(CliError::RomAndBios);
    }
    if opts.guest_measure && opts.ide_image.is_none() && opts.floppy_image.is_none()
        && opts.cdrom_image.is_none() {
        return Err(CliError::GuestMeasureNeedsImage);
    }
    if opts.guest_eltorito && opts.cdrom_image.is_none() {
        return Err(CliError::GuestMeasureNeedsImage);
    }
    Ok(ParsedArgs::Run(opts))
}

/// Media policy for a guest measure: El Torito when forced or when a CD is
/// the only image; else the floppy when forced or when it is the only disk;
/// else IDE first.
pub fn guest_boot_media(opts: &Options) -> (r: GuestBootMedia)
    ensures
        r == (if opts.guest_eltorito || (opts.cdrom_image is Some && opts.ide_image is None
            && opts.floppy_image is None) {
            GuestBootMedia::ElTorito
        } else if opts.guest_floppy_first || (opts.floppy_image is Some && opts.ide_image is None) {
            GuestBootMedia::FloppyFirst
        } else {
            GuestBootMedia::IdePrefer
        }),
{
    if opts.guest_eltorito || (opts.cdrom_image.is_some() && opts.ide_image.is_none()
        && opts.floppy_image.is_none()) {
        GuestBootMedia::ElTorito
    } else if opts.guest_floppy_first || (opts.floppy_image.is_some() && opts.ide_image.is_none()) {
        GuestBootMedia::FloppyFirst
    } else {
        GuestBootMedia::IdePrefer
    }
}


/// The usage / help text.
pub open spec fn usage_text() -> Seq<char> {
    "Usage: emulator-cli [--rom path.bin | --bios path.bin] [--steps N] [--post-probe]\n"@
        + "                   [--post-trace [N]] [--post-spin [N]]\n"@
        + "                   [--option-rom path.bin [--option-rom-base ADDR]]\n"@
        + "                   [--ide-image path.bin] [--floppy-image path.img]\n"@
        + "                   [--cdrom-image path.iso]\n"@
        + "                   [--guest-measure [--guest-floppy-first|--guest-eltorito]]\n"@
        + "                   [--guest-freedos-measure] [--guest-linux-serial-measure]\n"@
        + "                   [--vga-text] [--vga-frame]\n"@
        + "--rom              Load a lab ROM at top-of-4GiB only (HELLO-style).\n"@
        + "--bios             Load a legacy BIOS via dual map (top-of-4GiB + below-1MiB alias).\n"@
        + "--post-probe       Report POST first contact (first failure, unclaimed ports,\n"@
        + "                   unmapped MMIO) instead of validating the run.\n"@
        + "--post-trace       Implies --post-probe and appends a bounded trace of the most\n"@
        + "                   recent platform accesses (port I/O, PCI config cycles, PAM\n"@
        + "                   programming, VGA aperture, memory faults). Optional N is the\n"@
        + "                   event capacity (default "@
        + dec_digits(DEFAULT_POST_TRACE_CAPACITY as nat)
        + "). The\n"@
        + "                   --post-probe lines above it are unchanged.\n"@
        + "--post-spin        Implies --post-probe. Size of the trailing program-counter\n"@
        + "                   window used for the spin summary (default "@
        + dec_digits(DEFAULT_POST_SPIN_WINDOW as nat)
        + ";\n"@
        + "                   0 disables it). The --post-probe header line is unchanged.\n"@
        + "--option-rom       Map an option ROM image (e.g. a VGA BIOS) and report its\n"@
        + "                   55AA/size/checksum header. Mapping only: nothing scans or\n"@
        + "                   executes option ROMs yet.\n"@
        + "--option-rom-base  Physical base for --option-rom (default 0x"@
        + hex_min(DEFAULT_OPTION_ROM_BASE as nat, 5)
        + ").\n"@
        + "--ide-image        Attach a raw IDE disk image (primary master).\n"@
        + "--floppy-image     Attach a raw 1.44MB floppy image.\n"@
        + "--cdrom-image      Attach a raw ATAPI/ISO CD-ROM image (El Torito measure).\n"@
        + "--guest-measure    Load boot image and report the first stop reason (v2 harness:\n"@
        + "                   checkpoints + serial capture; not a FreeDOS/Linux success claim).\n"@
        + "                   Requires --ide-image, --floppy-image, and/or --cdrom-image.\n"@
        + "--guest-floppy-first  With --guest-measure, force floppy CHS (0,0,1) handoff.\n"@
        + "--guest-eltorito   With --guest-measure, force El Torito no-emul handoff\n"@
        + "                   (requires --cdrom-image).\n"@
        + "--guest-freedos-measure  Measure FreeDOS-*like* synthetic MBR+payload (or\n"@
        + "                   --ide-image). Reports serial/VGA/checkpoints; does NOT\n"@
        + "                   claim a FreeDOS prompt.\n"@
        + "--guest-linux-serial-measure  Measure Linux serial-path stub (or --ide-image).\n"@
        + "                   Captures COM1; documents gaps; does NOT claim Linux boot\n"@
        + "                   or Milestone 2 exit.\n"@
        + "--vga-text         Dump the "@
        + dec_digits(VGA_TEXT_COLS as nat)
        + "x"@
        + dec_digits(VGA_TEXT_ROWS as nat)
        + " VGA text buffer after the run.\n"@
        + "--vga-frame        Render the display through the VGA display fetch and report the\n"@
        + "                   frame geometry, RGBA size, and whether a font is installed.\n"@
        + "                   Text mode 03h, mode 13h, and planar 16-color (0Dh/0Eh/10h/12h)\n"@
        + "                   have a renderer; any other programming is reported as having\n"@
        + "                   none rather than rendered.\n"@
        + "Diagnostics are appended after the normal / --post-probe output, which is unchanged.\n"@
        + "Default ROM prints '"@
        + EXPECTED_HELLO@
        + "' via COM1 and port 0x402."@
}

/// Usage / help text for `--help` / `-h`.
pub fn usage() -> (r: String)
    ensures
        r@ == usage_text(),
{
    let mut s = String::from_str("Usage: emulator-cli [--rom path.bin | --bios path.bin] [--steps N] [--post-probe]\n");
    s.append("                   [--post-trace [N]] [--post-spin [N]]\n");
    s.append("                   [--option-rom path.bin [--option-rom-base ADDR]]\n");
    s.append("                   [--ide-image path.bin] [--floppy-image path.img]\n");
    s.append("                   [--cdrom-image path.iso]\n");
    s.append("                   [--guest-measure [--guest-floppy-first|--guest-eltorito]]\n");
    s.append("                   [--guest-freedos-measure] [--guest-linux-serial-measure]\n");
    s.append("                   [--vga-text] [--vga-frame]\n");
    s.append("--rom              Load a lab ROM at top-of-4GiB only (HELLO-style).\n");
    s.append("--bios             Load a legacy BIOS via dual map (top-of-4GiB + below-1MiB alias).\n");
    s.append("--post-probe       Report POST first contact (first failure, unclaimed ports,\n");
    s.append("                   unmapped MMIO) instead of validating the run.\n");
    s.append("--post-trace       Implies --post-probe and appends a bounded trace of the most\n");
    s.append("                   recent platform accesses (port I/O, PCI config cycles, PAM\n");
    s.append("                   programming, VGA aperture, memory faults). Optional N is the\n");
    s.append("                   event capacity (default ");
    push_dec(&mut s, DEFAULT_POST_TRACE_CAPACITY as u64);
    s.append("). The\n");
    s.append("                   --post-probe lines above it are unchanged.\n");
    s.append("--post-spin        Implies --post-probe. Size of the trailing program-counter\n");
    s.append("                   window used for the spin summary (default ");
    push_dec(&mut s, DEFAULT_POST_SPIN_WINDOW as u64);
    s.append(";\n");
    s.append("                   0 disables it). The --post-probe header line is unchanged.\n");
    s.append("--option-rom       Map an option ROM image (e.g. a VGA BIOS) and report its\n");
    s.append("                   55AA/size/checksum header. Mapping only: nothing scans or\n");
    s.append("                   executes option ROMs yet.\n");
    s.append("--option-rom-base  Physical base for --option-rom (default 0x");
    push_hex(&mut s, DEFAULT_OPTION_ROM_BASE, 5);
    s.append(").\n");
    s.append("--ide-image        Attach a raw IDE disk image (primary master).\n");
    s.append("--floppy-image     Attach a raw 1.44MB floppy image.\n");
    s.append("--cdrom-image      Attach a raw ATAPI/ISO CD-ROM image (El Torito measure).\n");
    s.append("--guest-measure    Load boot image and report the first stop reason (v2 harness:\n");
    s.append("                   checkpoints + serial capture; not a FreeDOS/Linux success claim).\n");
    s.append("                   Requires --ide-image, --floppy-image, and/or --cdrom-image.\n");
    s.append("--guest-floppy-first  With --guest-measure, force floppy CHS (0,0,1) handoff.\n");
    s.append("--guest-eltorito   With --guest-measure, force El Torito no-emul handoff\n");
    s.append("                   (requires --cdrom-image).\n");
    s.append("--guest-freedos-measure  Measure FreeDOS-*like* synthetic MBR+payload (or\n");
    s.append("                   --ide-image). Reports serial/VGA/checkpoints; does NOT\n");
    s.append("                   claim a FreeDOS prompt.\n");
    s.append("--guest-linux-serial-measure  Measure Linux serial-path stub (or --ide-image).\n");
    s.append("                   Captures COM1; documents gaps; does NOT claim Linux boot\n");
    s.append("                   or Milestone 2 exit.\n");
    s.append("--vga-text         Dump the ");
    push_dec(&mut s, VGA_TEXT_COLS as u64);
    s.append("x");
    push_dec(&mut s, VGA_TEXT_ROWS as u64);
    s.append(" VGA text buffer after the run.\n");
    s.append("--vga-frame        Render the display through the VGA display fetch and report the\n");
    s.append("                   frame geometry, RGBA size, and whether a font is installed.\n");
    s.append("                   Text mode 03h, mode 13h, and planar 16-color (0Dh/0Eh/10h/12h)\n");
    s.append("                   have a renderer; any other programming is reported as having\n");
    s.append("                   none rather than rendered.\n");
    s.append("Diagnostics are appended after the normal / --post-probe output, which is unchanged.\n");
    s.append("Default ROM prints '");
    s.append(EXPECTED_HELLO);
    s.append("' via COM1 and port 0x402.");
    assert(s@ =~= usage_text());
    s
}

/// Decoded PC option ROM header of an image.
#[derive(Clone, Copy, Debug, PartialEq, Eq, Structural)]
pub struct OptionRomInfo {
    /// Physical base the image is mapped at.
    pub base: u64,
    /// Length of the image.
    pub size: usize,
    /// `55 AA` present at offset 0.
    pub signature_ok: bool,
    /// Block count byte at offset 2 (`None` when the image is too short).
    pub blocks: Option<u8>,
    /// `blocks * 512`, the extent the header declares.
    pub declared_bytes: Option<usize>,
    /// Byte sum (mod 256) over the declared extent, when that extent is
    /// non-empty and fits in the image.
    pub checksum: Option<u8>,
}

/// The header report of `data` mapped at `base`.
pub open spec fn option_rom_info_spec(base: u64, data: Seq<u8>) -> OptionRomInfo {
    let blocks: Option<u8> = if data.len() > 2 {
        Some(data[2])
    } else {
        None
    };
    let declared: Option<usize> = match blocks {
        Some(b) => Some((b as int * 512) as usize),
        None => None,
    };
    OptionRomInfo {
        base,
        size: data.len() as usize,
        signature_ok: data.len() >= 2 && data[0] == 0x55 && data[1] == 0xAA,
        blocks,
        declared_bytes: declared,
        checksum: match declared {
            Some(d) => if d == 0 || d > data.len() {
                None
            } else {
                Some(checksum8(data.take(d as int)) as u8)
            },
            None => None,
        },
    }
}

impl OptionRomInfo {
    pub open spec fn spec_is_valid(&self) -> bool {
        &&& self.signature_ok
        &&& match self.declared_bytes {
            Some(d) => d != 0 && d <= self.size,
            None => false,
        }
        &&& self.checksum == Some(0u8)
    }

    /// True when the header is well formed and the declared extent sums to
    /// zero.
    pub fn is_valid(&self) -> (r: bool)
        ensures
            r == self.spec_is_valid(),
    {
        let extent_ok = match self.declared_bytes {
            Some(d) => d != 0 && d <= self.size,
            None => false,
        };
        let sum_ok = match self.checksum {
            Some(c) => c == 0,
            None => false,
        };
        self.signature_ok && extent_ok && sum_ok
    }

    /// The one-line report.
    pub open spec fn spec_text(&self) -> Seq<char> {
        "option-rom: base=0x"@ + hex_min(self.base as nat, 8) + " size="@ + dec_digits(
            self.size as nat,
        ) + " signature="@ + (if self.signature_ok {
            "55AA"@
        } else {
            "missing"@
        }) + " blocks="@ + match self.blocks {
            Some(b) => dec_digits(b as nat),
            None => "none"@,
        } + " declared="@ + match self.declared_bytes {
            Some(d) => dec_digits(d as nat),
            None => "none"@,
        } + " checksum="@ + match self.checksum {
            Some(c) => "0x"@ + hex_min(c as nat, 2),
            None => "none"@,
        } + " status="@ + if self.spec_is_valid() {
            "ok"@
        } else {
            "invalid"@
        }
    }

    /// The one-line report: base, size, signature, block count, declared
    /// extent, checksum and status.
    pub fn to_string(&self) -> (r: String)
        ensures
            r@ == self.spec_text(),
    {
        let mut s = String::from_str("option-rom: base=0x");
        push_hex(&mut s, self.base, 8);
        s.append(" size=");
        push_dec(&mut s, self.size as u64);
        s.append(" signature=");
        if self.signature_ok {
            s.append("55AA");
        } else {
            s.append("missing");
        }
        s.append(" blocks=");
        match self.blocks {
            Some(b) => push_dec(&mut s, b as u64),
            None => s.append("none"),
        }
        s.append(" declared=");
        match self.declared_bytes {
            Some(d) => push_dec(&mut s, d as u64),
            None => s.append("none"),
        }
        s.append(" checksum=");
        match self.checksum {
            Some(c) => {
                s.append("0x");
                push_hex(&mut s, c as u64, 2);
            },
            None => s.append("none"),
        }
        s.append(" status=");
        if self.is_valid() {
            s.append("ok");
        } else {
            s.append("invalid");
        }
        assert(s@ =~= self.spec_text());
        s
    }
}

/// Decode a PC option ROM header without mapping anything.
pub fn describe_option_rom(base: u64, data: &[u8]) -> (r: OptionRomInfo)
    ensures
        r == option_rom_info_spec(base, data@),
{
    let n = data.len();
    let signature_ok = n >= 2 && data[0] == 0x55 && data[1] == 0xAA;
    let blocks: Option<u8> = if n > 2 {
        Some(data[2])
    } else {
        None
    };
    let declared_bytes: Option<usize> = match blocks {
        Some(b) => Some((b as usize) * OPTION_ROM_BLOCK_BYTES),
        None => None,
    };
    let checksum: Option<u8> = match declared_bytes {
        Some(d) => {
            if d == 0 || d > n {
                None
            } else {
                proof {
                    assert(data@.subrange(0, d as int) =~= data@.take(d as int));
                }
                Some(checksum_of(&data[0..d]))
            }
        },
        None => None,
    };
    OptionRomInfo { base, size: n, signature_ok, blocks, declared_bytes, checksum }
}

/// The header checks [`crate::firmware::prepare_option_rom`] applies before placement, in the
/// order it applies them, all pass for `data`.
pub open spec fn option_rom_header_accepted(base: u64, data: Seq<u8>) -> bool {
    match option_rom_error(base, data) {
        None => true,
        Some(OptionRomError::Misaligned) => true,
        Some(OptionRomError::OutsideRegion) => true,
        Some(_) => false,
    }
}

/// The report of an image says `status=ok` exactly when the expansion-ROM
/// validation of the firmware interface finds nothing wrong with its header
/// and checksum: the two apply the same rules, and only the placement checks
/// (2 KiB alignment, the `0xC0000`-`0xDFFFF` window) are left to the mapping.
pub proof fn law_option_rom_report_matches_validation(base: u64, data: Seq<u8>)
    requires
        data.len() <= usize::MAX,
    ensures
        option_rom_info_spec(base, data).spec_is_valid() <==> option_rom_header_accepted(base, data),
{
    if data.len() > 2 {
        assert(option_rom_declared_len(data[2]) == data[2] as int * 512);
        assert((data[2] as int * 512) as usize == data[2] as int * 512);
    }
}

/// Architectural context captured after an execution step fails.
#[derive(Clone, Copy, Debug, PartialEq, Eq)]
pub struct CpuFailureContext {
    pub completed_steps: u64,
    pub cs: u16,
    pub ip: u16,
    pub rip: u64,
    pub linear_pc: u64,
    pub opcode_bytes: [Option<u8>; 8],
}

/// `(a + b) mod 2^64`.
pub open spec fn wrap64(a: int, b: int) -> u64 {
    ((a + b) % 0x1_0000_0000_0000_0000) as u64
}

/// Capture the real-mode fetch window the interpreter used: `IP` is `RIP`
/// mod 2^16, the linear PC is the cached `CS` base plus `IP` (mod 2^64), and
/// opcode byte `k` is read at the base plus `(IP + k)` mod 2^16.
pub fn capture_cpu_failure_context(mem: &PhysMem, cs: u16, cs_base: u64, rip: u64, completed_steps: u64) -> (r: CpuFailureContext)
    requires
        mem.wf(),
    ensures
        r.completed_steps == completed_steps,
        r.cs == cs,
        r.rip == rip,
        r.ip == rip % 0x10000,
        r.linear_pc == wrap64(cs_base as int, r.ip as int),
        forall|k: int|
            0 <= k < 8 ==> r.opcode_bytes@[k] == Some(
                mem.read_spec(wrap64(cs_base as int, (r.ip as int + k) % 0x10000)),
            ),
{
    let ip: u16 = (rip % 0x10000) as u16;
    let linear_pc = cs_base.wrapping_add(ip as u64);
    let mut bytes: [Option<u8>; 8] = [None; 8];
    let mut k: usize = 0;
    while k < 8
        invariant
            k <= 8,
            mem.wf(),
            ip == rip % 0x10000,
            bytes@.len() == 8,
            forall|j: int|
                0 <= j < k ==> bytes@[j] == Some(
                    mem.read_spec(wrap64(cs_base as int, (ip as int + j) % 0x10000)),
                ),
        decreases 8 - k,
    {
        let offset: u16 = ip.wrapping_add(k as u16);
        let address = cs_base.wrapping_add(offset as u64);
        let b = match mem.read_u8(address) {
            Ok(v) => Some(v),
            Err(_) => None,
        };
        bytes.set(k, b);
        k = k + 1;
    }
    CpuFailureContext { completed_steps, cs, ip, rip, linear_pc, opcode_bytes: bytes }
}

impl CpuFailureContext {
    /// Rendering of one opcode byte: two hex digits, or `??`.
    pub open spec fn byte_text(b: Option<u8>) -> Seq<char> {
        match b {
            Some(v) => hex_min(v as nat, 2),
            None => "??"@,
        }
    }

    /// The opcode bytes from index `k` on, space-separated.
    pub open spec fn bytes_text(bytes: Seq<Option<u8>>, k: int) -> Seq<char>
        decreases bytes.len() - k,
    {
        if k >= bytes.len() || k < 0 {
            Seq::empty()
        } else {
            (if k == 0 {
                Seq::empty()
            } else {
                " "@
            }) + Self::byte_text(bytes[k]) + Self::bytes_text(bytes, k + 1)
        }
    }

    /// The one-line report.
    pub open spec fn spec_text(&self) -> Seq<char> {
        "completed_steps="@ + dec_digits(self.completed_steps as nat) + " cs:ip="@ + hex_min(
            self.cs as nat,
            4,
        ) + ":"@ + hex_min(self.ip as nat, 4) + " rip=0x"@ + hex_min(self.rip as nat, 16)
            + " linear_pc=0x"@ + hex_min(self.linear_pc as nat, 16) + " opcode_bytes=["@
            + Self::bytes_text(self.opcode_bytes@, 0) + "]"@
    }

    /// `completed_steps=N cs:ip=CCCC:IIII rip=0x... linear_pc=0x...
    /// opcode_bytes=[..]`.
    pub fn to_string(&self) -> (r: String)
        ensures
            r@ == self.spec_text(),
    {
        let mut s = String::from_str("completed_steps=");
        push_dec(&mut s, self.completed_steps);
        s.append(" cs:ip=");
        push_hex(&mut s, self.cs as u64, 4);
        s.append(":");
        push_hex(&mut s, self.ip as u64, 4);
        s.append(" rip=0x");
        push_hex(&mut s, self.rip, 16);
        s.append(" linear_pc=0x");
        push_hex(&mut s, self.linear_pc, 16);
        s.append(" opcode_bytes=[");
        let ghost head = s@;
        let mut k: usize = 0;
        while k < 8
            invariant
                k <= 8,
                self.opcode_bytes@.len() == 8,
                s@ + Self::bytes_text(self.opcode_bytes@, k as int) == head + Self::bytes_text(
                    self.opcode_bytes@,
                    0,
                ),
            decreases 8 - k,
        {
            let ghost before = s@;
            if k != 0 {
                s.append(" ");
            }
            match self.opcode_bytes[k] {
                Some(b) => push_hex(&mut s, b as u64, 2),
                None => s.append("??"),
            }
            proof {
                assert(before + Self::bytes_text(self.opcode_bytes@, k as int) =~= s@
                    + Self::bytes_text(self.opcode_bytes@, k + 1));
            }
            k = k + 1;
        }
        s.append("]");
        assert(s@ =~= self.spec_text());
        s
    }
}

/// The HELLO ROM's run is accepted only when COM1 and the debug port both
/// printed the expected text; other firmware is not checked.
pub fn check_hello_output(kind: FirmwareKind, com1: &str, debug: &str) -> (r: Result<(), CliError>)
    ensures
        r is Ok <==> (kind != FirmwareKind::Hello || (com1@ == EXPECTED_HELLO@ && debug@
            == EXPECTED_HELLO@)),
        r is Err ==> r->Err_0@ == CliErrorModel::Machine("HELLO ROM output mismatch"@),
{
    if matches!(kind, FirmwareKind::Hello) && (!str_eq(com1, EXPECTED_HELLO) || !str_eq(
        debug,
        EXPECTED_HELLO,
    )) {
        return Err(CliError::Machine(String::from_str("HELLO ROM output mismatch")));
    }
    Ok(())
}

/// How the text dump shows a character byte: printable ASCII as itself,
/// anything else as `.`.
pub open spec fn shown_char(b: u8) -> char {
    if 0x20 <= b <= 0x7E {
        b as char
    } else {
        '.'
    }
}

/// Row `row` of an 80-column `screen`, as shown.
pub open spec fn row_text(screen: Seq<u8>, row: int) -> Seq<char> {
    Seq::new(80, |c: int| shown_char(screen[row * 80 + c]))
}

/// Row `row` holds only spaces and NULs.
pub open spec fn row_blank(screen: Seq<u8>, row: int) -> bool {
    forall|c: int| 0 <= c < 80 ==> #[trigger] screen[row * 80 + c] == 0x20 || screen[row * 80 + c] == 0
}

/// How many of the first `n` rows are not blank.
pub open spec fn nonblank_rows(screen: Seq<u8>, n: int) -> nat
    decreases n,
{
    if n <= 0 {
        0
    } else {
        nonblank_rows(screen, n - 1) + if row_blank(screen, n - 1) {
            0nat
        } else {
            1nat
        }
    }
}

/// `i` as `{:02}`.
pub open spec fn two_digits(i: nat) -> Seq<char> {
    if i < 10 {
        "0"@ + dec_digits(i)
    } else {
        dec_digits(i)
    }
}

/// The dump lines of the first `n` rows: `\nII |row|` each.
pub open spec fn dump_rows(screen: Seq<u8>, n: int) -> Seq<char>
    decreases n,
{
    if n <= 0 {
        Seq::empty()
    } else {
        dump_rows(screen, n - 1) + "\n"@ + two_digits((n - 1) as nat) + " |"@ + row_text(screen, n - 1) + "|"@
    }
}

/// The text dump of an 80x25 `screen` (row-major character bytes as the
/// CRTC viewport shows them), with the cursor, start address and row pitch.
pub open spec fn vga_text_dump_spec(screen: Seq<u8>, cursor_row: u64, cursor_col: u64, start: u16, pitch: u64) -> Seq<char> {
    "vga-text: cols=80 rows=25 cursor=("@ + dec_digits(cursor_row as nat) + ","@ + dec_digits(cursor_col as nat)
        + ") start=0x"@ + hex_min(start as nat, 4) + " pitch="@ + dec_digits(pitch as nat) + " nonblank_rows="@
        + dec_digits(nonblank_rows(screen, 25)) + dump_rows(screen, 25)
}

/// Whether row `row` of `screen` is blank.
fn is_row_blank(screen: &[u8], row: usize) -> (r: bool)
    requires
        screen@.len() == 2000,
        row < 25,
    ensures
        r == row_blank(screen@, row as int),
{
    let mut col: usize = 0;
    while col < 80
        invariant
            screen@.len() == 2000,
            row < 25,
            col <= 80,
            forall|c: int| 0 <= c < col ==> #[trigger] screen@[row * 80 + c] == 0x20 || screen@[row * 80 + c] == 0,
        decreases 80 - col,
    {
        let ch = screen[row * 80 + col];
        if ch != 0x20 && ch != 0 {
            return false;
        }
        col = col + 1;
    }
    true
}

/// Append row `row` as shown.
fn push_row_text(s: &mut String, screen: &[u8], row: usize)
    requires
        screen@.len() == 2000,
        row < 25,
    ensures
        final(s)@ == old(s)@ + row_text(screen@, row as int),
{
    let mut col: usize = 0;
    while col < 80
        invariant
            screen@.len() == 2000,
            row < 25,
            col <= 80,
            s@ == old(s)@ + row_text(screen@, row as int).take(col as int),
        decreases 80 - col,
    {
        let ch = screen[row * 80 + col];
        let shown: char = if 0x20 <= ch && ch <= 0x7E {
            ch as char
        } else {
            '.'
        };
        push_char(s, shown);
        assert(row_text(screen@, row as int).take(col + 1) =~= row_text(screen@, row as int).take(
            col as int,
        ).push(shown));
        col = col + 1;
    }
    assert(row_text(screen@, row as int).take(80) =~= row_text(screen@, row as int));
}

/// Render the 80x25 VGA text screen: a header with the cursor, the CRTC
/// start address, the row pitch and the count of non-blank rows, then each
/// row between `|` bars with non-printable bytes as `.`.
pub fn vga_text_dump(screen: &[u8], cursor_row: u64, cursor_col: u64, start: u16, pitch: u64) -> (r: String)
    requires
        screen@.len() == VGA_TEXT_ROWS * VGA_TEXT_COLS,
    ensures
        r@ == vga_text_dump_spec(screen@, cursor_row, cursor_col, start, pitch),
{
    let mut nonblank: u64 = 0;
    let mut rows = String::new();
    let mut row: usize = 0;
    while row < 25
        invariant
            screen@.len() == 2000,
            row <= 25,
            nonblank == nonblank_rows(screen@, row as int),
            nonblank <= row,
            rows@ == dump_rows(screen@, row as int),
        decreases 25 - row,
    {
        if !is_row_blank(screen, row) {
            nonblank = nonblank + 1;
        }
        let ghost before = rows@;
        rows.append("\n");
        if row < 10 {
            rows.append("0");
        }
        push_dec(&mut rows, row as u64);
        rows.append(" |");
        push_row_text(&mut rows, screen, row);
        rows.append("|");
        proof {
            assert(rows@ =~= dump_rows(screen@, row as int) + "\n"@ + two_digits(row as nat) + " |"@ + row_text(
                screen@,
                row as int,
            ) + "|"@);
        }
        row = row + 1;
    }
    let mut out = String::from_str("vga-text: cols=80 rows=25 cursor=(");
    push_dec(&mut out, cursor_row);
    out.append(",");
    push_dec(&mut out, cursor_col);
    out.append(") start=0x");
    push_hex(&mut out, start as u64, 4);
    out.append(" pitch=");
    push_dec(&mut out, pitch);
    out.append(" nonblank_rows=");
    push_dec(&mut out, nonblank);
    out.append(rows.as_str());
    proof {
        assert(out@ =~= vga_text_dump_spec(screen@, cursor_row, cursor_col, start, pitch));
    }
    out
}

/// The summary part of row `row`: `row:text` with trailing spaces cut.
pub open spec fn summary_part(screen: Seq<u8>, row: int) -> Seq<char> {
    dec_digits(row as nat) + ":"@ + trim_end(row_text(screen, row))
}

/// The parts of the first `n` rows: each non-blank row's part, at most
/// three.
pub open spec fn summary_parts(screen: Seq<u8>, n: int) -> Seq<Seq<char>>
    decreases n,
{
    if n <= 0 {
        Seq::empty()
    } else {
        let p = summary_parts(screen, n - 1);
        if p.len() >= 3 || row_blank(screen, n - 1) {
            p
        } else {
            p.push(summary_part(screen, n - 1))
        }
    }
}

/// `parts` joined by ` | `.
pub open spec fn join_bars(parts: Seq<Seq<char>>) -> Seq<char>
    decreases parts.len(),
{
    if parts.len() == 0 {
        Seq::empty()
    } else if parts.len() == 1 {
        parts[0]
    } else {
        join_bars(parts.drop_last()) + " | "@ + parts.last()
    }
}

/// The compact VGA summary: up to three non-blank rows as `row:text`,
/// joined by ` | `; empty for a blank screen.
pub open spec fn vga_text_summary_spec(screen: Seq<u8>) -> Seq<char> {
    join_bars(summary_parts(screen, 25))
}

proof fn lemma_trim_end_take(s: Seq<char>, e: int)
    requires
        0 <= e <= s.len(),
        forall|j: int| e <= j < s.len() ==> is_ws(#[trigger] s[j]),
        e == 0 || !is_ws(s[e - 1]),
    ensures
        trim_end(s) == s.take(e),
    decreases s.len() - e,
{
    if s.len() == e {
        assert(s.take(e) =~= s);
    } else {
        lemma_trim_end_take(s.drop_last(), e);
        assert(s.drop_last().take(e) =~= s.take(e));
    }
}

proof fn lemma_summary_parts_grow(screen: Seq<u8>, n: int)
    requires
        n >= 0,
    ensures
        summary_parts(screen, n).len() <= summary_parts(screen, n + 1).len(),
        summary_parts(screen, n).len() >= 3 ==> summary_parts(screen, n + 1) == summary_parts(screen, n),
{
}

proof fn lemma_summary_parts_saturated(screen: Seq<u8>, from: int, to: int)
    requires
        0 <= from <= to,
        summary_parts(screen, from).len() >= 3,
    ensures
        summary_parts(screen, to) == summary_parts(screen, from),
    decreases to - from,
{
    if from < to {
        lemma_summary_parts_saturated(screen, from, to - 1);
        lemma_summary_parts_grow(screen, to - 1);
    }
}

/// Append row `row`'s part: `row:` and the row's text up to its last
/// non-space character.
fn push_summary_part(s: &mut String, screen: &[u8], row: usize)
    requires
        screen@.len() == 2000,
        row < 25,
    ensures
        final(s)@ == old(s)@ + summary_part(screen@, row as int),
{
    push_dec(s, row as u64);
    s.append(":");
    let mut end: usize = 80;
    while end > 0 && screen[row * 80 + end - 1] == 0x20
        invariant
            screen@.len() == 2000,
            row < 25,
            end <= 80,
            forall|j: int| end <= j < 80 ==> #[trigger] screen@[row * 80 + j] == 0x20,
        decreases end,
    {
        end = end - 1;
    }
    let ghost text = row_text(screen@, row as int);
    proof {
        assert forall|j: int| end <= j < text.len() implies is_ws(#[trigger] text[j]) by {
            assert(screen@[row * 80 + j] == 0x20);
        }
        if end > 0 {
            assert(screen@[row * 80 + end - 1] != 0x20);
            assert(!is_ws(text[end - 1]));
        }
        lemma_trim_end_take(text, end as int);
    }
    let ghost before = s@;
    let mut col: usize = 0;
    while col < end
        invariant
            screen@.len() == 2000,
            row < 25,
            col <= end <= 80,
            text == row_text(screen@, row as int),
            s@ == before + text.take(col as int),
        decreases end - col,
    {
        let ch = screen[row * 80 + col];
        let shown: char = if 0x20 <= ch && ch <= 0x7E {
            ch as char
        } else {
            '.'
        };
        push_char(s, shown);
        assert(text.take(col + 1) =~= text.take(col as int).push(shown));
        col = col + 1;
    }
    assert(s@ =~= old(s)@ + summary_part(screen@, row as int));
}

/// Compact VGA text summary: the first three non-blank rows as `row:text`
/// (trailing spaces cut, non-printable bytes as `.`), joined by ` | `.
pub fn vga_text_summary(screen: &[u8]) -> (r: String)
    requires
        screen@.len() == VGA_TEXT_ROWS * VGA_TEXT_COLS,
    ensures
        r@ == vga_text_summary_spec(screen@),
{
    let mut out = String::new();
    let mut count: usize = 0;
    let mut row: usize = 0;
    while row < 25
        invariant
            screen@.len() == 2000,
            row <= 25,
            count == summary_parts(screen@, row as int).len(),
            count <= 3,
            out@ == join_bars(summary_parts(screen@, row as int)),
        decreases 25 - row,
    {
        proof {
            lemma_summary_parts_grow(screen@, row as int);
        }
        if count >= 3 {
            proof {
                lemma_summary_parts_saturated(screen@, row as int, 25);
            }
            return out;
        }
        if !is_row_blank(screen, row) {
            let ghost p = summary_parts(screen@, row as int);
            if count > 0 {
                out.append(" | ");
            }
            push_summary_part(&mut out, screen, row);
            proof {
                let q = p.push(summary_part(screen@, row as int));
                assert(q.drop_last() =~= p);
                if p.len() == 0 {
                    assert(out@ =~= join_bars(q));
                }
            }
            count = count + 1;
        }
        row = row + 1;
    }
    out
}


/// Process exit status for a CLI error: 2 for usage errors (unknown or
/// missing arguments, bad values, conflicting flags), 1 otherwise.
pub fn arg_exit_code(e: &CliError) -> (r: u8)
    ensures
        r == (match e {
            CliError::Io(_) | CliError::Machine(_) => 1u8,
            _ => 2u8,
        }),
{
    match e {
        CliError::Io(_) | CliError::Machine(_) => 1,
        _ => 2,
    }
}

} // verus!
