//! The one-line report of a rendered VGA frame: which display fetch the
//! current programming selects and, when one exists, the size and content
//! counts of the frame it produced.
use vstd::prelude::*;

use crate::text::{dec_digits, push_dec};

verus! {

/// Display fetch the VGA programming selects.
#[derive(Clone, Copy, Debug, PartialEq, Eq, Structural)]
pub enum VgaRenderMode {
    /// Alphanumeric (text mode 03h).
    Text,
    /// Chain-4 256-color (mode 13h).
    Graphics256Chain4,
    /// Planar 16-color (modes 0Dh/0Eh/10h/12h).
    Graphics16Planar,
    /// No display fetch in this model.
    Unsupported,
}

/// A rendered frame as palette indices.
#[derive(Clone, Debug, PartialEq, Eq)]
pub struct VgaFrame {
    /// Fetch that produced the frame.
    pub mode: VgaRenderMode,
    /// Width in pixels.
    pub width: usize,
    /// Height in pixels.
    pub height: usize,
    /// One palette index per pixel.
    pub pixels: Vec<u8>,
    /// Text mode: whether a font was loaded into plane 2; `None` for graphics.
    pub font_installed: Option<bool>,
}

impl VgaRenderMode {
    /// Report name of the mode.
    pub open spec fn spec_name(self) -> Seq<char> {
        match self {
            VgaRenderMode::Text => "text"@,
            VgaRenderMode::Graphics256Chain4 => "graphics256-chain4"@,
            VgaRenderMode::Graphics16Planar => "graphics16-planar"@,
            VgaRenderMode::Unsupported => "unsupported"@,
        }
    }
}

/// Report name of a render mode.
pub fn render_mode_name(mode: VgaRenderMode) -> (r: &'static str)
    ensures
        r@ == mode.spec_name(),
{
    match mode {
        VgaRenderMode::Text => "text",
        VgaRenderMode::Graphics256Chain4 => "graphics256-chain4",
        VgaRenderMode::Graphics16Planar => "graphics16-planar",
        VgaRenderMode::Unsupported => "unsupported",
    }
}

/// Number of non-zero entries of `s`.
pub open spec fn nonzero_count(s: Seq<u8>) -> nat
    decreases s.len(),
{
    if s.len() == 0 {
        0
    } else {
        nonzero_count(s.drop_last()) + if s.last() != 0 {
            1nat
        } else {
            0nat
        }
    }
}

/// How the report names the font state.
pub open spec fn font_word(font: Option<bool>) -> Seq<char> {
    match font {
        Some(true) => "yes"@,
        Some(false) => "no"@,
        None => "n/a"@,
    }
}

/// Report when the programming has no display fetch.
pub open spec fn no_frame_text(mode: VgaRenderMode) -> Seq<char> {
    "vga-frame: mode="@ + mode.spec_name()
        + " rendered=no \u{2014} the current programming has no display fetch in this model (no CGA-compatible modes, no unchained mode X, no VBE, no host display)"@
}

/// Report of a rendered frame whose RGBA conversion is `rgba_bytes` long.
pub open spec fn frame_text(frame: VgaFrame, rgba_bytes: usize, blink_off_half: bool) -> Seq<char> {
    "vga-frame: mode="@ + frame.mode.spec_name() + " rendered=yes width="@ + dec_digits(
        frame.width as nat,
    ) + " height="@ + dec_digits(frame.height as nat) + " pixels="@ + dec_digits(
        frame.pixels@.len(),
    ) + " nonzero_indices="@ + dec_digits(nonzero_count(frame.pixels@)) + " rgba_bytes="@
        + dec_digits(rgba_bytes as nat) + " blink_off_half="@ + (if blink_off_half {
        "1"@
    } else {
        "0"@
    }) + " font_installed="@ + font_word(frame.font_installed)
}

/// Count the non-zero palette indices of a frame.
fn count_nonzero(pixels: &[u8]) -> (r: usize)
    ensures
        r == nonzero_count(pixels@),
{
    let mut n: usize = 0;
    let mut i: usize = 0;
    while i < pixels.len()
        invariant
            i <= pixels@.len(),
            n == nonzero_count(pixels@.take(i as int)),
            n <= i,
        decreases pixels@.len() - i,
    {
        assert(pixels@.take(i as int + 1).drop_last() =~= pixels@.take(i as int));
        if pixels[i] != 0 {
            n = n + 1;
        }
        i = i + 1;
    }
    assert(pixels@.take(pixels@.len() as int) =~= pixels@);
    n
}

/// Describe the current display: the mode the programming selects, and for
/// a rendered frame (`frame`, with `rgba_bytes` the length of its RGBA
/// conversion) its size, the count of non-zero palette indices, the blink
/// phase asked for and whether a text font is loaded. Without a frame the
/// report says that this programming has no renderer.
pub fn vga_frame_report(
    mode: VgaRenderMode,
    frame: Option<&VgaFrame>,
    rgba_bytes: usize,
    blink_off_half: bool,
) -> (r: String)
    ensures
        r@ == match frame {
            None => no_frame_text(mode),
            Some(f) => frame_text(*f, rgba_bytes, blink_off_half),
        },
{
    let f = match frame {
        None => {
            let mut s = String::from_str("vga-frame: mode=");
            s.append(render_mode_name(mode));
            s.append(
                " rendered=no \u{2014} the current programming has no display fetch in this model (no CGA-compatible modes, no unchained mode X, no VBE, no host display)",
            );
            assert(s@ =~= no_frame_text(mode));
            return s;
        },
        Some(f) => f,
    };
    let nonzero = count_nonzero(f.pixels.as_slice());
    let mut s = String::from_str("vga-frame: mode=");
    s.append(render_mode_name(f.mode));
    s.append(" rendered=yes width=");
    push_dec(&mut s, f.width as u64);
    s.append(" height=");
    push_dec(&mut s, f.height as u64);
    s.append(" pixels=");
    push_dec(&mut s, f.pixels.len() as u64);
    s.append(" nonzero_indices=");
    push_dec(&mut s, nonzero as u64);
    s.append(" rgba_bytes=");
    push_dec(&mut s, rgba_bytes as u64);
    s.append(" blink_off_half=");
    s.append(
        if blink_off_half {
            "1"
        } else {
            "0"
        },
    );
    s.append(" font_installed=");
    s.append(
        match f.font_installed {
            Some(true) => "yes",
            Some(false) => "no",
            None => "n/a",
        },
    );
    assert(s@ =~= frame_text(*f, rgba_bytes, blink_off_half));
    s
}

} // verus!
