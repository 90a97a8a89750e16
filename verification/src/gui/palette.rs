//! The colours of the interface, as far as they depend on the state of what they colour.

use vstd::prelude::*;

verus! {

/// A colour by its red, green and blue parts and its opacity.
#[derive(Debug, Clone, Copy, PartialEq, Eq, Structural)]
pub struct Rgba {
    pub red: u8,
    pub green: u8,
    pub blue: u8,
    pub alpha: u8,
}

/// An opaque colour.
pub open spec fn opaque(red: u8, green: u8, blue: u8) -> Rgba {
    Rgba { red, green, blue, alpha: 255 }
}

/// An opaque colour.
pub fn rgb(red: u8, green: u8, blue: u8) -> (color: Rgba)
    ensures
        color == opaque(red, green, blue),
{
    Rgba { red, green, blue, alpha: 255 }
}

/// The colours of a button.
#[derive(Debug, Clone, Copy, PartialEq, Eq, Structural)]
pub struct Palette {
    pub fill: Rgba,
    pub text: Rgba,
    pub stroke: Rgba,
}

/// The colours of a button in the title bar; the one that closes the window stands out.
pub fn title_bar_button(danger: bool, enabled: bool) -> (palette: Palette)
    ensures
        palette == (if !enabled {
            Palette {
                fill: Rgba { red: 255, green: 255, blue: 255, alpha: 4 },
                text: opaque(112, 119, 127),
                stroke: opaque(42, 48, 56),
            }
        } else if danger {
            Palette {
                fill: Rgba { red: 200, green: 60, blue: 50, alpha: 35 },
                text: opaque(248, 248, 250),
                stroke: opaque(110, 55, 50),
            }
        } else {
            Palette {
                fill: Rgba { red: 255, green: 255, blue: 255, alpha: 12 },
                text: opaque(220, 225, 230),
                stroke: opaque(60, 66, 74),
            }
        }),
{
    if enabled {
        if danger {
            Palette {
                fill: Rgba { red: 200, green: 60, blue: 50, alpha: 35 },
                text: rgb(248, 248, 250),
                stroke: rgb(110, 55, 50),
            }
        } else {
            Palette {
                fill: Rgba { red: 255, green: 255, blue: 255, alpha: 12 },
                text: rgb(220, 225, 230),
                stroke: rgb(60, 66, 74),
            }
        }
    } else {
        Palette {
            fill: Rgba { red: 255, green: 255, blue: 255, alpha: 4 },
            text: rgb(112, 119, 127),
            stroke: rgb(42, 48, 56),
        }
    }
}

/// The colours of the button that starts or stops the service, while it can be pressed.
pub fn launcher_primary_button(running: bool) -> (palette: Palette)
    ensures
        palette == (if running {
            Palette {
                fill: opaque(186, 63, 21),
                text: opaque(248, 245, 243),
                stroke: opaque(223, 109, 51),
            }
        } else {
            Palette {
                fill: opaque(229, 171, 66),
                text: opaque(29, 24, 16),
                stroke: opaque(214, 158, 59),
            }
        }),
{
    if running {
        Palette { fill: rgb(186, 63, 21), text: rgb(248, 245, 243), stroke: rgb(223, 109, 51) }
    } else {
        Palette { fill: rgb(229, 171, 66), text: rgb(29, 24, 16), stroke: rgb(214, 158, 59) }
    }
}

/// The colours of a lesser button of the launcher.
pub fn launcher_secondary_button(enabled: bool) -> (palette: Palette)
    ensures
        palette == (if enabled {
            Palette {
                fill: opaque(34, 39, 46),
                text: opaque(236, 240, 244),
                stroke: opaque(70, 76, 84),
            }
        } else {
            Palette {
                fill: opaque(28, 32, 38),
                text: opaque(133, 140, 148),
                stroke: opaque(56, 61, 69),
            }
        }),
{
    if enabled {
        Palette { fill: rgb(34, 39, 46), text: rgb(236, 240, 244), stroke: rgb(70, 76, 84) }
    } else {
        Palette { fill: rgb(28, 32, 38), text: rgb(133, 140, 148), stroke: rgb(56, 61, 69) }
    }
}

/// The colours of a plain button.
pub fn subtle_button(enabled: bool) -> (palette: Palette)
    ensures
        palette == (if enabled {
            Palette {
                fill: opaque(28, 33, 40),
                text: opaque(236, 239, 242),
                stroke: opaque(62, 68, 76),
            }
        } else {
            Palette {
                fill: opaque(24, 28, 33),
                text: opaque(126, 133, 141),
                stroke: opaque(52, 58, 66),
            }
        }),
{
    if enabled {
        Palette { fill: rgb(28, 33, 40), text: rgb(236, 239, 242), stroke: rgb(62, 68, 76) }
    } else {
        Palette { fill: rgb(24, 28, 33), text: rgb(126, 133, 141), stroke: rgb(52, 58, 66) }
    }
}

/// The colours of a button that chooses the version of IP, while it can be pressed.
pub fn ip_priority_button(selected: bool) -> (palette: Palette)
    ensures
        palette == (if selected {
            Palette {
                fill: opaque(229, 171, 66),
                text: opaque(29, 24, 16),
                stroke: opaque(214, 158, 59),
            }
        } else {
            Palette {
                fill: opaque(28, 33, 40),
                text: opaque(216, 221, 226),
                stroke: opaque(62, 68, 76),
            }
        }),
{
    if selected {
        Palette { fill: rgb(229, 171, 66), text: rgb(29, 24, 16), stroke: rgb(214, 158, 59) }
    } else {
        Palette { fill: rgb(28, 33, 40), text: rgb(216, 221, 226), stroke: rgb(62, 68, 76) }
    }
}

/// An opaque colour has the parts that it was given, and nothing shines through it.
pub proof fn law_opaque_colours_hide(red: u8, green: u8, blue: u8)
    ensures
        opaque(red, green, blue).red == red,
        opaque(red, green, blue).green == green,
        opaque(red, green, blue).blue == blue,
        opaque(red, green, blue).alpha == 255,
{
}

} // verus!
