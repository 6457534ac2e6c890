//! Terminal color schemes: escape sequences for each semantic role.

use vstd::prelude::*;
use vstd::string::StringExecFns;

use crate::config::Config;
use crate::text::{dec_digits, u64_string};

verus! {

/// The truecolor foreground escape sequence for the given channels.
pub open spec fn spec_rgb(r: u8, g: u8, b: u8) -> Seq<char> {
    "\u{1b}[38;2;"@ + dec_digits(r as nat) + ";"@ + dec_digits(g as nat) + ";"@ + dec_digits(
        b as nat,
    ) + "m"@
}

pub fn format_rgb(r: u8, g: u8, b: u8) -> (s: String)
    ensures
        s@ == spec_rgb(r, g, b),
{
    let mut s = String::from_str("\u{1b}[38;2;");
    s.append(u64_string(r as u64).as_str());
    s.append(";");
    s.append(u64_string(g as u64).as_str());
    s.append(";");
    s.append(u64_string(b as u64).as_str());
    s.append("m");
    s
}

/// The escape sequences used while rendering; all empty when color is
/// disabled, so that the rendered text is plain.
pub struct ColorScheme {
    pub reset: String,
    pub bold: String,
    pub primary: String,
    pub secondary: String,
    pub warning: String,
    pub error: String,
    pub muted: String,
    pub color1: String,
    pub color2: String,
    pub color3: String,
    pub color4: String,
    pub color5: String,
    pub color6: String,
}

pub open spec fn all_empty(cs: &ColorScheme) -> bool {
    &&& cs.reset@.len() == 0
    &&& cs.bold@.len() == 0
    &&& cs.primary@.len() == 0
    &&& cs.secondary@.len() == 0
    &&& cs.warning@.len() == 0
    &&& cs.error@.len() == 0
    &&& cs.muted@.len() == 0
    &&& cs.color1@.len() == 0
    &&& cs.color2@.len() == 0
    &&& cs.color3@.len() == 0
    &&& cs.color4@.len() == 0
    &&& cs.color5@.len() == 0
    &&& cs.color6@.len() == 0
}

impl ColorScheme {
    /// The scheme the configuration asks for. Without color every
    /// sequence is empty; with color, the named theme decides the exact
    /// channels of every role, and an unnamed theme gets the fallback
    /// palette.
    #[verifier::rlimit(100)]
    #[verifier::spinoff_prover]
    pub fn new(config: &Config) -> (cs: ColorScheme)
        ensures
            !config.use_color ==> all_empty(&cs),
            config.use_color ==> cs.reset@ == "\u{1b}[0m"@ && cs.bold@ == "\u{1b}[1m"@,
            config.use_color && config.color_scheme@ == "classic"@ ==> (cs.primary@ == spec_rgb(70, 170, 200) && cs.secondary@ == spec_rgb(120, 190, 80) && cs.warning@ == spec_rgb(220, 180, 70) && cs.error@ == spec_rgb(220, 80, 90) && cs.muted@ == spec_rgb(150, 150, 150) && cs.color1@ == spec_rgb(220, 80, 90) && cs.color2@ == spec_rgb(120, 190, 80) && cs.color3@ == spec_rgb(220, 180, 70) && cs.color4@ == spec_rgb(70, 140, 220) && cs.color5@ == spec_rgb(140, 120, 200) && cs.color6@ == spec_rgb(70, 170, 200)),
            config.use_color && config.color_scheme@ == "pastel"@ ==> (cs.primary@ == spec_rgb(100, 180, 200) && cs.secondary@ == spec_rgb(150, 200, 130) && cs.warning@ == spec_rgb(230, 200, 120) && cs.error@ == spec_rgb(230, 130, 130) && cs.muted@ == spec_rgb(170, 170, 180) && cs.color1@ == spec_rgb(230, 130, 130) && cs.color2@ == spec_rgb(150, 200, 130) && cs.color3@ == spec_rgb(230, 200, 120) && cs.color4@ == spec_rgb(130, 170, 230) && cs.color5@ == spec_rgb(180, 160, 210) && cs.color6@ == spec_rgb(130, 200, 210)),
            config.use_color && config.color_scheme@ == "gruvbox"@ ==> (cs.primary@ == spec_rgb(131, 165, 152) && cs.secondary@ == spec_rgb(184, 187, 38) && cs.warning@ == spec_rgb(250, 189, 47) && cs.error@ == spec_rgb(251, 73, 52) && cs.muted@ == spec_rgb(168, 153, 132) && cs.color1@ == spec_rgb(251, 73, 52) && cs.color2@ == spec_rgb(184, 187, 38) && cs.color3@ == spec_rgb(250, 189, 47) && cs.color4@ == spec_rgb(131, 165, 152) && cs.color5@ == spec_rgb(211, 134, 155) && cs.color6@ == spec_rgb(254, 128, 25)),
            config.use_color && config.color_scheme@ == "nord"@ ==> (cs.primary@ == spec_rgb(136, 192, 208) && cs.secondary@ == spec_rgb(163, 190, 140) && cs.warning@ == spec_rgb(235, 203, 139) && cs.error@ == spec_rgb(191, 97, 106) && cs.muted@ == spec_rgb(216, 222, 233) && cs.color1@ == spec_rgb(191, 97, 106) && cs.color2@ == spec_rgb(163, 190, 140) && cs.color3@ == spec_rgb(235, 203, 139) && cs.color4@ == spec_rgb(129, 161, 193) && cs.color5@ == spec_rgb(180, 142, 173) && cs.color6@ == spec_rgb(136, 192, 208)),
            config.use_color && config.color_scheme@ == "dracula"@ ==> (cs.primary@ == spec_rgb(139, 233, 253) && cs.secondary@ == spec_rgb(80, 250, 123) && cs.warning@ == spec_rgb(241, 250, 140) && cs.error@ == spec_rgb(255, 85, 85) && cs.muted@ == spec_rgb(98, 114, 164) && cs.color1@ == spec_rgb(255, 85, 85) && cs.color2@ == spec_rgb(80, 250, 123) && cs.color3@ == spec_rgb(241, 250, 140) && cs.color4@ == spec_rgb(98, 114, 164) && cs.color5@ == spec_rgb(189, 147, 249) && cs.color6@ == spec_rgb(255, 121, 198)),
            config.use_color && config.color_scheme@ != "classic"@ && config.color_scheme@ != "pastel"@ && config.color_scheme@ != "gruvbox"@ && config.color_scheme@ != "nord"@ && config.color_scheme@ != "dracula"@ ==> (cs.primary@ == spec_rgb(80, 160, 200) && cs.secondary@ == spec_rgb(100, 180, 100) && cs.warning@ == spec_rgb(220, 180, 80) && cs.error@ == spec_rgb(220, 80, 80) && cs.muted@ == spec_rgb(140, 140, 160) && cs.color1@ == spec_rgb(220, 80, 80) && cs.color2@ == spec_rgb(100, 180, 100) && cs.color3@ == spec_rgb(220, 180, 80) && cs.color4@ == spec_rgb(80, 120, 200) && cs.color5@ == spec_rgb(160, 120, 200) && cs.color6@ == spec_rgb(80, 160, 200)),
    {
        proof {
            reveal_strlit("classic");
            reveal_strlit("pastel");
            reveal_strlit("gruvbox");
            reveal_strlit("nord");
            reveal_strlit("dracula");
            assert("classic"@.len() == 7 && "pastel"@.len() == 6 && "gruvbox"@.len() == 7
                && "nord"@.len() == 4 && "dracula"@.len() == 7);
            assert("classic"@[0] == 'c');
            assert("pastel"@[0] == 'p');
            assert("gruvbox"@[0] == 'g');
            assert("nord"@[0] == 'n');
            assert("dracula"@[0] == 'd');
        }
        if !config.use_color {
            return ColorScheme {
                reset: String::new(),
                bold: String::new(),
                primary: String::new(),
                secondary: String::new(),
                warning: String::new(),
                error: String::new(),
                muted: String::new(),
                color1: String::new(),
                color2: String::new(),
                color3: String::new(),
                color4: String::new(),
                color5: String::new(),
                color6: String::new(),
            };
        }
        let name = config.color_scheme.as_str();
        if crate::text::str_eq(name, "classic") {
            ColorScheme {
                reset: String::from_str("\u{1b}[0m"),
                bold: String::from_str("\u{1b}[1m"),
                primary: format_rgb(70, 170, 200),
                secondary: format_rgb(120, 190, 80),
                warning: format_rgb(220, 180, 70),
                error: format_rgb(220, 80, 90),
                muted: format_rgb(150, 150, 150),
                color1: format_rgb(220, 80, 90),
                color2: format_rgb(120, 190, 80),
                color3: format_rgb(220, 180, 70),
                color4: format_rgb(70, 140, 220),
                color5: format_rgb(140, 120, 200),
                color6: format_rgb(70, 170, 200),
            }
        } else if crate::text::str_eq(name, "pastel") {
            ColorScheme {
                reset: String::from_str("\u{1b}[0m"),
                bold: String::from_str("\u{1b}[1m"),
                primary: format_rgb(100, 180, 200),
                secondary: format_rgb(150, 200, 130),
                warning: format_rgb(230, 200, 120),
                error: format_rgb(230, 130, 130),
                muted: format_rgb(170, 170, 180),
                color1: format_rgb(230, 130, 130),
                color2: format_rgb(150, 200, 130),
                color3: format_rgb(230, 200, 120),
                color4: format_rgb(130, 170, 230),
                color5: format_rgb(180, 160, 210),
                color6: format_rgb(130, 200, 210),
            }
        } else if crate::text::str_eq(name, "gruvbox") {
            ColorScheme {
                reset: String::from_str("\u{1b}[0m"),
                bold: String::from_str("\u{1b}[1m"),
                primary: format_rgb(131, 165, 152),
                secondary: format_rgb(184, 187, 38),
                warning: format_rgb(250, 189, 47),
                error: format_rgb(251, 73, 52),
                muted: format_rgb(168, 153, 132),
                color1: format_rgb(251, 73, 52),
                color2: format_rgb(184, 187, 38),
                color3: format_rgb(250, 189, 47),
                color4: format_rgb(131, 165, 152),
                color5: format_rgb(211, 134, 155),
                color6: format_rgb(254, 128, 25),
            }
        } else if crate::text::str_eq(name, "nord") {
            ColorScheme {
                reset: String::from_str("\u{1b}[0m"),
                bold: String::from_str("\u{1b}[1m"),
                primary: format_rgb(136, 192, 208),
                secondary: format_rgb(163, 190, 140),
                warning: format_rgb(235, 203, 139),
                error: format_rgb(191, 97, 106),
                muted: format_rgb(216, 222, 233),
                color1: format_rgb(191, 97, 106),
                color2: format_rgb(163, 190, 140),
                color3: format_rgb(235, 203, 139),
                color4: format_rgb(129, 161, 193),
                color5: format_rgb(180, 142, 173),
                color6: format_rgb(136, 192, 208),
            }
        } else if crate::text::str_eq(name, "dracula") {
            ColorScheme {
                reset: String::from_str("\u{1b}[0m"),
                bold: String::from_str("\u{1b}[1m"),
                primary: format_rgb(139, 233, 253),
                secondary: format_rgb(80, 250, 123),
                warning: format_rgb(241, 250, 140),
                error: format_rgb(255, 85, 85),
                muted: format_rgb(98, 114, 164),
                color1: format_rgb(255, 85, 85),
                color2: format_rgb(80, 250, 123),
                color3: format_rgb(241, 250, 140),
                color4: format_rgb(98, 114, 164),
                color5: format_rgb(189, 147, 249),
                color6: format_rgb(255, 121, 198),
            }
        } else {
            ColorScheme {
                reset: String::from_str("\u{1b}[0m"),
                bold: String::from_str("\u{1b}[1m"),
                primary: format_rgb(80, 160, 200),
                secondary: format_rgb(100, 180, 100),
                warning: format_rgb(220, 180, 80),
                error: format_rgb(220, 80, 80),
                muted: format_rgb(140, 140, 160),
                color1: format_rgb(220, 80, 80),
                color2: format_rgb(100, 180, 100),
                color3: format_rgb(220, 180, 80),
                color4: format_rgb(80, 120, 200),
                color5: format_rgb(160, 120, 200),
                color6: format_rgb(80, 160, 200),
            }
        }
    }
}

} // verus!
