//! The glyphs that mark an issue's priority.
use vstd::prelude::*;
use crate::text::{ascii_lower, is_ascii_seq, lowercase, same_text, to_lowercase};

verus! {

/// The loaded Nerd Fonts table of the `nerd_fonts` crate, carried through unread.
#[verifier::external_type_specification]
#[verifier::external_body]
pub struct ExNerdFonts(nerd_fonts::NerdFonts);

/// What a loaded Nerd Fonts table holds: each glyph name whose entry is the hexadecimal
/// code point of a character, with that character.
pub uninterp spec fn font_glyphs(nf: nerd_fonts::NerdFonts) -> Map<Seq<char>, char>;

/// The glyph that a loaded Nerd Fonts table holds under `name`, if any
/// (`NerdFonts::get`: it reads the entry under `name` as a hexadecimal code point; a
/// missing or unreadable entry gives none). It depends on the table and the name alone.
#[verifier::external_body]
fn glyph(nf: &nerd_fonts::NerdFonts, name: &str) -> (r: Option<char>)
    ensures
        r == (if font_glyphs(*nf).dom().contains(name@) {
            Some(font_glyphs(*nf)[name@])
        } else {
            None
        }),
{
    nf.get(name)
}

/// The glyph that table `nf` holds under `name`, if any.
pub open spec fn font_glyph(nf: nerd_fonts::NerdFonts, name: Seq<char>) -> Option<char> {
    if font_glyphs(nf).dom().contains(name) {
        Some(font_glyphs(nf)[name])
    } else {
        None
    }
}

/// One glyph per priority, and the glyph for any other priority.
#[derive(Debug, Clone, Copy, PartialEq, Eq, Structural)]
pub struct PriorityIcons {
    pub highest: char,
    pub high: char,
    pub medium: char,
    pub low: char,
    pub lowest: char,
    pub default_icon: char,
}

/// The icons built from the glyphs found for each priority, each missing one replaced
/// by its fallback (`!`, `↑`, `=`, `↓`, `v`), with `?` for other priorities.
pub open spec fn icons_from(
    highest: Option<char>,
    high: Option<char>,
    medium: Option<char>,
    low: Option<char>,
    lowest: Option<char>,
) -> PriorityIcons {
    PriorityIcons {
        highest: match highest { Some(c) => c, None => '!' },
        high: match high { Some(c) => c, None => '↑' },
        medium: match medium { Some(c) => c, None => '=' },
        low: match low { Some(c) => c, None => '↓' },
        lowest: match lowest { Some(c) => c, None => 'v' },
        default_icon: '?',
    }
}

/// The glyph for a priority whose lowercase name is `name`.
pub open spec fn icon_for_name(icons: PriorityIcons, name: Seq<char>) -> char {
    if name == "highest"@ {
        icons.highest
    } else if name == "high"@ {
        icons.high
    } else if name == "medium"@ {
        icons.medium
    } else if name == "low"@ {
        icons.low
    } else if name == "lowest"@ {
        icons.lowest
    } else {
        icons.default_icon
    }
}

/// The glyph for an optional priority, matched without regard to case.
pub open spec fn icon_for(icons: PriorityIcons, priority: Option<Seq<char>>) -> char {
    match priority {
        Some(p) => icon_for_name(icons, lowercase(p)),
        None => icons.default_icon,
    }
}

impl PriorityIcons {
    /// The icons from the glyphs found for each priority.
    pub fn from_glyphs(
        highest: Option<char>,
        high: Option<char>,
        medium: Option<char>,
        low: Option<char>,
        lowest: Option<char>,
    ) -> (r: Self)
        ensures
            r == icons_from(highest, high, medium, low, lowest),
    {
        PriorityIcons {
            highest: match highest { Some(c) => c, None => '!' },
            high: match high { Some(c) => c, None => '↑' },
            medium: match medium { Some(c) => c, None => '=' },
            low: match low { Some(c) => c, None => '↓' },
            lowest: match lowest { Some(c) => c, None => 'v' },
            default_icon: '?',
        }
    }

    /// The icons looked up in a loaded Nerd Fonts table under the chevron and equal
    /// signs' names, with the fallbacks of `from_glyphs`.
    pub fn from_font(nf: &nerd_fonts::NerdFonts) -> (r: Self)
        ensures
            r == icons_from(
                font_glyph(*nf, "md-chevron_double_up"@),
                font_glyph(*nf, "md-chevron_up"@),
                font_glyph(*nf, "md-equal"@),
                font_glyph(*nf, "md-chevron_down"@),
                font_glyph(*nf, "md-chevron_double_down"@),
            ),
    {
        let a = glyph(nf, "md-chevron_double_up");
        let b = glyph(nf, "md-chevron_up");
        let c = glyph(nf, "md-equal");
        let d = glyph(nf, "md-chevron_down");
        let e = glyph(nf, "md-chevron_double_down");
        PriorityIcons::from_glyphs(a, b, c, d, e)
    }

    /// The glyph for a priority, matched without regard to case; `?` for none or an
    /// unknown one. An ASCII name gets the glyph of its name with capitals made small,
    /// so names that differ only in the case of their letters get the same glyph.
    pub fn get_icon(&self, priority: Option<&String>) -> (r: char)
        ensures
            r == icon_for(
                *self,
                match priority {
                    Some(p) => Some(p@),
                    None => None,
                },
            ),
            match priority {
                Some(p) => is_ascii_seq(p@) ==> r == icon_for_name(*self, ascii_lower(p@)),
                None => true,
            },
    {
        match priority {
            Some(p) => {
                let lower = to_lowercase(p.as_str());
                let name = lower.as_str();
                if same_text(name, "highest") {
                    self.highest
                } else if same_text(name, "high") {
                    self.high
                } else if same_text(name, "medium") {
                    self.medium
                } else if same_text(name, "low") {
                    self.low
                } else if same_text(name, "lowest") {
                    self.lowest
                } else {
                    self.default_icon
                }
            },
            None => self.default_icon,
        }
    }
}

} // verus!
