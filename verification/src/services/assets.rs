//! Fonts.

use vstd::prelude::*;

verus! {

/// The fonts that text is drawn with, by family: for each family the names of its fonts,
/// the one that is tried first in front.
#[derive(Debug)]
pub struct FontFamilies {
    pub proportional: Vec<String>,
    pub monospace: Vec<String>,
}

/// The names that a list of fonts holds, in its order.
pub open spec fn font_names(fonts: Seq<String>) -> Seq<Seq<char>> {
    fonts.map_values(|name: String| name@)
}

/// The name under which the scene's own font is known.
pub open spec fn own_font() -> Seq<char> {
    "Hack-Bold"@
}

/// The name under which the scene's own font is known.
pub fn own_font_name() -> (name: String)
    ensures
        name@ == own_font(),
{
    "Hack-Bold".to_owned()
}

/// Makes the scene's own font known to both families: proportional text is drawn with it
/// before all others, monospaced text only where no other font has the glyph.
pub fn load_fonts(fonts: &mut FontFamilies)
    ensures
        font_names(final(fonts).proportional@) == seq![own_font()] + font_names(
            old(fonts).proportional@,
        ),
        font_names(final(fonts).monospace@) == font_names(old(fonts).monospace@).push(own_font()),
{
    fonts.proportional.insert(0, own_font_name());
    fonts.monospace.push(own_font_name());
    proof {
        assert(font_names(fonts.proportional@) =~= seq![own_font()] + font_names(
            old(fonts).proportional@,
        ));
        assert(font_names(fonts.monospace@) =~= font_names(old(fonts).monospace@).push(own_font()));
    }
}

} // verus!
