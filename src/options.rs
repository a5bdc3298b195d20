use vstd::prelude::*;

use crossterm::style::Color;

verus! {

/// Total extent of the normal heart, in cells.
pub const HEART_SIZE_L: i32 = 20;

/// Total extent of the compact heart, in cells.
pub const HEART_SIZE_S: i32 = 10;

/// crossterm's terminal `Color`, with its variants as the crate declares them, so
/// that the color chosen by name is the one the terminal is given.
#[verifier::external_type_specification]
pub struct ExColor(crossterm::style::Color);

/// The configuration read once at startup.
pub struct Options {
    /// The sanitised message to show inside the heart, if any.
    pub message: Option<String>,
    /// Selects the compact size variant.
    pub petite: bool,
    /// The name of the foreground color.
    pub color: String,
}

/// The (total, half) size of the heart for a size variant.
pub open spec fn spec_heart_sizes(petite: bool) -> (i32, i32) {
    if petite {
        (HEART_SIZE_S, (HEART_SIZE_S / 2) as i32)
    } else {
        (HEART_SIZE_L, (HEART_SIZE_L / 2) as i32)
    }
}

/// Total and half size of the heart that `options` selects.
pub fn heart_sizes(options: &Options) -> (r: (i32, i32))
    ensures
        r == spec_heart_sizes(options.petite),
        options.petite ==> r == (10i32, 5i32),
        !options.petite ==> r == (20i32, 10i32),
{
    if options.petite {
        return (HEART_SIZE_S, HEART_SIZE_S / 2);
    }
    (HEART_SIZE_L, (HEART_SIZE_L / 2) as i32)
}

/// The color named by `name`; any other name gives white.
pub open spec fn spec_color(name: Seq<char>) -> Color {
    if name == "red"@ {
        Color::Red
    } else if name == "green"@ {
        Color::Green
    } else if name == "blue"@ {
        Color::Blue
    } else if name == "yellow"@ {
        Color::Yellow
    } else if name == "magenta"@ {
        Color::Magenta
    } else if name == "cyan"@ {
        Color::Cyan
    } else {
        Color::White
    }
}

/// Color names are read exactly: each of the seven names gives its own
/// color, and every other text, other spellings and the empty text included,
/// gives white.
pub proof fn lemma_color_names(name: Seq<char>)
    ensures
        spec_color("red"@) == Color::Red,
        spec_color("green"@) == Color::Green,
        spec_color("blue"@) == Color::Blue,
        spec_color("yellow"@) == Color::Yellow,
        spec_color("magenta"@) == Color::Magenta,
        spec_color("cyan"@) == Color::Cyan,
        spec_color("white"@) == Color::White,
        name != "red"@ && name != "green"@ && name != "blue"@ && name != "yellow"@
            && name != "magenta"@ && name != "cyan"@ ==> spec_color(name) == Color::White,
{
    reveal_strlit("red");
    reveal_strlit("green");
    reveal_strlit("blue");
    reveal_strlit("yellow");
    reveal_strlit("magenta");
    reveal_strlit("cyan");
    reveal_strlit("white");
    // the seven names differ in their first letter
    assert("red"@[0] == 'r' && "green"@[0] == 'g' && "blue"@[0] == 'b' && "yellow"@[0] == 'y'
        && "magenta"@[0] == 'm' && "cyan"@[0] == 'c' && "white"@[0] == 'w');
}

/// Whether `a` and `b` hold the same characters.
pub fn same_text(a: &str, b: &str) -> (r: bool)
    ensures
        r == (a@ == b@),
{
    let n = a.unicode_len();
    if n != b.unicode_len() {
        return false;
    }
    let mut i: usize = 0;
    while i < n
        invariant
            n == a@.len(),
            n == b@.len(),
            i <= n,
            forall|j: int| 0 <= j < i ==> a@[j] == b@[j],
        decreases n - i,
    {
        if a.get_char(i) != b.get_char(i) {
            return false;
        }
        i = i + 1;
    }
    assert(a@ =~= b@);
    true
}

/// The foreground color that `color_str` names; an unknown name gives white.
pub fn parse_color(color_str: &str) -> (r: Color)
    ensures
        r == spec_color(color_str@),
{
    proof {
        reveal_strlit("red");
        reveal_strlit("green");
        reveal_strlit("blue");
        reveal_strlit("yellow");
        reveal_strlit("magenta");
        reveal_strlit("cyan");
    }
    if same_text(color_str, "red") {
        Color::Red
    } else if same_text(color_str, "green") {
        Color::Green
    } else if same_text(color_str, "blue") {
        Color::Blue
    } else if same_text(color_str, "yellow") {
        Color::Yellow
    } else if same_text(color_str, "magenta") {
        Color::Magenta
    } else if same_text(color_str, "cyan") {
        Color::Cyan
    } else {
        Color::White
    }
}

} // verus!
