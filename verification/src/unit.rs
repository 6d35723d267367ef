//! Classification of characters by display width.

use unicode_width::UnicodeWidthChar;
use vstd::prelude::*;

verus! {

/// The delay class of a unit of output.
#[derive(Debug, Clone, Copy, PartialEq, Eq, Structural)]
pub enum UnitClass {
    /// A half-width character, or a chunk of bytes.
    Plain,
    /// A character two columns wide.
    Wide,
    /// A control character, which has no width.
    Control,
}

/// The display width of a character in a CJK context, as the East Asian
/// width tables of the `unicode-width` crate give it; `None` for a character
/// without a width.
pub uninterp spec fn cjk_width(ch: char) -> Option<usize>;

/// The C0 and C1 control codes, with DEL.
pub open spec fn is_control_code(ch: char) -> bool {
    ch as u32 <= 0x1F || 0x7F <= ch as u32 <= 0x9F
}

/// The printable characters of ASCII, the space included.
pub open spec fn is_printable_ascii(ch: char) -> bool {
    0x20 <= ch as u32 <= 0x7E
}

/// `UnicodeWidthChar::width_cjk` of `unicode-width`. The crate answers
/// `None` exactly for the control codes below U+00A0, one column for
/// printable ASCII, and for every other character what its tables hold.
#[verifier::external_body]
fn width_cjk(ch: char) -> (width: Option<usize>)
    ensures
        width == cjk_width(ch),
        width is None <==> is_control_code(ch),
        is_printable_ascii(ch) ==> width == Some(1usize),
{
    ch.width_cjk()
}

/// The class of a character whose width lookup gave `width`: no width means
/// a control character, two columns a wide one, anything else a plain one.
pub open spec fn class_of_width(width: Option<usize>) -> UnitClass {
    match width {
        None => UnitClass::Control,
        Some(w) => if w == 2 {
            UnitClass::Wide
        } else {
            UnitClass::Plain
        },
    }
}

/// The class of a character.
pub open spec fn class_of(ch: char) -> UnitClass {
    class_of_width(cjk_width(ch))
}

/// Classifies a character from the result of its width lookup.
pub fn classify_width(width: Option<usize>) -> (class: UnitClass)
    ensures
        class == class_of_width(width),
{
    match width {
        None => UnitClass::Control,
        Some(w) => if w == 2 {
            UnitClass::Wide
        } else {
            UnitClass::Plain
        },
    }
}

/// Classifies a character by its display width in a CJK context. Control
/// codes are exactly the characters classified as `Control`, and printable
/// ASCII is `Plain`.
pub fn classify(ch: char) -> (class: UnitClass)
    ensures
        class == class_of(ch),
        class == UnitClass::Control <==> is_control_code(ch),
        is_printable_ascii(ch) ==> class == UnitClass::Plain,
{
    classify_width(width_cjk(ch))
}

/// The class of a character depends on the character alone: wherever two
/// characters are equal, so are their classes.
pub proof fn class_is_determined_by_char(a: char, b: char)
    requires
        a == b,
    ensures
        class_of(a) == class_of(b),
{
}

} // verus!
