//! Identicons: the four characters and the colour that the algorithm derives from a
//! user's name and secret, and the markup that shows them.
use vstd::prelude::*;

use crate::text::{last_char_or, last_char_or_spec, push_char};

verus! {

/// The colours of an identicon.
#[derive(Clone, Copy, Debug, PartialEq, Eq, Structural)]
pub enum IdenticonColor {
    Unset,
    Red,
    Green,
    Yellow,
    Blue,
    Magenta,
    Cyan,
    White,
}

/// The code of the first colour that the algorithm hands out.
#[allow(non_upper_case_globals)]
pub const IdenticonColorFirst: u32 = 1;

/// The code of the last colour that the algorithm hands out.
#[allow(non_upper_case_globals)]
pub const IdenticonColorLast: u32 = 7;

impl IdenticonColor {
    /// The numeric code of the colour in the algorithm's interface.
    pub open spec fn code(self) -> u32 {
        match self {
            IdenticonColor::Unset => 0,
            IdenticonColor::Red => 1,
            IdenticonColor::Green => 2,
            IdenticonColor::Yellow => 3,
            IdenticonColor::Blue => 4,
            IdenticonColor::Magenta => 5,
            IdenticonColor::Cyan => 6,
            IdenticonColor::White => 7,
        }
    }

    /// The colour with numeric code `code`, if there is one.
    pub open spec fn from_code(code: u32) -> Option<IdenticonColor> {
        if code == 0 {
            Some(IdenticonColor::Unset)
        } else if code == 1 {
            Some(IdenticonColor::Red)
        } else if code == 2 {
            Some(IdenticonColor::Green)
        } else if code == 3 {
            Some(IdenticonColor::Yellow)
        } else if code == 4 {
            Some(IdenticonColor::Blue)
        } else if code == 5 {
            Some(IdenticonColor::Magenta)
        } else if code == 6 {
            Some(IdenticonColor::Cyan)
        } else if code == 7 {
            Some(IdenticonColor::White)
        } else {
            None
        }
    }

    /// The markup colour of the colour.
    pub open spec fn color_code(self) -> Seq<char> {
        match self {
            IdenticonColor::Red => "#bb1111"@,
            IdenticonColor::Green => "#11bb11"@,
            IdenticonColor::Yellow => "#11bbbb"@,
            IdenticonColor::Blue => "#1111bb"@,
            IdenticonColor::Magenta => "#bb11bb"@,
            IdenticonColor::Cyan => "#11bbbb"@,
            IdenticonColor::White => "#bbbbbb"@,
            IdenticonColor::Unset => "#000000"@,
        }
    }

    /// The numeric code of the colour.
    pub fn to_u32(&self) -> (r: u32)
        ensures
            r == self.code(),
    {
        match self {
            IdenticonColor::Unset => 0,
            IdenticonColor::Red => 1,
            IdenticonColor::Green => 2,
            IdenticonColor::Yellow => 3,
            IdenticonColor::Blue => 4,
            IdenticonColor::Magenta => 5,
            IdenticonColor::Cyan => 6,
            IdenticonColor::White => 7,
        }
    }

    /// The colour with the given numeric code; `None` for a code that names none.
    pub fn from_u32(code: u32) -> (r: Option<IdenticonColor>)
        ensures
            r == IdenticonColor::from_code(code),
    {
        if code == 0 {
            Some(IdenticonColor::Unset)
        } else if code == 1 {
            Some(IdenticonColor::Red)
        } else if code == 2 {
            Some(IdenticonColor::Green)
        } else if code == 3 {
            Some(IdenticonColor::Yellow)
        } else if code == 4 {
            Some(IdenticonColor::Blue)
        } else if code == 5 {
            Some(IdenticonColor::Magenta)
        } else if code == 6 {
            Some(IdenticonColor::Cyan)
        } else if code == 7 {
            Some(IdenticonColor::White)
        } else {
            None
        }
    }

    /// The markup colour of the colour, such as "#bb1111" for red.
    pub fn to_color_code(&self) -> (r: &'static str)
        ensures
            r@ == self.color_code(),
    {
        match self {
            IdenticonColor::Red => "#bb1111",
            IdenticonColor::Green => "#11bb11",
            IdenticonColor::Yellow => "#11bbbb",
            IdenticonColor::Blue => "#1111bb",
            IdenticonColor::Magenta => "#bb11bb",
            IdenticonColor::Cyan => "#11bbbb",
            IdenticonColor::White => "#bbbbbb",
            IdenticonColor::Unset => "#000000",
        }
    }
}

/// An identicon: a small figure of four characters in a colour.
#[allow(non_snake_case)]
pub struct Identicon {
    pub leftArm: char,
    pub body: char,
    pub rightArm: char,
    pub accessory: char,
    pub color: IdenticonColor,
}

/// The Pango markup that shows the four characters of an identicon in its colour.
pub open spec fn markup_spec(
    color: IdenticonColor,
    left_arm: char,
    body: char,
    right_arm: char,
    accessory: char,
) -> Seq<char> {
    "<span foreground='"@ + color.color_code() + "'>"@ + seq![left_arm, body, right_arm, accessory]
        + "</span>"@
}

/// The identicon character that a piece of text stands for: its last character, or '*'
/// when it is empty.
pub open spec fn identicon_char(s: Seq<char>) -> char {
    last_char_or_spec(s, '*')
}

/// The colour that a numeric code stands for in an identicon: a code that names no colour
/// shows as white.
pub open spec fn identicon_color(code: u32) -> IdenticonColor {
    match IdenticonColor::from_code(code) {
        Some(c) => c,
        None => IdenticonColor::White,
    }
}

impl Identicon {
    /// The markup `<span foreground='COLOR'>ABCD</span>` for the identicon.
    pub fn to_markup_string(&self) -> (r: String)
        ensures
            r@ == markup_spec(self.color, self.leftArm, self.body, self.rightArm, self.accessory),
    {
        let mut r = String::from_str("<span foreground='");
        r.append(self.color.to_color_code());
        r.append("'>");
        push_char(&mut r, self.leftArm);
        push_char(&mut r, self.body);
        push_char(&mut r, self.rightArm);
        push_char(&mut r, self.accessory);
        r.append("</span>");
        assert(r@ =~= markup_spec(
            self.color,
            self.leftArm,
            self.body,
            self.rightArm,
            self.accessory,
        ));
        r
    }

    /// The identicon that the algorithm's four texts and colour code describe: each part is
    /// the last character of its text, or '*' for an empty text, and a colour code that
    /// names no colour gives white.
    pub fn from_parts(
        left_arm: &str,
        body: &str,
        right_arm: &str,
        accessory: &str,
        color: u32,
    ) -> (r: Identicon)
        ensures
            r.leftArm == identicon_char(left_arm@),
            r.body == identicon_char(body@),
            r.rightArm == identicon_char(right_arm@),
            r.accessory == identicon_char(accessory@),
            r.color == identicon_color(color),
            IdenticonColor::from_code(color) matches Some(c) ==> r.color == c,
            IdenticonColor::from_code(color) is None ==> r.color == IdenticonColor::White,
    {
        let color = match IdenticonColor::from_u32(color) {
            Some(c) => c,
            None => IdenticonColor::White,
        };
        Identicon {
            leftArm: last_char_or(left_arm, '*'),
            body: last_char_or(body, '*'),
            rightArm: last_char_or(right_arm, '*'),
            accessory: last_char_or(accessory, '*'),
            color,
        }
    }
}

/// Every colour's numeric code gives that colour back; the codes that the algorithm hands
/// out, from `IdenticonColorFirst` to `IdenticonColorLast`, all name colours other than
/// `Unset`.
pub proof fn law_identicon_color_code_roundtrip(c: IdenticonColor, code: u32)
    ensures
        IdenticonColor::from_code(c.code()) == Some(c),
        IdenticonColorFirst <= code <= IdenticonColorLast ==> (IdenticonColor::from_code(code)
            matches Some(d) && d != IdenticonColor::Unset && d.code() == code),
{
}

/// An identicon takes the colour that its code names: every colour's own code gives that
/// colour, every code up to 7 gives the colour whose code it is, and only a code above 7,
/// which names no colour, gives white.
pub proof fn law_identicon_takes_named_color(c: IdenticonColor, code: u32)
    ensures
        identicon_color(c.code()) == c,
        code <= 7 ==> identicon_color(code).code() == code,
        code > 7 ==> identicon_color(code) == IdenticonColor::White,
        IdenticonColor::from_code(code) == Some(c) ==> identicon_color(code) == c,
{
}

/// Every colour code is a '#' followed by six hexadecimal digits.
pub proof fn law_color_codes_are_hex(c: IdenticonColor)
    ensures
        c.color_code().len() == 7,
        c.color_code()[0] == '#',
        forall|i: int|
            1 <= i < 7 ==> ('0' <= #[trigger] c.color_code()[i] <= '9' || 'a' <= c.color_code()[i]
                <= 'f'),
{
    reveal_strlit("#bb1111");
    reveal_strlit("#11bb11");
    reveal_strlit("#11bbbb");
    reveal_strlit("#1111bb");
    reveal_strlit("#bb11bb");
    reveal_strlit("#bbbbbb");
    reveal_strlit("#000000");
}

} // verus!
