//! Color specifications parsed from configuration strings: named colors with
//! light/dark variants, the terminal default, palette indices, and literal
//! RGB triples.

use crate::strutil::str_eq;
use vstd::prelude::*;
use vstd::string::*;

verus! {

/// A configured color.
#[derive(Clone, Copy, Debug, PartialEq, Eq, Structural)]
pub enum Color {
    LightWhite,
    LightBlack,
    LightBlue,
    LightCyan,
    LightGreen,
    LightMagenta,
    LightRed,
    LightYellow,
    DarkWhite,
    DarkBlack,
    DarkBlue,
    DarkCyan,
    DarkGreen,
    DarkMagenta,
    DarkRed,
    DarkYellow,
    Default,
    Index(i16),
    RGB { red: i16, green: i16, blue: i16 },
}

/// Index of the first comma in `s` (its length when it has none).
pub open spec fn spec_find_comma(s: Seq<char>) -> nat
    decreases s.len(),
{
    if s.len() == 0 {
        0
    } else if s.first() == ',' {
        0
    } else {
        1 + spec_find_comma(s.drop_first())
    }
}

/// The comma-separated pieces of `s`; always at least one piece, and empty
/// pieces are kept.
pub open spec fn spec_split_commas(s: Seq<char>) -> Seq<Seq<char>>
    decreases s.len(),
{
    let i = spec_find_comma(s) as int;
    if i >= s.len() {
        seq![s]
    } else {
        seq![s.take(i)] + spec_split_commas(s.skip(i + 1))
    }
}

proof fn lemma_find_comma_at(s: Seq<char>, j: nat)
    requires
        j <= s.len(),
        forall|k: int| 0 <= k < j ==> s[k] != ',',
        j == s.len() || s[j as int] == ',',
    ensures
        spec_find_comma(s) == j,
    decreases j,
{
    if s.len() == 0 {
    } else if j == 0 {
    } else {
        assert(s.first() != ',');
        lemma_find_comma_at(s.drop_first(), (j - 1) as nat);
    }
}

/// Split `s` at commas.
#[verifier::loop_isolation(false)]
pub fn split_commas(s: &str) -> (r: Vec<String>)
    ensures
        r.deep_view() == spec_split_commas(s@),
{
    let len = s.unicode_len();
    let mut out: Vec<String> = Vec::new();
    let mut pos: usize = 0;
    proof {
        assert(s@.skip(0) =~= s@);
        assert(out.deep_view() + spec_split_commas(s@) =~= spec_split_commas(s@));
    }
    loop
        invariant
            pos <= len,
            out.deep_view() + spec_split_commas(s@.skip(pos as int)) == spec_split_commas(s@),
        decreases len - pos,
    {
        let ghost rest = s@.skip(pos as int);
        let mut j: usize = pos;
        while j < len && s.get_char(j) != ','
            invariant
                pos <= j <= len,
                forall|k: int| pos <= k < j ==> s@[k] != ',',
            decreases len - j,
        {
            j = j + 1;
        }
        proof {
            assert(forall|k: int| 0 <= k < j - pos ==> rest[k] == s@[pos + k] && s@[pos + k]
                != ',');
            if j < len {
                assert(rest[j - pos] == s@[j as int]);
            }
            lemma_find_comma_at(rest, (j - pos) as nat);
        }
        let piece = s.substring_char(pos, j);
        out.push(String::from_str(piece));
        proof {
            assert(rest.take(j - pos) =~= s@.subrange(pos as int, j as int));
        }
        if j == len {
            proof {
                assert(rest =~= s@.subrange(pos as int, len as int));
                assert(spec_split_commas(rest) =~= seq![rest]);
                assert(out.deep_view() =~= spec_split_commas(s@));
            }
            return out;
        }
        proof {
            assert(rest.skip(j - pos + 1) =~= s@.skip(j + 1));
            assert(out.deep_view() + spec_split_commas(s@.skip(j + 1)) =~= spec_split_commas(s@));
        }
        pos = j + 1;
    }
}

/// Whether `c` is an ascii digit.
pub open spec fn is_digit_char(c: char) -> bool {
    0x30 <= (c as u32) && (c as u32) <= 0x39
}

/// Whether `s` is one or more ascii digits and nothing else.
pub open spec fn spec_all_digits(s: Seq<char>) -> bool {
    s.len() > 0 && forall|i: int| 0 <= i < s.len() ==> is_digit_char(#[trigger] s[i])
}

/// The numeric value of a digit string.
pub open spec fn spec_digits_val(s: Seq<char>) -> int
    decreases s.len(),
{
    if s.len() == 0 {
        0
    } else {
        spec_digits_val(s.drop_last()) * 10 + ((s.last() as u32) - 0x30)
    }
}

/// What parsing a decimal sixteen-bit integer yields: an optional sign, then
/// ascii digits, with the value within range.
pub open spec fn spec_parse_i16(s: Seq<char>) -> Option<i16> {
    if s.len() == 0 {
        None
    } else {
        let digits = if s.first() == '-' || s.first() == '+' {
            s.drop_first()
        } else {
            s
        };
        let neg = s.first() == '-';
        if !spec_all_digits(digits) {
            None
        } else {
            let v = spec_digits_val(digits);
            if neg {
                if v <= 32768 {
                    Some((-v) as i16)
                } else {
                    None
                }
            } else {
                if v <= 32767 {
                    Some(v as i16)
                } else {
                    None
                }
            }
        }
    }
}

/// Parse a decimal sixteen-bit integer, as the configuration strings write
/// them.
#[verifier::loop_isolation(false)]
pub fn parse_i16(s: &str) -> (r: Option<i16>)
    ensures
        r == spec_parse_i16(s@),
{
    let len = s.unicode_len();
    if len == 0 {
        return None;
    }
    let first = s.get_char(0);
    let neg = first == '-';
    let start: usize = if first == '-' || first == '+' {
        1
    } else {
        0
    };
    let ghost digits = if start == 1 {
        s@.drop_first()
    } else {
        s@
    };
    proof {
        assert(digits.len() == len - start);
        assert(forall|k: int| 0 <= k < digits.len() ==> digits[k] == s@[k + start]);
    }
    if start >= len {
        proof {
            assert(!spec_all_digits(digits));
        }
        return None;
    }
    let mut val: u32 = 0;
    let mut i: usize = start;
    proof {
        assert(s@.subrange(start as int, start as int) =~= Seq::<char>::empty());
    }
    while i < len
        invariant
            start <= i <= len,
            len == s@.len(),
            forall|k: int| start <= k < i ==> is_digit_char(#[trigger] s@[k]),
            (val <= 32768 && val == spec_digits_val(s@.subrange(start as int, i as int))) || (val
                == 32769 && spec_digits_val(s@.subrange(start as int, i as int)) > 32768),
        decreases len - i,
    {
        let c = s.get_char(i);
        let u = c as u32;
        if u < 0x30 || u > 0x39 {
            proof {
                assert(digits[i - start] == s@[i as int]);
                assert(!spec_all_digits(digits));
            }
            return None;
        }
        let d = u - 0x30;
        proof {
            assert(s@.subrange(start as int, i + 1).drop_last() =~= s@.subrange(
                start as int,
                i as int,
            ));
            assert(s@.subrange(start as int, i + 1).last() == s@[i as int]);
        }
        if val <= 32768 {
            let nv = val * 10 + d;
            val = if nv > 32768 {
                32769
            } else {
                nv
            };
        }
        i = i + 1;
    }
    proof {
        assert(s@.subrange(start as int, len as int) =~= digits);
        assert(spec_all_digits(digits));
    }
    if neg {
        if val <= 32768 {
            Some(-(val as i32) as i16)
        } else {
            None
        }
    } else {
        if val <= 32767 {
            Some(val as i16)
        } else {
            None
        }
    }
}

/// The error text for an unrecognized color value.
pub open spec fn spec_invalid_value_msg(s: Seq<char>) -> Seq<char> {
    "Invalid color value: "@ + s
}

/// The error text for an RGB triple with a component out of range.
pub open spec fn spec_invalid_string_msg(s: Seq<char>) -> Seq<char> {
    "Invalid color string: "@ + s + ". Values must be within 0-255."@
}

/// The color a bare or prefixed name denotes, if any (a bare name is the
/// light variant).
pub open spec fn spec_named_color(s: Seq<char>) -> Option<Color> {
    if s == "black"@ {
        Some(Color::LightBlack)
    } else if s == "blue"@ {
        Some(Color::LightBlue)
    } else if s == "cyan"@ {
        Some(Color::LightCyan)
    } else if s == "green"@ {
        Some(Color::LightGreen)
    } else if s == "magenta"@ {
        Some(Color::LightMagenta)
    } else if s == "red"@ {
        Some(Color::LightRed)
    } else if s == "white"@ {
        Some(Color::LightWhite)
    } else if s == "yellow"@ {
        Some(Color::LightYellow)
    } else if s == "light black"@ {
        Some(Color::LightBlack)
    } else if s == "light blue"@ {
        Some(Color::LightBlue)
    } else if s == "light cyan"@ {
        Some(Color::LightCyan)
    } else if s == "light green"@ {
        Some(Color::LightGreen)
    } else if s == "light magenta"@ {
        Some(Color::LightMagenta)
    } else if s == "light red"@ {
        Some(Color::LightRed)
    } else if s == "light white"@ {
        Some(Color::LightWhite)
    } else if s == "light yellow"@ {
        Some(Color::LightYellow)
    } else if s == "dark black"@ {
        Some(Color::DarkBlack)
    } else if s == "dark blue"@ {
        Some(Color::DarkBlue)
    } else if s == "dark cyan"@ {
        Some(Color::DarkCyan)
    } else if s == "dark green"@ {
        Some(Color::DarkGreen)
    } else if s == "dark magenta"@ {
        Some(Color::DarkMagenta)
    } else if s == "dark red"@ {
        Some(Color::DarkRed)
    } else if s == "dark white"@ {
        Some(Color::DarkWhite)
    } else if s == "dark yellow"@ {
        Some(Color::DarkYellow)
    } else if s == "transparent"@ || s == "-1"@ {
        Some(Color::Default)
    } else {
        None
    }
}

/// The component an RGB piece contributes: its parsed value, or -1 when it
/// does not parse.
pub open spec fn spec_rgb_component(p: Seq<char>) -> int {
    match spec_parse_i16(p) {
        Some(v) => v as int,
        None => -1,
    }
}

/// What a color specification string denotes: a named color, else one
/// palette index in 0..=255, else an RGB triple with each component in
/// 0..=255, else an error naming the offending string.
pub open spec fn spec_color_of(s: Seq<char>) -> Result<Color, Seq<char>> {
    match spec_named_color(s) {
        Some(c) => Ok(c),
        None => {
            let pieces = spec_split_commas(s);
            if pieces.len() == 1 {
                match spec_parse_i16(s) {
                    Some(i) => if 0 <= i && i < 256 {
                        Ok(Color::Index(i))
                    } else {
                        Err(spec_invalid_value_msg(s))
                    },
                    None => Err(spec_invalid_value_msg(s)),
                }
            } else if pieces.len() == 3 {
                let red = spec_rgb_component(pieces[0]);
                let green = spec_rgb_component(pieces[1]);
                let blue = spec_rgb_component(pieces[2]);
                if red > -1 && green > -1 && blue > -1 && red < 256 && green < 256 && blue < 256 {
                    Ok(
                        Color::RGB {
                            red: red as i16,
                            green: green as i16,
                            blue: blue as i16,
                        },
                    )
                } else {
                    Err(spec_invalid_string_msg(s))
                }
            } else {
                Err(spec_invalid_value_msg(s))
            }
        },
    }
}

/// Whether a parse result carries exactly the denoted color or error text.
pub open spec fn color_result_matches(
    r: Result<Color, String>,
    m: Result<Color, Seq<char>>,
) -> bool {
    match (r, m) {
        (Ok(a), Ok(b)) => a == b,
        (Err(a), Err(b)) => a@ == b,
        _ => false,
    }
}

fn invalid_value_msg(s: &str) -> (r: String)
    ensures
        r@ == spec_invalid_value_msg(s@),
{
    let mut m = String::from_str("Invalid color value: ");
    m.append(s);
    m
}

fn invalid_string_msg(s: &str) -> (r: String)
    ensures
        r@ == spec_invalid_string_msg(s@),
{
    let mut m = String::from_str("Invalid color string: ");
    m.append(s);
    m.append(". Values must be within 0-255.");
    m
}

fn rgb_component(p: &str) -> (r: i16)
    ensures
        r as int == spec_rgb_component(p@),
{
    match parse_i16(p) {
        Some(v) => v,
        None => -1,
    }
}

impl Color {
    /// Parse a color specification: a case-sensitive name with an optional
    /// light/dark prefix (bare names are light), `transparent` or `-1` for
    /// the terminal default, a palette index in 0..=255, or a comma-separated
    /// RGB triple of values in 0..=255; anything else is an error carrying
    /// the offending string.
    pub fn try_from(s: &str) -> (r: Result<Color, String>)
        ensures
            color_result_matches(r, spec_color_of(s@)),
    {
        if str_eq(s, "black") {
            Ok(Color::LightBlack)
        } else if str_eq(s, "blue") {
            Ok(Color::LightBlue)
        } else if str_eq(s, "cyan") {
            Ok(Color::LightCyan)
        } else if str_eq(s, "green") {
            Ok(Color::LightGreen)
        } else if str_eq(s, "magenta") {
            Ok(Color::LightMagenta)
        } else if str_eq(s, "red") {
            Ok(Color::LightRed)
        } else if str_eq(s, "white") {
            Ok(Color::LightWhite)
        } else if str_eq(s, "yellow") {
            Ok(Color::LightYellow)
        } else if str_eq(s, "light black") {
            Ok(Color::LightBlack)
        } else if str_eq(s, "light blue") {
            Ok(Color::LightBlue)
        } else if str_eq(s, "light cyan") {
            Ok(Color::LightCyan)
        } else if str_eq(s, "light green") {
            Ok(Color::LightGreen)
        } else if str_eq(s, "light magenta") {
            Ok(Color::LightMagenta)
        } else if str_eq(s, "light red") {
            Ok(Color::LightRed)
        } else if str_eq(s, "light white") {
            Ok(Color::LightWhite)
        } else if str_eq(s, "light yellow") {
            Ok(Color::LightYellow)
        } else if str_eq(s, "dark black") {
            Ok(Color::DarkBlack)
        } else if str_eq(s, "dark blue") {
            Ok(Color::DarkBlue)
        } else if str_eq(s, "dark cyan") {
            Ok(Color::DarkCyan)
        } else if str_eq(s, "dark green") {
            Ok(Color::DarkGreen)
        } else if str_eq(s, "dark magenta") {
            Ok(Color::DarkMagenta)
        } else if str_eq(s, "dark red") {
            Ok(Color::DarkRed)
        } else if str_eq(s, "dark white") {
            Ok(Color::DarkWhite)
        } else if str_eq(s, "dark yellow") {
            Ok(Color::DarkYellow)
        } else if str_eq(s, "transparent") || str_eq(s, "-1") {
            Ok(Color::Default)
        } else {
            let pieces = split_commas(s);
            if pieces.len() == 1 {
                match parse_i16(s) {
                    Some(i) => {
                        if i >= 0 && i < 256 {
                            Ok(Color::Index(i))
                        } else {
                            Err(invalid_value_msg(s))
                        }
                    },
                    None => Err(invalid_value_msg(s)),
                }
            } else if pieces.len() == 3 {
                proof {
                    assert(pieces.deep_view()[0] == pieces@[0]@);
                    assert(pieces.deep_view()[1] == pieces@[1]@);
                    assert(pieces.deep_view()[2] == pieces@[2]@);
                }
                let red = rgb_component(pieces[0].as_str());
                let green = rgb_component(pieces[1].as_str());
                let blue = rgb_component(pieces[2].as_str());
                if red > -1 && green > -1 && blue > -1 && red < 256 && green < 256 && blue < 256 {
                    Ok(Color::RGB { red, green, blue })
                } else {
                    Err(invalid_string_msg(s))
                }
            } else {
                Err(invalid_value_msg(s))
            }
        }
    }
}

} // verus!
