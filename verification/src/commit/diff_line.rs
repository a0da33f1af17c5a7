//! One line within a diff hunk: its origin, text, and optional old/new-side
//! line numbers.

use vstd::prelude::*;
use vstd::string::*;

verus! {

/// Where a diff line comes from.
#[derive(Clone, Copy, Debug, PartialEq, Eq, Structural)]
pub enum Origin {
    Context,
    Addition,
    Deletion,
}

/// Whether `c` is a marker the diff engine uses for a line origin: the
/// primary set, or the secondary set used for end-of-file lines.
pub open spec fn is_origin_char(c: char) -> bool {
    c == ' ' || c == '+' || c == '-' || c == '=' || c == '>' || c == '<'
}

/// The origin a marker decodes to.
pub open spec fn spec_origin_of_char(c: char) -> Origin {
    if c == '+' || c == '>' {
        Origin::Addition
    } else if c == '-' || c == '<' {
        Origin::Deletion
    } else {
        Origin::Context
    }
}

/// Whether the marker belongs to the end-of-file marker set.
pub open spec fn is_eof_marker(c: char) -> bool {
    c == '=' || c == '>' || c == '<'
}

impl Origin {
    /// Decode an origin marker character.
    pub fn from_chr(c: char) -> (r: Self)
        requires
            is_origin_char(c),
        ensures
            r == spec_origin_of_char(c),
    {
        if c == ' ' {
            Origin::Context
        } else if c == '+' {
            Origin::Addition
        } else if c == '-' {
            Origin::Deletion
        } else if c == '=' {
            Origin::Context
        } else if c == '>' {
            Origin::Addition
        } else {
            Origin::Deletion
        }
    }

    /// The one-character marker this origin renders as.
    pub open spec fn spec_to_str(self) -> Seq<char> {
        match self {
            Origin::Context => seq![' '],
            Origin::Addition => seq!['+'],
            Origin::Deletion => seq!['-'],
        }
    }

    /// Render the origin as its marker.
    pub fn to_str(&self) -> (r: &str)
        ensures
            r@ == self.spec_to_str(),
    {
        match self {
            Origin::Context => {
                let s = " ";
                proof {
                    reveal_strlit(" ");
                    assert(s@ =~= seq![' ']);
                }
                s
            },
            Origin::Addition => {
                let s = "+";
                proof {
                    reveal_strlit("+");
                    assert(s@ =~= seq!['+']);
                }
                s
            },
            Origin::Deletion => {
                let s = "-";
                proof {
                    reveal_strlit("-");
                    assert(s@ =~= seq!['-']);
                }
                s
            },
        }
    }
}

/// Mathematical model of a `DiffLine`.
#[verifier::ext_equal]
pub struct DiffLineV {
    pub end_of_file: bool,
    pub line: Seq<char>,
    pub new_line_number: Option<u32>,
    pub old_line_number: Option<u32>,
    pub origin: Origin,
}

/// One line within a hunk.
#[derive(Debug)]
pub struct DiffLine {
    pub end_of_file: bool,
    pub line: String,
    pub new_line_number: Option<u32>,
    pub old_line_number: Option<u32>,
    pub origin: Origin,
}

impl View for DiffLine {
    type V = DiffLineV;

    open spec fn view(&self) -> DiffLineV {
        DiffLineV {
            end_of_file: self.end_of_file,
            line: self.line@,
            new_line_number: self.new_line_number,
            old_line_number: self.old_line_number,
            origin: self.origin,
        }
    }
}

impl DiffLine {
    /// Record one line of a hunk exactly as the event stream delivered it.
    pub fn new(
        origin: Origin,
        line: &str,
        old_line_number: Option<u32>,
        new_line_number: Option<u32>,
        end_of_file: bool,
    ) -> (r: Self)
        ensures
            r@ == (DiffLineV { end_of_file, line: line@, new_line_number, old_line_number, origin }),
    {
        DiffLine {
            end_of_file,
            line: String::from_str(line),
            new_line_number,
            old_line_number,
            origin,
        }
    }

    /// Copy this line.
    pub fn new_from_existing(existing: &Self) -> (r: Self)
        ensures
            r@ == existing@,
    {
        DiffLine {
            end_of_file: existing.end_of_file,
            line: existing.line.clone(),
            new_line_number: existing.new_line_number,
            old_line_number: existing.old_line_number,
            origin: existing.origin,
        }
    }

    /// The line's literal text.
    pub fn line(&self) -> (r: &str)
        ensures
            r@ == self@.line,
    {
        self.line.as_str()
    }

    /// The new-side line number, if the line exists on that side.
    pub fn new_line_number(&self) -> (r: Option<u32>)
        ensures
            r == self@.new_line_number,
    {
        self.new_line_number
    }

    /// The old-side line number, if the line exists on that side.
    pub fn old_line_number(&self) -> (r: Option<u32>)
        ensures
            r == self@.old_line_number,
    {
        self.old_line_number
    }

    /// The line's origin.
    pub fn origin(&self) -> (r: &Origin)
        ensures
            *r == self@.origin,
    {
        &self.origin
    }
}

} // verus!
