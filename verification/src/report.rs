//! How an error is shown at length: a headline, the place if one is known,
//! and the help text as a block of indented lines that fit the terminal.
//! Printing the three, in colour or not, is left to the caller.

use vstd::prelude::*;
use vstd::string::*;

use crate::err::ErrorAtLocation;
use crate::err::Helpful;
use crate::err::Location;
use crate::text::all_ascii;
use crate::text::split;
use crate::text::split_on;
use crate::text::text_is_ascii;
use crate::text::ToText;

verus! {

/// What is put in front of every line of a help text.
pub const HELP_INDENT: &'static str = "   ";

/// The lines that `textwrap::wrap` cuts `text` into for lines of at most
/// `width` columns.
pub uninterp spec fn wrapped_lines(text: Seq<char>, width: usize) -> Seq<Seq<char>>;

/// What `textwrap::indent` makes of `text` with the prefix `prefix`.
pub uninterp spec fn indented(text: Seq<char>, prefix: Seq<char>) -> Seq<char>;

/// Calls `textwrap::wrap`, which cuts a text into lines that are no wider
/// than `width` columns where the words allow it. Trusted: the lines depend
/// on the text and the width alone; they are named [`wrapped_lines`].
///
/// Only ASCII text is handed to it. `textwrap` keeps count of the columns
/// that the characters of a line take, and takes one count from another when
/// it breaks a line; with characters of three columns and more beside
/// characters of none the count it takes away can be the greater one. No
/// ASCII character takes more than one column, and then it never is.
#[verifier::external_body]
fn wrap(text: &str, width: usize) -> (lines: Vec<String>)
    requires
        width >= 1,
        all_ascii(text@),
    ensures
        lines.deep_view() == wrapped_lines(text@, width),
{
    textwrap::wrap(text, width).into_iter().map(|line| line.into_owned()).collect()
}

/// Calls `textwrap::indent`, which puts the prefix in front of every line of
/// a text that is not blank and ends every line with a line feed. Trusted:
/// the result depends on the text and the prefix alone; it is named
/// [`indented`].
#[verifier::external_body]
fn indent(text: &str, prefix: &str) -> (out: String)
    ensures
        out@ == indented(text@, prefix@),
{
    textwrap::indent(text, prefix)
}

/// The width of the lines of a help text on a terminal of `columns` columns:
/// three columns less, for the indentation, and never less than one.
pub open spec fn line_width(columns: usize) -> usize {
    if columns <= 4 {
        1
    } else {
        (columns - 3) as usize
    }
}

/// The width of the lines of a help text on a terminal of `columns` columns.
pub fn help_width(columns: usize) -> (width: usize)
    ensures
        width == line_width(columns),
        width >= 1,
{
    if columns <= 4 {
        1
    } else {
        columns - 3
    }
}

/// The first `upto` lines of `lines`, each indented, one after the other.
pub open spec fn block_of(lines: Seq<Seq<char>>, upto: int) -> Seq<char>
    decreases upto,
{
    if upto <= 0 {
        Seq::<char>::empty()
    } else {
        block_of(lines, upto - 1) + indented(lines[upto - 1], HELP_INDENT@)
    }
}

/// Indents each of `lines` and puts them one after the other.
pub fn indent_lines(lines: &Vec<String>) -> (block: String)
    ensures
        block@ == block_of(lines.deep_view(), lines.len() as int),
{
    let mut block = String::new();
    let mut i: usize = 0;
    while i < lines.len()
        invariant
            i <= lines.len(),
            block@ == block_of(lines.deep_view(), i as int),
        decreases lines.len() - i,
    {
        let line = indent(lines[i].as_str(), HELP_INDENT);
        block.append(line.as_str());
        i += 1;
    }
    block
}

/// The lines that a help text is shown in, for lines of at most `width`
/// columns: an ASCII text is cut into lines of that width; any other text is
/// not cut, and keeps the lines that its line feeds give it.
pub open spec fn help_lines(text: Seq<char>, width: usize) -> Seq<Seq<char>> {
    if all_ascii(text) {
        wrapped_lines(text, width)
    } else {
        split(text, '\n')
    }
}

/// The help text `help` as a block for a terminal of `columns` columns: its
/// lines, which leave room for the indentation where the text is ASCII, each
/// line indented.
pub fn help_block(help: &str, columns: usize) -> (block: String)
    ensures
        block@ == block_of(
            help_lines(help@, line_width(columns)),
            help_lines(help@, line_width(columns)).len() as int,
        ),
{
    let lines = if text_is_ascii(help) {
        wrap(help, help_width(columns))
    } else {
        split_on(help, '\n')
    };
    indent_lines(&lines)
}

/// What is shown of an error: its text, the text of its place unless no
/// place is known, and its help as a block.
#[derive(Clone, Debug, PartialEq, Eq)]
pub struct HelpReport {
    pub headline: String,
    pub place: Option<String>,
    pub body: String,
}

impl<E: ToText + Helpful> ErrorAtLocation<E, Location> {
    /// What is to be shown of this error on a terminal of `columns` columns.
    pub fn help_report(&self, columns: usize) -> (report: HelpReport)
        ensures
            report.headline@ == self.spec_error().text(),
            report.place.deep_view() == (match *self.spec_location() {
                Location::Unspecified => None,
                _ => Some(self.spec_location().text()),
            }),
            report.body@ == block_of(
                help_lines(self.spec_error().help_text(), line_width(columns)),
                help_lines(self.spec_error().help_text(), line_width(columns)).len() as int,
            ),
    {
        let place = match self.location() {
            Location::Unspecified => None,
            _ => Some(self.location().to_text()),
        };
        HelpReport {
            headline: self.error().to_text(),
            place: place,
            body: help_block(self.error().help().as_str(), columns),
        }
    }
}

} // verus!
