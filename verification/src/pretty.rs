//! A schema as a page of Markdown: a heading for the table and one section
//! for each column.

use vstd::prelude::*;
use vstd::string::*;

use crate::calendar::date_text;
use crate::column::constraints_text;
use crate::column::type_text;
use crate::column::ColumnModel;
use crate::column::ColumnType;
use crate::column::ColumnTypeModel;
use crate::column::CsvxColumnType;
use crate::filename::CsvxMetadata;
use crate::filename::MetadataModel;
use crate::schema::CsvxSchema;
use crate::text::chars_of;
use crate::text::push_char;
use crate::text::ToText;

verus! {

broadcast use vstd::string::group_string_axioms;

/// The character `c`, `n` times.
pub open spec fn repeated(c: char, n: nat) -> Seq<char> {
    Seq::new(n, |i: int| c)
}

/// A line of `c` that is as long as `s`: one `c` for each character of `s`.
pub fn underline(s: &str, c: char) -> (line: String)
    ensures
        line@ == repeated(c, s@.len()),
{
    let n: usize = s.unicode_len();
    let mut line = String::new();
    let mut i: usize = 0;
    while i < n
        invariant
            i <= n,
            line@ == repeated(c, i as nat),
        decreases n - i,
    {
        push_char(&mut line, c);
        assert(line@ =~= repeated(c, (i + 1) as nat));
        i += 1;
    }
    line
}

/// A heading: the title, and under it a line of `rule` of the same length.
pub open spec fn heading(title: Seq<char>, rule: char) -> Seq<char> {
    title + "\n"@ + repeated(rule, title.len())
}

/// The section of one column: a heading with the name and the type of the
/// column, the constraints if there are any, and the description. The
/// heading of an enum column says `ENUM` only; its variants follow in a line
/// of their own.
pub open spec fn column_section(column: ColumnModel) -> Seq<char> {
    let constraints = constraints_text(column.constraints);
    let top = match column.ty {
        ColumnTypeModel::Enum(_) => heading(column.id + ": `ENUM`"@, '-') + "\n\n* `"@ + type_text(
            column.ty,
        ) + "` \n"@,
        _ => heading(column.id + ": `"@ + type_text(column.ty) + "`"@, '-') + "\n\n"@,
    };
    let middle = if constraints.len() > 0 {
        "* `"@ + constraints + "`\n"@
    } else {
        Seq::<char>::empty()
    };
    top + middle + "\n"@ + column.description + "\n\n\n"@
}

/// The sections of the first `upto` columns, one after the other.
pub open spec fn column_sections(columns: Seq<ColumnModel>, upto: int) -> Seq<char>
    decreases upto,
{
    if upto <= 0 {
        Seq::<char>::empty()
    } else {
        column_sections(columns, upto - 1) + column_section(columns[upto - 1])
    }
}

/// The page for the schema of a table: the name of the table as a heading,
/// the day and the schema name of the schema's file as a list, and the
/// sections of the columns.
pub open spec fn page(file: MetadataModel, columns: Seq<ColumnModel>) -> Seq<char> {
    heading(file.table_name, '=') + "\n\n* "@ + date_text(file.date) + "\n* "@ + file.schema
        + "\n\n\n"@ + column_sections(columns, columns.len() as int)
}

/// Writes the heading `title`, ruled with `rule`, at the end of `s`.
fn push_heading(s: &mut String, title: &str, rule: char)
    ensures
        final(s)@ == old(s)@ + heading(title@, rule),
{
    s.append(title);
    s.append("\n");
    s.append(underline(title, rule).as_str());
    assert(s@ =~= old(s)@ + heading(title@, rule));
}

/// Writes the section of `column`.
pub fn pretty_column(column: &CsvxColumnType) -> (section: String)
    ensures
        section@ == column_section(column.deep_view()),
{
    let mut s = String::new();
    let ty = column.ty.to_text();
    let mut title = column.id.clone();
    match &column.ty {
        ColumnType::Enum(_) => {
            title.append(": `ENUM`");
            push_heading(&mut s, title.as_str(), '-');
            s.append("\n\n* `");
            s.append(ty.as_str());
            s.append("` \n");
        },
        _ => {
            title.append(": `");
            title.append(ty.as_str());
            title.append("`");
            push_heading(&mut s, title.as_str(), '-');
            s.append("\n\n");
        },
    }
    let constraints = column.constraints.to_text();
    let shown: bool = chars_of(constraints.as_str()).len() > 0;
    if shown {
        s.append("* `");
        s.append(constraints.as_str());
        s.append("`\n");
    }
    s.append("\n");
    s.append(column.description.as_str());
    s.append("\n\n\n");
    assert(s@ =~= column_section(column.deep_view()));
    s
}

/// Writes the page for the schema `schema`, whose file is named by `file`.
pub fn pretty(file: &CsvxMetadata, schema: &CsvxSchema) -> (text: String)
    ensures
        text@ == page(file.deep_view(), schema.deep_view()),
{
    let mut s = String::new();
    push_heading(&mut s, file.table_name.as_str(), '=');
    s.append("\n\n* ");
    s.append(file.date.to_text().as_str());
    s.append("\n* ");
    s.append(file.schema.as_str());
    s.append("\n\n\n");
    let ghost lead = s@;
    assert(lead =~= heading(file.table_name@, '=') + "\n\n* "@ + date_text(
        file.date.deep_view(),
    ) + "\n* "@ + file.schema@ + "\n\n\n"@);
    let columns = schema.columns();
    let mut i: usize = 0;
    assert(s@ =~= lead + column_sections(columns.deep_view(), 0));
    while i < columns.len()
        invariant
            i <= columns.len(),
            s@ == lead + column_sections(columns.deep_view(), i as int),
        decreases columns.len() - i,
    {
        let section = pretty_column(&columns[i]);
        s.append(section.as_str());
        assert(s@ =~= lead + column_sections(columns.deep_view(), i + 1));
        i += 1;
    }
    s
}

} // verus!
