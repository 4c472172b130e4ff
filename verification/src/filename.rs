//! File names: a table's file is named by the table, the day of the export
//! and the schema, as in `zoo-nyc_20170401_animals-2.csv`.

use vstd::prelude::*;
use vstd::string::*;

use crate::calendar::date_of_digits;
use crate::calendar::Date;
use crate::calendar::DateModel;
use crate::text::all_digits;
use crate::text::begins_with;
use crate::text::char_is_digit;
use crate::text::char_is_lower;
use crate::text::chars_of;
use crate::text::has_prefix;
use crate::text::is_digit;
use crate::text::is_lower;
use crate::text::substring;

verus! {

broadcast use vstd::string::group_string_axioms;

/// What the name of a file says about the table in it.
#[derive(Clone, Debug, PartialEq, Eq)]
pub struct CsvxMetadata {
    pub table_name: String,
    pub date: Date,
    pub schema: String,
}

/// What a [`CsvxMetadata`] holds, as mathematical values.
pub struct MetadataModel {
    pub table_name: Seq<char>,
    pub date: DateModel,
    pub schema: Seq<char>,
}

impl DeepView for CsvxMetadata {
    type V = MetadataModel;

    open spec fn deep_view(&self) -> MetadataModel {
        MetadataModel {
            table_name: self.table_name@,
            date: self.date.deep_view(),
            schema: self.schema@,
        }
    }
}

/// The name of a table or of a schema: a lowercase letter, then lowercase
/// letters, digits and hyphens.
pub open spec fn is_name(t: Seq<char>) -> bool {
    &&& t.len() > 0
    &&& is_lower(t[0])
    &&& forall|i: int|
        0 <= i < t.len() ==> is_lower(#[trigger] t[i]) || is_digit(t[i]) || t[i] == '-'
}

/// `s` is a file name whose table name has `t` characters: the table name,
/// an underscore, eight digits, an underscore, the schema name, and `.csv`.
pub open spec fn is_filename_at(s: Seq<char>, t: int) -> bool {
    &&& 0 < t
    &&& t + 14 < s.len()
    &&& is_name(s.subrange(0, t))
    &&& s[t] == '_'
    &&& all_digits(s.subrange(t + 1, t + 9))
    &&& s[t + 9] == '_'
    &&& is_name(s.subrange(t + 10, s.len() - 4))
    &&& s.subrange(s.len() - 4, s.len() as int) == ".csv"@
}

/// `s` has the shape of a file name. Whether its eight digits write a day
/// that exists is another question.
pub open spec fn is_filename(s: Seq<char>) -> bool {
    exists|t: int| is_filename_at(s, t)
}

/// What the file name `s` says, if it has the shape of a file name and its
/// eight digits write a day that exists.
pub open spec fn metadata_of(s: Seq<char>) -> Option<MetadataModel> {
    if is_filename(s) {
        let t = choose|t: int| is_filename_at(s, t);
        match date_of_digits(s.subrange(t + 1, t + 9)) {
            Some(date) => Some(
                MetadataModel {
                    table_name: s.subrange(0, t),
                    date: date,
                    schema: s.subrange(t + 10, s.len() - 4),
                },
            ),
            None => None,
        }
    } else {
        None
    }
}

/// The file name made of a table name, eight digits and a schema name.
pub open spec fn filename_of(table: Seq<char>, digits: Seq<char>, schema: Seq<char>) -> Seq<char> {
    table + "_"@ + digits + "_"@ + schema + ".csv"@
}

/// A file name is cut into its parts in one way only: names hold no
/// underscore, so the table name ends at the first one.
pub proof fn lemma_filename_unique(s: Seq<char>, a: int, b: int)
    requires
        is_filename_at(s, a),
        is_filename_at(s, b),
    ensures
        a == b,
{
    if a < b {
        assert(s.subrange(0, b)[a] == s[a]);
    } else if b < a {
        assert(s.subrange(0, a)[b] == s[b]);
    }
}

/// Reading a file name gives back the parts it was made of: for every table
/// name, every eight digits and every schema name, the file name made of them
/// is read as these names and the day that the digits write, and as nothing
/// if the digits write no day.
pub proof fn lemma_metadata_of_filename(table: Seq<char>, digits: Seq<char>, schema: Seq<char>)
    requires
        is_name(table),
        digits.len() == 8,
        all_digits(digits),
        is_name(schema),
    ensures
        metadata_of(filename_of(table, digits, schema)) == (match date_of_digits(digits) {
            Some(date) => Some(MetadataModel { table_name: table, date: date, schema: schema }),
            None => None,
        }),
{
    reveal_strlit("_");
    reveal_strlit(".csv");
    let s = filename_of(table, digits, schema);
    let t = table.len() as int;
    assert(s.len() == t + 14 + schema.len());
    assert(s.subrange(0, t) =~= table);
    assert(s.subrange(t + 1, t + 9) =~= digits);
    assert(s.subrange(t + 10, s.len() - 4) =~= schema);
    assert(s.subrange(s.len() - 4, s.len() as int) =~= ".csv"@);
    assert(s[t] == '_');
    assert(s[t + 9] == '_');
    assert(is_filename_at(s, t));
    let chosen = choose|t: int| is_filename_at(s, t);
    lemma_filename_unique(s, chosen, t);
}

/// Only file names are read: what is read as metadata is the file name made
/// of the table name read, eight digits that write the day read, and the
/// schema name read. So a text that is no such file name, or whose digits
/// write no day, is read as nothing.
pub proof fn lemma_filename_of_metadata(s: Seq<char>)
    requires
        metadata_of(s) is Some,
    ensures
        ({
            let m = metadata_of(s)->0;
            exists|digits: Seq<char>|
                {
                    &&& s == #[trigger] filename_of(m.table_name, digits, m.schema)
                    &&& is_name(m.table_name)
                    &&& is_name(m.schema)
                    &&& digits.len() == 8
                    &&& all_digits(digits)
                    &&& date_of_digits(digits) == Some(m.date)
                }
        }),
{
    reveal_strlit("_");
    reveal_strlit(".csv");
    let t = choose|t: int| is_filename_at(s, t);
    assert(is_filename_at(s, t));
    let m = metadata_of(s)->0;
    let digits = s.subrange(t + 1, t + 9);
    assert(s =~= filename_of(m.table_name, digits, m.schema));
}

/// Whether the characters of `v` from `from` up to `to` are a name.
fn name_ok(v: &Vec<char>, from: usize, to: usize) -> (ok: bool)
    requires
        from <= to <= v.len(),
    ensures
        ok == is_name(v@.subrange(from as int, to as int)),
{
    let ghost t = v@.subrange(from as int, to as int);
    if from == to || !char_is_lower(v[from]) {
        proof {
            if from < to {
                assert(t[0] == v@[from as int]);
            }
        }
        return false;
    }
    let mut i: usize = from + 1;
    while i < to
        invariant
            from < i <= to <= v.len(),
            t == v@.subrange(from as int, to as int),
            forall|j: int|
                0 <= j < i - from ==> is_lower(#[trigger] t[j]) || is_digit(t[j]) || t[j] == '-',
        decreases to - i,
    {
        let c = v[i];
        assert(t[i - from] == c);
        if !char_is_lower(c) && !char_is_digit(c) && c != '-' {
            return false;
        }
        i += 1;
    }
    true
}

/// Whether the characters of `v` from `from` up to `to` are digits.
fn digits_between(v: &Vec<char>, from: usize, to: usize) -> (ok: bool)
    requires
        from <= to <= v.len(),
    ensures
        ok == all_digits(v@.subrange(from as int, to as int)),
{
    let ghost t = v@.subrange(from as int, to as int);
    let mut i: usize = from;
    while i < to
        invariant
            from <= i <= to <= v.len(),
            t == v@.subrange(from as int, to as int),
            forall|j: int| 0 <= j < i - from ==> is_digit(#[trigger] t[j]),
        decreases to - i,
    {
        assert(t[i - from] == v@[i as int]);
        if !char_is_digit(v[i]) {
            return false;
        }
        i += 1;
    }
    true
}

/// Reads the name of a file: the table name, the day and the schema name.
/// What has not the shape of a file name, or names a day that does not
/// exist, is read as nothing.
pub fn parse_filename(filename: &str) -> (metadata: Option<CsvxMetadata>)
    ensures
        metadata.deep_view() == metadata_of(filename@),
{
    let v = chars_of(filename);
    let n: usize = v.len();
    let mut t: usize = 0;
    while t < n && v[t] != '_'
        invariant
            t <= n,
            n == v.len(),
            forall|j: int| 0 <= j < t ==> #[trigger] v@[j] != '_',
        decreases n - t,
    {
        t += 1;
    }
    proof {
        assert forall|a: int| is_filename_at(v@, a) implies a == t by {
            if a > t {
                assert(v@.subrange(0, a)[t as int] == v@[t as int]);
            }
        }
    }
    if t == 0 || n < 15 || t >= n - 14 {
        return None;
    }
    proof {
        reveal_strlit(".csv");
        let tail = v@.subrange(n - 4, n as int);
        assert(tail.len() == 4);
        assert(tail[0] == v@[n - 4] && tail[1] == v@[n - 3] && tail[2] == v@[n - 2] && tail[3]
            == v@[n - 1]);
        if v@[n - 4] == '.' && v@[n - 3] == 'c' && v@[n - 2] == 's' && v@[n - 1] == 'v' {
            assert(tail =~= ".csv"@);
        }
    }
    if !name_ok(&v, 0, t) || !digits_between(&v, t + 1, t + 9) || v[t + 9] != '_' || !name_ok(
        &v,
        t + 10,
        n - 4,
    ) || v[n - 4] != '.' || v[n - 3] != 'c' || v[n - 2] != 's' || v[n - 1] != 'v' {
        return None;
    }
    proof {
        assert(is_filename_at(v@, t as int));
        let chosen = choose|a: int| is_filename_at(v@, a);
        assert(chosen == t);
    }
    match Date::from_digits(&v, t + 1) {
        Some(date) => Some(
            CsvxMetadata {
                table_name: substring(filename, 0, t),
                date: date,
                schema: substring(filename, t + 10, n - 4),
            },
        ),
        None => None,
    }
}

impl CsvxMetadata {
    /// Whether the file is itself a schema: its schema name begins with
    /// `csvx-schema-`.
    pub fn is_schema(&self) -> (yes: bool)
        ensures
            yes == has_prefix(self.schema@, "csvx-schema-"@),
    {
        let v = chars_of(self.schema.as_str());
        begins_with(&v, "csvx-schema-")
    }
}

} // verus!
