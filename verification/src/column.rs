//! Column declarations: the type of a column and its constraints, each with
//! the grammar of the expression that declares it.

use vstd::prelude::*;
use vstd::string::*;

use crate::err::ColumnConstraintsError;
use crate::err::ColumnConstraintsErrorModel;
use crate::err::ColumnTypeError;
use crate::err::ColumnTypeErrorModel;
use crate::text::all_upper;
use crate::text::begins_with;
use crate::text::char_is_digit;
use crate::text::char_is_upper;
use crate::text::chars_of;
use crate::text::free_of;
use crate::text::has_prefix;
use crate::text::is_digit;
use crate::text::is_lower;
use crate::text::is_upper;
use crate::text::join;
use crate::text::join_commas;
use crate::text::lemma_split_join;
use crate::text::lemma_split_nonempty;
use crate::text::result_model;
use crate::text::spells;
use crate::text::split;
use crate::text::split_on;
use crate::text::substring;
use crate::text::ToText;

verus! {

broadcast use vstd::string::group_string_axioms;

/// The type of the cells of a column.
#[derive(Clone, Debug, PartialEq, Eq)]
pub enum ColumnType {
    String,
    Bool,
    Integer,
    /// One of the listed variants. Their order counts: a value is stored as
    /// the position of its variant in the list.
    Enum(Vec<String>),
    Decimal,
    Date,
    DateTime,
    Time,
}

/// What a [`ColumnType`] holds, as mathematical values.
pub enum ColumnTypeModel {
    String,
    Bool,
    Integer,
    Enum(Seq<Seq<char>>),
    Decimal,
    Date,
    DateTime,
    Time,
}

impl DeepView for ColumnType {
    type V = ColumnTypeModel;

    open spec fn deep_view(&self) -> ColumnTypeModel {
        match *self {
            ColumnType::String => ColumnTypeModel::String,
            ColumnType::Bool => ColumnTypeModel::Bool,
            ColumnType::Integer => ColumnTypeModel::Integer,
            ColumnType::Enum(variants) => ColumnTypeModel::Enum(variants.deep_view()),
            ColumnType::Decimal => ColumnTypeModel::Decimal,
            ColumnType::Date => ColumnTypeModel::Date,
            ColumnType::DateTime => ColumnTypeModel::DateTime,
            ColumnType::Time => ColumnTypeModel::Time,
        }
    }
}

/// The name of an enum variant: an uppercase letter, then uppercase letters
/// and digits.
pub open spec fn is_variant_name(t: Seq<char>) -> bool {
    &&& t.len() > 0
    &&& is_upper(t[0])
    &&& forall|i: int| 0 <= i < t.len() ==> is_upper(#[trigger] t[i]) || is_digit(t[i])
}

/// The variants of an enum: at least one, and each of them a variant name.
/// The one exception is the list that the empty parentheses of `ENUM()`
/// stand for: it holds one variant, the empty text, which no cell can hold.
pub open spec fn is_variant_list(variants: Seq<Seq<char>>) -> bool {
    ||| variants.len() == 1 && variants[0].len() == 0
    ||| variants.len() >= 1 && forall|i: int|
        0 <= i < variants.len() ==> is_variant_name(#[trigger] variants[i])
}

/// The pieces that the text between the parentheses of an enum expression
/// falls into at its commas: every comma follows a variant name, so every
/// piece but the last is a name, and the last is a name or, after a trailing
/// comma or between empty parentheses, empty.
pub open spec fn are_list_pieces(pieces: Seq<Seq<char>>) -> bool {
    &&& pieces.len() >= 1
    &&& forall|i: int| 0 <= i < pieces.len() - 1 ==> is_variant_name(#[trigger] pieces[i])
    &&& (pieces.last().len() == 0 || is_variant_name(pieces.last()))
}

/// The variants that the pieces of a list text name: the pieces, without the
/// empty piece that follows a trailing comma. A trailing comma adds no
/// variant.
pub open spec fn listed_variants(pieces: Seq<Seq<char>>) -> Seq<Seq<char>> {
    if pieces.len() >= 2 && pieces.last().len() == 0 {
        pieces.drop_last()
    } else {
        pieces
    }
}

/// The pieces of a list text name a list of variants.
pub proof fn lemma_listed_variants(pieces: Seq<Seq<char>>)
    requires
        are_list_pieces(pieces),
    ensures
        is_variant_list(listed_variants(pieces)),
{
    let variants = listed_variants(pieces);
    if pieces.len() >= 2 && pieces.last().len() == 0 {
        assert forall|i: int| 0 <= i < variants.len() implies is_variant_name(
            #[trigger] variants[i],
        ) by {
            assert(variants[i] == pieces[i]);
        }
    } else if pieces.last().len() > 0 {
        assert forall|i: int| 0 <= i < variants.len() implies is_variant_name(
            #[trigger] variants[i],
        ) by {
            if i == pieces.len() - 1 {
                assert(pieces[i] == pieces.last());
            }
        }
    }
}

/// `s` is an enum expression whose list opens at position `open`: the word
/// `ENUM`, any characters but a line feed, `(`, variant names with a comma
/// after each but, at will, the last, and `)` at the very end.
pub open spec fn is_enum_expr_at(s: Seq<char>, open: int) -> bool {
    &&& 4 <= open < s.len() - 1
    &&& has_prefix(s, "ENUM"@)
    &&& forall|i: int| 4 <= i < open ==> #[trigger] s[i] != '\n'
    &&& s[open] == '('
    &&& s.last() == ')'
    &&& are_list_pieces(split(s.subrange(open + 1, s.len() - 1), ','))
}

/// `s` is an enum expression.
pub open spec fn is_enum_expr(s: Seq<char>) -> bool {
    exists|open: int| is_enum_expr_at(s, open)
}

/// The variants that the enum expression `s` lists, in order and with
/// repetitions: the names between its commas. `ENUM()` lists the one empty
/// variant.
pub open spec fn enum_variants(s: Seq<char>) -> Seq<Seq<char>> {
    let open = choose|open: int| is_enum_expr_at(s, open);
    listed_variants(split(s.subrange(open + 1, s.len() - 1), ','))
}

/// The type that the expression `s` declares, or why it declares none.
pub open spec fn parse_type(s: Seq<char>) -> Result<ColumnTypeModel, ColumnTypeErrorModel> {
    if s == "STRING"@ {
        Ok(ColumnTypeModel::String)
    } else if s == "BOOL"@ {
        Ok(ColumnTypeModel::Bool)
    } else if s == "INTEGER"@ {
        Ok(ColumnTypeModel::Integer)
    } else if s == "DECIMAL"@ {
        Ok(ColumnTypeModel::Decimal)
    } else if s == "DATE"@ {
        Ok(ColumnTypeModel::Date)
    } else if s == "DATETIME"@ {
        Ok(ColumnTypeModel::DateTime)
    } else if s == "TIME"@ {
        Ok(ColumnTypeModel::Time)
    } else if is_enum_expr(s) {
        Ok(ColumnTypeModel::Enum(enum_variants(s)))
    } else if has_prefix(s, "ENUM"@) {
        Err(ColumnTypeErrorModel::BadEnum(s))
    } else {
        Err(ColumnTypeErrorModel::UnknownType(s))
    }
}

/// A character that can stand between the parentheses of an enum expression.
pub open spec fn is_variant_list_char(c: char) -> bool {
    is_upper(c) || is_digit(c) || c == ','
}

/// A text that falls into the pieces of a list holds uppercase letters,
/// digits and commas only.
pub proof fn lemma_variant_list_chars(g: Seq<char>)
    requires
        are_list_pieces(split(g, ',')),
    ensures
        forall|k: int| 0 <= k < g.len() ==> is_variant_list_char(#[trigger] g[k]),
    decreases g.len(),
{
    if g.len() > 0 {
        let g0 = g.drop_last();
        let before = split(g0, ',');
        let now = split(g, ',');
        lemma_split_nonempty(g0, ',');
        if g.last() == ',' {
            assert(now == before.push(Seq::<char>::empty()));
            assert forall|i: int| 0 <= i < before.len() - 1 implies is_variant_name(
                #[trigger] before[i],
            ) by {
                assert(now[i] == before[i]);
            }
            assert(now[before.len() - 1] == before.last());
            assert(is_variant_name(now[before.len() - 1]));
        } else {
            let grown = before.last().push(g.last());
            assert(now == before.drop_last().push(grown));
            assert(now.last() == grown);
            assert(is_variant_name(grown));
            assert(grown[grown.len() - 1] == g.last());
            assert forall|i: int| 0 <= i < before.len() - 1 implies is_variant_name(
                #[trigger] before[i],
            ) by {
                assert(now[i] == before[i]);
            }
            if before.last().len() > 0 {
                assert(before.last()[0] == grown[0]);
                assert forall|i: int| 0 <= i < before.last().len() implies is_upper(
                    #[trigger] before.last()[i],
                ) || is_digit(before.last()[i]) by {
                    assert(before.last()[i] == grown[i]);
                }
            }
        }
        lemma_variant_list_chars(g0);
        assert forall|k: int| 0 <= k < g.len() implies is_variant_list_char(#[trigger] g[k]) by {
            if k < g.len() - 1 {
                assert(g[k] == g0[k]);
            }
        }
    }
}

/// The variant list of an enum expression opens at one place only: at the
/// last `(` of the expression.
pub proof fn lemma_enum_expr_unique(s: Seq<char>, a: int, b: int)
    requires
        is_enum_expr_at(s, a),
        is_enum_expr_at(s, b),
    ensures
        a == b,
{
    if a < b {
        let g = s.subrange(a + 1, s.len() - 1);
        lemma_variant_list_chars(g);
        assert(g[b - a - 1] == s[b]);
        assert(is_variant_list_char(g[b - a - 1]));
    } else if b < a {
        let g = s.subrange(b + 1, s.len() - 1);
        lemma_variant_list_chars(g);
        assert(g[a - b - 1] == s[a]);
        assert(is_variant_list_char(g[a - b - 1]));
    }
}

/// Whether `t` is the name of an enum variant.
fn variant_name_ok(t: &Vec<char>) -> (ok: bool)
    ensures
        ok == is_variant_name(t@),
{
    if t.len() == 0 || !char_is_upper(t[0]) {
        return false;
    }
    let mut i: usize = 1;
    while i < t.len()
        invariant
            1 <= i <= t.len(),
            is_upper(t@[0]),
            forall|j: int| 0 <= j < i ==> is_upper(#[trigger] t@[j]) || is_digit(t@[j]),
        decreases t.len() - i,
    {
        if !char_is_upper(t[i]) && !char_is_digit(t[i]) {
            return false;
        }
        i += 1;
    }
    true
}

/// Whether `pieces` are the pieces of a list text.
fn list_pieces_ok(pieces: &Vec<String>) -> (ok: bool)
    ensures
        ok == are_list_pieces(pieces.deep_view()),
{
    let n: usize = pieces.len();
    if n == 0 {
        return false;
    }
    let mut i: usize = 0;
    while i < n
        invariant
            i <= n,
            n == pieces.len(),
            n >= 1,
            forall|j: int| 0 <= j < i && j < n - 1 ==> is_variant_name(#[trigger] pieces.deep_view()[j]),
            i == n ==> pieces.deep_view().last().len() == 0 || is_variant_name(
                pieces.deep_view().last(),
            ),
        decreases n - i,
    {
        let t = chars_of(pieces[i].as_str());
        assert(t@ == pieces.deep_view()[i as int]);
        if i + 1 == n && t.len() == 0 {
        } else if !variant_name_ok(&t) {
            return false;
        }
        i += 1;
    }
    true
}

/// The variants of the enum expression `s`, if it is one. `v` holds the
/// characters of `s`.
fn enum_variant_list(s: &str, v: &Vec<char>) -> (found: Option<Vec<String>>)
    requires
        v@ == s@,
    ensures
        match found {
            Some(variants) => is_enum_expr(s@) && variants.deep_view() == enum_variants(s@),
            None => !is_enum_expr(s@),
        },
{
    let n: usize = v.len();
    if n < 6 || !begins_with(v, "ENUM") || v[n - 1] != ')' {
        return None;
    }
    let mut p: usize = n - 1;
    while p > 4 && v[p - 1] != '('
        invariant
            4 <= p <= n - 1,
            n == v.len(),
            forall|j: int| p <= j < n - 1 ==> #[trigger] v@[j] != '(',
        decreases p,
    {
        p -= 1;
    }
    if p == 4 {
        return None;
    }
    let open: usize = p - 1;
    let group = substring(s, open + 1, n - 1);
    let pieces = split_on(group.as_str(), ',');
    let mut plain: bool = true;
    let mut i: usize = 4;
    while i < open
        invariant
            4 <= i <= open < n,
            n == v.len(),
            plain == (forall|j: int| 4 <= j < i ==> #[trigger] v@[j] != '\n'),
        decreases open - i,
    {
        if v[i] == '\n' {
            plain = false;
        }
        i += 1;
    }
    let listed = list_pieces_ok(&pieces);
    proof {
        assert forall|o: int| is_enum_expr_at(s@, o) implies o == open by {
            if o < open {
                let g = s@.subrange(o + 1, s@.len() - 1);
                lemma_variant_list_chars(g);
                assert(g[open - o - 1] == s@[open as int]);
                assert(is_variant_list_char(g[open - o - 1]));
            }
        }
    }
    if plain && listed {
        proof {
            assert(is_enum_expr_at(s@, open as int));
            let chosen = choose|o: int| is_enum_expr_at(s@, o);
            assert(chosen == open);
        }
        let ghost all = pieces.deep_view();
        let mut variants = pieces;
        let k: usize = variants.len();
        if k >= 2 && chars_of(variants[k - 1].as_str()).len() == 0 {
            variants.pop();
            proof {
                assert(variants.deep_view() =~= all.drop_last());
            }
        }
        Some(variants)
    } else {
        None
    }
}

/// The text of a type expression that declares the type `t`.
pub open spec fn type_text(t: ColumnTypeModel) -> Seq<char> {
    match t {
        ColumnTypeModel::String => "STRING"@,
        ColumnTypeModel::Bool => "BOOL"@,
        ColumnTypeModel::Integer => "INTEGER"@,
        ColumnTypeModel::Enum(variants) => "ENUM("@ + join(variants, ',') + ")"@,
        ColumnTypeModel::Decimal => "DECIMAL"@,
        ColumnTypeModel::Date => "DATE"@,
        ColumnTypeModel::DateTime => "DATETIME"@,
        ColumnTypeModel::Time => "TIME"@,
    }
}

impl ColumnTypeModel {
    /// A type is well formed if it is no enum, or an enum of variant names
    /// (or of the one empty variant of `ENUM()`).
    pub open spec fn wf(self) -> bool {
        match self {
            ColumnTypeModel::Enum(variants) => is_variant_list(variants),
            _ => true,
        }
    }
}

impl ColumnType {
    /// Reads a type expression: one of the seven type words, or an enum
    /// expression. What begins with `ENUM` and is no enum expression is a bad
    /// enum, anything else an unknown type. The variants of an enum are the
    /// names between the commas of its list; a comma after the last name
    /// adds none.
    pub fn try_from(s: &str) -> (parsed: Result<ColumnType, ColumnTypeError>)
        ensures
            result_model(parsed) == parse_type(s@),
            parsed matches Ok(t) ==> t.deep_view().wf(),
    {
        let v = chars_of(s);
        if spells(&v, "STRING") {
            Ok(ColumnType::String)
        } else if spells(&v, "BOOL") {
            Ok(ColumnType::Bool)
        } else if spells(&v, "INTEGER") {
            Ok(ColumnType::Integer)
        } else if spells(&v, "DECIMAL") {
            Ok(ColumnType::Decimal)
        } else if spells(&v, "DATE") {
            Ok(ColumnType::Date)
        } else if spells(&v, "DATETIME") {
            Ok(ColumnType::DateTime)
        } else if spells(&v, "TIME") {
            Ok(ColumnType::Time)
        } else {
            match enum_variant_list(s, &v) {
                Some(variants) => {
                    proof {
                        let o = choose|o: int| is_enum_expr_at(s@, o);
                        assert(is_enum_expr_at(s@, o));
                    }
                    Ok(ColumnType::Enum(variants))
                },
                None => {
                    if begins_with(&v, "ENUM") {
                        Err(ColumnTypeError::BadEnum(s.to_owned()))
                    } else {
                        Err(ColumnTypeError::UnknownType(s.to_owned()))
                    }
                },
            }
        }
    }
}

impl ToText for ColumnType {
    open spec fn text(&self) -> Seq<char> {
        type_text(self.deep_view())
    }

    fn to_text(&self) -> (s: String) {
        match self {
            ColumnType::String => "STRING".to_owned(),
            ColumnType::Bool => "BOOL".to_owned(),
            ColumnType::Integer => "INTEGER".to_owned(),
            ColumnType::Enum(variants) => {
                let mut s = "ENUM(".to_owned();
                s.append(join_commas(variants).as_str());
                s.append(")");
                s
            },
            ColumnType::Decimal => "DECIMAL".to_owned(),
            ColumnType::Date => "DATE".to_owned(),
            ColumnType::DateTime => "DATETIME".to_owned(),
            ColumnType::Time => "TIME".to_owned(),
        }
    }
}

/// Reading a type expression gives a well-formed type: every variant of an
/// enum that was read is a variant name, but for the one empty variant of
/// `ENUM()`.
pub proof fn lemma_parsed_type_wf(s: Seq<char>)
    ensures
        parse_type(s) matches Ok(t) ==> t.wf(),
{
    if is_enum_expr(s) {
        let o = choose|o: int| is_enum_expr_at(s, o);
        assert(is_enum_expr_at(s, o));
        lemma_listed_variants(split(s.subrange(o + 1, s.len() - 1), ','));
    }
}

/// A type that was read from a type expression is read again from what it is
/// written as: the type of every column that a schema can declare survives
/// being written and read.
pub proof fn lemma_parsed_type_round_trip(s: Seq<char>)
    requires
        parse_type(s) is Ok,
    ensures
        parse_type(type_text(parse_type(s)->Ok_0)) == parse_type(s),
{
    lemma_parsed_type_wf(s);
    lemma_type_round_trip(parse_type(s)->Ok_0);
}

/// Writing a well-formed type as a type expression and reading the expression
/// gives the type back.
pub proof fn lemma_type_round_trip(t: ColumnTypeModel)
    requires
        t.wf(),
    ensures
        parse_type(type_text(t)) == Ok::<ColumnTypeModel, ColumnTypeErrorModel>(t),
{
    lemma_type_words_differ();
    let s = type_text(t);
    match t {
        ColumnTypeModel::Enum(variants) => {
            reveal_strlit("ENUM");
            reveal_strlit("ENUM(");
            reveal_strlit(")");
            let g = join(variants, ',');
            assert(s.len() == g.len() + 6);
            assert(s[0] == 'E');
            assert(s.subrange(0, 4) =~= "ENUM"@);
            assert(s.subrange(5, s.len() - 1) =~= g);
            assert forall|i: int, j: int|
                0 <= i < variants.len() && 0 <= j < variants[i].len() implies #[trigger] variants[i][j]
                != ',' by {
                assert(is_variant_name(variants[i]));
                assert(is_upper(variants[i][j]) || is_digit(variants[i][j]));
            }
            lemma_split_join(variants, ',');
            assert(variants.last() == variants[variants.len() - 1]);
            assert(are_list_pieces(variants));
            assert(listed_variants(variants) == variants);
            assert(is_enum_expr_at(s, 4));
            let o = choose|o: int| is_enum_expr_at(s, o);
            lemma_enum_expr_unique(s, o, 4);
        },
        _ => {},
    }
}

/// The seven type words are seven different texts, and none of them begins
/// with the letter `E`.
proof fn lemma_type_words_differ()
    ensures
        "STRING"@.len() == 6 && "STRING"@[0] == 'S',
        "BOOL"@.len() == 4 && "BOOL"@[0] == 'B',
        "INTEGER"@.len() == 7 && "INTEGER"@[0] == 'I',
        "DECIMAL"@.len() == 7 && "DECIMAL"@[0] == 'D',
        "DATE"@.len() == 4 && "DATE"@[0] == 'D',
        "DATETIME"@.len() == 8 && "DATETIME"@[0] == 'D',
        "TIME"@.len() == 4 && "TIME"@[0] == 'T',
{
    reveal_strlit("STRING");
    reveal_strlit("BOOL");
    reveal_strlit("INTEGER");
    reveal_strlit("DECIMAL");
    reveal_strlit("DATE");
    reveal_strlit("DATETIME");
    reveal_strlit("TIME");
}

/// What is asked of the cells of a column beyond their type.
#[derive(Clone, Copy, Debug, PartialEq, Eq)]
pub struct ColumnConstraints {
    /// A cell may be empty.
    pub nullable: bool,
    /// No two cells of the column should hold the same value. This is
    /// declared and kept; validation does not enforce it.
    pub unique: bool,
}

impl DeepView for ColumnConstraints {
    type V = ColumnConstraints;

    open spec fn deep_view(&self) -> ColumnConstraints {
        *self
    }
}

impl Default for ColumnConstraints {
    fn default() -> (constraints: ColumnConstraints)
        ensures
            constraints == (ColumnConstraints { nullable: false, unique: false }),
    {
        ColumnConstraints { nullable: false, unique: false }
    }
}

/// The pieces between the commas of a constraint expression: every comma
/// follows a word of uppercase letters, so every piece but the last is such a
/// word, and the last is a word or empty.
pub open spec fn is_constraint_list(pieces: Seq<Seq<char>>) -> bool {
    &&& pieces.len() >= 1
    &&& forall|i: int| 0 <= i < pieces.len() ==> all_upper(#[trigger] pieces[i])
    &&& forall|i: int| 0 <= i < pieces.len() - 1 ==> (#[trigger] pieces[i]).len() > 0
}

/// A piece of a constraint expression that names no constraint.
pub open spec fn is_unknown_constraint(piece: Seq<char>) -> bool {
    piece.len() > 0 && piece != "NULLABLE"@ && piece != "UNIQUE"@
}

/// The constraints that the expression `s` declares, or why it declares none.
/// The words may come in any order and more than once.
pub open spec fn parse_constraints(s: Seq<char>) -> Result<
    ColumnConstraints,
    ColumnConstraintsErrorModel,
> {
    let pieces = split(s, ',');
    if !is_constraint_list(pieces) {
        Err(ColumnConstraintsErrorModel::MalformedConstraints(s))
    } else if exists|i: int| 0 <= i < pieces.len() && is_unknown_constraint(#[trigger] pieces[i]) {
        Err(ColumnConstraintsErrorModel::UnknownConstraint(s))
    } else {
        Ok(
            ColumnConstraints {
                nullable: pieces.contains("NULLABLE"@),
                unique: pieces.contains("UNIQUE"@),
            },
        )
    }
}

/// The text of a constraint expression that declares `c`.
pub open spec fn constraints_text(c: ColumnConstraints) -> Seq<char> {
    if c.nullable && c.unique {
        "NULLABLE,UNIQUE"@
    } else if c.nullable {
        "NULLABLE"@
    } else if c.unique {
        "UNIQUE"@
    } else {
        Seq::<char>::empty()
    }
}

/// Whether every character of `t` is an uppercase letter.
fn all_upper_ok(t: &Vec<char>) -> (ok: bool)
    ensures
        ok == all_upper(t@),
{
    let mut i: usize = 0;
    while i < t.len()
        invariant
            i <= t.len(),
            forall|j: int| 0 <= j < i ==> is_upper(#[trigger] t@[j]),
        decreases t.len() - i,
    {
        if !char_is_upper(t[i]) {
            return false;
        }
        i += 1;
    }
    true
}

impl ColumnConstraints {
    /// Reads a constraint expression: words of uppercase letters with commas
    /// between them, and at most one comma after the last. Each word must be
    /// `NULLABLE` or `UNIQUE`.
    pub fn try_from(s: &str) -> (parsed: Result<ColumnConstraints, ColumnConstraintsError>)
        ensures
            result_model(parsed) == parse_constraints(s@),
    {
        let pieces = split_on(s, ',');
        let n: usize = pieces.len();
        proof {
            lemma_split_nonempty(s@, ',');
            reveal_strlit("NULLABLE");
            reveal_strlit("UNIQUE");
            assert("NULLABLE"@.len() == 8 && "UNIQUE"@.len() == 6);
        }
        let ghost model = pieces.deep_view();
        let mut nullable: bool = false;
        let mut unique: bool = false;
        let mut unknown: bool = false;
        let mut i: usize = 0;
        while i < n
            invariant
                i <= n,
                n == pieces.len(),
                n >= 1,
                model == pieces.deep_view(),
                model == split(s@, ','),
                "NULLABLE"@.len() == 8 && "UNIQUE"@.len() == 6,
                forall|j: int| 0 <= j < i ==> all_upper(#[trigger] model[j]),
                forall|j: int| 0 <= j < i && j < n - 1 ==> (#[trigger] model[j]).len() > 0,
                nullable == model.take(i as int).contains("NULLABLE"@),
                unique == model.take(i as int).contains("UNIQUE"@),
                unknown == (exists|j: int| 0 <= j < i && is_unknown_constraint(#[trigger] model[j])),
            decreases n - i,
        {
            let t = chars_of(pieces[i].as_str());
            assert(t@ == model[i as int]);
            if !all_upper_ok(&t) || (t.len() == 0 && i + 1 < n) {
                return Err(ColumnConstraintsError::MalformedConstraints(s.to_owned()));
            }
            let ghost before = model.take(i as int);
            let ghost now = model.take(i + 1);
            proof {
                assert(now =~= before.push(model[i as int]));
                assert forall|w: Seq<char>| now.contains(w) <==> before.contains(w) || w
                    == model[i as int] by {
                    if before.contains(w) {
                        let k = choose|k: int| 0 <= k < before.len() && before[k] == w;
                        assert(now[k] == w);
                    }
                    if w == model[i as int] {
                        assert(now[i as int] == w);
                    }
                }
            }
            if spells(&t, "NULLABLE") {
                nullable = true;
            } else if spells(&t, "UNIQUE") {
                unique = true;
            } else if t.len() > 0 {
                unknown = true;
            }
            i += 1;
        }
        proof {
            assert(model.take(n as int) =~= model);
        }
        if unknown {
            Err(ColumnConstraintsError::UnknownConstraint(s.to_owned()))
        } else {
            Ok(ColumnConstraints { nullable: nullable, unique: unique })
        }
    }
}

impl ToText for ColumnConstraints {
    open spec fn text(&self) -> Seq<char> {
        constraints_text(*self)
    }

    fn to_text(&self) -> (s: String) {
        if self.nullable && self.unique {
            "NULLABLE,UNIQUE".to_owned()
        } else if self.nullable {
            "NULLABLE".to_owned()
        } else if self.unique {
            "UNIQUE".to_owned()
        } else {
            String::new()
        }
    }
}

/// The name of a column: a lowercase letter, then lowercase letters, digits
/// and underscores.
pub open spec fn is_column_id(id: Seq<char>) -> bool {
    &&& id.len() > 0
    &&& is_lower(id[0])
    &&& forall|i: int|
        0 <= i < id.len() ==> is_lower(#[trigger] id[i]) || is_digit(id[i]) || id[i] == '_'
}

/// The declaration of one column: its name, the type and the constraints of
/// its cells, and a free description.
#[derive(Clone, Debug, PartialEq, Eq)]
pub struct CsvxColumnType {
    pub id: String,
    pub ty: ColumnType,
    pub constraints: ColumnConstraints,
    pub description: String,
}

/// What a [`CsvxColumnType`] holds, as mathematical values.
pub struct ColumnModel {
    pub id: Seq<char>,
    pub ty: ColumnTypeModel,
    pub constraints: ColumnConstraints,
    pub description: Seq<char>,
}

impl ColumnModel {
    /// A column is well formed if its name is the name of a column and its
    /// type is well formed. The columns of a schema that was read from a
    /// schema table are.
    pub open spec fn wf(self) -> bool {
        is_column_id(self.id) && self.ty.wf()
    }
}

impl DeepView for CsvxColumnType {
    type V = ColumnModel;

    open spec fn deep_view(&self) -> ColumnModel {
        ColumnModel {
            id: self.id@,
            ty: self.ty.deep_view(),
            constraints: self.constraints,
            description: self.description@,
        }
    }
}

} // verus!
