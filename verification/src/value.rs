//! The cells of a table: what a cell's text must look like for each column
//! type, and the value it is decoded to.

use vstd::prelude::*;
use vstd::string::*;

use crate::calendar::date_of_digits;
use crate::calendar::time_of_digits;
use crate::calendar::Date;
use crate::calendar::DateModel;
use crate::calendar::DateTime;
use crate::calendar::DateTimeModel;
use crate::calendar::Time;
use crate::calendar::TimeModel;
use crate::column::ColumnType;
use crate::column::ColumnTypeModel;
use crate::column::CsvxColumnType;
use crate::err::ValueError;
use crate::err::ValueErrorModel;
use crate::text::all_digits;
use crate::text::char_is_digit;
use crate::text::chars_of;
use crate::text::decimal_value;
use crate::text::digit_value;
use crate::text::is_digit;
use crate::text::lemma_all_digits_subrange;
use crate::text::result_model;
use crate::text::spells;

verus! {

broadcast use vstd::string::group_string_axioms;

/// The decoded content of a cell.
#[derive(Clone, Debug, PartialEq, Eq)]
pub enum Value {
    String(String),
    Bool(bool),
    Integer(i64),
    /// The position of the variant in the list of the column's type.
    Enum(usize),
    /// The text of the decimal number, as it stood in the cell.
    Decimal(String),
    Date(Date),
    DateTime(DateTime),
    Time(Time),
}

/// What a [`Value`] holds, as mathematical values.
pub enum ValueModel {
    String(Seq<char>),
    Bool(bool),
    Integer(i64),
    Enum(usize),
    Decimal(Seq<char>),
    Date(DateModel),
    DateTime(DateTimeModel),
    Time(TimeModel),
}

impl DeepView for Value {
    type V = ValueModel;

    open spec fn deep_view(&self) -> ValueModel {
        match *self {
            Value::String(s) => ValueModel::String(s@),
            Value::Bool(b) => ValueModel::Bool(b),
            Value::Integer(n) => ValueModel::Integer(n),
            Value::Enum(position) => ValueModel::Enum(position),
            Value::Decimal(s) => ValueModel::Decimal(s@),
            Value::Date(d) => ValueModel::Date(d.deep_view()),
            Value::DateTime(d) => ValueModel::DateTime(d.deep_view()),
            Value::Time(t) => ValueModel::Time(t.deep_view()),
        }
    }
}

impl Value {
    /// The text of a string or of a decimal number.
    pub fn to_string(self) -> (text: Option<String>)
        ensures
            text.deep_view() == (match self.deep_view() {
                ValueModel::String(s) => Some(s),
                ValueModel::Decimal(s) => Some(s),
                _ => None,
            }),
    {
        match self {
            Value::String(s) => Some(s),
            Value::Decimal(d) => Some(d),
            _ => None,
        }
    }

    /// The truth value of a boolean.
    pub fn to_bool(self) -> (b: Option<bool>)
        ensures
            b == (match self {
                Value::Bool(val) => Some(val),
                _ => None,
            }),
    {
        if let Value::Bool(val) = self {
            Some(val)
        } else {
            None
        }
    }

    /// The number of an integer.
    pub fn to_i64(self) -> (n: Option<i64>)
        ensures
            n == (match self {
                Value::Integer(val) => Some(val),
                _ => None,
            }),
    {
        if let Value::Integer(val) = self {
            Some(val)
        } else {
            None
        }
    }

    /// The day of a date.
    pub fn to_date(self) -> (date: Option<Date>)
        ensures
            date == (match self {
                Value::Date(val) => Some(val),
                _ => None,
            }),
    {
        if let Value::Date(val) = self {
            Some(val)
        } else {
            None
        }
    }

    /// The day and time of a datetime.
    pub fn to_datetime(self) -> (datetime: Option<DateTime>)
        ensures
            datetime == (match self {
                Value::DateTime(val) => Some(val),
                _ => None,
            }),
    {
        if let Value::DateTime(val) = self {
            Some(val)
        } else {
            None
        }
    }

    /// The time of day of a time.
    pub fn to_time(self) -> (time: Option<Time>)
        ensures
            time == (match self {
                Value::Time(val) => Some(val),
                _ => None,
            }),
    {
        if let Value::Time(val) = self {
            Some(val)
        } else {
            None
        }
    }

    /// The position of the variant of an enum value.
    pub fn to_usize(self) -> (position: Option<usize>)
        ensures
            position == (match self {
                Value::Enum(val) => Some(val),
                _ => None,
            }),
    {
        if let Value::Enum(v) = self {
            Some(v)
        } else {
            None
        }
    }
}

/// The integer that `s` writes in decimal: at least one digit, with or
/// without a minus sign in front. Leading zeros are accepted.
pub open spec fn int_literal(s: Seq<char>) -> Option<int> {
    if s.len() > 0 && s[0] == '-' {
        if s.len() > 1 && all_digits(s.drop_first()) {
            Some(-decimal_value(s.drop_first()))
        } else {
            None
        }
    } else if s.len() > 0 && all_digits(s) {
        Some(decimal_value(s))
    } else {
        None
    }
}

/// The 64-bit signed integer that `s` writes, if it writes an integer and
/// that integer fits.
pub open spec fn parse_int(s: Seq<char>) -> Option<i64> {
    match int_literal(s) {
        Some(n) => if i64::MIN <= n <= i64::MAX {
            Some(n as i64)
        } else {
            None
        },
        None => None,
    }
}

/// `s` writes an unsigned decimal number: digits, or digits, one dot and
/// digits. There is no sign and no exponent.
pub open spec fn is_decimal(s: Seq<char>) -> bool {
    ||| s.len() > 0 && all_digits(s)
    ||| exists|dot: int| is_decimal_with_dot_at(s, dot)
}

/// `s` is digits, a dot at position `dot`, and digits.
pub open spec fn is_decimal_with_dot_at(s: Seq<char>, dot: int) -> bool {
    &&& 0 < dot < s.len() - 1
    &&& s[dot] == '.'
    &&& all_digits(s.subrange(0, dot))
    &&& all_digits(s.subrange(dot + 1, s.len() as int))
}

/// `at` is the first position of `word` in `words`.
pub open spec fn is_first_position(words: Seq<Seq<char>>, word: Seq<char>, at: int) -> bool {
    &&& 0 <= at < words.len()
    &&& words[at] == word
    &&& forall|j: int| 0 <= j < at ==> #[trigger] words[j] != word
}

/// The first position of `word` in `words`, if it occurs there.
pub open spec fn first_position(words: Seq<Seq<char>>, word: Seq<char>) -> Option<int> {
    if exists|at: int| is_first_position(words, word, at) {
        Some(choose|at: int| is_first_position(words, word, at))
    } else {
        None
    }
}

/// What the text `raw` of a cell is decoded to in a column of type `ty`, or
/// why it is refused. An empty cell holds no value, which only a nullable
/// column accepts.
pub open spec fn cell_value(ty: ColumnTypeModel, nullable: bool, raw: Seq<char>) -> Result<
    Option<ValueModel>,
    ValueErrorModel,
> {
    if raw.len() == 0 {
        if nullable {
            Ok(None)
        } else {
            Err(ValueErrorModel::NonNullable)
        }
    } else {
        match ty {
            ColumnTypeModel::String => Ok(Some(ValueModel::String(raw))),
            ColumnTypeModel::Bool => if raw == "TRUE"@ {
                Ok(Some(ValueModel::Bool(true)))
            } else if raw == "FALSE"@ {
                Ok(Some(ValueModel::Bool(false)))
            } else {
                Err(ValueErrorModel::InvalidBool(raw))
            },
            ColumnTypeModel::Integer => match parse_int(raw) {
                Some(n) => Ok(Some(ValueModel::Integer(n))),
                None => Err(ValueErrorModel::InvalidInt(raw)),
            },
            ColumnTypeModel::Enum(variants) => match first_position(variants, raw) {
                Some(at) => Ok(Some(ValueModel::Enum(at as usize))),
                None => Err(ValueErrorModel::InvalidEnum(raw, variants)),
            },
            ColumnTypeModel::Decimal => if is_decimal(raw) {
                Ok(Some(ValueModel::Decimal(raw)))
            } else {
                Err(ValueErrorModel::InvalidDecimal(raw))
            },
            ColumnTypeModel::Date => if raw.len() == 8 && all_digits(raw) && date_of_digits(
                raw,
            ) is Some {
                Ok(Some(ValueModel::Date(date_of_digits(raw)->0)))
            } else {
                Err(ValueErrorModel::InvalidDate(raw))
            },
            ColumnTypeModel::DateTime => if raw.len() == 14 && all_digits(raw) && date_of_digits(
                raw.subrange(0, 8),
            ) is Some && time_of_digits(raw.subrange(8, 14)) is Some {
                Ok(
                    Some(
                        ValueModel::DateTime(
                            DateTimeModel {
                                date: date_of_digits(raw.subrange(0, 8))->0,
                                time: time_of_digits(raw.subrange(8, 14))->0,
                            },
                        ),
                    ),
                )
            } else {
                Err(ValueErrorModel::InvalidDateTime(raw))
            },
            ColumnTypeModel::Time => if raw.len() == 6 && all_digits(raw) && time_of_digits(
                raw,
            ) is Some {
                Ok(Some(ValueModel::Time(time_of_digits(raw)->0)))
            } else {
                Err(ValueErrorModel::InvalidTime(raw))
            },
        }
    }
}

/// A run of digits denotes at least what any of its beginnings denotes.
pub proof fn lemma_decimal_value_grows(s: Seq<char>, k: int)
    requires
        all_digits(s),
        0 <= k <= s.len(),
    ensures
        0 <= decimal_value(s.take(k)) <= decimal_value(s),
    decreases s.len() - k,
{
    lemma_all_digits_subrange(s, 0, k);
    crate::text::lemma_decimal_value_bounds(s.take(k));
    if k == s.len() {
        assert(s.take(k) =~= s);
    } else {
        lemma_decimal_value_grows(s, k + 1);
        assert(s.take(k + 1).drop_last() =~= s.take(k));
        assert(is_digit(s[k]));
        assert(s.take(k + 1).last() == s[k]);
    }
}

/// Whether every character of `v` from position `from` on is a digit.
pub fn digits_from(v: &Vec<char>, from: usize) -> (ok: bool)
    requires
        from <= v.len(),
    ensures
        ok == all_digits(v@.subrange(from as int, v.len() as int)),
{
    let mut i: usize = from;
    while i < v.len()
        invariant
            from <= i <= v.len(),
            forall|j: int| from <= j < i ==> is_digit(#[trigger] v@[j]),
        decreases v.len() - i,
    {
        if !char_is_digit(v[i]) {
            proof {
                assert(v@.subrange(from as int, v.len() as int)[i - from] == v@[i as int]);
            }
            return false;
        }
        i += 1;
    }
    proof {
        let run = v@.subrange(from as int, v.len() as int);
        assert forall|j: int| 0 <= j < run.len() implies is_digit(#[trigger] run[j]) by {
            assert(run[j] == v@[from + j]);
        }
    }
    true
}

/// Reads a 64-bit signed integer in decimal.
pub fn read_int(v: &Vec<char>) -> (n: Option<i64>)
    ensures
        n == parse_int(v@),
{
    let len: usize = v.len();
    if len == 0 {
        return None;
    }
    let negative: bool = v[0] == '-';
    let start: usize = if negative {
        1
    } else {
        0
    };
    if start == len || !digits_from(v, start) {
        proof {
            assert(v@.drop_first() =~= v@.subrange(1, len as int));
            assert(v@ =~= v@.subrange(0, len as int));
        }
        return None;
    }
    let ghost digits = v@.subrange(start as int, len as int);
    proof {
        assert(v@.drop_first() =~= v@.subrange(1, len as int));
        assert(v@ =~= v@.subrange(0, len as int));
    }
    let limit: u64 = if negative {
        0x8000_0000_0000_0000
    } else {
        0x7fff_ffff_ffff_ffff
    };
    let mut acc: u64 = 0;
    let mut i: usize = start;
    proof {
        assert(digits.take(0) =~= Seq::<char>::empty());
    }
    while i < len
        invariant
            start <= i <= len,
            len == v.len(),
            digits == v@.subrange(start as int, len as int),
            all_digits(digits),
            acc == decimal_value(digits.take(i - start)),
            acc <= limit,
            len > 0,
            negative == (v@[0] == '-'),
            negative ==> digits == v@.drop_first() && limit == 0x8000_0000_0000_0000,
            !negative ==> digits == v@ && limit == 0x7fff_ffff_ffff_ffff,
        decreases len - i,
    {
        let c = v[i];
        proof {
            assert(digits[i - start] == c);
            assert(is_digit(digits[i - start]));
            assert(digits.take(i - start + 1).drop_last() =~= digits.take(i - start));
            assert(digits.take(i - start + 1).last() == c);
            lemma_decimal_value_grows(digits, i - start + 1);
        }
        let d: u64 = (c as u32 - '0' as u32) as u64;
        if acc > (limit - d) / 10 {
            return None;
        }
        acc = acc * 10 + d;
        i += 1;
    }
    proof {
        assert(digits.take(len - start) =~= digits);
    }
    if negative {
        if acc == 0x8000_0000_0000_0000 {
            Some(i64::MIN)
        } else {
            Some(-(acc as i64))
        }
    } else {
        Some(acc as i64)
    }
}

/// Whether `v` writes an unsigned decimal number.
pub fn decimal_ok(v: &Vec<char>) -> (ok: bool)
    ensures
        ok == is_decimal(v@),
{
    let len: usize = v.len();
    let mut p: usize = 0;
    while p < len && char_is_digit(v[p])
        invariant
            p <= len,
            len == v.len(),
            forall|j: int| 0 <= j < p ==> is_digit(#[trigger] v@[j]),
        decreases len - p,
    {
        p += 1;
    }
    proof {
        assert forall|dot: int| is_decimal_with_dot_at(v@, dot) implies dot == p by {
            if dot < p {
                assert(is_digit(v@[dot]));
            } else if dot > p {
                assert(v@.subrange(0, dot)[p as int] == v@[p as int]);
            }
        }
    }
    if p == len {
        return len > 0;
    }
    if p == 0 || v[p] != '.' || p + 1 == len {
        return false;
    }
    let rest = digits_from(v, p + 1);
    proof {
        if rest {
            assert forall|j: int| 0 <= j < p implies is_digit(#[trigger] v@.subrange(0, p as int)[j]) by {
                assert(is_digit(v@[j]));
            }
            assert(is_decimal_with_dot_at(v@, p as int));
        }
    }
    rest
}

/// The first position at which `word` stands in `words`.
pub fn find_first(words: &Vec<String>, word: &str) -> (at: Option<usize>)
    ensures
        at matches Some(i) ==> first_position(words.deep_view(), word@) == Some(i as int),
        at is None ==> first_position(words.deep_view(), word@) is None,
{
    let mut i: usize = 0;
    while i < words.len()
        invariant
            i <= words.len(),
            forall|j: int| 0 <= j < i ==> #[trigger] words.deep_view()[j] != word@,
        decreases words.len() - i,
    {
        if crate::text::str_eq(words[i].as_str(), word) {
            proof {
                let model = words.deep_view();
                assert(is_first_position(model, word@, i as int));
                let chosen = choose|at: int| is_first_position(model, word@, at);
                assert(is_first_position(model, word@, chosen));
                if chosen < i {
                    assert(model[chosen] != word@);
                }
            }
            return Some(i);
        }
        i += 1;
    }
    None
}

/// A copy of `words`.
fn copy_of(words: &Vec<String>) -> (copy: Vec<String>)
    ensures
        copy.deep_view() == words.deep_view(),
{
    let mut copy: Vec<String> = Vec::new();
    let mut i: usize = 0;
    while i < words.len()
        invariant
            i <= words.len(),
            copy.len() == i,
            forall|j: int| 0 <= j < i ==> copy@[j]@ == words@[j]@,
        decreases words.len() - i,
    {
        copy.push(words[i].clone());
        i += 1;
    }
    assert(copy.deep_view() =~= words.deep_view());
    copy
}

impl CsvxColumnType {
    /// Decodes the text of one cell of this column, or says why the text is
    /// refused. An empty cell holds no value: a nullable column accepts it,
    /// any other refuses it. Every other cell is read by the column's type.
    pub fn validate_value(&self, s: &str) -> (decoded: Result<Option<Value>, ValueError>)
        ensures
            result_model(decoded) == cell_value(
                self.ty.deep_view(),
                self.constraints.nullable,
                s@,
            ),
    {
        let v = chars_of(s);
        if v.len() == 0 {
            if self.constraints.nullable {
                return Ok(None);
            } else {
                return Err(ValueError::NonNullable);
            }
        }
        proof {
            assert(v@ =~= v@.subrange(0, v.len() as int));
        }
        match &self.ty {
            ColumnType::String => Ok(Some(Value::String(s.to_owned()))),
            ColumnType::Bool => {
                if spells(&v, "TRUE") {
                    Ok(Some(Value::Bool(true)))
                } else if spells(&v, "FALSE") {
                    Ok(Some(Value::Bool(false)))
                } else {
                    Err(ValueError::InvalidBool(s.to_owned()))
                }
            },
            ColumnType::Integer => {
                match read_int(&v) {
                    Some(n) => Ok(Some(Value::Integer(n))),
                    None => Err(ValueError::InvalidInt(s.to_owned())),
                }
            },
            ColumnType::Enum(variants) => {
                match find_first(variants, s) {
                    Some(at) => Ok(Some(Value::Enum(at))),
                    None => Err(ValueError::InvalidEnum(s.to_owned(), copy_of(variants))),
                }
            },
            ColumnType::Decimal => {
                if decimal_ok(&v) {
                    Ok(Some(Value::Decimal(s.to_owned())))
                } else {
                    Err(ValueError::InvalidDecimal(s.to_owned()))
                }
            },
            ColumnType::Date => {
                if v.len() == 8 && digits_from(&v, 0) {
                    match Date::from_digits(&v, 0) {
                        Some(date) => Ok(Some(Value::Date(date))),
                        None => Err(ValueError::InvalidDate(s.to_owned())),
                    }
                } else {
                    Err(ValueError::InvalidDate(s.to_owned()))
                }
            },
            ColumnType::DateTime => {
                if v.len() == 14 && digits_from(&v, 0) {
                    proof {
                        lemma_all_digits_subrange(v@, 0, 8);
                        lemma_all_digits_subrange(v@, 8, 14);
                    }
                    match (Date::from_digits(&v, 0), Time::from_digits(&v, 8)) {
                        (Some(date), Some(time)) => Ok(
                            Some(Value::DateTime(DateTime { date: date, time: time })),
                        ),
                        _ => Err(ValueError::InvalidDateTime(s.to_owned())),
                    }
                } else {
                    Err(ValueError::InvalidDateTime(s.to_owned()))
                }
            },
            ColumnType::Time => {
                if v.len() == 6 && digits_from(&v, 0) {
                    match Time::from_digits(&v, 0) {
                        Some(time) => Ok(Some(Value::Time(time))),
                        None => Err(ValueError::InvalidTime(s.to_owned())),
                    }
                } else {
                    Err(ValueError::InvalidTime(s.to_owned()))
                }
            },
        }
    }
}

} // verus!
