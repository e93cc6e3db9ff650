use vstd::prelude::*;
use vstd::string::*;
use crate::common::{spec_digit_val, digit_val, spec_code_num, code_num};

verus! {

/// A row-scoped decode failure.  A failed row yields an error item; the
/// surrounding row sequence stays usable for the next row.
#[derive(Clone, Copy, Debug, PartialEq, Eq, Structural)]
pub enum DecodeError {
    /// The raw row's field count differs from the record kind's schema.
    WrongColumnCount { expected: usize, actual: usize },
    /// A primitive-typed column's text cannot be parsed as its declared type,
    /// or a non-optional column is empty.
    FieldParse { column: usize },
    /// An enum column's code is outside its domain's closed set.
    UnknownEnumCode { column: usize },
}

/// How a single column failed to decode, before its position is known.
#[derive(Clone, Copy, Debug, PartialEq, Eq, Structural)]
pub enum FieldError {
    Parse,
    UnknownCode,
}

/// The row-level error for a column failure at a given position.
pub open spec fn spec_column_error(k: FieldError, column: usize) -> DecodeError {
    match k {
        FieldError::Parse => DecodeError::FieldParse { column },
        FieldError::UnknownCode => DecodeError::UnknownEnumCode { column },
    }
}

pub fn column_error(k: FieldError, column: usize) -> (r: DecodeError)
    ensures
        r == spec_column_error(k, column),
{
    match k {
        FieldError::Parse => DecodeError::FieldParse { column },
        FieldError::UnknownCode => DecodeError::UnknownEnumCode { column },
    }
}

/// The closed enum domains that enumerated columns draw their codes from.
#[derive(Clone, Copy, Debug, PartialEq, Eq, Structural)]
pub enum EnumDomain {
    /// Reasons a record was synthesized; codes 0-2.
    MissingInfo,
    /// Latency sensitivity classes; codes 0-3.
    SchedulingClass,
    /// Job and task lifecycle event types; codes 0-8.
    EventType,
    /// Machine availability event types; codes 0-2.
    MachineEventType,
}

/// Number of codes in a domain's closed set; valid codes are `0..size`.
pub open spec fn spec_domain_size(d: EnumDomain) -> u8 {
    match d {
        EnumDomain::MissingInfo => 3,
        EnumDomain::SchedulingClass => 4,
        EnumDomain::EventType => 9,
        EnumDomain::MachineEventType => 3,
    }
}

pub fn domain_size(d: EnumDomain) -> (r: u8)
    ensures
        r == spec_domain_size(d),
{
    match d {
        EnumDomain::MissingInfo => 3,
        EnumDomain::SchedulingClass => 4,
        EnumDomain::EventType => 9,
        EnumDomain::MachineEventType => 3,
    }
}

/// Semantic type of one positional column.
#[derive(Clone, Copy, Debug, PartialEq, Eq, Structural)]
pub enum ColumnType {
    /// Unsigned 64-bit integer, written in decimal digits.
    UInt,
    /// Floating-point number; the decoded value keeps the raw text, checked
    /// against the floating-point literal grammar.
    Float,
    /// Free text (the trace stores hashed names here).
    Text,
    /// Boolean, written as the digit 0 or 1.
    Boolean,
    /// A compact code from a closed enum domain.
    Enum(EnumDomain),
}

/// One column of a record kind's schema: its type, and whether empty text
/// means a null value rather than a parse failure.
#[derive(Clone, Copy, Debug, PartialEq, Eq, Structural)]
pub struct ColumnSpec {
    pub ty: ColumnType,
    pub optional: bool,
}

/// A decoded column value.  Float values keep their validated raw text, so
/// that no precision is decided by this crate; callers convert when needed.
#[derive(Debug, Clone, PartialEq)]
pub enum Field {
    /// An optional column that was empty.
    Null,
    UInt(u64),
    Float(String),
    Text(String),
    Boolean(bool),
    /// A validated code, in range for its column's enum domain.
    Code(u8),
}

/// Mathematical value of a decoded column.
pub enum FieldV {
    Null,
    UInt(u64),
    Float(Seq<char>),
    Text(Seq<char>),
    Boolean(bool),
    Code(u8),
}

impl View for Field {
    type V = FieldV;

    open spec fn view(&self) -> FieldV {
        match self {
            Field::Null => FieldV::Null,
            Field::UInt(v) => FieldV::UInt(*v),
            Field::Float(s) => FieldV::Float(s@),
            Field::Text(s) => FieldV::Text(s@),
            Field::Boolean(b) => FieldV::Boolean(*b),
            Field::Code(c) => FieldV::Code(*c),
        }
    }
}

impl DeepView for Field {
    type V = FieldV;

    open spec fn deep_view(&self) -> FieldV {
        self.view()
    }
}

/// Whether a character is a decimal digit.
pub open spec fn spec_is_digit(c: char) -> bool {
    spec_digit_val(c) is Some
}

/// Value of a digit string, most significant digit first; non-digits count
/// as zero.
pub open spec fn spec_digits_val(s: Seq<char>) -> nat
    decreases s.len(),
{
    if s.len() == 0 {
        0
    } else {
        spec_digits_val(s.drop_last()) * 10 + spec_digit_val_or_zero(s.last())
    }
}

pub open spec fn spec_digit_val_or_zero(c: char) -> nat {
    match spec_digit_val(c) {
        Some(d) => d as nat,
        None => 0,
    }
}

/// A prefix of a digit string never has a larger value than the whole.
proof fn lemma_digits_val_take_le(s: Seq<char>, i: int)
    requires
        0 <= i <= s.len(),
    ensures
        spec_digits_val(s.take(i)) <= spec_digits_val(s),
    decreases s.len() - i,
{
    if i == s.len() {
        assert(s.take(i) =~= s);
    } else {
        lemma_digits_val_take_le(s, i + 1);
        assert(s.take(i + 1).drop_last() =~= s.take(i));
        assert(spec_digits_val(s.take(i + 1)) == spec_digits_val(s.take(i)) * 10
            + spec_digit_val_or_zero(s.take(i + 1).last()));
    }
}

/// Value of an unsigned decimal integer column: defined exactly when the
/// text is one or more digits and the value fits in 64 bits.
pub open spec fn spec_parse_u64(s: Seq<char>) -> Option<u64> {
    if s.len() > 0 && (forall|j: int| 0 <= j < s.len() ==> #[trigger] spec_is_digit(s[j]))
        && spec_digits_val(s) <= u64::MAX {
        Some(spec_digits_val(s) as u64)
    } else {
        None
    }
}

pub fn parse_u64(text: &str) -> (r: Option<u64>)
    ensures
        r == spec_parse_u64(text@),
{
    let n = text.unicode_len();
    if n == 0 {
        return None;
    }
    let mut acc: u64 = 0;
    let mut i: usize = 0;
    while i < n
        invariant
            0 < n == text@.len(),
            i <= n,
            forall|j: int| 0 <= j < i ==> #[trigger] spec_is_digit(text@[j]),
            acc == spec_digits_val(text@.take(i as int)),
        decreases n - i,
    {
        let c = text.get_char(i);
        match digit_val(c) {
            None => {
                proof {
                    assert(!spec_is_digit(text@[i as int]));
                }
                return None;
            },
            Some(d) => {
                let wide: u128 = acc as u128 * 10 + d as u128;
                proof {
                    assert(text@.take(i + 1).drop_last() =~= text@.take(i as int));
                    assert(spec_digits_val(text@.take(i + 1)) == acc * 10 + d);
                }
                if wide > u64::MAX as u128 {
                    proof {
                        lemma_digits_val_take_le(text@, i + 1);
                    }
                    return None;
                }
                acc = wide as u64;
                i += 1;
            },
        }
    }
    proof {
        assert(text@.take(n as int) =~= text@);
    }
    Some(acc)
}

/// Value of a boolean column: the digit 0 or 1.
pub open spec fn spec_parse_bool(s: Seq<char>) -> Option<bool> {
    match spec_code_num(s) {
        Some(0u8) => Some(false),
        Some(1u8) => Some(true),
        _ => None,
    }
}

pub fn parse_bool(text: &str) -> (r: Option<bool>)
    ensures
        r == spec_parse_bool(text@),
{
    match code_num(text) {
        Some(0u8) => Some(false),
        Some(1u8) => Some(true),
        _ => None,
    }
}

/// Scanner states of the floating-point literal grammar: an optional sign,
/// then digits with at most one decimal point (at least one digit overall),
/// then an optional exponent part.
#[derive(Clone, Copy, Debug, PartialEq, Eq, Structural)]
pub enum FloatScanState {
    /// Nothing read yet.
    Start,
    /// Read the mantissa sign.
    Sign,
    /// Reading integer-part digits.
    IntDigits,
    /// Read a decimal point before any digit.
    LeadingDot,
    /// Read a decimal point after integer-part digits.
    DotAfterInt,
    /// Reading fractional digits.
    FracDigits,
    /// Read the exponent marker.
    ExpStart,
    /// Read the exponent sign.
    ExpSign,
    /// Reading exponent digits.
    ExpDigits,
    /// The text cannot be a floating-point literal.
    Reject,
}

pub open spec fn spec_is_sign(c: char) -> bool {
    c == '+' || c == '-'
}

pub open spec fn spec_is_exp_marker(c: char) -> bool {
    c == 'e' || c == 'E'
}

/// One step of the floating-point literal scanner.
pub open spec fn spec_float_step(st: FloatScanState, c: char) -> FloatScanState {
    match st {
        FloatScanState::Start => if spec_is_sign(c) {
            FloatScanState::Sign
        } else if spec_is_digit(c) {
            FloatScanState::IntDigits
        } else if c == '.' {
            FloatScanState::LeadingDot
        } else {
            FloatScanState::Reject
        },
        FloatScanState::Sign => if spec_is_digit(c) {
            FloatScanState::IntDigits
        } else if c == '.' {
            FloatScanState::LeadingDot
        } else {
            FloatScanState::Reject
        },
        FloatScanState::IntDigits => if spec_is_digit(c) {
            FloatScanState::IntDigits
        } else if c == '.' {
            FloatScanState::DotAfterInt
        } else if spec_is_exp_marker(c) {
            FloatScanState::ExpStart
        } else {
            FloatScanState::Reject
        },
        FloatScanState::LeadingDot => if spec_is_digit(c) {
            FloatScanState::FracDigits
        } else {
            FloatScanState::Reject
        },
        FloatScanState::DotAfterInt => if spec_is_digit(c) {
            FloatScanState::FracDigits
        } else if spec_is_exp_marker(c) {
            FloatScanState::ExpStart
        } else {
            FloatScanState::Reject
        },
        FloatScanState::FracDigits => if spec_is_digit(c) {
            FloatScanState::FracDigits
        } else if spec_is_exp_marker(c) {
            FloatScanState::ExpStart
        } else {
            FloatScanState::Reject
        },
        FloatScanState::ExpStart => if spec_is_sign(c) {
            FloatScanState::ExpSign
        } else if spec_is_digit(c) {
            FloatScanState::ExpDigits
        } else {
            FloatScanState::Reject
        },
        FloatScanState::ExpSign => if spec_is_digit(c) {
            FloatScanState::ExpDigits
        } else {
            FloatScanState::Reject
        },
        FloatScanState::ExpDigits => if spec_is_digit(c) {
            FloatScanState::ExpDigits
        } else {
            FloatScanState::Reject
        },
        FloatScanState::Reject => FloatScanState::Reject,
    }
}

/// Run the scanner over a whole text.
pub open spec fn spec_float_scan(st: FloatScanState, s: Seq<char>) -> FloatScanState
    decreases s.len(),
{
    if s.len() == 0 {
        st
    } else {
        spec_float_scan(spec_float_step(st, s[0]), s.drop_first())
    }
}

/// States in which the text read so far is a complete literal.
pub open spec fn spec_float_accepting(st: FloatScanState) -> bool {
    match st {
        FloatScanState::IntDigits => true,
        FloatScanState::DotAfterInt => true,
        FloatScanState::FracDigits => true,
        FloatScanState::ExpDigits => true,
        _ => false,
    }
}

/// Whether a text is a floating-point literal.
pub open spec fn spec_is_float_text(s: Seq<char>) -> bool {
    spec_float_accepting(spec_float_scan(FloatScanState::Start, s))
}

fn float_step(st: FloatScanState, c: char) -> (r: FloatScanState)
    ensures
        r == spec_float_step(st, c),
{
    let digit = digit_val(c).is_some();
    let sign = c == '+' || c == '-';
    let exp_marker = c == 'e' || c == 'E';
    match st {
        FloatScanState::Start => if sign {
            FloatScanState::Sign
        } else if digit {
            FloatScanState::IntDigits
        } else if c == '.' {
            FloatScanState::LeadingDot
        } else {
            FloatScanState::Reject
        },
        FloatScanState::Sign => if digit {
            FloatScanState::IntDigits
        } else if c == '.' {
            FloatScanState::LeadingDot
        } else {
            FloatScanState::Reject
        },
        FloatScanState::IntDigits => if digit {
            FloatScanState::IntDigits
        } else if c == '.' {
            FloatScanState::DotAfterInt
        } else if exp_marker {
            FloatScanState::ExpStart
        } else {
            FloatScanState::Reject
        },
        FloatScanState::LeadingDot => if digit {
            FloatScanState::FracDigits
        } else {
            FloatScanState::Reject
        },
        FloatScanState::DotAfterInt => if digit {
            FloatScanState::FracDigits
        } else if exp_marker {
            FloatScanState::ExpStart
        } else {
            FloatScanState::Reject
        },
        FloatScanState::FracDigits => if digit {
            FloatScanState::FracDigits
        } else if exp_marker {
            FloatScanState::ExpStart
        } else {
            FloatScanState::Reject
        },
        FloatScanState::ExpStart => if sign {
            FloatScanState::ExpSign
        } else if digit {
            FloatScanState::ExpDigits
        } else {
            FloatScanState::Reject
        },
        FloatScanState::ExpSign => if digit {
            FloatScanState::ExpDigits
        } else {
            FloatScanState::Reject
        },
        FloatScanState::ExpDigits => if digit {
            FloatScanState::ExpDigits
        } else {
            FloatScanState::Reject
        },
        FloatScanState::Reject => FloatScanState::Reject,
    }
}

pub fn is_float_text(text: &str) -> (r: bool)
    ensures
        r == spec_is_float_text(text@),
{
    let n = text.unicode_len();
    let mut st = FloatScanState::Start;
    let mut i: usize = 0;
    proof {
        assert(text@.skip(0) =~= text@);
    }
    while i < n
        invariant
            i <= n,
            n == text@.len(),
            spec_float_scan(FloatScanState::Start, text@) == spec_float_scan(
                st,
                text@.skip(i as int),
            ),
        decreases n - i,
    {
        let c = text.get_char(i);
        proof {
            assert(text@.skip(i as int)[0] == text@[i as int]);
            assert(text@.skip(i as int).drop_first() =~= text@.skip(i as int + 1));
        }
        st = float_step(st, c);
        i += 1;
    }
    proof {
        assert(text@.skip(n as int) =~= Seq::<char>::empty());
    }
    match st {
        FloatScanState::IntDigits => true,
        FloatScanState::DotAfterInt => true,
        FloatScanState::FracDigits => true,
        FloatScanState::ExpDigits => true,
        _ => false,
    }
}

/// Decode one column.  Empty text is null for an optional column and a parse
/// failure otherwise; an optional enum column's empty text becomes null
/// before any codec lookup.  Non-empty text is parsed by the column's type;
/// an enum code outside its domain's closed set is an unknown-code failure,
/// never a default.
pub open spec fn spec_decode_column(cs: ColumnSpec, text: Seq<char>) -> Result<FieldV, FieldError> {
    if text.len() == 0 {
        if cs.optional {
            Ok(FieldV::Null)
        } else {
            Err(FieldError::Parse)
        }
    } else {
        match cs.ty {
            ColumnType::UInt => match spec_parse_u64(text) {
                Some(v) => Ok(FieldV::UInt(v)),
                None => Err(FieldError::Parse),
            },
            ColumnType::Float => if spec_is_float_text(text) {
                Ok(FieldV::Float(text))
            } else {
                Err(FieldError::Parse)
            },
            ColumnType::Text => Ok(FieldV::Text(text)),
            ColumnType::Boolean => match spec_parse_bool(text) {
                Some(b) => Ok(FieldV::Boolean(b)),
                None => Err(FieldError::Parse),
            },
            ColumnType::Enum(d) => match spec_code_num(text) {
                Some(i) => if i < spec_domain_size(d) {
                    Ok(FieldV::Code(i))
                } else {
                    Err(FieldError::UnknownCode)
                },
                None => Err(FieldError::UnknownCode),
            },
        }
    }
}

pub fn decode_column(cs: ColumnSpec, text: &str) -> (r: Result<Field, FieldError>)
    ensures
        match r {
            Ok(f) => spec_decode_column(cs, text@) == Ok::<FieldV, FieldError>(f@),
            Err(e) => spec_decode_column(cs, text@) == Err::<FieldV, FieldError>(e),
        },
{
    if text.unicode_len() == 0 {
        if cs.optional {
            Ok(Field::Null)
        } else {
            Err(FieldError::Parse)
        }
    } else {
        match cs.ty {
            ColumnType::UInt => match parse_u64(text) {
                Some(v) => Ok(Field::UInt(v)),
                None => Err(FieldError::Parse),
            },
            ColumnType::Float => if is_float_text(text) {
                Ok(Field::Float(text.to_owned()))
            } else {
                Err(FieldError::Parse)
            },
            ColumnType::Text => Ok(Field::Text(text.to_owned())),
            ColumnType::Boolean => match parse_bool(text) {
                Some(b) => Ok(Field::Boolean(b)),
                None => Err(FieldError::Parse),
            },
            ColumnType::Enum(d) => match code_num(text) {
                Some(i) => if i < domain_size(d) {
                    Ok(Field::Code(i))
                } else {
                    Err(FieldError::UnknownCode)
                },
                None => Err(FieldError::UnknownCode),
            },
        }
    }
}

/// Decode the columns of a row from position `i` on, assuming equal lengths:
/// the decoded values in order, or the failure of the leftmost failing
/// column.
pub open spec fn spec_decode_cells(
    schema: Seq<ColumnSpec>,
    row: Seq<Seq<char>>,
    i: int,
) -> Result<Seq<FieldV>, DecodeError>
    recommends
        row.len() == schema.len(),
        0 <= i <= schema.len(),
    decreases schema.len() - i,
{
    if i < 0 || i >= schema.len() {
        Ok(Seq::empty())
    } else {
        match spec_decode_column(schema[i], row[i]) {
            Err(k) => Err(spec_column_error(k, i as usize)),
            Ok(v) => match spec_decode_cells(schema, row, i + 1) {
                Err(e) => Err(e),
                Ok(rest) => Ok(seq![v] + rest),
            },
        }
    }
}

/// Decode a whole raw row against a schema: a wrong field count is refused
/// outright, otherwise the columns decode left to right and the first
/// failure wins.
pub open spec fn spec_decode_row(schema: Seq<ColumnSpec>, row: Seq<Seq<char>>) -> Result<
    Seq<FieldV>,
    DecodeError,
> {
    if row.len() != schema.len() {
        Err(
            DecodeError::WrongColumnCount {
                expected: schema.len() as usize,
                actual: row.len() as usize,
            },
        )
    } else {
        spec_decode_cells(schema, row, 0)
    }
}

pub fn decode_row(schema: &Vec<ColumnSpec>, row: &Vec<String>) -> (r: Result<
    Vec<Field>,
    DecodeError,
>)
    ensures
        match r {
            Ok(fields) => spec_decode_row(schema@, row.deep_view()) == Ok::<
                Seq<FieldV>,
                DecodeError,
            >(fields.deep_view()),
            Err(e) => spec_decode_row(schema@, row.deep_view()) == Err::<
                Seq<FieldV>,
                DecodeError,
            >(e),
        },
{
    let n = schema.len();
    if row.len() != n {
        return Err(DecodeError::WrongColumnCount { expected: n, actual: row.len() });
    }
    let mut fields: Vec<Field> = Vec::new();
    let mut i: usize = 0;
    while i < n
        invariant
            n == schema@.len(),
            row.deep_view().len() == n,
            row@.len() == n,
            i <= n,
            fields.deep_view().len() == i,
            match spec_decode_cells(schema@, row.deep_view(), i as int) {
                Ok(rest) => spec_decode_cells(schema@, row.deep_view(), 0) == Ok::<
                    Seq<FieldV>,
                    DecodeError,
                >(fields.deep_view() + rest),
                Err(e) => spec_decode_cells(schema@, row.deep_view(), 0) == Err::<
                    Seq<FieldV>,
                    DecodeError,
                >(e),
            },
        decreases n - i,
    {
        proof {
            assert(row.deep_view()[i as int] == row@[i as int]@);
        }
        let cs = schema[i];
        match decode_column(cs, row[i].as_str()) {
            Err(k) => {
                return Err(column_error(k, i));
            },
            Ok(f) => {
                let ghost old_fields = fields.deep_view();
                fields.push(f);
                proof {
                    assert(fields.deep_view() =~= old_fields.push(f@));
                    if spec_decode_cells(schema@, row.deep_view(), i + 1) is Ok {
                        let rest = spec_decode_cells(schema@, row.deep_view(), i + 1)->Ok_0;
                        assert(old_fields + (seq![f@] + rest) =~= fields.deep_view() + rest);
                    }
                }
                i += 1;
            },
        }
    }
    proof {
        assert(fields.deep_view() + Seq::<FieldV>::empty() =~= fields.deep_view());
    }
    Ok(fields)
}

/// A successfully decoded tail holds, in order, the decoded value of every
/// remaining column.
proof fn lemma_cells_ok_columns(schema: Seq<ColumnSpec>, row: Seq<Seq<char>>, i: int)
    requires
        row.len() == schema.len(),
        0 <= i <= schema.len(),
        spec_decode_cells(schema, row, i) is Ok,
    ensures
        spec_decode_cells(schema, row, i)->Ok_0.len() == schema.len() - i,
        forall|j: int|
            i <= j < schema.len() ==> (#[trigger] spec_decode_column(schema[j], row[j])) is Ok
                && spec_decode_cells(schema, row, i)->Ok_0[j - i] == spec_decode_column(
                schema[j],
                row[j],
            )->Ok_0,
    decreases schema.len() - i,
{
    if i < schema.len() {
        lemma_cells_ok_columns(schema, row, i + 1);
    }
}

/// A successfully decoded row holds, in order, the decoded value of every
/// column of its schema.
pub proof fn lemma_row_ok_columns(schema: Seq<ColumnSpec>, row: Seq<Seq<char>>)
    requires
        spec_decode_row(schema, row) is Ok,
    ensures
        row.len() == schema.len(),
        spec_decode_row(schema, row)->Ok_0.len() == schema.len(),
        forall|j: int|
            0 <= j < schema.len() ==> (#[trigger] spec_decode_column(schema[j], row[j])) is Ok
                && spec_decode_row(schema, row)->Ok_0[j] == spec_decode_column(
                schema[j],
                row[j],
            )->Ok_0,
{
    lemma_cells_ok_columns(schema, row, 0);
}

/// Whether a text is a code of a domain's closed set.
pub open spec fn spec_in_domain(d: EnumDomain, text: Seq<char>) -> bool {
    spec_code_num(text) matches Some(i) && i < spec_domain_size(d)
}

/// An optional column with empty text always decodes to the null value,
/// never to a type-specific zero, whatever the column's type.
pub proof fn lemma_optional_empty_is_null(cs: ColumnSpec)
    requires
        cs.optional,
    ensures
        spec_decode_column(cs, Seq::<char>::empty()) == Ok::<FieldV, FieldError>(FieldV::Null),
{
}

/// An enum column whose non-empty text is not a code of its domain's closed
/// set always fails with the unknown-code error, never with a default
/// variant.
pub proof fn lemma_unknown_code_is_error(d: EnumDomain, optional: bool, text: Seq<char>)
    requires
        text.len() > 0,
        !spec_in_domain(d, text),
    ensures
        spec_decode_column(ColumnSpec { ty: ColumnType::Enum(d), optional }, text) == Err::<
            FieldV,
            FieldError,
        >(FieldError::UnknownCode),
{
}

/// Decoding depends on the raw row alone: equal rows decode to equal
/// results, so decoding the same row twice yields equal records or equal
/// errors.
pub proof fn lemma_decode_row_functional(
    schema: Seq<ColumnSpec>,
    r1: Seq<Seq<char>>,
    r2: Seq<Seq<char>>,
)
    requires
        r1 == r2,
    ensures
        spec_decode_row(schema, r1) == spec_decode_row(schema, r2),
{
}

/// Remove and return the last decoded field of a row, for building a typed
/// record from the back of the field list.
pub fn pop_field(fields: &mut Vec<Field>) -> (f: Field)
    requires
        old(fields)@.len() > 0,
    ensures
        final(fields)@.len() == old(fields)@.len() - 1,
        final(fields).deep_view() == old(fields).deep_view().drop_last(),
        f@ == old(fields).deep_view().last(),
{
    let f = fields.pop().unwrap();
    proof {
        assert(fields.deep_view() =~= old(fields).deep_view().drop_last());
    }
    f
}

/// The integer of a non-optional unsigned column.
pub fn field_as_u64(f: Field) -> (r: u64)
    requires
        f@ is UInt,
    ensures
        f@ == FieldV::UInt(r),
{
    match f {
        Field::UInt(v) => v,
        _ => unreached(),
    }
}

/// The integer of an optional unsigned column, `None` for its null value.
pub fn field_as_opt_u64(f: Field) -> (r: Option<u64>)
    requires
        f@ is UInt || f@ is Null,
    ensures
        match r {
            Some(v) => f@ == FieldV::UInt(v),
            None => f@ is Null,
        },
{
    match f {
        Field::UInt(v) => Some(v),
        Field::Null => None,
        _ => unreached(),
    }
}

/// The text of a non-optional text column.
pub fn field_as_text(f: Field) -> (r: String)
    requires
        f@ is Text,
    ensures
        f@ == FieldV::Text(r@),
{
    match f {
        Field::Text(s) => s,
        _ => unreached(),
    }
}

/// The text of an optional text column, `None` for its null value.
pub fn field_as_opt_text(f: Field) -> (r: Option<String>)
    requires
        f@ is Text || f@ is Null,
    ensures
        match r {
            Some(s) => f@ == FieldV::Text(s@),
            None => f@ is Null,
        },
{
    match f {
        Field::Text(s) => Some(s),
        Field::Null => None,
        _ => unreached(),
    }
}

/// The validated literal text of an optional floating-point column, `None`
/// for its null value.
pub fn field_as_opt_float(f: Field) -> (r: Option<String>)
    requires
        f@ is Float || f@ is Null,
    ensures
        match r {
            Some(s) => f@ == FieldV::Float(s@),
            None => f@ is Null,
        },
{
    match f {
        Field::Float(s) => Some(s),
        Field::Null => None,
        _ => unreached(),
    }
}

/// The value of a non-optional boolean column.
pub fn field_as_bool(f: Field) -> (r: bool)
    requires
        f@ is Boolean,
    ensures
        f@ == FieldV::Boolean(r),
{
    match f {
        Field::Boolean(b) => b,
        _ => unreached(),
    }
}

/// The value of an optional boolean column, `None` for its null value.
pub fn field_as_opt_bool(f: Field) -> (r: Option<bool>)
    requires
        f@ is Boolean || f@ is Null,
    ensures
        match r {
            Some(b) => f@ == FieldV::Boolean(b),
            None => f@ is Null,
        },
{
    match f {
        Field::Boolean(b) => Some(b),
        Field::Null => None,
        _ => unreached(),
    }
}

/// The validated code of a non-optional enum column.
pub fn field_as_code(f: Field) -> (r: u8)
    requires
        f@ is Code,
    ensures
        f@ == FieldV::Code(r),
{
    match f {
        Field::Code(c) => c,
        _ => unreached(),
    }
}

/// The validated code of an optional enum column, `None` for its null
/// value.
pub fn field_as_opt_code(f: Field) -> (r: Option<u8>)
    requires
        f@ is Code || f@ is Null,
    ensures
        match r {
            Some(c) => f@ == FieldV::Code(c),
            None => f@ is Null,
        },
{
    match f {
        Field::Code(c) => Some(c),
        Field::Null => None,
        _ => unreached(),
    }
}

/// A record kind decodable from one raw row by a fixed column schema.
pub trait RowDecodable: Sized + DeepView {
    /// The record kind's column schema.
    spec fn spec_schema() -> Seq<ColumnSpec>;

    /// How the mathematical value of a decoded record relates to the decoded
    /// column values of its row.
    spec fn fields_match(v: Self::V, fs: Seq<FieldV>) -> bool;

    /// Decode one raw row: a typed record, or the failure of the schema
    /// check or of the leftmost failing column.
    fn decode(row: &Vec<String>) -> (r: Result<Self, DecodeError>)
        ensures
            match r {
                Ok(rec) => spec_decode_row(Self::spec_schema(), row.deep_view()) matches Ok(fs)
                    && Self::fields_match(rec.deep_view(), fs),
                Err(e) => spec_decode_row(Self::spec_schema(), row.deep_view()) == Err::<
                    Seq<FieldV>,
                    DecodeError,
                >(e),
            },
    ;
}

} // verus!
