//! Cells and the values they stand for. A field has a kind and is required
//! or optional; a cell is the text of one field in one row.

use vstd::pervasive::unreached;
use vstd::prelude::*;
use vstd::string::*;
use crate::count::{count_text, count_value, format_count, law_count_round_trip, parse_count};
use crate::datetime::{date_time_value, DateTime, DateTimeView};
use crate::decimal::{is_decimal, lemma_decimal_not_empty, Decimal};
use crate::exif::{json_document, ExifData};
use crate::text::same_text;
use crate::vocabulary::{
    CameraSetupType, CaptureMethod, ClassificationMethod, FeatureType, LifeStage,
    ObservationLevel, ObservationType, Sex,
};

verus! {

/// The kinds of field.
#[derive(Clone, Copy, Debug, PartialEq, Eq, Structural)]
pub enum Kind {
    /// Free text.
    Text,
    /// `true` or `false`.
    Flag,
    /// A whole number of individuals.
    Count,
    /// A measurement.
    Decimal,
    /// A date-time with an explicit offset.
    DateTime,
    /// EXIF metadata, a JSON document.
    Exif,
    FeatureType,
    CaptureMethod,
    ObservationLevel,
    ObservationType,
    CameraSetupType,
    LifeStage,
    Sex,
    ClassificationMethod,
}

/// Why a cell is refused.
#[derive(Clone, Copy, Debug, PartialEq, Eq, Structural)]
pub enum CellFault {
    /// A required field is empty.
    Empty,
    /// Not exactly `true` or `false`.
    Flag,
    /// Not a count.
    Count,
    /// Not a decimal number.
    Decimal,
    /// Not a date-time with an explicit offset.
    DateTime,
    /// Not a JSON document.
    Exif,
    /// Not a token of the field's vocabulary.
    Token,
}

/// The value of one field.
#[derive(Debug, PartialEq, Eq)]
pub enum Value {
    /// An optional field that is not filled in.
    Absent,
    Text(String),
    Flag(bool),
    Count(u32),
    Decimal(Decimal),
    DateTime(DateTime),
    Exif(ExifData),
    FeatureType(FeatureType),
    CaptureMethod(CaptureMethod),
    ObservationLevel(ObservationLevel),
    ObservationType(ObservationType),
    CameraSetupType(CameraSetupType),
    LifeStage(LifeStage),
    Sex(Sex),
    ClassificationMethod(ClassificationMethod),
}

/// What a `Value` holds.
pub ghost enum ValueView {
    Absent,
    Text(Seq<char>),
    Flag(bool),
    Count(u32),
    Decimal(Seq<char>),
    DateTime(DateTimeView),
    Exif(Seq<char>),
    FeatureType(FeatureType),
    CaptureMethod(CaptureMethod),
    ObservationLevel(ObservationLevel),
    ObservationType(ObservationType),
    CameraSetupType(CameraSetupType),
    LifeStage(LifeStage),
    Sex(Sex),
    ClassificationMethod(ClassificationMethod),
}

impl View for Value {
    type V = ValueView;

    open spec fn view(&self) -> ValueView {
        match self {
            Value::Absent => ValueView::Absent,
            Value::Text(t) => ValueView::Text(t@),
            Value::Flag(b) => ValueView::Flag(*b),
            Value::Count(n) => ValueView::Count(*n),
            Value::Decimal(d) => ValueView::Decimal(d@),
            Value::DateTime(t) => ValueView::DateTime(t@),
            Value::Exif(d) => ValueView::Exif(d@),
            Value::FeatureType(v) => ValueView::FeatureType(*v),
            Value::CaptureMethod(v) => ValueView::CaptureMethod(*v),
            Value::ObservationLevel(v) => ValueView::ObservationLevel(*v),
            Value::ObservationType(v) => ValueView::ObservationType(*v),
            Value::CameraSetupType(v) => ValueView::CameraSetupType(*v),
            Value::LifeStage(v) => ValueView::LifeStage(*v),
            Value::Sex(v) => ValueView::Sex(*v),
            Value::ClassificationMethod(v) => ValueView::ClassificationMethod(*v),
        }
    }
}

impl Clone for Value {
    fn clone(&self) -> (r: Self)
        ensures
            r@ == self@,
    {
        match self {
            Value::Absent => Value::Absent,
            Value::Text(t) => Value::Text(t.clone()),
            Value::Flag(b) => Value::Flag(*b),
            Value::Count(n) => Value::Count(*n),
            Value::Decimal(d) => Value::Decimal(d.clone()),
            Value::DateTime(t) => Value::DateTime(t.clone()),
            Value::Exif(d) => Value::Exif(d.clone()),
            Value::FeatureType(v) => Value::FeatureType(*v),
            Value::CaptureMethod(v) => Value::CaptureMethod(*v),
            Value::ObservationLevel(v) => Value::ObservationLevel(*v),
            Value::ObservationType(v) => Value::ObservationType(*v),
            Value::CameraSetupType(v) => Value::CameraSetupType(*v),
            Value::LifeStage(v) => Value::LifeStage(*v),
            Value::Sex(v) => Value::Sex(*v),
            Value::ClassificationMethod(v) => Value::ClassificationMethod(*v),
        }
    }
}

/// The value that a cell of a field stands for, or why it is refused. An
/// empty cell is an absent value, which only an optional field takes.
pub open spec fn cell_value(kind: Kind, required: bool, text: Seq<char>) -> Result<
    ValueView,
    CellFault,
> {
    if text.len() == 0 {
        if required {
            Err(CellFault::Empty)
        } else {
            Ok(ValueView::Absent)
        }
    } else {
        match kind {
            Kind::Text => Ok(ValueView::Text(text)),
            Kind::Flag => if text == "true"@ {
                Ok(ValueView::Flag(true))
            } else if text == "false"@ {
                Ok(ValueView::Flag(false))
            } else {
                Err(CellFault::Flag)
            },
            Kind::Count => match count_value(text) {
                Some(n) => Ok(ValueView::Count(n)),
                None => Err(CellFault::Count),
            },
            Kind::Decimal => if is_decimal(text) {
                Ok(ValueView::Decimal(text))
            } else {
                Err(CellFault::Decimal)
            },
            Kind::DateTime => match date_time_value(text) {
                Some((seconds, nanos, offset)) => Ok(
                    ValueView::DateTime(DateTimeView { text, seconds, nanos, offset }),
                ),
                None => Err(CellFault::DateTime),
            },
            Kind::Exif => if json_document(text) {
                Ok(ValueView::Exif(text))
            } else {
                Err(CellFault::Exif)
            },
            Kind::FeatureType => match FeatureType::named_by(text) {
                Some(v) => Ok(ValueView::FeatureType(v)),
                None => Err(CellFault::Token),
            },
            Kind::CaptureMethod => match CaptureMethod::named_by(text) {
                Some(v) => Ok(ValueView::CaptureMethod(v)),
                None => Err(CellFault::Token),
            },
            Kind::ObservationLevel => match ObservationLevel::named_by(text) {
                Some(v) => Ok(ValueView::ObservationLevel(v)),
                None => Err(CellFault::Token),
            },
            Kind::ObservationType => match ObservationType::named_by(text) {
                Some(v) => Ok(ValueView::ObservationType(v)),
                None => Err(CellFault::Token),
            },
            Kind::CameraSetupType => match CameraSetupType::named_by(text) {
                Some(v) => Ok(ValueView::CameraSetupType(v)),
                None => Err(CellFault::Token),
            },
            Kind::LifeStage => match LifeStage::named_by(text) {
                Some(v) => Ok(ValueView::LifeStage(v)),
                None => Err(CellFault::Token),
            },
            Kind::Sex => match Sex::named_by(text) {
                Some(v) => Ok(ValueView::Sex(v)),
                None => Err(CellFault::Token),
            },
            Kind::ClassificationMethod => match ClassificationMethod::named_by(text) {
                Some(v) => Ok(ValueView::ClassificationMethod(v)),
                None => Err(CellFault::Token),
            },
        }
    }
}

/// The cell that a value is written as.
pub open spec fn cell_text(value: ValueView) -> Seq<char> {
    match value {
        ValueView::Absent => Seq::empty(),
        ValueView::Text(t) => t,
        ValueView::Flag(b) => if b {
            "true"@
        } else {
            "false"@
        },
        ValueView::Count(n) => count_text(n as nat),
        ValueView::Decimal(t) => t,
        ValueView::DateTime(t) => t.text,
        ValueView::Exif(t) => t,
        ValueView::FeatureType(v) => v.token_text(),
        ValueView::CaptureMethod(v) => v.token_text(),
        ValueView::ObservationLevel(v) => v.token_text(),
        ValueView::ObservationType(v) => v.token_text(),
        ValueView::CameraSetupType(v) => v.token_text(),
        ValueView::LifeStage(v) => v.token_text(),
        ValueView::Sex(v) => v.token_text(),
        ValueView::ClassificationMethod(v) => v.token_text(),
    }
}

/// Whether a value is one that a field of this kind can hold: it is of the
/// field's kind, absent only where the field is optional, and its text, where
/// it keeps one, is not empty and is what the kind asks for.
pub open spec fn fits(value: ValueView, kind: Kind, required: bool) -> bool {
    match value {
        ValueView::Absent => !required,
        ValueView::Text(t) => kind == Kind::Text && t.len() > 0,
        ValueView::Flag(_) => kind == Kind::Flag,
        ValueView::Count(_) => kind == Kind::Count,
        ValueView::Decimal(t) => kind == Kind::Decimal && is_decimal(t),
        ValueView::DateTime(t) => kind == Kind::DateTime && t.wf(),
        ValueView::Exif(t) => kind == Kind::Exif && t.len() > 0 && json_document(t),
        ValueView::FeatureType(_) => kind == Kind::FeatureType,
        ValueView::CaptureMethod(_) => kind == Kind::CaptureMethod,
        ValueView::ObservationLevel(_) => kind == Kind::ObservationLevel,
        ValueView::ObservationType(_) => kind == Kind::ObservationType,
        ValueView::CameraSetupType(_) => kind == Kind::CameraSetupType,
        ValueView::LifeStage(_) => kind == Kind::LifeStage,
        ValueView::Sex(_) => kind == Kind::Sex,
        ValueView::ClassificationMethod(_) => kind == Kind::ClassificationMethod,
    }
}

/// Whether a value is of the kind of a field, or absent where the field is
/// optional.
pub open spec fn of_kind(value: ValueView, kind: Kind, required: bool) -> bool {
    match value {
        ValueView::Absent => !required,
        ValueView::Text(_) => kind == Kind::Text,
        ValueView::Flag(_) => kind == Kind::Flag,
        ValueView::Count(_) => kind == Kind::Count,
        ValueView::Decimal(_) => kind == Kind::Decimal,
        ValueView::DateTime(_) => kind == Kind::DateTime,
        ValueView::Exif(_) => kind == Kind::Exif,
        ValueView::FeatureType(_) => kind == Kind::FeatureType,
        ValueView::CaptureMethod(_) => kind == Kind::CaptureMethod,
        ValueView::ObservationLevel(_) => kind == Kind::ObservationLevel,
        ValueView::ObservationType(_) => kind == Kind::ObservationType,
        ValueView::CameraSetupType(_) => kind == Kind::CameraSetupType,
        ValueView::LifeStage(_) => kind == Kind::LifeStage,
        ValueView::Sex(_) => kind == Kind::Sex,
        ValueView::ClassificationMethod(_) => kind == Kind::ClassificationMethod,
    }
}

/// Whether a value is one that a field can hold.
pub fn value_fits(value: &Value, kind: Kind, required: bool) -> (r: bool)
    ensures
        r == fits(value@, kind, required),
{
    match value {
        Value::Absent => !required,
        Value::Text(t) => matches!(kind, Kind::Text) && !t.as_str().is_empty(),
        Value::Flag(_) => matches!(kind, Kind::Flag),
        Value::Count(_) => matches!(kind, Kind::Count),
        Value::Decimal(d) => {
            let _ = d.as_str();
            matches!(kind, Kind::Decimal)
        },
        Value::DateTime(t) => {
            let _ = t.as_str();
            matches!(kind, Kind::DateTime)
        },
        Value::Exif(d) => {
            let _ = d.as_str();
            matches!(kind, Kind::Exif)
        },
        Value::FeatureType(_) => matches!(kind, Kind::FeatureType),
        Value::CaptureMethod(_) => matches!(kind, Kind::CaptureMethod),
        Value::ObservationLevel(_) => matches!(kind, Kind::ObservationLevel),
        Value::ObservationType(_) => matches!(kind, Kind::ObservationType),
        Value::CameraSetupType(_) => matches!(kind, Kind::CameraSetupType),
        Value::LifeStage(_) => matches!(kind, Kind::LifeStage),
        Value::Sex(_) => matches!(kind, Kind::Sex),
        Value::ClassificationMethod(_) => matches!(kind, Kind::ClassificationMethod),
    }
}

/// Reads one cell of a field.
pub fn decode_cell(kind: Kind, required: bool, text: &str) -> (r: Result<Value, CellFault>)
    ensures
        match r {
            Ok(v) => cell_value(kind, required, text@) == Ok::<ValueView, CellFault>(v@),
            Err(e) => cell_value(kind, required, text@) == Err::<ValueView, CellFault>(e),
        },
{
    if text.is_empty() {
        return if required {
            Err(CellFault::Empty)
        } else {
            Ok(Value::Absent)
        };
    }
    match kind {
        Kind::Text => Ok(Value::Text(String::from_str(text))),
        Kind::Flag => if same_text(text, "true") {
            Ok(Value::Flag(true))
        } else if same_text(text, "false") {
            Ok(Value::Flag(false))
        } else {
            Err(CellFault::Flag)
        },
        Kind::Count => match parse_count(text) {
            Some(n) => Ok(Value::Count(n)),
            None => Err(CellFault::Count),
        },
        Kind::Decimal => match Decimal::parse(text) {
            Some(d) => Ok(Value::Decimal(d)),
            None => Err(CellFault::Decimal),
        },
        Kind::DateTime => match DateTime::parse(text) {
            Some(t) => Ok(Value::DateTime(t)),
            None => Err(CellFault::DateTime),
        },
        Kind::Exif => match ExifData::parse(text) {
            Some(d) => Ok(Value::Exif(d)),
            None => Err(CellFault::Exif),
        },
        Kind::FeatureType => match FeatureType::from_token(text) {
            Some(v) => Ok(Value::FeatureType(v)),
            None => Err(CellFault::Token),
        },
        Kind::CaptureMethod => match CaptureMethod::from_token(text) {
            Some(v) => Ok(Value::CaptureMethod(v)),
            None => Err(CellFault::Token),
        },
        Kind::ObservationLevel => match ObservationLevel::from_token(text) {
            Some(v) => Ok(Value::ObservationLevel(v)),
            None => Err(CellFault::Token),
        },
        Kind::ObservationType => match ObservationType::from_token(text) {
            Some(v) => Ok(Value::ObservationType(v)),
            None => Err(CellFault::Token),
        },
        Kind::CameraSetupType => match CameraSetupType::from_token(text) {
            Some(v) => Ok(Value::CameraSetupType(v)),
            None => Err(CellFault::Token),
        },
        Kind::LifeStage => match LifeStage::from_token(text) {
            Some(v) => Ok(Value::LifeStage(v)),
            None => Err(CellFault::Token),
        },
        Kind::Sex => match Sex::from_token(text) {
            Some(v) => Ok(Value::Sex(v)),
            None => Err(CellFault::Token),
        },
        Kind::ClassificationMethod => match ClassificationMethod::from_token(text) {
            Some(v) => Ok(Value::ClassificationMethod(v)),
            None => Err(CellFault::Token),
        },
    }
}

/// Writes one value as a cell.
pub fn encode_cell(value: &Value) -> (s: String)
    ensures
        s@ == cell_text(value@),
{
    match value {
        Value::Absent => String::new(),
        Value::Text(t) => t.clone(),
        Value::Flag(b) => if *b {
            String::from_str("true")
        } else {
            String::from_str("false")
        },
        Value::Count(n) => format_count(*n),
        Value::Decimal(d) => String::from_str(d.as_str()),
        Value::DateTime(t) => String::from_str(t.as_str()),
        Value::Exif(d) => String::from_str(d.as_str()),
        Value::FeatureType(v) => String::from_str(v.token()),
        Value::CaptureMethod(v) => String::from_str(v.token()),
        Value::ObservationLevel(v) => String::from_str(v.token()),
        Value::ObservationType(v) => String::from_str(v.token()),
        Value::CameraSetupType(v) => String::from_str(v.token()),
        Value::LifeStage(v) => String::from_str(v.token()),
        Value::Sex(v) => String::from_str(v.token()),
        Value::ClassificationMethod(v) => String::from_str(v.token()),
    }
}

/// What a cell reads as is a value that its field can hold.
pub proof fn law_read_value_fits(kind: Kind, required: bool, text: Seq<char>)
    requires
        cell_value(kind, required, text) is Ok,
    ensures
        fits(cell_value(kind, required, text)->Ok_0, kind, required),
{
}

/// Reading the cell written for a value gives the value back.
pub proof fn law_cell_round_trip(value: ValueView, kind: Kind, required: bool)
    requires
        fits(value, kind, required),
    ensures
        cell_value(kind, required, cell_text(value)) == Ok::<ValueView, CellFault>(value),
{
    reveal_strlit("true");
    reveal_strlit("false");
    assert("true"@.len() == 4);
    assert("false"@.len() == 5);
    match value {
        ValueView::Count(n) => {
            law_count_round_trip(n);
        },
        ValueView::Decimal(t) => {
            lemma_decimal_not_empty(t);
        },
        ValueView::FeatureType(v) => {
            FeatureType::law_token_names_variant(v, v.token_text());
        },
        ValueView::CaptureMethod(v) => {
            CaptureMethod::law_token_names_variant(v, v.token_text());
        },
        ValueView::ObservationLevel(v) => {
            ObservationLevel::law_token_names_variant(v, v.token_text());
        },
        ValueView::ObservationType(v) => {
            ObservationType::law_token_names_variant(v, v.token_text());
        },
        ValueView::CameraSetupType(v) => {
            CameraSetupType::law_token_names_variant(v, v.token_text());
        },
        ValueView::LifeStage(v) => {
            LifeStage::law_token_names_variant(v, v.token_text());
        },
        ValueView::Sex(v) => {
            Sex::law_token_names_variant(v, v.token_text());
        },
        ValueView::ClassificationMethod(v) => {
            ClassificationMethod::law_token_names_variant(v, v.token_text());
        },
        _ => {},
    }
}

/// Whether a kind is a closed vocabulary.
pub open spec fn is_vocabulary(kind: Kind) -> bool {
    match kind {
        Kind::Text | Kind::Flag | Kind::Count => false,
        Kind::Decimal | Kind::DateTime | Kind::Exif => false,
        _ => true,
    }
}

/// Whether a text is one of the tokens of a vocabulary.
pub open spec fn is_token(kind: Kind, text: Seq<char>) -> bool {
    match kind {
        Kind::FeatureType => FeatureType::named_by(text) is Some,
        Kind::CaptureMethod => CaptureMethod::named_by(text) is Some,
        Kind::ObservationLevel => ObservationLevel::named_by(text) is Some,
        Kind::ObservationType => ObservationType::named_by(text) is Some,
        Kind::CameraSetupType => CameraSetupType::named_by(text) is Some,
        Kind::LifeStage => LifeStage::named_by(text) is Some,
        Kind::Sex => Sex::named_by(text) is Some,
        Kind::ClassificationMethod => ClassificationMethod::named_by(text) is Some,
        _ => false,
    }
}

/// A cell of a vocabulary field that is not empty and is none of the
/// vocabulary's tokens is refused.
pub proof fn law_token_strict(kind: Kind, required: bool, text: Seq<char>)
    requires
        is_vocabulary(kind),
        text.len() > 0,
        !is_token(kind, text),
    ensures
        cell_value(kind, required, text) == Err::<ValueView, CellFault>(CellFault::Token),
{
}

/// An empty cell of a required field is refused.
pub proof fn law_required_cell(kind: Kind)
    ensures
        cell_value(kind, true, Seq::empty()) == Err::<ValueView, CellFault>(CellFault::Empty),
{
}

/// A flag is exactly `true` or `false`: any other text that is not empty is
/// refused.
pub proof fn law_flag_strict(required: bool, text: Seq<char>)
    requires
        text.len() > 0,
        text != "true"@,
        text != "false"@,
    ensures
        cell_value(Kind::Flag, required, text) == Err::<ValueView, CellFault>(CellFault::Flag),
{
}

/// A date-time cell that is not empty and does not end in `Z` or `±hh:mm`
/// is refused.
pub proof fn law_date_time_needs_offset(required: bool, text: Seq<char>)
    requires
        text.len() > 0,
        !crate::datetime::ends_with_offset(text),
    ensures
        cell_value(Kind::DateTime, required, text) is Err,
{
}

/// A type that a field of a record can have: it says which values it holds
/// and converts to and from them.
pub trait FieldValue: Sized {
    /// The value that stands for `self`.
    spec fn as_value(&self) -> ValueView;

    /// Whether a value is one of this type.
    spec fn holds(value: ValueView) -> bool;

    fn to_value(&self) -> (v: Value)
        ensures
            v@ == self.as_value(),
    ;

    fn of_value(value: &Value) -> (r: Self)
        requires
            Self::holds(value@),
        ensures
            r.as_value() == value@,
    ;
}

impl FieldValue for String {
    open spec fn as_value(&self) -> ValueView {
        ValueView::Text(self@)
    }

    open spec fn holds(value: ValueView) -> bool {
        value is Text
    }

    fn to_value(&self) -> (v: Value) {
        Value::Text(self.clone())
    }

    fn of_value(value: &Value) -> (r: Self) {
        match value {
            Value::Text(t) => t.clone(),
            _ => unreached(),
        }
    }
}

impl FieldValue for bool {
    open spec fn as_value(&self) -> ValueView {
        ValueView::Flag(*self)
    }

    open spec fn holds(value: ValueView) -> bool {
        value is Flag
    }

    fn to_value(&self) -> (v: Value) {
        Value::Flag(*self)
    }

    fn of_value(value: &Value) -> (r: Self) {
        match value {
            Value::Flag(b) => *b,
            _ => unreached(),
        }
    }
}

impl FieldValue for u32 {
    open spec fn as_value(&self) -> ValueView {
        ValueView::Count(*self)
    }

    open spec fn holds(value: ValueView) -> bool {
        value is Count
    }

    fn to_value(&self) -> (v: Value) {
        Value::Count(*self)
    }

    fn of_value(value: &Value) -> (r: Self) {
        match value {
            Value::Count(n) => *n,
            _ => unreached(),
        }
    }
}

impl FieldValue for Decimal {
    open spec fn as_value(&self) -> ValueView {
        ValueView::Decimal(self@)
    }

    open spec fn holds(value: ValueView) -> bool {
        value is Decimal
    }

    fn to_value(&self) -> (v: Value) {
        Value::Decimal(self.clone())
    }

    fn of_value(value: &Value) -> (r: Self) {
        match value {
            Value::Decimal(d) => d.clone(),
            _ => unreached(),
        }
    }
}

impl FieldValue for DateTime {
    open spec fn as_value(&self) -> ValueView {
        ValueView::DateTime(self@)
    }

    open spec fn holds(value: ValueView) -> bool {
        value is DateTime
    }

    fn to_value(&self) -> (v: Value) {
        Value::DateTime(self.clone())
    }

    fn of_value(value: &Value) -> (r: Self) {
        match value {
            Value::DateTime(t) => t.clone(),
            _ => unreached(),
        }
    }
}

impl FieldValue for ExifData {
    open spec fn as_value(&self) -> ValueView {
        ValueView::Exif(self@)
    }

    open spec fn holds(value: ValueView) -> bool {
        value is Exif
    }

    fn to_value(&self) -> (v: Value) {
        Value::Exif(self.clone())
    }

    fn of_value(value: &Value) -> (r: Self) {
        match value {
            Value::Exif(d) => d.clone(),
            _ => unreached(),
        }
    }
}

impl FieldValue for FeatureType {
    open spec fn as_value(&self) -> ValueView {
        ValueView::FeatureType(*self)
    }

    open spec fn holds(value: ValueView) -> bool {
        value is FeatureType
    }

    fn to_value(&self) -> (v: Value) {
        Value::FeatureType(*self)
    }

    fn of_value(value: &Value) -> (r: Self) {
        match value {
            Value::FeatureType(v) => *v,
            _ => unreached(),
        }
    }
}

impl FieldValue for CaptureMethod {
    open spec fn as_value(&self) -> ValueView {
        ValueView::CaptureMethod(*self)
    }

    open spec fn holds(value: ValueView) -> bool {
        value is CaptureMethod
    }

    fn to_value(&self) -> (v: Value) {
        Value::CaptureMethod(*self)
    }

    fn of_value(value: &Value) -> (r: Self) {
        match value {
            Value::CaptureMethod(v) => *v,
            _ => unreached(),
        }
    }
}

impl FieldValue for ObservationLevel {
    open spec fn as_value(&self) -> ValueView {
        ValueView::ObservationLevel(*self)
    }

    open spec fn holds(value: ValueView) -> bool {
        value is ObservationLevel
    }

    fn to_value(&self) -> (v: Value) {
        Value::ObservationLevel(*self)
    }

    fn of_value(value: &Value) -> (r: Self) {
        match value {
            Value::ObservationLevel(v) => *v,
            _ => unreached(),
        }
    }
}

impl FieldValue for ObservationType {
    open spec fn as_value(&self) -> ValueView {
        ValueView::ObservationType(*self)
    }

    open spec fn holds(value: ValueView) -> bool {
        value is ObservationType
    }

    fn to_value(&self) -> (v: Value) {
        Value::ObservationType(*self)
    }

    fn of_value(value: &Value) -> (r: Self) {
        match value {
            Value::ObservationType(v) => *v,
            _ => unreached(),
        }
    }
}

impl FieldValue for CameraSetupType {
    open spec fn as_value(&self) -> ValueView {
        ValueView::CameraSetupType(*self)
    }

    open spec fn holds(value: ValueView) -> bool {
        value is CameraSetupType
    }

    fn to_value(&self) -> (v: Value) {
        Value::CameraSetupType(*self)
    }

    fn of_value(value: &Value) -> (r: Self) {
        match value {
            Value::CameraSetupType(v) => *v,
            _ => unreached(),
        }
    }
}

impl FieldValue for LifeStage {
    open spec fn as_value(&self) -> ValueView {
        ValueView::LifeStage(*self)
    }

    open spec fn holds(value: ValueView) -> bool {
        value is LifeStage
    }

    fn to_value(&self) -> (v: Value) {
        Value::LifeStage(*self)
    }

    fn of_value(value: &Value) -> (r: Self) {
        match value {
            Value::LifeStage(v) => *v,
            _ => unreached(),
        }
    }
}

impl FieldValue for Sex {
    open spec fn as_value(&self) -> ValueView {
        ValueView::Sex(*self)
    }

    open spec fn holds(value: ValueView) -> bool {
        value is Sex
    }

    fn to_value(&self) -> (v: Value) {
        Value::Sex(*self)
    }

    fn of_value(value: &Value) -> (r: Self) {
        match value {
            Value::Sex(v) => *v,
            _ => unreached(),
        }
    }
}

impl FieldValue for ClassificationMethod {
    open spec fn as_value(&self) -> ValueView {
        ValueView::ClassificationMethod(*self)
    }

    open spec fn holds(value: ValueView) -> bool {
        value is ClassificationMethod
    }

    fn to_value(&self) -> (v: Value) {
        Value::ClassificationMethod(*self)
    }

    fn of_value(value: &Value) -> (r: Self) {
        match value {
            Value::ClassificationMethod(v) => *v,
            _ => unreached(),
        }
    }
}

impl<T: FieldValue> FieldValue for Option<T> {
    open spec fn as_value(&self) -> ValueView {
        match self {
            Some(x) => x.as_value(),
            None => ValueView::Absent,
        }
    }

    open spec fn holds(value: ValueView) -> bool {
        value is Absent || T::holds(value)
    }

    fn to_value(&self) -> (v: Value) {
        match self {
            Some(x) => x.to_value(),
            None => Value::Absent,
        }
    }

    fn of_value(value: &Value) -> (r: Self) {
        match value {
            Value::Absent => None,
            _ => Some(T::of_value(value)),
        }
    }
}

} // verus!
