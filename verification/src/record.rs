//! Record parser: decodes one input line as a JSON object with the five
//! recognized fields (`ts`, `level`, `component`, `subcomponent`, `msg`) and
//! an ordered remainder of extra fields, or classifies the line as
//! unstructured when it is not a JSON object.

use vstd::prelude::*;
use crate::strutil::str_eq;

verus! {

/// One decoded entry of a JSON object: its key, the content of its value when
/// that value is a JSON string, and the value's compact JSON literal.
#[verifier::ext_equal]
pub ghost struct FieldView {
    pub key: Seq<char>,
    pub text: Option<Seq<char>>,
    pub literal: Seq<char>,
}

/// Exec counterpart of `FieldView`.
pub struct JsonField {
    pub key: String,
    pub text: Option<String>,
    pub literal: String,
}

impl View for JsonField {
    type V = FieldView;

    open spec fn view(&self) -> FieldView {
        FieldView {
            key: self.key@,
            text: match self.text {
                Some(t) => Some(t@),
                None => None,
            },
            literal: self.literal@,
        }
    }
}

impl DeepView for JsonField {
    type V = FieldView;

    open spec fn deep_view(&self) -> FieldView {
        self.view()
    }
}

/// What decoding a line as a JSON object yields: nothing when the line is not
/// a JSON object, else the object's entries in input order.
pub uninterp spec fn json_fields(line: Seq<char>) -> Option<Seq<FieldView>>;

/// Relies on serde_json: `from_str` decodes the line exactly when it is a
/// single JSON object, yielding its entries in input order (the
/// `preserve_order` feature); `Value::as_str` gives the content of a string
/// value and nothing otherwise; `Value`'s `Display` form is the value's
/// compact JSON literal.
#[verifier::external_body]
fn decode_json_fields(line: &str) -> (r: Option<Vec<JsonField>>)
    ensures
        r is Some <==> json_fields(line@) is Some,
        r is Some ==> r->0.deep_view() == json_fields(line@)->0,
{
    match serde_json::from_str::<serde_json::Map<String, serde_json::Value>>(line) {
        Ok(entries) => Some(
            entries
                .into_iter()
                .map(
                    |(key, value)| JsonField {
                        text: value.as_str().map(|t| t.to_string()),
                        literal: value.to_string(),
                        key,
                    },
                )
                .collect(),
        ),
        Err(_) => None,
    }
}

/// The spec-level value of a structured record: the five recognized fields
/// and the ordered extra fields, each as key and compact JSON literal.
#[verifier::ext_equal]
pub ghost struct LogRecordView {
    pub ts: Seq<char>,
    pub level: Seq<char>,
    pub component: Seq<char>,
    pub subcomponent: Seq<char>,
    pub msg: Seq<char>,
    pub extra: Seq<(Seq<char>, Seq<char>)>,
}

/// One extra field of a record: an object key that is none of the five
/// recognized names, with its value's compact JSON literal.
pub struct ExtraField {
    pub key: String,
    pub literal: String,
}

impl View for ExtraField {
    type V = (Seq<char>, Seq<char>);

    open spec fn view(&self) -> (Seq<char>, Seq<char>) {
        (self.key@, self.literal@)
    }
}

impl DeepView for ExtraField {
    type V = (Seq<char>, Seq<char>);

    open spec fn deep_view(&self) -> (Seq<char>, Seq<char>) {
        self.view()
    }
}

/// A structured log record, constructed per line.
pub struct LogRecord {
    pub ts: String,
    pub level: String,
    pub component: String,
    pub subcomponent: String,
    pub msg: String,
    pub extra: Vec<ExtraField>,
}

impl View for LogRecord {
    type V = LogRecordView;

    open spec fn view(&self) -> LogRecordView {
        LogRecordView {
            ts: self.ts@,
            level: self.level@,
            component: self.component@,
            subcomponent: self.subcomponent@,
            msg: self.msg@,
            extra: self.extra.deep_view(),
        }
    }
}

/// The record all of whose fields are empty.
pub open spec fn empty_record() -> LogRecordView {
    LogRecordView {
        ts: Seq::empty(),
        level: Seq::empty(),
        component: Seq::empty(),
        subcomponent: Seq::empty(),
        msg: Seq::empty(),
        extra: Seq::empty(),
    }
}

/// Folds one object entry into a record: a recognized key sets its field to
/// the entry's string content (empty for a non-string value, a later
/// occurrence overriding an earlier one); any other key is appended to the
/// extra fields.
pub open spec fn apply_field(acc: LogRecordView, f: FieldView) -> LogRecordView {
    let text = match f.text {
        Some(t) => t,
        None => Seq::<char>::empty(),
    };
    if f.key == "ts"@ {
        LogRecordView { ts: text, ..acc }
    } else if f.key == "level"@ {
        LogRecordView { level: text, ..acc }
    } else if f.key == "component"@ {
        LogRecordView { component: text, ..acc }
    } else if f.key == "subcomponent"@ {
        LogRecordView { subcomponent: text, ..acc }
    } else if f.key == "msg"@ {
        LogRecordView { msg: text, ..acc }
    } else {
        LogRecordView { extra: acc.extra.push((f.key, f.literal)), ..acc }
    }
}

/// The record that a sequence of decoded object entries denotes.
pub open spec fn record_of(fields: Seq<FieldView>) -> LogRecordView
    decreases fields.len(),
{
    if fields.len() == 0 {
        empty_record()
    } else {
        apply_field(record_of(fields.drop_last()), fields.last())
    }
}

/// The outcome of parsing one input line: a structured record, or the
/// original text of a line that is not a JSON object. There is no partial
/// state in between.
pub enum ParsedLine {
    Structured(LogRecord),
    Unstructured(String),
}

/// Builds the record denoted by the decoded entries of a JSON object.
pub fn build_record(fields: &Vec<JsonField>) -> (r: LogRecord)
    ensures
        r@ == record_of(fields.deep_view()),
{
    let ghost dv = fields.deep_view();
    let mut rec = LogRecord {
        ts: String::new(),
        level: String::new(),
        component: String::new(),
        subcomponent: String::new(),
        msg: String::new(),
        extra: Vec::new(),
    };
    proof {
        assert(rec@ =~= record_of(dv.take(0)));
    }
    let mut i: usize = 0;
    while i < fields.len()
        invariant
            i <= fields@.len(),
            dv == fields.deep_view(),
            dv.len() == fields@.len(),
            rec@ == record_of(dv.take(i as int)),
        decreases fields@.len() - i,
    {
        let f = &fields[i];
        let text: String = match &f.text {
            Some(t) => t.clone(),
            None => String::new(),
        };
        if str_eq(f.key.as_str(), "ts") {
            rec.ts = text;
        } else if str_eq(f.key.as_str(), "level") {
            rec.level = text;
        } else if str_eq(f.key.as_str(), "component") {
            rec.component = text;
        } else if str_eq(f.key.as_str(), "subcomponent") {
            rec.subcomponent = text;
        } else if str_eq(f.key.as_str(), "msg") {
            rec.msg = text;
        } else {
            rec.extra.push(ExtraField { key: f.key.clone(), literal: f.literal.clone() });
        }
        proof {
            assert(dv.take(i + 1).drop_last() =~= dv.take(i as int));
            assert(dv.take(i + 1).last() == dv[i as int]);
            assert(rec@ =~= apply_field(record_of(dv.take(i as int)), dv[i as int]));
        }
        i = i + 1;
    }
    proof {
        assert(dv.take(fields@.len() as int) =~= dv);
    }
    rec
}

/// Parses one raw input line: the record of a line that decodes as a JSON
/// object, else the line itself, unchanged. Parse failure is a silent,
/// expected fallback, never an error.
pub fn parse(raw_line: &str) -> (r: ParsedLine)
    ensures
        json_fields(raw_line@) is None ==> (r matches ParsedLine::Unstructured(s) && s@
            == raw_line@),
        json_fields(raw_line@) matches Some(fs) ==> (r matches ParsedLine::Structured(rec) && rec@
            == record_of(fs)),
{
    match decode_json_fields(raw_line) {
        None => ParsedLine::Unstructured(raw_line.to_owned()),
        Some(fields) => ParsedLine::Structured(build_record(&fields)),
    }
}

} // verus!
