use crate::error::{Error, ErrorKind, Span};
use crate::schema::SchemaField;
use crate::text;
use vstd::prelude::*;

verus! {

/// One raw configuration entry attached to a field under the recognized
/// attribute namespace.
#[derive(Clone, Debug, PartialEq, Eq)]
pub enum RawAttr {
    /// A `key = value` pair. The value is an expression kept verbatim; the
    /// library never interprets it beyond its presence.
    KeyValue { key: String, value: String, span: Span },
    /// An entry that is not a `key = value` pair.
    Malformed { span: Span },
}

/// The two optional configuration values, as the parser leaves them.
pub struct OptionsView {
    pub buckets: Option<Seq<char>>,
    pub label_names: Option<Seq<char>>,
}

/// The text of an optional value.
pub open spec fn opt_text(o: Option<String>) -> Option<Seq<char>> {
    match o {
        Some(s) => Some(s@),
        None => None,
    }
}

/// What parsing owes once the entries before `i` have produced `acc`: walk
/// the remaining entries in order, record each recognized key once, and fail
/// at the first entry with an unknown key, a repeated key, or no `key =
/// value` shape.
pub open spec fn parse_attrs_from(attrs: Seq<RawAttr>, i: int, acc: OptionsView) -> Result<
    OptionsView,
    Error,
>
    decreases attrs.len() - i,
{
    if i < 0 || i >= attrs.len() {
        Ok(acc)
    } else {
        match attrs[i] {
            RawAttr::Malformed { span } => Err(
                Error { kind: ErrorKind::MalformedFieldOptions, span },
            ),
            RawAttr::KeyValue { key, value, span } => {
                if key@ == "buckets"@ {
                    if acc.buckets is Some {
                        Err(Error { kind: ErrorKind::MalformedFieldOptions, span })
                    } else {
                        parse_attrs_from(
                            attrs,
                            i + 1,
                            OptionsView { buckets: Some(value@), label_names: acc.label_names },
                        )
                    }
                } else if key@ == "label_names"@ {
                    if acc.label_names is Some {
                        Err(Error { kind: ErrorKind::MalformedFieldOptions, span })
                    } else {
                        parse_attrs_from(
                            attrs,
                            i + 1,
                            OptionsView { buckets: acc.buckets, label_names: Some(value@) },
                        )
                    }
                } else {
                    Err(Error { kind: ErrorKind::MalformedFieldOptions, span })
                }
            },
        }
    }
}

/// What parsing a field's whole entry list owes.
pub open spec fn parse_attrs_spec(attrs: Seq<RawAttr>) -> Result<OptionsView, Error> {
    parse_attrs_from(attrs, 0, OptionsView { buckets: None, label_names: None })
}

/// Data extracted from the fields of the input struct: the field's identity,
/// its documentation fragments, and its parsed configuration.
#[derive(Clone, Debug, PartialEq, Eq)]
pub struct Field {
    pub ident: Option<String>,
    pub span: Span,
    pub docs: Vec<String>,
    /// For histograms only.
    pub buckets: Option<String>,
    /// For `Vec` metrics only.
    pub label_names: Option<String>,
}

fn clone_opt_string(o: &Option<String>) -> (r: Option<String>)
    ensures
        opt_text(r) == opt_text(*o),
{
    match o {
        Some(s) => Some(s.clone()),
        None => None,
    }
}

fn clone_string_vec(v: &Vec<String>) -> (r: Vec<String>)
    ensures
        r.deep_view() == v.deep_view(),
{
    let mut r: Vec<String> = Vec::new();
    let mut i: usize = 0;
    while i < v.len()
        invariant
            i <= v@.len(),
            r@.len() == i,
            forall|j: int| 0 <= j < i ==> r@[j]@ == #[trigger] v@[j]@,
        decreases v@.len() - i,
    {
        r.push(v[i].clone());
        i = i + 1;
    }
    proof {
        assert(r.deep_view() =~= v.deep_view());
    }
    r
}

impl Field {
    /// Read one field's raw configuration entries: record `buckets` and
    /// `label_names` verbatim, each at most once, and reject anything else.
    pub fn parse(field: &SchemaField) -> (r: Result<Field, Error>)
        ensures
            match r {
                Ok(f) => parse_attrs_spec(field.attrs@) == Ok::<OptionsView, Error>(
                    OptionsView {
                        buckets: opt_text(f.buckets),
                        label_names: opt_text(f.label_names),
                    },
                ) && f.span == field.span && f.docs.deep_view() == field.docs.deep_view()
                    && opt_text(f.ident) == opt_text(field.ident),
                Err(e) => parse_attrs_spec(field.attrs@) == Err::<OptionsView, Error>(e),
            },
    {
        let mut buckets: Option<String> = None;
        let mut label_names: Option<String> = None;
        let mut i: usize = 0;
        while i < field.attrs.len()
            invariant
                i <= field.attrs@.len(),
                parse_attrs_spec(field.attrs@) == parse_attrs_from(
                    field.attrs@,
                    i as int,
                    OptionsView { buckets: opt_text(buckets), label_names: opt_text(label_names) },
                ),
            decreases field.attrs@.len() - i,
        {
            match &field.attrs[i] {
                RawAttr::Malformed { span } => {
                    return Err(Error { kind: ErrorKind::MalformedFieldOptions, span: *span });
                },
                RawAttr::KeyValue { key, value, span } => {
                    if text::str_eq(key.as_str(), "buckets") {
                        if buckets.is_some() {
                            return Err(
                                Error { kind: ErrorKind::MalformedFieldOptions, span: *span },
                            );
                        }
                        buckets = Some(value.clone());
                    } else if text::str_eq(key.as_str(), "label_names") {
                        if label_names.is_some() {
                            return Err(
                                Error { kind: ErrorKind::MalformedFieldOptions, span: *span },
                            );
                        }
                        label_names = Some(value.clone());
                    } else {
                        return Err(Error { kind: ErrorKind::MalformedFieldOptions, span: *span });
                    }
                },
            }
            i = i + 1;
        }
        Ok(
            Field {
                ident: clone_opt_string(&field.ident),
                span: field.span,
                docs: clone_string_vec(&field.docs),
                buckets,
                label_names,
            },
        )
    }

    /// The instrument's help text, read from the field's documentation:
    /// each fragment stripped of its leading ASCII whitespace, joined with
    /// newlines in input order; a field whose documentation leaves nothing
    /// is rejected.
    pub fn metric_help(&self) -> (r: Result<String, Error>)
        ensures
            match r {
                Ok(h) => h@ == text::help_text_of(self.docs.deep_view()) && h@.len() > 0,
                Err(e) => text::help_text_of(self.docs.deep_view()).len() == 0 && e == (Error {
                    kind: ErrorKind::MissingHelpText,
                    span: self.span,
                }),
            },
    {
        text::extract(&self.docs, self.span)
    }
}

} // verus!
