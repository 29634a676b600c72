use crate::error::{Error, ErrorKind, OptionKey, Span};
use crate::opts::{opt_text, Field, OptionsView};
use crate::schema::SchemaField;
use crate::text::{help_text_of, str_eq};
use vstd::pervasive::unreached;
use vstd::prelude::*;

verus! {

/// The types of Prometheus metrics supported.
#[derive(Clone, Copy, Debug, PartialEq, Eq, Structural)]
pub enum MetricType {
    Counter,
    Gauge,
    IntCounter,
    IntGauge,
    Histogram,
    CounterVec,
    GaugeVec,
    IntCounterVec,
    IntGaugeVec,
    HistogramVec,
}

/// One segment of a field's declared type path, e.g. `prometheus` or
/// `Counter`, with whether it carries generic arguments.
#[derive(Clone, Debug, PartialEq, Eq)]
pub struct PathSegment {
    pub name: String,
    pub has_arguments: bool,
    pub span: Span,
}

/// A field's declared type: a possibly-qualified path, or some other shape
/// of type that can never name an instrument.
#[derive(Clone, Debug, PartialEq, Eq)]
pub enum TypeReference {
    Path { qualified: bool, segments: Vec<PathSegment>, span: Span },
    Other { span: Span },
}

/// The closed mapping from a simple type name to an instrument kind.
pub open spec fn kind_of_name(name: Seq<char>) -> Option<MetricType> {
    if name == "Counter"@ {
        Some(MetricType::Counter)
    } else if name == "Gauge"@ {
        Some(MetricType::Gauge)
    } else if name == "IntCounter"@ {
        Some(MetricType::IntCounter)
    } else if name == "IntGauge"@ {
        Some(MetricType::IntGauge)
    } else if name == "Histogram"@ {
        Some(MetricType::Histogram)
    } else if name == "CounterVec"@ {
        Some(MetricType::CounterVec)
    } else if name == "GaugeVec"@ {
        Some(MetricType::GaugeVec)
    } else if name == "IntCounterVec"@ {
        Some(MetricType::IntCounterVec)
    } else if name == "IntGaugeVec"@ {
        Some(MetricType::IntGaugeVec)
    } else if name == "HistogramVec"@ {
        Some(MetricType::HistogramVec)
    } else {
        None
    }
}

/// What resolution owes for each shape of declared type: an unqualified
/// path whose final segment is a bare supported name resolves to that
/// kind; any other shape is rejected at the most precise position known.
pub open spec fn resolve_spec(ty: TypeReference) -> Result<MetricType, Error> {
    match ty {
        TypeReference::Other { span } => Err(
            Error { kind: ErrorKind::UnsupportedTypeShape, span },
        ),
        TypeReference::Path { qualified, segments, span } => {
            if qualified {
                Err(Error { kind: ErrorKind::UnsupportedTypeShape, span })
            } else if segments@.len() == 0 {
                Err(Error { kind: ErrorKind::UnsupportedTypeShape, span })
            } else if segments@.last().has_arguments {
                Err(Error { kind: ErrorKind::UnsupportedTypeShape, span: segments@.last().span })
            } else {
                match kind_of_name(segments@.last().name@) {
                    Some(kind) => Ok(kind),
                    None => Err(
                        Error {
                            kind: ErrorKind::UnknownInstrumentType,
                            span: segments@.last().span,
                        },
                    ),
                }
            }
        },
    }
}

impl MetricType {
    /// Identify the instrument kind from the struct field's declared type.
    pub fn resolve(ty: &TypeReference) -> (r: Result<MetricType, Error>)
        ensures
            r == resolve_spec(*ty),
    {
        match ty {
            TypeReference::Other { span } => Err(
                Error { kind: ErrorKind::UnsupportedTypeShape, span: *span },
            ),
            TypeReference::Path { qualified, segments, span } => {
                if *qualified {
                    Err(Error { kind: ErrorKind::UnsupportedTypeShape, span: *span })
                } else if segments.len() == 0 {
                    Err(Error { kind: ErrorKind::UnsupportedTypeShape, span: *span })
                } else {
                    let last = &segments[segments.len() - 1];
                    proof {
                        assert(*last == segments@.last());
                    }
                    if last.has_arguments {
                        Err(Error { kind: ErrorKind::UnsupportedTypeShape, span: last.span })
                    } else {
                        let name = last.name.as_str();
                        if str_eq(name, "Counter") {
                            Ok(MetricType::Counter)
                        } else if str_eq(name, "Gauge") {
                            Ok(MetricType::Gauge)
                        } else if str_eq(name, "IntCounter") {
                            Ok(MetricType::IntCounter)
                        } else if str_eq(name, "IntGauge") {
                            Ok(MetricType::IntGauge)
                        } else if str_eq(name, "Histogram") {
                            Ok(MetricType::Histogram)
                        } else if str_eq(name, "CounterVec") {
                            Ok(MetricType::CounterVec)
                        } else if str_eq(name, "GaugeVec") {
                            Ok(MetricType::GaugeVec)
                        } else if str_eq(name, "IntCounterVec") {
                            Ok(MetricType::IntCounterVec)
                        } else if str_eq(name, "IntGaugeVec") {
                            Ok(MetricType::IntGaugeVec)
                        } else if str_eq(name, "HistogramVec") {
                            Ok(MetricType::HistogramVec)
                        } else {
                            Err(
                                Error {
                                    kind: ErrorKind::UnknownInstrumentType,
                                    span: last.span,
                                },
                            )
                        }
                    }
                }
            },
        }
    }
}

/// Every supported name resolves to its kind, and every other simple name
/// fails as unknown: the type universe is closed.
pub proof fn lemma_resolve_simple_name(ty: TypeReference)
    requires
        ty is Path,
        !ty->Path_qualified,
        ty->Path_segments@.len() > 0,
        !ty->Path_segments@.last().has_arguments,
    ensures
        kind_of_name(ty->Path_segments@.last().name@) matches Some(kind) ==> resolve_spec(ty)
            == Ok::<MetricType, Error>(kind),
        kind_of_name(ty->Path_segments@.last().name@) is None ==> resolve_spec(ty) == Err::<
            MetricType,
            Error,
        >(
            Error {
                kind: ErrorKind::UnknownInstrumentType,
                span: ty->Path_segments@.last().span,
            },
        ),
{
}

/// A declared type that carries generic arguments on its final segment never
/// resolves, whatever its base name.
pub proof fn lemma_resolve_rejects_arguments(ty: TypeReference)
    requires
        ty is Path,
        !ty->Path_qualified,
        ty->Path_segments@.len() > 0,
        ty->Path_segments@.last().has_arguments,
    ensures
        resolve_spec(ty) == Err::<MetricType, Error>(
            Error {
                kind: ErrorKind::UnsupportedTypeShape,
                span: ty->Path_segments@.last().span,
            },
        ),
{
}

/// A qualified path, an empty path, or a non-path type never resolves.
pub proof fn lemma_resolve_rejects_non_simple(ty: TypeReference)
    requires
        ty matches TypeReference::Path { qualified, segments, .. } ==> qualified || segments@.len()
            == 0,
    ensures
        resolve_spec(ty) matches Err(e) && e.kind == ErrorKind::UnsupportedTypeShape,
{
}

/// Do bucket boundaries apply to this kind?
pub open spec fn needs_buckets(kind: MetricType) -> bool {
    kind is Histogram || kind is HistogramVec
}

/// Do label names apply to this kind?
pub open spec fn needs_label_names(kind: MetricType) -> bool {
    kind is CounterVec || kind is GaugeVec || kind is IntCounterVec || kind is IntGaugeVec
        || kind is HistogramVec
}

/// Both option rules hold: each option is present exactly when the kind
/// requires it.
pub open spec fn options_valid(kind: MetricType, has_buckets: bool, has_label_names: bool) -> bool {
    (has_buckets <==> needs_buckets(kind)) && (has_label_names <==> needs_label_names(kind))
}

/// What validation owes: accept exactly the valid combinations, and name the
/// offending option — `buckets` checked first — and the kind otherwise.
pub open spec fn validate_spec(
    kind: MetricType,
    has_buckets: bool,
    has_label_names: bool,
    span: Span,
) -> Result<(), Error> {
    if has_buckets != needs_buckets(kind) {
        Err(
            Error {
                kind: ErrorKind::InvalidOptionForKind { option: OptionKey::Buckets, kind },
                span,
            },
        )
    } else if has_label_names != needs_label_names(kind) {
        Err(
            Error {
                kind: ErrorKind::InvalidOptionForKind { option: OptionKey::LabelNames, kind },
                span,
            },
        )
    } else {
        Ok(())
    }
}

/// The option rules are exact: `buckets` is accepted precisely for the two
/// histogram kinds and `label_names` precisely for the five vector kinds;
/// presence without need and need without presence both fail, naming the
/// option and the kind.
pub proof fn lemma_validate_option_rules(
    kind: MetricType,
    has_buckets: bool,
    has_label_names: bool,
    span: Span,
)
    ensures
        validate_spec(kind, has_buckets, has_label_names, span) is Ok <==> options_valid(
            kind,
            has_buckets,
            has_label_names,
        ),
        needs_buckets(kind) <==> (kind is Histogram || kind is HistogramVec),
        needs_label_names(kind) <==> (kind is CounterVec || kind is GaugeVec
            || kind is IntCounterVec || kind is IntGaugeVec || kind is HistogramVec),
        has_buckets != needs_buckets(kind) ==> validate_spec(kind, has_buckets, has_label_names, span)
            == Err::<(), Error>(
            Error {
                kind: ErrorKind::InvalidOptionForKind { option: OptionKey::Buckets, kind },
                span,
            },
        ),
        has_buckets == needs_buckets(kind) && has_label_names != needs_label_names(kind)
            ==> validate_spec(kind, has_buckets, has_label_names, span) == Err::<(), Error>(
            Error {
                kind: ErrorKind::InvalidOptionForKind { option: OptionKey::LabelNames, kind },
                span,
            },
        ),
{
}

/// The construction expression synthesized for one field, by instrument
/// shape. The name and help are the instrument's registration data; bucket
/// and label expressions are carried verbatim.
#[derive(Clone, Debug, PartialEq, Eq)]
pub enum InstrumentExpr {
    /// Construct the scalar instrument of this kind from (name, help).
    Scalar { kind: MetricType, name: String, help: String },
    /// Build histogram options from (name, help), attach the bucket
    /// boundaries, and construct the histogram from them.
    Histogram { name: String, help: String, buckets: String },
    /// Construct the vector instrument of this kind from generic options
    /// built from (name, help) and the label names.
    Vector { kind: MetricType, name: String, help: String, label_names: String },
    /// Build histogram options from (name, help) with the bucket boundaries
    /// attached, and construct the vector from them and the label names.
    HistogramVector { name: String, help: String, buckets: String, label_names: String },
}

/// The mathematical shape of a construction expression.
pub enum InitView {
    Scalar { kind: MetricType, name: Seq<char>, help: Seq<char> },
    Histogram { name: Seq<char>, help: Seq<char>, buckets: Seq<char> },
    Vector { kind: MetricType, name: Seq<char>, help: Seq<char>, label_names: Seq<char> },
    HistogramVector {
        name: Seq<char>,
        help: Seq<char>,
        buckets: Seq<char>,
        label_names: Seq<char>,
    },
}

impl View for InstrumentExpr {
    type V = InitView;

    open spec fn view(&self) -> InitView {
        match self {
            InstrumentExpr::Scalar { kind, name, help } => InitView::Scalar {
                kind: *kind,
                name: name@,
                help: help@,
            },
            InstrumentExpr::Histogram { name, help, buckets } => InitView::Histogram {
                name: name@,
                help: help@,
                buckets: buckets@,
            },
            InstrumentExpr::Vector { kind, name, help, label_names } => InitView::Vector {
                kind: *kind,
                name: name@,
                help: help@,
                label_names: label_names@,
            },
            InstrumentExpr::HistogramVector {
                name,
                help,
                buckets,
                label_names,
            } => InitView::HistogramVector {
                name: name@,
                help: help@,
                buckets: buckets@,
                label_names: label_names@,
            },
        }
    }
}

/// The expression owed for a validated plan: histograms build options with
/// buckets attached, vector kinds take the label names, scalar kinds take
/// (name, help) alone.
pub open spec fn synth_spec(
    kind: MetricType,
    name: Seq<char>,
    help: Seq<char>,
    opts: OptionsView,
) -> InitView {
    if kind is Histogram {
        InitView::Histogram { name, help, buckets: opts.buckets->0 }
    } else if kind is HistogramVec {
        InitView::HistogramVector {
            name,
            help,
            buckets: opts.buckets->0,
            label_names: opts.label_names->0,
        }
    } else if needs_label_names(kind) {
        InitView::Vector { kind, name, help, label_names: opts.label_names->0 }
    } else {
        InitView::Scalar { kind, name, help }
    }
}

/// The fully validated per-field intent, consumed once by the synthesizer.
#[derive(Clone, Debug, PartialEq, Eq)]
pub struct InitializerPlan {
    pub field_name: String,
    pub instrument_kind: MetricType,
    pub help_text: String,
    pub buckets: Option<String>,
    pub label_names: Option<String>,
}

impl InitializerPlan {
    /// A plan is well-formed when its options fit its kind and its help
    /// text is not empty.
    pub open spec fn wf(self) -> bool {
        options_valid(self.instrument_kind, self.buckets is Some, self.label_names is Some)
            && self.help_text@.len() > 0
    }
}

/// Build the construction expression for a validated plan.
pub fn synthesize(plan: &InitializerPlan) -> (r: InstrumentExpr)
    requires
        plan.wf(),
    ensures
        r@ == synth_spec(
            plan.instrument_kind,
            plan.field_name@,
            plan.help_text@,
            OptionsView {
                buckets: opt_text(plan.buckets),
                label_names: opt_text(plan.label_names),
            },
        ),
{
    let name = plan.field_name.clone();
    let help = plan.help_text.clone();
    match plan.instrument_kind {
        MetricType::Histogram => {
            let buckets = match &plan.buckets {
                Some(b) => b.clone(),
                None => unreached(),
            };
            InstrumentExpr::Histogram { name, help, buckets }
        },
        MetricType::HistogramVec => {
            let buckets = match &plan.buckets {
                Some(b) => b.clone(),
                None => unreached(),
            };
            let label_names = match &plan.label_names {
                Some(l) => l.clone(),
                None => unreached(),
            };
            InstrumentExpr::HistogramVector { name, help, buckets, label_names }
        },
        MetricType::CounterVec | MetricType::GaugeVec | MetricType::IntCounterVec
            | MetricType::IntGaugeVec => {
            let label_names = match &plan.label_names {
                Some(l) => l.clone(),
                None => unreached(),
            };
            InstrumentExpr::Vector { kind: plan.instrument_kind, name, help, label_names }
        },
        MetricType::Counter | MetricType::Gauge | MetricType::IntCounter | MetricType::IntGauge => {
            InstrumentExpr::Scalar { kind: plan.instrument_kind, name, help }
        },
    }
}

/// The name of the Prometheus Rust type that constructs each kind.
pub open spec fn to_ident_spec(kind: MetricType) -> Seq<char> {
    match kind {
        MetricType::Counter => "Counter"@,
        MetricType::Gauge => "Gauge"@,
        MetricType::IntCounter => "IntCounter"@,
        MetricType::IntGauge => "IntGauge"@,
        MetricType::Histogram => "Histogram"@,
        MetricType::CounterVec => "CounterVec"@,
        MetricType::GaugeVec => "GaugeVec"@,
        MetricType::IntCounterVec => "IntCounterVec"@,
        MetricType::IntGaugeVec => "IntGaugeVec"@,
        MetricType::HistogramVec => "HistogramVec"@,
    }
}

/// What processing one named field owes after its kind is resolved: parse
/// its configuration, validate the options against the kind, extract the
/// help text, and synthesize the expression — stopping at the first failure.
pub open spec fn init_expr_spec(kind: MetricType, ident: Seq<char>, f: SchemaField) -> Result<
    InitView,
    Error,
> {
    match crate::opts::parse_attrs_spec(f.attrs@) {
        Err(e) => Err(e),
        Ok(o) => match validate_spec(kind, o.buckets is Some, o.label_names is Some, f.span) {
            Err(e) => Err(e),
            Ok(_) => if help_text_of(f.docs.deep_view()).len() == 0 {
                Err(Error { kind: ErrorKind::MissingHelpText, span: f.span })
            } else {
                Ok(synth_spec(kind, ident, help_text_of(f.docs.deep_view()), o))
            },
        },
    }
}

impl MetricType {
    /// Make sure the field carries exactly the options that its metric type
    /// takes: bucket boundaries for histogram kinds, label names for vector
    /// kinds, nothing else.
    pub fn pre_validate(&self, opts: &Field) -> (r: Result<(), Error>)
        ensures
            r == validate_spec(*self, opts.buckets is Some, opts.label_names is Some, opts.span),
    {
        let has_buckets = opts.buckets.is_some();
        let has_label_names = opts.label_names.is_some();
        let needs_b = match self {
            MetricType::Histogram | MetricType::HistogramVec => true,
            _ => false,
        };
        let needs_l = match self {
            MetricType::CounterVec | MetricType::GaugeVec | MetricType::IntCounterVec
                | MetricType::IntGaugeVec | MetricType::HistogramVec => true,
            _ => false,
        };
        if has_buckets != needs_b {
            Err(
                Error {
                    kind: ErrorKind::InvalidOptionForKind {
                        option: OptionKey::Buckets,
                        kind: *self,
                    },
                    span: opts.span,
                },
            )
        } else if has_label_names != needs_l {
            Err(
                Error {
                    kind: ErrorKind::InvalidOptionForKind {
                        option: OptionKey::LabelNames,
                        kind: *self,
                    },
                    span: opts.span,
                },
            )
        } else {
            Ok(())
        }
    }

    /// The identifier of the Prometheus Rust type for this kind.
    pub fn to_ident(&self) -> (r: &'static str)
        ensures
            r@ == to_ident_spec(*self),
    {
        match self {
            MetricType::Counter => "Counter",
            MetricType::Gauge => "Gauge",
            MetricType::IntCounter => "IntCounter",
            MetricType::IntGauge => "IntGauge",
            MetricType::Histogram => "Histogram",
            MetricType::CounterVec => "CounterVec",
            MetricType::GaugeVec => "GaugeVec",
            MetricType::IntCounterVec => "IntCounterVec",
            MetricType::IntGaugeVec => "IntGaugeVec",
            MetricType::HistogramVec => "HistogramVec",
        }
    }

    /// Construction expression for initializing a field of this type: parse
    /// the field's configuration, validate it, extract the help text, and
    /// synthesize — surfacing the first failure.
    pub fn init_expr(&self, ident: String, field: &SchemaField) -> (r: Result<InstrumentExpr, Error>)
        ensures
            match r {
                Ok(e) => init_expr_spec(*self, ident@, *field) == Ok::<InitView, Error>(e@),
                Err(e) => init_expr_spec(*self, ident@, *field) == Err::<InitView, Error>(e),
            },
    {
        let field_opts = match Field::parse(field) {
            Ok(o) => o,
            Err(e) => return Err(e),
        };
        match self.pre_validate(&field_opts) {
            Ok(_) => {},
            Err(e) => return Err(e),
        }
        let help = match field_opts.metric_help() {
            Ok(h) => h,
            Err(e) => return Err(e),
        };
        let plan = InitializerPlan {
            field_name: ident,
            instrument_kind: *self,
            help_text: help,
            buckets: field_opts.buckets,
            label_names: field_opts.label_names,
        };
        Ok(synthesize(&plan))
    }
}

} // verus!
