use derive_prom_metrics::error::{Error, ErrorKind, OptionKey, Span};
use derive_prom_metrics::metric_type::{InstrumentExpr, MetricType, PathSegment, TypeReference};
use derive_prom_metrics::opts::RawAttr;
use derive_prom_metrics::schema::{compile, Schema, SchemaData, SchemaField};

fn simple_ty(name: &str, id: usize) -> TypeReference {
    TypeReference::Path {
        qualified: false,
        segments: vec![PathSegment { name: name.to_string(), has_arguments: false, span: Span { id } }],
        span: Span { id },
    }
}

fn field(name: &str, ty_name: &str, docs: Vec<&str>, attrs: Vec<RawAttr>, id: usize) -> SchemaField {
    SchemaField {
        ident: Some(name.to_string()),
        span: Span { id },
        ty: simple_ty(ty_name, id + 1),
        docs: docs.into_iter().map(|d| d.to_string()).collect(),
        attrs,
    }
}

fn kv(key: &str, value: &str, id: usize) -> RawAttr {
    RawAttr::KeyValue { key: key.to_string(), value: value.to_string(), span: Span { id } }
}

fn struct_schema(fields: Vec<SchemaField>) -> Schema {
    Schema {
        ident: "Metrics".to_string(),
        span: Span { id: 0 },
        data: SchemaData::NamedStruct { fields },
    }
}

#[test]
fn a_simple_gauge_compiles_to_construction_and_registration() {
    let schema = struct_schema(vec![field("gauge", "Gauge", vec![" A simple gauge."], vec![], 10)]);
    let g = compile(&schema).unwrap();
    assert_eq!(g.struct_name, "Metrics");
    assert_eq!(g.field_inits.len(), 1);
    assert_eq!(g.field_inits[0].field_name, "gauge");
    assert_eq!(
        g.field_inits[0].expr,
        InstrumentExpr::Scalar {
            kind: MetricType::Gauge,
            name: "gauge".to_string(),
            help: "A simple gauge.".to_string(),
        }
    );
}

#[test]
fn a_histogram_without_buckets_fails_naming_buckets() {
    let schema = struct_schema(vec![field(
        "histogram",
        "Histogram",
        vec![" A histogram."],
        vec![],
        10,
    )]);
    assert_eq!(
        compile(&schema),
        Err(Error {
            kind: ErrorKind::InvalidOptionForKind {
                option: OptionKey::Buckets,
                kind: MetricType::Histogram,
            },
            span: Span { id: 10 },
        })
    );
}

#[test]
fn a_gauge_with_buckets_fails_naming_buckets() {
    let schema = struct_schema(vec![field(
        "gauge",
        "Gauge",
        vec![" A simple gauge."],
        vec![kv("buckets", "vec![1.0]", 12)],
        10,
    )]);
    assert_eq!(
        compile(&schema),
        Err(Error {
            kind: ErrorKind::InvalidOptionForKind {
                option: OptionKey::Buckets,
                kind: MetricType::Gauge,
            },
            span: Span { id: 10 },
        })
    );
}

#[test]
fn a_counter_vec_builds_options_then_the_vector() {
    let schema = struct_schema(vec![field(
        "counter_vec",
        "CounterVec",
        vec![" A vector of counters."],
        vec![kv("label_names", "&[\"label\"]", 12)],
        10,
    )]);
    let g = compile(&schema).unwrap();
    assert_eq!(
        g.field_inits[0].expr,
        InstrumentExpr::Vector {
            kind: MetricType::CounterVec,
            name: "counter_vec".to_string(),
            help: "A vector of counters.".to_string(),
            label_names: "&[\"label\"]".to_string(),
        }
    );
}

#[test]
fn a_histogram_with_buckets_attaches_them_to_its_options() {
    let schema = struct_schema(vec![field(
        "histogram",
        "Histogram",
        vec![" A histogram."],
        vec![kv("buckets", "linear_buckets(0.005, 0.005, 999)?", 12)],
        10,
    )]);
    let g = compile(&schema).unwrap();
    assert_eq!(
        g.field_inits[0].expr,
        InstrumentExpr::Histogram {
            name: "histogram".to_string(),
            help: "A histogram.".to_string(),
            buckets: "linear_buckets(0.005, 0.005, 999)?".to_string(),
        }
    );
}

#[test]
fn a_histogram_vec_takes_buckets_and_labels() {
    let schema = struct_schema(vec![field(
        "histogram_vec",
        "HistogramVec",
        vec![" A vector of histograms."],
        vec![kv("buckets", "b()", 12), kv("label_names", "&[\"label\"]", 13)],
        10,
    )]);
    let g = compile(&schema).unwrap();
    assert_eq!(
        g.field_inits[0].expr,
        InstrumentExpr::HistogramVector {
            name: "histogram_vec".to_string(),
            help: "A vector of histograms.".to_string(),
            buckets: "b()".to_string(),
            label_names: "&[\"label\"]".to_string(),
        }
    );
}

#[test]
fn a_field_without_documentation_fails_whatever_its_type() {
    for ty_name in ["Gauge", "IntCounter"] {
        let schema = struct_schema(vec![field("gauge", ty_name, vec![], vec![], 10)]);
        assert_eq!(
            compile(&schema),
            Err(Error { kind: ErrorKind::MissingHelpText, span: Span { id: 10 } })
        );
    }
}

#[test]
fn an_enum_schema_fails_before_any_field_is_processed() {
    let schema = Schema {
        ident: "NotMetrics".to_string(),
        span: Span { id: 3 },
        data: SchemaData::NotStruct,
    };
    assert_eq!(
        compile(&schema),
        Err(Error { kind: ErrorKind::NotAStruct, span: Span { id: 3 } })
    );
}

#[test]
fn a_tuple_struct_fails_at_its_field_list() {
    let schema = Schema {
        ident: "Metrics".to_string(),
        span: Span { id: 0 },
        data: SchemaData::UnnamedStruct { span: Span { id: 4 } },
    };
    assert_eq!(
        compile(&schema),
        Err(Error { kind: ErrorKind::UnnamedFieldsUnsupported, span: Span { id: 4 } })
    );
}

#[test]
fn a_field_without_a_name_fails_at_the_field() {
    let mut f = field("gauge", "Gauge", vec![" A simple gauge."], vec![], 10);
    f.ident = None;
    let schema = struct_schema(vec![f]);
    assert_eq!(
        compile(&schema),
        Err(Error { kind: ErrorKind::UnnamedFieldsUnsupported, span: Span { id: 10 } })
    );
}

#[test]
fn compiling_twice_yields_identical_output() {
    let make = || {
        struct_schema(vec![
            field("counter", "Counter", vec![" A counter."], vec![], 10),
            field(
                "histogram",
                "Histogram",
                vec![" A histogram."],
                vec![kv("buckets", "b()", 12)],
                20,
            ),
            field(
                "gauge_vec",
                "GaugeVec",
                vec![" Gauges by label."],
                vec![kv("label_names", "&[\"l\"]", 22)],
                30,
            ),
        ])
    };
    let first = compile(&make());
    let second = compile(&make());
    assert_eq!(first, second);
    assert!(first.is_ok());
}

#[test]
fn output_order_matches_declaration_order() {
    let schema = struct_schema(vec![
        field("b_second", "Counter", vec![" Second."], vec![], 20),
        field("a_first", "Gauge", vec![" First."], vec![], 10),
    ]);
    let g = compile(&schema).unwrap();
    let names: Vec<&str> = g.field_inits.iter().map(|fi| fi.field_name.as_str()).collect();
    assert_eq!(names, vec!["b_second", "a_first"]);
}

#[test]
fn the_first_failing_field_aborts_the_compilation() {
    let schema = struct_schema(vec![
        field("ok", "Counter", vec![" Fine."], vec![], 10),
        field("bad", "Summary", vec![" Unknown."], vec![], 20),
        field("worse", "Histogram", vec![], vec![], 30),
    ]);
    assert_eq!(
        compile(&schema),
        Err(Error { kind: ErrorKind::UnknownInstrumentType, span: Span { id: 21 } })
    );
}

#[test]
fn option_validation_comes_before_help_extraction() {
    // A histogram with no buckets and no documentation is blamed for the
    // missing buckets, not the missing help text.
    let schema = struct_schema(vec![field("histogram", "Histogram", vec![], vec![], 10)]);
    assert_eq!(
        compile(&schema),
        Err(Error {
            kind: ErrorKind::InvalidOptionForKind {
                option: OptionKey::Buckets,
                kind: MetricType::Histogram,
            },
            span: Span { id: 10 },
        })
    );
}

#[test]
fn option_parsing_comes_before_validation() {
    // An unknown key is reported even though the buckets option would also
    // be wrong for a gauge.
    let schema = struct_schema(vec![field(
        "gauge",
        "Gauge",
        vec![" A gauge."],
        vec![kv("bucket", "b()", 12)],
        10,
    )]);
    assert_eq!(
        compile(&schema),
        Err(Error { kind: ErrorKind::MalformedFieldOptions, span: Span { id: 12 } })
    );
}

#[test]
fn type_resolution_comes_before_everything_else_in_a_field() {
    // An unknown type with a malformed option is blamed for the type.
    let schema = struct_schema(vec![field(
        "odd",
        "Summary",
        vec![],
        vec![RawAttr::Malformed { span: Span { id: 12 } }],
        10,
    )]);
    assert_eq!(
        compile(&schema),
        Err(Error { kind: ErrorKind::UnknownInstrumentType, span: Span { id: 11 } })
    );
}
