use derive_prom_metrics::error::{Error, ErrorKind, Span};
use derive_prom_metrics::opts::Field;
use derive_prom_metrics::text::{extract, strip_leading};

fn field_with_docs(docs: Vec<&str>) -> Field {
    Field {
        ident: Some("gauge".to_string()),
        span: Span { id: 2 },
        docs: docs.into_iter().map(|d| d.to_string()).collect(),
        buckets: None,
        label_names: None,
    }
}

#[test]
fn strips_leading_ascii_whitespace_only() {
    assert_eq!(strip_leading(" A simple gauge."), "A simple gauge.");
    assert_eq!(strip_leading("\t\t  \n x"), "x");
    assert_eq!(strip_leading("no leading"), "no leading");
    assert_eq!(strip_leading("trailing kept  \t"), "trailing kept  \t");
    assert_eq!(strip_leading(""), "");
    assert_eq!(strip_leading(" \t\n\r\u{0C}"), "");
}

#[test]
fn non_ascii_whitespace_is_preserved() {
    assert_eq!(strip_leading("\u{A0}indented"), "\u{A0}indented");
    assert_eq!(strip_leading(" \u{A0} x"), "\u{A0} x");
}

#[test]
fn joins_fragments_with_newlines_in_order() {
    let docs = vec![" Is this in the same line? No.".to_string(), "".to_string(), " It is not.".to_string()];
    let r = extract(&docs, Span { id: 1 });
    assert_eq!(r, Ok("Is this in the same line? No.\n\nIt is not.".to_string()));
}

#[test]
fn single_fragment_is_the_help_text() {
    let r = extract(&vec![" A simple gauge.".to_string()], Span { id: 1 });
    assert_eq!(r, Ok("A simple gauge.".to_string()));
}

#[test]
fn no_documentation_fails_with_missing_help_text() {
    let r = extract(&vec![], Span { id: 8 });
    assert_eq!(r, Err(Error { kind: ErrorKind::MissingHelpText, span: Span { id: 8 } }));
}

#[test]
fn one_all_whitespace_fragment_fails_with_missing_help_text() {
    let r = extract(&vec!["   \t".to_string()], Span { id: 8 });
    assert_eq!(r, Err(Error { kind: ErrorKind::MissingHelpText, span: Span { id: 8 } }));
}

#[test]
fn two_empty_fragments_leave_a_bare_newline() {
    // The fragments strip to nothing, but the newline that joins them keeps
    // the text non-empty, so the field passes.
    let r = extract(&vec!["".to_string(), "".to_string()], Span { id: 8 });
    assert_eq!(r, Ok("\n".to_string()));
}

#[test]
fn metric_help_reads_the_field_docs() {
    let f = field_with_docs(vec![" My help", "", " More of it."]);
    assert_eq!(f.metric_help(), Ok("My help\n\nMore of it.".to_string()));
}

#[test]
fn metric_help_fails_at_the_field_without_docs() {
    let f = field_with_docs(vec![]);
    assert_eq!(
        f.metric_help(),
        Err(Error { kind: ErrorKind::MissingHelpText, span: Span { id: 2 } })
    );
}
