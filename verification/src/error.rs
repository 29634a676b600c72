use crate::metric_type::MetricType;
use vstd::prelude::*;

verus! {

/// A position in the schema's source text. The caller assigns the ids and
/// keeps the mapping back to real positions; every diagnostic points at one
/// of them.
#[derive(Clone, Copy, Debug, PartialEq, Eq, Structural)]
pub struct Span {
    pub id: usize,
}

/// The two per-field configuration keys a field may carry.
#[derive(Clone, Copy, Debug, PartialEq, Eq, Structural)]
pub enum OptionKey {
    Buckets,
    LabelNames,
}

/// Why a schema was rejected.
#[derive(Clone, Copy, Debug, PartialEq, Eq, Structural)]
pub enum ErrorKind {
    /// The input is an enum or union, never compiled.
    NotAStruct,
    /// The input is a tuple or unit struct, or a field has no name.
    UnnamedFieldsUnsupported,
    /// A field's type is qualified, carries generic arguments, or is not a
    /// plain path.
    UnsupportedTypeShape,
    /// A field's type names none of the supported instruments.
    UnknownInstrumentType,
    /// A field carries no documentation to use as the instrument's help text.
    MissingHelpText,
    /// A field's configuration has an unknown key, a repeated key, or an
    /// entry that is not a `key = value` pair.
    MalformedFieldOptions,
    /// An option is present though the kind takes none, or absent though the
    /// kind requires it.
    InvalidOptionForKind { option: OptionKey, kind: MetricType },
}

/// A diagnostic: what went wrong and where.
#[derive(Clone, Copy, Debug, PartialEq, Eq, Structural)]
pub struct Error {
    pub kind: ErrorKind,
    pub span: Span,
}

} // verus!
