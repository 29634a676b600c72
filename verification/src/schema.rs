use crate::error::{Error, ErrorKind, Span};
use crate::metric_type::{init_expr_spec, resolve_spec, InitView, InstrumentExpr, MetricType, TypeReference};
use crate::opts::RawAttr;
use vstd::prelude::*;

verus! {

/// One field of the input struct, as the front end hands it over: its name,
/// where it stands, its declared type, its documentation fragments in order,
/// and its raw configuration entries in order.
#[derive(Clone, Debug, PartialEq, Eq)]
pub struct SchemaField {
    pub ident: Option<String>,
    pub span: Span,
    pub ty: TypeReference,
    pub docs: Vec<String>,
    pub attrs: Vec<RawAttr>,
}

/// The shape of the input item.
#[derive(Clone, Debug, PartialEq, Eq)]
pub enum SchemaData {
    /// A struct with named fields, in declaration order.
    NamedStruct { fields: Vec<SchemaField> },
    /// A tuple or unit struct; the span points at its field list.
    UnnamedStruct { span: Span },
    /// An enum or union.
    NotStruct,
}

/// The whole input item: the struct's name, its span, and its fields.
#[derive(Clone, Debug, PartialEq, Eq)]
pub struct Schema {
    pub ident: String,
    pub span: Span,
    pub data: SchemaData,
}

/// One entry of the generated constructor. The emitted code binds the
/// construction expression, registers a clone of the instrument with the
/// caller's registry — propagating a registration failure as the
/// constructor's error — and only then stores the instrument in the field.
#[derive(Clone, Debug, PartialEq, Eq)]
pub struct FieldInit {
    pub field_name: String,
    pub expr: InstrumentExpr,
}

/// The generated build function for the whole struct: one
/// construction-and-registration entry per field, in declaration order.
#[derive(Clone, Debug, PartialEq, Eq)]
pub struct GeneratedConstructor {
    pub struct_name: String,
    pub field_inits: Vec<FieldInit>,
}

/// The mathematical shape of one constructor entry.
pub struct FieldInitView {
    pub field_name: Seq<char>,
    pub expr: InitView,
}

/// The mathematical shape of the generated constructor.
pub struct ConstructorView {
    pub struct_name: Seq<char>,
    pub field_inits: Seq<FieldInitView>,
}

impl View for FieldInit {
    type V = FieldInitView;

    open spec fn view(&self) -> FieldInitView {
        FieldInitView { field_name: self.field_name@, expr: self.expr@ }
    }
}

/// The entries of a constructor, viewed one by one.
pub open spec fn inits_view(v: Vec<FieldInit>) -> Seq<FieldInitView> {
    Seq::new(v@.len(), |i: int| v@[i]@)
}

impl View for GeneratedConstructor {
    type V = ConstructorView;

    open spec fn view(&self) -> ConstructorView {
        ConstructorView { struct_name: self.struct_name@, field_inits: inits_view(self.field_inits) }
    }
}

/// What one field owes: its kind resolved from the declared type, its name
/// required, and its construction expression synthesized — the first failure
/// surfaces.
pub open spec fn field_init_spec(f: SchemaField) -> Result<FieldInitView, Error> {
    match resolve_spec(f.ty) {
        Err(e) => Err(e),
        Ok(kind) => match f.ident {
            None => Err(Error { kind: ErrorKind::UnnamedFieldsUnsupported, span: f.span }),
            Some(name) => match init_expr_spec(kind, name@, f) {
                Err(e) => Err(e),
                Ok(iv) => Ok(FieldInitView { field_name: name@, expr: iv }),
            },
        },
    }
}

/// What a field list owes: every field processed in declaration order, the
/// entries in the same order, and the first field that fails aborting the
/// whole compilation with its error.
pub open spec fn field_inits_spec(fields: Seq<SchemaField>) -> Result<Seq<FieldInitView>, Error>
    decreases fields.len(),
{
    if fields.len() == 0 {
        Ok(Seq::empty())
    } else {
        match field_init_spec(fields[0]) {
            Err(e) => Err(e),
            Ok(p) => match field_inits_spec(fields.subrange(1, fields.len() as int)) {
                Err(e) => Err(e),
                Ok(rest) => Ok(seq![p] + rest),
            },
        }
    }
}

/// What compiling a schema owes: enums and unions are rejected, tuple and
/// unit structs are rejected, and a named struct becomes one constructor
/// entry per field in declaration order.
pub open spec fn compile_spec(s: Schema) -> Result<ConstructorView, Error> {
    match s.data {
        SchemaData::NotStruct => Err(Error { kind: ErrorKind::NotAStruct, span: s.span }),
        SchemaData::UnnamedStruct { span } => Err(
            Error { kind: ErrorKind::UnnamedFieldsUnsupported, span },
        ),
        SchemaData::NamedStruct { fields } => match field_inits_spec(fields@) {
            Err(e) => Err(e),
            Ok(inits) => Ok(ConstructorView { struct_name: s.ident@, field_inits: inits }),
        },
    }
}

/// Compilation is deterministic: one schema, one result.
pub proof fn lemma_compile_deterministic(
    s: Schema,
    r1: Result<ConstructorView, Error>,
    r2: Result<ConstructorView, Error>,
)
    requires
        r1 == compile_spec(s),
        r2 == compile_spec(s),
    ensures
        r1 == r2,
{
}

proof fn lemma_field_inits_all_ok(fields: Seq<SchemaField>, views: Seq<FieldInitView>)
    requires
        views.len() == fields.len(),
        forall|j: int|
            0 <= j < fields.len() ==> #[trigger] field_init_spec(fields[j]) == Ok::<
                FieldInitView,
                Error,
            >(views[j]),
    ensures
        field_inits_spec(fields) == Ok::<Seq<FieldInitView>, Error>(views),
    decreases fields.len(),
{
    if fields.len() == 0 {
        assert(views =~= Seq::<FieldInitView>::empty());
    } else {
        let ftail = fields.subrange(1, fields.len() as int);
        let vtail = views.subrange(1, views.len() as int);
        assert(forall|j: int|
            0 <= j < ftail.len() ==> #[trigger] field_init_spec(ftail[j]) == Ok::<
                FieldInitView,
                Error,
            >(vtail[j]));
        lemma_field_inits_all_ok(ftail, vtail);
        assert(seq![views[0]] + vtail =~= views);
    }
}

proof fn lemma_field_inits_first_err(fields: Seq<SchemaField>, i: int, e: Error)
    requires
        0 <= i < fields.len(),
        forall|j: int| 0 <= j < i ==> #[trigger] field_init_spec(fields[j]) is Ok,
        field_init_spec(fields[i]) == Err::<FieldInitView, Error>(e),
    ensures
        field_inits_spec(fields) == Err::<Seq<FieldInitView>, Error>(e),
    decreases i,
{
    if i == 0 {
    } else {
        let ftail = fields.subrange(1, fields.len() as int);
        assert(forall|j: int| 0 <= j < i - 1 ==> #[trigger] field_init_spec(ftail[j]) is Ok);
        assert(ftail[i - 1] == fields[i]);
        lemma_field_inits_first_err(ftail, i - 1, e);
    }
}

/// Resolve, validate and synthesize one field of the input struct.
pub fn field_initializer(field: &SchemaField) -> (r: Result<FieldInit, Error>)
    ensures
        match r {
            Ok(fi) => field_init_spec(*field) == Ok::<FieldInitView, Error>(fi@),
            Err(e) => field_init_spec(*field) == Err::<FieldInitView, Error>(e),
        },
{
    let kind = match MetricType::resolve(&field.ty) {
        Ok(k) => k,
        Err(e) => return Err(e),
    };
    let ident = match &field.ident {
        Some(i) => i.clone(),
        None => return Err(Error { kind: ErrorKind::UnnamedFieldsUnsupported, span: field.span }),
    };
    let expr = match kind.init_expr(ident.clone(), field) {
        Ok(e) => e,
        Err(e) => return Err(e),
    };
    Ok(FieldInit { field_name: ident, expr })
}

/// Process every field of the struct in declaration order, stopping at the
/// first failure.
pub fn field_initializers(fields: &Vec<SchemaField>) -> (r: Result<Vec<FieldInit>, Error>)
    ensures
        match r {
            Ok(v) => field_inits_spec(fields@) == Ok::<Seq<FieldInitView>, Error>(inits_view(v)),
            Err(e) => field_inits_spec(fields@) == Err::<Seq<FieldInitView>, Error>(e),
        },
{
    let mut result: Vec<FieldInit> = Vec::new();
    let mut i: usize = 0;
    while i < fields.len()
        invariant
            i <= fields@.len(),
            result@.len() == i,
            forall|j: int|
                0 <= j < i ==> #[trigger] field_init_spec(fields@[j]) == Ok::<
                    FieldInitView,
                    Error,
                >(result@[j]@),
        decreases fields@.len() - i,
    {
        match field_initializer(&fields[i]) {
            Ok(fi) => result.push(fi),
            Err(e) => {
                proof {
                    lemma_field_inits_first_err(fields@, i as int, e);
                }
                return Err(e);
            },
        }
        i = i + 1;
    }
    proof {
        lemma_field_inits_all_ok(fields@, inits_view(result));
    }
    Ok(result)
}

/// Compile the whole schema: reject anything that is not a struct with named
/// fields, then build one construction-and-registration entry per field, in
/// declaration order, aborting at the first field that fails.
pub fn compile(schema: &Schema) -> (r: Result<GeneratedConstructor, Error>)
    ensures
        match r {
            Ok(g) => compile_spec(*schema) == Ok::<ConstructorView, Error>(g@),
            Err(e) => compile_spec(*schema) == Err::<ConstructorView, Error>(e),
        },
{
    match &schema.data {
        SchemaData::NotStruct => Err(Error { kind: ErrorKind::NotAStruct, span: schema.span }),
        SchemaData::UnnamedStruct { span } => Err(
            Error { kind: ErrorKind::UnnamedFieldsUnsupported, span: *span },
        ),
        SchemaData::NamedStruct { fields } => match field_initializers(fields) {
            Err(e) => Err(e),
            Ok(inits) => Ok(
                GeneratedConstructor { struct_name: schema.ident.clone(), field_inits: inits },
            ),
        },
    }
}

} // verus!
