//! The `New` generator: a positional constructor.
use vstd::prelude::*;

use crate::descriptor::{field_specs, named_fields, outcome_view, DeriveError, FieldSpec, Shape, ShapeSpec, TypeDescriptor, TypeSpec};
use crate::pieces::{pieces, render_pieces, PieceKind};
use crate::generics::{generic_args, generic_params, push_generic_args, push_generic_params, push_where, where_part};
use crate::text::{join, push_joined};

verus! {

/// The constructor generated for type `t` with fields `fields`:
/// `impl<G> Name<G> { pub fn new(f1: T1, ..) -> Self { Self { f1, .. } } }`.
pub open spec fn new_fragment(t: TypeSpec, fields: Seq<FieldSpec>) -> Seq<char> {
    "impl"@ + generic_params(t.generics) + " "@ + t.name + generic_args(t.generics)
        + where_part(t.where_clause) + " {\n    pub fn new("@
        + join(pieces(PieceKind::Param, fields), ", "@) + ") -> Self {\n        Self { "@
        + join(pieces(PieceKind::Name, fields), ", "@) + " }\n    }\n}\n"@
}

/// What `New` yields for `t`: the constructor for a struct with named fields,
/// else a refusal naming the type.
pub open spec fn new_outcome(t: TypeSpec) -> Result<Seq<char>, Seq<char>> {
    match named_fields(t) {
        Some(fields) => Ok(new_fragment(t, fields)),
        None => Err(t.name),
    }
}

/// Generates the positional constructor of `d`.
pub fn derive_new(d: &TypeDescriptor) -> (r: Result<String, DeriveError>)
    ensures
        outcome_view(r) == new_outcome(d@),
{
    match &d.shape {
        Shape::Named(fields) => {
            let params = render_pieces(&PieceKind::Param, fields);
            let names = render_pieces(&PieceKind::Name, fields);
            let mut out = String::from_str("impl");
            push_generic_params(&mut out, &d.generics);
            out.append(" ");
            out.append(d.name.as_str());
            push_generic_args(&mut out, &d.generics);
            push_where(&mut out, &d.where_clause);
            out.append(" {\n    pub fn new(");
            push_joined(&mut out, &params, ", ");
            out.append(") -> Self {\n        Self { ");
            push_joined(&mut out, &names, ", ");
            out.append(" }\n    }\n}\n");
            assert(d@.shape == ShapeSpec::Named(field_specs(fields@)));
            assert(out@ =~= new_fragment(d@, field_specs(fields@)));
            Ok(out)
        },
        _ => Err(DeriveError::UnsupportedShape(d.name.clone())),
    }
}

} // verus!
