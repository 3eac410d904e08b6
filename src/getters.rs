//! The `Getters` generator: one read accessor per field.
use vstd::prelude::*;

use crate::descriptor::{field_specs, named_fields, outcome_view, DeriveError, FieldSpec, Shape, ShapeSpec, TypeDescriptor, TypeSpec};
use crate::pieces::{pieces, render_pieces, PieceKind};
use crate::generics::{generic_args, generic_params, push_generic_args, push_generic_params, push_where, where_part};
use crate::text::{concat, push_all};

verus! {

/// The accessors generated for type `t` with fields `fields`: one per field
/// that does not opt out, `pub fn f(&self) -> T { self.f }` for a primitive
/// scalar `T` and `pub fn f(&self) -> &T { &self.f }` for any other type.
pub open spec fn getters_fragment(t: TypeSpec, fields: Seq<FieldSpec>) -> Seq<char> {
    "impl"@ + generic_params(t.generics) + " "@ + t.name + generic_args(t.generics)
        + where_part(t.where_clause) + " {\n"@ + concat(pieces(PieceKind::Getter, fields)) + "}\n"@
}

/// What `Getters` yields for `t`: the accessors for a struct with named fields,
/// else a refusal naming the type.
pub open spec fn getters_outcome(t: TypeSpec) -> Result<Seq<char>, Seq<char>> {
    match named_fields(t) {
        Some(fields) => Ok(getters_fragment(t, fields)),
        None => Err(t.name),
    }
}

/// Generates the read accessors of `d`.
pub fn derive_getters(d: &TypeDescriptor) -> (r: Result<String, DeriveError>)
    ensures
        outcome_view(r) == getters_outcome(d@),
{
    match &d.shape {
        Shape::Named(fields) => {
            let methods = render_pieces(&PieceKind::Getter, fields);
            let mut out = String::from_str("impl");
            push_generic_params(&mut out, &d.generics);
            out.append(" ");
            out.append(d.name.as_str());
            push_generic_args(&mut out, &d.generics);
            push_where(&mut out, &d.where_clause);
            out.append(" {\n");
            push_all(&mut out, &methods);
            out.append("}\n");
            assert(d@.shape == ShapeSpec::Named(field_specs(fields@)));
            assert(out@ =~= getters_fragment(d@, field_specs(fields@)));
            Ok(out)
        },
        _ => Err(DeriveError::UnsupportedShape(d.name.clone())),
    }
}

} // verus!
