//! The `Builder` generator: a companion builder type with fluent setters.
use vstd::prelude::*;

use crate::descriptor::{field_specs, named_fields, outcome_view, DeriveError, FieldSpec, Shape, ShapeSpec, TypeDescriptor, TypeSpec};
use crate::pieces::{pieces, render_pieces, PieceKind};
use crate::generics::{generic_args, generic_params, push_generic_args, push_generic_params, push_where, where_part};
use crate::text::{concat, push_all};

verus! {

/// The builder generated for type `t` with fields `fields`: a struct
/// `NameBuilder<G>` with one `Option` slot per field, `new` with every slot
/// unset, one setter per field, and `build`, which fails with `MissingField`
/// for the first field that is neither set nor defaulted.
pub open spec fn builder_fragment(t: TypeSpec, fields: Seq<FieldSpec>) -> Seq<char> {
    let params = generic_params(t.generics);
    let args = generic_args(t.generics);
    let wh = where_part(t.where_clause);
    "pub struct "@ + t.name + "Builder"@ + params + wh + " {\n"@
        + concat(pieces(PieceKind::Slot, fields)) + "}\n\nimpl"@ + params + " "@ + t.name
        + "Builder"@ + args + wh + " {\n    pub fn new() -> Self {\n        Self {\n"@
        + concat(pieces(PieceKind::SlotInit, fields)) + "        }\n    }\n"@
        + concat(pieces(PieceKind::Setter, fields))
        + "\n    pub fn build(self) -> Result<"@ + t.name + args + ", String> {\n        Ok("@
        + t.name + " {\n"@ + concat(pieces(PieceKind::BuildEntry, fields))
        + "        })\n    }\n}\n"@
}

/// What `Builder` yields for `t`: the builder for a struct with named fields,
/// else a refusal naming the type.
pub open spec fn builder_outcome(t: TypeSpec) -> Result<Seq<char>, Seq<char>> {
    match named_fields(t) {
        Some(fields) => Ok(builder_fragment(t, fields)),
        None => Err(t.name),
    }
}

/// Generates the builder type of `d`.
pub fn derive_builder(d: &TypeDescriptor) -> (r: Result<String, DeriveError>)
    ensures
        outcome_view(r) == builder_outcome(d@),
{
    match &d.shape {
        Shape::Named(fields) => {
            let slots = render_pieces(&PieceKind::Slot, fields);
            let inits = render_pieces(&PieceKind::SlotInit, fields);
            let setters = render_pieces(&PieceKind::Setter, fields);
            let entries = render_pieces(&PieceKind::BuildEntry, fields);
            let mut out = String::from_str("pub struct ");
            out.append(d.name.as_str());
            out.append("Builder");
            push_generic_params(&mut out, &d.generics);
            push_where(&mut out, &d.where_clause);
            out.append(" {\n");
            push_all(&mut out, &slots);
            out.append("}\n\nimpl");
            push_generic_params(&mut out, &d.generics);
            out.append(" ");
            out.append(d.name.as_str());
            out.append("Builder");
            push_generic_args(&mut out, &d.generics);
            push_where(&mut out, &d.where_clause);
            out.append(" {\n    pub fn new() -> Self {\n        Self {\n");
            push_all(&mut out, &inits);
            out.append("        }\n    }\n");
            push_all(&mut out, &setters);
            out.append("\n    pub fn build(self) -> Result<");
            out.append(d.name.as_str());
            push_generic_args(&mut out, &d.generics);
            out.append(", String> {\n        Ok(");
            out.append(d.name.as_str());
            out.append(" {\n");
            push_all(&mut out, &entries);
            out.append("        })\n    }\n}\n");
            assert(d@.shape == ShapeSpec::Named(field_specs(fields@)));
            assert(out@ =~= builder_fragment(d@, field_specs(fields@)));
            Ok(out)
        },
        _ => Err(DeriveError::UnsupportedShape(d.name.clone())),
    }
}

} // verus!
