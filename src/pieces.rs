//! The per-field pieces of generated code.
use vstd::prelude::*;

use crate::descriptor::{field_specs, Field, FieldSpec};
use crate::text::texts;

verus! {

/// Which per-field piece to render.
pub enum PieceKind {
    /// `name: Type`, a constructor parameter.
    Param,
    /// `name`, a field in a struct literal shorthand.
    Name,
    /// An accessor method: by value for a primitive scalar, else by shared
    /// reference; nothing for a field that opts out.
    Getter,
    /// The builder's optional slot for the field.
    Slot,
    /// The slot's initial value in the builder's `new`.
    SlotInit,
    /// The builder's fluent setter.
    Setter,
    /// The field's entry in the struct literal that `build` returns.
    BuildEntry,
}

/// The primitive scalar types, which are `Copy`: an accessor returns them by value.
pub open spec fn is_copy_scalar(ty: Seq<char>) -> bool {
    ||| ty == "i8"@
    ||| ty == "i16"@
    ||| ty == "i32"@
    ||| ty == "i64"@
    ||| ty == "i128"@
    ||| ty == "isize"@
    ||| ty == "u8"@
    ||| ty == "u16"@
    ||| ty == "u32"@
    ||| ty == "u64"@
    ||| ty == "u128"@
    ||| ty == "usize"@
    ||| ty == "bool"@
    ||| ty == "char"@
    ||| ty == "f32"@
    ||| ty == "f64"@
}

fn names_type(ty: &String, name: &str) -> (r: bool)
    ensures
        r == (ty@ == name@),
{
    let n = String::from_str(name);
    ty.eq(&n)
}

/// Whether `ty` names a primitive scalar type.
pub fn is_scalar(ty: &String) -> (r: bool)
    ensures
        r == is_copy_scalar(ty@),
{
    names_type(ty, "i8") || names_type(ty, "i16") || names_type(ty, "i32") || names_type(ty, "i64")
        || names_type(ty, "i128") || names_type(ty, "isize") || names_type(ty, "u8")
        || names_type(ty, "u16") || names_type(ty, "u32") || names_type(ty, "u64")
        || names_type(ty, "u128") || names_type(ty, "usize") || names_type(ty, "bool")
        || names_type(ty, "char") || names_type(ty, "f32") || names_type(ty, "f64")
}

/// The text of the piece of kind `kind` for field `f`.
pub open spec fn piece(kind: PieceKind, f: FieldSpec) -> Seq<char> {
    match kind {
        PieceKind::Param => f.name + ": "@ + f.ty,
        PieceKind::Name => f.name,
        PieceKind::Getter => if f.skip_getter {
            Seq::empty()
        } else if is_copy_scalar(f.ty) {
            "    pub fn "@ + f.name + "(&self) -> "@ + f.ty + " {\n        self."@ + f.name
                + "\n    }\n"@
        } else {
            "    pub fn "@ + f.name + "(&self) -> &"@ + f.ty + " {\n        &self."@ + f.name
                + "\n    }\n"@
        },
        PieceKind::Slot => "    "@ + f.name + ": Option<"@ + f.ty + ">,\n"@,
        PieceKind::SlotInit => "            "@ + f.name + ": None,\n"@,
        PieceKind::Setter => "\n    pub fn "@ + f.name + "(mut self, value: "@ + f.ty
            + ") -> Self {\n        self."@ + f.name + " = Some(value);\n        self\n    }\n"@,
        PieceKind::BuildEntry => if f.has_default {
            "            "@ + f.name + ": self."@ + f.name + ".unwrap_or_default(),\n"@
        } else {
            "            "@ + f.name + ": self."@ + f.name
                + ".ok_or_else(|| String::from(\"MissingField: "@ + f.name + "\"))?,\n"@
        },
    }
}

/// The pieces of kind `kind` for each field, in declaration order.
pub open spec fn pieces(kind: PieceKind, fields: Seq<FieldSpec>) -> Seq<Seq<char>> {
    fields.map_values(|f: FieldSpec| piece(kind, f))
}

/// Renders the piece of kind `kind` for `f`.
pub fn render_piece(kind: &PieceKind, f: &Field) -> (r: String)
    ensures
        r@ == piece(*kind, f@),
{
    let mut s = String::new();
    match kind {
        PieceKind::Param => {
            s.append(f.name.as_str());
            s.append(": ");
            s.append(f.ty.as_str());
        },
        PieceKind::Name => {
            s.append(f.name.as_str());
        },
        PieceKind::Getter => {
            if f.skip_getter {
            } else if is_scalar(&f.ty) {
                s.append("    pub fn ");
                s.append(f.name.as_str());
                s.append("(&self) -> ");
                s.append(f.ty.as_str());
                s.append(" {\n        self.");
                s.append(f.name.as_str());
                s.append("\n    }\n");
            } else {
                s.append("    pub fn ");
                s.append(f.name.as_str());
                s.append("(&self) -> &");
                s.append(f.ty.as_str());
                s.append(" {\n        &self.");
                s.append(f.name.as_str());
                s.append("\n    }\n");
            }
        },
        PieceKind::Slot => {
            s.append("    ");
            s.append(f.name.as_str());
            s.append(": Option<");
            s.append(f.ty.as_str());
            s.append(">,\n");
        },
        PieceKind::SlotInit => {
            s.append("            ");
            s.append(f.name.as_str());
            s.append(": None,\n");
        },
        PieceKind::Setter => {
            s.append("\n    pub fn ");
            s.append(f.name.as_str());
            s.append("(mut self, value: ");
            s.append(f.ty.as_str());
            s.append(") -> Self {\n        self.");
            s.append(f.name.as_str());
            s.append(" = Some(value);\n        self\n    }\n");
        },
        PieceKind::BuildEntry => {
            s.append("            ");
            s.append(f.name.as_str());
            s.append(": self.");
            s.append(f.name.as_str());
            if f.has_default {
                s.append(".unwrap_or_default(),\n");
            } else {
                s.append(".ok_or_else(|| String::from(\"MissingField: ");
                s.append(f.name.as_str());
                s.append("\"))?,\n");
            }
        },
    }
    assert(s@ =~= piece(*kind, f@));
    s
}

/// Renders the pieces of kind `kind` for each of `fields`.
pub fn render_pieces(kind: &PieceKind, fields: &Vec<Field>) -> (r: Vec<String>)
    ensures
        texts(r@) == pieces(*kind, field_specs(fields@)),
{
    let mut out: Vec<String> = Vec::new();
    let mut i: usize = 0;
    while i < fields.len()
        invariant
            i <= fields@.len(),
            out@.len() == i,
            forall|j: int| 0 <= j < i ==> #[trigger] out@[j]@ == piece(*kind, fields@[j]@),
        decreases fields@.len() - i,
    {
        let p = render_piece(kind, &fields[i]);
        out.push(p);
        i = i + 1;
    }
    assert(texts(out@) =~= pieces(*kind, field_specs(fields@)));
    out
}

} // verus!
