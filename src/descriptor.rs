//! The type descriptor: what a generator reads of an annotated type.
use vstd::prelude::*;

verus! {

/// One named field of a struct.
pub struct Field {
    pub name: String,
    /// The declared type, as written in the source.
    pub ty: String,
    /// The field opts out of accessor generation.
    pub skip_getter: bool,
    /// The field has a default, so a builder may leave it unset.
    pub has_default: bool,
}

/// One generic parameter of the annotated type.
pub struct GenericParam {
    /// The parameter's name (`T`, `'a`, `N`).
    pub name: String,
    /// Its bounds (`Clone + Send`, `'b`), or, for a const parameter, its
    /// type; empty when there are none.
    pub bounds: String,
    /// A const parameter (`const N: usize`).
    pub is_const: bool,
}

/// The shape of the annotated item.
pub enum Shape {
    /// A struct with named fields (possibly none: `struct S {}`).
    Named(Vec<Field>),
    /// A tuple struct, with the declared types of its positional fields.
    Tuple(Vec<String>),
    /// A fieldless marker struct (`struct S;`).
    Unit,
    /// A tagged union, with the names of its variants.
    Enum(Vec<String>),
    /// An untagged union.
    Union,
}

/// The structural facts about an annotated type.
pub struct TypeDescriptor {
    pub name: String,
    /// Generic parameters in declaration order.
    pub generics: Vec<GenericParam>,
    /// The predicates of the type's `where` clause, without the keyword;
    /// empty when it has none.
    pub where_clause: String,
    pub shape: Shape,
}

/// The mathematical model of a [`Field`].
pub struct FieldSpec {
    pub name: Seq<char>,
    pub ty: Seq<char>,
    pub skip_getter: bool,
    pub has_default: bool,
}

/// The mathematical model of a [`GenericParam`].
pub struct GenericSpec {
    pub name: Seq<char>,
    pub bounds: Seq<char>,
    pub is_const: bool,
}

/// The mathematical model of a [`Shape`].
pub enum ShapeSpec {
    Named(Seq<FieldSpec>),
    Tuple(Seq<Seq<char>>),
    Unit,
    Enum(Seq<Seq<char>>),
    Union,
}

/// The mathematical model of a [`TypeDescriptor`].
pub struct TypeSpec {
    pub name: Seq<char>,
    pub generics: Seq<GenericSpec>,
    pub where_clause: Seq<char>,
    pub shape: ShapeSpec,
}

impl View for Field {
    type V = FieldSpec;

    open spec fn view(&self) -> FieldSpec {
        FieldSpec {
            name: self.name@,
            ty: self.ty@,
            skip_getter: self.skip_getter,
            has_default: self.has_default,
        }
    }
}

impl View for GenericParam {
    type V = GenericSpec;

    open spec fn view(&self) -> GenericSpec {
        GenericSpec { name: self.name@, bounds: self.bounds@, is_const: self.is_const }
    }
}

/// The models of a sequence of generic parameters.
pub open spec fn generic_specs(params: Seq<GenericParam>) -> Seq<GenericSpec> {
    params.map_values(|p: GenericParam| p@)
}

/// The models of a sequence of fields.
pub open spec fn field_specs(fields: Seq<Field>) -> Seq<FieldSpec> {
    fields.map_values(|f: Field| f@)
}

impl View for Shape {
    type V = ShapeSpec;

    open spec fn view(&self) -> ShapeSpec {
        match self {
            Shape::Named(fields) => ShapeSpec::Named(field_specs(fields@)),
            Shape::Tuple(tys) => ShapeSpec::Tuple(tys@.map_values(|s: String| s@)),
            Shape::Unit => ShapeSpec::Unit,
            Shape::Enum(variants) => ShapeSpec::Enum(variants@.map_values(|s: String| s@)),
            Shape::Union => ShapeSpec::Union,
        }
    }
}

impl View for TypeDescriptor {
    type V = TypeSpec;

    open spec fn view(&self) -> TypeSpec {
        TypeSpec {
            name: self.name@,
            generics: generic_specs(self.generics@),
            where_clause: self.where_clause@,
            shape: self.shape@,
        }
    }
}

impl Field {
    /// A field with no markers.
    pub fn new(name: &str, ty: &str) -> (r: Field)
        ensures
            r@ == (FieldSpec { name: name@, ty: ty@, skip_getter: false, has_default: false }),
    {
        Field {
            name: String::from_str(name),
            ty: String::from_str(ty),
            skip_getter: false,
            has_default: false,
        }
    }
}

impl GenericParam {
    /// A parameter with the given name and bounds (empty for none).
    pub fn new(name: &str, bounds: &str) -> (r: GenericParam)
        ensures
            r@ == (GenericSpec { name: name@, bounds: bounds@, is_const: false }),
    {
        GenericParam { name: String::from_str(name), bounds: String::from_str(bounds), is_const: false }
    }

    /// A const parameter `const name: ty`.
    pub fn constant(name: &str, ty: &str) -> (r: GenericParam)
        ensures
            r@ == (GenericSpec { name: name@, bounds: ty@, is_const: true }),
    {
        GenericParam { name: String::from_str(name), bounds: String::from_str(ty), is_const: true }
    }
}

/// Why a generator produced nothing.
pub enum DeriveError {
    /// The item is not a struct with named fields; carries the item's name.
    UnsupportedShape(String),
}

impl DeriveError {
    /// The name of the offending type.
    pub fn offending_type(&self) -> (r: &String)
        ensures
            r@ == self.offending_type_view(),
    {
        match self {
            DeriveError::UnsupportedShape(n) => n,
        }
    }

    /// A diagnostic message naming the offending type.
    pub fn message(&self) -> (r: String)
        ensures
            r@ == unsupported_message(self.offending_type_view()),
    {
        let mut m = String::from_str("cannot derive for `");
        m.append(self.offending_type().as_str());
        m.append("`: only structs with named fields are supported");
        m
    }

    pub open spec fn offending_type_view(&self) -> Seq<char> {
        match self {
            DeriveError::UnsupportedShape(n) => n@,
        }
    }
}

/// The diagnostic for an unsupported item named `name`.
pub open spec fn unsupported_message(name: Seq<char>) -> Seq<char> {
    "cannot derive for `"@ + name + "`: only structs with named fields are supported"@
}

/// The fields of a struct with named fields; `None` for any other shape.
pub open spec fn named_fields(t: TypeSpec) -> Option<Seq<FieldSpec>> {
    match t.shape {
        ShapeSpec::Named(fields) => Some(fields),
        _ => None,
    }
}

/// What a generator's result says: the fragment's text, or the name of the
/// type that was refused.
pub open spec fn outcome_view(r: Result<String, DeriveError>) -> Result<Seq<char>, Seq<char>> {
    match r {
        Ok(s) => Ok(s@),
        Err(e) => Err(e.offending_type_view()),
    }
}

} // verus!
