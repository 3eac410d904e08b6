use macros::descriptor::{DeriveError, Field, GenericParam, Shape, TypeDescriptor};
use macros::{derive_builder, derive_getters, derive_new};

fn point() -> TypeDescriptor {
    TypeDescriptor {
        name: "Point".to_string(),
        generics: vec![],
        where_clause: String::new(),
        shape: Shape::Named(vec![Field::new("x", "i64"), Field::new("y", "i64")]),
    }
}

fn named(name: &str, generics: Vec<&str>, fields: Vec<Field>) -> TypeDescriptor {
    TypeDescriptor {
        name: name.to_string(),
        generics: generics.into_iter().map(|g| GenericParam::new(g, "")).collect(),
        where_clause: String::new(),
        shape: Shape::Named(fields),
    }
}

fn refused(r: Result<String, DeriveError>) -> String {
    match r {
        Ok(s) => panic!("unexpected fragment: {}", s),
        Err(e) => e.offending_type().clone(),
    }
}

#[test]
fn new_on_point_yields_positional_constructor() {
    let text = derive_new(&point()).ok().unwrap();
    assert_eq!(
        text,
        "impl Point {\n    pub fn new(x: i64, y: i64) -> Self {\n        Self { x, y }\n    }\n}\n"
    );
}

#[test]
fn getters_on_point_yield_one_accessor_per_field() {
    let text = derive_getters(&point()).ok().unwrap();
    assert_eq!(
        text,
        "impl Point {\n    pub fn x(&self) -> i64 {\n        self.x\n    }\n    pub fn y(&self) -> i64 {\n        self.y\n    }\n}\n"
    );
}

#[test]
fn builder_on_point_yields_builder_type() {
    let text = derive_builder(&point()).ok().unwrap();
    let expected = "pub struct PointBuilder {\n    x: Option<i64>,\n    y: Option<i64>,\n}\n\n\
impl PointBuilder {\n    pub fn new() -> Self {\n        Self {\n            x: None,\n            y: None,\n        }\n    }\n\n    \
pub fn x(mut self, value: i64) -> Self {\n        self.x = Some(value);\n        self\n    }\n\n    \
pub fn y(mut self, value: i64) -> Self {\n        self.y = Some(value);\n        self\n    }\n\n    \
pub fn build(self) -> Result<Point, String> {\n        Ok(Point {\n            \
x: self.x.ok_or_else(|| String::from(\"MissingField: x\"))?,\n            \
y: self.y.ok_or_else(|| String::from(\"MissingField: y\"))?,\n        })\n    }\n}\n";
    assert_eq!(text, expected);
}

#[test]
fn generics_are_carried_onto_generated_items() {
    let d = named("Pair", vec!["'a", "T"], vec![Field::new("first", "&'a T"), Field::new("second", "T")]);
    let new_text = derive_new(&d).ok().unwrap();
    assert!(new_text.starts_with("impl<'a, T> Pair<'a, T> {\n"));
    assert!(new_text.contains("pub fn new(first: &'a T, second: T) -> Self"));
    let builder_text = derive_builder(&d).ok().unwrap();
    assert!(builder_text.starts_with("pub struct PairBuilder<'a, T> {\n"));
    assert!(builder_text.contains("impl<'a, T> PairBuilder<'a, T> {\n"));
    assert!(builder_text.contains("pub fn build(self) -> Result<Pair<'a, T>, String> {\n"));
    let getters_text = derive_getters(&d).ok().unwrap();
    assert!(getters_text.starts_with("impl<'a, T> Pair<'a, T> {\n"));
}

#[test]
fn getters_skip_fields_that_opt_out() {
    let mut secret = Field::new("secret", "String");
    secret.skip_getter = true;
    let d = named("Account", vec![], vec![Field::new("id", "u32"), secret]);
    let text = derive_getters(&d).ok().unwrap();
    assert_eq!(text, "impl Account {\n    pub fn id(&self) -> u32 {\n        self.id\n    }\n}\n");
}

#[test]
fn builder_falls_back_to_defaults() {
    let mut retries = Field::new("retries", "u8");
    retries.has_default = true;
    let d = named("Config", vec![], vec![retries]);
    let text = derive_builder(&d).ok().unwrap();
    assert!(text.contains("            retries: self.retries.unwrap_or_default(),\n"));
    assert!(!text.contains("MissingField"));
}

#[test]
fn empty_struct_is_accepted() {
    let d = named("Empty", vec![], vec![]);
    assert_eq!(
        derive_new(&d).ok().unwrap(),
        "impl Empty {\n    pub fn new() -> Self {\n        Self {  }\n    }\n}\n"
    );
    assert_eq!(derive_getters(&d).ok().unwrap(), "impl Empty {\n}\n");
    let builder_text = derive_builder(&d).ok().unwrap();
    assert!(builder_text.starts_with("pub struct EmptyBuilder {\n}\n"));
    assert!(builder_text.contains("        Ok(Empty {\n        })\n"));
}

#[test]
fn enums_are_refused() {
    let d = TypeDescriptor {
        name: "Color".to_string(),
        generics: vec![],
        where_clause: String::new(),
        shape: Shape::Enum(vec!["Red".to_string(), "Green".to_string()]),
    };
    assert_eq!(refused(derive_new(&d)), "Color");
    assert_eq!(refused(derive_getters(&d)), "Color");
    assert_eq!(refused(derive_builder(&d)), "Color");
}

#[test]
fn marker_tuple_and_union_types_are_refused() {
    for shape in [Shape::Unit, Shape::Tuple(vec!["u8".to_string()]), Shape::Union] {
        let d = TypeDescriptor {
            name: "Odd".to_string(),
            generics: vec![],
            where_clause: String::new(),
            shape,
        };
        assert_eq!(refused(derive_new(&d)), "Odd");
        assert_eq!(refused(derive_getters(&d)), "Odd");
        assert_eq!(refused(derive_builder(&d)), "Odd");
    }
}

#[test]
fn refusal_message_names_the_type() {
    let d = TypeDescriptor {
        name: "Marker".to_string(),
        generics: vec![],
        where_clause: String::new(),
        shape: Shape::Unit,
    };
    let e = derive_new(&d).err().unwrap();
    assert_eq!(
        e.message(),
        "cannot derive for `Marker`: only structs with named fields are supported"
    );
}

#[test]
fn generating_twice_gives_identical_text() {
    let d = named("Pair", vec!["T"], vec![Field::new("a", "T"), Field::new("b", "Vec<T>")]);
    assert_eq!(derive_new(&d).ok().unwrap(), derive_new(&d).ok().unwrap());
    assert_eq!(derive_getters(&d).ok().unwrap(), derive_getters(&d).ok().unwrap());
    assert_eq!(derive_builder(&d).ok().unwrap(), derive_builder(&d).ok().unwrap());
}

#[test]
fn getters_return_non_scalars_by_reference() {
    let d = named(
        "Mixed",
        vec![],
        vec![Field::new("flag", "bool"), Field::new("label", "String"), Field::new("ratio", "f64")],
    );
    let text = derive_getters(&d).ok().unwrap();
    assert_eq!(
        text,
        "impl Mixed {\n    pub fn flag(&self) -> bool {\n        self.flag\n    }\n    \
pub fn label(&self) -> &String {\n        &self.label\n    }\n    \
pub fn ratio(&self) -> f64 {\n        self.ratio\n    }\n}\n"
    );
}

#[test]
fn bounds_are_declared_and_names_applied() {
    let d = TypeDescriptor {
        name: "Grid".to_string(),
        generics: vec![GenericParam::new("'a", ""), GenericParam::new("T", "Clone + Send"), GenericParam::constant("N", "usize")],
        where_clause: "T: Default".to_string(),
        shape: Shape::Named(vec![Field::new("cells", "[&'a T; N]")]),
    };
    let new_text = derive_new(&d).ok().unwrap();
    assert!(new_text.starts_with("impl<'a, T: Clone + Send, const N: usize> Grid<'a, T, N> where T: Default {\n"));
    let getters_text = derive_getters(&d).ok().unwrap();
    assert!(getters_text.starts_with("impl<'a, T: Clone + Send, const N: usize> Grid<'a, T, N> where T: Default {\n"));
    let builder_text = derive_builder(&d).ok().unwrap();
    assert!(builder_text.starts_with("pub struct GridBuilder<'a, T: Clone + Send, const N: usize> where T: Default {\n"));
    assert!(builder_text.contains("}\n\nimpl<'a, T: Clone + Send, const N: usize> GridBuilder<'a, T, N> where T: Default {\n"));
    assert!(builder_text.contains("pub fn build(self) -> Result<Grid<'a, T, N>, String> {\n"));
}
