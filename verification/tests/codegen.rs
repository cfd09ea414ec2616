use builder::emit::{
    build_error_src, build_method_src, builder_fields_src, init_builder_fields_src, setters_src,
};
use builder::names::{builder_name, error_name};
use builder::schema::{fields_of, has_named_fields, FieldDef, FieldsShape, TypeData, TypeDef};

fn point_fields() -> Vec<FieldDef> {
    vec![
        FieldDef { name: "x".to_owned(), ty: "i32".to_owned() },
        FieldDef { name: "y".to_owned(), ty: "i32".to_owned() },
    ]
}

fn point_def() -> TypeDef {
    TypeDef { name: "Point".to_owned(), data: TypeData::Struct(FieldsShape::Named(point_fields())) }
}

#[test]
fn companion_names_use_fixed_suffixes() {
    assert_eq!(builder_name("Point"), "PointBuilder");
    assert_eq!(error_name("Point"), "PointBuildError");
    assert_eq!(builder_name("Name"), "NameBuilder");
    assert_eq!(error_name("Name"), "NameBuildError");
}

#[test]
fn schema_extraction_accepts_only_named_records() {
    assert!(has_named_fields(&point_def()));
    let tuple_like =
        TypeDef { name: "Pair".to_owned(), data: TypeData::Struct(FieldsShape::Unnamed) };
    assert!(!has_named_fields(&tuple_like));
    let unit = TypeDef { name: "Marker".to_owned(), data: TypeData::Struct(FieldsShape::Unit) };
    assert!(!has_named_fields(&unit));
    let tagged = TypeDef { name: "Choice".to_owned(), data: TypeData::Enumeration };
    assert!(!has_named_fields(&tagged));
}

#[test]
fn schema_extraction_preserves_field_order() {
    let def = point_def();
    let fields = fields_of(&def);
    assert_eq!(fields.len(), 2);
    assert_eq!(fields[0].name.as_str(), "x");
    assert_eq!(fields[0].ty.as_str(), "i32");
    assert_eq!(fields[1].name.as_str(), "y");
}

#[test]
fn builder_fields_are_optional_wrapped() {
    let out = builder_fields_src(&point_fields());
    let mut expected = String::new();
    expected.push_str("    x: std::option::Option<i32>,\n");
    expected.push_str("    y: std::option::Option<i32>,\n");
    assert_eq!(out, expected);
}

#[test]
fn factory_initializes_every_field_absent() {
    let out = init_builder_fields_src(&point_fields());
    let mut expected = String::new();
    expected.push_str("            x: None,\n");
    expected.push_str("            y: None,\n");
    assert_eq!(out, expected);
}

#[test]
fn setters_store_value_and_chain() {
    let out = setters_src(&point_fields());
    let mut expected = String::new();
    expected.push_str("    pub fn x(&mut self, x: i32) -> &mut Self {\n");
    expected.push_str("        self.x = Some(x);\n");
    expected.push_str("        self\n");
    expected.push_str("    }\n\n");
    expected.push_str("    pub fn y(&mut self, y: i32) -> &mut Self {\n");
    expected.push_str("        self.y = Some(y);\n");
    expected.push_str("        self\n");
    expected.push_str("    }\n\n");
    assert_eq!(out, expected);
}

#[test]
fn build_method_extracts_in_declaration_order() {
    let out = build_method_src(&point_fields(), "Point", "PointBuildError");
    let mut expected = String::new();
    expected.push_str("    pub fn build(self) -> Result<Point, PointBuildError> {\n");
    expected.push_str("        let target = Point {\n");
    expected.push_str(
        "            x: self.x.ok_or_else(|| PointBuildError::FieldRequired(\"x\".to_owned()))?,\n",
    );
    expected.push_str(
        "            y: self.y.ok_or_else(|| PointBuildError::FieldRequired(\"y\".to_owned()))?,\n",
    );
    expected.push_str("        };\n");
    expected.push_str("        Ok(target)\n");
    expected.push_str("    }\n\n");
    assert_eq!(out, expected);
}

#[test]
fn error_declaration_renders_field_is_required() {
    let out = build_error_src("PointBuildError");
    let mut expected = String::new();
    expected.push_str("#[derive(Debug)]\n");
    expected.push_str("pub enum PointBuildError {\n");
    expected.push_str("    FieldRequired(String),\n");
    expected.push_str("}\n\n");
    expected.push_str("impl std::fmt::Display for PointBuildError {\n");
    expected.push_str("    fn fmt(&self, f: &mut std::fmt::Formatter<'_>) -> std::fmt::Result {\n");
    expected.push_str("        match self {\n");
    expected.push_str("            PointBuildError::FieldRequired(name) => {\n");
    expected.push_str("                f.write_str(name)?;\n");
    expected.push_str("                f.write_str(\" field is required\")\n");
    expected.push_str("            }\n");
    expected.push_str("        }\n");
    expected.push_str("    }\n");
    expected.push_str("}\n\n");
    expected.push_str("impl std::error::Error for PointBuildError {}\n");
    assert_eq!(out, expected);
}

#[test]
fn derived_bundle_for_point() {
    let out = builder::emit::derive(&point_def());
    let mut expected = String::new();
    expected.push_str("impl Point {\n");
    expected.push_str("    pub fn builder() -> PointBuilder {\n");
    expected.push_str("        PointBuilder {\n");
    expected.push_str(&init_builder_fields_src(&point_fields()));
    expected.push_str("        }\n");
    expected.push_str("    }\n");
    expected.push_str("}\n\n");
    expected.push_str("pub struct PointBuilder {\n");
    expected.push_str(&builder_fields_src(&point_fields()));
    expected.push_str("}\n\n");
    expected.push_str("impl PointBuilder {\n");
    expected.push_str(&build_method_src(&point_fields(), "Point", "PointBuildError"));
    expected.push_str(&setters_src(&point_fields()));
    expected.push_str("}\n\n");
    expected.push_str(&build_error_src("PointBuildError"));
    assert_eq!(out, expected);
}

#[test]
fn derived_bundle_for_single_field_record() {
    let def = TypeDef {
        name: "Name".to_owned(),
        data: TypeData::Struct(FieldsShape::Named(vec![FieldDef {
            name: "value".to_owned(),
            ty: "String".to_owned(),
        }])),
    };
    let out = builder::emit::derive(&def);
    assert!(out.contains("pub struct NameBuilder {\n    value: std::option::Option<String>,\n}"));
    assert!(out.contains("pub fn build(self) -> Result<Name, NameBuildError>"));
    assert!(out.contains(
        "value: self.value.ok_or_else(|| NameBuildError::FieldRequired(\"value\".to_owned()))?,",
    ));
    assert!(out.contains("pub enum NameBuildError"));
    assert!(out.contains(" field is required"));
}
