//! Source-text synthesis: each stage of the derivation engine emits one part
//! of the companion declarations, and `derive` composes them into the
//! full bundle. Every emitter's contract pins the emitted text exactly.

use vstd::prelude::*;
use vstd::string::StringExecFns;

use crate::names::{builder_name, error_name, spec_builder_name, spec_error_name};
use crate::schema::{fields_of, FieldDef, TypeDef};

verus! {

/// One optional-wrapped field declaration of the builder struct.
pub open spec fn spec_builder_field(f: FieldDef) -> Seq<char> {
    "    "@ + f.name@ + ": std::option::Option<"@ + f.ty@ + ">,\n"@
}

/// The builder struct's field declarations, in declaration order.
pub open spec fn spec_builder_fields(fields: Seq<FieldDef>) -> Seq<char>
    decreases fields.len(),
{
    if fields.len() == 0 {
        Seq::empty()
    } else {
        spec_builder_fields(fields.drop_last()) + spec_builder_field(fields.last())
    }
}

/// One absent-state initializer of the factory's struct literal.
pub open spec fn spec_init_field(f: FieldDef) -> Seq<char> {
    "            "@ + f.name@ + ": None,\n"@
}

/// The factory's initializers, one per field, in declaration order.
pub open spec fn spec_init_fields(fields: Seq<FieldDef>) -> Seq<char>
    decreases fields.len(),
{
    if fields.len() == 0 {
        Seq::empty()
    } else {
        spec_init_fields(fields.drop_last()) + spec_init_field(fields.last())
    }
}

/// Emits the builder struct's body: one `std::option::Option`-wrapped field
/// per record field, same names, same order.
pub fn builder_fields_src(fields: &Vec<FieldDef>) -> (r: String)
    ensures
        r@ == spec_builder_fields(fields@),
{
    let mut out = String::new();
    let n = fields.len();
    let mut i: usize = 0;
    while i < n
        invariant
            i <= n,
            n == fields@.len(),
            out@ == spec_builder_fields(fields@.take(i as int)),
        decreases n - i,
    {
        let f = &fields[i];
        out.append("    ");
        out.append(f.name.as_str());
        out.append(": std::option::Option<");
        out.append(f.ty.as_str());
        out.append(">,\n");
        proof {
            assert(fields@.take(i as int + 1).drop_last() =~= fields@.take(i as int));
            assert(out@ =~= spec_builder_fields(fields@.take(i as int + 1)));
        }
        i += 1;
    }
    proof {
        assert(fields@.take(n as int) =~= fields@);
    }
    out
}

/// Emits the factory's struct literal body: every field set to the absent
/// state.
pub fn init_builder_fields_src(fields: &Vec<FieldDef>) -> (r: String)
    ensures
        r@ == spec_init_fields(fields@),
{
    let mut out = String::new();
    let n = fields.len();
    let mut i: usize = 0;
    while i < n
        invariant
            i <= n,
            n == fields@.len(),
            out@ == spec_init_fields(fields@.take(i as int)),
        decreases n - i,
    {
        let f = &fields[i];
        out.append("            ");
        out.append(f.name.as_str());
        out.append(": None,\n");
        proof {
            assert(fields@.take(i as int + 1).drop_last() =~= fields@.take(i as int));
            assert(out@ =~= spec_init_fields(fields@.take(i as int + 1)));
        }
        i += 1;
    }
    proof {
        assert(fields@.take(n as int) =~= fields@);
    }
    out
}

/// One fluent setter: a mutator named after the field, taking one argument
/// of the field's type, storing it as present, and handing back the receiver.
pub open spec fn spec_setter(f: FieldDef) -> Seq<char> {
    "    pub fn "@ + f.name@ + "(&mut self, "@ + f.name@ + ": "@ + f.ty@
        + ") -> &mut Self {\n        self."@ + f.name@ + " = Some("@ + f.name@
        + ");\n        self\n    }\n\n"@
}

/// All setters, one per field, in declaration order.
pub open spec fn spec_setters(fields: Seq<FieldDef>) -> Seq<char>
    decreases fields.len(),
{
    if fields.len() == 0 {
        Seq::empty()
    } else {
        spec_setters(fields.drop_last()) + spec_setter(fields.last())
    }
}

/// One field extraction of the build method: take the present value, or
/// short-circuit with the error variant carrying this field's name.
pub open spec fn spec_extract_field(f: FieldDef, err: Seq<char>) -> Seq<char> {
    "            "@ + f.name@ + ": self."@ + f.name@ + ".ok_or_else(|| "@ + err
        + "::FieldRequired(\""@ + f.name@ + "\".to_owned()))?,\n"@
}

/// The build method's field extractions, in declaration order, so the first
/// absent field is the one reported.
pub open spec fn spec_extract_fields(fields: Seq<FieldDef>, err: Seq<char>) -> Seq<char>
    decreases fields.len(),
{
    if fields.len() == 0 {
        Seq::empty()
    } else {
        spec_extract_fields(fields.drop_last(), err) + spec_extract_field(fields.last(), err)
    }
}

/// The validating build method: consumes the builder and yields the record,
/// or the error naming the first absent field.
pub open spec fn spec_build_method(fields: Seq<FieldDef>, target: Seq<char>, err: Seq<char>) -> Seq<
    char,
> {
    "    pub fn build(self) -> Result<"@ + target + ", "@ + err + "> {\n        let target = "@
        + target + " {\n"@ + spec_extract_fields(fields, err)
        + "        };\n        Ok(target)\n    }\n\n"@
}

/// The error type declaration: one tagged case carrying the unset field's
/// name, a human-readable rendering, and the standard error capability.
pub open spec fn spec_build_error(err: Seq<char>) -> Seq<char> {
    "#[derive(Debug)]\npub enum "@ + err + " {\n    FieldRequired(String),\n}\n\nimpl std::fmt::Display for "@
        + err
        + " {\n    fn fmt(&self, f: &mut std::fmt::Formatter<'_>) -> std::fmt::Result {\n        match self {\n            "@
        + err
        + "::FieldRequired(name) => {\n                f.write_str(name)?;\n                f.write_str(\" field is required\")\n            }\n        }\n    }\n}\n\nimpl std::error::Error for "@
        + err + " {}\n"@
}

/// Emits every setter of the builder: for each field a fluent mutator that
/// stores the value and returns the receiver for chaining.
pub fn setters_src(fields: &Vec<FieldDef>) -> (r: String)
    ensures
        r@ == spec_setters(fields@),
{
    let mut out = String::new();
    let n = fields.len();
    let mut i: usize = 0;
    while i < n
        invariant
            i <= n,
            n == fields@.len(),
            out@ == spec_setters(fields@.take(i as int)),
        decreases n - i,
    {
        let f = &fields[i];
        out.append("    pub fn ");
        out.append(f.name.as_str());
        out.append("(&mut self, ");
        out.append(f.name.as_str());
        out.append(": ");
        out.append(f.ty.as_str());
        out.append(") -> &mut Self {\n        self.");
        out.append(f.name.as_str());
        out.append(" = Some(");
        out.append(f.name.as_str());
        out.append(");\n        self\n    }\n\n");
        proof {
            assert(fields@.take(i as int + 1).drop_last() =~= fields@.take(i as int));
            assert(out@ =~= spec_setters(fields@.take(i as int + 1)));
        }
        i += 1;
    }
    proof {
        assert(fields@.take(n as int) =~= fields@);
    }
    out
}

/// Emits the build method: field-by-field extraction in declaration order
/// with short-circuit error propagation, then assembly of the record.
pub fn build_method_src(fields: &Vec<FieldDef>, target: &str, err: &str) -> (r: String)
    ensures
        r@ == spec_build_method(fields@, target@, err@),
{
    let mut out = String::new();
    out.append("    pub fn build(self) -> Result<");
    out.append(target);
    out.append(", ");
    out.append(err);
    out.append("> {\n        let target = ");
    out.append(target);
    out.append(" {\n");
    let ghost head = out@;
    let n = fields.len();
    let mut i: usize = 0;
    while i < n
        invariant
            i <= n,
            n == fields@.len(),
            out@ == head + spec_extract_fields(fields@.take(i as int), err@),
        decreases n - i,
    {
        let f = &fields[i];
        out.append("            ");
        out.append(f.name.as_str());
        out.append(": self.");
        out.append(f.name.as_str());
        out.append(".ok_or_else(|| ");
        out.append(err);
        out.append("::FieldRequired(\"");
        out.append(f.name.as_str());
        out.append("\".to_owned()))?,\n");
        proof {
            assert(fields@.take(i as int + 1).drop_last() =~= fields@.take(i as int));
            assert(out@ =~= head + spec_extract_fields(fields@.take(i as int + 1), err@));
        }
        i += 1;
    }
    out.append("        };\n        Ok(target)\n    }\n\n");
    proof {
        assert(fields@.take(n as int) =~= fields@);
        assert(out@ =~= spec_build_method(fields@, target@, err@));
    }
    out
}

/// Emits the error type declaration for the given error name.
pub fn build_error_src(err: &str) -> (r: String)
    ensures
        r@ == spec_build_error(err@),
{
    let mut out = String::new();
    out.append("#[derive(Debug)]\npub enum ");
    out.append(err);
    out.append(" {\n    FieldRequired(String),\n}\n\nimpl std::fmt::Display for ");
    out.append(err);
    out.append(
        " {\n    fn fmt(&self, f: &mut std::fmt::Formatter<'_>) -> std::fmt::Result {\n        match self {\n            ",
    );
    out.append(err);
    out.append(
        "::FieldRequired(name) => {\n                f.write_str(name)?;\n                f.write_str(\" field is required\")\n            }\n        }\n    }\n}\n\nimpl std::error::Error for ",
    );
    out.append(err);
    out.append(" {}\n");
    proof {
        assert(out@ =~= spec_build_error(err@));
    }
    out
}

/// The full bundle of companion declarations derived from a named record:
/// the factory attached to the record type, the optional-wrapped builder
/// struct, the builder's build method and setters, and the error type.
pub open spec fn spec_derive(def: TypeDef) -> Seq<char>
    recommends
        def.is_named_record(),
{
    let name = def.name@;
    let bname = spec_builder_name(name);
    let ename = spec_error_name(name);
    let fields = def.spec_fields();
    "impl "@ + name + " {\n    pub fn builder() -> "@ + bname + " {\n        "@ + bname + " {\n"@
        + spec_init_fields(fields) + "        }\n    }\n}\n\npub struct "@ + bname + " {\n"@
        + spec_builder_fields(fields) + "}\n\nimpl "@ + bname + " {\n"@
        + spec_build_method(fields, name, ename) + spec_setters(fields) + "}\n\n"@
        + spec_build_error(ename)
}

/// The derivation engine: consumes one named-record definition and emits the
/// source text of the whole companion bundle, exactly as `spec_derive` lays
/// it out. Any other shape of definition is a definition-time contract
/// violation and is excluded up front.
pub fn derive(def: &TypeDef) -> (r: String)
    requires
        def.is_named_record(),
    ensures
        r@ == spec_derive(*def),
{
    let fields = fields_of(def);
    let bname = builder_name(def.name.as_str());
    let ename = error_name(def.name.as_str());
    let init_fields = init_builder_fields_src(fields);
    let b_fields = builder_fields_src(fields);
    let build_method = build_method_src(fields, def.name.as_str(), ename.as_str());
    let setters = setters_src(fields);
    let error_decl = build_error_src(ename.as_str());

    let mut out = String::new();
    out.append("impl ");
    out.append(def.name.as_str());
    out.append(" {\n    pub fn builder() -> ");
    out.append(bname.as_str());
    out.append(" {\n        ");
    out.append(bname.as_str());
    out.append(" {\n");
    out.append(init_fields.as_str());
    out.append("        }\n    }\n}\n\npub struct ");
    out.append(bname.as_str());
    out.append(" {\n");
    out.append(b_fields.as_str());
    out.append("}\n\nimpl ");
    out.append(bname.as_str());
    out.append(" {\n");
    out.append(build_method.as_str());
    out.append(setters.as_str());
    out.append("}\n\n");
    out.append(error_decl.as_str());
    proof {
        assert(out@ =~= spec_derive(*def));
    }
    out
}

} // verus!
