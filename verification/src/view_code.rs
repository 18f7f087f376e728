//! The key-derivation and lifecycle composer: emits the aggregate's
//! `context`, `load`, `rollback`, `flush`, `delete` and `clear` operations,
//! composed from the fields' own operations in declaration order.
//!
//! The generated `load` derives, for the field at position `i`, a base key
//! from the literal index `i`, builds a child context scoped under that base
//! key, and loads the field's view from the child context. The positional
//! scheme is what keeps sibling fields from ever colliding in key space; see
//! [`lemma_load_plan_distinct_positions`].

use vstd::prelude::*;
use vstd::string::StringExecFns;

use crate::render::push_decimal;
use crate::render::push_each_field;
use crate::render::push_impl_header;
use crate::render::push_name_list;
use crate::render::spec_decimal;
use crate::render::spec_each_field;
use crate::render::spec_impl_header;
use crate::render::spec_name_list;
use crate::schema::DeriveError;
use crate::schema::Field;
use crate::schema::FieldV;
use crate::schema::Schema;
use crate::schema::SchemaV;
use crate::schema::StructDecl;
use crate::schema::decl_valid;
use crate::schema::error_matches;
use crate::schema::field_views;
use crate::schema::schema_wf;
use crate::schema::spec_schema;

verus! {

/// The generated `context` accessor: the context of the field at position 0
/// stands for the aggregate's own context (every field's context is derived
/// from the same parent).
pub open spec fn spec_context_method(s: SchemaV) -> Seq<char> {
    "    fn context(&self) -> &"@ + s.context_param + " {\n        self."@ + s.fields[0].name
        + ".context()\n    }\n\n"@
}

/// The load statements generated for one field: derive the base key from the
/// field's position, scope a child context under it, and load the field's
/// view from that child context.
pub open spec fn spec_load_stmt(f: FieldV, position: nat) -> Seq<char> {
    "        let index = "@ + spec_decimal(position)
        + ";\n        let base_key = context.derive_key(&index)?;\n        let "@ + f.name + " = "@
        + f.type_head + "::load(context.clone_with_base_key(base_key)).await?;\n"@
}

/// The load statements of the first `n` fields, in declaration order.
pub open spec fn spec_load_stmts(fields: Seq<FieldV>, n: int) -> Seq<char>
    decreases n,
{
    if n <= 0 {
        Seq::empty()
    } else {
        spec_load_stmts(fields, n - 1) + spec_load_stmt(fields[n - 1], (n - 1) as nat)
    }
}

/// The generated `load`: every field is loaded in declaration order, each
/// load awaited before the next begins, and the aggregate is assembled only
/// after every field loaded; the first failure short-circuits, so a partial
/// aggregate is never constructed.
pub open spec fn spec_load_method(s: SchemaV) -> Seq<char> {
    "    async fn load(context: "@ + s.context_param
        + ") -> Result<Self, linera_views::views::ViewError> {\n"@ + spec_load_stmts(
        s.fields,
        s.fields.len() as int,
    ) + "        Ok(Self { "@ + spec_name_list(s.fields, s.fields.len() as int)
        + " })\n    }\n\n"@
}

/// The generated `rollback`: every field rolled back in declaration order;
/// purely in-memory, never fails.
pub open spec fn spec_rollback_method(s: SchemaV) -> Seq<char> {
    "    fn rollback(&mut self) {\n"@ + spec_each_field(
        s.fields,
        s.fields.len() as int,
        "        self."@,
        ".rollback();\n"@,
    ) + "    }\n\n"@
}

/// The generated `flush`: every field appends its pending mutations into the
/// shared batch, in declaration order, short-circuiting on the first failure.
pub open spec fn spec_flush_method(s: SchemaV) -> Seq<char> {
    "    fn flush(&mut self, batch: &mut linera_views::common::Batch) -> Result<(), linera_views::views::ViewError> {\n"@
        + spec_each_field(s.fields, s.fields.len() as int, "        self."@, ".flush(batch)?;\n"@)
        + "        Ok(())\n    }\n\n"@
}

/// The generated `delete`: every field appends its key-erasure mutations into
/// the batch, in declaration order.
pub open spec fn spec_delete_method(s: SchemaV) -> Seq<char> {
    "    fn delete(self, batch: &mut linera_views::common::Batch) {\n"@ + spec_each_field(
        s.fields,
        s.fields.len() as int,
        "        self."@,
        ".delete(batch);\n"@,
    ) + "    }\n\n"@
}

/// The generated `clear`: every field reset to its default in-memory state,
/// in declaration order; never fails.
pub open spec fn spec_clear_method(s: SchemaV) -> Seq<char> {
    "    fn clear(&mut self) {\n"@ + spec_each_field(
        s.fields,
        s.fields.len() as int,
        "        self."@,
        ".clear();\n"@,
    ) + "    }\n}\n"@
}

/// The whole generated base-composite impl, method by method.
pub open spec fn spec_view_code(s: SchemaV) -> Seq<char> {
    spec_impl_header(s, "linera_views::views::View"@) + spec_context_method(s)
        + spec_load_method(s) + spec_rollback_method(s) + spec_flush_method(s)
        + spec_delete_method(s) + spec_clear_method(s)
}

fn push_load_stmts(out: &mut String, fields: &Vec<Field>)
    ensures
        final(out)@ == old(out)@ + spec_load_stmts(field_views(fields@), fields@.len() as int),
{
    let ghost fv = field_views(fields@);
    let ghost base = out@;
    proof {
        assert(out@ =~= base + spec_load_stmts(fv, 0));
    }
    for i in 0..fields.len()
        invariant
            fv == field_views(fields@),
            fv.len() == fields@.len(),
            out@ == base + spec_load_stmts(fv, i as int),
    {
        out.append("        let index = ");
        push_decimal(out, i);
        out.append(";\n        let base_key = context.derive_key(&index)?;\n        let ");
        out.append(fields[i].name.as_str());
        out.append(" = ");
        out.append(fields[i].type_head.as_str());
        out.append("::load(context.clone_with_base_key(base_key)).await?;\n");
        proof {
            assert(fv[i as int] == fields@[i as int]@);
            assert(out@ =~= base + spec_load_stmts(fv, i + 1));
        }
    }
}

/// Render the base-composite impl for a well-formed schema.
pub fn view_impl(s: &Schema) -> (out: String)
    requires
        schema_wf(s@),
    ensures
        out@ == spec_view_code(s@),
{
    proof {
        assert(s.fields@.len() == s@.fields.len());
    }
    let mut out = String::new();
    push_impl_header(&mut out, s, "linera_views::views::View");
    let ghost p0 = spec_impl_header(s@, "linera_views::views::View"@);

    out.append("    fn context(&self) -> &");
    out.append(s.context_param.as_str());
    out.append(" {\n        self.");
    out.append(s.fields[0].name.as_str());
    out.append(".context()\n    }\n\n");
    let ghost p1 = p0 + spec_context_method(s@);
    proof {
        assert(s@.fields[0] == s.fields@[0]@);
        assert(out@ =~= p1);
    }

    out.append("    async fn load(context: ");
    out.append(s.context_param.as_str());
    out.append(") -> Result<Self, linera_views::views::ViewError> {\n");
    push_load_stmts(&mut out, &s.fields);
    out.append("        Ok(Self { ");
    push_name_list(&mut out, &s.fields);
    out.append(" })\n    }\n\n");
    let ghost p2 = p1 + spec_load_method(s@);
    proof {
        assert(out@ =~= p2);
    }

    out.append("    fn rollback(&mut self) {\n");
    push_each_field(&mut out, &s.fields, "        self.", ".rollback();\n");
    out.append("    }\n\n");
    let ghost p3 = p2 + spec_rollback_method(s@);
    proof {
        assert(out@ =~= p3);
    }

    out.append(
        "    fn flush(&mut self, batch: &mut linera_views::common::Batch) -> Result<(), linera_views::views::ViewError> {\n",
    );
    push_each_field(&mut out, &s.fields, "        self.", ".flush(batch)?;\n");
    out.append("        Ok(())\n    }\n\n");
    let ghost p4 = p3 + spec_flush_method(s@);
    proof {
        assert(out@ =~= p4);
    }

    out.append("    fn delete(self, batch: &mut linera_views::common::Batch) {\n");
    push_each_field(&mut out, &s.fields, "        self.", ".delete(batch);\n");
    out.append("    }\n\n");
    let ghost p5 = p4 + spec_delete_method(s@);
    proof {
        assert(out@ =~= p5);
    }

    out.append("    fn clear(&mut self) {\n");
    push_each_field(&mut out, &s.fields, "        self.", ".clear();\n");
    out.append("    }\n}\n");
    proof {
        assert(out@ =~= p5 + spec_clear_method(s@));
        assert(out@ =~= spec_view_code(s@));
    }
    out
}

/// Compose the base behavior bundle for a declaration: validate it, then
/// emit the `View` impl, or report the build-time error.
pub fn generate_view_code(d: &StructDecl) -> (r: Result<String, DeriveError>)
    ensures
        match r {
            Ok(t) => decl_valid(d@) && t@ == spec_view_code(spec_schema(d@)),
            Err(e) => !decl_valid(d@) && error_matches(d@, e),
        },
{
    match Schema::from_declaration(d) {
        Ok(s) => Ok(view_impl(&s)),
        Err(e) => Err(e),
    }
}

/// One step of the generated `load`: the field at `position` is loaded under
/// a base key derived from exactly that position.
pub struct LoadStep {
    pub position: usize,
    pub field_name: String,
    pub type_head: String,
}

/// Spec-level image of a [`LoadStep`].
#[verifier::ext_equal]
pub struct LoadStepV {
    pub position: int,
    pub field_name: Seq<char>,
    pub type_head: Seq<char>,
}

impl View for LoadStep {
    type V = LoadStepV;

    open spec fn view(&self) -> LoadStepV {
        LoadStepV {
            position: self.position as int,
            field_name: self.field_name@,
            type_head: self.type_head@,
        }
    }
}

/// The key-derivation plan of the generated `load`: one step per field, in
/// declaration order, the step of the field at position `i` deriving its base
/// key from the index `i`.
pub open spec fn spec_load_plan(s: SchemaV) -> Seq<LoadStepV> {
    Seq::new(
        s.fields.len(),
        |i: int|
            LoadStepV {
                position: i,
                field_name: s.fields[i].name,
                type_head: s.fields[i].type_head,
            },
    )
}

/// Compute the key-derivation plan of the generated `load` for a schema.
pub fn load_plan(s: &Schema) -> (p: Vec<LoadStep>)
    ensures
        p@.len() == spec_load_plan(s@).len(),
        forall|i: int| 0 <= i < p@.len() ==> #[trigger] p@[i]@ == spec_load_plan(s@)[i],
{
    let mut p: Vec<LoadStep> = Vec::new();
    let n = s.fields.len();
    proof {
        assert(s.fields@.len() == s@.fields.len());
    }
    for i in 0..n
        invariant
            n == s.fields@.len(),
            n == s@.fields.len(),
            p@.len() == i,
            forall|j: int| 0 <= j < i ==> #[trigger] p@[j]@ == spec_load_plan(s@)[j],
    {
        let step = LoadStep {
            position: i,
            field_name: s.fields[i].name.clone(),
            type_head: s.fields[i].type_head.clone(),
        };
        proof {
            assert(s@.fields[i as int] == s.fields@[i as int]@);
            assert(step@ =~= spec_load_plan(s@)[i as int]);
        }
        p.push(step);
    }
    p
}

/// Law: for a schema with `n` fields, the generated `load` derives exactly
/// `n` base keys, one per field, from the positions `0 .. n-1` in declaration
/// order, and the derived key indices are pairwise distinct. The plan is a
/// function of the schema alone, so repeated generation from the same schema
/// derives the same positions.
pub proof fn lemma_load_plan_distinct_positions(s: SchemaV)
    ensures
        spec_load_plan(s).len() == s.fields.len(),
        forall|i: int|
            0 <= i < s.fields.len() ==> #[trigger] spec_load_plan(s)[i].position == i,
        forall|i: int, j: int|
            0 <= i < s.fields.len() && 0 <= j < s.fields.len() && i != j
                ==> #[trigger] spec_load_plan(s)[i].position != #[trigger] spec_load_plan(
                s,
            )[j].position,
{
}

} // verus!
