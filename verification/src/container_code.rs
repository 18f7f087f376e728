//! The transactional-write composer: emits `save` and `write_delete`, which
//! assemble one atomic batch of mutations across all fields and submit it
//! exactly once.

use vstd::prelude::*;
use vstd::string::StringExecFns;

use crate::render::push_each_field;
use crate::render::push_impl_header;
use crate::render::spec_each_field;
use crate::render::spec_impl_header;
use crate::schema::DeriveError;
use crate::schema::Schema;
use crate::schema::SchemaV;
use crate::schema::StructDecl;
use crate::schema::decl_valid;
use crate::schema::error_matches;
use crate::schema::schema_wf;
use crate::schema::spec_schema;

verus! {

/// The generated `save`: build a fresh empty batch, flush every field into it
/// in declaration order (short-circuiting on the first failure, so nothing is
/// submitted on a partial flush), then submit the whole batch in one atomic
/// call.
pub open spec fn spec_save_method(s: SchemaV) -> Seq<char> {
    "    async fn save(&mut self) -> Result<(), linera_views::views::ViewError> {\n        use linera_views::common::Batch;\n        let mut batch = Batch::default();\n"@
        + spec_each_field(
        s.fields,
        s.fields.len() as int,
        "        self."@,
        ".flush(&mut batch)?;\n"@,
    ) + "        self.context().write_batch(batch).await?;\n        Ok(())\n    }\n\n"@
}

/// The generated `write_delete`: consume the aggregate, capture its context,
/// populate a deferred-build batch with every field's key-erasure mutations
/// in declaration order (a failure while populating aborts before anything is
/// submitted), then submit the whole batch atomically.
pub open spec fn spec_write_delete_method(s: SchemaV) -> Seq<char> {
    "    async fn write_delete(self) -> Result<(), linera_views::views::ViewError> {\n        use linera_views::common::Batch;\n        let context = self.context().clone();\n        let batch = Batch::build(move |batch| {\n            Box::pin(async move {\n"@
        + spec_each_field(
        s.fields,
        s.fields.len() as int,
        "                self."@,
        ".delete(batch);\n"@,
    )
        + "                Ok(())\n            })\n        })\n        .await?;\n        context.write_batch(batch).await?;\n        Ok(())\n    }\n}\n"@
}

/// The whole generated transactional-composite impl.
pub open spec fn spec_container_code(s: SchemaV) -> Seq<char> {
    spec_impl_header(s, "linera_views::views::ContainerView"@) + spec_save_method(s)
        + spec_write_delete_method(s)
}

/// Render the transactional-composite impl for a well-formed schema.
pub fn container_impl(s: &Schema) -> (out: String)
    requires
        schema_wf(s@),
    ensures
        out@ == spec_container_code(s@),
{
    let mut out = String::new();
    push_impl_header(&mut out, s, "linera_views::views::ContainerView");
    let ghost p0 = spec_impl_header(s@, "linera_views::views::ContainerView"@);

    out.append(
        "    async fn save(&mut self) -> Result<(), linera_views::views::ViewError> {\n        use linera_views::common::Batch;\n        let mut batch = Batch::default();\n",
    );
    push_each_field(&mut out, &s.fields, "        self.", ".flush(&mut batch)?;\n");
    out.append("        self.context().write_batch(batch).await?;\n        Ok(())\n    }\n\n");
    let ghost p1 = p0 + spec_save_method(s@);
    proof {
        assert(out@ =~= p1);
    }

    out.append(
        "    async fn write_delete(self) -> Result<(), linera_views::views::ViewError> {\n        use linera_views::common::Batch;\n        let context = self.context().clone();\n        let batch = Batch::build(move |batch| {\n            Box::pin(async move {\n",
    );
    push_each_field(&mut out, &s.fields, "                self.", ".delete(batch);\n");
    out.append(
        "                Ok(())\n            })\n        })\n        .await?;\n        context.write_batch(batch).await?;\n        Ok(())\n    }\n}\n",
    );
    proof {
        assert(out@ =~= p1 + spec_write_delete_method(s@));
        assert(out@ =~= spec_container_code(s@));
    }
    out
}

/// Compose the transactional behavior bundle for a declaration: validate it,
/// then emit the `ContainerView` impl, or report the build-time error.
pub fn generate_save_delete_view_code(d: &StructDecl) -> (r: Result<String, DeriveError>)
    ensures
        match r {
            Ok(t) => decl_valid(d@) && t@ == spec_container_code(spec_schema(d@)),
            Err(e) => !decl_valid(d@) && error_matches(d@, e),
        },
{
    match Schema::from_declaration(d) {
        Ok(s) => Ok(container_impl(&s)),
        Err(e) => Err(e),
    }
}

} // verus!
