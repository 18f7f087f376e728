//! The digest composers: `hash`, which absorbs every field's digest into one
//! hash state in declaration order, and `crypto_hash`, which wraps the raw
//! aggregate digest in a type-tagged serializable marker and derives a
//! content-addressed, collision-domain-separated fingerprint from it.

use vstd::prelude::*;
use vstd::string::StringExecFns;

use crate::render::push_each_field;
use crate::render::push_impl_header;
use crate::render::spec_each_field;
use crate::render::spec_impl_header;
use crate::schema::DeriveError;
use crate::schema::Schema;
use crate::schema::SchemaV;
use crate::schema::StructDecl;
use crate::schema::decl_valid;
use crate::schema::error_matches;
use crate::schema::schema_wf;
use crate::schema::spec_schema;

verus! {

/// The generated `hash`: one hash state, then for every field in declaration
/// order the field's own digest bytes are absorbed into that state, and the
/// state is finalized once after all fields. The aggregate digest is thus a
/// function of the field digests and of their declaration order alone.
pub open spec fn spec_hash_method(s: SchemaV) -> Seq<char> {
    "    type Hasher = linera_views::sha2::Sha512;\n\n    async fn hash(&mut self) -> Result<<Self::Hasher as linera_views::views::Hasher>::Output, linera_views::views::ViewError> {\n        use linera_views::views::{Hasher, HashableView};\n        use std::io::Write;\n        let mut hasher = Self::Hasher::default();\n"@
        + spec_each_field(
        s.fields,
        s.fields.len() as int,
        "        hasher.write_all(self."@,
        ".hash().await?.as_ref())?;\n"@,
    ) + "        Ok(hasher.finalize())\n    }\n}\n"@
}

/// The whole generated hashable-composite impl.
pub open spec fn spec_hash_code(s: SchemaV) -> Seq<char> {
    spec_impl_header(s, "linera_views::views::HashableView"@) + spec_hash_method(s)
}

/// The generated `crypto_hash`: compute the raw aggregate digest, wrap it in
/// a marker type named after the aggregate itself (so two aggregates of
/// different shapes can never collide on the same raw bytes), and derive the
/// content-addressed hash of the serialized wrapper.
pub open spec fn spec_crypto_method(s: SchemaV) -> Seq<char> {
    "    async fn crypto_hash(&mut self) -> Result<linera_base::crypto::CryptoHash, linera_views::views::ViewError> {\n        use linera_views::generic_array::GenericArray;\n        use linera_views::common::Batch;\n        use linera_base::crypto::{BcsHashable, CryptoHash};\n        use linera_views::views::HashableView;\n        use serde::{Serialize, Deserialize};\n        use linera_views::sha2::{Sha512, Digest};\n        #[derive(Serialize, Deserialize)]\n        struct "@
        + s.name + "Hash(GenericArray<u8, <Sha512 as Digest>::OutputSize>);\n        impl BcsHashable for "@
        + s.name + "Hash {}\n        let hash = self.hash().await?;\n        Ok(CryptoHash::new(&"@
        + s.name + "Hash(hash)))\n    }\n}\n"@
}

/// The whole generated domain-separated digest impl.
pub open spec fn spec_crypto_code(s: SchemaV) -> Seq<char> {
    spec_impl_header(s, "linera_views::views::HashableContainerView"@) + spec_crypto_method(s)
}

/// Render the hashable-composite impl for a well-formed schema.
pub fn hash_impl(s: &Schema) -> (out: String)
    requires
        schema_wf(s@),
    ensures
        out@ == spec_hash_code(s@),
{
    let mut out = String::new();
    push_impl_header(&mut out, s, "linera_views::views::HashableView");
    let ghost p0 = spec_impl_header(s@, "linera_views::views::HashableView"@);

    out.append(
        "    type Hasher = linera_views::sha2::Sha512;\n\n    async fn hash(&mut self) -> Result<<Self::Hasher as linera_views::views::Hasher>::Output, linera_views::views::ViewError> {\n        use linera_views::views::{Hasher, HashableView};\n        use std::io::Write;\n        let mut hasher = Self::Hasher::default();\n",
    );
    push_each_field(&mut out, &s.fields, "        hasher.write_all(self.", ".hash().await?.as_ref())?;\n");
    out.append("        Ok(hasher.finalize())\n    }\n}\n");
    proof {
        assert(out@ =~= p0 + spec_hash_method(s@));
        assert(out@ =~= spec_hash_code(s@));
    }
    out
}

/// Render the domain-separated digest impl for a well-formed schema.
pub fn crypto_impl(s: &Schema) -> (out: String)
    requires
        schema_wf(s@),
    ensures
        out@ == spec_crypto_code(s@),
{
    let mut out = String::new();
    push_impl_header(&mut out, s, "linera_views::views::HashableContainerView");
    let ghost p0 = spec_impl_header(s@, "linera_views::views::HashableContainerView"@);

    out.append(
        "    async fn crypto_hash(&mut self) -> Result<linera_base::crypto::CryptoHash, linera_views::views::ViewError> {\n        use linera_views::generic_array::GenericArray;\n        use linera_views::common::Batch;\n        use linera_base::crypto::{BcsHashable, CryptoHash};\n        use linera_views::views::HashableView;\n        use serde::{Serialize, Deserialize};\n        use linera_views::sha2::{Sha512, Digest};\n        #[derive(Serialize, Deserialize)]\n        struct ",
    );
    out.append(s.name.as_str());
    out.append("Hash(GenericArray<u8, <Sha512 as Digest>::OutputSize>);\n        impl BcsHashable for ");
    out.append(s.name.as_str());
    out.append("Hash {}\n        let hash = self.hash().await?;\n        Ok(CryptoHash::new(&");
    out.append(s.name.as_str());
    out.append("Hash(hash)))\n    }\n}\n");
    proof {
        assert(out@ =~= p0 + spec_crypto_method(s@));
        assert(out@ =~= spec_crypto_code(s@));
    }
    out
}

/// Compose the hashable behavior bundle for a declaration: validate it, then
/// emit the `HashableView` impl, or report the build-time error.
pub fn generate_hash_view_code(d: &StructDecl) -> (r: Result<String, DeriveError>)
    ensures
        match r {
            Ok(t) => decl_valid(d@) && t@ == spec_hash_code(spec_schema(d@)),
            Err(e) => !decl_valid(d@) && error_matches(d@, e),
        },
{
    match Schema::from_declaration(d) {
        Ok(s) => Ok(hash_impl(&s)),
        Err(e) => Err(e),
    }
}

/// Compose the domain-separated digest bundle for a declaration: validate it,
/// then emit the `HashableContainerView` impl, or report the build-time
/// error.
pub fn generate_crypto_hash_code(d: &StructDecl) -> (r: Result<String, DeriveError>)
    ensures
        match r {
            Ok(t) => decl_valid(d@) && t@ == spec_crypto_code(spec_schema(d@)),
            Err(e) => !decl_valid(d@) && error_matches(d@, e),
        },
{
    match Schema::from_declaration(d) {
        Ok(s) => Ok(crypto_impl(&s)),
        Err(e) => Err(e),
    }
}

} // verus!
