//! The four behavior bundles an aggregate declaration can ask for: the base
//! composite, the hashable composite, the transactional composite, and the
//! transactional hashable composite. Each validates the declaration once and
//! emits its impls in a fixed order.

use vstd::prelude::*;
use vstd::string::StringExecFns;

use crate::container_code::container_impl;
use crate::container_code::spec_container_code;
use crate::hash_code::crypto_impl;
use crate::hash_code::hash_impl;
use crate::hash_code::spec_crypto_code;
use crate::hash_code::spec_hash_code;
use crate::schema::DeriveError;
use crate::schema::Schema;
use crate::schema::StructDecl;
use crate::schema::decl_valid;
use crate::schema::error_matches;
use crate::schema::spec_schema;
use crate::view_code::spec_view_code;
use crate::view_code::view_impl;

verus! {

/// The base composite: `context`, `load`, `rollback`, `flush`, `delete` and
/// `clear`, composed over the fields in declaration order.
pub fn derive_view(d: &StructDecl) -> (r: Result<String, DeriveError>)
    ensures
        match r {
            Ok(t) => decl_valid(d@) && t@ == spec_view_code(spec_schema(d@)),
            Err(e) => !decl_valid(d@) && error_matches(d@, e),
        },
{
    match Schema::from_declaration(d) {
        Ok(s) => Ok(view_impl(&s)),
        Err(e) => Err(e),
    }
}

/// The hashable composite: the aggregate digest alone, absorbed field by
/// field in declaration order.
pub fn derive_hash_view(d: &StructDecl) -> (r: Result<String, DeriveError>)
    ensures
        match r {
            Ok(t) => decl_valid(d@) && t@ == spec_hash_code(spec_schema(d@)),
            Err(e) => !decl_valid(d@) && error_matches(d@, e),
        },
{
    match Schema::from_declaration(d) {
        Ok(s) => Ok(hash_impl(&s)),
        Err(e) => Err(e),
    }
}

/// The transactional composite: the base composite followed by `save` and
/// `write_delete`.
pub fn derive_container_view(d: &StructDecl) -> (r: Result<String, DeriveError>)
    ensures
        match r {
            Ok(t) => decl_valid(d@) && t@ == spec_view_code(spec_schema(d@))
                + spec_container_code(spec_schema(d@)),
            Err(e) => !decl_valid(d@) && error_matches(d@, e),
        },
{
    match Schema::from_declaration(d) {
        Ok(s) => {
            let mut t = view_impl(&s);
            let u = container_impl(&s);
            t.append(u.as_str());
            Ok(t)
        },
        Err(e) => Err(e),
    }
}

/// The transactional hashable composite: the base composite, `save` and
/// `write_delete`, the aggregate digest, and the domain-separated
/// content-addressed fingerprint.
pub fn derive_hash_container_view(d: &StructDecl) -> (r: Result<String, DeriveError>)
    ensures
        match r {
            Ok(t) => decl_valid(d@) && t@ == spec_view_code(spec_schema(d@))
                + spec_container_code(spec_schema(d@)) + spec_hash_code(spec_schema(d@))
                + spec_crypto_code(spec_schema(d@)),
            Err(e) => !decl_valid(d@) && error_matches(d@, e),
        },
{
    match Schema::from_declaration(d) {
        Ok(s) => {
            let mut t = view_impl(&s);
            let u = container_impl(&s);
            t.append(u.as_str());
            let v = hash_impl(&s);
            t.append(v.as_str());
            let w = crypto_impl(&s);
            t.append(w.as_str());
            Ok(t)
        },
        Err(e) => Err(e),
    }
}

} // verus!
