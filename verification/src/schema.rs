//! The schema model: the part of an aggregate declaration that the code
//! generator reads, and its validation into a well-formed [`Schema`].

use vstd::prelude::*;

verus! {

/// A generic parameter of the declaring struct: a type parameter, kept by its
/// identifier, or any other parameter (a lifetime, a const parameter), kept
/// only as the text it prints as.
pub enum GenericParam {
    TypeParam(String),
    OtherParam(String),
}

/// Spec-level image of a [`GenericParam`].
pub enum GenericParamV {
    TypeParam(Seq<char>),
    OtherParam(Seq<char>),
}

impl View for GenericParam {
    type V = GenericParamV;

    open spec fn view(&self) -> GenericParamV {
        match self {
            GenericParam::TypeParam(id) => GenericParamV::TypeParam(id@),
            GenericParam::OtherParam(t) => GenericParamV::OtherParam(t@),
        }
    }
}

/// The shape of a field's declared type, as far as the generator reads it: a
/// path type kept as its ordered segment identifiers, or anything else (a
/// tuple, a reference, a slice, ...), which is unsupported as a field type.
pub enum TypeShape {
    Path(Vec<String>),
    Other,
}

/// Spec-level image of a [`TypeShape`].
pub enum TypeShapeV {
    Path(Seq<Seq<char>>),
    Other,
}

/// The views of a sequence of strings.
pub open spec fn str_views(v: Seq<String>) -> Seq<Seq<char>> {
    Seq::new(v.len(), |i: int| v[i]@)
}

/// The views of a sequence of generic parameters.
pub open spec fn param_views(v: Seq<GenericParam>) -> Seq<GenericParamV> {
    Seq::new(v.len(), |i: int| v[i]@)
}

impl View for TypeShape {
    type V = TypeShapeV;

    open spec fn view(&self) -> TypeShapeV {
        match self {
            TypeShape::Path(segs) => TypeShapeV::Path(str_views(segs@)),
            TypeShape::Other => TypeShapeV::Other,
        }
    }
}

/// One declared field, before validation: its name if it has one (a tuple
/// struct field has none) and the shape of its declared type.
pub struct FieldDecl {
    pub name: Option<String>,
    pub ty: TypeShape,
}

/// Spec-level image of a [`FieldDecl`].
pub struct FieldDeclV {
    pub name: Option<Seq<char>>,
    pub ty: TypeShapeV,
}

impl View for FieldDecl {
    type V = FieldDeclV;

    open spec fn view(&self) -> FieldDeclV {
        FieldDeclV {
            name: match self.name {
                Some(n) => Some(n@),
                None => None,
            },
            ty: self.ty@,
        }
    }
}

/// The views of a sequence of field declarations.
pub open spec fn field_decl_views(v: Seq<FieldDecl>) -> Seq<FieldDeclV> {
    Seq::new(v.len(), |i: int| v[i]@)
}

/// A struct-like declaration as handed to the generator: the struct's name,
/// its generic parameters in declaration order, and its fields in declaration
/// order.
pub struct StructDecl {
    pub name: String,
    pub generics: Vec<GenericParam>,
    pub fields: Vec<FieldDecl>,
}

/// Spec-level image of a [`StructDecl`].
pub struct StructDeclV {
    pub name: Seq<char>,
    pub generics: Seq<GenericParamV>,
    pub fields: Seq<FieldDeclV>,
}

impl View for StructDecl {
    type V = StructDeclV;

    open spec fn view(&self) -> StructDeclV {
        StructDeclV {
            name: self.name@,
            generics: param_views(self.generics@),
            fields: field_decl_views(self.fields@),
        }
    }
}

/// A validated field of an aggregate: its name and the head identifier of its
/// declared type (the first path segment, which carries the capability impl).
pub struct Field {
    pub name: String,
    pub type_head: String,
}

/// Spec-level image of a [`Field`].
#[verifier::ext_equal]
pub struct FieldV {
    pub name: Seq<char>,
    pub type_head: Seq<char>,
}

impl View for Field {
    type V = FieldV;

    open spec fn view(&self) -> FieldV {
        FieldV { name: self.name@, type_head: self.type_head@ }
    }
}

/// The views of a sequence of validated fields.
pub open spec fn field_views(v: Seq<Field>) -> Seq<FieldV> {
    Seq::new(v.len(), |i: int| v[i]@)
}

/// A validated aggregate schema: the struct name, the context type parameter
/// (the first type parameter of the declaration), the full generic parameter
/// list, and the non-empty ordered field list.
pub struct Schema {
    pub name: String,
    pub context_param: String,
    pub generics: Vec<GenericParam>,
    pub fields: Vec<Field>,
}

/// Spec-level image of a [`Schema`].
#[verifier::ext_equal]
pub struct SchemaV {
    pub name: Seq<char>,
    pub context_param: Seq<char>,
    pub generics: Seq<GenericParamV>,
    pub fields: Seq<FieldV>,
}

impl View for Schema {
    type V = SchemaV;

    open spec fn view(&self) -> SchemaV {
        SchemaV {
            name: self.name@,
            context_param: self.context_param@,
            generics: param_views(self.generics@),
            fields: field_views(self.fields@),
        }
    }
}

/// A build-time failure of the declaration itself; these surface to the author
/// of the declaration, never to a runtime caller.
#[derive(Clone, Copy, Debug, PartialEq, Eq, Structural)]
pub enum DeriveError {
    /// The declaration has no type parameter, so no context type is available.
    MissingContextParameter,
    /// A field has no name (the declaration is a tuple struct).
    UnnamedField,
    /// A field's declared type is not a path, so no capability type head can
    /// be resolved for it.
    UnsupportedFieldType,
    /// The declaration has no fields; an aggregate must have at least one.
    NoFields,
}

/// The type parameter identifiers of a generic parameter sequence, in order.
pub open spec fn type_params(g: Seq<GenericParamV>) -> Seq<Seq<char>>
    decreases g.len(),
{
    if g.len() == 0 {
        Seq::empty()
    } else {
        type_params(g.drop_last()) + match g.last() {
            GenericParamV::TypeParam(id) => seq![id],
            GenericParamV::OtherParam(_) => Seq::<Seq<char>>::empty(),
        }
    }
}

/// The head identifier of a field's declared type, when one can be resolved.
pub open spec fn spec_type_head(ty: TypeShapeV) -> Option<Seq<char>> {
    match ty {
        TypeShapeV::Path(segs) => if segs.len() > 0 {
            Some(segs[0])
        } else {
            None
        },
        TypeShapeV::Other => None,
    }
}

/// Whether one declared field passes validation.
pub open spec fn field_decl_ok(f: FieldDeclV) -> bool {
    f.name is Some && spec_type_head(f.ty) is Some
}

/// The error reported for a failing field declaration.
pub open spec fn field_error(f: FieldDeclV) -> DeriveError {
    if f.name is None {
        DeriveError::UnnamedField
    } else {
        DeriveError::UnsupportedFieldType
    }
}

/// Whether a declaration validates into a schema: it has a context type
/// parameter, at least one field, and every field has a name and a resolvable
/// type head.
pub open spec fn decl_valid(d: StructDeclV) -> bool {
    &&& type_params(d.generics).len() > 0
    &&& d.fields.len() > 0
    &&& forall|i: int| 0 <= i < d.fields.len() ==> field_decl_ok(#[trigger] d.fields[i])
}

/// The validated image of one declared field (meaningful when the field
/// passes validation).
pub open spec fn spec_field(f: FieldDeclV) -> FieldV {
    FieldV {
        name: match f.name {
            Some(n) => n,
            None => Seq::empty(),
        },
        type_head: match spec_type_head(f.ty) {
            Some(h) => h,
            None => Seq::empty(),
        },
    }
}

/// The schema a valid declaration validates into.
pub open spec fn spec_schema(d: StructDeclV) -> SchemaV {
    SchemaV {
        name: d.name,
        context_param: type_params(d.generics)[0],
        generics: d.generics,
        fields: Seq::new(d.fields.len(), |i: int| spec_field(d.fields[i])),
    }
}

/// Well-formedness of a schema: a context type parameter is present and is
/// the first type parameter, and the field list is non-empty.
pub open spec fn schema_wf(s: SchemaV) -> bool {
    &&& type_params(s.generics).len() > 0
    &&& s.context_param == type_params(s.generics)[0]
    &&& s.fields.len() > 0
}

/// Which error an invalid declaration is reported with: a missing context
/// parameter first, then the first failing field in declaration order, then
/// an empty field list.
pub open spec fn error_matches(d: StructDeclV, e: DeriveError) -> bool {
    if type_params(d.generics).len() == 0 {
        e == DeriveError::MissingContextParameter
    } else if exists|k: int| 0 <= k < d.fields.len() && !field_decl_ok(#[trigger] d.fields[k]) {
        exists|k: int|
            {
                &&& 0 <= k < d.fields.len()
                &&& !field_decl_ok(#[trigger] d.fields[k])
                &&& forall|j: int| 0 <= j < k ==> field_decl_ok(#[trigger] d.fields[j])
                &&& e == field_error(d.fields[k])
            }
    } else {
        e == DeriveError::NoFields
    }
}

/// The type parameter identifiers of the declaration's generic parameter
/// list, in declaration order.
pub fn get_seq_parameter(generics: &Vec<GenericParam>) -> (r: Vec<String>)
    ensures
        str_views(r@) == type_params(param_views(generics@)),
{
    let ghost gv = param_views(generics@);
    let mut r: Vec<String> = Vec::new();
    for i in 0..generics.len()
        invariant
            str_views(r@) == type_params(gv.take(i as int)),
            gv == param_views(generics@),
            gv.len() == generics@.len(),
    {
        proof {
            assert(gv.take(i + 1).drop_last() =~= gv.take(i as int));
            assert(gv.take(i + 1).last() == generics@[i as int]@);
        }
        match &generics[i] {
            GenericParam::TypeParam(id) => {
                let ghost old_r = r@;
                r.push(id.clone());
                proof {
                    assert(str_views(r@) =~= str_views(old_r).push(generics@[i as int]->TypeParam_0@));
                    assert(str_views(r@) =~= type_params(gv.take(i + 1)));
                }
            },
            GenericParam::OtherParam(_) => {
                proof {
                    assert(str_views(r@) =~= type_params(gv.take(i + 1)));
                }
            },
        }
    }
    proof {
        assert(gv.take(generics@.len() as int) =~= gv);
    }
    r
}

/// The head identifier of a field's declared type: the first segment of a
/// path type, or nothing when the type is not a path.
pub fn get_type_field(field: &FieldDecl) -> (r: Option<String>)
    ensures
        match r {
            Some(h) => spec_type_head(field@.ty) == Some(h@),
            None => spec_type_head(field@.ty) is None,
        },
{
    match &field.ty {
        TypeShape::Path(segs) => {
            if segs.len() > 0 {
                Some(segs[0].clone())
            } else {
                None
            }
        },
        TypeShape::Other => None,
    }
}

fn clone_param(p: &GenericParam) -> (r: GenericParam)
    ensures
        r@ == p@,
{
    match p {
        GenericParam::TypeParam(id) => GenericParam::TypeParam(id.clone()),
        GenericParam::OtherParam(t) => GenericParam::OtherParam(t.clone()),
    }
}

fn clone_params(v: &Vec<GenericParam>) -> (r: Vec<GenericParam>)
    ensures
        param_views(r@) == param_views(v@),
{
    let mut r: Vec<GenericParam> = Vec::new();
    for i in 0..v.len()
        invariant
            param_views(r@) =~= param_views(v@).take(i as int),
    {
        let p = clone_param(&v[i]);
        let ghost old_r = r@;
        proof {
            assert(p@ == v@[i as int]@);
            assert(param_views(old_r).len() == old_r.len());
            assert(param_views(v@).take(i as int).len() == i as int);
            assert(old_r.len() == i as int);
        }
        r.push(p);
        proof {
            assert(r@ == old_r.push(p));
            assert forall|k: int| 0 <= k < i + 1 implies param_views(r@)[k] == param_views(
                v@,
            ).take(i + 1)[k] by {
                if k < i {
                    assert(param_views(old_r)[k] == param_views(v@).take(i as int)[k]);
                    assert(r@[k] == old_r[k]);
                } else {
                    assert(r@[k] == p);
                }
            }
            assert(param_views(r@) =~= param_views(v@).take(i + 1));
        }
    }
    proof {
        assert(param_views(v@).take(v@.len() as int) =~= param_views(v@));
    }
    r
}

impl Schema {
    /// Validate a declaration into a schema, or report the build-time error
    /// exactly as [`error_matches`] describes.
    pub fn from_declaration(d: &StructDecl) -> (r: Result<Schema, DeriveError>)
        ensures
            match r {
                Ok(s) => decl_valid(d@) && s@ == spec_schema(d@) && schema_wf(s@),
                Err(e) => !decl_valid(d@) && error_matches(d@, e),
            },
    {
        let params = get_seq_parameter(&d.generics);
        if params.len() == 0 {
            proof {
                assert(str_views(params@).len() == 0);
            }
            return Err(DeriveError::MissingContextParameter);
        }
        let context_param = params[0].clone();
        proof {
            assert(context_param@ == str_views(params@)[0]);
        }
        let mut fields: Vec<Field> = Vec::new();
        let n = d.fields.len();
        for i in 0..n
            invariant
                n == d.fields@.len(),
                fields@.len() == i,
                forall|j: int| 0 <= j < i ==> field_decl_ok(#[trigger] d@.fields[j]),
                forall|j: int|
                    0 <= j < i ==> #[trigger] field_views(fields@)[j] == spec_field(d@.fields[j]),
                context_param@ == type_params(d@.generics)[0],
                type_params(d@.generics).len() > 0,
        {
            let fd = &d.fields[i];
            proof {
                assert(fd@ == d@.fields[i as int]);
            }
            let name = match &fd.name {
                Some(n) => n.clone(),
                None => {
                    return Err(DeriveError::UnnamedField);
                },
            };
            let head = match get_type_field(fd) {
                Some(h) => h,
                None => {
                    return Err(DeriveError::UnsupportedFieldType);
                },
            };
            let f = Field { name, type_head: head };
            let ghost old_fields = fields@;
            proof {
                assert(f@ =~= spec_field(d@.fields[i as int]));
            }
            fields.push(f);
            proof {
                assert(fields@ == old_fields.push(f));
                assert forall|j: int| 0 <= j < i + 1 implies #[trigger] field_views(fields@)[j]
                    == spec_field(d@.fields[j]) by {
                    if j < i {
                        assert(field_views(old_fields)[j] == spec_field(d@.fields[j]));
                        assert(fields@[j] == old_fields[j]);
                    } else {
                        assert(fields@[j] == f);
                    }
                }
            }
        }
        if fields.len() == 0 {
            return Err(DeriveError::NoFields);
        }
        let generics = clone_params(&d.generics);
        let s = Schema { name: d.name.clone(), context_param, generics, fields };
        proof {
            assert(s@.generics =~= d@.generics);
            assert(s@.fields =~= spec_schema(d@).fields);
            assert(s@ =~= spec_schema(d@));
        }
        Ok(s)
    }
}

} // verus!
