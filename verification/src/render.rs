//! Text rendering helpers shared by the composers: decimal positions, the
//! generic parameter list, comma-separated field names, one statement per
//! field in declaration order, and the common impl header.

use vstd::prelude::*;
use vstd::string::StringExecFns;

use crate::schema::Field;
use crate::schema::FieldV;
use crate::schema::GenericParam;
use crate::schema::GenericParamV;
use crate::schema::SchemaV;
use crate::schema::field_views;
use crate::schema::param_views;

verus! {

/// The decimal digit character for one digit value.
pub open spec fn decimal_digit(d: nat) -> char {
    if d == 0 {
        '0'
    } else if d == 1 {
        '1'
    } else if d == 2 {
        '2'
    } else if d == 3 {
        '3'
    } else if d == 4 {
        '4'
    } else if d == 5 {
        '5'
    } else if d == 6 {
        '6'
    } else if d == 7 {
        '7'
    } else if d == 8 {
        '8'
    } else {
        '9'
    }
}

/// The decimal rendering of a non-negative integer, most significant digit
/// first, with no leading zero except for zero itself.
pub open spec fn spec_decimal(n: nat) -> Seq<char>
    decreases n,
{
    if n < 10 {
        seq![decimal_digit(n)]
    } else {
        spec_decimal(n / 10) + seq![decimal_digit(n % 10)]
    }
}

fn push_digit(out: &mut String, d: usize)
    requires
        d < 10,
    ensures
        final(out)@ == old(out)@ + seq![decimal_digit(d as nat)],
{
    if d == 0 {
        out.append("0");
        proof {
            reveal_strlit("0");
            assert(out@ =~= old(out)@ + seq![decimal_digit(d as nat)]);
        }
    } else if d == 1 {
        out.append("1");
        proof {
            reveal_strlit("1");
            assert(out@ =~= old(out)@ + seq![decimal_digit(d as nat)]);
        }
    } else if d == 2 {
        out.append("2");
        proof {
            reveal_strlit("2");
            assert(out@ =~= old(out)@ + seq![decimal_digit(d as nat)]);
        }
    } else if d == 3 {
        out.append("3");
        proof {
            reveal_strlit("3");
            assert(out@ =~= old(out)@ + seq![decimal_digit(d as nat)]);
        }
    } else if d == 4 {
        out.append("4");
        proof {
            reveal_strlit("4");
            assert(out@ =~= old(out)@ + seq![decimal_digit(d as nat)]);
        }
    } else if d == 5 {
        out.append("5");
        proof {
            reveal_strlit("5");
            assert(out@ =~= old(out)@ + seq![decimal_digit(d as nat)]);
        }
    } else if d == 6 {
        out.append("6");
        proof {
            reveal_strlit("6");
            assert(out@ =~= old(out)@ + seq![decimal_digit(d as nat)]);
        }
    } else if d == 7 {
        out.append("7");
        proof {
            reveal_strlit("7");
            assert(out@ =~= old(out)@ + seq![decimal_digit(d as nat)]);
        }
    } else if d == 8 {
        out.append("8");
        proof {
            reveal_strlit("8");
            assert(out@ =~= old(out)@ + seq![decimal_digit(d as nat)]);
        }
    } else {
        out.append("9");
        proof {
            reveal_strlit("9");
            assert(out@ =~= old(out)@ + seq![decimal_digit(d as nat)]);
        }
    }
}

/// Append the decimal rendering of `n`.
pub(crate) fn push_decimal(out: &mut String, n: usize)
    ensures
        final(out)@ == old(out)@ + spec_decimal(n as nat),
    decreases n,
{
    if n >= 10 {
        push_decimal(out, n / 10);
        push_digit(out, n % 10);
        proof {
            assert(out@ =~= old(out)@ + spec_decimal(n as nat));
        }
    } else {
        push_digit(out, n);
    }
}

/// How one generic parameter prints: a type parameter as its identifier, any
/// other parameter as the text it was declared with.
pub open spec fn param_text(p: GenericParamV) -> Seq<char> {
    match p {
        GenericParamV::TypeParam(id) => id,
        GenericParamV::OtherParam(t) => t,
    }
}

/// The comma-separated list of the first `n` generic parameters.
pub open spec fn spec_params_inner(g: Seq<GenericParamV>, n: int) -> Seq<char>
    decreases n,
{
    if n <= 0 {
        Seq::empty()
    } else if n == 1 {
        param_text(g[0])
    } else {
        spec_params_inner(g, n - 1) + ", "@ + param_text(g[n - 1])
    }
}

/// The full generic parameter list as it prints after `impl` and after the
/// struct name, angle brackets included.
pub open spec fn spec_generics_text(g: Seq<GenericParamV>) -> Seq<char> {
    "<"@ + spec_params_inner(g, g.len() as int) + ">"@
}

/// Append the generic parameter list, angle brackets included.
pub(crate) fn push_generics_text(out: &mut String, generics: &Vec<GenericParam>)
    ensures
        final(out)@ == old(out)@ + spec_generics_text(param_views(generics@)),
{
    let ghost gv = param_views(generics@);
    out.append("<");
    let ghost base = out@;
    proof {
        assert(out@ =~= base + spec_params_inner(gv, 0));
    }
    for i in 0..generics.len()
        invariant
            gv == param_views(generics@),
            gv.len() == generics@.len(),
            out@ == base + spec_params_inner(gv, i as int),
    {
        if i > 0 {
            out.append(", ");
        }
        match &generics[i] {
            GenericParam::TypeParam(id) => out.append(id.as_str()),
            GenericParam::OtherParam(t) => out.append(t.as_str()),
        }
        proof {
            assert(param_text(gv[i as int]) == match gv[i as int] {
                GenericParamV::TypeParam(id) => id,
                GenericParamV::OtherParam(t) => t,
            });
            assert(out@ =~= base + spec_params_inner(gv, i + 1));
        }
    }
    out.append(">");
    proof {
        assert(out@ =~= old(out)@ + spec_generics_text(gv));
    }
}

/// The comma-separated list of the first `n` field names.
pub open spec fn spec_name_list(fields: Seq<FieldV>, n: int) -> Seq<char>
    decreases n,
{
    if n <= 0 {
        Seq::empty()
    } else if n == 1 {
        fields[0].name
    } else {
        spec_name_list(fields, n - 1) + ", "@ + fields[n - 1].name
    }
}

/// Append the comma-separated field name list, in declaration order.
pub(crate) fn push_name_list(out: &mut String, fields: &Vec<Field>)
    ensures
        final(out)@ == old(out)@ + spec_name_list(field_views(fields@), fields@.len() as int),
{
    let ghost fv = field_views(fields@);
    let ghost base = out@;
    proof {
        assert(out@ =~= base + spec_name_list(fv, 0));
    }
    for i in 0..fields.len()
        invariant
            fv == field_views(fields@),
            fv.len() == fields@.len(),
            out@ == base + spec_name_list(fv, i as int),
    {
        if i > 0 {
            out.append(", ");
        }
        out.append(fields[i].name.as_str());
        proof {
            assert(fv[i as int] == fields@[i as int]@);
            assert(out@ =~= base + spec_name_list(fv, i + 1));
        }
    }
}

/// One statement per field, in declaration order: for each field, `pre`, then
/// the field's name, then `post`.
pub open spec fn spec_each_field(fields: Seq<FieldV>, n: int, pre: Seq<char>, post: Seq<char>) -> Seq<char>
    decreases n,
{
    if n <= 0 {
        Seq::empty()
    } else {
        spec_each_field(fields, n - 1, pre, post) + pre + fields[n - 1].name + post
    }
}

/// Append one statement per field, in declaration order.
pub(crate) fn push_each_field(out: &mut String, fields: &Vec<Field>, pre: &str, post: &str)
    ensures
        final(out)@ == old(out)@ + spec_each_field(
            field_views(fields@),
            fields@.len() as int,
            pre@,
            post@,
        ),
{
    let ghost fv = field_views(fields@);
    let ghost base = out@;
    proof {
        assert(out@ =~= base + spec_each_field(fv, 0, pre@, post@));
    }
    for i in 0..fields.len()
        invariant
            fv == field_views(fields@),
            fv.len() == fields@.len(),
            out@ == base + spec_each_field(fv, i as int, pre@, post@),
    {
        out.append(pre);
        out.append(fields[i].name.as_str());
        out.append(post);
        proof {
            assert(fv[i as int] == fields@[i as int]@);
            assert(out@ =~= base + spec_each_field(fv, i + 1, pre@, post@));
        }
    }
}

/// The header every composed impl opens with: the asynchronous trait
/// attribute, the impl line for the given trait over the aggregate's context
/// parameter, and the where clause that every generated impl requires of the
/// context.
pub open spec fn spec_impl_header(s: SchemaV, trait_path: Seq<char>) -> Seq<char> {
    "#[async_trait::async_trait]\nimpl"@ + spec_generics_text(s.generics) + " "@ + trait_path
        + "<"@ + s.context_param + "> for "@ + s.name + spec_generics_text(s.generics)
        + "\nwhere\n    "@ + s.context_param
        + ": Context + Send + Sync + Clone + 'static,\n    linera_views::views::ViewError: From<"@
        + s.context_param + "::Error>,\n{\n"@
}

/// Append the common impl header for the given trait path.
pub(crate) fn push_impl_header(out: &mut String, s: &crate::schema::Schema, trait_path: &str)
    ensures
        final(out)@ == old(out)@ + spec_impl_header(s@, trait_path@),
{
    out.append("#[async_trait::async_trait]\nimpl");
    push_generics_text(out, &s.generics);
    out.append(" ");
    out.append(trait_path);
    out.append("<");
    out.append(s.context_param.as_str());
    out.append("> for ");
    out.append(s.name.as_str());
    push_generics_text(out, &s.generics);
    out.append("\nwhere\n    ");
    out.append(s.context_param.as_str());
    out.append(": Context + Send + Sync + Clone + 'static,\n    linera_views::views::ViewError: From<");
    out.append(s.context_param.as_str());
    out.append("::Error>,\n{\n");
    proof {
        assert(out@ =~= old(out)@ + spec_impl_header(s@, trait_path@));
    }
}

} // verus!
