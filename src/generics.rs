//! Generic parameter lists and `where` clauses of generated items.
use vstd::prelude::*;

use crate::descriptor::{generic_specs, GenericParam, GenericSpec};
use crate::text::{angled, push_angled, texts};

verus! {

/// A parameter as declared: `T: Bound`, `'a: 'b`, `const N: usize`, or the
/// bare name when it has no bounds.
pub open spec fn param_decl(g: GenericSpec) -> Seq<char> {
    let head = if g.is_const {
        "const "@ + g.name
    } else {
        g.name
    };
    if g.bounds.len() == 0 {
        head
    } else {
        head + ": "@ + g.bounds
    }
}

/// The parameter list that declares the generics (`impl<T: Clone>`).
pub open spec fn generic_params(gs: Seq<GenericSpec>) -> Seq<char> {
    angled(gs.map_values(|g: GenericSpec| param_decl(g)))
}

/// The argument list that applies the generics (`Point<T>`): names only.
pub open spec fn generic_args(gs: Seq<GenericSpec>) -> Seq<char> {
    angled(gs.map_values(|g: GenericSpec| g.name))
}

/// The `where` clause of an item: nothing when there are no predicates.
pub open spec fn where_part(predicates: Seq<char>) -> Seq<char> {
    if predicates.len() == 0 {
        Seq::empty()
    } else {
        " where "@ + predicates
    }
}

fn render_decl(g: &GenericParam) -> (r: String)
    ensures
        r@ == param_decl(g@),
{
    let mut s = String::new();
    if g.is_const {
        s.append("const ");
    }
    s.append(g.name.as_str());
    if g.bounds.as_str().unicode_len() > 0 {
        s.append(": ");
        s.append(g.bounds.as_str());
    }
    assert(s@ =~= param_decl(g@));
    s
}

/// Appends the declaring parameter list of `gs` to `out`.
pub fn push_generic_params(out: &mut String, gs: &Vec<GenericParam>)
    ensures
        final(out)@ == old(out)@ + generic_params(generic_specs(gs@)),
{
    let mut decls: Vec<String> = Vec::new();
    let mut i: usize = 0;
    while i < gs.len()
        invariant
            i <= gs@.len(),
            decls@.len() == i,
            forall|j: int| 0 <= j < i ==> #[trigger] decls@[j]@ == param_decl(gs@[j]@),
        decreases gs@.len() - i,
    {
        decls.push(render_decl(&gs[i]));
        i = i + 1;
    }
    assert(texts(decls@) =~= generic_specs(gs@).map_values(|g: GenericSpec| param_decl(g)));
    push_angled(out, &decls);
}

/// Appends the applying argument list of `gs` to `out`.
pub fn push_generic_args(out: &mut String, gs: &Vec<GenericParam>)
    ensures
        final(out)@ == old(out)@ + generic_args(generic_specs(gs@)),
{
    let mut names: Vec<String> = Vec::new();
    let mut i: usize = 0;
    while i < gs.len()
        invariant
            i <= gs@.len(),
            names@.len() == i,
            forall|j: int| 0 <= j < i ==> #[trigger] names@[j]@ == gs@[j]@.name,
        decreases gs@.len() - i,
    {
        names.push(gs[i].name.clone());
        i = i + 1;
    }
    assert(texts(names@) =~= generic_specs(gs@).map_values(|g: GenericSpec| g.name));
    push_angled(out, &names);
}

/// Appends the `where` clause with `predicates` to `out`.
pub fn push_where(out: &mut String, predicates: &String)
    ensures
        final(out)@ == old(out)@ + where_part(predicates@),
{
    if predicates.as_str().unicode_len() > 0 {
        out.append(" where ");
        out.append(predicates.as_str());
    } else {
        assert(out@ =~= old(out)@ + where_part(predicates@));
    }
}

} // verus!
