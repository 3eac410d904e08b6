//! Text assembly: concatenating and joining generated pieces.
use vstd::prelude::*;

verus! {

/// The character views of a sequence of strings.
pub open spec fn texts(parts: Seq<String>) -> Seq<Seq<char>> {
    parts.map_values(|s: String| s@)
}

/// All pieces, one after the other.
pub open spec fn concat(parts: Seq<Seq<char>>) -> Seq<char>
    decreases parts.len(),
{
    if parts.len() == 0 {
        Seq::empty()
    } else {
        concat(parts.drop_last()) + parts.last()
    }
}

/// The pieces with `sep` between each two neighbours.
pub open spec fn join(parts: Seq<Seq<char>>, sep: Seq<char>) -> Seq<char>
    decreases parts.len(),
{
    if parts.len() == 0 {
        Seq::empty()
    } else if parts.len() == 1 {
        parts[0]
    } else {
        join(parts.drop_last(), sep) + sep + parts.last()
    }
}

/// Appends every piece of `parts` to `out`.
pub fn push_all(out: &mut String, parts: &Vec<String>)
    ensures
        final(out)@ == old(out)@ + concat(texts(parts@)),
{
    let mut i: usize = 0;
    while i < parts.len()
        invariant
            i <= parts@.len(),
            out@ == old(out)@ + concat(texts(parts@.take(i as int))),
        decreases parts@.len() - i,
    {
        let ghost before = out@;
        out.append(parts[i].as_str());
        proof {
            let t = texts(parts@.take(i + 1));
            assert(t.drop_last() =~= texts(parts@.take(i as int)));
            assert(t.last() == parts@[i as int]@);
            assert(out@ =~= old(out)@ + concat(t));
        }
        i = i + 1;
    }
    assert(parts@.take(parts@.len() as int) =~= parts@);
}

/// Appends the pieces of `parts` to `out`, with `sep` between each two neighbours.
pub fn push_joined(out: &mut String, parts: &Vec<String>, sep: &str)
    ensures
        final(out)@ == old(out)@ + join(texts(parts@), sep@),
{
    let mut i: usize = 0;
    while i < parts.len()
        invariant
            i <= parts@.len(),
            out@ == old(out)@ + join(texts(parts@.take(i as int)), sep@),
        decreases parts@.len() - i,
    {
        if i > 0 {
            out.append(sep);
        }
        out.append(parts[i].as_str());
        proof {
            let t = texts(parts@.take(i + 1));
            assert(t.drop_last() =~= texts(parts@.take(i as int)));
            assert(t.last() == parts@[i as int]@);
            if i == 0 {
                assert(join(texts(parts@.take(0)), sep@) =~= Seq::<char>::empty());
                assert(out@ =~= old(out)@ + join(t, sep@));
            } else {
                assert(out@ =~= old(out)@ + join(t, sep@));
            }
        }
        i = i + 1;
    }
    assert(parts@.take(parts@.len() as int) =~= parts@);
}

/// A generic list in angle brackets: empty without items, else `<A, B>`.
pub open spec fn angled(items: Seq<Seq<char>>) -> Seq<char> {
    if items.len() == 0 {
        Seq::empty()
    } else {
        "<"@ + join(items, ", "@) + ">"@
    }
}

/// Appends the angle-bracketed list of `items` to `out`.
pub fn push_angled(out: &mut String, items: &Vec<String>)
    ensures
        final(out)@ == old(out)@ + angled(texts(items@)),
{
    if items.len() > 0 {
        out.append("<");
        push_joined(out, items, ", ");
        out.append(">");
        assert(out@ =~= old(out)@ + angled(texts(items@)));
    } else {
        assert(texts(items@).len() == 0);
        assert(out@ =~= old(out)@ + angled(texts(items@)));
    }
}

} // verus!
