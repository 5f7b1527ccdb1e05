//! Putting texts together.
use vstd::prelude::*;
use vstd::string::StringExecFns;

verus! {

/// The characters of each of `texts`.
pub open spec fn views(texts: Seq<String>) -> Seq<Seq<char>> {
    texts.map_values(|text: String| text@)
}

/// `parts` one after the other, with `separator` before each but the first.
pub open spec fn joined(parts: Seq<Seq<char>>, separator: Seq<char>) -> Seq<char> {
    if parts.len() == 0 {
        Seq::empty()
    } else {
        parts.first() + parts.drop_first().map_values(|part: Seq<char>| separator + part).flatten()
    }
}

/// One more part adds the separator and that part at the end, or the part alone where it is the
/// first.
pub proof fn lemma_joined_push(parts: Seq<Seq<char>>, part: Seq<char>, separator: Seq<char>)
    ensures
        joined(parts.push(part), separator) == if parts.len() == 0 {
            part
        } else {
            joined(parts, separator) + separator + part
        },
{
    let prefixed = |p: Seq<char>| separator + p;
    let longer = parts.push(part);
    if parts.len() == 0 {
        assert(longer.drop_first().map_values(prefixed) =~= Seq::empty());
        assert(joined(longer, separator) =~= part);
    } else {
        let rest = parts.drop_first().map_values(prefixed);
        assert(longer.first() == parts.first());
        assert(longer.drop_first().map_values(prefixed) =~= rest.push(prefixed(part)));
        rest.lemma_flatten_push(prefixed(part));
        assert(joined(longer, separator) =~= joined(parts, separator) + separator + part);
    }
}

/// Joins `parts` with `separator`.
pub fn join(parts: &Vec<String>, separator: &str) -> (text: String)
    ensures
        text@ == joined(views(parts@), separator@),
{
    let mut text = String::new();
    let mut i: usize = 0;
    while i < parts.len()
        invariant
            i <= parts.len(),
            text@ == joined(views(parts@.take(i as int)), separator@),
        decreases parts.len() - i,
    {
        proof {
            let before = views(parts@.take(i as int));
            assert(views(parts@.take(i + 1)) =~= before.push(parts@[i as int]@));
            lemma_joined_push(before, parts@[i as int]@, separator@);
        }
        if i > 0 {
            text.append(separator);
        }
        text.append(parts[i].as_str());
        i += 1;
    }
    assert(parts@.take(i as int) =~= parts@);
    text
}

} // verus!
