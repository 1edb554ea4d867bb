//! Query parameters of a request as an ordered list of name/value pairs, and
//! their reading from and writing to a URI.
use vstd::prelude::*;
use crate::text::same_text;

verus! {

/// One query parameter.
pub type QueryPair = (String, String);

/// The texts of a list of query parameters.
pub open spec fn pairs_view(v: Seq<QueryPair>) -> Seq<(Seq<char>, Seq<char>)> {
    v.map_values(|p: QueryPair| (p.0@, p.1@))
}

/// The value of the first parameter called `name`.
pub open spec fn first_value(ps: Seq<(Seq<char>, Seq<char>)>, name: Seq<char>) -> Option<Seq<char>>
    decreases ps.len(),
{
    if ps.len() == 0 {
        None
    } else if ps[0].0 == name {
        Some(ps[0].1)
    } else {
        first_value(ps.drop_first(), name)
    }
}

/// The parameters not called `name`, in order.
pub open spec fn without_name(ps: Seq<(Seq<char>, Seq<char>)>, name: Seq<char>) -> Seq<(Seq<char>, Seq<char>)>
    decreases ps.len(),
{
    if ps.len() == 0 {
        ps
    } else if ps[0].0 == name {
        without_name(ps.drop_first(), name)
    } else {
        seq![ps[0]] + without_name(ps.drop_first(), name)
    }
}

/// The values of the parameters called `name`, in order.
pub open spec fn values_of(ps: Seq<(Seq<char>, Seq<char>)>, name: Seq<char>) -> Seq<Seq<char>>
    decreases ps.len(),
{
    if ps.len() == 0 {
        Seq::empty()
    } else if ps[0].0 == name {
        seq![ps[0].1] + values_of(ps.drop_first(), name)
    } else {
        values_of(ps.drop_first(), name)
    }
}

/// Some parameter is called `name`.
pub open spec fn has_name(ps: Seq<(Seq<char>, Seq<char>)>, name: Seq<char>) -> bool {
    first_value(ps, name) is Some
}

/// The parameters with every `name` removed and `name=value` appended.
pub open spec fn with_param(ps: Seq<(Seq<char>, Seq<char>)>, name: Seq<char>, value: Seq<char>) -> Seq<(Seq<char>, Seq<char>)> {
    without_name(ps, name).push((name, value))
}

pub proof fn lemma_first_value_without(ps: Seq<(Seq<char>, Seq<char>)>, name: Seq<char>, other: Seq<char>)
    ensures
        first_value(without_name(ps, name), other) == if other == name {
            None
        } else {
            first_value(ps, other)
        },
    decreases ps.len(),
{
    if ps.len() > 0 {
        lemma_first_value_without(ps.drop_first(), name, other);
        if ps[0].0 != name {
            let w = seq![ps[0]] + without_name(ps.drop_first(), name);
            assert(w.drop_first() == without_name(ps.drop_first(), name));
        }
    }
}

pub proof fn lemma_first_value_push(ps: Seq<(Seq<char>, Seq<char>)>, p: (Seq<char>, Seq<char>), name: Seq<char>)
    ensures
        first_value(ps.push(p), name) == match first_value(ps, name) {
            Some(v) => Some(v),
            None => if p.0 == name {
                Some(p.1)
            } else {
                None
            },
        },
    decreases ps.len(),
{
    if ps.len() > 0 {
        assert(ps.push(p)[0] == ps[0]);
        assert(ps.push(p).drop_first() == ps.drop_first().push(p));
        lemma_first_value_push(ps.drop_first(), p, name);
    } else {
        assert(ps.push(p)[0] == p);
        assert(ps.push(p).drop_first() == Seq::<(Seq<char>, Seq<char>)>::empty());
        assert(first_value(ps.push(p).drop_first(), name) is None);
        assert(first_value(ps, name) is None);
    }
}

/// Reading a parameter after it was set gives the value set; every other
/// parameter reads as before.
pub proof fn lemma_with_param_reads(ps: Seq<(Seq<char>, Seq<char>)>, name: Seq<char>, value: Seq<char>, other: Seq<char>)
    ensures
        first_value(with_param(ps, name, value), other) == if other == name {
            Some(value)
        } else {
            first_value(ps, other)
        },
{
    lemma_first_value_without(ps, name, other);
    lemma_first_value_push(without_name(ps, name), (name, value), other);
}

/// The value of the first parameter called `name`.
pub fn get(pairs: &Vec<QueryPair>, name: &str) -> (r: Option<String>)
    ensures
        match r {
            Some(v) => first_value(pairs_view(pairs@), name@) == Some(v@),
            None => first_value(pairs_view(pairs@), name@) is None,
        },
{
    let mut i: usize = 0;
    assert(pairs_view(pairs@).skip(0) == pairs_view(pairs@));
    while i < pairs.len()
        invariant
            i <= pairs@.len(),
            first_value(pairs_view(pairs@), name@) == first_value(pairs_view(pairs@).skip(i as int), name@),
        decreases pairs.len() - i,
    {
        let ghost rest = pairs_view(pairs@).skip(i as int);
        assert(rest[0] == (pairs@[i as int].0@, pairs@[i as int].1@));
        if same_text(pairs[i].0.as_str(), name) {
            return Some(pairs[i].1.clone());
        }
        assert(rest.drop_first() == pairs_view(pairs@).skip(i + 1));
        i = i + 1;
    }
    None
}

/// Whether some parameter is called `name`.
pub fn contains_key(pairs: &Vec<QueryPair>, name: &str) -> (r: bool)
    ensures
        r == has_name(pairs_view(pairs@), name@),
{
    get(pairs, name).is_some()
}

/// Removes every parameter called `name` and returns their values.
pub fn remove(pairs: &mut Vec<QueryPair>, name: &str) -> (r: Vec<String>)
    ensures
        pairs_view(final(pairs)@) == without_name(pairs_view(old(pairs)@), name@),
        crate::text::texts(r@) == values_of(pairs_view(old(pairs)@), name@),
{
    let mut kept: Vec<QueryPair> = Vec::new();
    let mut removed: Vec<String> = Vec::new();
    let mut taken: Vec<QueryPair> = Vec::new();
    std::mem::swap(pairs, &mut taken);
    let ghost all = pairs_view(taken@);
    let mut i: usize = 0;
    assert(all.skip(0) == all);
    assert(pairs_view(kept@) + without_name(all, name@) == without_name(all, name@));
    assert(crate::text::texts(removed@) + values_of(all, name@) == values_of(all, name@));
    while i < taken.len()
        invariant
            i <= taken@.len(),
            all == pairs_view(taken@),
            without_name(all, name@) == pairs_view(kept@) + without_name(all.skip(i as int), name@),
            values_of(all, name@) == crate::text::texts(removed@) + values_of(all.skip(i as int), name@),
        decreases taken.len() - i,
    {
        let ghost rest = all.skip(i as int);
        assert(rest[0] == (taken@[i as int].0@, taken@[i as int].1@));
        assert(rest.drop_first() == all.skip(i + 1));
        let p: QueryPair = (taken[i].0.clone(), taken[i].1.clone());
        if same_text(p.0.as_str(), name) {
            let ghost r0 = removed@;
            removed.push(p.1);
            assert(crate::text::texts(removed@) == crate::text::texts(r0).push(taken@[i as int].1@));
            assert(crate::text::texts(r0) + (seq![rest[0].1] + values_of(rest.drop_first(), name@))
                == crate::text::texts(removed@) + values_of(rest.drop_first(), name@));
        } else {
            let ghost k0 = kept@;
            kept.push(p);
            assert(pairs_view(kept@) == pairs_view(k0).push(rest[0]));
            assert(pairs_view(k0) + (seq![rest[0]] + without_name(rest.drop_first(), name@))
                == pairs_view(kept@) + without_name(rest.drop_first(), name@));
        }
        i = i + 1;
    }
    assert(all.skip(i as int).len() == 0);
    assert(pairs_view(kept@) + Seq::<(Seq<char>, Seq<char>)>::empty() == pairs_view(kept@));
    assert(crate::text::texts(removed@) + Seq::<Seq<char>>::empty() == crate::text::texts(removed@));
    *pairs = kept;
    removed
}

/// Appends the parameter `name=value`.
pub fn insert(pairs: &mut Vec<QueryPair>, name: &str, value: String)
    ensures
        pairs_view(final(pairs)@) == pairs_view(old(pairs)@).push((name@, value@)),
{
    let n = crate::text::owned(name);
    pairs.push((n, value));
    assert(pairs_view(pairs@) == pairs_view(old(pairs)@).push((name@, value@)));
}

/// Sets `name` to `value`: every earlier `name` is removed and one pair is
/// appended.
pub fn set_param(pairs: &mut Vec<QueryPair>, name: &str, value: String)
    ensures
        pairs_view(final(pairs)@) == with_param(pairs_view(old(pairs)@), name@, value@),
{
    let _ = remove(pairs, name);
    insert(pairs, name, value);
}

/// The pairs that the `application/x-www-form-urlencoded` parser of the `url`
/// crate reads from a query string (none for no query).
pub uninterp spec fn decoded_query(query: Option<Seq<char>>) -> Seq<(Seq<char>, Seq<char>)>;

/// The path and query (`path?name=value&...`) that `pathetic::Uri` writes for
/// a path and a list of pairs, encoding the pairs as
/// `application/x-www-form-urlencoded`.
pub uninterp spec fn encoded_path_query(path: Seq<char>, pairs: Seq<(Seq<char>, Seq<char>)>) -> Seq<char>;

pub open spec fn opt_str_view(q: Option<&str>) -> Option<Seq<char>> {
    match q {
        Some(s) => Some(s@),
        None => None,
    }
}

/// `pathetic::Uri::query_pairs`: the decoded pairs of a query string; named
/// `decoded_query` and not stated further.
#[verifier::external_body]
pub(crate) fn query_pairs(query: Option<&str>) -> (r: Vec<QueryPair>)
    ensures
        pairs_view(r@) == decoded_query(opt_str_view(query)),
{
    pathetic::Uri::default()
        .with_query(query)
        .query_pairs()
        .map(|(k, v)| (k.into_owned(), v.into_owned()))
        .collect()
}

/// `pathetic::Uri`: the path with the pairs as its query; named
/// `encoded_path_query` and not stated further.
#[verifier::external_body]
pub(crate) fn replace_query(path: &str, pairs: &Vec<QueryPair>) -> (r: String)
    ensures
        r@ == encoded_path_query(path@, pairs_view(pairs@)),
{
    let mut uri = pathetic::Uri::default().with_path(path);
    uri.query_pairs_mut().clear().extend_pairs(pairs.iter().map(|(k, v)| (k.as_str(), v.as_str())));
    uri.as_str().to_owned()
}

/// The parameters of a request's query string, decoded in order (none for
/// no query).
pub fn parse_query(query: Option<&str>) -> (r: Vec<QueryPair>)
    ensures
        pairs_view(r@) == decoded_query(opt_str_view(query)),
{
    query_pairs(query)
}

/// The path and query of a request with the given parameters: the path
/// alone when there are none.
pub fn with_query(path: &str, pairs: &Vec<QueryPair>) -> (r: String)
    ensures
        pairs@.len() == 0 ==> r@ == path@,
        pairs@.len() > 0 ==> r@ == encoded_path_query(path@, pairs_view(pairs@)),
{
    if pairs.len() == 0 {
        crate::text::owned(path)
    } else {
        replace_query(path, pairs)
    }
}

/// The path and query of a request after setting the parameter `param` to
/// `value`: every earlier `param` is removed and the new one comes last.
pub fn add_query_param_salvo(path: &str, query: Option<&str>, param: String, value: String) -> (r: String)
    ensures
        r@ == encoded_path_query(
            path@,
            with_param(decoded_query(opt_str_view(query)), param@, value@),
        ),
{
    let mut pairs = query_pairs(query);
    set_param(&mut pairs, param.as_str(), value);
    replace_query(path, &pairs)
}

} // verus!
