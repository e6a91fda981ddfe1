//! Device descriptors in URI form: the path, which names the device, and the
//! query, which carries its parameters.

use url::Url;
use vstd::prelude::*;

verus! {

/// What a descriptor holds once it has been read as a URI.
#[derive(Debug, PartialEq, Eq)]
pub struct ParsedUri {
    /// The URI in its normalised written form.
    pub uri: String,
    /// The path, percent-encoded, with its leading slash if it has one.
    pub path: String,
    /// The pairs of the query in the order in which they are written, decoded.
    pub query: Vec<(String, String)>,
}

/// `ParsedUri` with its strings as sequences of characters.
pub struct UriView {
    pub uri: Seq<char>,
    pub path: Seq<char>,
    pub query: Seq<(Seq<char>, Seq<char>)>,
}

/// The pairs of a query with their strings as sequences of characters.
pub open spec fn query_view(query: Seq<(String, String)>) -> Seq<(Seq<char>, Seq<char>)> {
    Seq::new(query.len(), |i: int| (query[i].0@, query[i].1@))
}

impl View for ParsedUri {
    type V = UriView;

    open spec fn view(&self) -> UriView {
        UriView { uri: self.uri@, path: self.path@, query: query_view(self.query@) }
    }
}

/// What the `url` crate reads out of `text`: `None` where it does not parse
/// as an absolute URL, else the serialisation, the path and the decoded
/// pairs of the query.
pub uninterp spec fn url_parts(text: Seq<char>) -> Option<UriView>;

/// `Url::parse` of the `url` crate, with the parsed value handed out through
/// its accessors `Display`, `path` and `query_pairs`. The contract only names
/// the outcome: the same text always gives the same parts.
#[verifier::external_body]
pub(crate) fn parse_uri(text: &str) -> (parts: Option<ParsedUri>)
    ensures
        match parts {
            Some(p) => url_parts(text@) == Some(p@),
            None => url_parts(text@) is None,
        },
{
    match Url::parse(text) {
        Ok(url) => Some(
            ParsedUri {
                uri: url.to_string(),
                path: url.path().to_string(),
                query: url.query_pairs().into_owned().collect(),
            },
        ),
        Err(_) => None,
    }
}

/// Whether two strings hold the same characters.
pub fn str_eq(a: &str, b: &str) -> (same: bool)
    ensures
        same == (a@ == b@),
{
    let left = a.to_owned();
    let right = b.to_owned();
    left == right
}

/// A path names a device where it starts with a slash and at least one of
/// the segments that the slashes after it separate is not empty.
pub open spec fn spec_has_segment(path: Seq<char>) -> bool {
    &&& path.len() > 0
    &&& path[0] == '/'
    &&& exists|i: int| 1 <= i < path.len() && path[i] != '/'
}

/// The device name in a path: the path without its leading slash.
pub open spec fn spec_path_name(path: Seq<char>) -> Seq<char> {
    path.skip(1)
}

pub fn has_segment(path: &str) -> (found: bool)
    ensures
        found == spec_has_segment(path@),
{
    let mut first = true;
    let mut found = false;
    for c in it: path.chars()
        invariant
            it.seq() == path@,
            first <==> it.index() == 0,
            !first ==> path@[0] == '/',
            found <==> exists|i: int| 1 <= i < it.index() && path@[i] != '/',
    {
        if first {
            if c != '/' {
                return false;
            }
            first = false;
        } else if c != '/' {
            found = true;
        }
    }
    found
}

/// The value that a query gives to `key`. Where the key is written more than
/// once, the pair written last decides.
pub open spec fn spec_query_value(query: Seq<(Seq<char>, Seq<char>)>, key: Seq<char>) -> Option<
    Seq<char>,
>
    decreases query.len(),
{
    if query.len() == 0 {
        None
    } else if query.last().0 == key {
        Some(query.last().1)
    } else {
        spec_query_value(query.drop_last(), key)
    }
}

pub fn query_value<'a>(query: &'a Vec<(String, String)>, key: &str) -> (value: Option<&'a String>)
    ensures
        match value {
            Some(v) => spec_query_value(query_view(query@), key@) == Some(v@),
            None => spec_query_value(query_view(query@), key@) is None,
        },
{
    let ghost pairs = query_view(query@);
    let mut i = query.len();
    assert(pairs.take(i as int) =~= pairs);
    while i > 0
        invariant
            i <= query.len(),
            pairs == query_view(query@),
            spec_query_value(pairs, key@) == spec_query_value(pairs.take(i as int), key@),
        decreases i,
    {
        i = i - 1;
        assert(pairs.take(i + 1).last() == pairs[i as int]);
        assert(pairs.take(i + 1).drop_last() =~= pairs.take(i as int));
        if str_eq(query[i].0.as_str(), key) {
            return Some(&query[i].1);
        }
    }
    assert(pairs.take(0) =~= Seq::empty());
    None
}

/// The first key of a query, in written order, that is not among `known`.
pub open spec fn spec_first_unknown(
    query: Seq<(Seq<char>, Seq<char>)>,
    known: Seq<Seq<char>>,
) -> Option<Seq<char>>
    decreases query.len(),
{
    if query.len() == 0 {
        None
    } else if !known.contains(query[0].0) {
        Some(query[0].0)
    } else {
        spec_first_unknown(query.drop_first(), known)
    }
}

/// The keys of a list of parameter names.
pub open spec fn names_view(names: Seq<&'static str>) -> Seq<Seq<char>> {
    Seq::new(names.len(), |i: int| names[i]@)
}

pub fn is_listed(names: &Vec<&'static str>, key: &str) -> (listed: bool)
    ensures
        listed == names_view(names@).contains(key@),
{
    let ghost keys = names_view(names@);
    let mut i: usize = 0;
    while i < names.len()
        invariant
            i <= names.len(),
            keys == names_view(names@),
            forall|j: int| 0 <= j < i ==> keys[j] != key@,
        decreases names.len() - i,
    {
        if str_eq(names[i], key) {
            assert(keys[i as int] == key@);
            return true;
        }
        i = i + 1;
    }
    false
}

pub fn first_unknown<'a>(query: &'a Vec<(String, String)>, known: &Vec<&'static str>) -> (key:
    Option<&'a String>)
    ensures
        match key {
            Some(k) => spec_first_unknown(query_view(query@), names_view(known@)) == Some(k@),
            None => spec_first_unknown(query_view(query@), names_view(known@)) is None,
        },
{
    let ghost pairs = query_view(query@);
    let ghost keys = names_view(known@);
    let mut i: usize = 0;
    assert(pairs.skip(0) =~= pairs);
    while i < query.len()
        invariant
            i <= query.len(),
            pairs == query_view(query@),
            keys == names_view(known@),
            spec_first_unknown(pairs, keys) == spec_first_unknown(pairs.skip(i as int), keys),
        decreases query.len() - i,
    {
        assert(pairs.skip(i as int)[0] == pairs[i as int]);
        assert(pairs.skip(i as int).drop_first() =~= pairs.skip(i + 1));
        if !is_listed(known, query[i].0.as_str()) {
            return Some(&query[i].0);
        }
        i = i + 1;
    }
    None
}

/// A query with a key outside `known` has a first such key.
pub proof fn lemma_first_unknown(
    query: Seq<(Seq<char>, Seq<char>)>,
    known: Seq<Seq<char>>,
)
    ensures
        spec_first_unknown(query, known) is None <==> forall|i: int|
            0 <= i < query.len() ==> known.contains(#[trigger] query[i].0),
        spec_first_unknown(query, known) matches Some(key) ==> !known.contains(key) && exists|
            i: int,
        | 0 <= i < query.len() && #[trigger] query[i].0 == key,
    decreases query.len(),
{
    if query.len() > 0 {
        let rest = query.drop_first();
        lemma_first_unknown(rest, known);
        if known.contains(query[0].0) {
            assert forall|i: int| 0 <= i < rest.len() implies rest[i] == query[i + 1] by {}
            if spec_first_unknown(rest, known) is None {
                assert forall|i: int| 0 <= i < query.len() implies known.contains(
                    #[trigger] query[i].0,
                ) by {
                    if i > 0 {
                        assert(rest[i - 1] == query[i]);
                    }
                }
            } else {
                let key = spec_first_unknown(rest, known)->0;
                let i = choose|i: int| 0 <= i < rest.len() && #[trigger] rest[i].0 == key;
                assert(query[i + 1].0 == key);
            }
        } else {
            assert(query[0].0 == query[0].0);
        }
    }
}

/// The first unknown key is found at or before any place that holds one, and
/// is the key of that place where every key before it is known.
pub proof fn lemma_first_unknown_at(
    query: Seq<(Seq<char>, Seq<char>)>,
    known: Seq<Seq<char>>,
    at: int,
)
    requires
        0 <= at < query.len(),
        !known.contains(query[at].0),
    ensures
        spec_first_unknown(query, known) matches Some(key) && exists|i: int|
            0 <= i <= at && #[trigger] query[i].0 == key,
        (forall|i: int| 0 <= i < at ==> known.contains(#[trigger] query[i].0))
            ==> spec_first_unknown(query, known) == Some(query[at].0),
    decreases at,
{
    if known.contains(query[0].0) {
        let rest = query.drop_first();
        assert(at > 0);
        assert(rest[at - 1] == query[at]);
        lemma_first_unknown_at(rest, known, at - 1);
        let key = spec_first_unknown(rest, known)->0;
        let i = choose|i: int| 0 <= i <= at - 1 && #[trigger] rest[i].0 == key;
        assert(query[i + 1].0 == key);
        if forall|i: int| 0 <= i < at ==> known.contains(#[trigger] query[i].0) {
            assert forall|i: int| 0 <= i < at - 1 implies known.contains(
                #[trigger] rest[i].0,
            ) by {
                assert(rest[i] == query[i + 1]);
            }
        }
    } else {
        assert(query[0].0 == query[0].0);
    }
}

} // verus!
