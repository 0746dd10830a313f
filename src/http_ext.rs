use vstd::prelude::*;

verus! {

#[verifier::external_type_specification]
#[verifier::external_body]
pub struct ExUri(http::Uri);

#[verifier::external_type_specification]
#[verifier::external_body]
pub struct ExInvalidUri(http::uri::InvalidUri);

/// Whether `http` accepts the text as a URI.
pub uninterp spec fn is_uri(s: Seq<char>) -> bool;

/// The URI that `http` parses from the text.
pub uninterp spec fn uri_of(s: Seq<char>) -> http::Uri;

/// Relies on `<http::Uri as FromStr>::from_str`: success and the parsed URI
/// depend on the text alone, and empty text is refused.
#[verifier::external_body]
pub(crate) fn parse_uri(s: &str) -> (r: Result<http::Uri, http::uri::InvalidUri>)
    ensures
        r is Ok <==> is_uri(s@),
        r matches Ok(u) ==> u == uri_of(s@),
        s@.len() == 0 ==> r is Err,
{
    s.parse::<http::Uri>()
}

/// The name `http` makes of the text as a header name (lower case), or
/// `None` where it refuses it.
pub uninterp spec fn header_name_of(s: Seq<char>) -> Option<Seq<char>>;

/// Relies on `http::HeaderName::from_bytes` and `HeaderName::as_str`: the
/// outcome depends on the text alone, and empty text is refused.
#[verifier::external_body]
pub(crate) fn parse_header_name(s: &str) -> (r: Option<String>)
    ensures
        r matches Some(n) ==> header_name_of(s@) == Some(n@),
        r is None ==> header_name_of(s@) is None,
        s@.len() == 0 ==> r is None,
{
    http::HeaderName::from_bytes(s.as_bytes()).ok().map(|n| n.as_str().to_owned())
}

/// A character `http` accepts in a header value: tab, or any but the ASCII
/// control characters (every byte of a non-ASCII character is above 127).
pub open spec fn header_value_char(c: char) -> bool {
    (c as u32 >= 32 && c as u32 != 127) || c == '\t'
}

pub open spec fn is_header_value(s: Seq<char>) -> bool {
    forall|i: int| 0 <= i < s.len() ==> header_value_char(#[trigger] s[i])
}

/// Relies on `http::HeaderValue::from_str`: it accepts exactly the text whose
/// bytes are all tab or at least 32 and not 127.
#[verifier::external_body]
pub(crate) fn check_header_value(s: &str) -> (r: bool)
    ensures
        r == is_header_value(s@),
{
    http::HeaderValue::from_str(s).is_ok()
}

/// Relies on `http::StatusCode::from_u16`: it accepts 100 to 999.
#[verifier::external_body]
pub(crate) fn check_status_code(code: u16) -> (r: bool)
    ensures
        r == (100 <= code && code < 1000),
{
    http::StatusCode::from_u16(code).is_ok()
}

/// An HTTP request method.
#[derive(Clone, Copy, Debug, PartialEq, Eq, Hash, Structural)]
pub enum Method {
    Options,
    Get,
    Post,
    Put,
    Delete,
    Head,
    Trace,
    Connect,
    Patch,
}

/// Why a request or response envelope could not be built.
#[derive(Clone, Debug, PartialEq, Eq)]
pub enum ConstructionError {
    InvalidHeaderName { name: String },
    InvalidHeaderValue { value: String },
    InvalidStatusCode { code: u16 },
    InvalidUri { uri: String },
}

/// A header list as (name, value) texts, in order.
pub open spec fn header_pairs(h: Seq<(String, String)>) -> Seq<(Seq<char>, Seq<char>)> {
    h.map_values(|p: (String, String)| (p.0@, p.1@))
}

pub open spec fn header_ok(p: (Seq<char>, Seq<char>)) -> bool {
    header_name_of(p.0) is Some && is_header_value(p.1)
}

pub open spec fn headers_ok(h: Seq<(Seq<char>, Seq<char>)>) -> bool {
    forall|i: int| 0 <= i < h.len() ==> header_ok(#[trigger] h[i])
}

/// The list with each name as `http` stores it.
pub open spec fn normalized_headers(h: Seq<(Seq<char>, Seq<char>)>) -> Seq<(Seq<char>, Seq<char>)> {
    h.map_values(|p: (Seq<char>, Seq<char>)| (header_name_of(p.0)->Some_0, p.1))
}

/// `e` reports the first refused header of `h`: its name where the name is
/// refused, else its value.
pub open spec fn first_header_error(h: Seq<(Seq<char>, Seq<char>)>, e: ConstructionError) -> bool {
    exists|i: int|
        0 <= i < h.len() && !header_ok(#[trigger] h[i]) && (forall|j: int| 0 <= j < i ==> header_ok(#[trigger] h[j]))
            && if header_name_of(h[i].0) is None {
            e matches ConstructionError::InvalidHeaderName { name } && name@ == h[i].0
        } else {
            e matches ConstructionError::InvalidHeaderValue { value } && value@ == h[i].1
        }
}

#[verifier::external_type_specification]
#[verifier::external_body]
#[verifier::reject_recursive_types(K)]
#[verifier::reject_recursive_types(V)]
#[verifier::reject_recursive_types(S)]
pub struct ExMultiMap<K, V, S>(multimap::MultiMap<K, V, S>);

/// Header names, each with its values in the order they were inserted.
pub type HeaderMultiMap = multimap::MultiMap<String, String>;

/// What a header multimap holds: each name with its values, in insertion order.
pub uninterp spec fn multimap_contents(m: HeaderMultiMap) -> Map<Seq<char>, Seq<Seq<char>>>;

pub open spec fn strings_view(v: Seq<String>) -> Seq<Seq<char>> {
    v.map_values(|s: String| s@)
}

pub open spec fn groups_view(g: Seq<(String, Vec<String>)>) -> Seq<(Seq<char>, Seq<Seq<char>>)> {
    g.map_values(|e: (String, Vec<String>)| (e.0@, strings_view(e.1@)))
}

/// `order` lists each name of `contents` once, with its values, in some order.
pub open spec fn is_grouping(
    contents: Map<Seq<char>, Seq<Seq<char>>>,
    order: Seq<(Seq<char>, Seq<Seq<char>>)>,
) -> bool {
    &&& forall|i: int| 0 <= i < order.len() ==> contents.contains_key(#[trigger] order[i].0) && contents[order[i].0] == order[i].1
    &&& forall|i: int, j: int| 0 <= i < j < order.len() ==> (#[trigger] order[i]).0 != (#[trigger] order[j]).0
    &&& forall|n: Seq<char>| #[trigger] contents.contains_key(n) ==> exists|i: int| 0 <= i < order.len() && (#[trigger] order[i]).0 == n
}

/// Relies on `MultiMap::into_iter`: it yields each name once with all of its
/// values in insertion order; names come in the order of the inner hash map.
#[verifier::external_body]
pub(crate) fn multimap_groups(m: HeaderMultiMap) -> (r: Vec<(String, Vec<String>)>)
    ensures
        is_grouping(multimap_contents(m), groups_view(r@)),
{
    m.into_iter().collect()
}

/// One (name, value) pair per value, group after group.
pub open spec fn flatten_groups(g: Seq<(Seq<char>, Seq<Seq<char>>)>) -> Seq<(Seq<char>, Seq<char>)>
    decreases g.len(),
{
    if g.len() == 0 {
        Seq::empty()
    } else {
        flatten_groups(g.drop_last()) + g.last().1.map_values(|v: Seq<char>| (g.last().0, v))
    }
}

/// `h` lists the pairs of `m`: name by name, in some order of the names,
/// each name's values in insertion order.
pub open spec fn multimap_pairs_in(m: HeaderMultiMap, h: Seq<(Seq<char>, Seq<char>)>) -> bool {
    exists|order: Seq<(Seq<char>, Seq<Seq<char>>)>| is_grouping(multimap_contents(m), order) && h == flatten_groups(order)
}

/// The header pairs of a multimap, name by name, each name's values in order.
pub fn multimap_pairs(headers: HeaderMultiMap) -> (r: Vec<(String, String)>)
    ensures
        multimap_pairs_in(headers, header_pairs(r@)),
{
    let groups = multimap_groups(headers);
    let ghost g = groups_view(groups@);
    let mut out: Vec<(String, String)> = Vec::new();
    let mut i: usize = 0;
    while i < groups.len()
        invariant
            g == groups_view(groups@),
            i <= groups@.len(),
            header_pairs(out@) == flatten_groups(g.take(i as int)),
        decreases groups@.len() - i,
    {
        let name = &groups[i].0;
        let values = &groups[i].1;
        let ghost base = header_pairs(out@);
        assert(g[i as int] == (name@, strings_view(values@)));
        let mut j: usize = 0;
        while j < values.len()
            invariant
                g == groups_view(groups@),
                i < groups@.len(),
                name == &groups@[i as int].0,
                values == &groups@[i as int].1,
                j <= values@.len(),
                header_pairs(out@) == base + strings_view(values@).take(j as int).map_values(|v: Seq<char>| (name@, v)),
            decreases values@.len() - j,
        {
            let ghost prev = out@;
            out.push((name.clone(), values[j].clone()));
            proof {
                assert(header_pairs(out@) =~= header_pairs(prev).push((name@, values@[j as int]@)));
                assert(strings_view(values@).take(j + 1).map_values(|v: Seq<char>| (name@, v)) =~= strings_view(values@).take(j as int).map_values(|v: Seq<char>| (name@, v)).push((name@, values@[j as int]@)));
            }
            j = j + 1;
        }
        proof {
            assert(g.take(i + 1).drop_last() =~= g.take(i as int));
            assert(strings_view(values@).take(j as int) =~= strings_view(values@));
        }
        i = i + 1;
    }
    assert(g.take(i as int) =~= g);
    out
}

/// Validates every header, in order, and gives the list with names as `http`
/// stores them. Values of one name keep their order; so does the whole list.
pub fn header_map(headers: &Vec<(String, String)>) -> (r: Result<Vec<(String, String)>, ConstructionError>)
    ensures
        r is Ok <==> headers_ok(header_pairs(headers@)),
        r matches Ok(h) ==> header_pairs(h@) == normalized_headers(header_pairs(headers@)),
        r matches Err(e) ==> first_header_error(header_pairs(headers@), e),
{
    let ghost src = header_pairs(headers@);
    let mut out: Vec<(String, String)> = Vec::new();
    let mut i: usize = 0;
    while i < headers.len()
        invariant
            src == header_pairs(headers@),
            i <= headers@.len(),
            out@.len() == i,
            forall|j: int| 0 <= j < i ==> header_ok(#[trigger] src[j]),
            forall|j: int| 0 <= j < i ==> (#[trigger] header_pairs(out@)[j]) == normalized_headers(src)[j],
        decreases headers@.len() - i,
    {
        let name = &headers[i].0;
        let value = &headers[i].1;
        assert(src[i as int] == (name@, value@));
        match parse_header_name(name.as_str()) {
            None => {
                assert(!header_ok(src[i as int]));
                return Err(ConstructionError::InvalidHeaderName { name: name.clone() });
            },
            Some(n) => {
                if !check_header_value(value.as_str()) {
                    assert(!header_ok(src[i as int]));
                    return Err(ConstructionError::InvalidHeaderValue { value: value.clone() });
                }
                let ghost prev = out@;
                out.push((n, value.clone()));
                proof {
                    assert forall|j: int| 0 <= j < i + 1 implies (#[trigger] header_pairs(out@)[j]) == normalized_headers(src)[j] by {
                        assert(header_pairs(out@)[j] == (out@[j].0@, out@[j].1@));
                        if j < i {
                            assert(out@[j] == prev[j]);
                            assert(header_pairs(prev)[j] == (prev[j].0@, prev[j].1@));
                        }
                    }
                }
            },
        }
        i = i + 1;
    }
    assert(header_pairs(out@) =~= normalized_headers(src));
    Ok(out)
}

} // verus!
