//! The headers that go with every request to the chains' indexers.
use vstd::prelude::*;

verus! {

/// The headers as pairs of (name, value) character sequences.
pub open spec fn header_view(headers: Seq<(String, String)>) -> Seq<(Seq<char>, Seq<char>)> {
    headers.map_values(|h: (String, String)| (h.0@, h.1@))
}

/// The headers of a request: the API key first where the indexer needs one,
/// then JSON as content type and as accepted type, and `pragma: public`.
pub open spec fn spec_request_headers(api_key: Option<Seq<char>>) -> Seq<(Seq<char>, Seq<char>)> {
    let common = seq![
        ("content-type"@, "application/json"@),
        ("accept"@, "application/json"@),
        ("pragma"@, "public"@),
    ];
    match api_key {
        Some(key) => seq![("x-api-key"@, key)] + common,
        None => common,
    }
}

/// With a key, the headers are the key header and the three common ones, in
/// that order, whatever the key; without one, the three common ones alone.
pub proof fn lemma_request_headers(key: Seq<char>)
    ensures
        spec_request_headers(Some(key)) == seq![
            ("x-api-key"@, key),
            ("content-type"@, "application/json"@),
            ("accept"@, "application/json"@),
            ("pragma"@, "public"@),
        ],
        spec_request_headers(None) == seq![
            ("content-type"@, "application/json"@),
            ("accept"@, "application/json"@),
            ("pragma"@, "public"@),
        ],
        spec_request_headers(Some(key)).len() == 4,
        spec_request_headers(Some(key))[0] == ("x-api-key"@, key),
        spec_request_headers(Some(key)).drop_first() == spec_request_headers(None),
{
    assert(spec_request_headers(Some(key)) =~= seq![
        ("x-api-key"@, key),
        ("content-type"@, "application/json"@),
        ("accept"@, "application/json"@),
        ("pragma"@, "public"@),
    ]);
    assert(spec_request_headers(Some(key)).drop_first() =~= spec_request_headers(None));
}

fn header(name: &str, value: &str) -> (r: (String, String))
    ensures
        r.0@ == name@,
        r.1@ == value@,
{
    (String::from_str(name), String::from_str(value))
}

/// Builds the headers of a request to an indexer; `api_key` is the key
/// that the Algorand indexer asks for, `None` for the other indexers.
pub fn request_headers(api_key: Option<&str>) -> (r: Vec<(String, String)>)
    ensures
        header_view(r@) == spec_request_headers(
            match api_key {
                Some(key) => Some(key@),
                None => None,
            },
        ),
        api_key matches Some(key) ==> header_view(r@) == seq![
            ("x-api-key"@, key@),
            ("content-type"@, "application/json"@),
            ("accept"@, "application/json"@),
            ("pragma"@, "public"@),
        ],
        api_key is None ==> header_view(r@) == seq![
            ("content-type"@, "application/json"@),
            ("accept"@, "application/json"@),
            ("pragma"@, "public"@),
        ],
{
    let mut headers: Vec<(String, String)> = Vec::new();
    match api_key {
        Some(key) => headers.push(header("x-api-key", key)),
        None => {},
    }
    headers.push(header("content-type", "application/json"));
    headers.push(header("accept", "application/json"));
    headers.push(header("pragma", "public"));
    assert(header_view(headers@) =~= spec_request_headers(
        match api_key {
            Some(key) => Some(key@),
            None => None,
        },
    ));
    headers
}

} // verus!
