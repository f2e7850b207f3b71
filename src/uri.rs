use vstd::prelude::*;

use url::{ParseError, Url};

verus! {

#[verifier::external_type_specification]
#[verifier::external_body]
pub struct ExUrl(Url);

#[verifier::external_type_specification]
#[verifier::external_body]
pub struct ExParseError(ParseError);

pub assume_specification[ Url::as_str ](u: &Url) -> &str;

/// Relies on `url::Url::parse_with_params`: parses `base` as an absolute URL
/// and appends each pair, in order, to its query string.
#[verifier::external_body]
fn parse_with_params(base: &str, pairs: &Vec<(String, String)>) -> (r: Result<Url, ParseError>) {
    Url::parse_with_params(base, pairs.iter())
}

/// The query pairs of `params` that carry a value, in order.
pub open spec fn present_pairs(params: Seq<(String, Option<String>)>) -> Seq<(Seq<char>, Seq<char>)>
    decreases params.len(),
{
    if params.len() == 0 {
        Seq::empty()
    } else {
        let rest = present_pairs(params.drop_last());
        match params.last().1 {
            Some(v) => rest.push((params.last().0@, v@)),
            None => rest,
        }
    }
}

pub open spec fn pair_views(pairs: Seq<(String, String)>) -> Seq<(Seq<char>, Seq<char>)> {
    pairs.map_values(|p: (String, String)| (p.0@, p.1@))
}

/// Base of every API path.
pub const FT_API_URI_STR: &'static str = "https://api.intra.42.fr/v2";

/// Paths of the 42 Intra API.
pub struct FtClientHttpApiUri;

impl FtClientHttpApiUri {
    /// The absolute address of an API method given by its relative path.
    pub fn create_method_uri_path(method_relative_uri: &str) -> (r: String)
        ensures
            r@ == FT_API_URI_STR@ + seq!['/'] + method_relative_uri@,
    {
        let base = String::from_str(FT_API_URI_STR);
        let with_slash = base.concat("/");
        proof {
            reveal_strlit("/");
        }
        with_slash.concat(method_relative_uri)
    }

    /// The query pairs that carry a value, with the value taken out of its `Option`.
    pub fn query_pairs(params: &Vec<(String, Option<String>)>) -> (r: Vec<(String, String)>)
        ensures
            pair_views(r@) == present_pairs(params@),
    {
        let mut r: Vec<(String, String)> = Vec::new();
        let mut i: usize = 0;
        while i < params.len()
            invariant
                i <= params@.len(),
                pair_views(r@) == present_pairs(params@.subrange(0, i as int)),
            decreases params@.len() - i,
        {
            let ghost prefix = params@.subrange(0, i as int + 1);
            assert(prefix.drop_last() =~= params@.subrange(0, i as int));
            assert(prefix.last() == params@[i as int]);
            let (k, vo) = &params[i];
            match vo {
                Some(v) => {
                    let ghost before = r@;
                    r.push((k.clone(), v.clone()));
                    assert(pair_views(r@) =~= pair_views(before).push((k@, v@)));
                },
                None => {},
            }
            i = i + 1;
        }
        assert(params@.subrange(0, params@.len() as int) =~= params@);
        r
    }

    /// `base_url` with each query pair that carries a value appended, in order.
    pub fn create_url_with_params(base_url: Url, params: &Vec<(String, Option<String>)>) -> (r: Result<Url, ParseError>) {
        let pairs = FtClientHttpApiUri::query_pairs(params);
        parse_with_params(base_url.as_str(), &pairs)
    }
}

} // verus!
