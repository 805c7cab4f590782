use vstd::prelude::*;

verus! {

#[verifier::external_type_specification]
#[verifier::external_body]
pub struct ExUrlParseError(url::ParseError);

/// What `url::Url::parse` makes of a text: `None` where it finds no absolute
/// URL in it, else the serialisation of the URL it parsed.
pub uninterp spec fn url_parse_of(s: Seq<char>) -> Option<Seq<char>>;

/// Relies on `url::Url::parse`, which parses an absolute URL or fails, and on
/// `From<Url> for String`, which hands back the parsed URL's serialisation.
#[verifier::external_body]
pub(crate) fn parse_url(s: &str) -> (r: Result<String, url::ParseError>)
    ensures
        r is Ok <==> url_parse_of(s@) is Some,
        r matches Ok(u) ==> Some(u@) == url_parse_of(s@),
{
    url::Url::parse(s).map(String::from)
}

} // verus!
