use vstd::prelude::*;

verus! {

/// What `url::Url::parse` makes of a text: the serialization of the parsed
/// URL, or `None` where the text is not a URL.
pub uninterp spec fn parsed_url(input: Seq<char>) -> Option<Seq<char>>;

/// The serialization of the URL `base` (itself a serialization) after
/// `url::Url::set_path(path)` and then `url::Url::set_query(Some(query))`.
pub uninterp spec fn routed_url(base: Seq<char>, path: Seq<char>, query: Seq<char>) -> Option<Seq<char>>;

/// The view of an optional string.
pub open spec fn opt_text(o: Option<String>) -> Option<Seq<char>> {
    match o {
        Some(s) => Some(s@),
        None => None,
    }
}

/// Parses a URL with `url::Url::parse` and hands back its serialization.
/// Claims only that the result is the one the crate's parser gives for this
/// input (`None` on its error); what that serialization is, is not stated.
#[verifier::external_body]
fn parse_url_text(input: &str) -> (r: Option<String>)
    ensures
        opt_text(r) == parsed_url(input@),
{
    match url::Url::parse(input) {
        Ok(u) => Some(u.as_str().to_string()),
        Err(_) => None,
    }
}

/// Re-parses `base` with `url::Url::parse`, then calls `url::Url::set_path`
/// and `url::Url::set_query(Some(query))`, and hands back the serialization.
/// Claims only that the result is the crate's, named `routed_url` (`None`
/// where the parse fails). The setters panic when the serialization outgrows
/// `u32`; the bound on the lengths keeps clear of that.
#[verifier::external_body]
fn route_url(base: &str, path: &str, query: &str) -> (r: Option<String>)
    requires
        base@.len() + path@.len() + query@.len() < 100_000_000,
    ensures
        opt_text(r) == routed_url(base@, path@, query@),
{
    match url::Url::parse(base) {
        Ok(mut u) => {
            u.set_path(path);
            u.set_query(Some(query));
            Some(u.as_str().to_string())
        },
        Err(_) => None,
    }
}

/// The address of a server: the serialization of a parsed URL.
/// Two addresses are the same server when their serializations are equal,
/// as `url::Url` compares.
#[derive(Debug, PartialEq, Eq)]
pub struct ServerUrl {
    text: String,
}

impl View for ServerUrl {
    type V = Seq<char>;

    closed spec fn view(&self) -> Seq<char> {
        self.text@
    }
}

impl ServerUrl {
    /// Parses a URL; `None` where the text is not one.
    pub fn parse(input: &str) -> (r: Option<ServerUrl>)
        ensures
            match parsed_url(input@) {
                Some(t) => r matches Some(u) && u@ == t,
                None => r is None,
            },
    {
        match parse_url_text(input) {
            Some(t) => Some(ServerUrl { text: t }),
            None => None,
        }
    }

    /// The serialization.
    pub fn as_str(&self) -> (r: &str)
        ensures
            r@ == self@,
    {
        self.text.as_str()
    }

    /// A copy of this address.
    pub fn duplicate(&self) -> (r: ServerUrl)
        ensures
            r@ == self@,
    {
        ServerUrl { text: self.text.clone() }
    }

    /// Whether two addresses are the same.
    pub fn same_as(&self, other: &ServerUrl) -> (r: bool)
        ensures
            r == (self@ == other@),
    {
        self.text == other.text
    }

    /// The address with its path set to `route` and its query set to
    /// `query`, as the server's routes are reached; `None` where the crate
    /// cannot parse the address again.
    pub fn with_params(&self, route: &str, query: &str) -> (r: Option<String>)
        requires
            self@.len() + route@.len() + query@.len() < 100_000_000,
        ensures
            opt_text(r) == routed_url(self@, route@, query@),
    {
        route_url(self.text.as_str(), route, query)
    }
}

} // verus!
