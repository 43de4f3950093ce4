use vstd::prelude::*;
use crate::address::{ServerUrl, routed_url, opt_text};
use crate::account::{Account, account_text};
use crate::posts::Post;
use crate::style::{yellow, painted};
use crate::text::{decimal, decimal_string, joined, texts, join_strings};

verus! {

/// What a server is to the logic: its address, and the account signed in
/// on it, if any.
pub struct ServerModel {
    pub url: Seq<char>,
    pub login: Option<(Seq<char>, Seq<char>)>,
}

/// The view of an optional account.
pub open spec fn login_view(o: Option<Account>) -> Option<(Seq<char>, Seq<char>)> {
    match o {
        Some(a) => Some(a@),
        None => None,
    }
}

/// The view of an optional text.
pub open spec fn opt_str(o: Option<&str>) -> Option<Seq<char>> {
    match o {
        Some(s) => Some(s@),
        None => None,
    }
}

/// A Terse server this client knows.
#[derive(Debug)]
pub struct Server {
    url: ServerUrl,
    login_info: Option<Account>,
}

impl View for Server {
    type V = ServerModel;

    closed spec fn view(&self) -> ServerModel {
        ServerModel { url: self.url@, login: login_view(self.login_info) }
    }
}

/// The shape in which a server is stored: its address as text.
#[derive(Debug)]
pub struct ServerSerializer {
    pub url: String,
    pub login_info: Option<Account>,
}

/// Why a server could not be added: it could not be reached, it answered
/// that it is no Terse server, or it answered with another status.
#[derive(Debug, PartialEq, Eq)]
pub enum ServerValidityError {
    CannotConnect,
    ServerIsNotATerseServer,
    Other(u16),
}

/// The reason phrase that `http` (through `reqwest::StatusCode`) knows for a
/// status code.
pub uninterp spec fn canonical_reason(code: u16) -> Option<Seq<char>>;

/// `reqwest::StatusCode::canonical_reason` of the status `code`. Claims that
/// the result is the crate's, named `canonical_reason`, and that a number
/// outside `100..=999`, which `StatusCode::from_u16` refuses, has none.
#[verifier::external_body]
fn status_reason(code: u16) -> (r: Option<String>)
    ensures
        opt_text(r) == canonical_reason(code),
        !(100 <= code <= 999) ==> r is None,
{
    match reqwest::StatusCode::from_u16(code) {
        Ok(status) => match status.canonical_reason() {
            Some(t) => Some(t.to_string()),
            None => None,
        },
        Err(_) => None,
    }
}

/// How a status code is written: its number and its reason phrase.
pub open spec fn status_text(code: u16) -> Seq<char> {
    decimal(code as nat) + seq![' '] + match canonical_reason(code) {
        Some(t) => t,
        None => "<unknown status code>"@,
    }
}

/// Writes a status code as `reqwest::StatusCode` displays it.
pub fn status_string(code: u16) -> (r: String)
    ensures
        r@ == status_text(code),
{
    proof {
        reveal_strlit(" ");
    }
    let mut s = decimal_string(code as u64);
    s.append(" ");
    match status_reason(code) {
        Some(t) => s.append(t.as_str()),
        None => s.append("<unknown status code>"),
    }
    s
}

/// A request to publish: the account to publish as and the post.
#[derive(Debug)]
pub struct PublishRequest {
    pub login_info: Account,
    pub post: Post,
}

/// The text shown when a server's name could not be fetched.
pub open spec fn no_name_text() -> Seq<char> {
    "Couldn't get name"@
}

/// The text shown for a server with no account signed in.
pub open spec fn not_signed_in_text() -> Seq<char> {
    "(Not signed in)"@
}

/// The refusal to publish without an account.
pub open spec fn cannot_publish_text() -> Seq<char> {
    "You aren't signed in to this server, so you cannot publish; try using the    trs --server login    command"@
}

/// How a server is named to the user: its address, then its name (or a
/// note that the name could not be fetched) in round brackets.
pub open spec fn identifier_text(url: Seq<char>, name: Option<Seq<char>>) -> Seq<char> {
    url + seq![' ', '('] + match name {
        Some(n) => n,
        None => no_name_text(),
    } + seq![')']
}

/// What `Server::as_string` may write: the identifier (in yellow when the
/// server is the selected one), a line break, the account line, a line break.
pub open spec fn server_text(
    r: Seq<char>,
    s: ServerModel,
    name: Option<Seq<char>>,
    show_password: bool,
    selected: bool,
) -> bool {
    exists|id: Seq<char>, login: Seq<char>|
        #![trigger id + seq!['\n'] + login + seq!['\n']]
        {
            &&& if selected {
                painted(id, identifier_text(s.url, name), seq!['3', '3'])
            } else {
                id == identifier_text(s.url, name)
            }
            &&& match s.login {
                Some(a) => exists|t: Seq<char>| account_text(t, a, show_password) && login == "Signed in as "@ + t,
                None => login == not_signed_in_text(),
            }
            &&& r == id + seq!['\n'] + login + seq!['\n']
        }
}

impl Server {
    pub fn new(url: ServerUrl, login_info: Option<Account>) -> (r: Server)
        ensures
            r@ == (ServerModel { url: url@, login: login_view(login_info) }),
    {
        Server { url, login_info }
    }

    /// The server's address.
    pub fn url(&self) -> (r: ServerUrl)
        ensures
            r@ == self@.url,
    {
        self.url.duplicate()
    }

    /// A copy of this server.
    pub fn duplicate(&self) -> (r: Server)
        ensures
            r@ == self@,
    {
        let login_info = match &self.login_info {
            Some(a) => Some(a.duplicate()),
            None => None,
        };
        Server { url: self.url.duplicate(), login_info }
    }

    /// Records the account signed in on this server.
    pub fn set_login_info(&mut self, login_info: Account)
        ensures
            final(self)@ == (ServerModel { url: old(self)@.url, login: Some(login_info@) }),
    {
        self.login_info = Some(login_info);
    }

    pub fn is_signed_in(&self) -> (r: bool)
        ensures
            r == self@.login is Some,
    {
        self.login_info.is_some()
    }

    /// The account signed in on this server, if any.
    pub fn login_info(&self) -> (r: Option<&Account>)
        ensures
            match r {
                Some(a) => self@.login == Some(a@),
                None => self@.login is None,
            },
    {
        match &self.login_info {
            Some(a) => Some(a),
            None => None,
        }
    }

    /// Decides, from the status the server answered its probe with (`None`
    /// where it could not be reached), whether it is a Terse server.
    pub fn exists_and_is_a_terse_server(response_status: Option<u16>) -> (r: Result<(), ServerValidityError>)
        ensures
            r == match response_status {
                None => Err(ServerValidityError::CannotConnect),
                Some(200) => Ok(()),
                Some(404) => Err(ServerValidityError::ServerIsNotATerseServer),
                Some(status) => Err(ServerValidityError::Other(status)),
            },
    {
        match response_status {
            None => Err(ServerValidityError::CannotConnect),
            Some(status) => {
                if status == 200 {
                    Ok(())
                } else if status == 404 {
                    Err(ServerValidityError::ServerIsNotATerseServer)
                } else {
                    Err(ServerValidityError::Other(status))
                }
            },
        }
    }

    /// The address of the route `route` on this server with the query
    /// `query`; `None` where the address cannot be parsed again.
    pub fn with_params(&self, route: &str, query: &str) -> (r: Option<String>)
        requires
            self@.url.len() + route@.len() + query@.len() < 100_000_000,
        ensures
            opt_text(r) == routed_url(self@.url, route@, query@),
    {
        self.url.with_params(route, query)
    }

    /// The query that asks for the post with the given id.
    pub fn post_query(id: u16) -> (r: String)
        ensures
            r@ == "id="@ + decimal(id as nat),
    {
        let mut s = String::from_str("id=");
        let d = decimal_string(id as u64);
        s.append(d.as_str());
        s
    }

    /// The query that searches for the given words, joined by spaces.
    pub fn search_query(words: &Vec<String>) -> (r: String)
        ensures
            r@ == "query="@ + joined(texts(words@), " "@),
    {
        let mut s = String::from_str("query=");
        let j = join_strings(words, " ");
        s.append(j.as_str());
        s
    }

    /// Prepares a post for publishing as the signed-in account; refuses
    /// where no account is signed in on this server.
    pub fn publish(&self, post: Post) -> (r: Result<PublishRequest, String>)
        ensures
            match r {
                Ok(req) => self@.login == Some(req.login_info@) && req.post@ == post@,
                Err(m) => self@.login is None && m@ == cannot_publish_text(),
            },
    {
        match &self.login_info {
            Some(a) => Ok(PublishRequest { login_info: a.duplicate(), post }),
            None => Err(String::from_str(
                "You aren't signed in to this server, so you cannot publish; try using the    trs --server login    command",
            )),
        }
    }

    /// How this server is named to the user, given its name as fetched
    /// from it (`None` where that failed).
    pub fn identifier_string(&self, server_name: Option<&str>) -> (r: String)
        ensures
            r@ == identifier_text(self@.url, opt_str(server_name)),
    {
        proof {
            reveal_strlit(" (");
            reveal_strlit(")");
        }
        let mut s = String::from_str(self.url.as_str());
        s.append(" (");
        match server_name {
            Some(n) => s.append(n),
            None => s.append("Couldn't get name"),
        }
        s.append(")");
        s
    }

    /// The signed-in account's email, this server's address and its name.
    pub fn user_string(&self, server_name: Option<&str>) -> (r: String)
        ensures
            r@ == match self@.login {
                Some(a) => a.0,
                None => not_signed_in_text(),
            } + " on "@ + self@.url + seq![' ', '('] + match opt_str(server_name) {
                Some(n) => n,
                None => no_name_text(),
            } + seq![')'],
    {
        proof {
            reveal_strlit(" (");
            reveal_strlit(")");
        }
        let mut s = match &self.login_info {
            Some(a) => a.email.clone(),
            None => String::from_str("(Not signed in)"),
        };
        s.append(" on ");
        s.append(self.url.as_str());
        s.append(" (");
        match server_name {
            Some(n) => s.append(n),
            None => s.append("Couldn't get name"),
        }
        s.append(")");
        s
    }

    /// The server as listed to the user: its identifier, highlighted when
    /// `selected`, and the account signed in on it.
    pub fn as_string(&self, server_name: Option<&str>, show_password: bool, selected: bool) -> (r: String)
        ensures
            server_text(r@, self@, opt_str(server_name), show_password, selected),
    {
        let identifier = self.identifier_string(server_name);
        let id = if selected {
            yellow(identifier.as_str())
        } else {
            identifier
        };
        let login = match &self.login_info {
            Some(a) => {
                let mut l = String::from_str("Signed in as ");
                let t = a.as_string(show_password);
                l.append(t.as_str());
                l
            },
            None => String::from_str("(Not signed in)"),
        };
        let mut s = id;
        s.append("\n");
        s.append(login.as_str());
        s.append("\n");
        proof {
            reveal_strlit("\n");
        }
        assert(s@ == id@ + seq!['\n'] + login@ + seq!['\n']);
        s
    }

    /// The shape in which this server is stored.
    pub fn to_serializer(&self) -> (r: ServerSerializer)
        ensures
            r.url@ == self@.url,
            login_view(r.login_info) == self@.login,
    {
        let s = self.duplicate();
        ServerSerializer { url: String::from_str(s.url.as_str()), login_info: s.login_info }
    }

    /// The server stored in this shape; `None` where its address is not a
    /// URL.
    pub fn from_serializer(value: ServerSerializer) -> (r: Option<Server>)
        ensures
            match crate::address::parsed_url(value.url@) {
                Some(u) => r matches Some(s) && s@ == (ServerModel { url: u, login: login_view(value.login_info) }),
                None => r is None,
            },
    {
        match ServerUrl::parse(value.url.as_str()) {
            Some(u) => Some(Server { url: u, login_info: value.login_info }),
            None => None,
        }
    }
}

impl ServerValidityError {
    /// The message shown for this error.
    pub fn message(&self) -> (r: String)
        ensures
            r@ == match self {
                ServerValidityError::CannotConnect => "I couldn't connect to the server"@,
                ServerValidityError::ServerIsNotATerseServer => "The server isn't a Terse server"@,
                ServerValidityError::Other(s) => "The server returned an unexpected status code: "@ + status_text(*s),
            },
    {
        match self {
            ServerValidityError::CannotConnect => String::from_str("I couldn't connect to the server"),
            ServerValidityError::ServerIsNotATerseServer => String::from_str("The server isn't a Terse server"),
            ServerValidityError::Other(s) => {
                let mut m = String::from_str("The server returned an unexpected status code: ");
                let d = status_string(*s);
                m.append(d.as_str());
                m
            },
        }
    }
}

/// With passwords hidden, how a server may be written does not depend on its
/// account's password: two servers that differ only there may be written as
/// exactly the same texts.
pub proof fn lemma_hidden_password_unused(
    r: Seq<char>,
    url: Seq<char>,
    email: Seq<char>,
    p1: Seq<char>,
    p2: Seq<char>,
    name: Option<Seq<char>>,
    selected: bool,
)
    ensures
        server_text(r, ServerModel { url, login: Some((email, p1)) }, name, false, selected)
            <==> server_text(r, ServerModel { url, login: Some((email, p2)) }, name, false, selected),
{
    assert forall|t: Seq<char>| #[trigger] account_text(t, (email, p1), false) == account_text(t, (email, p2), false) by {}
}

} // verus!
