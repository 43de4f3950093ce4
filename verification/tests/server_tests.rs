use terse::address::ServerUrl;
use terse::account::Account;
use terse::posts::Post;
use terse::server::{Server, ServerValidityError};

fn server(s: &str) -> Server {
    Server::new(ServerUrl::parse(s).unwrap(), None)
}

#[test]
fn probe_status_decides_validity() {
    assert_eq!(Server::exists_and_is_a_terse_server(Some(200)), Ok(()));
    assert_eq!(
        Server::exists_and_is_a_terse_server(Some(404)),
        Err(ServerValidityError::ServerIsNotATerseServer)
    );
    assert_eq!(Server::exists_and_is_a_terse_server(Some(500)), Err(ServerValidityError::Other(500)));
    assert_eq!(Server::exists_and_is_a_terse_server(None), Err(ServerValidityError::CannotConnect));
}

#[test]
fn validity_messages() {
    assert_eq!(ServerValidityError::CannotConnect.message(), "I couldn't connect to the server");
    assert_eq!(ServerValidityError::ServerIsNotATerseServer.message(), "The server isn't a Terse server");
    assert_eq!(
        ServerValidityError::Other(418).message(),
        "The server returned an unexpected status code: 418 I'm a teapot"
    );
    assert_eq!(
        ServerValidityError::Other(299).message(),
        "The server returned an unexpected status code: 299 <unknown status code>"
    );
}

#[test]
fn routes_and_queries() {
    let s = server("http://localhost:3000");
    assert_eq!(s.with_params("posts", &Server::post_query(7)).unwrap(), "http://localhost:3000/posts?id=7");
    assert_eq!(Server::post_query(65535), "id=65535");
    assert_eq!(Server::post_query(0), "id=0");
    let words = vec![String::from("format"), String::from("string"), String::from("python")];
    assert_eq!(Server::search_query(&words), "query=format string python");
    assert_eq!(Server::search_query(&vec![]), "query=");
    assert_eq!(s.with_params("stats", "").unwrap(), "http://localhost:3000/stats?");
    assert_eq!(s.with_params("search", "query=a b").unwrap(), "http://localhost:3000/search?query=a%20b");
}

#[test]
fn publishing_needs_an_account() {
    let mut s = server("http://a.com");
    let r = s.publish(Post::new(String::from("T"), String::from("C")));
    assert_eq!(
        r.unwrap_err(),
        "You aren't signed in to this server, so you cannot publish; try using the    trs --server login    command"
    );
    s.set_login_info(Account::new(String::from("me@x.org"), String::from("pw")));
    let req = s.publish(Post::new(String::from("T"), String::from("C"))).unwrap();
    assert_eq!(req.login_info.email, "me@x.org");
    assert_eq!(req.post.title, "T");
    assert_eq!(req.post.content, "C");
}

#[test]
fn naming_a_server() {
    colored::control::set_override(false);
    let mut s = server("http://a.com");
    assert_eq!(s.identifier_string(Some("Alpha")), "http://a.com/ (Alpha)");
    assert_eq!(s.identifier_string(None), "http://a.com/ (Couldn't get name)");
    assert_eq!(s.user_string(None), "(Not signed in) on http://a.com/ (Couldn't get name)");
    assert_eq!(s.as_string(None, false, false), "http://a.com/ (Couldn't get name)\n(Not signed in)\n");
    s.set_login_info(Account::new(String::from("me@x.org"), String::from("pw")));
    assert_eq!(s.user_string(Some("Alpha")), "me@x.org on http://a.com/ (Alpha)");
    assert_eq!(s.as_string(Some("Alpha"), false, true), "http://a.com/ (Alpha)\nSigned in as me@x.org\n");
    assert_eq!(s.as_string(Some("Alpha"), true, false), "http://a.com/ (Alpha)\nSigned in as me@x.org (pw)\n");
}

