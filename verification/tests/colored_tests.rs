use terse::address::ServerUrl;
use terse::account::Account;
use terse::server::Server;

#[test]
fn colored_output_wraps_the_text() {
    colored::control::set_override(true);
    let s = Server::new(ServerUrl::parse("http://a.com").unwrap(), None);
    assert_eq!(
        s.as_string(Some("A"), false, true),
        "\u{1b}[33mhttp://a.com/ (A)\u{1b}[0m\n(Not signed in)\n"
    );
    let a = Account::new(String::from("e"), String::from("p"));
    assert_eq!(a.as_string(true), "\u{1b}[31me\u{1b}[0m (\u{1b}[34mp\u{1b}[0m)");
    colored::control::set_override(false);
    assert_eq!(a.as_string(true), "e (p)");
    assert_eq!(a.as_string(false), "e");
}
