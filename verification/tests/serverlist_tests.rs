use terse::address::ServerUrl;
use terse::account::Account;
use terse::server::{Server, ServerValidityError, ServerSerializer};
use terse::serverlist::{
    AddServerError, RemoveServerError, SelectedServerError, SerializationError, ServerList,
    ServerListSerializer,
};

fn url(s: &str) -> ServerUrl {
    ServerUrl::parse(s).expect("test url parses")
}

fn urls(list: &ServerList) -> Vec<String> {
    list.servers.iter().map(|s| s.url().as_str().to_string()).collect()
}

#[test]
fn parse_normalizes_and_refuses() {
    assert_eq!(url("http://example.com").as_str(), "http://example.com/");
    assert_eq!(url("HTTP://Example.COM/a").as_str(), "http://example.com/a");
    assert!(ServerUrl::parse("not a url").is_none());
    assert!(url("http://a.com").same_as(&url("http://a.com/")));
    assert!(!url("http://a.com").same_as(&url("http://b.com")));
}

#[test]
fn first_server_added_is_selected() {
    let mut list = ServerList::empty();
    assert_eq!(list.selected_index(), None);
    {
        let s = list.add_server(url("http://a.com"), false, Ok(())).ok().unwrap();
        assert_eq!(s.url().as_str(), "http://a.com/");
    }
    assert_eq!(list.selected_index(), Some(0));
    list.add_server(url("http://b.com"), false, Ok(())).ok().unwrap();
    assert_eq!(list.selected_index(), Some(0));
    assert_eq!(urls(&list), vec!["http://a.com/", "http://b.com/"]);
    assert!(list.is_well_formed());
}

#[test]
fn add_with_switch_selects_new_server() {
    let mut list = ServerList::empty();
    list.add_server(url("http://a.com"), false, Ok(())).ok().unwrap();
    let s = list.add_server(url("http://b.com"), true, Ok(())).ok().unwrap();
    assert_eq!(s.url().as_str(), "http://b.com/");
    assert_eq!(list.selected_index(), Some(1));
}

#[test]
fn adding_a_known_server_is_refused() {
    let mut list = ServerList::empty();
    list.add_server(url("http://a.com"), false, Ok(())).ok().unwrap();
    let r = list.add_server(url("http://a.com/"), true, Ok(()));
    assert!(matches!(r, Err(AddServerError::ServerAlreadyExists)));
    assert_eq!(urls(&list), vec!["http://a.com/"]);
    assert_eq!(list.selected_index(), Some(0));
}

#[test]
fn failed_probe_leaves_list_unchanged() {
    let mut list = ServerList::empty();
    let r = list.add_server(url("http://a.com"), false, Err(ServerValidityError::ServerIsNotATerseServer));
    assert!(matches!(r, Err(AddServerError::Other(ServerValidityError::ServerIsNotATerseServer))));
    assert_eq!(list.len(), 0);
    assert_eq!(list.selected_index(), None);
}

#[test]
fn remove_moves_selection_back() {
    let mut list = ServerList::empty();
    list.add_server(url("http://a.com"), false, Ok(())).ok().unwrap();
    list.add_server(url("http://b.com"), false, Ok(())).ok().unwrap();
    list.add_server(url("http://c.com"), true, Ok(())).ok().unwrap();
    assert_eq!(list.selected_index(), Some(2));
    assert_eq!(list.remove_server(url("http://c.com")), Ok(()));
    assert_eq!(urls(&list), vec!["http://a.com/", "http://b.com/"]);
    assert_eq!(list.selected_index(), Some(1));
    assert_eq!(list.remove_server(url("http://a.com")), Ok(()));
    assert_eq!(urls(&list), vec!["http://b.com/"]);
    assert_eq!(list.selected_index(), Some(0));
    assert_eq!(list.remove_server(url("http://b.com")), Ok(()));
    assert_eq!(list.len(), 0);
    assert_eq!(list.selected_index(), None);
}

#[test]
fn removing_an_unknown_server_is_refused() {
    let mut list = ServerList::empty();
    list.add_server(url("http://a.com"), false, Ok(())).ok().unwrap();
    assert_eq!(list.remove_server(url("http://z.com")), Err(RemoveServerError::ServerNotInList));
    assert_eq!(urls(&list), vec!["http://a.com/"]);
}

#[test]
fn add_then_remove_gives_back_the_list() {
    let mut list = ServerList::empty();
    list.add_server(url("http://a.com"), false, Ok(())).ok().unwrap();
    list.add_server(url("http://b.com"), false, Ok(())).ok().unwrap();
    let before = urls(&list);
    list.add_server(url("http://new.com"), true, Ok(())).ok().unwrap();
    list.remove_server(url("http://new.com")).unwrap();
    assert_eq!(urls(&list), before);
}

#[test]
fn set_server_checks_bounds() {
    let mut list = ServerList::empty();
    assert!(matches!(list.set_server(0), Err(SelectedServerError::NoServers)));
    list.add_server(url("http://a.com"), false, Ok(())).ok().unwrap();
    list.add_server(url("http://b.com"), false, Ok(())).ok().unwrap();
    assert!(matches!(list.set_server(2), Err(SelectedServerError::OutOfBounds { idx: 2, max: 1 })));
    assert_eq!(list.selected_index(), Some(0));
    {
        let s = list.set_server(1).ok().unwrap();
        assert_eq!(s.url().as_str(), "http://b.com/");
    }
    assert_eq!(list.selected_index(), Some(1));
    assert_eq!(list.clone_selected().unwrap().url().as_str(), "http://b.com/");
}

#[test]
fn selected_changes_in_place() {
    let mut list = ServerList::empty();
    assert!(matches!(list.selected(), Err(SelectedServerError::NoServers)));
    assert!(matches!(list.clone_selected(), Err(SelectedServerError::NoServers)));
    list.add_server(url("http://a.com"), false, Ok(())).ok().unwrap();
    list.selected()
        .ok()
        .unwrap()
        .set_login_info(Account::new(String::from("me@x.org"), String::from("pw")));
    assert!(list.clone_selected().unwrap().is_signed_in());
}

#[test]
fn listing_names_every_server() {
    colored::control::set_override(false);
    let mut list = ServerList::empty();
    let names: Vec<Option<String>> = vec![];
    assert_eq!(list.as_string(&names, false), "Servers: 0\n");
    list.add_server(url("http://a.com"), false, Ok(())).ok().unwrap();
    list.add_server(url("http://b.com"), false, Ok(())).ok().unwrap();
    list.servers[1].set_login_info(Account::new(String::from("me@x.org"), String::from("pw")));
    let names = vec![Some(String::from("Alpha")), None];
    assert_eq!(
        list.as_string(&names, true),
        "Servers: 2\nCurrent server: http://a.com/ (Alpha)\n(Not signed in)\n\n\
         0: http://a.com/ (Alpha)\n(Not signed in)\n\n\
         1: http://b.com/ (Couldn't get name)\nSigned in as me@x.org (pw)\n\n"
    );
}

#[test]
fn serializer_round_trip() {
    let mut list = ServerList::empty();
    list.add_server(url("http://a.com"), false, Ok(())).ok().unwrap();
    let ser = list.to_serializer();
    assert_eq!(ser.selected, Some(0));
    let back = ServerList::from_serializer(ser);
    assert_eq!(urls(&back), vec!["http://a.com/"]);
    let broken = ServerList::from_serializer(ServerListSerializer { servers: vec![], selected: Some(3) });
    assert!(!broken.is_well_formed());
    let s = Server::from_serializer(ServerSerializer { url: String::from("http://q.org"), login_info: None }).unwrap();
    assert_eq!(s.to_serializer().url, "http://q.org/");
    assert!(Server::from_serializer(ServerSerializer { url: String::from("::"), login_info: None }).is_none());
}

#[test]
fn error_messages() {
    assert_eq!(
        SelectedServerError::NoServers.message(),
        "You don't have any servers; add one with `trs --server add https://url-to-a-terse-server`"
    );
    assert_eq!(
        SelectedServerError::OutOfBounds { idx: 12, max: 3 }.message(),
        "You don't have a server with index 12; try an index from 0-3"
    );
    assert_eq!(AddServerError::ServerAlreadyExists.message(), "You already have that server saved");
    assert_eq!(AddServerError::CantParseUrl.message(), "I wasn't able to parse the url");
    assert_eq!(
        AddServerError::Other(ServerValidityError::CannotConnect).message(),
        "I wasn't able to add the server;\nI couldn't connect to the server"
    );
    assert_eq!(
        AddServerError::SerializationError(SerializationError::CantWriteToFile).message(),
        "I had a problem with storage;\nI couldn't save to the storage file"
    );
    assert_eq!(
        SerializationError::CouldntCreateFile(String::from("disk full")).message(),
        "I couldn't find the storage file, and I had trouble creating it:\ndisk full"
    );
    assert_eq!(
        SerializationError::BadDataInFile.message(),
        "I tried to read the storage file, but it contained bad data"
    );
    assert_eq!(
        RemoveServerError::ServerNotInList.message(),
        "I couldn't find the server you wanted to remove in the list;\nTry running --server list to see all the servers you have"
    );
}

#[test]
fn storage_text_decides_the_list() {
    let empty = ServerList::from_config_text("", None).ok().unwrap();
    assert_eq!(empty.len(), 0);
    assert_eq!(empty.selected_index(), None);
    assert_eq!(ServerList::from_config_text("{", None).err(), Some(SerializationError::BadDataInFile));
    let odd = ServerList::from_serializer(ServerListSerializer { servers: vec![], selected: Some(1) });
    let kept = ServerList::from_config_text("{}", Some(odd)).ok().unwrap();
    assert_eq!(kept.len(), 0);
    assert_eq!(kept.selected_index(), Some(1));
    let mut good = ServerList::empty();
    good.add_server(url("http://a.com"), false, Ok(())).ok().unwrap();
    let l = ServerList::from_config_text("{}", Some(good)).ok().unwrap();
    assert_eq!(urls(&l), vec!["http://a.com/"]);
}

fn stored(urls_in: &[&str], selected: Option<usize>) -> ServerList {
    let servers = urls_in.iter().map(|u| Server::new(url(u), None)).collect();
    ServerList::from_serializer(ServerListSerializer { servers, selected })
}

#[test]
fn stored_list_without_selection_is_loaded_and_usable() {
    let l = ServerList::from_config_text("{...}", Some(stored(&["http://a.com", "http://b.com"], None))).ok().unwrap();
    assert_eq!(urls(&l), vec!["http://a.com/", "http://b.com/"]);
    assert_eq!(l.selected_index(), None);
    assert!(l.selection_valid());
    assert!(!l.is_well_formed());
    assert_eq!(l.clone_selected().err(), Some(SelectedServerError::NoServers));
    let mut l = l;
    assert_eq!(l.selected().err(), Some(SelectedServerError::NoServers));
    // Selecting a server repairs the list.
    l.set_server(1).ok().unwrap();
    assert_eq!(l.selected_index(), Some(1));
    assert!(l.is_well_formed());
}

#[test]
fn stored_selection_past_the_end_is_clamped_by_removal() {
    let mut l = stored(&["http://a.com", "http://b.com", "http://c.com"], Some(7));
    assert!(!l.selection_valid());
    l.remove_server(url("http://b.com")).ok().unwrap();
    assert_eq!(urls(&l), vec!["http://a.com/", "http://c.com/"]);
    assert_eq!(l.selected_index(), Some(1));
    assert!(l.is_well_formed());
}

#[test]
fn adding_to_a_list_with_a_selection_one_past_the_end() {
    let mut l = stored(&["http://a.com"], Some(1));
    {
        let s = l.add_server(url("http://b.com"), false, Ok(())).ok().unwrap();
        assert_eq!(s.url().as_str(), "http://b.com/");
    }
    assert_eq!(l.selected_index(), Some(1));
    assert!(l.is_well_formed());
}

#[test]
fn removing_from_a_list_without_selection_when_none_stay() {
    let mut l = stored(&["http://a.com"], None);
    l.remove_server(url("http://a.com")).ok().unwrap();
    assert_eq!(l.len(), 0);
    assert_eq!(l.selected_index(), None);
}
