use vstd::prelude::*;
use crate::address::ServerUrl;
use crate::server::{Server, ServerModel, ServerValidityError, server_text, opt_str, status_text};
use crate::text::{decimal, decimal_string};

verus! {

/// What a server list is to the logic: the servers in order, and which of
/// them is selected.
pub struct ServerListModel {
    pub servers: Seq<ServerModel>,
    pub selected: Option<usize>,
}

/// A well-formed list: a server is selected exactly when there is one, and
/// the selection points into the list.
pub open spec fn list_wf(m: ServerListModel) -> bool {
    &&& (m.servers.len() == 0 <==> m.selected is None)
    &&& (m.selected matches Some(i) ==> i < m.servers.len())
}

/// The selection, where there is one, points into the list. A list read
/// from storage may break this; handing out the selected server needs it.
pub open spec fn selection_in_range(m: ServerListModel) -> bool {
    m.selected matches Some(i) ==> i < m.servers.len()
}

/// Adding a server to `m` leaves a server selected: the new one where
/// `switch` asks so or where it is the only one, else the one selected
/// before, which must then point into the longer list.
pub open spec fn add_leaves_selection(m: ServerListModel, switch: bool) -> bool {
    ||| switch
    ||| m.servers.len() == 0
    ||| (m.selected matches Some(i) && i <= m.servers.len())
}

/// Whether some server in the list has the address `url`.
pub open spec fn has_url(servers: Seq<ServerModel>, url: Seq<char>) -> bool {
    exists|i: int| 0 <= i < servers.len() && #[trigger] servers[i].url == url
}

/// No two servers in the list share an address.
pub open spec fn distinct_urls(servers: Seq<ServerModel>) -> bool {
    forall|i: int, j: int|
        0 <= i < servers.len() && 0 <= j < servers.len() && i != j ==> #[trigger] servers[i].url
            != #[trigger] servers[j].url
}

/// Whether a server keeps its place when the address `url` is removed.
pub open spec fn keeps(url: Seq<char>) -> spec_fn(ServerModel) -> bool {
    |s: ServerModel| s.url != url
}

/// The list after adding a new server, signed out, at address `url`: it
/// goes last; it is selected if it is the only one or if `switch` asks so.
pub open spec fn list_after_add(m: ServerListModel, url: Seq<char>, switch: bool) -> ServerListModel {
    let servers = m.servers.push(ServerModel { url, login: None });
    let selected = if switch {
        Some((servers.len() - 1) as usize)
    } else if servers.len() == 1 {
        Some(0usize)
    } else {
        m.selected
    };
    ServerListModel { servers, selected }
}

/// The list after removing every server at address `url`: the others keep
/// their order; the selection stays, moved back to the last server where it
/// would point past the end, and is dropped where no server is left.
pub open spec fn list_after_remove(m: ServerListModel, url: Seq<char>) -> ServerListModel {
    let servers = m.servers.filter(keeps(url));
    let selected = if servers.len() == 0 {
        None
    } else if m.selected.unwrap() > servers.len() - 1 {
        Some((servers.len() - 1) as usize)
    } else {
        m.selected
    };
    ServerListModel { servers, selected }
}

/// The list with the selected server replaced by `s` (as a caller may change
/// the server handed out by reference).
pub open spec fn with_selected_server(m: ServerListModel, s: ServerModel) -> ServerListModel {
    ServerListModel { servers: m.servers.update(m.selected.unwrap() as int, s), selected: m.selected }
}

/// Why no server could be handed out.
#[derive(Debug, PartialEq, Eq)]
pub enum SelectedServerError {
    NoServers,
    /// `max` is the largest index there is.
    OutOfBounds { idx: usize, max: usize },
}

/// Why a server could not be added.
#[derive(Debug, PartialEq, Eq)]
pub enum AddServerError {
    CantParseUrl,
    SerializationError(SerializationError),
    ServerAlreadyExists,
    Other(ServerValidityError),
}

/// Why a server could not be removed.
#[derive(Debug, PartialEq, Eq)]
pub enum RemoveServerError {
    ServerNotInList,
}

/// Why the list could not be read from or written to its storage file.
#[derive(Debug, PartialEq, Eq)]
pub enum SerializationError {
    BadFilesystemConfig,
    CouldntCreateFile(String),
    BadDataInFile,
    CantSerializeSelf,
    CantWriteToFile,
}

/// The servers this client knows, and the one it talks to.
#[derive(Debug)]
pub struct ServerList {
    pub servers: Vec<Server>,
    selected: Option<usize>,
}

/// The shape in which a server list is stored.
#[derive(Debug)]
pub struct ServerListSerializer {
    pub servers: Vec<Server>,
    pub selected: Option<usize>,
}

/// The views of a vector of servers.
pub open spec fn server_views(v: Seq<Server>) -> Seq<ServerModel> {
    v.map_values(|s: Server| s@)
}

impl View for ServerList {
    type V = ServerListModel;

    closed spec fn view(&self) -> ServerListModel {
        ServerListModel { servers: server_views(self.servers@), selected: self.selected }
    }
}

impl Default for ServerList {
    /// A list with no servers.
    fn default() -> (r: ServerList)
        ensures
            r@.servers.len() == 0,
            r@.selected is None,
    {
        ServerList::empty()
    }
}

impl ServerList {
    /// Well-formed: see `list_wf`.
    pub open spec fn wf(&self) -> bool {
        list_wf(self@)
    }

    /// A list with no servers.
    pub fn empty() -> (r: ServerList)
        ensures
            r@.servers.len() == 0,
            r@.selected is None,
            r.wf(),
    {
        let r = ServerList { servers: Vec::new(), selected: None };
        assert(r@.servers =~= Seq::<ServerModel>::empty());
        r
    }

    /// The number of servers.
    pub fn len(&self) -> (r: usize)
        ensures
            r == self@.servers.len(),
    {
        self.servers.len()
    }

    /// The index of the selected server.
    pub fn selected_index(&self) -> (r: Option<usize>)
        ensures
            r == self@.selected,
    {
        self.selected
    }

    /// Whether the selection, where there is one, points into the list (see
    /// `selection_in_range`); a list read from storage may break this.
    pub fn selection_valid(&self) -> (r: bool)
        ensures
            r == selection_in_range(self@),
    {
        match self.selected {
            None => true,
            Some(i) => i < self.servers.len(),
        }
    }

    /// Whether the list is well-formed (see `list_wf`); a list read from
    /// storage may not be.
    pub fn is_well_formed(&self) -> (r: bool)
        ensures
            r == self.wf(),
    {
        match self.selected {
            None => self.servers.len() == 0,
            Some(i) => i < self.servers.len(),
        }
    }

    /// The selected server, to change it in place.
    pub fn selected(&mut self) -> (r: Result<&mut Server, SelectedServerError>)
        requires
            selection_in_range(old(self)@),
        ensures
            old(self).wf() ==> final(self).wf(),
            match old(self)@.selected {
                None => r == Err::<&mut Server, SelectedServerError>(SelectedServerError::NoServers)
                    && final(self)@ == old(self)@,
                Some(i) => r is Ok,
            },
            r matches Ok(s) ==> {
                &&& old(self)@.selected matches Some(i)
                &&& s@ == old(self)@.servers[i as int]
                &&& final(self)@ == with_selected_server(old(self)@, final(s)@)
            },
    {
        match self.selected {
            None => Err(SelectedServerError::NoServers),
            Some(i) => Ok(self.server_at(i)),
        }
    }

    /// The server at index `i`, to change it in place.
    fn server_at(&mut self, i: usize) -> (s: &mut Server)
        requires
            i < old(self)@.servers.len(),
        ensures
            s@ == old(self)@.servers[i as int],
            final(self)@ == (ServerListModel {
                servers: old(self)@.servers.update(i as int, final(s)@),
                selected: old(self)@.selected,
            }),
    {
        let ghost old_servers = self.servers@;
        let s = &mut self.servers[i];
        proof {
            assert(server_views(old_servers.update(i as int, *final(s))) =~= server_views(old_servers).update(
                i as int,
                final(s)@,
            ));
        }
        s
    }

    /// A copy of the selected server.
    pub fn clone_selected(&self) -> (r: Result<Server, SelectedServerError>)
        requires
            selection_in_range(self@),
        ensures
            match self@.selected {
                None => r == Err::<Server, SelectedServerError>(SelectedServerError::NoServers),
                Some(i) => r matches Ok(s) && s@ == self@.servers[i as int],
            },
    {
        match self.selected {
            None => Err(SelectedServerError::NoServers),
            Some(i) => Ok(self.servers[i].duplicate()),
        }
    }

    /// Whether a server at this address is in the list.
    pub fn has_server(&self, url: &ServerUrl) -> (r: bool)
        ensures
            r == has_url(self@.servers, url@),
    {
        let n = self.servers.len();
        let mut i: usize = 0;
        while i < n
            invariant
                n == self.servers@.len(),
                i <= n,
                forall|j: int| 0 <= j < i ==> #[trigger] self@.servers[j].url != url@,
            decreases n - i,
        {
            let u = self.servers[i].url();
            if u.same_as(url) {
                assert(self@.servers[i as int].url == url@);
                return true;
            }
            i = i + 1;
        }
        false
    }

    /// Adds a new server, signed out, at address `url`, after checking that
    /// it is not in the list yet and that `probe`, the answer to asking the
    /// server whether it is a Terse server, is positive. Selects it when it
    /// is the only server or when `switch` asks so. Hands back the selected
    /// server.
    pub fn add_server(
        &mut self,
        url: ServerUrl,
        switch: bool,
        probe: Result<(), ServerValidityError>,
    ) -> (r: Result<&mut Server, AddServerError>)
        requires
            old(self)@.servers.len() < usize::MAX,
            !has_url(old(self)@.servers, url@) && probe is Ok ==> add_leaves_selection(old(self)@, switch),
        ensures
            old(self).wf() ==> final(self).wf(),
            has_url(old(self)@.servers, url@) ==> r == Err::<&mut Server, AddServerError>(AddServerError::ServerAlreadyExists)
                && final(self)@ == old(self)@,
            !has_url(old(self)@.servers, url@) ==> match probe {
                Err(e) => r == Err::<&mut Server, AddServerError>(AddServerError::Other(e)) && final(self)@ == old(self)@,
                Ok(()) => r is Ok,
            },
            r matches Ok(s) ==> {
                let added = list_after_add(old(self)@, url@, switch);
                &&& s@ == added.servers[added.selected.unwrap() as int]
                &&& final(self)@ == with_selected_server(added, final(s)@)
            },
    {
        if self.has_server(&url) {
            return Err(AddServerError::ServerAlreadyExists);
        }
        match probe {
            Err(e) => Err(AddServerError::Other(e)),
            Ok(()) => {
                let ghost old_view = self@;
                let server = Server::new(url, None);
                self.servers.push(server);
                assert(server_views(self.servers@) =~= old_view.servers.push(server@));
                if self.servers.len() == 1 {
                    self.selected = Some(0);
                }
                if switch {
                    self.selected = Some(self.servers.len() - 1);
                }
                assert(self@ == list_after_add(old_view, url@, switch));
                let sel = self.selected.unwrap();
                Ok(self.server_at(sel))
            },
        }
    }

    /// Removes every server at address `url`; refuses where there is none.
    pub fn remove_server(&mut self, url: ServerUrl) -> (r: Result<(), RemoveServerError>)
        requires
            has_url(old(self)@.servers, url@) && old(self)@.servers.filter(keeps(url@)).len() > 0
                ==> old(self)@.selected is Some,
        ensures
            old(self).wf() ==> final(self).wf(),
            has_url(old(self)@.servers, url@) ==> r is Ok && final(self)@ == list_after_remove(old(self)@, url@),
            !has_url(old(self)@.servers, url@) ==> r == Err::<(), RemoveServerError>(RemoveServerError::ServerNotInList)
                && final(self)@ == old(self)@,
    {
        if !self.has_server(&url) {
            return Err(RemoveServerError::ServerNotInList);
        }
        let ghost old_view = self@;
        let n = self.servers.len();
        let mut kept: Vec<Server> = Vec::new();
        let mut i: usize = 0;
        while i < n
            invariant
                n == self.servers@.len(),
                old_view.servers == server_views(self.servers@),
                i <= n,
                server_views(kept@) == old_view.servers.take(i as int).filter(keeps(url@)),
            decreases n - i,
        {
            let ghost before = kept@;
            let u = self.servers[i].url();
            assert(old_view.servers.take(i as int + 1) =~= old_view.servers.take(i as int).push(old_view.servers[i as int]));
            proof {
                old_view.servers.take(i as int).lemma_filter_push(old_view.servers[i as int], keeps(url@));
            }
            if !u.same_as(&url) {
                let s = self.servers[i].duplicate();
                kept.push(s);
                assert(server_views(kept@) =~= server_views(before).push(s@));
            }
            i = i + 1;
        }
        assert(old_view.servers.take(n as int) =~= old_view.servers);
        self.servers = kept;
        let len = self.servers.len();
        if len == 0 {
            self.selected = None;
        } else {
            match self.selected {
                Some(sel) => {
                    if sel > len - 1 {
                        self.selected = Some(len - 1);
                    }
                },
                None => {},
            }
        }
        Ok(())
    }

    /// Selects the server at index `idx` and hands it back; refuses where
    /// there is no server, or none at that index.
    pub fn set_server(&mut self, idx: usize) -> (r: Result<&mut Server, SelectedServerError>)
        ensures
            r is Ok ==> final(self).wf(),
            old(self)@.servers.len() == 0 ==> r == Err::<&mut Server, SelectedServerError>(SelectedServerError::NoServers)
                && final(self)@ == old(self)@,
            old(self)@.servers.len() > 0 && idx >= old(self)@.servers.len() ==> r
                == Err::<&mut Server, SelectedServerError>(
                SelectedServerError::OutOfBounds { idx, max: (old(self)@.servers.len() - 1) as usize },
            ) && final(self)@ == old(self)@,
            idx < old(self)@.servers.len() ==> r is Ok,
            r matches Ok(s) ==> {
                &&& s@ == old(self)@.servers[idx as int]
                &&& final(self)@ == with_selected_server(
                    ServerListModel { servers: old(self)@.servers, selected: Some(idx) },
                    final(s)@,
                )
            },
    {
        if self.servers.len() == 0 {
            Err(SelectedServerError::NoServers)
        } else if idx >= self.servers.len() {
            Err(SelectedServerError::OutOfBounds { idx, max: self.servers.len() - 1 })
        } else {
            self.selected = Some(idx);
            Ok(self.server_at(idx))
        }
    }

    /// The shape in which this list is stored.
    pub fn to_serializer(&self) -> (r: ServerListSerializer)
        ensures
            server_views(r.servers@) == self@.servers,
            r.selected == self@.selected,
    {
        let n = self.servers.len();
        let mut servers: Vec<Server> = Vec::new();
        let mut i: usize = 0;
        while i < n
            invariant
                n == self.servers@.len(),
                i <= n,
                server_views(servers@) == self@.servers.take(i as int),
            decreases n - i,
        {
            let s = self.servers[i].duplicate();
            let ghost before = servers@;
            servers.push(s);
            assert(server_views(servers@) =~= server_views(before).push(s@));
            assert(self@.servers.take(i as int + 1) =~= self@.servers.take(i as int).push(s@));
            i = i + 1;
        }
        assert(self@.servers.take(n as int) =~= self@.servers);
        ServerListSerializer { servers, selected: self.selected }
    }

    /// The list a storage file holds, given its text and what parsing that
    /// text gave (`None` where it did not parse): an empty file holds an
    /// empty list; a file whose list did not parse holds bad data; else the
    /// file holds the parsed list as it is, whatever its selection.
    pub fn from_config_text(text: &str, parsed: Option<ServerList>) -> (r: Result<ServerList, SerializationError>)
        ensures
            text@.len() == 0 ==> (r matches Ok(l) && l@.servers.len() == 0 && l@.selected is None),
            text@.len() > 0 ==> match parsed {
                Some(l) => r matches Ok(k) && k@ == l@,
                None => r == Err::<ServerList, SerializationError>(SerializationError::BadDataInFile),
            },
    {
        if text.is_empty() {
            return Ok(ServerList::empty());
        }
        match parsed {
            Some(l) => Ok(l),
            None => Err(SerializationError::BadDataInFile),
        }
    }

    /// The list stored in this shape. It is well-formed only where the
    /// stored data is; see `is_well_formed`.
    pub fn from_serializer(value: ServerListSerializer) -> (r: ServerList)
        ensures
            r@.servers == server_views(value.servers@),
            r@.selected == value.selected,
    {
        ServerList { servers: value.servers, selected: value.selected }
    }
}

impl SelectedServerError {
    /// The message shown for this error.
    pub fn message(&self) -> (r: String)
        ensures
            r@ == match self {
                SelectedServerError::NoServers =>
                    "You don't have any servers; add one with `trs --server add https://url-to-a-terse-server`"@,
                SelectedServerError::OutOfBounds { idx, max } => "You don't have a server with index "@ + decimal(
                    *idx as nat,
                ) + "; try an index from 0-"@ + decimal(*max as nat),
            },
    {
        match self {
            SelectedServerError::NoServers => String::from_str(
                "You don't have any servers; add one with `trs --server add https://url-to-a-terse-server`",
            ),
            SelectedServerError::OutOfBounds { idx, max } => {
                let mut m = String::from_str("You don't have a server with index ");
                let a = decimal_string(*idx as u64);
                m.append(a.as_str());
                m.append("; try an index from 0-");
                let b = decimal_string(*max as u64);
                m.append(b.as_str());
                m
            },
        }
    }
}

impl SerializationError {
    /// The message shown for this error, as text.
    pub open spec fn message_text(&self) -> Seq<char> {
        match self {
            SerializationError::BadFilesystemConfig =>
                "I couldn't decide where to look for the storage file, I couldn't find a $HOME base"@,
            SerializationError::CouldntCreateFile(e) =>
                "I couldn't find the storage file, and I had trouble creating it:\n"@ + e@,
            SerializationError::BadDataInFile => "I tried to read the storage file, but it contained bad data"@,
            SerializationError::CantSerializeSelf =>
                "I couldn't successfully turn the data into JSON to save it in the storage file.\nThis shouldn't ever happen, lucky you!"@,
            SerializationError::CantWriteToFile => "I couldn't save to the storage file"@,
        }
    }

    /// The message shown for this error.
    pub fn message(&self) -> (r: String)
        ensures
            r@ == self.message_text(),
    {
        match self {
            SerializationError::BadFilesystemConfig => String::from_str(
                "I couldn't decide where to look for the storage file, I couldn't find a $HOME base",
            ),
            SerializationError::CouldntCreateFile(e) => {
                let mut m = String::from_str("I couldn't find the storage file, and I had trouble creating it:\n");
                m.append(e.as_str());
                m
            },
            SerializationError::BadDataInFile => String::from_str(
                "I tried to read the storage file, but it contained bad data",
            ),
            SerializationError::CantSerializeSelf => String::from_str(
                "I couldn't successfully turn the data into JSON to save it in the storage file.\nThis shouldn't ever happen, lucky you!",
            ),
            SerializationError::CantWriteToFile => String::from_str("I couldn't save to the storage file"),
        }
    }
}

impl AddServerError {
    /// The message shown for this error.
    pub fn message(&self) -> (r: String)
        ensures
            r@ == match self {
                AddServerError::CantParseUrl => "I wasn't able to parse the url"@,
                AddServerError::SerializationError(e) => "I had a problem with storage;\n"@ + e.message_text(),
                AddServerError::ServerAlreadyExists => "You already have that server saved"@,
                AddServerError::Other(e) => "I wasn't able to add the server;\n"@ + match e {
                    ServerValidityError::CannotConnect => "I couldn't connect to the server"@,
                    ServerValidityError::ServerIsNotATerseServer => "The server isn't a Terse server"@,
                    ServerValidityError::Other(c) => "The server returned an unexpected status code: "@ + status_text(*c),
                },
            },
    {
        match self {
            AddServerError::CantParseUrl => String::from_str("I wasn't able to parse the url"),
            AddServerError::SerializationError(e) => {
                let mut m = String::from_str("I had a problem with storage;\n");
                let t = e.message();
                m.append(t.as_str());
                m
            },
            AddServerError::ServerAlreadyExists => String::from_str("You already have that server saved"),
            AddServerError::Other(e) => {
                let mut m = String::from_str("I wasn't able to add the server;\n");
                let t = e.message();
                m.append(t.as_str());
                m
            },
        }
    }
}

impl RemoveServerError {
    /// The message shown for this error.
    pub fn message(&self) -> (r: String)
        ensures
            r@
                == "I couldn't find the server you wanted to remove in the list;\nTry running --server list to see all the servers you have"@,
    {
        String::from_str(
            "I couldn't find the server you wanted to remove in the list;\nTry running --server list to see all the servers you have",
        )
    }
}

/// The views of optional names.
pub open spec fn name_views(v: Seq<Option<String>>) -> Seq<Option<Seq<char>>> {
    v.map_values(|o: Option<String>| match o { Some(t) => Some(t@), None => None })
}

/// The numbered lines of a server listing: for each of the first `k`
/// entries, its index, a colon and a space, the entry, and a line break.
pub open spec fn numbered(items: Seq<Seq<char>>, k: int) -> Seq<char>
    decreases k,
{
    if k <= 0 || k > items.len() {
        Seq::empty()
    } else {
        numbered(items, k - 1) + decimal((k - 1) as nat) + ": "@ + items[k - 1] + seq!['\n']
    }
}

/// What `ServerList::as_string` may write: the number of servers; and where
/// there are any, the selected server, then every server with its index,
/// each as `Server::as_string` writes it (highlighted where selected), given
/// the servers' names.
pub open spec fn list_text(
    r: Seq<char>,
    m: ServerListModel,
    names: Seq<Option<Seq<char>>>,
    show_passwords: bool,
) -> bool {
    let head = "Servers: "@ + decimal(m.servers.len()) + seq!['\n'];
    if m.servers.len() == 0 {
        r == head
    } else {
        exists|current: Seq<char>, items: Seq<Seq<char>>|
            #![trigger numbered(items, items.len() as int), server_text(current, m.servers[m.selected.unwrap() as int], names[m.selected.unwrap() as int], show_passwords, true)]
            {
                let sel = m.selected.unwrap() as int;
                &&& server_text(current, m.servers[sel], names[sel], show_passwords, true)
                &&& items.len() == m.servers.len()
                &&& forall|i: int|
                    0 <= i < items.len() ==> server_text(
                        #[trigger] items[i],
                        m.servers[i],
                        names[i],
                        show_passwords,
                        m.selected == Some(i as usize),
                    )
                &&& r == head + "Current server: "@ + current + seq!['\n'] + numbered(items, items.len() as int)
            }
    }
}

impl ServerList {
    /// The list as shown to the user, given each server's name as fetched
    /// from it (`None` where that failed), in the order of the list.
    pub fn as_string(&self, names: &Vec<Option<String>>, show_passwords: bool) -> (r: String)
        requires
            self@.servers.len() > 0 ==> (self@.selected matches Some(i) && i < self@.servers.len()),
            names@.len() == self@.servers.len(),
        ensures
            list_text(r@, self@, name_views(names@), show_passwords),
    {
        proof {
            reveal_strlit("Servers: ");
            reveal_strlit("\n");
            reveal_strlit("Current server: ");
            reveal_strlit(": ");
        }
        let n = self.servers.len();
        let mut s = String::from_str("Servers: ");
        let d = decimal_string(n as u64);
        s.append(d.as_str());
        s.append("\n");
        let ghost head = s@;
        assert(head =~= "Servers: "@ + decimal(self@.servers.len()) + seq!['\n']);
        if n == 0 {
            return s;
        }
        let sel = self.selected.unwrap();
        let current = self.servers[sel].as_string(opt_name(&names[sel]), show_passwords, true);
        s.append("Current server: ");
        s.append(current.as_str());
        s.append("\n");
        let ghost before_items = s@;
        let ghost mut items: Seq<Seq<char>> = Seq::empty();
        let mut i: usize = 0;
        while i < n
            invariant
                n == self.servers@.len(),
                n == names@.len(),
                n > 0,
                self@.selected matches Some(k) && k < n,
                i <= n,
                items.len() == i,
                forall|k: int|
                    0 <= k < i ==> server_text(
                        #[trigger] items[k],
                        self@.servers[k],
                        name_views(names@)[k],
                        show_passwords,
                        self@.selected == Some(k as usize),
                    ),
                s@ == before_items + numbered(items, i as int),
            decreases n - i,
        {
            let line = self.servers[i].as_string(opt_name(&names[i]), show_passwords, self.selected == Some(i));
            let d = decimal_string(i as u64);
            let ghost before = s@;
            s.append(d.as_str());
            s.append(": ");
            s.append(line.as_str());
            s.append("\n");
            proof {
                reveal_strlit("\n");
                reveal_strlit(": ");
                let old_items = items;
                items = items.push(line@);
                assert(numbered(items, i as int) == numbered(old_items, i as int)) by {
                    lemma_numbered_prefix(old_items, items, i as int);
                }
                assert(items[i as int] == line@);
                assert(s@ == before + d@ + ": "@ + line@ + "\n"@);
                assert("\n"@ =~= seq!['\n']);
                assert(before == before_items + numbered(old_items, i as int));
                assert(numbered(items, i as int + 1) == numbered(items, i as int) + decimal(i as nat) + ": "@ + items[i as int] + seq!['\n']);
                assert(s@ =~= before_items + numbered(items, i as int + 1));
            }
            i = i + 1;
        }
        proof {
            let m = self@;
            let nv = name_views(names@);
            assert(self.servers@[sel as int]@ == m.servers[sel as int]);
            assert(m.selected.unwrap() == sel);
            assert(server_text(current@, m.servers[m.selected.unwrap() as int], nv[m.selected.unwrap() as int], show_passwords, true));
            assert(list_text(s@, self@, name_views(names@), show_passwords)) by {
                assert(s@ =~= head + "Current server: "@ + current@ + seq!['\n'] + numbered(items, items.len() as int));
            }
        }
        s
    }
}

/// Numbering only reads the entries it numbers.
proof fn lemma_numbered_prefix(a: Seq<Seq<char>>, b: Seq<Seq<char>>, k: int)
    requires
        0 <= k <= a.len(),
        k <= b.len(),
        forall|i: int| 0 <= i < k ==> a[i] == b[i],
    ensures
        numbered(a, k) == numbered(b, k),
    decreases k,
{
    if k > 0 {
        lemma_numbered_prefix(a, b, k - 1);
    }
}

/// A borrowed view of an optional name.
fn opt_name(o: &Option<String>) -> (r: Option<&str>)
    ensures
        opt_str(r) == match o { Some(t) => Some(t@), None => None::<Seq<char>> },
{
    match o {
        Some(t) => Some(t.as_str()),
        None => None,
    }
}

/// Selecting any index within the list keeps it well-formed, and the
/// selected server is the one at that index.
pub proof fn lemma_select_within(m: ServerListModel, idx: usize, s: ServerModel)
    requires
        list_wf(m),
        idx < m.servers.len(),
    ensures
        list_wf(ServerListModel { servers: m.servers, selected: Some(idx) }),
        with_selected_server(ServerListModel { servers: m.servers, selected: Some(idx) }, s).servers[idx as int] == s,
        with_selected_server(ServerListModel { servers: m.servers, selected: Some(idx) }, m.servers[idx as int]).servers
            == m.servers,
{
    assert(m.servers.update(idx as int, m.servers[idx as int]) =~= m.servers);
}

/// Removing keeps the addresses that stay distinct.
pub proof fn lemma_remove_keeps_distinct(servers: Seq<ServerModel>, url: Seq<char>)
    requires
        distinct_urls(servers),
    ensures
        distinct_urls(servers.filter(keeps(url))),
    decreases servers.len(),
{
    reveal(Seq::filter);
    if servers.len() > 0 {
        let rest = servers.drop_last();
        let last = servers.last();
        assert(distinct_urls(rest)) by {
            assert forall|i: int, j: int|
                0 <= i < rest.len() && 0 <= j < rest.len() && i != j implies #[trigger] rest[i].url
                != #[trigger] rest[j].url by {
                assert(servers[i].url != servers[j].url);
            }
        }
        lemma_remove_keeps_distinct(rest, url);
        let kept = rest.filter(keeps(url));
        if keeps(url)(last) {
            assert forall|i: int| 0 <= i < kept.len() implies #[trigger] kept[i].url != last.url by {
                assert(kept.contains(kept[i]));
                rest.lemma_filter_contains_rev(keeps(url), kept[i]);
                let k = choose|k: int| 0 <= k < rest.len() && rest[k] == kept[i];
                assert(servers[k].url != servers[servers.len() - 1].url);
            }
            let out = kept.push(last);
            assert(servers.filter(keeps(url)) == out);
            assert forall|i: int, j: int|
                0 <= i < out.len() && 0 <= j < out.len() && i != j implies #[trigger] out[i].url
                != #[trigger] out[j].url by {
                if i < kept.len() && j < kept.len() {
                    assert(kept[i].url != kept[j].url);
                } else if i < kept.len() {
                    assert(kept[i].url != last.url);
                } else {
                    assert(kept[j].url != last.url);
                }
            }
        }
    }
}

/// Filtering keeps a sequence whole when every element passes.
proof fn lemma_filter_keeps_all(s: Seq<ServerModel>, url: Seq<char>)
    requires
        !has_url(s, url),
    ensures
        s.filter(keeps(url)) == s,
    decreases s.len(),
{
    reveal(Seq::filter);
    if s.len() > 0 {
        let rest = s.drop_last();
        assert(!has_url(rest, url)) by {
            if has_url(rest, url) {
                let i = choose|i: int| 0 <= i < rest.len() && #[trigger] rest[i].url == url;
                assert(s[i].url == url);
            }
        }
        lemma_filter_keeps_all(rest, url);
        assert(s.last().url != url) by {
            assert(s[s.len() - 1].url != url);
        }
        assert(s =~= rest.push(s.last()));
    }
}

/// Adding a server at a new address and then removing that address gives
/// back the servers there were, in the same order.
pub proof fn lemma_add_then_remove(m: ServerListModel, url: Seq<char>, switch: bool)
    requires
        !has_url(m.servers, url),
    ensures
        list_after_remove(list_after_add(m, url, switch), url).servers == m.servers,
{
    let added = list_after_add(m, url, switch);
    m.servers.lemma_filter_push(ServerModel { url, login: None }, keeps(url));
    lemma_filter_keeps_all(m.servers, url);
}

/// Adding keeps the list well-formed, and adding at a new address keeps the
/// addresses distinct; the new server is found at its address.
pub proof fn lemma_add_keeps_lists_sound(m: ServerListModel, url: Seq<char>, switch: bool)
    requires
        list_wf(m),
        !has_url(m.servers, url),
    ensures
        list_wf(list_after_add(m, url, switch)),
        distinct_urls(m.servers) ==> distinct_urls(list_after_add(m, url, switch).servers),
        has_url(list_after_add(m, url, switch).servers, url),
{
    let added = list_after_add(m, url, switch);
    assert(added.servers[m.servers.len() as int].url == url);
    if distinct_urls(m.servers) {
        assert forall|i: int, j: int|
            0 <= i < added.servers.len() && 0 <= j < added.servers.len() && i != j implies
            #[trigger] added.servers[i].url != #[trigger] added.servers[j].url by {
            if i < m.servers.len() && j < m.servers.len() {
                assert(m.servers[i].url != m.servers[j].url);
            } else if i < m.servers.len() {
                assert(m.servers[i].url != url);
            } else {
                assert(m.servers[j].url != url);
            }
        }
    }
}

/// After a removal no server is left at that address, the list stays
/// well-formed, and every server that stays was in the list before.
pub proof fn lemma_remove_drops_address(m: ServerListModel, url: Seq<char>)
    requires
        list_wf(m),
        has_url(m.servers, url),
    ensures
        !has_url(list_after_remove(m, url).servers, url),
        list_wf(list_after_remove(m, url)),
        forall|i: int| 0 <= i < list_after_remove(m, url).servers.len() ==>
            m.servers.contains(#[trigger] list_after_remove(m, url).servers[i]),
{
    let removed = list_after_remove(m, url);
    assert forall|i: int| 0 <= i < removed.servers.len() implies #[trigger] removed.servers[i].url != url by {
        m.servers.lemma_filter_pred(keeps(url), i);
    }
    assert forall|i: int| 0 <= i < removed.servers.len() implies m.servers.contains(#[trigger] removed.servers[i]) by {
        assert(removed.servers.contains(removed.servers[i]));
        m.servers.lemma_filter_contains_rev(keeps(url), removed.servers[i]);
    }
}

/// Adding puts one new server last, at the given address and signed out,
/// and leaves every server there was where it was, as it was.
pub proof fn lemma_add_appends_signed_out(m: ServerListModel, url: Seq<char>, switch: bool)
    ensures
        list_after_add(m, url, switch).servers.len() == m.servers.len() + 1,
        forall|i: int| 0 <= i < m.servers.len() ==> #[trigger] list_after_add(m, url, switch).servers[i] == m.servers[i],
        list_after_add(m, url, switch).servers[m.servers.len() as int].url == url,
        list_after_add(m, url, switch).servers[m.servers.len() as int].login is None,
{
}

/// Removing keeps the selected index where it still points into what is
/// left, moves it to the last server where it would point past the end,
/// and drops it where nothing is left.
pub proof fn lemma_remove_keeps_selection(m: ServerListModel, url: Seq<char>, i: usize)
    requires
        m.selected == Some(i),
    ensures
        i < m.servers.filter(keeps(url)).len() ==> list_after_remove(m, url).selected == Some(i),
        i >= m.servers.filter(keeps(url)).len() > 0 ==> list_after_remove(m, url).selected
            == Some((m.servers.filter(keeps(url)).len() - 1) as usize),
        m.servers.filter(keeps(url)).len() == 0 ==> list_after_remove(m, url).selected is None,
{
}

/// After an add the new server is selected where `switch` asks so or where
/// it is the only one; otherwise the selection stays as it was.
pub proof fn lemma_add_selection(m: ServerListModel, url: Seq<char>, switch: bool)
    ensures
        switch ==> list_after_add(m, url, switch).selected == Some(m.servers.len() as usize),
        !switch && m.servers.len() == 0 ==> list_after_add(m, url, switch).selected == Some(0usize),
        !switch && m.servers.len() > 0 ==> list_after_add(m, url, switch).selected == m.selected,
{
}

} // verus!
