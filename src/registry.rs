//! The server registry and the handlers that act on it.
//!
//! The registry is an owned value: every handler that changes it takes it by
//! `&mut`, so Rust's borrowing rules allow one mutation at a time, and a
//! handler cannot re-enter the registry while it holds it.
use vstd::prelude::*;
use crate::report::{Report, ReportModel};

verus! {

/// One configured connection target.
pub struct Server {
    pub name: String,
    pub homeserver: String,
    pub connected: bool,
}

pub struct ServerModel {
    pub name: Seq<char>,
    pub homeserver: Seq<char>,
    pub connected: bool,
}

impl View for Server {
    type V = ServerModel;

    open spec fn view(&self) -> ServerModel {
        ServerModel { name: self.name@, homeserver: self.homeserver@, connected: self.connected }
    }
}

/// The names of the servers, in the registry's order.
pub open spec fn names_of(s: Seq<ServerModel>) -> Seq<Seq<char>> {
    s.map_values(|m: ServerModel| m.name)
}

/// No two servers share a name.
pub open spec fn unique_names(s: Seq<ServerModel>) -> bool {
    forall|i: int, j: int|
        0 <= i < s.len() && 0 <= j < s.len() && i != j ==> #[trigger] s[i].name != #[trigger] s[j].name
}

pub open spec fn has_server(s: Seq<ServerModel>, n: Seq<char>) -> bool {
    exists|i: int| 0 <= i < s.len() && #[trigger] s[i].name == n
}

/// The position of the server named `n`, where there is one.
pub open spec fn index_of(s: Seq<ServerModel>, n: Seq<char>) -> int {
    choose|i: int| 0 <= i < s.len() && #[trigger] s[i].name == n
}

/// `add_server`: a new, disconnected server is appended; an existing name is
/// refused and the registry is left as it was.
pub open spec fn add_spec(s: Seq<ServerModel>, n: Seq<char>, h: Seq<char>) -> (Seq<ServerModel>, ReportModel) {
    if has_server(s, n) {
        (s, ReportModel::ServerExists(n))
    } else {
        (s.push(ServerModel { name: n, homeserver: h, connected: false }), ReportModel::ServerAdded(n))
    }
}

/// `delete_server`: only a known, disconnected server is removed.
pub open spec fn delete_spec(s: Seq<ServerModel>, n: Seq<char>) -> (Seq<ServerModel>, ReportModel) {
    if !has_server(s, n) {
        (s, ReportModel::NoSuchServer(n))
    } else if s[index_of(s, n)].connected {
        (s, ReportModel::StillConnected(n))
    } else {
        (s.remove(index_of(s, n)), ReportModel::ServerDeleted(n))
    }
}

/// `list_servers`: nothing for an empty registry, else a header and one entry
/// per server, in the registry's order.
pub open spec fn listing(s: Seq<ServerModel>) -> Seq<ReportModel> {
    if s.len() == 0 {
        Seq::empty()
    } else {
        seq![ReportModel::ListHeader] + s.map_values(|m: ServerModel| ReportModel::ListEntry(m.name))
    }
}

/// The registry with the connection state of the server named `n` set to `c`.
pub open spec fn with_connection(s: Seq<ServerModel>, n: Seq<char>, c: bool) -> Seq<ServerModel> {
    s.map_values(
        |m: ServerModel|
            if m.name == n {
                ServerModel { connected: c, ..m }
            } else {
                m
            },
    )
}

/// What a connect attempt on the server named `n` leads to: on success the
/// server is marked connected; a failure is reported with the collaborator's
/// text as it is, and nothing changes.
pub open spec fn record_connect_spec(s: Seq<ServerModel>, n: Seq<char>, outcome: Result<(), Seq<char>>) -> (Seq<ServerModel>, Option<ReportModel>) {
    match outcome {
        Ok(()) => (with_connection(s, n, true), None),
        Err(e) => (s, Some(ReportModel::ConnectFailed(e))),
    }
}

pub open spec fn reports_model(v: Seq<Report>) -> Seq<ReportModel> {
    v.map_values(|r: Report| r@)
}

/// The mapping from server names to servers.
pub struct ServerRegistry {
    servers: Vec<Server>,
}

impl View for ServerRegistry {
    type V = Seq<ServerModel>;

    closed spec fn view(&self) -> Seq<ServerModel> {
        self.servers@.map_values(|s: Server| s@)
    }
}

impl ServerRegistry {
    pub open spec fn wf(&self) -> bool {
        unique_names(self@)
    }

    /// An empty registry.
    pub fn new() -> (r: ServerRegistry)
        ensures
            r.wf(),
            r@ == Seq::<ServerModel>::empty(),
    {
        let r = ServerRegistry { servers: Vec::new() };
        assert(r@ =~= Seq::<ServerModel>::empty());
        r
    }

    /// The number of servers.
    pub fn len(&self) -> (r: usize)
        ensures
            r == self@.len(),
    {
        self.servers.len()
    }

    /// Whether there are no servers.
    pub fn is_empty(&self) -> (r: bool)
        ensures
            r == (self@.len() == 0),
    {
        self.servers.len() == 0
    }

    fn find(&self, name: &String) -> (r: Option<usize>)
        requires
            self.wf(),
        ensures
            r is None <==> !has_server(self@, name@),
            r matches Some(i) ==> i < self@.len() && i == index_of(self@, name@)
                && self@[i as int].name == name@,
    {
        let mut i: usize = 0;
        while i < self.servers.len()
            invariant
                i <= self.servers.len(),
                self.wf(),
                forall|k: int| 0 <= k < i ==> #[trigger] self@[k].name != name@,
            decreases self.servers.len() - i,
        {
            if self.servers[i].name.eq(name) {
                proof {
                    let j = index_of(self@, name@);
                    assert(self@[i as int].name == name@);
                    assert(0 <= j < self@.len() && self@[j].name == name@);
                    if j != i {
                        assert(self@[i as int].name != self@[j].name);
                    }
                }
                return Some(i);
            }
            i = i + 1;
        }
        None
    }

    /// Whether a server of that name is registered.
    pub fn contains(&self, name: &String) -> (r: bool)
        requires
            self.wf(),
        ensures
            r == has_server(self@, name@),
    {
        self.find(name).is_some()
    }

    /// The server of that name, if any.
    pub fn get(&self, name: &String) -> (r: Option<&Server>)
        requires
            self.wf(),
        ensures
            r is None <==> !has_server(self@, name@),
            r matches Some(s) ==> s@ == self@[index_of(self@, name@)],
    {
        match self.find(name) {
            Some(i) => Some(&self.servers[i]),
            None => None,
        }
    }

    /// The names of the servers, in the registry's order.
    pub fn names(&self) -> (r: Vec<String>)
        ensures
            r.deep_view() == names_of(self@),
    {
        let mut r: Vec<String> = Vec::new();
        let mut i: usize = 0;
        while i < self.servers.len()
            invariant
                i <= self.servers.len(),
                r.deep_view() =~= names_of(self@).subrange(0, i as int),
            decreases self.servers.len() - i,
        {
            let ghost before = r.deep_view();
            r.push(self.servers[i].name.clone());
            assert(r.deep_view() =~= before.push(names_of(self@)[i as int]));
            i = i + 1;
        }
        assert(r.deep_view() =~= names_of(self@));
        r
    }

    /// Registers a new, disconnected server. A name that is already taken is
    /// refused, and the registry keeps the server it has.
    pub fn add_server(&mut self, name: String, homeserver: String) -> (r: Report)
        requires
            old(self).wf(),
        ensures
            final(self).wf(),
            (final(self)@, r@) == add_spec(old(self)@, name@, homeserver@),
    {
        if self.find(&name).is_some() {
            return Report::ServerExists(name);
        }
        let ghost before = self@;
        let reported = name.clone();
        self.servers.push(Server { name, homeserver, connected: false });
        assert(self@ =~= before.push(ServerModel { name: reported@, homeserver: homeserver@, connected: false }));
        Report::ServerAdded(reported)
    }

    /// Takes the server of that name out of the registry, if there is one.
    pub fn remove(&mut self, name: &String) -> (r: Option<Server>)
        requires
            old(self).wf(),
        ensures
            final(self).wf(),
            r is Some <==> has_server(old(self)@, name@),
            r matches Some(x) ==> x@ == old(self)@[index_of(old(self)@, name@)]
                && final(self)@ == old(self)@.remove(index_of(old(self)@, name@)),
            r is None ==> final(self)@ == old(self)@,
    {
        match self.find(name) {
            None => None,
            Some(i) => {
                let ghost before = self@;
                let removed = self.servers.remove(i);
                assert(self@ =~= before.remove(i as int));
                Some(removed)
            },
        }
    }

    /// Removes a server that is known and not connected.
    pub fn delete_server(&mut self, name: &String) -> (r: Report)
        requires
            old(self).wf(),
        ensures
            final(self).wf(),
            (final(self)@, r@) == delete_spec(old(self)@, name@),
    {
        match self.find(name) {
            None => Report::NoSuchServer(name.clone()),
            Some(i) => {
                if self.servers[i].connected {
                    Report::StillConnected(name.clone())
                } else {
                    self.remove(name);
                    Report::ServerDeleted(name.clone())
                }
            },
        }
    }

    /// The listing of the registered servers.
    pub fn list_servers(&self) -> (r: Vec<Report>)
        ensures
            reports_model(r@) == listing(self@),
    {
        let mut r: Vec<Report> = Vec::new();
        if self.servers.len() == 0 {
            assert(reports_model(r@) =~= listing(self@));
            return r;
        }
        r.push(Report::ListHeader);
        let mut i: usize = 0;
        while i < self.servers.len()
            invariant
                i <= self.servers.len(),
                self@.len() > 0,
                reports_model(r@) =~= seq![ReportModel::ListHeader] + self@.subrange(0, i as int).map_values(
                    |m: ServerModel| ReportModel::ListEntry(m.name),
                ),
            decreases self.servers.len() - i,
        {
            let ghost before = reports_model(r@);
            r.push(Report::ListEntry(self.servers[i].name.clone()));
            assert(reports_model(r@) =~= before.push(ReportModel::ListEntry(self@[i as int].name)));
            assert(self@.subrange(0, i + 1) =~= self@.subrange(0, i as int).push(self@[i as int]));
            assert(self@.subrange(0, i + 1).map_values(|m: ServerModel| ReportModel::ListEntry(m.name))
                =~= self@.subrange(0, i as int).map_values(|m: ServerModel| ReportModel::ListEntry(m.name)).push(
                ReportModel::ListEntry(self@[i as int].name)));
            i = i + 1;
        }
        assert(self@.subrange(0, i as int) =~= self@);
        r
    }
    /// Records the connection state that the server of that name now has.
    /// Returns whether such a server is registered.
    pub fn set_connected(&mut self, name: &String, connected: bool) -> (found: bool)
        requires
            old(self).wf(),
        ensures
            final(self).wf(),
            found == has_server(old(self)@, name@),
            final(self)@ == with_connection(old(self)@, name@, connected),
    {
        let ghost before = self@;
        match self.find(name) {
            None => {
                assert(self@ =~= with_connection(before, name@, connected));
                false
            },
            Some(i) => {
                self.servers[i].connected = connected;
                assert forall|k: int| 0 <= k < before.len() implies #[trigger] self@[k] == with_connection(
                    before,
                    name@,
                    connected,
                )[k] by {
                    if k != i && before[k].name == name@ {
                        assert(before[k].name != before[i as int].name);
                    }
                }
                assert(self@ =~= with_connection(before, name@, connected));
                true
            },
        }
    }

    /// Takes in the outcome of a connect attempt on the server of that name.
    pub fn record_connect(&mut self, name: &String, outcome: Result<(), String>) -> (r: Option<Report>)
        requires
            old(self).wf(),
        ensures
            final(self).wf(),
            (final(self)@, match r {
                Some(x) => Some(x@),
                None => None,
            }) == record_connect_spec(old(self)@, name@, match outcome {
                Ok(()) => Ok(()),
                Err(e) => Err(e@),
            }),
    {
        match outcome {
            Ok(()) => {
                self.set_connected(name, true);
                None
            },
            Err(e) => Some(Report::ConnectFailed(e)),
        }
    }
}

} // verus!
