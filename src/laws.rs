//! Properties that relate the handlers to one another.
use vstd::prelude::*;
use crate::dispatch::{connect_plan, run_spec, ActionModel};
use crate::grammar::UsageErrorModel;
use crate::homeserver::url_parse_of;
use crate::registry::{
    add_spec, delete_spec, has_server, index_of, listing, record_connect_spec, unique_names,
    with_connection, ServerModel,
};
use crate::report::ReportModel;

verus! {

/// `s` holds `n` at position `i` and nowhere else.
pub open spec fn only_at(s: Seq<ServerModel>, n: Seq<char>, i: int) -> bool {
    &&& 0 <= i < s.len()
    &&& s[i].name == n
    &&& forall|j: int| 0 <= j < s.len() && #[trigger] s[j].name == n ==> j == i
}

/// The listing holds the entry for `n` exactly once.
pub open spec fn listed_once(l: Seq<ReportModel>, n: Seq<char>) -> bool {
    exists|i: int|
        0 <= i < l.len() && l[i] == ReportModel::ListEntry(n) && (forall|j: int|
            0 <= j < l.len() && #[trigger] l[j] == ReportModel::ListEntry(n) ==> j == i)
}

proof fn lemma_unique_index(s: Seq<ServerModel>, n: Seq<char>)
    requires
        unique_names(s),
        has_server(s, n),
    ensures
        only_at(s, n, index_of(s, n)),
{
    let i = index_of(s, n);
    assert forall|j: int| 0 <= j < s.len() && #[trigger] s[j].name == n implies j == i by {
        if j != i {
            assert(s[i].name != s[j].name);
        }
    }
}

proof fn lemma_listed_once(s: Seq<ServerModel>, n: Seq<char>)
    requires
        unique_names(s),
        has_server(s, n),
    ensures
        listed_once(listing(s), n),
{
    let i = index_of(s, n);
    lemma_unique_index(s, n);
    let l = listing(s);
    assert(l[i + 1] == ReportModel::ListEntry(n));
    assert forall|j: int| 0 <= j < l.len() && #[trigger] l[j] == ReportModel::ListEntry(n) implies j
        == i + 1 by {
        if j > 0 {
            assert(s[j - 1].name == n);
        }
    }
}

proof fn lemma_add_keeps_names_unique(s: Seq<ServerModel>, n: Seq<char>, h: Seq<char>)
    requires
        unique_names(s),
    ensures
        unique_names(add_spec(s, n, h).0),
        has_server(add_spec(s, n, h).0, n),
{
    let t = add_spec(s, n, h).0;
    if !has_server(s, n) {
        assert(t[s.len() as int].name == n);
        assert forall|i: int, j: int|
            0 <= i < t.len() && 0 <= j < t.len() && i != j implies #[trigger] t[i].name
            != #[trigger] t[j].name by {
            if i < s.len() && j < s.len() {
                assert(s[i].name != s[j].name);
            } else if i < s.len() {
                assert(s[i].name != n);
            } else {
                assert(s[j].name != n);
            }
        }
    }
}

proof fn lemma_with_connection(s: Seq<ServerModel>, n: Seq<char>, c: bool)
    requires
        unique_names(s),
        has_server(s, n),
    ensures
        unique_names(with_connection(s, n, c)),
        has_server(with_connection(s, n, c), n),
        index_of(with_connection(s, n, c), n) == index_of(s, n),
        with_connection(s, n, c)[index_of(s, n)].connected == c,
{
    let t = with_connection(s, n, c);
    let i = index_of(s, n);
    lemma_unique_index(s, n);
    assert(t[i].name == n);
    assert forall|a: int, b: int|
        0 <= a < t.len() && 0 <= b < t.len() && a != b implies #[trigger] t[a].name
        != #[trigger] t[b].name by {
        assert(s[a].name != s[b].name);
    }
    lemma_unique_index(t, n);
}

/// After adding a server, the listing names it exactly once, whether the name
/// was new or already taken.
pub proof fn add_then_list_shows_name_once(s: Seq<ServerModel>, n: Seq<char>, h: Seq<char>)
    requires
        unique_names(s),
    ensures
        listed_once(listing(add_spec(s, n, h).0), n),
{
    lemma_add_keeps_names_unique(s, n, h);
    lemma_listed_once(add_spec(s, n, h).0, n);
}

/// Deleting a connected server is refused and changes nothing.
pub proof fn delete_connected_is_refused(s: Seq<ServerModel>, n: Seq<char>)
    requires
        unique_names(s),
        has_server(s, n),
        s[index_of(s, n)].connected,
    ensures
        delete_spec(s, n) == (s, ReportModel::StillConnected(n)),
{
}

/// Deleting an unknown server reports it and changes nothing.
pub proof fn delete_unknown_is_refused(s: Seq<ServerModel>, n: Seq<char>)
    requires
        !has_server(s, n),
    ensures
        delete_spec(s, n) == (s, ReportModel::NoSuchServer(n)),
{
}

/// `connect a b` with `a` unknown and `b` known reports `a` as not found and
/// still connects `b`, once.
pub proof fn connect_goes_on_after_unknown(s: Seq<ServerModel>, a: Seq<char>, b: Seq<char>)
    requires
        !has_server(s, a),
        has_server(s, b),
    ensures
        connect_plan(s, seq![a, b]) == seq![
            ActionModel::Print(ReportModel::NotFound(a)),
            ActionModel::Connect(b),
        ],
{
    assert(connect_plan(s, seq![a, b]) =~= seq![
        ActionModel::Print(ReportModel::NotFound(a)),
        ActionModel::Connect(b),
    ]);
}

/// Adding a name that is already registered is refused, and the registered
/// server stays as it was.
pub proof fn readd_is_refused(s: Seq<ServerModel>, n: Seq<char>, h: Seq<char>)
    requires
        has_server(s, n),
    ensures
        add_spec(s, n, h) == (s, ReportModel::ServerExists(n)),
{
}

/// `server add` with a homeserver that is no absolute URL is refused while
/// parsing: no server is added and the registry is unchanged.
pub proof fn invalid_homeserver_changes_nothing(s: Seq<ServerModel>, n: Seq<char>, u: Seq<char>)
    requires
        url_parse_of(u) is None,
    ensures
        run_spec(s, seq!["server"@, "add"@, n, u]) == (
            s,
            seq![ActionModel::Usage(UsageErrorModel::InvalidHomeserver(u))],
        ),
{
    let t = seq!["server"@, "add"@, n, u];
    assert(t.drop_first().drop_first() =~= seq![n, u]);
    assert(t[0] == "server"@);
    assert(t.drop_first()[0] == "add"@);
    assert("add"@ != "list"@) by {
        reveal_strlit("add");
        reveal_strlit("list");
    }
}

/// The life of a server: once added it is listed once and a connect reaches
/// it; while connected it cannot be deleted; once disconnected the delete
/// succeeds and the name is gone.
pub proof fn server_lifecycle(s: Seq<ServerModel>, n: Seq<char>, h: Seq<char>)
    requires
        unique_names(s),
        !has_server(s, n),
    ensures
        ({
            let added = add_spec(s, n, h).0;
            let connected = record_connect_spec(added, n, Ok(())).0;
            let disconnected = with_connection(connected, n, false);
            &&& add_spec(s, n, h).1 == ReportModel::ServerAdded(n)
            &&& listed_once(listing(added), n)
            &&& connect_plan(added, seq![n]) == seq![ActionModel::Connect(n)]
            &&& delete_spec(connected, n) == (connected, ReportModel::StillConnected(n))
            &&& delete_spec(disconnected, n).1 == ReportModel::ServerDeleted(n)
            &&& delete_spec(disconnected, n).0 == s
            &&& !has_server(delete_spec(disconnected, n).0, n)
        }),
{
    let added = add_spec(s, n, h).0;
    lemma_add_keeps_names_unique(s, n, h);
    lemma_listed_once(added, n);
    assert(connect_plan(added, seq![n]) =~= seq![ActionModel::Connect(n)]);
    lemma_unique_index(added, n);
    assert(index_of(added, n) == s.len());
    lemma_with_connection(added, n, true);
    let connected = with_connection(added, n, true);
    lemma_with_connection(connected, n, false);
    let disconnected = with_connection(connected, n, false);
    assert(index_of(disconnected, n) == s.len());
    assert(disconnected.remove(s.len() as int) =~= s);
}

} // verus!
