//! Routing of parsed commands to their handlers.
//!
//! Carrying out a command changes the registry and yields the work that is
//! left for the host, in order: lines to print, a homeserver to store in the
//! configuration, servers to connect or disconnect.
use vstd::prelude::*;
use crate::grammar::{parse_command, parse_spec, Command, CommandModel, UsageError, UsageErrorModel};
use crate::registry::{
    add_spec, delete_spec, has_server, listing, ServerModel, ServerRegistry,
};
use crate::report::{Report, ReportModel};

verus! {

/// Work that a command leaves for the host.
#[derive(PartialEq, Eq, Clone, Debug)]
pub enum Action {
    /// Show the command's help text.
    ShowHelp,
    /// Report a command line that the grammar refused.
    Usage(UsageError),
    /// Print a line.
    Print(Report),
    /// Store the homeserver of a newly added server in the configuration.
    StoreHomeserver { name: String, homeserver: String },
    /// Connect the server of that name, then hand the outcome to
    /// [`ServerRegistry::record_connect`].
    Connect(String),
    /// Disconnect the server of that name.
    Disconnect(String),
    /// Release what the host holds for a server that was deleted.
    Release(String),
}

pub enum ActionModel {
    ShowHelp,
    Usage(UsageErrorModel),
    Print(ReportModel),
    StoreHomeserver { name: Seq<char>, homeserver: Seq<char> },
    Connect(Seq<char>),
    Disconnect(Seq<char>),
    Release(Seq<char>),
}

impl View for Action {
    type V = ActionModel;

    open spec fn view(&self) -> ActionModel {
        match self {
            Action::ShowHelp => ActionModel::ShowHelp,
            Action::Usage(e) => ActionModel::Usage(e@),
            Action::Print(r) => ActionModel::Print(r@),
            Action::StoreHomeserver { name, homeserver } => ActionModel::StoreHomeserver {
                name: name@,
                homeserver: homeserver@,
            },
            Action::Connect(n) => ActionModel::Connect(n@),
            Action::Disconnect(n) => ActionModel::Disconnect(n@),
            Action::Release(n) => ActionModel::Release(n@),
        }
    }
}

pub open spec fn actions_model(v: Seq<Action>) -> Seq<ActionModel> {
    v.map_values(|a: Action| a@)
}

/// `connect`: each name in the order given, a connect for a known server and
/// a not-found report for an unknown one.
pub open spec fn connect_plan(s: Seq<ServerModel>, names: Seq<Seq<char>>) -> Seq<ActionModel> {
    names.map_values(
        |n: Seq<char>|
            if has_server(s, n) {
                ActionModel::Connect(n)
            } else {
                ActionModel::Print(ReportModel::NotFound(n))
            },
    )
}

/// `disconnect`: a disconnect for a known server, else a not-found report.
pub open spec fn disconnect_plan(s: Seq<ServerModel>, n: Seq<char>) -> ActionModel {
    if has_server(s, n) {
        ActionModel::Disconnect(n)
    } else {
        ActionModel::Print(ReportModel::NotFound(n))
    }
}

/// The registry after a command, and the work it leaves for the host.
pub open spec fn execute_spec(s: Seq<ServerModel>, c: CommandModel) -> (Seq<ServerModel>, Seq<ActionModel>) {
    match c {
        CommandModel::Help => (s, seq![ActionModel::ShowHelp]),
        CommandModel::ListServers => (s, listing(s).map_values(|r: ReportModel| ActionModel::Print(r))),
        CommandModel::AddServer { name, homeserver } => if has_server(s, name) {
            (s, seq![ActionModel::Print(add_spec(s, name, homeserver).1)])
        } else {
            (
                add_spec(s, name, homeserver).0,
                seq![
                    ActionModel::StoreHomeserver { name, homeserver },
                    ActionModel::Print(add_spec(s, name, homeserver).1),
                ],
            )
        },
        CommandModel::DeleteServer { name } => if delete_spec(s, name).1 == ReportModel::ServerDeleted(
            name,
        ) {
            (
                delete_spec(s, name).0,
                seq![ActionModel::Release(name), ActionModel::Print(delete_spec(s, name).1)],
            )
        } else {
            (s, seq![ActionModel::Print(delete_spec(s, name).1)])
        },
        CommandModel::Connect { names } => (s, connect_plan(s, names)),
        CommandModel::Disconnect { name } => (s, seq![disconnect_plan(s, name)]),
    }
}

/// A whole command line: a refused line changes nothing and is reported.
pub open spec fn run_spec(s: Seq<ServerModel>, t: Seq<Seq<char>>) -> (Seq<ServerModel>, Seq<ActionModel>) {
    match parse_spec(t) {
        Ok(c) => execute_spec(s, c),
        Err(e) => (s, seq![ActionModel::Usage(e)]),
    }
}

impl ServerRegistry {
    /// The work for `connect` with these names, in the order given.
    pub fn connect_command(&self, names: &Vec<String>) -> (r: Vec<Action>)
        requires
            self.wf(),
        ensures
            actions_model(r@) == connect_plan(self@, names.deep_view()),
    {
        let mut r: Vec<Action> = Vec::new();
        let mut i: usize = 0;
        while i < names.len()
            invariant
                self.wf(),
                i <= names.len(),
                actions_model(r@) =~= connect_plan(self@, names.deep_view().subrange(0, i as int)),
            decreases names.len() - i,
        {
            let ghost before = actions_model(r@);
            let name = names[i].clone();
            let a = if self.contains(&name) {
                Action::Connect(name)
            } else {
                Action::Print(Report::NotFound(name))
            };
            r.push(a);
            assert(names.deep_view().subrange(0, i + 1) =~= names.deep_view().subrange(0, i as int).push(
                names[i as int]@,
            ));
            assert(actions_model(r@) =~= before.push(a@));
            i = i + 1;
        }
        assert(names.deep_view().subrange(0, i as int) =~= names.deep_view());
        r
    }

    /// The work for `disconnect` with this name.
    pub fn disconnect_command(&self, name: &String) -> (r: Action)
        requires
            self.wf(),
        ensures
            r@ == disconnect_plan(self@, name@),
    {
        if self.contains(name) {
            Action::Disconnect(name.clone())
        } else {
            Action::Print(Report::NotFound(name.clone()))
        }
    }

    /// Carries out a parsed command.
    pub fn execute(&mut self, command: Command) -> (r: Vec<Action>)
        requires
            old(self).wf(),
        ensures
            final(self).wf(),
            (final(self)@, actions_model(r@)) == execute_spec(old(self)@, command@),
    {
        let ghost s = self@;
        let ghost c = command@;
        match command {
            Command::Help => {
                let r = vec![Action::ShowHelp];
                assert(actions_model(r@) =~= seq![ActionModel::ShowHelp]);
                r
            },
            Command::ListServers => {
                let mut lines = self.list_servers();
                let ghost all = crate::registry::reports_model(lines@);
                let mut r: Vec<Action> = Vec::new();
                while lines.len() > 0
                    invariant
                        all.len() == r@.len() + lines@.len(),
                        actions_model(r@) =~= all.subrange(0, r@.len() as int).map_values(
                            |x: ReportModel| ActionModel::Print(x),
                        ),
                        crate::registry::reports_model(lines@) =~= all.subrange(r@.len() as int, all.len() as int),
                    decreases lines.len(),
                {
                    let ghost before = actions_model(r@);
                    let ghost k = r@.len() as int;
                    let ghost old_lines = lines@;
                    assert(crate::registry::reports_model(old_lines)[0] == all[k]);
                    let line = lines.remove(0);
                    assert(lines@ =~= old_lines.subrange(1, old_lines.len() as int));
                    assert(all[k] == line@);
                    r.push(Action::Print(line));
                    assert(actions_model(r@) =~= before.push(ActionModel::Print(all[k])));
                    assert(all.subrange(0, k + 1) =~= all.subrange(0, k).push(all[k]));
                    assert forall|j: int| 0 <= j < lines@.len() implies #[trigger] lines@[j]@ == all[k + 1 + j] by {
                        assert(lines@[j] == old_lines[j + 1]);
                        assert(crate::registry::reports_model(old_lines)[j + 1] == all[k + 1 + j]);
                    }
                    assert(crate::registry::reports_model(lines@) =~= all.subrange(k + 1, all.len() as int));
                }
                assert(all.subrange(0, r@.len() as int) =~= all);
                r
            },
            Command::AddServer { name, homeserver } => {
                let stored_name = name.clone();
                let stored_homeserver = homeserver.clone();
                let report = self.add_server(name, homeserver);
                match report {
                    Report::ServerAdded(_) => {
                        let r = vec![
                            Action::StoreHomeserver { name: stored_name, homeserver: stored_homeserver },
                            Action::Print(report),
                        ];
                        assert(actions_model(r@) =~= execute_spec(s, c).1);
                        r
                    },
                    _ => {
                        let r = vec![Action::Print(report)];
                        assert(actions_model(r@) =~= execute_spec(s, c).1);
                        r
                    },
                }
            },
            Command::DeleteServer { name } => {
                let report = self.delete_server(&name);
                match report {
                    Report::ServerDeleted(_) => {
                        let r = vec![Action::Release(name), Action::Print(report)];
                        assert(actions_model(r@) =~= execute_spec(s, c).1);
                        r
                    },
                    _ => {
                        let r = vec![Action::Print(report)];
                        assert(actions_model(r@) =~= execute_spec(s, c).1);
                        r
                    },
                }
            },
            Command::Connect { names } => self.connect_command(&names),
            Command::Disconnect { name } => {
                let r = vec![self.disconnect_command(&name)];
                assert(actions_model(r@) =~= execute_spec(s, c).1);
                r
            },
        }
    }

    /// Parses a command line, given as its tokens without the command's own
    /// name, and carries it out. A line that the grammar refuses leaves the
    /// registry untouched.
    pub fn run(&mut self, tokens: &Vec<String>) -> (r: Vec<Action>)
        requires
            old(self).wf(),
        ensures
            final(self).wf(),
            (final(self)@, actions_model(r@)) == run_spec(old(self)@, tokens.deep_view()),
    {
        match parse_command(tokens) {
            Ok(c) => self.execute(c),
            Err(e) => {
                let r = vec![Action::Usage(e)];
                assert(actions_model(r@) =~= seq![ActionModel::Usage(e@)]);
                r
            },
        }
    }
}

} // verus!
