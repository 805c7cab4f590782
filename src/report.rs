//! Messages for the host's output stream, and the text each one prints as.
use vstd::prelude::*;
use vstd::string::*;

verus! {

/// The host's opaque formatting tokens: the colour that opens a server name,
/// the marker that resets the colour, and the prefix that marks an error.
pub struct Markup {
    pub server_color: String,
    pub reset: String,
    pub error_prefix: String,
}

/// One line of output produced by a command.
#[derive(PartialEq, Eq, Clone, Debug)]
pub enum Report {
    ServerAdded(String),
    ServerExists(String),
    NoSuchServer(String),
    StillConnected(String),
    ServerDeleted(String),
    NotFound(String),
    ConnectFailed(String),
    ListHeader,
    ListEntry(String),
}

/// A [`Report`] with its texts as character sequences.
pub enum ReportModel {
    ServerAdded(Seq<char>),
    ServerExists(Seq<char>),
    NoSuchServer(Seq<char>),
    StillConnected(Seq<char>),
    ServerDeleted(Seq<char>),
    NotFound(Seq<char>),
    ConnectFailed(Seq<char>),
    ListHeader,
    ListEntry(Seq<char>),
}

impl View for Report {
    type V = ReportModel;

    open spec fn view(&self) -> ReportModel {
        match self {
            Report::ServerAdded(n) => ReportModel::ServerAdded(n@),
            Report::ServerExists(n) => ReportModel::ServerExists(n@),
            Report::NoSuchServer(n) => ReportModel::NoSuchServer(n@),
            Report::StillConnected(n) => ReportModel::StillConnected(n@),
            Report::ServerDeleted(n) => ReportModel::ServerDeleted(n@),
            Report::NotFound(n) => ReportModel::NotFound(n@),
            Report::ConnectFailed(e) => ReportModel::ConnectFailed(e@),
            Report::ListHeader => ReportModel::ListHeader,
            Report::ListEntry(n) => ReportModel::ListEntry(n@),
        }
    }
}

/// A server name set in the server colour, with the colour reset after it.
pub open spec fn colored_name(m: Markup, n: Seq<char>) -> Seq<char> {
    m.server_color@ + n + m.reset@
}

/// The line that `r` prints as under the markup `m`.
pub open spec fn report_text(r: ReportModel, m: Markup) -> Seq<char> {
    match r {
        ReportModel::ServerAdded(n) => "matrix: Server "@ + colored_name(m, n) + " has been added."@,
        ReportModel::ServerExists(n) => m.error_prefix@ + "matrix: Server "@ + colored_name(m, n)
            + " already exists."@,
        ReportModel::NoSuchServer(n) => "matrix: No such server "@ + colored_name(m, n)
            + " found."@,
        ReportModel::StillConnected(n) => "matrix: Server "@ + colored_name(m, n)
            + " is still connected."@,
        ReportModel::ServerDeleted(n) => "matrix: Server "@ + colored_name(m, n)
            + " has been deleted."@,
        ReportModel::NotFound(n) => m.error_prefix@ + "matrix: Server \""@ + colored_name(m, n)
            + "\" not found."@,
        ReportModel::ConnectFailed(e) => e,
        ReportModel::ListHeader => "\nAll Matrix servers:"@,
        ReportModel::ListEntry(n) => "    "@ + m.server_color@ + n,
    }
}

impl Report {
    /// The line this report prints as under the markup `m`.
    pub fn text(&self, m: &Markup) -> (r: String)
        ensures
            r@ == report_text(self@, *m),
    {
        match self {
            Report::ServerAdded(n) => {
                let mut s = String::from_str("matrix: Server ");
                s.append(m.server_color.as_str());
                s.append(n.as_str());
                s.append(m.reset.as_str());
                s.append(" has been added.");
                s
            },
            Report::ServerExists(n) => {
                let mut s = m.error_prefix.clone();
                s.append("matrix: Server ");
                s.append(m.server_color.as_str());
                s.append(n.as_str());
                s.append(m.reset.as_str());
                s.append(" already exists.");
                s
            },
            Report::NoSuchServer(n) => {
                let mut s = String::from_str("matrix: No such server ");
                s.append(m.server_color.as_str());
                s.append(n.as_str());
                s.append(m.reset.as_str());
                s.append(" found.");
                s
            },
            Report::StillConnected(n) => {
                let mut s = String::from_str("matrix: Server ");
                s.append(m.server_color.as_str());
                s.append(n.as_str());
                s.append(m.reset.as_str());
                s.append(" is still connected.");
                s
            },
            Report::ServerDeleted(n) => {
                let mut s = String::from_str("matrix: Server ");
                s.append(m.server_color.as_str());
                s.append(n.as_str());
                s.append(m.reset.as_str());
                s.append(" has been deleted.");
                s
            },
            Report::NotFound(n) => {
                let mut s = m.error_prefix.clone();
                s.append("matrix: Server \"");
                s.append(m.server_color.as_str());
                s.append(n.as_str());
                s.append(m.reset.as_str());
                s.append("\" not found.");
                s
            },
            Report::ConnectFailed(e) => e.clone(),
            Report::ListHeader => String::from_str("\nAll Matrix servers:"),
            Report::ListEntry(n) => {
                let mut s = String::from_str("    ");
                s.append(m.server_color.as_str());
                s.append(n.as_str());
                s
            },
        }
    }
}

} // verus!
