//! The values that a deployment is seeded with.

use vstd::prelude::*;

verus! {

/// The machine that the deployment runs on.
pub struct Server {
    /// The host name of the node that holds the volumes.
    pub node: String,
    /// The domain under which the server is reached.
    pub domain: String,
}

/// The account of the first administrator.
pub struct Root {
    pub user: String,
    pub passwd: String,
    pub email: String,
}

/// The values that a deployment is seeded with.
pub struct Config {
    pub server: Server,
    pub root: Root,
}

/// The mathematical value of a [`Server`].
pub struct ServerView {
    pub node: Seq<char>,
    pub domain: Seq<char>,
}

/// The mathematical value of a [`Root`].
pub struct RootView {
    pub user: Seq<char>,
    pub passwd: Seq<char>,
    pub email: Seq<char>,
}

/// The mathematical value of a [`Config`].
pub struct ConfigView {
    pub server: ServerView,
    pub root: RootView,
}

impl View for Server {
    type V = ServerView;

    open spec fn view(&self) -> ServerView {
        ServerView { node: self.node@, domain: self.domain@ }
    }
}

impl View for Root {
    type V = RootView;

    open spec fn view(&self) -> RootView {
        RootView { user: self.user@, passwd: self.passwd@, email: self.email@ }
    }
}

impl View for Config {
    type V = ConfigView;

    open spec fn view(&self) -> ConfigView {
        ConfigView { server: self.server@, root: self.root@ }
    }
}

/// The scripts that the init containers of the Gitea server run.
pub struct Scripts {
    /// Prepares the data directory.
    pub init: String,
    /// Brings the database up to date and creates the first administrator.
    pub migrate: String,
}

/// The mathematical value of a [`Scripts`].
pub struct ScriptsView {
    pub init: Seq<char>,
    pub migrate: Seq<char>,
}

impl View for Scripts {
    type V = ScriptsView;

    open spec fn view(&self) -> ScriptsView {
        ScriptsView { init: self.init@, migrate: self.migrate@ }
    }
}

} // verus!
