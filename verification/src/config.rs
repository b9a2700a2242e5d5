//! Settings the process is started with.

use vstd::prelude::*;

verus! {

/// The environment the process runs in.
#[derive(Debug, PartialEq, Eq, Structural, Clone, Copy)]
pub enum Env {
    Production,
    Development,
}

/// Where the database and the message queue are found, and the environment.
#[derive(Debug)]
pub struct AppCfg {
    pub database_url: String,
    pub rabbitmq_url: String,
    pub env: Env,
}

/// What happened to a file under the template directory.
#[derive(Debug, Clone, Copy, PartialEq, Eq, Structural)]
pub enum TemplateChange {
    /// The file's metadata changed, as it does when the file is written.
    Touched,
    /// The file was removed.
    Removed,
    /// Anything else.
    Other,
}

impl TemplateChange {
    /// Whether the templates are loaded anew after this change.
    pub open spec fn spec_calls_for_reload(self) -> bool {
        self == TemplateChange::Touched || self == TemplateChange::Removed
    }

    /// Whether the templates are loaded anew after this change: they are
    /// when a file was touched or removed.
    #[verifier::when_used_as_spec(spec_calls_for_reload)]
    pub fn calls_for_reload(self) -> (reload: bool)
        ensures
            reload == self.spec_calls_for_reload(),
    {
        match self {
            TemplateChange::Touched | TemplateChange::Removed => true,
            TemplateChange::Other => false,
        }
    }
}

impl AppCfg {
    /// Whether this environment reloads templates when their files change.
    pub open spec fn spec_watches_templates(&self) -> bool {
        self.env == Env::Development
    }

    /// Whether this environment reloads templates when their files change:
    /// development does, production does not.
    #[verifier::when_used_as_spec(spec_watches_templates)]
    pub fn watches_templates(&self) -> (watches: bool)
        ensures
            watches == self.spec_watches_templates(),
    {
        self.env == Env::Development
    }
}

} // verus!
