//! Plain state of the terminal front end: which configuration tab is
//! open and what stage the application is in. The rendering itself
//! lives with the embedder.
use vstd::prelude::*;

verus! {

/// The tabs of the configuration view, cycled with next/previous.
#[derive(Debug, Clone, Copy, PartialEq, Eq, Structural)]
pub enum ConfigTab {
    ApiKeys,
    ModelAliases,
    Help,
}

impl ConfigTab {
    /// The tab to the right, wrapping around.
    pub fn next(self) -> (r: Self)
        ensures
            r == (match self {
                ConfigTab::ApiKeys => ConfigTab::ModelAliases,
                ConfigTab::ModelAliases => ConfigTab::Help,
                ConfigTab::Help => ConfigTab::ApiKeys,
            }),
    {
        match self {
            ConfigTab::ApiKeys => ConfigTab::ModelAliases,
            ConfigTab::ModelAliases => ConfigTab::Help,
            ConfigTab::Help => ConfigTab::ApiKeys,
        }
    }

    /// The tab to the left, wrapping around: the inverse of `next`.
    pub fn prev(self) -> (r: Self)
        ensures
            r == (match self {
                ConfigTab::ApiKeys => ConfigTab::Help,
                ConfigTab::ModelAliases => ConfigTab::ApiKeys,
                ConfigTab::Help => ConfigTab::ModelAliases,
            }),
    {
        match self {
            ConfigTab::ApiKeys => ConfigTab::Help,
            ConfigTab::ModelAliases => ConfigTab::ApiKeys,
            ConfigTab::Help => ConfigTab::ModelAliases,
        }
    }
}

/// The application's coarse stage.
#[derive(Debug, Clone, Copy, PartialEq, Eq, Structural)]
pub enum AppStage {
    Normal,
    Installing,
    Installed,
    PromptInstall(i64),
    Config(ConfigTab),
}

} // verus!
