//! What the synchronisation task is started with.

use vstd::prelude::*;

verus! {

/// How long the task waits for the readiness signal, in seconds.
pub const READY_TIMEOUT_SECS: u64 = 5;

/// The quiet period after which the watcher delivers a notification, in
/// milliseconds.
pub const DEBOUNCE_MILLIS: u64 = 200;

/// The directory that is watched and indexed, and the port that is served.
///
/// A configuration is never changed once made; the task works on a copy of
/// the root path.
#[derive(Clone, Debug, PartialEq, Eq)]
pub struct Config {
    news_root: String,
    port: u16,
}

/// A configuration as contracts speak of it.
pub ghost struct ConfigView {
    pub news_root: Seq<char>,
    pub port: u16,
}

impl View for Config {
    type V = ConfigView;

    closed spec fn view(&self) -> ConfigView {
        ConfigView { news_root: self.news_root@, port: self.port }
    }
}

impl Config {
    /// A configuration for the tree under `news_root`, served on `port`.
    pub fn new(news_root: String, port: u16) -> (config: Self)
        ensures
            config@ == (ConfigView { news_root: news_root@, port }),
    {
        Config { news_root, port }
    }

    /// The directory to watch and index.
    pub fn news_root(&self) -> (root: &str)
        ensures
            root@ == self@.news_root,
    {
        self.news_root.as_str()
    }

    /// The port that the serving layer listens on.
    pub fn port(&self) -> (port: u16)
        ensures
            port == self@.port,
    {
        self.port
    }
}

} // verus!
