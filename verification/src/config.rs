//! Settings of the application shell.

use vstd::prelude::*;

verus! {

/// What the shell remembers between runs.
#[derive(Debug, Clone)]
pub struct AppConfig {
    pub use_winamp_skin: bool,
    pub winamp_skin_path: Option<String>,
}

impl Default for AppConfig {
    /// No skin is chosen and none is used.
    fn default() -> (config: AppConfig)
        ensures
            !config.use_winamp_skin,
            config.winamp_skin_path.is_none(),
    {
        AppConfig { use_winamp_skin: false, winamp_skin_path: None }
    }
}

} // verus!
