//! Connection settings that persist between runs.
use crate::app_state::RenderMode;
use vstd::prelude::*;

verus! {

/// The settings file's content: where to connect, the API credentials, the
/// name last used, and the preferred video renderer.
#[derive(Clone, Debug)]
pub struct Config {
    pub livekit_url: String,
    pub api_key: String,
    pub api_secret: String,
    pub last_username: String,
    pub render_mode: Option<String>,
}

/// A configuration with every text taken as its characters.
pub struct ConfigView {
    pub livekit_url: Seq<char>,
    pub api_key: Seq<char>,
    pub api_secret: Seq<char>,
    pub last_username: Seq<char>,
    pub render_mode: Option<Seq<char>>,
}

/// The characters of an optional text.
pub open spec fn opt_view(o: Option<String>) -> Option<Seq<char>> {
    match o {
        Some(s) => Some(s@),
        None => None,
    }
}

impl View for Config {
    type V = ConfigView;

    open spec fn view(&self) -> ConfigView {
        ConfigView {
            livekit_url: self.livekit_url@,
            api_key: self.api_key@,
            api_secret: self.api_secret@,
            last_username: self.last_username@,
            render_mode: opt_view(self.render_mode),
        }
    }
}

/// The server address used when none is configured.
pub open spec fn default_url_spec() -> Seq<char> {
    "wss://your-project.livekit.cloud"@
}

/// The settings used when no file can be read: each environment value that is
/// present wins, else the URL placeholder and empty credentials.
pub open spec fn fallback_config_spec(
    url: Option<Seq<char>>,
    key: Option<Seq<char>>,
    secret: Option<Seq<char>>,
) -> ConfigView {
    ConfigView {
        livekit_url: match url {
            Some(u) => u,
            None => default_url_spec(),
        },
        api_key: match key {
            Some(k) => k,
            None => Seq::empty(),
        },
        api_secret: match secret {
            Some(s) => s,
            None => Seq::empty(),
        },
        last_username: Seq::empty(),
        render_mode: None,
    }
}

impl Config {
    /// Builds the fallback settings from the values of `LIVEKIT_URL`,
    /// `LIVEKIT_API_KEY` and `LIVEKIT_API_SECRET`, each `None` when unset.
    pub fn from_environment(url: Option<String>, key: Option<String>, secret: Option<String>) -> (c: Config)
        ensures
            c@ == fallback_config_spec(opt_view(url), opt_view(key), opt_view(secret)),
    {
        let livekit_url = match url {
            Some(u) => u,
            None => {
                let u = String::from_str("wss://your-project.livekit.cloud");
                proof { reveal_strlit("wss://your-project.livekit.cloud"); }
                u
            },
        };
        let api_key = match key {
            Some(k) => k,
            None => String::new(),
        };
        let api_secret = match secret {
            Some(s) => s,
            None => String::new(),
        };
        Config { livekit_url, api_key, api_secret, last_username: String::new(), render_mode: None }
    }
}

/// The renderer a configuration names: `"halfblock"` selects the half-block
/// renderer; anything else, or nothing, the Braille renderer.
pub open spec fn render_mode_from_spec(name: Option<Seq<char>>) -> RenderMode {
    match name {
        Some(n) => if n == "halfblock"@ { RenderMode::HalfBlock } else { RenderMode::Braille },
        None => RenderMode::Braille,
    }
}

/// The name under which a renderer is saved.
pub open spec fn render_mode_name_spec(m: RenderMode) -> Seq<char> {
    match m {
        RenderMode::Braille => "braille"@,
        RenderMode::HalfBlock => "halfblock"@,
    }
}

/// Reads the renderer choice out of a saved configuration.
pub fn render_mode_from_config(name: &Option<String>) -> (m: RenderMode)
    ensures
        m == render_mode_from_spec(opt_view(*name)),
{
    match name {
        Some(n) => {
            let h = String::from_str("halfblock");
            if *n == h {
                RenderMode::HalfBlock
            } else {
                RenderMode::Braille
            }
        },
        None => RenderMode::Braille,
    }
}

/// The name under which a renderer choice is saved.
pub fn render_mode_name(m: RenderMode) -> (s: String)
    ensures
        s@ == render_mode_name_spec(m),
{
    match m {
        RenderMode::Braille => String::from_str("braille"),
        RenderMode::HalfBlock => String::from_str("halfblock"),
    }
}

/// Saving a renderer choice and reading it back gives the same renderer.
pub proof fn render_mode_round_trip(m: RenderMode)
    ensures
        render_mode_from_spec(Some(render_mode_name_spec(m))) == m,
{
    reveal_strlit("braille");
    reveal_strlit("halfblock");
    assert("braille"@[0] != "halfblock"@[0]);
}

} // verus!
