//! Settings: what `~/.config/shout/config.toml` may set, their defaults, the
//! environment override, and where models, notes and the file itself live.
//!
//! Reading the home directory, the environment and the file is the
//! caller's part; the functions here take what was read.
use vstd::prelude::*;

use crate::text::{owned, push_char, push_str};

verus! {

/// The folder name of the Parakeet model.
pub const PARAKEET_DIR_NAME: &'static str = "sherpa-onnx-nemo-parakeet-tdt-0.6b-v2-int8";

/// The file name of the Whisper model.
pub const WHISPER_MODEL_FILE: &'static str = "ggml-large-v3.bin";

/// The settings.
#[derive(Clone, Debug)]
pub struct Config {
    /// Base URL of the Ollama server (OpenAI-compatible API).
    pub ollama_url: String,
    /// Model used for dictation cleanup.
    pub ollama_model: String,
    /// Model used for meeting summaries.
    pub ollama_summary_model: String,
    /// Push-to-talk shortcut, e.g. "alt+space".
    pub hotkey: String,
    /// Shortcut that starts and stops meeting capture.
    pub ghost_hotkey: String,
    /// Directory holding the Parakeet ONNX model files. When unset, falls back
    /// to ./models (dev checkout) then ~/.config/shout/models.
    pub parakeet_model_dir: Option<String>,
    /// Path of the Whisper model; when unset, the one in the models folder.
    pub whisper_model: Option<String>,
    /// The Obsidian vault meeting notes go to; when unset, ~/Documents/ShoutVault.
    pub vault_dir: Option<String>,
    /// Microphone for dictation; when unset, the system default.
    pub input_device: Option<String>,
    /// Input for meeting capture (e.g. a mic + loopback aggregate device).
    pub ghost_input_device: Option<String>,
    /// Whether partial transcripts are typed at the cursor.
    pub live_typing: bool,
}

/// The default settings, as views.
pub open spec fn is_default(c: Config) -> bool {
    &&& c.ollama_url@ == "http://localhost:11434"@
    &&& c.ollama_model@ == "qwen2.5:7b"@
    &&& c.ollama_summary_model@ == "qwen2.5:7b"@
    &&& c.hotkey@ == "alt+space"@
    &&& c.ghost_hotkey@ == "alt+shift+g"@
    &&& c.parakeet_model_dir is None
    &&& c.whisper_model is None
    &&& c.vault_dir is None
    &&& c.input_device is None
    &&& c.ghost_input_device is None
    &&& !c.live_typing
}

impl Default for Config {
    fn default() -> (c: Self)
        ensures
            is_default(c),
    {
        Config {
            ollama_url: owned("http://localhost:11434"),
            ollama_model: owned("qwen2.5:7b"),
            ollama_summary_model: owned("qwen2.5:7b"),
            hotkey: owned("alt+space"),
            ghost_hotkey: owned("alt+shift+g"),
            parakeet_model_dir: None,
            whisper_model: None,
            vault_dir: None,
            input_device: None,
            ghost_input_device: None,
            live_typing: false,
        }
    }
}

/// `rel` (a relative path) appended to `base` as `Path::join` does on Unix:
/// with one `/` between them, none added when `base` is empty or already
/// ends in `/`.
pub open spec fn join_path(base: Seq<char>, rel: Seq<char>) -> Seq<char> {
    if base.len() == 0 {
        rel
    } else if base.last() == '/' {
        base + rel
    } else {
        base + seq!['/'] + rel
    }
}

/// `rel` (a relative path) appended to `base`.
pub fn join(base: &str, rel: &str) -> (r: String)
    ensures
        r@ == join_path(base@, rel@),
{
    let n = base.unicode_len();
    let mut r = String::new();
    push_str(&mut r, base);
    if n > 0 && base.get_char(n - 1) != '/' {
        push_char(&mut r, '/');
    }
    push_str(&mut r, rel);
    r
}

impl Config {
    /// Where the settings file lives: `~/.config/shout/config.toml`, given the
    /// home directory (none without one).
    pub fn config_path(home: Option<&str>) -> (r: Option<String>)
        ensures
            match home {
                Some(h) => r matches Some(p) && p@ == join_path(h@, ".config/shout/config.toml"@),
                None => r is None,
            },
    {
        match home {
            Some(h) => Some(join(h, ".config/shout/config.toml")),
            None => None,
        }
    }

    /// Applies the `SHOUT_OLLAMA_URL` override, given its value: a non-empty
    /// value replaces the Ollama URL; nothing else changes.
    pub fn apply_env(&mut self, ollama_url_var: Option<String>)
        ensures
            match ollama_url_var {
                Some(u) => u@.len() > 0 ==> final(self).ollama_url@ == u@,
                None => true,
            },
            (ollama_url_var is None || ollama_url_var->0@.len() == 0) ==> final(self).ollama_url
                == old(self).ollama_url,
            final(self).ollama_model == old(self).ollama_model,
            final(self).ollama_summary_model == old(self).ollama_summary_model,
            final(self).hotkey == old(self).hotkey,
            final(self).ghost_hotkey == old(self).ghost_hotkey,
            final(self).parakeet_model_dir == old(self).parakeet_model_dir,
            final(self).whisper_model == old(self).whisper_model,
            final(self).vault_dir == old(self).vault_dir,
            final(self).input_device == old(self).input_device,
            final(self).ghost_input_device == old(self).ghost_input_device,
            final(self).live_typing == old(self).live_typing,
    {
        if let Some(url) = ollama_url_var {
            if url.as_str().unicode_len() > 0 {
                self.ollama_url = url;
            }
        }
    }

    /// The models folder: the checkout's `models/` in a development build
    /// when it exists (`dev_models`, found by the caller), else
    /// `~/.config/shout/models`, else `models` relative to the working
    /// directory.
    pub fn models_root(dev_models: Option<&str>, home: Option<&str>) -> (r: String)
        ensures
            r@ == match (dev_models, home) {
                (Some(d), _) => d@,
                (None, Some(h)) => join_path(h@, ".config/shout/models"@),
                (None, None) => "models"@,
            },
    {
        match (dev_models, home) {
            (Some(d), _) => owned(d),
            (None, Some(h)) => join(h, ".config/shout/models"),
            (None, None) => owned("models"),
        }
    }

    /// Where the Parakeet model lives: the configured folder, else its folder
    /// inside the models folder (see [`Config::models_root`]).
    pub fn parakeet_dir(&self, dev_models: Option<&str>, home: Option<&str>) -> (r: String)
        ensures
            r@ == match self.parakeet_model_dir {
                Some(d) => d@,
                None => join_path(
                    match (dev_models, home) {
                        (Some(d), _) => d@,
                        (None, Some(h)) => join_path(h@, ".config/shout/models"@),
                        (None, None) => "models"@,
                    },
                    PARAKEET_DIR_NAME@,
                ),
            },
    {
        match &self.parakeet_model_dir {
            Some(d) => d.clone(),
            None => {
                let root = Config::models_root(dev_models, home);
                join(root.as_str(), PARAKEET_DIR_NAME)
            },
        }
    }

    /// Where the Whisper model lives: the configured path, else its file in
    /// the models folder `models_root`.
    pub fn whisper_model_path(&self, models_root: &str) -> (r: String)
        ensures
            r@ == match self.whisper_model {
                Some(p) => p@,
                None => join_path(models_root@, WHISPER_MODEL_FILE@),
            },
    {
        match &self.whisper_model {
            Some(p) => p.clone(),
            None => join(models_root, WHISPER_MODEL_FILE),
        }
    }

    /// The vault meeting notes go to: the configured one, else
    /// `~/Documents/ShoutVault` (or `ShoutVault` without a home directory).
    pub fn vault_dir(&self, home: Option<&str>) -> (r: String)
        ensures
            r@ == match self.vault_dir {
                Some(v) => v@,
                None => match home {
                    Some(h) => join_path(h@, "Documents/ShoutVault"@),
                    None => "ShoutVault"@,
                },
            },
    {
        match &self.vault_dir {
            Some(v) => v.clone(),
            None => match home {
                Some(h) => join(h, "Documents/ShoutVault"),
                None => owned("ShoutVault"),
            },
        }
    }
}

} // verus!
