//! The tool's settings: what the configuration file holds, its defaults, and
//! the settings of one run.
use vstd::prelude::*;
use vstd::string::StringExecFns;

verus! {

/// The recognition model used when the configuration names none.
pub const DEFAULT_MODEL: &'static str = "ggml-medium-q8_0.bin";

/// The language setting that asks the recogniser to detect the language.
pub const AUTO_LANGUAGE: &'static str = "auto";

/// The `[base]` table of the configuration file.
pub struct BaseConfig {
    pub model: String,
    pub language: String,
}

/// The configuration, as the desktop front end reads it.
pub struct Config {
    pub base: BaseConfig,
}

/// The configuration file, as the command-line tool reads it.
pub struct ConfigFile {
    pub base: BaseConfig,
}

/// The settings of one run: the video to read, the subtitle file to write,
/// the model to use and the language to expect.
pub struct AppConfig {
    pub input: String,
    pub output: String,
    pub model: String,
    pub language: String,
}

impl Default for BaseConfig {
    fn default() -> (r: Self)
        ensures
            r.model@ == DEFAULT_MODEL@,
            r.language@ == AUTO_LANGUAGE@,
    {
        BaseConfig { model: String::from_str(DEFAULT_MODEL), language: String::from_str(AUTO_LANGUAGE) }
    }
}

impl Default for Config {
    fn default() -> (r: Self)
        ensures
            r.base.model@ == DEFAULT_MODEL@,
            r.base.language@ == AUTO_LANGUAGE@,
    {
        Config { base: BaseConfig::default() }
    }
}

impl Default for ConfigFile {
    fn default() -> (r: Self)
        ensures
            r.base.model@ == DEFAULT_MODEL@,
            r.base.language@ == AUTO_LANGUAGE@,
    {
        ConfigFile { base: BaseConfig::default() }
    }
}

impl Config {
    /// The configured model.
    pub fn model(&self) -> (r: &str)
        ensures
            r@ == self.base.model@,
    {
        self.base.model.as_str()
    }

    /// The configured language.
    pub fn language(&self) -> (r: &str)
        ensures
            r@ == self.base.language@,
    {
        self.base.language.as_str()
    }
}

/// The first part of the configuration file written on first use, up to the
/// model's name.
pub const DEFAULT_CONFIG_HEAD: &'static str = "# Subtitle generator settings, written on first use\n\n[base]\n# Whisper model file\nmodel = \"";

/// The rest of the configuration file written on first use.
pub const DEFAULT_CONFIG_TAIL: &'static str = "\"\n\n# Language of the speech (for example: zh, ja, auto)\nlanguage = \"auto\"\n";

/// The text of the configuration file written on first use: a `[base]`
/// table naming the default model and the language `auto`.
pub fn default_config_text() -> (r: String)
    ensures
        r@ == DEFAULT_CONFIG_HEAD@ + DEFAULT_MODEL@ + DEFAULT_CONFIG_TAIL@,
{
    let mut s = String::from_str(DEFAULT_CONFIG_HEAD);
    s.append(DEFAULT_MODEL);
    s.append(DEFAULT_CONFIG_TAIL);
    s
}

} // verus!
