//! The command-line form: from its arguments and the configuration file to
//! the settings of one run.
use vstd::prelude::*;
use crate::config::{AppConfig, ConfigFile};

verus! {

/// The command line: an optional language, the input video and the output
/// subtitle file.
pub struct Args {
    pub language: Option<String>,
    pub input: Option<String>,
    pub output: Option<String>,
}

/// A command line that names no run.
#[derive(Clone, Copy, Debug, PartialEq, Eq, Structural)]
pub enum ArgsError {
    /// No input video was given.
    MissingInput,
    /// No output subtitle file was given.
    MissingOutput,
}

/// The settings of the run that `args` asks for: the language of the
/// command line wins over the one of the configuration file.
pub fn create_app_config(args: Args, config: ConfigFile) -> (r: Result<AppConfig, ArgsError>)
    ensures
        args.input is None ==> r == Err::<AppConfig, ArgsError>(ArgsError::MissingInput),
        args.input is Some && args.output is None ==> r == Err::<AppConfig, ArgsError>(
            ArgsError::MissingOutput,
        ),
        args.input is Some && args.output is Some ==> r is Ok,
        r matches Ok(c) ==> {
            &&& c.input == args.input->Some_0
            &&& c.output == args.output->Some_0
            &&& c.model == config.base.model
            &&& c.language == match args.language {
                Some(l) => l,
                None => config.base.language,
            }
        },
{
    let input = match args.input {
        Some(i) => i,
        None => {
            return Err(ArgsError::MissingInput);
        },
    };
    let output = match args.output {
        Some(o) => o,
        None => {
            return Err(ArgsError::MissingOutput);
        },
    };
    let language = match args.language {
        Some(l) => l,
        None => config.base.language,
    };
    Ok(AppConfig { input, output, model: config.base.model, language })
}

} // verus!
