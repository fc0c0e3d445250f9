//! Command-line arguments.

use vstd::prelude::*;

verus! {

/// What one run of the program does.
#[derive(Clone, Copy, Debug, PartialEq, Eq)]
pub enum AppCommand {
    /// Apply the master layout, or restore the saved layout when one exists.
    Toggle,
    /// Make the master column wider by one step.
    GrowMaster,
    /// Make the master column narrower by one step.
    ShrinkMaster,
}

/// Arguments that name no command.
#[derive(Clone, Copy, Debug, PartialEq, Eq)]
pub enum ArgsError {
    /// More than one argument, or an unknown one.
    InvalidArgs,
}

impl ArgsError {
    /// The text shown to the user for this error.
    pub fn message(&self) -> (r: &'static str)
        ensures
            r@ == usage_text(),
    {
        "usage: niri-master-layout [grow-master|shrink-master]"
    }
}

/// The usage line printed for invalid arguments.
pub open spec fn usage_text() -> Seq<char> {
    "usage: niri-master-layout [grow-master|shrink-master]"@
}

/// The error for arguments that name no command.
pub fn invalid_args() -> (e: ArgsError)
    ensures
        e == ArgsError::InvalidArgs,
{
    ArgsError::InvalidArgs
}

/// The command named by the program's arguments (without the program
/// name). An argument that is not valid Unicode is given as `None`.
pub open spec fn parse_args_spec(args: Seq<Option<String>>) -> Result<AppCommand, ArgsError> {
    if args.len() == 0 {
        Ok(AppCommand::Toggle)
    } else if args.len() > 1 {
        Err(ArgsError::InvalidArgs)
    } else {
        match args[0] {
            Some(text) => if text@ == "grow-master"@ {
                Ok(AppCommand::GrowMaster)
            } else if text@ == "shrink-master"@ {
                Ok(AppCommand::ShrinkMaster)
            } else {
                Err(ArgsError::InvalidArgs)
            },
            None => Err(ArgsError::InvalidArgs),
        }
    }
}

/// Parses the arguments that follow the program name: none means toggle,
/// a single `grow-master` or `shrink-master` names a resize, anything else
/// is an error. An argument that is not valid Unicode is given as `None`.
pub fn parse_args_from(args: &Vec<Option<String>>) -> (r: Result<AppCommand, ArgsError>)
    ensures
        r == parse_args_spec(args@),
{
    if args.len() == 0 {
        return Ok(AppCommand::Toggle);
    }
    if args.len() > 1 {
        return Err(invalid_args());
    }
    match &args[0] {
        Some(text) => {
            let grow = String::from_str("grow-master");
            let shrink = String::from_str("shrink-master");
            if *text == grow {
                Ok(AppCommand::GrowMaster)
            } else if *text == shrink {
                Ok(AppCommand::ShrinkMaster)
            } else {
                Err(invalid_args())
            }
        },
        None => Err(invalid_args()),
    }
}

} // verus!
