//! A record with a builder written out in full: `Command`, with a required
//! field, an accumulated list, a list set at once and an optional field.

use vstd::prelude::*;
use crate::runtime::BuildError;

verus! {

/// A command to run: a program, its arguments, its environment and, if it is
/// not the current one, its working directory.
#[derive(Debug, PartialEq, Eq)]
pub struct Command {
    executable: String,
    args: Vec<String>,
    env: Vec<String>,
    current_dir: Option<String>,
}

/// `Command` as sequences of characters.
pub struct CommandModel {
    pub executable: Seq<char>,
    pub args: Seq<Seq<char>>,
    pub env: Seq<Seq<char>>,
    pub current_dir: Option<Seq<char>>,
}

/// The builder of `Command`.
///
/// `executable` and `env` are required and hold nothing at first; `args`
/// grows by one element with each call of `arg`; `current_dir` is optional.
#[derive(Debug, PartialEq, Eq)]
pub struct CommandBuilder {
    executable: Option<String>,
    args: Vec<String>,
    env: Option<Vec<String>>,
    current_dir: Option<String>,
}

/// `CommandBuilder` as sequences of characters.
pub struct CommandBuilderModel {
    pub executable: Option<Seq<char>>,
    pub args: Seq<Seq<char>>,
    pub env: Option<Seq<Seq<char>>>,
    pub current_dir: Option<Seq<char>>,
}

impl View for Command {
    type V = CommandModel;

    closed spec fn view(&self) -> CommandModel {
        CommandModel {
            executable: self.executable@,
            args: self.args.deep_view(),
            env: self.env.deep_view(),
            current_dir: self.current_dir.deep_view(),
        }
    }
}

impl View for CommandBuilder {
    type V = CommandBuilderModel;

    closed spec fn view(&self) -> CommandBuilderModel {
        CommandBuilderModel {
            executable: self.executable.deep_view(),
            args: self.args.deep_view(),
            env: self.env.deep_view(),
            current_dir: self.current_dir.deep_view(),
        }
    }
}

impl CommandBuilderModel {
    /// The state of a builder on which no setter has been called.
    pub open spec fn fresh() -> CommandBuilderModel {
        CommandBuilderModel {
            executable: None,
            args: Seq::empty(),
            env: None,
            current_dir: None,
        }
    }

    /// The first required field that is absent, by index and name, if there
    /// is one: `executable` comes before `env`.
    pub open spec fn first_missing(self) -> Option<(int, Seq<char>)> {
        if self.executable is None {
            Some((0, "executable"@))
        } else if self.env is None {
            Some((2, "env"@))
        } else {
            None
        }
    }

    /// The command that finalize assembles when nothing is missing.
    pub open spec fn assembled(self) -> CommandModel {
        CommandModel {
            executable: self.executable.unwrap(),
            args: self.args,
            env: self.env.unwrap(),
            current_dir: self.current_dir,
        }
    }

    /// The state that a successful finalize leaves: what was required or
    /// accumulated is taken out, the optional value stays.
    pub open spec fn consumed(self) -> CommandBuilderModel {
        CommandBuilderModel {
            executable: None,
            args: Seq::empty(),
            env: None,
            current_dir: self.current_dir,
        }
    }
}

impl Command {
    /// A fresh builder.
    pub fn builder() -> (builder: CommandBuilder)
        ensures
            builder@ == CommandBuilderModel::fresh(),
    {
        let builder = CommandBuilder {
            executable: None,
            args: Vec::new(),
            env: None,
            current_dir: None,
        };
        assert(builder.args.deep_view() =~= Seq::empty());
        builder
    }

    /// The program to run.
    pub fn executable(&self) -> (executable: &String)
        ensures
            executable@ == self@.executable,
    {
        &self.executable
    }

    /// The arguments of the program, in order.
    pub fn args(&self) -> (args: &Vec<String>)
        ensures
            args.deep_view() == self@.args,
    {
        &self.args
    }

    /// The environment of the program.
    pub fn env(&self) -> (env: &Vec<String>)
        ensures
            env.deep_view() == self@.env,
    {
        &self.env
    }

    /// The working directory, where one is given.
    pub fn current_dir(&self) -> (current_dir: &Option<String>)
        ensures
            current_dir.deep_view() == self@.current_dir,
    {
        &self.current_dir
    }
}

impl CommandBuilder {
    /// Sets the program to run, in place of any set before.
    pub fn set_executable(&mut self, value: String) -> (builder: &mut Self)
        ensures
            builder@ == (CommandBuilderModel { executable: Some(value@), ..old(self)@ }),
            *final(self) == *final(builder),
    {
        self.executable = Some(value);
        self
    }

    /// Appends one argument.
    pub fn arg(&mut self, value: String) -> (builder: &mut Self)
        ensures
            builder@ == (CommandBuilderModel { args: old(self)@.args.push(value@), ..old(self)@ }),
            *final(self) == *final(builder),
    {
        self.args.push(value);
        assert(self.args.deep_view() =~= old(self).args.deep_view().push(value@));
        self
    }

    /// Sets the whole environment at once, in place of any set before.
    pub fn set_env(&mut self, value: Vec<String>) -> (builder: &mut Self)
        ensures
            builder@ == (CommandBuilderModel { env: Some(value.deep_view()), ..old(self)@ }),
            *final(self) == *final(builder),
    {
        self.env = Some(value);
        self
    }

    /// Sets the working directory, in place of any set before.
    pub fn set_current_dir(&mut self, value: String) -> (builder: &mut Self)
        ensures
            builder@ == (CommandBuilderModel { current_dir: Some(value@), ..old(self)@ }),
            *final(self) == *final(builder),
    {
        self.current_dir = Some(value);
        self
    }

    /// Finalizes the builder.
    ///
    /// It fails, and changes nothing, while a required field is absent; the
    /// error names the first such field in declaration order. Else it hands
    /// out the command and leaves the builder with its required fields and
    /// its arguments taken out.
    pub fn build(&mut self) -> (outcome: Result<Command, BuildError>)
        ensures
            (match outcome {
                Ok(command) => {
                    &&& old(self)@.first_missing() is None
                    &&& command@ == old(self)@.assembled()
                    &&& final(self)@ == old(self)@.consumed()
                },
                Err(error) => {
                    &&& old(self)@.first_missing() == Some((error.index as int, error.field@))
                    &&& final(self)@ == old(self)@
                },
            }),
    {
        if self.executable.is_none() {
            return Err(BuildError { index: 0, field: String::from_str("executable") });
        }
        if self.env.is_none() {
            return Err(BuildError { index: 2, field: String::from_str("env") });
        }
        let executable = self.executable.take().unwrap();
        let mut args: Vec<String> = Vec::new();
        std::mem::swap(&mut self.args, &mut args);
        let env = self.env.take().unwrap();
        let current_dir = match &self.current_dir {
            Some(directory) => Some(directory.clone()),
            None => None,
        };
        assert(self.args.deep_view() =~= Seq::empty());
        Ok(Command { executable, args, env, current_dir })
    }
}

} // verus!
