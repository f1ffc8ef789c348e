//! The two runs of git that a clone is made of, and what each of them leads
//! to.
//!
//! Nothing here starts a program. A caller makes the run that a `Step` asks
//! for, says how it ended, and gets the next step: the remote is asked for its
//! heads first, and the clone is only made where that succeeded.

use vstd::prelude::*;
use vstd::string::StringExecFns;
use crate::configuration::Configuration;
use crate::errors::{GitCommand, GitFailure, JCloneError, JCloneResult};

verus! {

/// A clone to make: of which remote, with which git, and how much of it the
/// user gets to see.
#[derive(Debug, PartialEq)]
pub struct Git {
    pub git_executable: String,
    pub repo_str: String,
    pub print_progress: bool,
    pub report_errors: bool,
}

/// How a run of git ended.
#[derive(Debug, PartialEq)]
pub enum ExitOutcome {
    /// It ran and ended with status zero.
    Success,
    /// It ran and ended with another status.
    Failure,
    /// It could not be started; the text says why.
    NotStarted(String),
}

/// One run of git: the program, its arguments, and which of its streams are
/// handed on to the user.
#[derive(Debug, PartialEq)]
pub struct Invocation {
    pub executable: String,
    pub args: Vec<String>,
    pub show_stdout: bool,
    pub show_stderr: bool,
}

/// An `Invocation` with its texts as sequences of characters.
pub struct InvocationView {
    pub executable: Seq<char>,
    pub args: Seq<Seq<char>>,
    pub show_stdout: bool,
    pub show_stderr: bool,
}

impl View for Invocation {
    type V = InvocationView;

    open spec fn view(&self) -> InvocationView {
        InvocationView {
            executable: self.executable@,
            args: self.args.deep_view(),
            show_stdout: self.show_stdout,
            show_stderr: self.show_stderr,
        }
    }
}

/// What a clone asks of its caller next.
#[derive(Debug, PartialEq)]
pub enum Step {
    /// Make this run, and say how it ended.
    Run(GitCommand, Invocation),
    /// Nothing is left to run; this is how the clone ended.
    Finish(JCloneResult<()>),
}

/// How a run that ended with another status than zero is told to the user.
pub open spec fn failure_of(command: GitCommand) -> GitFailure {
    match command {
        GitCommand::LsRemote => GitFailure::RemoteUnreachable,
        GitCommand::Clone => GitFailure::NonZeroExit,
    }
}

impl Git {
    /// The run that asks the remote for its heads. Its output is never shown;
    /// what it writes to the error stream is shown with the progress.
    pub open spec fn spec_ls_remote(&self) -> InvocationView {
        InvocationView {
            executable: self.git_executable@,
            args: seq!["ls-remote"@, "--heads"@, self.repo_str@],
            show_stdout: false,
            show_stderr: self.print_progress,
        }
    }

    /// The run that clones the remote into `target_dir`. Both its streams are
    /// shown with the progress.
    pub open spec fn spec_clone(&self, target_dir: Seq<char>) -> InvocationView {
        InvocationView {
            executable: self.git_executable@,
            args: seq!["clone"@, self.repo_str@, target_dir],
            show_stdout: self.print_progress,
            show_stderr: self.print_progress,
        }
    }

    /// Whether `result` is what a run of `command` that ended as `outcome`
    /// comes to. A run that could not be started is an error whatever the
    /// user asked to see. One that ended with another status than zero is an
    /// error only where errors are reported.
    pub open spec fn concludes(
        &self,
        command: GitCommand,
        outcome: ExitOutcome,
        result: JCloneResult<()>,
    ) -> bool {
        match outcome {
            ExitOutcome::Success => result is Ok,
            ExitOutcome::Failure => if self.report_errors {
                result == Err::<(), JCloneError>(
                    JCloneError::GitUser { command, message: failure_of(command) },
                )
            } else {
                result is Ok
            },
            ExitOutcome::NotStarted(reason) => {
                &&& result matches Err(JCloneError::GitSystem { executable, command: run, source })
                &&& executable@ == self.git_executable@
                &&& run == command
                &&& source@ == reason@
            },
        }
    }

    /// Whether `step` is what follows a run of `command` that ended as
    /// `outcome`: the clone into `target_dir` after the remote has given its
    /// heads, and the end in every other case.
    pub open spec fn follows(
        &self,
        command: GitCommand,
        outcome: ExitOutcome,
        target_dir: Seq<char>,
        step: Step,
    ) -> bool {
        if command is LsRemote && outcome is Success {
            step matches Step::Run(GitCommand::Clone, invocation) && invocation@
                == self.spec_clone(target_dir)
        } else {
            step matches Step::Finish(result) && self.concludes(command, outcome, result)
        }
    }

    /// The clone of `repo_str` under `config`.
    pub fn new(repo_str: &str, config: &Configuration) -> (git: Git)
        ensures
            git.git_executable@ == config.git_executable@,
            git.repo_str@ == repo_str@,
            git.print_progress == config.output_style.spec_print_progress(),
            git.report_errors == config.output_style.spec_report_errors(),
    {
        Git {
            git_executable: config.git_executable.clone(),
            repo_str: String::from_str(repo_str),
            print_progress: config.output_style.print_progress(),
            report_errors: config.output_style.report_errors(),
        }
    }

    /// The run that asks the remote for its heads.
    pub fn ls_remote(&self) -> (invocation: Invocation)
        ensures
            invocation@ == self.spec_ls_remote(),
    {
        let mut args: Vec<String> = Vec::new();
        args.push(String::from_str("ls-remote"));
        args.push(String::from_str("--heads"));
        args.push(self.repo_str.clone());
        let invocation = Invocation {
            executable: self.git_executable.clone(),
            args,
            show_stdout: false,
            show_stderr: self.print_progress,
        };
        assert(invocation@.args =~= self.spec_ls_remote().args);
        invocation
    }

    /// The run that clones the remote into `target_dir`.
    pub fn clone_into(&self, target_dir: &str) -> (invocation: Invocation)
        ensures
            invocation@ == self.spec_clone(target_dir@),
    {
        let mut args: Vec<String> = Vec::new();
        args.push(String::from_str("clone"));
        args.push(self.repo_str.clone());
        args.push(String::from_str(target_dir));
        let invocation = Invocation {
            executable: self.git_executable.clone(),
            args,
            show_stdout: self.print_progress,
            show_stderr: self.print_progress,
        };
        assert(invocation@.args =~= self.spec_clone(target_dir@).args);
        invocation
    }

    /// What a run of `command` that ended as `outcome` comes to.
    pub fn conclude(&self, command: GitCommand, outcome: ExitOutcome) -> (result: JCloneResult<()>)
        ensures
            self.concludes(command, outcome, result),
    {
        match outcome {
            ExitOutcome::Success => Ok(()),
            ExitOutcome::Failure => {
                if self.report_errors {
                    let message = match command {
                        GitCommand::LsRemote => GitFailure::RemoteUnreachable,
                        GitCommand::Clone => GitFailure::NonZeroExit,
                    };
                    Err(JCloneError::GitUser { command, message })
                } else {
                    Ok(())
                }
            },
            ExitOutcome::NotStarted(reason) => Err(
                JCloneError::GitSystem {
                    executable: self.git_executable.clone(),
                    command,
                    source: reason,
                },
            ),
        }
    }

    /// Whether the clone may go on after the remote was asked for its heads:
    /// `true` where it gave them, `false` where it did not and errors are not
    /// reported, and the error in every other case.
    pub fn can_access_remote(&self, outcome: ExitOutcome) -> (result: Result<bool, JCloneError>)
        ensures
            match outcome {
                ExitOutcome::Success => result == Ok::<bool, JCloneError>(true),
                ExitOutcome::Failure => if self.report_errors {
                    result == Err::<bool, JCloneError>(
                        JCloneError::GitUser {
                            command: GitCommand::LsRemote,
                            message: GitFailure::RemoteUnreachable,
                        },
                    )
                } else {
                    result == Ok::<bool, JCloneError>(false)
                },
                ExitOutcome::NotStarted(reason) => {
                    &&& result matches Err(
                        JCloneError::GitSystem { executable, command, source },
                    )
                    &&& executable@ == self.git_executable@
                    &&& command == GitCommand::LsRemote
                    &&& source@ == reason@
                },
            },
    {
        let reached = matches!(outcome, ExitOutcome::Success);
        match self.conclude(GitCommand::LsRemote, outcome) {
            Ok(()) => Ok(reached),
            Err(error) => Err(error),
        }
    }

    /// The first step of every clone: asking the remote for its heads.
    pub fn first_step(&self) -> (step: Step)
        ensures
            step matches Step::Run(GitCommand::LsRemote, invocation) && invocation@
                == self.spec_ls_remote(),
    {
        Step::Run(GitCommand::LsRemote, self.ls_remote())
    }

    /// The step that follows a run of `command` that ended as `outcome`.
    ///
    /// The clone into `target_dir` follows only where the remote has given its
    /// heads. Every other run ends the clone, with what `concludes` says.
    pub fn next_step(&self, command: GitCommand, outcome: ExitOutcome, target_dir: &str) -> (step:
        Step)
        ensures
            self.follows(command, outcome, target_dir@, step),
    {
        match command {
            GitCommand::LsRemote => match self.can_access_remote(outcome) {
                Ok(true) => Step::Run(GitCommand::Clone, self.clone_into(target_dir)),
                Ok(false) => Step::Finish(Ok(())),
                Err(error) => Step::Finish(Err(error)),
            },
            GitCommand::Clone => Step::Finish(self.conclude(GitCommand::Clone, outcome)),
        }
    }

    /// The line that tells the user how the clone ended, where anything is
    /// told: nothing where errors are not reported.
    pub fn announce(&self, result: &JCloneResult<()>) -> (line: Option<String>)
        ensures
            match line {
                Some(text) => self.report_errors && text@ == match *result {
                    Ok(_) => "🎉 Done!"@,
                    Err(error) => error.spec_failure_line(),
                },
                None => !self.report_errors,
            },
    {
        if !self.report_errors {
            return None;
        }
        match result {
            Ok(_) => Some(String::from_str("🎉 Done!")),
            Err(error) => Some(error.failure_line()),
        }
    }
}

/// Nothing is cloned from a remote that did not give its heads: whatever went
/// wrong with the listing, the step that follows it ends the clone. Where
/// errors are not reported and git did start, it ends without an error.
pub proof fn lemma_clone_only_after_heads(
    git: Git,
    outcome: ExitOutcome,
    target_dir: Seq<char>,
    step: Step,
)
    requires
        !(outcome is Success),
        git.follows(GitCommand::LsRemote, outcome, target_dir, step),
    ensures
        step is Finish,
        outcome is Failure && !git.report_errors ==> step->Finish_0 is Ok,
        outcome is Failure && git.report_errors ==> step->Finish_0 is Err,
        outcome is NotStarted ==> step->Finish_0 is Err,
{
}

} // verus!
