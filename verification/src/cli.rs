//! The command model: what each invocation of the tool asks for, and which
//! action it calls for. Reading arguments, prompting for passwords and
//! touching storage are the surrounding program's business; deciding what a
//! command means is done here.

use vstd::prelude::*;

pub mod add;
pub mod gen;
pub mod rm;

verus! {

/// One invocation's subcommand, if any was given.
pub enum Commands {
    /// Add a service.
    Add(add::Cmd),
    /// Generate a fresh two-factor code.
    Gen(gen::Cmd),
    /// Remove a service.
    Rm(rm::Cmd),
    /// List all the registered services.
    Ls,
}

/// A whole invocation of the tool.
pub struct Tufa {
    /// The subcommand, or nothing when none was given.
    pub command: Option<Commands>,
}

/// What an invocation asks the surrounding program to do.
pub enum Action {
    /// Store a service's secret, encrypting it under a password first when
    /// `encrypted` is set.
    AddService { service: String, secret: String, encrypted: bool },
    /// Produce a code for a stored service; `oneshot` means print it bare.
    GenerateCode { service: String, oneshot: bool },
    /// Remove a stored service, after confirmation.
    RemoveService { service: String },
    /// Print the names of all registered services.
    ListServices,
    /// No subcommand was given: do nothing.
    DoNothing,
}

impl Tufa {
    /// The action this invocation calls for, carrying the subcommand's
    /// arguments through unchanged.
    pub fn run(&self) -> (a: Action)
        ensures
            match self.command {
                Some(Commands::Add(c)) => a matches Action::AddService {
                    service,
                    secret,
                    encrypted,
                } && service@ == c.service@ && secret@ == c.secret@ && encrypted == c.encrypted,
                Some(Commands::Gen(c)) => a matches Action::GenerateCode { service, oneshot }
                    && service@ == c.service@ && oneshot == c.oneshot,
                Some(Commands::Rm(c)) => a matches Action::RemoveService { service } && service@
                    == c.service@,
                Some(Commands::Ls) => a is ListServices,
                None => a is DoNothing,
            },
    {
        match &self.command {
            Some(Commands::Add(c)) => Action::AddService {
                service: c.service.clone(),
                secret: c.secret.clone(),
                encrypted: c.encrypted,
            },
            Some(Commands::Gen(c)) => Action::GenerateCode {
                service: c.service.clone(),
                oneshot: c.oneshot,
            },
            Some(Commands::Rm(c)) => Action::RemoveService { service: c.service.clone() },
            Some(Commands::Ls) => Action::ListServices,
            None => Action::DoNothing,
        }
    }
}

} // verus!
