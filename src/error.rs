use vstd::prelude::*;
use vstd::string::*;

verus! {

/// The one-shot subcommands of the node binary.
#[derive(Debug, Clone, Copy, PartialEq, Eq)]
pub enum CommandKind {
    WalletInit,
    WalletShow,
    ChangeOwnership,
    Keygen,
}

/// Failures of the supervisor and of its one-shot commands.
#[derive(Debug, Clone, PartialEq, Eq)]
pub enum ManagerError {
    AlreadyRunning,
    NotRunning,
    InvalidArgument { message: String },
    CommandFailed { command: CommandKind, stderr: String },
    FieldNotFound { field: String },
}

pub open spec fn failure_prefix(c: CommandKind) -> Seq<char> {
    match c {
        CommandKind::WalletInit => "Failed to initialize wallet: "@,
        CommandKind::WalletShow => "Failed to get wallet info: "@,
        CommandKind::ChangeOwnership => "Failed to add owner: "@,
        CommandKind::Keygen => "Failed to generate keypair: "@,
    }
}

/// The text a caller is shown for an error.
pub open spec fn error_text(e: ManagerError) -> Seq<char> {
    match e {
        ManagerError::AlreadyRunning => "Service is already running"@,
        ManagerError::NotRunning => "Service is not running"@,
        ManagerError::InvalidArgument { message } => message@,
        ManagerError::CommandFailed { command, stderr } => failure_prefix(command) + stderr@,
        ManagerError::FieldNotFound { field } => "Could not find "@ + field@ + " in output"@,
    }
}

impl ManagerError {
    pub fn message(&self) -> (r: String)
        ensures
            r@ == error_text(*self),
    {
        match self {
            ManagerError::AlreadyRunning => String::from_str("Service is already running"),
            ManagerError::NotRunning => String::from_str("Service is not running"),
            ManagerError::InvalidArgument { message } => message.clone(),
            ManagerError::CommandFailed { command, stderr } => {
                let mut s = match command {
                    CommandKind::WalletInit => String::from_str("Failed to initialize wallet: "),
                    CommandKind::WalletShow => String::from_str("Failed to get wallet info: "),
                    CommandKind::ChangeOwnership => String::from_str("Failed to add owner: "),
                    CommandKind::Keygen => String::from_str("Failed to generate keypair: "),
                };
                s.append(stderr.as_str());
                s
            },
            ManagerError::FieldNotFound { field } => {
                let mut s = String::from_str("Could not find ");
                s.append(field.as_str());
                s.append(" in output");
                s
            },
        }
    }
}

} // verus!
