//! Authentication of the Cloudflare tunnel.

use vstd::prelude::*;

verus! {

use crate::text::texts;

/// The command that authenticates a Cloudflare tunnel: a program and its arguments.
pub open spec fn login_command() -> (Seq<char>, Seq<Seq<char>>) {
    ("cloudflared"@, seq!["tunnel"@, "login"@])
}

/// The program and the arguments that authenticate a Cloudflare tunnel.
pub fn cloudflared_login_command() -> (command: (String, Vec<String>))
    ensures
        (command.0@, texts(command.1@)) == login_command(),
{
    let mut args: Vec<String> = Vec::new();
    args.push("tunnel".to_owned());
    args.push("login".to_owned());
    proof {
        assert(texts(args@) =~= login_command().1);
    }
    ("cloudflared".to_owned(), args)
}

/// Why `cloudflared tunnel login` did not authenticate.
#[derive(Clone, Copy, Debug, PartialEq, Eq, Structural)]
pub enum LoginError {
    /// The program could not be run.
    NotRun,
    /// The program ended without success.
    Failed,
}

impl LoginError {
    pub open spec fn text(self) -> Seq<char> {
        match self {
            LoginError::NotRun => "Failed to run cloudflared - is it installed?"@,
            LoginError::Failed => "cloudflared tunnel login failed"@,
        }
    }

    pub fn message(self) -> (message: &'static str)
        ensures
            message@ == self.text(),
    {
        match self {
            LoginError::NotRun => "Failed to run cloudflared - is it installed?",
            LoginError::Failed => "cloudflared tunnel login failed",
        }
    }
}

/// What `cloudflared tunnel login` came to: `exit` is whether the program ended with success, or
/// `None` if it could not be run.
pub fn login_result(exit: Option<bool>) -> (res: Result<(), LoginError>)
    ensures
        match exit {
            None => res == Err::<(), LoginError>(LoginError::NotRun),
            Some(false) => res == Err::<(), LoginError>(LoginError::Failed),
            Some(true) => res is Ok,
        },
{
    match exit {
        None => Err(LoginError::NotRun),
        Some(success) => if success {
            Ok(())
        } else {
            Err(LoginError::Failed)
        },
    }
}

} // verus!
