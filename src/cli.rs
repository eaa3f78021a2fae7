//! The command-line surface: subcommand names, the values the prompts
//! collect, random build versions and the greeting of the upload service.
use vstd::prelude::*;
use vstd::string::*;

use rand::distributions::Alphanumeric;
use rand::Rng;

use crate::text::same_text;

verus! {

/// Number of characters in a build version.
pub const VERSION_LEN: usize = 7;

/// The subcommands of the tool.
#[derive(Clone, Copy, Debug, PartialEq, Eq, Structural)]
pub enum Command {
    Build,
    Deploy,
    Init,
    NewProject,
    Setup,
    Signup,
    Update,
    Unknown,
}

/// The subcommand a name selects.
pub open spec fn command_named(s: Seq<char>) -> Command {
    if s == "build"@ {
        Command::Build
    } else if s == "deploy"@ {
        Command::Deploy
    } else if s == "init"@ {
        Command::Init
    } else if s == "new"@ {
        Command::NewProject
    } else if s == "setup"@ {
        Command::Setup
    } else if s == "signup"@ {
        Command::Signup
    } else if s == "update"@ {
        Command::Update
    } else {
        Command::Unknown
    }
}

impl<'a> From<&'a str> for Command {
    fn from(s: &'a str) -> (r: Command)
        ensures
            r == command_named(s@),
    {
        if same_text(s, "build") {
            Command::Build
        } else if same_text(s, "deploy") {
            Command::Deploy
        } else if same_text(s, "init") {
            Command::Init
        } else if same_text(s, "new") {
            Command::NewProject
        } else if same_text(s, "setup") {
            Command::Setup
        } else if same_text(s, "signup") {
            Command::Signup
        } else if same_text(s, "update") {
            Command::Update
        } else {
            Command::Unknown
        }
    }
}

impl<'a> vstd::std_specs::convert::FromSpecImpl<&'a str> for Command {
    open spec fn obeys_from_spec() -> bool {
        true
    }

    open spec fn from_spec(s: &'a str) -> Command {
        command_named(s@)
    }
}

/// An ASCII letter or digit.
pub open spec fn ascii_alphanumeric(c: char) -> bool {
    ('a' <= c && c <= 'z') || ('A' <= c && c <= 'Z') || ('0' <= c && c <= '9')
}

/// Relies on `rand`'s `Alphanumeric` distribution sampled from `thread_rng`:
/// each character is drawn from `A-Z`, `a-z` and `0-9`, and exactly `len`
/// are taken. Which characters come out is left to chance.
#[verifier::external_body]
fn random_alphanumeric(len: usize) -> (r: String)
    ensures
        r@.len() == len,
        forall|i: int| 0 <= i < r@.len() ==> ascii_alphanumeric(#[trigger] r@[i]),
{
    rand::thread_rng().sample_iter(&Alphanumeric).take(len).map(char::from).collect()
}

/// A random version tag for a build: seven ASCII letters and digits.
pub fn random_version() -> (r: String)
    ensures
        r@.len() == VERSION_LEN,
        forall|i: int| 0 <= i < r@.len() ==> ascii_alphanumeric(#[trigger] r@[i]),
{
    random_alphanumeric(VERSION_LEN)
}

/// What the sign-up prompt collects.
#[derive(Clone, Debug, PartialEq, Eq)]
pub struct SignupValues {
    pub email: String,
    pub username: String,
    pub password: String,
}

/// What the login prompt collects.
#[derive(Clone, Debug, PartialEq, Eq)]
pub struct Credentials {
    pub username: String,
    pub password: String,
}

/// A request to the upload service's greeting function.
#[derive(Clone, Debug, PartialEq, Eq)]
pub struct CustomEvent {
    pub first_name: String,
}

/// The greeting function's answer.
#[derive(Clone, Debug, PartialEq, Eq)]
pub struct CustomOutput {
    pub message: String,
}

/// Greets the person the request names.
pub fn handler(e: CustomEvent) -> (r: CustomOutput)
    ensures
        r.message@ == "Hello, "@ + e.first_name@ + "!"@,
{
    let mut message = String::from_str("Hello, ");
    message.append(e.first_name.as_str());
    message.append("!");
    CustomOutput { message }
}

} // verus!
