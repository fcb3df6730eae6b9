//! The command-line surface's decisions: which invocation the arguments
//! select, and what guidance the run ends with. Reading the real arguments,
//! printing, and spawning the generator or installer stay outside the
//! library; only the decisions live here.

use vstd::prelude::*;
use vstd::string::StringSliceAdditionalSpecFns;
use vstd::string::StrSliceExecFns;

use crate::bytes::{append_bytes, bytes_eq, copy_bytes};
use crate::name::{valid_name_bytes, ProjectName};

verus! {

/// What a run was asked to do: print the usage text, or scaffold a project,
/// optionally installing the packages afterwards.
#[derive(Debug)]
pub enum Invocation {
    ShowHelp,
    Scaffold { name: ProjectName, install: bool },
}

/// A fatal usage error, reported before any filesystem mutation is attempted.
#[derive(Debug)]
pub enum UsageError {
    MissingProjectName,
    InvalidProjectName,
    UnknownArgument { arg: Vec<u8> },
}

/// Decides the invocation from the raw arguments (the first entry being the
/// program's own name): a required project name, an optional install flag in
/// one of two spellings, and two help spellings that short-circuit the rest.
/// A missing name, a name holding `.`, `/` or `\`, or an unrecognized second
/// argument is a fatal usage error.
pub fn parse_args(args: &Vec<Vec<u8>>) -> (r: Result<Invocation, UsageError>)
    ensures
        ({
            if args@.len() < 2 {
                r matches Err(UsageError::MissingProjectName)
            } else if args@[1]@ == "-h".spec_bytes() || args@[1]@ == "--help".spec_bytes() {
                r matches Ok(Invocation::ShowHelp)
            } else if !valid_name_bytes(args@[1]@) {
                r matches Err(UsageError::InvalidProjectName)
            } else if args@.len() == 2 {
                r matches Ok(Invocation::Scaffold { name, install }) && name@ == args@[1]@
                    && install == false
            } else if args@[2]@ == "-i".spec_bytes() || args@[2]@ == "--install".spec_bytes() {
                r matches Ok(Invocation::Scaffold { name, install }) && name@ == args@[1]@
                    && install == true
            } else {
                r matches Err(UsageError::UnknownArgument { arg }) && arg@ == args@[2]@
            }
        }),
{
    if args.len() < 2 {
        return Err(UsageError::MissingProjectName);
    }
    let help_short = "-h".as_bytes_vec();
    let help_long = "--help".as_bytes_vec();
    if bytes_eq(&args[1], &help_short) || bytes_eq(&args[1], &help_long) {
        return Ok(Invocation::ShowHelp);
    }
    let name = match ProjectName::parse(copy_bytes(&args[1])) {
        Ok(n) => n,
        Err(_) => {
            return Err(UsageError::InvalidProjectName);
        },
    };
    if args.len() == 2 {
        return Ok(Invocation::Scaffold { name, install: false });
    }
    let install_short = "-i".as_bytes_vec();
    let install_long = "--install".as_bytes_vec();
    if bytes_eq(&args[2], &install_short) || bytes_eq(&args[2], &install_long) {
        return Ok(Invocation::Scaffold { name, install: true });
    }
    Err(UsageError::UnknownArgument { arg: copy_bytes(&args[2]) })
}

/// The closing guidance after a successful scaffold: change into the project
/// directory and, unless the packages were just installed, install them
/// before starting the development server.
pub open spec fn completion_text(name: Seq<u8>, install: bool) -> Seq<u8> {
    "  cd ".spec_bytes() + name + if install {
        "\n  npm run dev".spec_bytes()
    } else {
        "\n  npm install -D tailwindcss postcss autoprefixer\n  npm run dev".spec_bytes()
    }
}

/// Builds the closing guidance for a concrete name and install directive.
pub fn completion_instructions(name: &ProjectName, install: bool) -> (r: Vec<u8>)
    ensures
        r@ == completion_text(name@, install),
{
    let mut out = "  cd ".as_bytes_vec();
    append_bytes(&mut out, name.as_bytes());
    if install {
        let tail = "\n  npm run dev".as_bytes_vec();
        append_bytes(&mut out, &tail);
    } else {
        let tail = "\n  npm install -D tailwindcss postcss autoprefixer\n  npm run dev".as_bytes_vec();
        append_bytes(&mut out, &tail);
    }
    out
}

} // verus!
