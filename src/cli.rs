//! The command line: `<program> <filename> <filetype> [alternate]`.

use vstd::prelude::*;

verus! {

/// A request to find the alternate of a file.
#[derive(Clone, Debug)]
pub struct Request {
    pub filename: String,
    pub filetype: String,
}

/// Why the command line asks for nothing that can be done.
#[derive(Clone, Copy, Debug, PartialEq, Eq, Structural)]
pub enum UsageError {
    /// No file name was given.
    MissingFilename,
    /// A file name but no filetype was given.
    MissingFiletype,
    /// A second alternate was given; that mode is not supported yet.
    PairedModeUnsupported,
}

/// Reads the arguments, the program's name first: a file name and a filetype
/// make a request; fewer are an error, and a further argument asks for a mode
/// that is not supported yet.
pub fn parse_args(args: &Vec<String>) -> (r: Result<Request, UsageError>)
    ensures
        args@.len() < 2 <==> r == Err::<Request, UsageError>(UsageError::MissingFilename),
        args@.len() == 2 <==> r == Err::<Request, UsageError>(UsageError::MissingFiletype),
        args@.len() > 3 <==> r == Err::<Request, UsageError>(UsageError::PairedModeUnsupported),
        args@.len() == 3 <==> r is Ok,
        r matches Ok(req) ==> req.filename@ == args@[1]@ && req.filetype@ == args@[2]@,
{
    if args.len() < 2 {
        Err(UsageError::MissingFilename)
    } else if args.len() == 2 {
        Err(UsageError::MissingFiletype)
    } else if args.len() > 3 {
        Err(UsageError::PairedModeUnsupported)
    } else {
        Ok(Request { filename: args[1].clone(), filetype: args[2].clone() })
    }
}

} // verus!
