//! The command-line request: what the user asked for, and its resolution into
//! a complete request, refusing any request with a required argument left out.
use vstd::prelude::*;

verus! {

/// The parsed command line.
pub struct Cli {
    /// How many times debugging output was asked for.
    pub debug: u8,
    /// The subcommand, if one was given.
    pub command: Option<Commands>,
}

/// The two subcommands.
pub enum Commands {
    /// Report each file with the matches of a pattern removed.
    Find(FindCommands),
    /// Rewrite each file with the matches of a pattern replaced.
    Replace(ReplaceCommands),
}

/// Arguments of the find subcommand, as given.
pub struct FindCommands {
    /// The files to process.
    pub input: Option<Vec<String>>,
    /// The pattern to find.
    pub pattern: Option<String>,
}

/// Arguments of the replace subcommand, as given.
pub struct ReplaceCommands {
    /// The files to process.
    pub input: Option<Vec<String>>,
    /// The pattern to find.
    pub pattern: Option<String>,
    /// The replacement text.
    pub replace: Option<String>,
    /// Whether letter case is ignored when matching.
    pub ignore_case: Option<bool>,
}

/// A required argument.
#[derive(Debug, Clone, Copy, PartialEq, Eq, Structural)]
pub enum Field {
    Input,
    Pattern,
    Replacement,
    IgnoreCase,
}

/// Why a command line does not make a request.
#[derive(Debug)]
pub enum UsageError {
    /// No subcommand was given.
    NoCommand,
    /// These required arguments are absent, in the order they are listed.
    Missing(Vec<Field>),
}

/// A complete request, every required argument present.
#[derive(Debug)]
pub enum Request {
    Find { files: Vec<String>, pattern: String },
    Replace { files: Vec<String>, pattern: String, replacement: String, ignore_case: bool },
}

/// The file list is given and names at least one file.
pub open spec fn files_given(input: Option<Vec<String>>) -> bool {
    input is Some && input->0@.len() > 0
}

/// `Seq` holding `f` when `absent`, else empty.
pub open spec fn flag_missing(absent: bool, f: Field) -> Seq<Field> {
    if absent {
        seq![f]
    } else {
        Seq::empty()
    }
}

/// The required arguments of the find subcommand that are absent.
pub open spec fn missing_for_find(c: FindCommands) -> Seq<Field> {
    flag_missing(!files_given(c.input), Field::Input) + flag_missing(c.pattern is None, Field::Pattern)
}

/// The required arguments of the replace subcommand that are absent.
pub open spec fn missing_for_replace(c: ReplaceCommands) -> Seq<Field> {
    flag_missing(!files_given(c.input), Field::Input) + flag_missing(c.pattern is None, Field::Pattern)
        + flag_missing(c.replace is None, Field::Replacement) + flag_missing(
        c.ignore_case is None,
        Field::IgnoreCase,
    )
}

/// How a find subcommand resolves.
pub open spec fn find_resolves_to(c: FindCommands, r: Result<Request, UsageError>) -> bool {
    if missing_for_find(c).len() == 0 {
        r == Ok::<Request, UsageError>(Request::Find { files: c.input->0, pattern: c.pattern->0 })
    } else {
        r matches Err(UsageError::Missing(m)) && m@ == missing_for_find(c)
    }
}

/// How a replace subcommand resolves.
pub open spec fn replace_resolves_to(c: ReplaceCommands, r: Result<Request, UsageError>) -> bool {
    if missing_for_replace(c).len() == 0 {
        r == Ok::<Request, UsageError>(
            Request::Replace {
                files: c.input->0,
                pattern: c.pattern->0,
                replacement: c.replace->0,
                ignore_case: c.ignore_case->0,
            },
        )
    } else {
        r matches Err(UsageError::Missing(m)) && m@ == missing_for_replace(c)
    }
}

fn note_files(input: &Option<Vec<String>>, missing: &mut Vec<Field>)
    ensures
        final(missing)@ == old(missing)@ + flag_missing(!files_given(*input), Field::Input),
{
    let given = match input {
        Some(v) => v.len() > 0,
        None => false,
    };
    if !given {
        missing.push(Field::Input);
    }
    assert(final(missing)@ =~= old(missing)@ + flag_missing(!files_given(*input), Field::Input));
}

fn note_absent(absent: bool, f: Field, missing: &mut Vec<Field>)
    ensures
        final(missing)@ == old(missing)@ + flag_missing(absent, f),
{
    if absent {
        missing.push(f);
    }
    assert(final(missing)@ =~= old(missing)@ + flag_missing(absent, f));
}

impl FindCommands {
    /// Resolves the find arguments, or lists those that are absent.
    pub fn into_request(self) -> (r: Result<Request, UsageError>)
        ensures
            find_resolves_to(self, r),
    {
        let mut missing: Vec<Field> = Vec::new();
        note_files(&self.input, &mut missing);
        note_absent(self.pattern.is_none(), Field::Pattern, &mut missing);
        assert(missing@ =~= missing_for_find(self));
        if missing.len() > 0 {
            return Err(UsageError::Missing(missing));
        }
        match (self.input, self.pattern) {
            (Some(files), Some(pattern)) => Ok(Request::Find { files, pattern }),
            _ => Err(UsageError::Missing(missing)),
        }
    }
}

impl ReplaceCommands {
    /// Resolves the replace arguments, or lists those that are absent.
    pub fn into_request(self) -> (r: Result<Request, UsageError>)
        ensures
            replace_resolves_to(self, r),
    {
        let mut missing: Vec<Field> = Vec::new();
        note_files(&self.input, &mut missing);
        note_absent(self.pattern.is_none(), Field::Pattern, &mut missing);
        note_absent(self.replace.is_none(), Field::Replacement, &mut missing);
        note_absent(self.ignore_case.is_none(), Field::IgnoreCase, &mut missing);
        assert(missing@ =~= missing_for_replace(self));
        if missing.len() > 0 {
            return Err(UsageError::Missing(missing));
        }
        match (self.input, self.pattern, self.replace, self.ignore_case) {
            (Some(files), Some(pattern), Some(replacement), Some(ignore_case)) => Ok(
                Request::Replace { files, pattern, replacement, ignore_case },
            ),
            _ => Err(UsageError::Missing(missing)),
        }
    }
}

impl Cli {
    /// Resolves the command line into a request: `NoCommand` without a
    /// subcommand, `Missing` when a required argument is absent.
    pub fn into_request(self) -> (r: Result<Request, UsageError>)
        ensures
            match self.command {
                None => r is Err && r->Err_0 is NoCommand,
                Some(Commands::Find(c)) => find_resolves_to(c, r),
                Some(Commands::Replace(c)) => replace_resolves_to(c, r),
            },
    {
        match self.command {
            None => Err(UsageError::NoCommand),
            Some(Commands::Find(c)) => c.into_request(),
            Some(Commands::Replace(c)) => c.into_request(),
        }
    }
}

} // verus!
