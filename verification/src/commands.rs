//! What a command line asks for.

use vstd::prelude::*;

verus! {

/// The options of a command line, each with what was written for it.
#[derive(Debug)]
pub struct Options {
    /// The place of the query, as a line, a colon and a column.
    pub location: Option<String>,
    /// What is typed so far of the name to complete.
    pub prefix: Option<String>,
    /// The file whose record is used, where the file that is read is a copy
    /// of it kept elsewhere.
    pub original: Option<String>,
    /// The name of the workspace to build, without its ending.
    pub workspace: Option<String>,
    /// The scheme to build.
    pub scheme: Option<String>,
    /// The kit to build with.
    pub sdk_target: Option<String>,
    /// Whether to go on and build anew when files are added.
    pub continuous: bool,
}

/// Why a command line cannot be followed.
#[derive(Debug, Clone, Copy, PartialEq, Eq, Structural)]
pub enum UsageError {
    CommandEmpty,
    FileEmpty,
    LocationMissing,
    WorkspaceEmpty,
}

/// What a command line asks for.
#[derive(Debug)]
pub enum Request {
    /// To explain the commands.
    Help,
    /// To check `input` with the record of `original`.
    SyntaxCheck { original: String, input: String },
    /// To complete what is typed at `location` in `input`.
    CodeCompletion { original: String, input: String, location: String, prefix: String },
    /// To find the definition of what stands at `location` in `input`.
    GotoDefinition { original: String, input: String, location: String },
    /// To build a workspace and keep how its files are compiled.
    CompilationDatabase { workspace: String, scheme: String, sdk: String, continuous: bool },
    /// Nothing: the command is not known.
    Nothing,
}

/// What is written for an option, as a mathematical value.
pub open spec fn written(option: Option<String>) -> Option<Seq<char>> {
    match option {
        Some(text) => Some(text@),
        None => None,
    }
}

/// The options of a command line as a mathematical value.
pub struct OptionsView {
    pub location: Option<Seq<char>>,
    pub prefix: Option<Seq<char>>,
    pub original: Option<Seq<char>>,
    pub workspace: Option<Seq<char>>,
    pub scheme: Option<Seq<char>>,
    pub sdk_target: Option<Seq<char>>,
    pub continuous: bool,
}

impl View for Options {
    type V = OptionsView;

    open spec fn view(&self) -> OptionsView {
        OptionsView {
            location: written(self.location),
            prefix: written(self.prefix),
            original: written(self.original),
            workspace: written(self.workspace),
            scheme: written(self.scheme),
            sdk_target: written(self.sdk_target),
            continuous: self.continuous,
        }
    }
}

/// What a command line asks for, as a mathematical value.
pub enum RequestView {
    Help,
    SyntaxCheck { original: Seq<char>, input: Seq<char> },
    CodeCompletion {
        original: Seq<char>,
        input: Seq<char>,
        location: Seq<char>,
        prefix: Seq<char>,
    },
    GotoDefinition { original: Seq<char>, input: Seq<char>, location: Seq<char> },
    CompilationDatabase {
        workspace: Seq<char>,
        scheme: Seq<char>,
        sdk: Seq<char>,
        continuous: bool,
    },
    Nothing,
}

impl View for Request {
    type V = RequestView;

    open spec fn view(&self) -> RequestView {
        match self {
            Request::Help => RequestView::Help,
            Request::SyntaxCheck { original, input } => RequestView::SyntaxCheck {
                original: original@,
                input: input@,
            },
            Request::CodeCompletion {
                original,
                input,
                location,
                prefix,
            } => RequestView::CodeCompletion {
                original: original@,
                input: input@,
                location: location@,
                prefix: prefix@,
            },
            Request::GotoDefinition { original, input, location } => RequestView::GotoDefinition {
                original: original@,
                input: input@,
                location: location@,
            },
            Request::CompilationDatabase {
                workspace,
                scheme,
                sdk,
                continuous,
            } => RequestView::CompilationDatabase {
                workspace: workspace@,
                scheme: scheme@,
                sdk: sdk@,
                continuous: *continuous,
            },
            Request::Nothing => RequestView::Nothing,
        }
    }
}

/// The kit that a workspace is built with where none is named.
pub open spec fn default_sdk() -> Seq<char> {
    "iphonesimulator7.1"@
}

/// What the command `command` on the file `input` asks for, with `options`.
///
/// The record used is that of the original file where one is named, else
/// that of `input`. A completion and a search for a definition need a place;
/// a completion takes what is typed as empty where it is not given. To build
/// a workspace needs its name; the scheme is the workspace's name and the kit
/// the usual one where they are not given. To explain the commands needs
/// nothing, and a command that is not known asks for nothing.
pub open spec fn request_for(command: Seq<char>, input: Seq<char>, options: OptionsView) -> Result<
    RequestView,
    UsageError,
> {
    let original = match options.original {
        Some(file) => file,
        None => input,
    };
    if command == "help"@ {
        Ok(RequestView::Help)
    } else if command == "code-completion"@ {
        match options.location {
            Some(location) => Ok(
                RequestView::CodeCompletion {
                    original,
                    input,
                    location,
                    prefix: match options.prefix {
                        Some(prefix) => prefix,
                        None => Seq::empty(),
                    },
                },
            ),
            None => Err(UsageError::LocationMissing),
        }
    } else if command == "goto-definition"@ {
        match options.location {
            Some(location) => Ok(RequestView::GotoDefinition { original, input, location }),
            None => Err(UsageError::LocationMissing),
        }
    } else if command == "syntax-check"@ {
        Ok(RequestView::SyntaxCheck { original, input })
    } else if command == "compilation-database"@ {
        match options.workspace {
            Some(workspace) => Ok(
                RequestView::CompilationDatabase {
                    workspace,
                    scheme: match options.scheme {
                        Some(scheme) => scheme,
                        None => workspace,
                    },
                    sdk: match options.sdk_target {
                        Some(sdk) => sdk,
                        None => default_sdk(),
                    },
                    continuous: options.continuous,
                },
            ),
            None => Err(UsageError::WorkspaceEmpty),
        }
    } else {
        Ok(RequestView::Nothing)
    }
}

/// Tells whether two texts are the same.
fn same(a: &str, b: &str) -> (r: bool)
    ensures
        r == (a@ == b@),
{
    let x = String::from_str(a);
    let y = String::from_str(b);
    x == y
}

/// Works out what a command line asks for.
pub fn request(command: &str, input: String, options: Options) -> (r: Result<Request, UsageError>)
    ensures
        match r {
            Ok(asked) => request_for(command@, input@, options@) == Ok::<RequestView, UsageError>(
                asked@,
            ),
            Err(e) => request_for(command@, input@, options@) == Err::<RequestView, UsageError>(e),
        },
{
    let Options { location, prefix, original, workspace, scheme, sdk_target, continuous } = options;
    if same(command, "help") {
        return Ok(Request::Help);
    }
    if same(command, "code-completion") {
        let original = match original {
            Some(file) => file,
            None => input.clone(),
        };
        return match location {
            Some(location) => Ok(
                Request::CodeCompletion {
                    original,
                    input,
                    location,
                    prefix: match prefix {
                        Some(prefix) => prefix,
                        None => String::new(),
                    },
                },
            ),
            None => Err(UsageError::LocationMissing),
        };
    }
    if same(command, "goto-definition") {
        let original = match original {
            Some(file) => file,
            None => input.clone(),
        };
        return match location {
            Some(location) => Ok(Request::GotoDefinition { original, input, location }),
            None => Err(UsageError::LocationMissing),
        };
    }
    if same(command, "syntax-check") {
        let original = match original {
            Some(file) => file,
            None => input.clone(),
        };
        return Ok(Request::SyntaxCheck { original, input });
    }
    if same(command, "compilation-database") {
        return match workspace {
            Some(workspace) => {
                let scheme = match scheme {
                    Some(scheme) => scheme,
                    None => workspace.clone(),
                };
                let sdk = match sdk_target {
                    Some(sdk) => sdk,
                    None => String::from_str("iphonesimulator7.1"),
                };
                Ok(Request::CompilationDatabase { workspace, scheme, sdk, continuous })
            },
            None => Err(UsageError::WorkspaceEmpty),
        };
    }
    Ok(Request::Nothing)
}

/// The command and the file among the arguments of a command line that
/// belong to no option: the first and the second. Both must be there.
pub fn command_and_file(free: &Vec<String>) -> (r: Result<(String, String), UsageError>)
    ensures
        match r {
            Ok((command, file)) => free@.len() >= 2 && command@ == free@[0]@ && file@ == free@[1]@,
            Err(e) => free@.len() < 2 && e == if free@.len() == 0 {
                UsageError::CommandEmpty
            } else {
                UsageError::FileEmpty
            },
        },
{
    if free.len() == 0 {
        Err(UsageError::CommandEmpty)
    } else if free.len() == 1 {
        Err(UsageError::FileEmpty)
    } else {
        Ok((free[0].clone(), free[1].clone()))
    }
}

impl UsageError {
    /// The error in words.
    pub open spec fn text(self) -> Seq<char> {
        match self {
            UsageError::CommandEmpty => "Command can't be empty"@,
            UsageError::FileEmpty => "File can't be empty"@,
            UsageError::LocationMissing => "Missing completion location"@,
            UsageError::WorkspaceEmpty => "Workspace can't be empty"@,
        }
    }

    /// The error in words.
    pub fn message(&self) -> (s: String)
        ensures
            s@ == self.text(),
    {
        match self {
            UsageError::CommandEmpty => String::from_str("Command can't be empty"),
            UsageError::FileEmpty => String::from_str("File can't be empty"),
            UsageError::LocationMissing => String::from_str("Missing completion location"),
            UsageError::WorkspaceEmpty => String::from_str("Workspace can't be empty"),
        }
    }
}

} // verus!
