//! The command line: what the arguments ask for.

use vstd::prelude::*;
use vstd::string::StrSliceExecFns;
use crate::error::DumperError;
use crate::text::starts_with;

verus! {

/// When the dump is taken.
#[derive(Copy, Clone, Debug, PartialEq, Eq, Structural)]
pub enum ExecutionMode {
    /// At once.
    Immediate,
    /// When the user presses the key combination.
    KeyCombo,
}

/// What a run is asked to do.
#[derive(Clone, Debug)]
pub struct Args {
    /// The destination file.
    pub output_path: String,
    pub mode: ExecutionMode,
}

/// What the arguments ask for.
#[derive(Clone, Debug)]
pub enum Invocation {
    /// To print the usage.
    Help,
    /// A run.
    Run(Args),
}

/// What the arguments select, before the destination has been looked at.
#[derive(Clone, Debug)]
pub enum Selection {
    /// The usage.
    Help,
    /// A run to the destination that the arguments name, if they name one.
    Run { destination: Option<String>, mode: ExecutionMode },
}

/// What the arguments select, as mathematical values.
pub enum Request {
    Help,
    Run { destination: Option<Seq<char>>, mode: ExecutionMode },
}

/// What the arguments ask for, as mathematical values.
pub enum Command {
    Help,
    Run { output_path: Seq<char>, mode: ExecutionMode },
}

/// The destination that is used where the arguments name none.
pub open spec fn default_output_path() -> Seq<char> {
    "dwmdump.dmp"@
}

/// The extension that a dump file has.
pub open spec fn dump_extension() -> Seq<char> {
    "dmp"@
}

/// Whether `part` occurs in `text` as a run of adjacent characters.
pub open spec fn occurs_in(part: Seq<char>, text: Seq<char>) -> bool {
    exists|at: int|
        0 <= at && at + part.len() <= text.len() && #[trigger] text.subrange(
            at,
            at + part.len(),
        ) == part
}

/// Whether an extension, as found in a path, is that of a dump file: there
/// is one, and it is `dmp` in lower case.
pub open spec fn is_dump_extension_of(extension: Option<Seq<char>>) -> bool {
    extension == Some(dump_extension())
}

/// The extension of the file name of the path that a text spells, as the
/// path rules of the platform that the library is built for find it: the
/// part of the file name behind its last dot, or `None` where they find no
/// file name or no extension in it.
pub uninterp spec fn extension_of(path: Seq<char>) -> Option<Seq<char>>;

/// Whether a text is a bare name: it holds no `/`, no `\` and no `:`, so on
/// every platform it spells a path of one component at the most.
pub open spec fn is_bare_name(path: Seq<char>) -> bool {
    forall|i: int| 0 <= i < path.len() ==> path[i] != '/' && path[i] != '\\' && path[i] != ':'
}

/// The index of the last dot before index `end`, or -1 if there is none.
pub open spec fn last_dot_before(name: Seq<char>, end: int) -> int
    decreases end,
{
    if end <= 0 {
        -1
    } else if name[end - 1] == '.' {
        end - 1
    } else {
        last_dot_before(name, end - 1)
    }
}

/// The extension of a bare name: the text behind its last dot. There is
/// none where the name holds no dot, where its only dot is its first
/// character, and in the name `..`, which stands for the parent directory.
pub open spec fn bare_extension(name: Seq<char>) -> Option<Seq<char>> {
    let dot = last_dot_before(name, name.len() as int);
    if dot <= 0 || name == ".."@ {
        None
    } else {
        Some(name.skip(dot + 1))
    }
}

/// Whether a path names a dump file: whether the extension of its file name
/// is that of a dump file.
pub open spec fn names_dump_file(path: Seq<char>) -> bool {
    is_dump_extension_of(extension_of(path))
}

/// Whether the destination that a selection names, if it names one, is a
/// dump file.
pub open spec fn destination_valid(request: Request) -> bool {
    match request {
        Request::Run { destination: Some(path), .. } => names_dump_file(path),
        _ => true,
    }
}

/// The text of an extension that was found, if one was.
pub open spec fn text_of(extension: Option<String>) -> Option<Seq<char>> {
    match extension {
        Some(found) => Some(found@),
        None => None,
    }
}

/// Whether an argument asks for the usage.
pub open spec fn is_help(arg: Seq<char>) -> bool {
    arg == "/?"@ || arg == "-?"@ || arg == "/help"@ || arg == "-help"@
}

/// Whether an argument selects the immediate mode.
pub open spec fn is_immediate(arg: Seq<char>) -> bool {
    arg == "-immediate"@ || arg == "/immediate"@
}

/// Whether one of the arguments asks for the usage.
pub open spec fn wants_help(args: Seq<Seq<char>>) -> bool {
    exists|i: int| 0 <= i < args.len() && is_help(args[i])
}

/// The index of the first argument at or after `from` that selects the
/// immediate mode, or the number of arguments if none does.
pub open spec fn immediate_index_from(args: Seq<Seq<char>>, from: int) -> int
    decreases args.len() - from,
{
    if from >= args.len() {
        args.len() as int
    } else if is_immediate(args[from]) {
        from
    } else {
        immediate_index_from(args, from + 1)
    }
}

/// What the arguments select.
///
/// A request for the usage, wherever it stands, wins over everything else.
/// The first argument that selects the immediate mode is taken out; without
/// one the mode is the key combination. Of what is left the last argument
/// names the destination; where nothing is left none is named.
pub open spec fn parse(args: Seq<Seq<char>>) -> Request {
    if wants_help(args) {
        Request::Help
    } else {
        let index = immediate_index_from(args, 0);
        let mode = if index < args.len() {
            ExecutionMode::Immediate
        } else {
            ExecutionMode::KeyCombo
        };
        let rest = if index < args.len() {
            args.remove(index)
        } else {
            args
        };
        if rest.len() == 0 {
            Request::Run { destination: None, mode }
        } else {
            Request::Run { destination: Some(rest.last()), mode }
        }
    }
}

/// What a selection comes to once it is known whether the destination it
/// names is a dump file (`valid`): a destination that is none makes the
/// arguments invalid, and where none is named the default is used, which
/// needs no look.
pub open spec fn conclusion(request: Request, valid: bool) -> Result<Command, DumperError> {
    match request {
        Request::Help => Ok(Command::Help),
        Request::Run { destination: None, mode } => Ok(
            Command::Run { output_path: default_output_path(), mode },
        ),
        Request::Run { destination: Some(path), mode } => if valid {
            Ok(Command::Run { output_path: path, mode })
        } else {
            Err(DumperError::InvalidArgument)
        },
    }
}

/// The texts of a list of arguments.
pub open spec fn texts(args: Seq<String>) -> Seq<Seq<char>> {
    args.map_values(|arg: String| arg@)
}

impl Invocation {
    /// What the invocation asks for, as mathematical values.
    pub open spec fn command(self) -> Command {
        match self {
            Invocation::Help => Command::Help,
            Invocation::Run(args) => Command::Run {
                output_path: args.output_path@,
                mode: args.mode,
            },
        }
    }
}

impl Selection {
    /// What is selected, as mathematical values.
    pub open spec fn request(self) -> Request {
        match self {
            Selection::Help => Request::Help,
            Selection::Run { destination: None, mode } => Request::Run { destination: None, mode },
            Selection::Run { destination: Some(path), mode } => Request::Run {
                destination: Some(path@),
                mode,
            },
        }
    }
}

/// Whether what was handed out is what was to be handed out.
pub open spec fn agrees(
    asked: Result<Invocation, DumperError>,
    expected: Result<Command, DumperError>,
) -> bool {
    match asked {
        Ok(invocation) => expected == Ok::<Command, DumperError>(invocation.command()),
        Err(fault) => expected == Err::<Command, DumperError>(fault),
    }
}

/// Whether two texts are the same.
fn same_text(left: &str, right: &str) -> (same: bool)
    ensures
        same == (left@ == right@),
{
    if left.unicode_len() != right.unicode_len() {
        return false;
    }
    let same = starts_with(left, right);
    proof {
        if same {
            assert(left@.subrange(0, right@.len() as int) == left@);
        }
    }
    same
}

/// Whether an argument asks for the usage.
fn asks_for_help(arg: &str) -> (help: bool)
    ensures
        help == is_help(arg@),
{
    same_text(arg, "/?") || same_text(arg, "-?") || same_text(arg, "/help") || same_text(
        arg,
        "-help",
    )
}

/// Whether an argument selects the immediate mode.
fn selects_immediate(arg: &str) -> (immediate: bool)
    ensures
        immediate == is_immediate(arg@),
{
    same_text(arg, "-immediate") || same_text(arg, "/immediate")
}

/// Trusted: `Path::extension` of the standard library, on the path that the
/// text spells, with the extension handed out as text. The contract gives
/// the result its name, and claims of it what the documentation says: the
/// extension is the part of the file name behind its last dot, so it holds
/// no dot and stands in the path right behind a dot; and a bare name is its
/// own file name, unless it is empty, `.` or `..`, which have none, and has
/// no extension where its only dot is its first character.
#[verifier::external_body]
fn path_extension(path: &str) -> (extension: Option<String>)
    ensures
        text_of(extension) == extension_of(path@),
        is_bare_name(path@) ==> text_of(extension) == bare_extension(path@),
        extension matches Some(found) ==> !found@.contains('.') && occurs_in(
            seq!['.'] + found@,
            path@,
        ),
{
    match std::path::Path::new(path).extension() {
        Some(found) => Some(found.to_string_lossy().into_owned()),
        None => None,
    }
}

/// Says whether an extension, as found in a path, is that of a dump file.
pub fn is_dump_extension(extension: Option<&str>) -> (dump: bool)
    ensures
        dump == is_dump_extension_of(
            match extension {
                Some(found) => Some(found@),
                None => None,
            },
        ),
{
    match extension {
        Some(found) => same_text(found, "dmp"),
        None => false,
    }
}

/// Says whether a path names a dump file: whether the extension of its file
/// name, as the platform's path rules find it, is `dmp`. For a bare name
/// the answer is the same on every platform, and whatever the rules are, a
/// path in which `.dmp` does not occur names none.
pub fn validate_path(path: &str) -> (valid: bool)
    ensures
        valid == names_dump_file(path@),
        is_bare_name(path@) ==> valid == is_dump_extension_of(bare_extension(path@)),
        valid ==> occurs_in(".dmp"@, path@),
{
    let extension = path_extension(path);
    let valid = match &extension {
        Some(found) => is_dump_extension(Some(found.as_str())),
        None => is_dump_extension(None),
    };
    proof {
        if valid {
            reveal_strlit("dmp");
            reveal_strlit(".dmp");
            assert(seq!['.'] + "dmp"@ == ".dmp"@);
        }
    }
    valid
}

impl Args {
    /// Reads what the arguments that follow the program's name select.
    pub fn select(args: &Vec<String>) -> (selected: Selection)
        ensures
            selected.request() == parse(texts(args@)),
    {
        let ghost all = texts(args@);
        let mut i: usize = 0;
        while i < args.len()
            invariant
                i <= args.len(),
                all == texts(args@),
                forall|j: int| 0 <= j < i ==> !is_help(all[j]),
            decreases args.len() - i,
        {
            if asks_for_help(args[i].as_str()) {
                assert(is_help(all[i as int]));
                return Selection::Help;
            }
            i = i + 1;
        }
        assert(!wants_help(all));
        let mut k: usize = 0;
        while k < args.len() && !selects_immediate(args[k].as_str())
            invariant
                k <= args.len(),
                all == texts(args@),
                immediate_index_from(all, 0) == immediate_index_from(all, k as int),
            decreases args.len() - k,
        {
            k = k + 1;
        }
        let mode = if k < args.len() {
            ExecutionMode::Immediate
        } else {
            ExecutionMode::KeyCombo
        };
        let count = args.len();
        if count == 0 || (count == 1 && k == 0) {
            return Selection::Run { destination: None, mode };
        }
        let last: usize = if k == count - 1 {
            count - 2
        } else {
            count - 1
        };
        let ghost rest = if k < count {
            all.remove(k as int)
        } else {
            all
        };
        assert(rest.last() == all[last as int]);
        Selection::Run { destination: Some(args[last].as_str().to_owned()), mode }
    }

    /// Says what a selection comes to, given whether the destination it
    /// names is a dump file.
    pub fn conclude(selected: Selection, valid: bool) -> (asked: Result<Invocation, DumperError>)
        ensures
            agrees(asked, conclusion(selected.request(), valid)),
    {
        match selected {
            Selection::Help => Ok(Invocation::Help),
            Selection::Run { destination: None, mode } => {
                Ok(Invocation::Run(Args { output_path: "dwmdump.dmp".to_owned(), mode }))
            },
            Selection::Run { destination: Some(path), mode } => {
                if valid {
                    Ok(Invocation::Run(Args { output_path: path, mode }))
                } else {
                    Err(DumperError::InvalidArgument)
                }
            },
        }
    }

    /// Reads the arguments that follow the program's name. The destination
    /// that they name has to be a dump file by the platform's path rules,
    /// else the arguments are invalid. Where it is a bare name the answer
    /// is the same on every platform, and a destination in which `.dmp`
    /// does not occur is invalid whatever the rules are.
    pub fn from_args(args: Vec<String>) -> (asked: Result<Invocation, DumperError>)
        ensures
            agrees(
                asked,
                conclusion(parse(texts(args@)), destination_valid(parse(texts(args@)))),
            ),
            match parse(texts(args@)) {
                Request::Run { destination: Some(path), .. } => {
                    &&& is_bare_name(path) ==> agrees(
                        asked,
                        conclusion(
                            parse(texts(args@)),
                            is_dump_extension_of(bare_extension(path)),
                        ),
                    )
                    &&& !occurs_in(".dmp"@, path) ==> asked == Err::<Invocation, DumperError>(
                        DumperError::InvalidArgument,
                    )
                },
                _ => true,
            },
    {
        let selected = Args::select(&args);
        let valid = match &selected {
            Selection::Run { destination: Some(path), .. } => validate_path(path.as_str()),
            _ => true,
        };
        Args::conclude(selected, valid)
    }
}

/// The status that the program ends with where the arguments ask for no
/// run: 0 after the usage, 1 on invalid arguments. `None` where they ask
/// for a run.
pub fn early_exit_status(asked: &Result<Invocation, DumperError>) -> (status: Option<i32>)
    ensures
        status == match *asked {
            Ok(Invocation::Help) => Some(0i32),
            Ok(Invocation::Run(_)) => None::<i32>,
            Err(_) => Some(1i32),
        },
{
    match asked {
        Ok(Invocation::Help) => Some(0),
        Ok(Invocation::Run(_)) => None,
        Err(_) => Some(1),
    }
}

} // verus!
