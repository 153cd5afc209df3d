use vstd::prelude::*;

verus! {

/// The exact argument `-h`.
pub open spec fn short_help_token() -> Seq<char> {
    seq!['-', 'h']
}

/// The exact argument `--help`.
pub open spec fn long_help_token() -> Seq<char> {
    seq!['-', '-', 'h', 'e', 'l', 'p']
}

/// An argument asks for help when it is exactly one of the two help tokens.
pub open spec fn is_help_token(argument: Seq<char>) -> bool {
    argument == short_help_token() || argument == long_help_token()
}

/// Help is wanted when a help token stands anywhere in the arguments.
pub open spec fn wants_help(arguments: Seq<Seq<char>>) -> bool {
    exists|i: int| 0 <= i < arguments.len() && #[trigger] is_help_token(arguments[i])
}

/// The path named by the arguments: the last argument when any follows the
/// program name, else `.`, the current working directory.
pub open spec fn candidate_of(arguments: Seq<Seq<char>>) -> Seq<char> {
    if arguments.len() > 1 {
        arguments.last()
    } else {
        seq!['.']
    }
}

/// The diagnostic shown when the path cannot be resolved.
pub open spec fn path_not_found_message() -> Seq<char> {
    "The path does not exists."@
}

/// Why a path could not be resolved. Every cause (a missing entry, a denied
/// permission, an I/O failure, a broken link) is collapsed into one kind.
#[derive(Debug, Clone, Copy, PartialEq, Eq, Structural)]
pub enum PathError {
    PathNotFound,
}

impl PathError {
    /// The human-readable diagnostic for this error.
    pub fn message(&self) -> (r: String)
        ensures
            r@ == path_not_found_message(),
    {
        "The path does not exists.".to_string()
    }
}

/// What the caller does next: show the help instructions and stop, or
/// resolve the given path and work on it.
#[derive(Debug, PartialEq, Eq)]
pub enum Step {
    ShowHelp,
    ResolvePath(String),
}

/// The captured invocation arguments, program name first.
pub struct ArgumentsParser {
    arguments: Vec<String>,
}

impl View for ArgumentsParser {
    type V = Seq<Seq<char>>;

    closed spec fn view(&self) -> Seq<Seq<char>> {
        self.arguments@.map_values(|s: String| s@)
    }
}

/// Whether one argument is exactly a help token.
fn is_help_argument(argument: &String) -> (r: bool)
    ensures
        r == is_help_token(argument@),
{
    let short = "-h".to_string();
    let long = "--help".to_string();
    proof {
        reveal_strlit("-h");
        reveal_strlit("--help");
        assert(short@ =~= short_help_token());
        assert(long@ =~= long_help_token());
    }
    *argument == short || *argument == long
}

impl ArgumentsParser {
    /// Captures the given arguments, in order, program name first.
    pub fn from_arguments(arguments: Vec<String>) -> (r: ArgumentsParser)
        ensures
            r@ == arguments@.map_values(|s: String| s@),
    {
        ArgumentsParser { arguments }
    }

    /// Whether some argument follows the program name.
    fn has_enough_arguments(&self) -> (r: bool)
        ensures
            r == (self@.len() > 1),
    {
        self.arguments.len() > 1
    }

    /// The path to resolve: the last argument, whatever it holds (a help
    /// token too), when any follows the program name; else `.`.
    pub fn path_candidate(&self) -> (r: String)
        ensures
            r@ == candidate_of(self@),
    {
        if self.has_enough_arguments() {
            let last: usize = self.arguments.len() - 1;
            self.arguments[last].clone()
        } else {
            let current = ".".to_string();
            proof {
                reveal_strlit(".");
                assert(current@ =~= seq!['.']);
            }
            current
        }
    }

    /// The decision the arguments lead to: help when a help token stands
    /// anywhere, else the path candidate.
    pub fn next_step(&self) -> (r: Step)
        ensures
            wants_help(self@) ==> r == Step::ShowHelp,
            !wants_help(self@) ==> (r matches Step::ResolvePath(p) && p@ == candidate_of(self@)),
    {
        if self.is_to_show_help() {
            Step::ShowHelp
        } else {
            Step::ResolvePath(self.path_candidate())
        }
    }

    /// Whether help is asked for: a help token stands at some position.
    pub fn is_to_show_help(&self) -> (r: bool)
        ensures
            r == wants_help(self@),
    {
        let mut i: usize = 0;
        while i < self.arguments.len()
            invariant
                0 <= i <= self.arguments.len(),
                forall|j: int| 0 <= j < i ==> !is_help_token(#[trigger] self@[j]),
            decreases self.arguments.len() - i,
        {
            if is_help_argument(&self.arguments[i]) {
                assert(is_help_token(self@[i as int]));
                return true;
            }
            i += 1;
        }
        false
    }
}

/// Help is wanted exactly when `-h` or `--help` occurs in the arguments, at
/// any position.
pub proof fn lemma_help_at_any_position(arguments: Seq<Seq<char>>)
    ensures
        wants_help(arguments) <==> (arguments.contains(short_help_token())
            || arguments.contains(long_help_token())),
{
    if wants_help(arguments) {
        let i = choose|i: int| 0 <= i < arguments.len() && #[trigger] is_help_token(arguments[i]);
        assert(arguments[i] == short_help_token() || arguments[i] == long_help_token());
    }
    if arguments.contains(short_help_token()) {
        let i = choose|i: int| 0 <= i < arguments.len() && arguments[i] == short_help_token();
        assert(is_help_token(arguments[i]));
    }
    if arguments.contains(long_help_token()) {
        let i = choose|i: int| 0 <= i < arguments.len() && arguments[i] == long_help_token();
        assert(is_help_token(arguments[i]));
    }
}

/// With the program name alone, the path candidate is the current working
/// directory.
pub proof fn lemma_program_name_only(program: Seq<char>)
    ensures
        candidate_of(seq![program]) == seq!['.'],
{
}

/// Of `[program, a, b]` the path candidate is `b`, whatever `a` holds.
pub proof fn lemma_last_argument_wins(program: Seq<char>, a: Seq<char>, b: Seq<char>)
    ensures
        candidate_of(seq![program, a, b]) == b,
{
}

} // verus!
