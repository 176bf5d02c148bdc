//! Turning a configured command into what is needed to start it.
use vstd::prelude::*;
use crate::paths::{
    expand_tilde_with_home, expanded, home_dir, is_absolute, join, path_starts_with_tilde, pushed,
    starts_with_tilde, text_of,
};

verus! {

/// A command as the configuration describes it.
#[derive(Clone, Debug)]
pub struct CommandBuilder {
    /// The command line, split into words as a Unix shell would
    pub command: String,
    /// The name to show for the command; the command line when there is none
    pub name: Option<String>,
    /// The directory to run the command in; the configuration's directory
    /// when there is none
    pub running_dir: Option<String>,
}

/// Why a configured command cannot be started.
#[derive(PartialEq, Eq, Structural, Clone, Copy, Debug)]
pub enum CommandError {
    /// The command line has a quote that is never closed
    UnmatchedQuote,
    /// The command line holds no word, so there is no program to run
    Empty,
    /// The running directory starts with `~` and there is no home directory
    NoHomeDirectory,
}

impl CommandError {
    /// What the error says to the user.
    pub open spec fn text(&self) -> Seq<char> {
        match self {
            CommandError::UnmatchedQuote => "missing closing quote"@,
            CommandError::Empty => "Command should not be empty"@,
            CommandError::NoHomeDirectory => "home directory not found"@,
        }
    }

    /// What the error says to the user.
    pub fn message(&self) -> (r: String)
        ensures
            r@ == self.text(),
    {
        match self {
            CommandError::UnmatchedQuote => String::from_str("missing closing quote"),
            CommandError::Empty => String::from_str("Command should not be empty"),
            CommandError::NoHomeDirectory => String::from_str("home directory not found"),
        }
    }
}

/// What is needed to start a command.
#[derive(Clone, Debug)]
pub struct LaunchPlan {
    /// The program to run
    pub program: String,
    /// Its arguments
    pub args: Vec<String>,
    /// The name to show for the command
    pub name: String,
    /// The directory to run in, still to be made canonical: the running
    /// directory with `~` expanded, taken against the configuration's
    /// directory; the configuration's directory itself when there is none
    pub dir: String,
}

/// The text of a [`LaunchPlan`].
pub struct LaunchPlanView {
    pub program: Seq<char>,
    pub args: Seq<Seq<char>>,
    pub name: Seq<char>,
    pub dir: Seq<char>,
}

impl View for LaunchPlan {
    type V = LaunchPlanView;

    open spec fn view(&self) -> LaunchPlanView {
        LaunchPlanView {
            program: self.program@,
            args: self.args@.map_values(|a: String| a@),
            name: self.name@,
            dir: self.dir@,
        }
    }
}

/// The text of the outcome of planning a command.
pub open spec fn plan_result_view(r: Result<LaunchPlan, CommandError>) -> Result<
    LaunchPlanView,
    CommandError,
> {
    match r {
        Ok(p) => Ok(p@),
        Err(e) => Err(e),
    }
}

/// The words that `shell_words::split` makes of a command line; `None` when
/// it refuses the line.
pub uninterp spec fn shell_split(line: Seq<char>) -> Option<Seq<Seq<char>>>;

/// `shell_words::ParseError`, the error of `shell_words::split`: a unit
/// struct, carried through and never looked into.
#[verifier::external_type_specification]
#[verifier::external_body]
pub struct ExParseError(shell_words::ParseError);

/// `shell_words::split`: the line split into words with quotes removed, as
/// a Unix shell splits it; the words are `shell_split` of the line, and the
/// error comes exactly when `shell_split` has no words for it.
#[verifier::external_body]
fn split_words(line: &str) -> (r: Result<Vec<String>, shell_words::ParseError>)
    ensures
        match r {
            Ok(words) => shell_split(line@) == Some(words@.map_values(|w: String| w@)),
            Err(_) => shell_split(line@) is None,
        },
{
    shell_words::split(line)
}

impl CommandBuilder {
    /// A command run from `command`, shown as `name`, in `running_dir`.
    pub fn new(command: String, name: Option<String>, running_dir: Option<String>) -> (b:
        CommandBuilder)
        ensures
            b.command == command,
            b.name == name,
            b.running_dir == running_dir,
    {
        CommandBuilder { command, name, running_dir }
    }

    /// The name shown for the command: its name, else its command line.
    pub open spec fn shown_name(&self) -> Seq<char> {
        match self.name {
            Some(n) => n@,
            None => self.command@,
        }
    }

    /// The plan for the command, given the words of its command line, the
    /// configuration's directory and the home directory.
    pub open spec fn planned(
        &self,
        words: Seq<Seq<char>>,
        config_dir: Seq<char>,
        home: Option<Seq<char>>,
    ) -> Result<LaunchPlanView, CommandError> {
        if words.len() == 0 {
            Err(CommandError::Empty)
        } else {
            let dir = match self.running_dir {
                None => Some(config_dir),
                Some(d) => match expanded(d@, home) {
                    Some(e) => Some(pushed(config_dir, e)),
                    None => None,
                },
            };
            match dir {
                None => Err(CommandError::NoHomeDirectory),
                Some(dir) => Ok(
                    LaunchPlanView {
                        program: words[0],
                        args: words.drop_first(),
                        name: self.shown_name(),
                        dir,
                    },
                ),
            }
        }
    }

    /// The plan for the command, once its command line is split and where a
    /// home directory is needed there is one.
    pub open spec fn plan_outcome(&self, config_dir: Seq<char>, home: Option<Seq<char>>) -> Result<
        LaunchPlanView,
        CommandError,
    > {
        match shell_split(self.command@) {
            None => Err(CommandError::UnmatchedQuote),
            Some(words) => self.planned(words, config_dir, home),
        }
    }

    /// The name shown for the command.
    pub fn display_name(&self) -> (r: String)
        ensures
            r@ == self.shown_name(),
            self.name matches Some(n) ==> r@ == n@,
            self.name is None ==> r@ == self.command@,
    {
        match &self.name {
            Some(n) => n.clone(),
            None => self.command.clone(),
        }
    }

    /// The plan made of the words of the command line and the directory to
    /// run in.
    fn assemble(&self, words: Vec<String>, dir: String) -> (r: LaunchPlan)
        requires
            words.len() > 0,
        ensures
            r@.program == words@[0]@,
            r@.args == words@.map_values(|w: String| w@).drop_first(),
            r@.name == self.shown_name(),
            r.dir == dir,
            r.args@ == words@.drop_first(),
    {
        let ghost before = words@;
        let mut words = words;
        let program = words.remove(0);
        proof {
            assert(words@ =~= before.drop_first());
            assert(words@.map_values(|w: String| w@) =~= before.map_values(
                |w: String| w@,
            ).drop_first());
        }
        let name = self.display_name();
        LaunchPlan { program, args: words, name, dir }
    }

    /// The plan for the command from the words of its command line, the
    /// configuration's directory and the home directory: the first word is
    /// the program, the others are its arguments; the running directory, with
    /// `~` expanded, is taken against the configuration's directory.
    pub fn plan_with_words(&self, words: Vec<String>, config_dir: &str, home: Option<&str>) -> (r:
        LaunchPlan)
        requires
            words.len() > 0,
            self.running_dir matches Some(d) ==> expanded(d@, text_of(home)) is Some,
        ensures
            Ok::<LaunchPlanView, CommandError>(r@) == self.planned(
                words@.map_values(|w: String| w@),
                config_dir@,
                text_of(home),
            ),
            r.program@ == words@[0]@,
            r.args@.len() + 1 == words@.len(),
            forall|i: int| 0 <= i < r.args@.len() ==> #[trigger] r.args@[i]@ == words@[i + 1]@,
            self.name matches Some(n) ==> r.name@ == n@,
            self.name is None ==> r.name@ == self.command@,
            self.running_dir is None ==> r.dir@ == config_dir@,
    {
        let expanded_dir = match &self.running_dir {
            None => None,
            Some(d) => expand_tilde_with_home(d.as_str(), home),
        };
        let dir = match &expanded_dir {
            None => running_dir(config_dir, None),
            Some(e) => running_dir(config_dir, Some(e.as_str())),
        };
        self.assemble(words, dir)
    }

    /// The plan for the command: its command line split into words, and its
    /// running directory, with a leading `~` replaced by the home directory,
    /// taken against the configuration's directory `config_dir`.
    ///
    /// A command line with no word to run is the error `Empty`, and a running
    /// directory that starts with `~` when there is no home directory is the
    /// error `NoHomeDirectory`: both are reported, not panicked on. Both
    /// depend on what is only known here (the words `shell_words::split`
    /// makes, and the home directory), so no caller could rule them out
    /// beforehand. `plan_with_words`, which takes the words and the home
    /// directory as arguments, leaves these inputs out by its `requires`.
    ///
    /// The home directory is looked up only for a running directory that
    /// starts with `~`; what it is the caller cannot know, so the outcome is
    /// stated for some home directory, and exactly where none is needed.
    pub fn plan(&self, config_dir: &str) -> (r: Result<LaunchPlan, CommandError>)
        ensures
            exists|home: Option<Seq<char>>|
                plan_result_view(r) == #[trigger] self.plan_outcome(config_dir@, home),
            (self.running_dir matches Some(d) ==> !starts_with_tilde(d@)) ==> plan_result_view(r)
                == self.plan_outcome(config_dir@, None),
    {
        let words = match split_words(self.command.as_str()) {
            Ok(words) => words,
            Err(_) => {
                assert(plan_result_view(Err(CommandError::UnmatchedQuote)) == self.plan_outcome(
                    config_dir@,
                    None,
                ));
                return Err(CommandError::UnmatchedQuote);
            },
        };
        if words.len() == 0 {
            assert(plan_result_view(Err(CommandError::Empty)) == self.plan_outcome(
                config_dir@,
                None,
            ));
            return Err(CommandError::Empty);
        }
        let needs_home = match &self.running_dir {
            Some(d) => path_starts_with_tilde(d.as_str()),
            None => false,
        };
        if !needs_home {
            let p = self.plan_with_words(words, config_dir, None);
            assert(plan_result_view(Ok(p)) == self.plan_outcome(config_dir@, None));
            return Ok(p);
        }
        let home = home_dir();
        let h: Option<&str> = match &home {
            Some(s) => Some(s.as_str()),
            None => None,
        };
        if h.is_none() {
            assert(plan_result_view(Err(CommandError::NoHomeDirectory)) == self.plan_outcome(
                config_dir@,
                None,
            ));
            return Err(CommandError::NoHomeDirectory);
        }
        let p = self.plan_with_words(words, config_dir, h);
        assert(plan_result_view(Ok(p)) == self.plan_outcome(config_dir@, text_of(h)));
        Ok(p)
    }
}

/// The directory a command runs in, before it is made canonical: the
/// configuration's directory `config_dir` when the command names no running
/// directory, else `dir`, the running directory with `~` expanded, joined
/// onto `config_dir`, so that a relative one is taken against the
/// configuration's directory and an absolute one stands as it is.
pub fn running_dir(config_dir: &str, dir: Option<&str>) -> (r: String)
    ensures
        r@ == match text_of(dir) {
            None => config_dir@,
            Some(d) => pushed(config_dir@, d),
        },
        dir is None ==> r@ == config_dir@,
        dir matches Some(d) ==> (d@.len() > 0 && d@[0] == '/' ==> r@ == d@),
        dir matches Some(d) ==> (!(d@.len() > 0 && d@[0] == '/') && config_dir@.len() > 0
            && config_dir@.last() != '/' ==> r@ == config_dir@ + seq!['/'] + d@),
{
    match dir {
        None => String::from_str(config_dir),
        Some(d) => join(config_dir, d),
    }
}

/// The name shown for a command is its configured name exactly when it has
/// one, whatever that name is, and its command line otherwise.
pub proof fn lemma_shown_name(b: CommandBuilder)
    ensures
        b.name matches Some(n) ==> b.shown_name() == n@,
        b.name is None ==> b.shown_name() == b.command@,
{
}

/// The plan of a command keeps its configured name exactly, and a running
/// directory that starts with `~` (with more after it) lies under an
/// absolute home directory, with no `~` left.
pub proof fn lemma_plan_name_and_home(
    b: CommandBuilder,
    words: Seq<Seq<char>>,
    config_dir: Seq<char>,
    h: Seq<char>,
)
    requires
        words.len() > 0,
        h.len() > 0 && h[0] == '/',
    ensures
        b.planned(words, config_dir, Some(h)) matches Ok(v) ==> (b.name matches Some(n) ==> v.name
            == n@),
        b.running_dir matches Some(d) && starts_with_tilde(d@) && crate::paths::tilde_rest_start(
            d@,
        ) < d@.len() ==> (b.planned(words, config_dir, Some(h)) matches Ok(v) && v.dir.subrange(
            0,
            h.len() as int,
        ) == h && !starts_with_tilde(v.dir)),
{
    if b.running_dir is Some {
        let d = b.running_dir->0@;
        if starts_with_tilde(d) && crate::paths::tilde_rest_start(d) < d.len() {
            crate::paths::lemma_tilde_under_home(d, h);
        }
    }
}

/// A running directory without `~` is placed against the configuration's
/// directory: a relative one lies under it, an absolute one stands as it is.
pub proof fn lemma_running_dir_placement(
    b: CommandBuilder,
    words: Seq<Seq<char>>,
    config_dir: Seq<char>,
    home: Option<Seq<char>>,
)
    requires
        words.len() > 0,
        b.running_dir matches Some(d) && !starts_with_tilde(d@),
    ensures
        b.planned(words, config_dir, home) matches Ok(v) && ({
            let d = b.running_dir->0@;
            &&& is_absolute(d) ==> v.dir == d
            &&& !is_absolute(d) ==> v.dir.subrange(0, config_dir.len() as int) == config_dir
                && v.dir.len() >= config_dir.len() + d.len()
        }),
{
    let d = b.running_dir->0@;
    let v = pushed(config_dir, d);
    if !is_absolute(d) {
        assert(v.subrange(0, config_dir.len() as int) =~= config_dir);
    }
}

/// How an attempt to kill a command's process went.
#[derive(PartialEq, Eq, Structural, Clone, Copy, Debug)]
pub enum KillOutcome {
    /// The process was killed
    Killed,
    /// The process had already been killed (the system calls the input invalid)
    AlreadyKilled,
    /// Killing failed otherwise
    Failed,
}

/// What to do once a kill was attempted.
#[derive(PartialEq, Eq, Structural, Clone, Copy, Debug)]
pub enum KillStep {
    /// Wait for the process to be gone
    Wait,
    /// Give up and report the failure
    Fail,
}

/// After a kill: a process that was killed now or before is waited for; any
/// other failure is reported.
pub fn after_kill(outcome: KillOutcome) -> (step: KillStep)
    ensures
        step == (if outcome == KillOutcome::Failed {
            KillStep::Fail
        } else {
            KillStep::Wait
        }),
{
    match outcome {
        KillOutcome::Failed => KillStep::Fail,
        _ => KillStep::Wait,
    }
}

/// What to do after reading a line of a command's output.
#[derive(PartialEq, Eq, Structural, Clone, Copy, Debug)]
pub enum ReadStep {
    /// The output has ended: stop reading
    Stop,
    /// Append the line to the command's output, then read on
    Append,
    /// The read failed: note it, then read on
    Retry,
}

/// After a read of a line of output: `None` for a failed read, else the
/// number of bytes read. Nothing read is the end of the output.
pub fn after_read(read: Option<usize>) -> (step: ReadStep)
    ensures
        step == match read {
            None => ReadStep::Retry,
            Some(0) => ReadStep::Stop,
            Some(_) => ReadStep::Append,
        },
{
    match read {
        None => ReadStep::Retry,
        Some(0) => ReadStep::Stop,
        Some(_) => ReadStep::Append,
    }
}

} // verus!
