//! The frontend invocation: the program, its arguments, and the game and core it runs.

use vstd::prelude::*;

use crate::file::fullpath_outcome;
use crate::file::is_rooted;
use crate::file::plain_absolute;
use crate::file::to_fullpath;
use crate::retroarch::core_file_outcome;
use crate::resolve::resolved_core;
use crate::resolve::selected_game;
use crate::resolve::BuildError;
use crate::retroarch::libretro_fullpath;
use crate::retroarch::LIBRETRO_SUFFIX;
use crate::settings::is_set;
use crate::settings::Settings;
use crate::settings::SettingsView;

verus! {

/// A command as mathematical values.
pub struct RunView {
    pub program: Seq<char>,
    pub arguments: Seq<Seq<char>>,
    pub game: Seq<char>,
    pub libretro: Seq<char>,
}

/// The frontend invocation to execute, with the game and the full core path it uses.
#[derive(Debug)]
pub struct RunCommand {
    pub program: String,
    pub arguments: Vec<String>,
    pub game: String,
    pub libretro: String,
}

impl View for RunCommand {
    type V = RunView;

    open spec fn view(&self) -> RunView {
        RunView {
            program: self.program@,
            arguments: self.arguments.deep_view(),
            game: self.game@,
            libretro: self.libretro@,
        }
    }
}

/// The program to run: the frontend path, or nothing.
pub open spec fn program_of(v: SettingsView) -> Seq<char> {
    match v.retroarch {
        Some(p) => p,
        None => Seq::empty(),
    }
}

/// The arguments: the game, `--libretro` and the core, `--config` and the frontend's
/// configuration when set, `--fullscreen` when on, then the pass-through arguments unchanged.
pub open spec fn command_arguments(v: SettingsView, game: Seq<char>, libretro: Seq<char>) -> Seq<Seq<char>> {
    seq![game, "--libretro"@, libretro] + match v.retroarch_config {
        Some(c) => seq!["--config"@, c],
        None => Seq::empty(),
    } + if is_set(v.fullscreen) {
        seq!["--fullscreen"@]
    } else {
        Seq::empty()
    } + v.retroarch_arguments
}

/// The game argument from the selected game and what became of it when made absolute: the
/// absolute path; else, when simulating, the path as it was, or nothing when no game was
/// selected; else an error.
pub open spec fn game_argument(norun: bool, selected: Option<Seq<char>>, resolved: Option<Seq<char>>) -> Result<Seq<char>, BuildError> {
    match selected {
        None => if norun {
            Ok(Seq::empty())
        } else {
            Err(BuildError::NoGame)
        },
        Some(g) => match resolved {
            Some(p) => Ok(p),
            None => if norun {
                Ok(g)
            } else {
                Err(BuildError::GameNotFound)
            },
        },
    }
}

/// The command for game argument `game` and full core path `full` (absent where the core file
/// was not found).
pub open spec fn assembled(v: SettingsView, game: Seq<char>, full: Option<Seq<char>>) -> Result<RunView, BuildError> {
    match full {
        Some(f) => Ok(RunView { program: program_of(v), arguments: command_arguments(v, game, f), game, libretro: f }),
        None => Err(BuildError::LibretroNotFound),
    }
}

/// The outcome of building the command, given what making the selected game absolute gave
/// (`resolved`) and what making the core absolute gave (`full`).
pub open spec fn command_outcome(v: SettingsView, resolved: Option<Seq<char>>, full: Option<Seq<char>>) -> Result<RunView, BuildError> {
    match game_argument(is_set(v.norun), selected_game(v), resolved) {
        Err(e) => Err(e),
        Ok(g) => match resolved_core(v, g) {
            Err(e) => Err(e),
            Ok(_) => assembled(v, g, full),
        },
    }
}

/// What the two outside results of a build are tied to: `resolved` is what making the selected
/// game absolute may give (nothing when no game is selected), and `full` is what combining the
/// core resolved for the game argument with the core directory may give.
pub open spec fn outcomes_fit(v: SettingsView, resolved: Option<Seq<char>>, full: Option<Seq<char>>) -> bool {
    &&& match selected_game(v) {
        Some(g) => fullpath_outcome(g, is_set(v.resolve), resolved),
        None => resolved is None,
    }
    &&& game_argument(is_set(v.norun), selected_game(v), resolved) matches Ok(g) ==> (resolved_core(v, g) matches Ok(core)
        ==> core_file_outcome(v.libretro_directory, Some(core), "_libretro.so"@, full))
}

/// A built command as values.
pub open spec fn outcome_view(r: Result<RunCommand, BuildError>) -> Result<RunView, BuildError> {
    match r {
        Ok(c) => Ok(c@),
        Err(e) => Err(e),
    }
}

fn push_str(v: &mut Vec<String>, s: &str)
    ensures
        final(v).deep_view() == old(v).deep_view().push(s@),
{
    v.push(s.to_owned());
    assert(final(v).deep_view() =~= old(v).deep_view().push(s@));
}

impl Settings {
    /// The game argument: the absolute path `resolved` of the selected game `selected`; when
    /// simulating, the path as it was if it could not be resolved, and an empty argument when no
    /// game was selected.  Otherwise those cases are errors.
    pub fn game_argument(&self, selected: Option<String>, resolved: Option<String>) -> (r: Result<String, BuildError>)
        ensures
            match (r, game_argument(is_set(self@.norun), selected.deep_view(), resolved.deep_view())) {
                (Ok(a), Ok(b)) => a@ == b,
                (Err(e), Err(f)) => e == f,
                _ => false,
            },
    {
        match selected {
            None => {
                if self.is_norun() {
                    Ok(String::new())
                } else {
                    Err(BuildError::NoGame)
                }
            },
            Some(g) => match resolved {
                Some(p) => Ok(p),
                None => {
                    if self.is_norun() {
                        Ok(g)
                    } else {
                        Err(BuildError::GameNotFound)
                    }
                },
            },
        }
    }

    /// The command for game argument `game` and the full core path `fullpath`; an error when the
    /// core file was not found.
    pub fn assemble_command(&self, game: String, fullpath: Option<String>) -> (r: Result<RunCommand, BuildError>)
        ensures
            outcome_view(r) == assembled(self@, game@, fullpath.deep_view()),
    {
        let libretro = match fullpath {
            Some(f) => f,
            None => return Err(BuildError::LibretroNotFound),
        };
        let program = match &self.retroarch {
            Some(p) => p.clone(),
            None => String::new(),
        };
        let mut arguments: Vec<String> = Vec::new();
        push_str(&mut arguments, game.as_str());
        push_str(&mut arguments, "--libretro");
        push_str(&mut arguments, libretro.as_str());
        if let Some(c) = &self.retroarch_config {
            push_str(&mut arguments, "--config");
            push_str(&mut arguments, c.as_str());
        }
        if self.fullscreen == Some(true) {
            push_str(&mut arguments, "--fullscreen");
        }
        let ghost head = arguments.deep_view();
        let mut i: usize = 0;
        while i < self.retroarch_arguments.len()
            invariant
                i <= self.retroarch_arguments@.len(),
                arguments.deep_view() == head + self@.retroarch_arguments.subrange(0, i as int),
            decreases self.retroarch_arguments@.len() - i,
        {
            assert(self@.retroarch_arguments[i as int] == self.retroarch_arguments@[i as int]@);
            push_str(&mut arguments, self.retroarch_arguments[i].as_str());
            assert(head + self@.retroarch_arguments.subrange(0, i + 1) =~= (head + self@.retroarch_arguments.subrange(0, i as int)).push(
                self@.retroarch_arguments[i as int],
            ));
            i = i + 1;
        }
        assert(self@.retroarch_arguments.subrange(0, i as int) =~= self@.retroarch_arguments);
        assert(arguments.deep_view() =~= command_arguments(self@, game@, libretro@));
        Ok(RunCommand { program, arguments, game, libretro })
    }

    /// Builds the frontend invocation: selects the game and makes its path absolute (honouring
    /// the symbolic-link option), resolves the core for it, combines the core with the core
    /// directory, and assembles the arguments.  The first failure ends the build.  Which paths
    /// exist and what the home directory and working directory are is read from the system;
    /// whatever they are, the result is what `command_outcome` gives for them.
    pub fn build_command(&self) -> (r: Result<RunCommand, BuildError>)
        ensures
            exists|resolved: Option<Seq<char>>, full: Option<Seq<char>>| #[trigger] outcomes_fit(self@, resolved, full)
                && command_outcome(self@, resolved, full) == outcome_view(r),
            r matches Ok(run) ==> is_rooted(run.libretro@),
            selected_game(self@) is Some && !is_set(self@.resolve) && plain_absolute(selected_game(self@)->0)
                && !selected_game(self@)->0.contains('$') ==> (r matches Ok(run) ==> run.game@ == selected_game(self@)->0),
            selected_game(self@) is None && !is_set(self@.norun) ==> r == Err::<RunCommand, BuildError>(BuildError::NoGame),
    {
        let selected = self.select_game();
        let resolved = match &selected {
            Some(g) => to_fullpath(g.as_str(), self.resolve == Some(true)),
            None => None,
        };
        let ghost res = resolved.deep_view();
        let game = match self.game_argument(selected, resolved) {
            Ok(g) => g,
            Err(e) => {
                assert(outcomes_fit(self@, res, None));
                assert(command_outcome(self@, res, None) == outcome_view(Err::<RunCommand, BuildError>(e)));
                return Err(e);
            },
        };
        let libretro = match self.resolve_libretro(game.as_str()) {
            Ok(l) => l,
            Err(e) => {
                assert(outcomes_fit(self@, res, None));
                assert(command_outcome(self@, res, None) == outcome_view(Err::<RunCommand, BuildError>(e)));
                return Err(e);
            },
        };
        let directory = match &self.libretro_directory {
            Some(d) => Some(d.clone()),
            None => None,
        };
        proof {
            reveal_strlit("_libretro.so");
        }
        let fullpath = libretro_fullpath(directory, Some(libretro), LIBRETRO_SUFFIX);
        let ghost full = fullpath.deep_view();
        let r = self.assemble_command(game, fullpath);
        assert(outcomes_fit(self@, res, full));
        assert(command_outcome(self@, res, full) == outcome_view(r));
        r
    }
}

} // verus!
