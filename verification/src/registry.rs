//! The registry itself: the `Argpars` interface and `ArgsObj`, the type that
//! implements it.

use vstd::prelude::*;
use vstd::hash_map::StringHashMap;
use crate::model::{first_rejected, help_flag, lemma_first_rejected, version_flag, ArgsView};
use crate::screen::{append_option_lines, append_section_blocks, no_such_option};
use crate::text::{is_value_in_a_vector_str, position_of, starts_with_marker, str_eq};

verus! {

/// The operations of an argument registry. Each contract is stated over the
/// registry's view, an [`ArgsView`]. Its invariant, [`ArgsView::wf`], holds
/// of a fresh registry and is kept by every operation but
/// `no_default_arguments`, which says when it keeps it. A fresh registry's
/// lookup tables record the invocation ([`ArgsView::lookups_current`]), and
/// so do they after every registration.
pub trait Argpars: View<V = ArgsView> + Sized {
    /// A fresh registry over the invocation `arguments_passed`, whose first
    /// element is the program path. The two built-in flags are registered,
    /// and the lookup tables record which of them the invocation holds and
    /// with what parameter.
    fn new(arguments_passed: Vec<String>) -> (args: Self)
        requires
            arguments_passed@.len() >= 1,
        ensures
            args@ == ArgsView::initial(arguments_passed.deep_view()).synced(),
            args@.wf(),
            args@.lookups_current(),
    ;

    /// Whether the invocation holds the program path and nothing else.
    fn no_arguments_passed(&self) -> (none: bool)
        ensures
            none == (self@.arguments_passed.len() == 1),
    ;

    /// Whether `arg` occurs anywhere in the invocation. `arg` need not be a
    /// registered flag.
    fn passed(&self, arg: &str) -> (found: bool)
        ensures
            found == self@.passed(arg@),
    ;

    /// Registers `argument` with `description`. Nothing is asked of the
    /// token: one that is empty, or registered already, is appended like any
    /// other. Its lookup entries are reset, then both lookup tables are
    /// brought up to date with the invocation.
    fn add_argument(&mut self, argument: &str, description: &str)
        ensures
            final(self)@ == old(self)@.with_argument(argument@, description@),
            old(self)@.wf() ==> final(self)@.wf() && final(self)@.lookups_current(),
    ;

    /// Whether `--help` or `--version` occurs in the invocation.
    fn default_arguments_passed(&self) -> (found: bool)
        ensures
            found == self@.default_arguments_passed(),
    ;

    /// Whether validation rejects the invocation: whether some token after
    /// the program path, the final one left out if `last_param_ok` is set,
    /// is written like a flag without being registered, or is a parameter
    /// that does not directly follow a registered flag.
    fn wrong_arguments_passed(&self) -> (wrong: bool)
        ensures
            wrong == self@.wrong_arguments(),
    ;

    /// The parameter given for `arg`: the token after the first occurrence of
    /// `arg` in the invocation, unless that token is a registered flag. The
    /// result is empty if there is no such token, or if `arg` does not occur.
    fn get_parameter_for(&self, arg: &str) -> (parameter: &str)
        ensures
            parameter@ == self@.parameter_for(arg@),
    ;

    /// The text to show for an error of kind `err_type` about `additional`.
    /// The kind `no_such_option` yields two lines, of which the second names
    /// the program path; any other kind yields nothing.
    fn display_error_message(&self, err_type: &str, additional: &str) -> (message: String)
        requires
            err_type@ == no_such_option() ==> self@.arguments_passed.len() >= 1,
        ensures
            message@ == self@.error_message(err_type@, additional@),
    ;

    /// Switches the built-in flags off: removes the first two registered
    /// flags, the first four entries of the description list, and the lookup
    /// entries of `--help` and `--version`. No other entry is written. Meant
    /// to be called once, before any flag is registered: the registry is
    /// then well-formed and empty. Called later, while the built-in flags
    /// are in force, it keeps the registry well-formed unless one of the two
    /// was registered a second time.
    fn no_default_arguments(&mut self)
        requires
            old(self)@.arguments.len() >= 2,
            old(self)@.arg_desc_vec.len() >= 4,
        ensures
            final(self)@ == old(self)@.without_defaults(),
            old(self)@.wf() && old(self)@.default_arguments ==> (final(self)@.wf()
                <==> !final(self)@.arguments.contains(help_flag())
                && !final(self)@.arguments.contains(version_flag())),
            old(self)@.wf() && old(self)@.default_arguments && old(self)@.arguments.len() == 2
                ==> final(self)@.wf() && final(self)@.lookups_current(),
    ;

    /// The help screen as one text: the usage line, name, description and
    /// version, then one line per registered flag in the order of
    /// registration and, if any help section was added, an empty line and
    /// the sections in the order in which they were added. A flag stands
    /// with its description, the one of its last registration if it was
    /// registered more than once; a section with its body, the one of the
    /// first section of that title. A flag without a description, or a
    /// title without a body, stands alone.
    fn display_help_screen(&self) -> (screen: String)
        ensures
            screen@ == self@.help_screen(),
    ;

    /// Adds a section to the help screen, after those added before.
    fn add_help_section(&mut self, section: &str, content: &str)
        ensures
            final(self)@ == old(self)@.with_help_section(section@, content@),
            old(self)@.wf() ==> final(self)@.wf(),
            old(self)@.lookups_current() ==> final(self)@.lookups_current(),
    ;

    /// Runs the registry over the invocation and says what the process is to
    /// do: the exit code, and what to write to the output and error streams.
    /// With no arguments nothing is written and the code is 0. Else the
    /// invocation is validated; the first rejected token is reported on the
    /// error stream, with code 1 and nothing else written. If validation
    /// passes and the built-in flags are in force, `--help` yields the help
    /// screen and `--version` the version line, in that order; the code is 0.
    fn pars(&self) -> (outcome: ParsOutcome)
        ensures
            outcome.exit_code == self@.exit_code(),
            outcome.stdout@ == self@.pars_stdout(),
            outcome.stderr@ == self@.pars_stderr(),
    ;

    /// Brings both lookup tables up to date: each registered flag that occurs
    /// in the invocation is marked as passed and gets its parameter.
    fn lookup_update(&mut self)
        ensures
            final(self)@ == old(self)@.synced(),
            old(self)@.wf() ==> final(self)@.wf() && final(self)@.lookups_current(),
    ;
}

/// What a run of the registry asks of the process.
pub struct ParsOutcome {
    /// 0 on success, 1 if validation failed.
    pub exit_code: i32,
    /// The text for the output stream.
    pub stdout: String,
    /// The text for the error stream.
    pub stderr: String,
}

/// The registry: the invocation, the registered flags with their
/// descriptions, the lookup tables, and the texts of the help screen. The
/// fields are public; the help texts and `last_param_ok` are meant to be
/// assigned directly.
pub struct ArgsObj {
    /// The invocation: the program path, then the arguments.
    pub arguments_passed: Vec<String>,
    /// The registered flags, in the order of registration.
    pub arguments: Vec<String>,
    /// Whether the built-in flags are still in force.
    pub default_arguments: bool,
    /// The first line of the help screen.
    pub help_usage: String,
    /// The name of the program, for the help screen and the version line.
    pub help_name: String,
    /// What the program does, for the help screen.
    pub help_description: String,
    /// The version of the program, for the help screen and the version line.
    pub help_version: String,
    /// Flags and descriptions, flat: each flag is followed by its description.
    pub arg_desc_vec: Vec<String>,
    /// The titles of the help sections, in the order in which they were added.
    pub help_sections: Vec<String>,
    /// Titles and bodies of the help sections, flat.
    pub help_sections_content: Vec<String>,
    /// For each registered flag, whether it was found in the invocation.
    pub passed_arguments_lookup: StringHashMap<bool>,
    /// For each registered flag, the parameter found for it.
    pub parameters_lookup: StringHashMap<String>,
    /// Whether the final token of the invocation is a free operand, which
    /// validation leaves out.
    pub last_param_ok: bool,
}

impl View for ArgsObj {
    type V = ArgsView;

    open spec fn view(&self) -> ArgsView {
        ArgsView {
            arguments_passed: self.arguments_passed.deep_view(),
            arguments: self.arguments.deep_view(),
            default_arguments: self.default_arguments,
            help_usage: self.help_usage@,
            help_name: self.help_name@,
            help_description: self.help_description@,
            help_version: self.help_version@,
            arg_desc_vec: self.arg_desc_vec.deep_view(),
            help_sections: self.help_sections.deep_view(),
            help_sections_content: self.help_sections_content.deep_view(),
            passed_arguments_lookup: self.passed_arguments_lookup@,
            parameters_lookup: self.parameters_lookup@.map_values(|text: String| text@),
            last_param_ok: self.last_param_ok,
        }
    }
}

impl Argpars for ArgsObj {
    fn new(arguments_passed: Vec<String>) -> (args: ArgsObj) {
        let mut help_usage = String::from_str("Usage: ");
        help_usage.append(arguments_passed[0].as_str());
        help_usage.append(" [OPTION]...\n");

        let mut arguments: Vec<String> = Vec::new();
        arguments.push(String::from_str("--help"));
        arguments.push(String::from_str("--version"));

        let mut arg_desc_vec: Vec<String> = Vec::new();
        arg_desc_vec.push(String::from_str("--help"));
        arg_desc_vec.push(String::from_str("\tdisplay this help and exit"));
        arg_desc_vec.push(String::from_str("--version"));
        arg_desc_vec.push(String::from_str("output version information and exit"));

        let mut passed_arguments_lookup: StringHashMap<bool> = StringHashMap::new();
        passed_arguments_lookup.insert(String::from_str("--help"), false);
        passed_arguments_lookup.insert(String::from_str("--version"), false);

        let mut parameters_lookup: StringHashMap<String> = StringHashMap::new();
        parameters_lookup.insert(String::from_str("--help"), String::new());
        parameters_lookup.insert(String::from_str("--version"), String::new());

        let mut args = ArgsObj {
            arguments_passed,
            arguments,
            default_arguments: true,
            help_usage,
            help_name: String::from_str("Default name"),
            help_description: String::from_str("Default description"),
            help_version: String::from_str("Default version"),
            arg_desc_vec,
            help_sections: Vec::new(),
            help_sections_content: Vec::new(),
            passed_arguments_lookup,
            parameters_lookup,
            last_param_ok: false,
        };
        proof {
            assert(args@ =~= ArgsView::initial(arguments_passed.deep_view()));
            ArgsView::lemma_initial_wf(arguments_passed.deep_view());
        }
        args.lookup_update();
        args
    }

    fn no_arguments_passed(&self) -> (none: bool) {
        self.arguments_passed.len() == 1
    }

    fn passed(&self, arg: &str) -> (found: bool) {
        is_value_in_a_vector_str(arg, self.arguments_passed.as_slice())
    }

    fn add_argument(&mut self, argument: &str, description: &str) {
        self.arguments.push(String::from_str(argument));
        self.arg_desc_vec.push(String::from_str(argument));
        self.arg_desc_vec.push(String::from_str(description));
        self.passed_arguments_lookup.insert(String::from_str(argument), false);
        self.parameters_lookup.insert(String::from_str(argument), String::new());
        proof {
            assert(self@ =~= old(self)@.appended(argument@, description@));
            if old(self)@.wf() {
                old(self)@.lemma_appended_wf(argument@, description@);
            }
        }
        self.lookup_update();
    }

    fn default_arguments_passed(&self) -> (found: bool) {
        self.passed("--help") || self.passed("--version")
    }

    fn wrong_arguments_passed(&self) -> (wrong: bool) {
        proof {
            self@.lemma_wrong_iff_first_wrong();
        }
        self.first_wrong_argument().is_some()
    }

    fn get_parameter_for(&self, arg: &str) -> (parameter: &str) {
        proof {
            reveal_strlit("");
        }
        let snapshot = self.arguments_passed.as_slice();
        match position_of(arg, snapshot) {
            Some(at) => {
                proof {
                    self@.arguments_passed.index_of_first_ensures(arg@);
                }
                let count: usize = snapshot.len();
                if at + 1 < count && !is_value_in_a_vector_str(
                    snapshot[at + 1].as_str(),
                    self.arguments.as_slice(),
                ) {
                    snapshot[at + 1].as_str()
                } else {
                    ""
                }
            },
            None => "",
        }
    }

    fn display_error_message(&self, err_type: &str, additional: &str) -> (message: String) {
        if str_eq(err_type, "no_such_option") {
            let mut message = String::from_str("ERROR: No such option: '");
            message.append(additional);
            message.append("'\n");
            message.append("Try: '");
            message.append(self.arguments_passed[0].as_str());
            message.append(" --help' for more information.\n");
            message
        } else {
            String::new()
        }
    }

    fn no_default_arguments(&mut self) {
        self.arguments.remove(0);
        self.arguments.remove(0);
        self.arg_desc_vec.remove(0);
        self.arg_desc_vec.remove(0);
        self.arg_desc_vec.remove(0);
        self.arg_desc_vec.remove(0);
        self.passed_arguments_lookup.remove("--help");
        self.passed_arguments_lookup.remove("--version");
        self.parameters_lookup.remove("--help");
        self.parameters_lookup.remove("--version");
        self.default_arguments = false;
        proof {
            assert(self@ =~= old(self)@.without_defaults());
            if old(self)@.wf() && old(self)@.default_arguments {
                old(self)@.lemma_without_defaults_wf();
            }
        }
    }

    fn display_help_screen(&self) -> (screen: String) {
        let mut screen = self.help_usage.clone();
        screen.append("\n");
        screen.append("Name: ");
        screen.append(self.help_name.as_str());
        screen.append("\n");
        screen.append("Description: ");
        screen.append(self.help_description.as_str());
        screen.append("\n");
        screen.append("Version: ");
        screen.append(self.help_version.as_str());
        screen.append("\n\n");
        screen.append("Possible options:\n");

        let descriptions = self.arg_desc_vec.as_slice();
        let flags = self.arguments.as_slice();
        append_option_lines(&mut screen, descriptions, flags);

        if !self.help_sections.is_empty() {
            let content = self.help_sections_content.as_slice();
            let titles = self.help_sections.as_slice();
            screen.append("\n");
            append_section_blocks(&mut screen, content, titles);
        }
        screen
    }

    fn add_help_section(&mut self, section: &str, content: &str) {
        self.help_sections.push(String::from_str(section));
        self.help_sections_content.push(String::from_str(section));
        self.help_sections_content.push(String::from_str(content));
        proof {
            assert(self@ =~= old(self)@.with_help_section(section@, content@));
            if old(self)@.wf() {
                old(self)@.lemma_with_help_section_wf(section@, content@);
            }
            if old(self)@.lookups_current() {
                old(self)@.lemma_with_help_section_current(section@, content@);
            }
        }
    }

    fn pars(&self) -> (outcome: ParsOutcome) {
        proof {
            self@.lemma_wrong_iff_first_wrong();
            lemma_first_rejected(self@.arguments_passed, self@.arguments, 1, self@.scan_end());
        }
        let mut stdout = String::new();
        let mut stderr = String::new();
        let mut exit_code: i32 = 0;
        if !self.no_arguments_passed() {
            match self.first_wrong_argument() {
                Some(at) => {
                    let rejected = self.arguments_passed[at].as_str();
                    stderr = self.display_error_message("no_such_option", rejected);
                    exit_code = 1;
                },
                None => {
                    if self.default_arguments {
                        if self.passed("--help") {
                            stdout = self.display_help_screen();
                        }
                        if self.passed("--version") {
                            stdout.append(self.help_name.as_str());
                            stdout.append(" version: ");
                            stdout.append(self.help_version.as_str());
                            stdout.append("\n");
                        }
                    }
                },
            }
        }
        ParsOutcome { exit_code, stdout, stderr }
    }

    fn lookup_update(&mut self) {
        let mut i: usize = 0;
        while i < self.arguments.len()
            invariant
                i <= self.arguments@.len(),
                self@ == synced_through(old(self)@, i as int),
            decreases self.arguments@.len() - i,
        {
            if self.passed(self.arguments[i].as_str()) {
                let parameter = String::from_str(
                    self.get_parameter_for(self.arguments[i].as_str()),
                );
                let flag = self.arguments[i].clone();
                self.passed_arguments_lookup.insert(flag, true);
                let flag = self.arguments[i].clone();
                self.parameters_lookup.insert(flag, parameter);
            }
            proof {
                lemma_synced_step(old(self)@, i as int);
            }
            i = i + 1;
        }
        proof {
            assert(old(self)@.arguments.take(i as int) =~= old(self)@.arguments);
            if old(self)@.wf() {
                old(self)@.lemma_synced_wf();
                old(self)@.lemma_synced_current();
            }
        }
    }
}

impl ArgsObj {
    /// The index of the first token that validation rejects, if it rejects one.
    fn first_wrong_argument(&self) -> (at: Option<usize>)
        ensures
            match at {
                Some(i) => self@.first_wrong() == Some(i as int),
                None => self@.first_wrong() is None,
            },
    {
        let mut end: usize = self.arguments_passed.len();
        if self.last_param_ok && end > 0 {
            end = end - 1;
        }
        let mut i: usize = 1;
        while i < end
            invariant
                1 <= i,
                end <= self.arguments_passed@.len(),
                self@.first_wrong() == first_rejected(
                    self@.arguments_passed,
                    self@.arguments,
                    i as int,
                    end as int,
                ),
            decreases end - i,
        {
            let known = if starts_with_marker(self.arguments_passed[i].as_str()) {
                is_value_in_a_vector_str(
                    self.arguments_passed[i].as_str(),
                    self.arguments.as_slice(),
                )
            } else {
                is_value_in_a_vector_str(
                    self.arguments_passed[i - 1].as_str(),
                    self.arguments.as_slice(),
                )
            };
            if !known {
                return Some(i);
            }
            i = i + 1;
        }
        None
    }
}

/// The registry part-way through an update of its lookup tables: the first
/// `n` registered flags are brought up to date, the others are not yet.
spec fn synced_through(registry: ArgsView, n: int) -> ArgsView {
    let done = |key: Seq<char>| registry.arguments.take(n).contains(key) && registry.passed(key);
    ArgsView {
        passed_arguments_lookup: Map::new(
            |key: Seq<char>| done(key) || registry.passed_arguments_lookup.contains_key(key),
            |key: Seq<char>|
                if done(key) {
                    true
                } else {
                    registry.passed_arguments_lookup[key]
                },
        ),
        parameters_lookup: Map::new(
            |key: Seq<char>| done(key) || registry.parameters_lookup.contains_key(key),
            |key: Seq<char>|
                if done(key) {
                    registry.parameter_for(key)
                } else {
                    registry.parameters_lookup[key]
                },
        ),
        ..registry
    }
}

/// One step of the update: bringing flag `n` up to date writes its two
/// entries if the flag occurs in the invocation, and changes nothing if not.
proof fn lemma_synced_step(registry: ArgsView, n: int)
    requires
        0 <= n < registry.arguments.len(),
    ensures
        ({
            let flag = registry.arguments[n];
            let before = synced_through(registry, n);
            let after = synced_through(registry, n + 1);
            if registry.passed(flag) {
                &&& after.passed_arguments_lookup == before.passed_arguments_lookup.insert(
                    flag,
                    true,
                )
                &&& after.parameters_lookup == before.parameters_lookup.insert(
                    flag,
                    registry.parameter_for(flag),
                )
            } else {
                after == before
            }
        }),
{
    broadcast use vstd::seq_lib::lemma_seq_contains_after_push;

    registry.arguments.lemma_take_succ_push(n);
}

} // verus!
