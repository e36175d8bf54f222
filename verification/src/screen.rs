//! The texts the registry produces, character for character: the help
//! screen, the version line, the diagnostics for an unrecognised argument,
//! and with them the outcome of a run.

use vstd::prelude::*;
use crate::model::{
    body_of, description_of, first_pair, help_flag, last_pair, pairs, version_flag, ArgsView,
};
use crate::text::str_eq;

verus! {

/// The error kind that [`ArgsView::error_message`] has a text for.
pub open spec fn no_such_option() -> Seq<char> {
    "no_such_option"@
}

/// The two lines shown for an unrecognised argument.
pub open spec fn error_text(token: Seq<char>, program: Seq<char>) -> Seq<char> {
    "ERROR: No such option: '"@ + token + "'\n"@ + "Try: '"@ + program
        + " --help' for more information.\n"@
}

/// The line that reports the version.
pub open spec fn version_line(name: Seq<char>, version: Seq<char>) -> Seq<char> {
    name + " version: "@ + version + "\n"@
}

/// The lines that open the help screen, up to the list of options.
pub open spec fn help_header(
    usage: Seq<char>,
    name: Seq<char>,
    description: Seq<char>,
    version: Seq<char>,
) -> Seq<char> {
    usage + "\n"@ + "Name: "@ + name + "\n"@ + "Description: "@ + description + "\n"@
        + "Version: "@ + version + "\n\n"@ + "Possible options:\n"@
}

/// The line of one flag: the flag with its description, or the flag alone
/// if it has none.
pub open spec fn option_line(descriptions: Seq<Seq<char>>, flag: Seq<char>) -> Seq<char> {
    match description_of(descriptions, flag) {
        Some(description) => "\t"@ + flag + "\t"@ + description + "\n"@,
        None => "\t"@ + flag + "\n"@,
    }
}

/// The lines of all flags, in the order of registration.
pub open spec fn option_lines(descriptions: Seq<Seq<char>>, flags: Seq<Seq<char>>) -> Seq<char> {
    flags.map_values(|flag: Seq<char>| option_line(descriptions, flag)).flatten()
}

/// One help section: its title and then its body, or the title alone if it
/// has none.
pub open spec fn section_block(content: Seq<Seq<char>>, title: Seq<char>) -> Seq<char> {
    match body_of(content, title) {
        Some(body) => title + "\n"@ + body + "\n"@,
        None => title + "\n"@,
    }
}

/// All help sections, in the order in which they were added.
pub open spec fn section_blocks(content: Seq<Seq<char>>, titles: Seq<Seq<char>>) -> Seq<char> {
    titles.map_values(|title: Seq<char>| section_block(content, title)).flatten()
}

/// The lines of the first `n + 1` flags are those of the first `n`, then
/// the line of flag `n`.
proof fn lemma_option_lines_step(descriptions: Seq<Seq<char>>, flags: Seq<Seq<char>>, n: int)
    requires
        0 <= n < flags.len(),
    ensures
        option_lines(descriptions, flags.take(n + 1)) == option_lines(descriptions, flags.take(n))
            + option_line(descriptions, flags[n]),
{
    let line = |flag: Seq<char>| option_line(descriptions, flag);
    flags.lemma_take_succ_push(n);
    flags.take(n).lemma_push_map_commute(line, flags[n]);
    flags.take(n).map_values(line).lemma_flatten_push(line(flags[n]));
}

/// The blocks of the first `n + 1` sections are those of the first `n`,
/// then the block of section `n`.
proof fn lemma_section_blocks_step(content: Seq<Seq<char>>, titles: Seq<Seq<char>>, n: int)
    requires
        0 <= n < titles.len(),
    ensures
        section_blocks(content, titles.take(n + 1)) == section_blocks(content, titles.take(n))
            + section_block(content, titles[n]),
{
    let block = |title: Seq<char>| section_block(content, title);
    titles.lemma_take_succ_push(n);
    titles.take(n).lemma_push_map_commute(block, titles[n]);
    titles.take(n).map_values(block).lemma_flatten_push(block(titles[n]));
}

/// The description of `flag` in the flat list `descriptions`: the value of
/// the last pair whose key is `flag`.
pub(crate) fn description_for<'a>(flag: &str, descriptions: &'a [String]) -> (found: Option<
    &'a str,
>)
    ensures
        match found {
            Some(text) => description_of(descriptions.deep_view(), flag@) == Some(text@),
            None => description_of(descriptions.deep_view(), flag@) is None,
        },
{
    let ghost listing = descriptions.deep_view();
    let len: usize = descriptions.len();
    let count: usize = len / 2;
    let mut k: usize = count;
    while k > 0
        invariant
            k <= count,
            len == descriptions@.len(),
            count == pairs(listing),
            listing == descriptions.deep_view(),
            last_pair(listing, flag@, count as int) == last_pair(listing, flag@, k as int),
        decreases k,
    {
        k = k - 1;
        if str_eq(descriptions[2 * k].as_str(), flag) {
            return Some(descriptions[2 * k + 1].as_str());
        }
    }
    None
}

/// The body of the section titled `title` in the flat list `content`: the
/// value of the first pair whose key is `title`.
pub(crate) fn body_for<'a>(title: &str, content: &'a [String]) -> (found: Option<&'a str>)
    ensures
        match found {
            Some(text) => body_of(content.deep_view(), title@) == Some(text@),
            None => body_of(content.deep_view(), title@) is None,
        },
{
    let ghost listing = content.deep_view();
    let len: usize = content.len();
    let count: usize = len / 2;
    let mut k: usize = 0;
    while k < count
        invariant
            k <= count,
            len == content@.len(),
            count == pairs(listing),
            listing == content.deep_view(),
            first_pair(listing, title@, 0, count as int) == first_pair(
                listing,
                title@,
                k as int,
                count as int,
            ),
        decreases count - k,
    {
        if str_eq(content[2 * k].as_str(), title) {
            return Some(content[2 * k + 1].as_str());
        }
        k = k + 1;
    }
    None
}

/// Appends to `screen` the line of each flag, with its description from
/// `descriptions`.
pub(crate) fn append_option_lines(screen: &mut String, descriptions: &[String], flags: &[String])
    ensures
        final(screen)@ == old(screen)@ + option_lines(
            descriptions.deep_view(),
            flags.deep_view(),
        ),
{
    let ghost listing = descriptions.deep_view();
    let ghost all = flags.deep_view();
    let mut i: usize = 0;
    while i < flags.len()
        invariant
            i <= flags@.len(),
            listing == descriptions.deep_view(),
            all == flags.deep_view(),
            screen@ == old(screen)@ + option_lines(listing, all.take(i as int)),
        decreases flags@.len() - i,
    {
        let flag = flags[i].as_str();
        screen.append("\t");
        screen.append(flag);
        match description_for(flag, descriptions) {
            Some(description) => {
                screen.append("\t");
                screen.append(description);
            },
            None => {},
        }
        screen.append("\n");
        proof {
            lemma_option_lines_step(listing, all, i as int);
        }
        i = i + 1;
    }
    assert(all.take(i as int) =~= all);
}

/// Appends to `screen` each section, with its body from `content`.
pub(crate) fn append_section_blocks(screen: &mut String, content: &[String], titles: &[String])
    ensures
        final(screen)@ == old(screen)@ + section_blocks(content.deep_view(), titles.deep_view()),
{
    let ghost listing = content.deep_view();
    let ghost all = titles.deep_view();
    let mut i: usize = 0;
    while i < titles.len()
        invariant
            i <= titles@.len(),
            listing == content.deep_view(),
            all == titles.deep_view(),
            screen@ == old(screen)@ + section_blocks(listing, all.take(i as int)),
        decreases titles@.len() - i,
    {
        let title = titles[i].as_str();
        screen.append(title);
        screen.append("\n");
        match body_for(title, content) {
            Some(body) => {
                screen.append(body);
                screen.append("\n");
            },
            None => {},
        }
        proof {
            lemma_section_blocks_step(listing, all, i as int);
        }
        i = i + 1;
    }
    assert(all.take(i as int) =~= all);
}

impl ArgsView {
    /// The help screen: the header, one line per registered flag and, if
    /// there are help sections, an empty line and the sections.
    pub open spec fn help_screen(self) -> Seq<char> {
        help_header(self.help_usage, self.help_name, self.help_description, self.help_version)
            + option_lines(self.arg_desc_vec, self.arguments) + if self.help_sections.len() > 0 {
            "\n"@ + section_blocks(self.help_sections_content, self.help_sections)
        } else {
            Seq::empty()
        }
    }

    /// The text for an error of kind `err_type` about `additional`. Only one
    /// kind has a text; for any other the result is empty.
    pub open spec fn error_message(self, err_type: Seq<char>, additional: Seq<char>) -> Seq<char> {
        if err_type == no_such_option() {
            error_text(additional, self.arguments_passed[0])
        } else {
            Seq::empty()
        }
    }

    /// The exit code of a run: 1 if validation rejects a token, else 0.
    pub open spec fn exit_code(self) -> i32 {
        if self.wrong_arguments() {
            1i32
        } else {
            0i32
        }
    }

    /// What a run writes to the error stream: the diagnostics for the first
    /// rejected token, or nothing.
    pub open spec fn pars_stderr(self) -> Seq<char> {
        match self.first_wrong() {
            Some(i) => error_text(self.arguments_passed[i], self.arguments_passed[0]),
            None => Seq::empty(),
        }
    }

    /// What a run writes to the output stream. Nothing if the invocation has
    /// no arguments, if validation fails, or if the built-in flags are
    /// switched off; else the help screen if `--help` was passed, followed by
    /// the version line if `--version` was passed.
    pub open spec fn pars_stdout(self) -> Seq<char> {
        if self.arguments_passed.len() == 1 || self.wrong_arguments() || !self.default_arguments {
            Seq::empty()
        } else {
            (if self.passed(help_flag()) {
                self.help_screen()
            } else {
                Seq::empty()
            }) + (if self.passed(version_flag()) {
                version_line(self.help_name, self.help_version)
            } else {
                Seq::empty()
            })
        }
    }
}

} // verus!
