//! The registry as a mathematical value.
//!
//! Every contract of the crate is stated over [`ArgsView`]: strings are
//! sequences of characters, lists are sequences, and the two lookup tables
//! are maps. The functions here say what each operation of the registry
//! means; the executable code is proved against them.

use vstd::prelude::*;
use crate::text::is_marked;

verus! {

/// The built-in flag that asks for the help screen.
pub open spec fn help_flag() -> Seq<char> {
    "--help"@
}

/// The built-in flag that asks for the version line.
pub open spec fn version_flag() -> Seq<char> {
    "--version"@
}

/// The usage line a fresh registry starts with, for a given program path.
pub open spec fn default_usage(program: Seq<char>) -> Seq<char> {
    "Usage: "@ + program + " [OPTION]...\n"@
}

/// The flag list of a fresh registry.
pub open spec fn builtin_flags() -> Seq<Seq<char>> {
    seq![help_flag(), version_flag()]
}

/// The description list of a fresh registry. The list is flat: each flag is
/// directly followed by its description.
pub open spec fn builtin_descriptions() -> Seq<Seq<char>> {
    seq![
        help_flag(),
        "\tdisplay this help and exit"@,
        version_flag(),
        "output version information and exit"@,
    ]
}

/// The token that follows the first occurrence of `token` in the invocation,
/// unless that token is itself a registered flag. Empty when there is no such
/// token, and empty when `token` does not occur at all.
pub open spec fn parameter_after(
    snapshot: Seq<Seq<char>>,
    flags: Seq<Seq<char>>,
    token: Seq<char>,
) -> Seq<char> {
    match snapshot.index_of_first(token) {
        Some(at) => if at + 1 < snapshot.len() && !flags.contains(snapshot[at + 1]) {
            snapshot[at + 1]
        } else {
            Seq::empty()
        },
        None => Seq::empty(),
    }
}

/// The rule every scanned token has to meet. A token written like a flag
/// must be a registered flag; any other token is a parameter and must come
/// directly after a registered flag.
pub open spec fn token_accepted(snapshot: Seq<Seq<char>>, flags: Seq<Seq<char>>, i: int) -> bool {
    if is_marked(snapshot[i]) {
        flags.contains(snapshot[i])
    } else {
        flags.contains(snapshot[i - 1])
    }
}

/// One past the last index that validation looks at. Index 0, the program
/// path, is never looked at; with `last_param_ok` the final token is left out
/// as well.
pub open spec fn scan_end(snapshot: Seq<Seq<char>>, last_param_ok: bool) -> int {
    if last_param_ok {
        snapshot.len() - 1
    } else {
        snapshot.len() as int
    }
}

/// The first index in `from..end` whose token breaks the rule, if any does.
pub open spec fn first_rejected(
    snapshot: Seq<Seq<char>>,
    flags: Seq<Seq<char>>,
    from: int,
    end: int,
) -> Option<int>
    decreases end - from,
{
    if from >= end {
        None
    } else if !token_accepted(snapshot, flags, from) {
        Some(from)
    } else {
        first_rejected(snapshot, flags, from + 1, end)
    }
}

/// What [`first_rejected`] finds: the least index of the range whose token
/// breaks the rule, with every token before it accepted; or nothing, with
/// every token of the range accepted.
pub proof fn lemma_first_rejected(
    snapshot: Seq<Seq<char>>,
    flags: Seq<Seq<char>>,
    from: int,
    end: int,
)
    ensures
        match first_rejected(snapshot, flags, from, end) {
            Some(i) => {
                &&& from <= i < end
                &&& !token_accepted(snapshot, flags, i)
                &&& forall|j: int| from <= j < i ==> token_accepted(snapshot, flags, j)
            },
            None => forall|j: int| from <= j < end ==> token_accepted(snapshot, flags, j),
        },
    decreases end - from,
{
    if from < end && token_accepted(snapshot, flags, from) {
        lemma_first_rejected(snapshot, flags, from + 1, end);
    }
}

/// A flat list of keys and values: `listing` holds, for each key of `keys`
/// in order, the key and then one value.
pub open spec fn paired_with(listing: Seq<Seq<char>>, keys: Seq<Seq<char>>) -> bool {
    &&& listing.len() == 2 * keys.len()
    &&& forall|k: int| 0 <= k < keys.len() ==> listing[2 * k] == #[trigger] keys[k]
}

/// The number of pairs in a flat list. A last element without a successor
/// belongs to no pair.
pub open spec fn pairs(listing: Seq<Seq<char>>) -> int {
    listing.len() as int / 2
}

/// The key of pair `k` of a flat list.
pub open spec fn key_at(listing: Seq<Seq<char>>, k: int) -> Seq<char> {
    listing[2 * k]
}

/// The value of pair `k` of a flat list.
pub open spec fn value_at(listing: Seq<Seq<char>>, k: int) -> Seq<char> {
    listing[2 * k + 1]
}

/// Among the first `n` pairs of `listing`, the last one whose key is `key`.
/// Only the keys, the elements at even indices, are looked at.
pub open spec fn last_pair(listing: Seq<Seq<char>>, key: Seq<char>, n: int) -> Option<int>
    decreases n,
{
    if n <= 0 {
        None
    } else if key_at(listing, n - 1) == key {
        Some(n - 1)
    } else {
        last_pair(listing, key, n - 1)
    }
}

/// Among the pairs `from..end` of `listing`, the first one whose key is
/// `key`. Only the keys, the elements at even indices, are looked at.
pub open spec fn first_pair(
    listing: Seq<Seq<char>>,
    key: Seq<char>,
    from: int,
    end: int,
) -> Option<int>
    decreases end - from,
{
    if from >= end {
        None
    } else if key_at(listing, from) == key {
        Some(from)
    } else {
        first_pair(listing, key, from + 1, end)
    }
}

/// What [`last_pair`] finds: the greatest `k` below `n` such that pair `k`
/// has the key `key`; or nothing, if no pair below `n` has.
pub proof fn lemma_last_pair(listing: Seq<Seq<char>>, key: Seq<char>, n: int)
    ensures
        match last_pair(listing, key, n) {
            Some(k) => {
                &&& 0 <= k < n
                &&& key_at(listing, k) == key
                &&& forall|j: int| k < j < n ==> key_at(listing, j) != key
            },
            None => forall|j: int| 0 <= j < n ==> key_at(listing, j) != key,
        },
    decreases n,
{
    if n > 0 && key_at(listing, n - 1) != key {
        lemma_last_pair(listing, key, n - 1);
    }
}

/// What [`first_pair`] finds: the least `k` in `from..end` such that pair
/// `k` has the key `key`; or nothing, if no pair of the range has.
pub proof fn lemma_first_pair(listing: Seq<Seq<char>>, key: Seq<char>, from: int, end: int)
    ensures
        match first_pair(listing, key, from, end) {
            Some(k) => {
                &&& from <= k < end
                &&& key_at(listing, k) == key
                &&& forall|j: int| from <= j < k ==> key_at(listing, j) != key
            },
            None => forall|j: int| from <= j < end ==> key_at(listing, j) != key,
        },
    decreases end - from,
{
    if from < end && key_at(listing, from) != key {
        lemma_first_pair(listing, key, from + 1, end);
    }
}

/// The description of `flag`: the value of the last pair of the description
/// list whose key is `flag`, so that a later registration of a flag
/// overwrites the description of an earlier one. Nothing, if no pair has
/// `flag` as its key.
pub open spec fn description_of(descriptions: Seq<Seq<char>>, flag: Seq<char>) -> Option<
    Seq<char>,
> {
    match last_pair(descriptions, flag, pairs(descriptions)) {
        Some(k) => Some(value_at(descriptions, k)),
        None => None,
    }
}

/// The body of the section titled `title`: the value of the first pair of
/// the content list whose key is `title`. Nothing, if no pair has `title` as
/// its key.
pub open spec fn body_of(content: Seq<Seq<char>>, title: Seq<char>) -> Option<Seq<char>> {
    match first_pair(content, title, 0, pairs(content)) {
        Some(k) => Some(value_at(content, k)),
        None => None,
    }
}

/// The registry as a mathematical value, field for field.
#[verifier::ext_equal]
pub struct ArgsView {
    /// The invocation: the program path, then the arguments.
    pub arguments_passed: Seq<Seq<char>>,
    /// The registered flags, in the order of registration.
    pub arguments: Seq<Seq<char>>,
    /// Whether the built-in flags are still in force.
    pub default_arguments: bool,
    /// The first line of the help screen.
    pub help_usage: Seq<char>,
    /// The name of the program.
    pub help_name: Seq<char>,
    /// What the program does.
    pub help_description: Seq<char>,
    /// The version of the program.
    pub help_version: Seq<char>,
    /// Flags and descriptions, flat.
    pub arg_desc_vec: Seq<Seq<char>>,
    /// The titles of the help sections, in order.
    pub help_sections: Seq<Seq<char>>,
    /// Titles and bodies of the help sections, flat.
    pub help_sections_content: Seq<Seq<char>>,
    /// For each registered flag, whether it was found in the invocation.
    pub passed_arguments_lookup: Map<Seq<char>, bool>,
    /// For each registered flag, the parameter found for it.
    pub parameters_lookup: Map<Seq<char>, Seq<char>>,
    /// Whether the final token of the invocation is a free operand.
    pub last_param_ok: bool,
}

impl ArgsView {
    /// The lookup tables say nothing of a token that does not occur in the
    /// invocation: its entries, if it has any, are `false` and empty.
    pub open spec fn lookups_quiet(self) -> bool {
        &&& forall|key: Seq<char>| #[trigger]
            self.passed_arguments_lookup.contains_key(key) && !self.passed(key)
                ==> !self.passed_arguments_lookup[key]
        &&& forall|key: Seq<char>| #[trigger]
            self.parameters_lookup.contains_key(key) && !self.passed(key)
                ==> self.parameters_lookup[key] == Seq::<char>::empty()
    }

    /// The lookup tables record the invocation: for every registered flag,
    /// whether it was passed, and the parameter given for it.
    pub open spec fn lookups_current(self) -> bool {
        forall|flag: Seq<char>| #[trigger]
            self.arguments.contains(flag) ==> {
                &&& self.passed_arguments_lookup.contains_key(flag)
                &&& self.passed_arguments_lookup[flag] == self.passed(flag)
                &&& self.parameters_lookup.contains_key(flag)
                &&& self.parameters_lookup[flag] == self.parameter_for(flag)
            }
    }

    /// The invariant of the registry. The invocation names the program; both
    /// flat lists are in step with their keys; the lookup tables hold the
    /// registered flags and nothing else, and say nothing of a flag that was
    /// not passed; and while the built-in flags are in force they head the
    /// flag list.
    pub open spec fn wf(self) -> bool {
        &&& self.arguments_passed.len() >= 1
        &&& paired_with(self.arg_desc_vec, self.arguments)
        &&& paired_with(self.help_sections_content, self.help_sections)
        &&& self.passed_arguments_lookup.dom() =~= self.arguments.to_set()
        &&& self.parameters_lookup.dom() =~= self.arguments.to_set()
        &&& self.lookups_quiet()
        &&& self.default_arguments ==> {
            &&& self.arguments.len() >= 2
            &&& self.arguments[0] == help_flag()
            &&& self.arguments[1] == version_flag()
        }
    }

    /// The registry over `snapshot` with the two built-in flags registered
    /// and their lookup entries reset. A fresh registry is this one with its
    /// lookup tables brought up to date.
    pub open spec fn initial(snapshot: Seq<Seq<char>>) -> ArgsView {
        ArgsView {
            arguments_passed: snapshot,
            arguments: builtin_flags(),
            default_arguments: true,
            help_usage: default_usage(snapshot[0]),
            help_name: "Default name"@,
            help_description: "Default description"@,
            help_version: "Default version"@,
            arg_desc_vec: builtin_descriptions(),
            help_sections: Seq::empty(),
            help_sections_content: Seq::empty(),
            passed_arguments_lookup: map![help_flag() => false, version_flag() => false],
            parameters_lookup: map![help_flag() => Seq::empty(), version_flag() => Seq::empty()],
            last_param_ok: false,
        }
    }

    /// Whether `token` occurs anywhere in the invocation.
    pub open spec fn passed(self, token: Seq<char>) -> bool {
        self.arguments_passed.contains(token)
    }

    /// Whether one of the two built-in flags occurs in the invocation.
    pub open spec fn default_arguments_passed(self) -> bool {
        self.passed(help_flag()) || self.passed(version_flag())
    }

    /// The parameter that the invocation gives for `token`.
    pub open spec fn parameter_for(self, token: Seq<char>) -> Seq<char> {
        parameter_after(self.arguments_passed, self.arguments, token)
    }

    /// One past the last index that validation looks at.
    pub open spec fn scan_end(self) -> int {
        scan_end(self.arguments_passed, self.last_param_ok)
    }

    /// Whether some scanned token breaks the rule.
    pub open spec fn wrong_arguments(self) -> bool {
        exists|i: int|
            1 <= i < self.scan_end() && !token_accepted(self.arguments_passed, self.arguments, i)
    }

    /// The index of the first scanned token that breaks the rule.
    pub open spec fn first_wrong(self) -> Option<int> {
        first_rejected(self.arguments_passed, self.arguments, 1, self.scan_end())
    }

    /// Validation rejects the invocation exactly if it finds a first rejected
    /// token.
    pub proof fn lemma_wrong_iff_first_wrong(self)
        ensures
            self.wrong_arguments() <==> self.first_wrong() is Some,
    {
        lemma_first_rejected(self.arguments_passed, self.arguments, 1, self.scan_end());
    }

    /// Whether `key` is a registered flag that occurs in the invocation.
    pub open spec fn passed_flag(self, key: Seq<char>) -> bool {
        self.arguments.contains(key) && self.passed(key)
    }

    /// The registry with both lookup tables brought up to date: a registered
    /// flag that occurs in the invocation is marked as passed and gets its
    /// parameter; every other entry stays as it is.
    pub open spec fn synced(self) -> ArgsView {
        ArgsView {
            passed_arguments_lookup: Map::new(
                |key: Seq<char>| self.passed_flag(key) || self.passed_arguments_lookup.contains_key(key),
                |key: Seq<char>|
                    if self.passed_flag(key) {
                        true
                    } else {
                        self.passed_arguments_lookup[key]
                    },
            ),
            parameters_lookup: Map::new(
                |key: Seq<char>| self.passed_flag(key) || self.parameters_lookup.contains_key(key),
                |key: Seq<char>|
                    if self.passed_flag(key) {
                        self.parameter_for(key)
                    } else {
                        self.parameters_lookup[key]
                    },
            ),
            ..self
        }
    }

    /// The registry with `token` appended to the flag list, `token` and
    /// `description` appended to the description list, and the lookup entries
    /// of `token` reset. The flag is appended even if it is registered already.
    pub open spec fn appended(self, token: Seq<char>, description: Seq<char>) -> ArgsView {
        ArgsView {
            arguments: self.arguments.push(token),
            arg_desc_vec: self.arg_desc_vec.push(token).push(description),
            passed_arguments_lookup: self.passed_arguments_lookup.insert(token, false),
            parameters_lookup: self.parameters_lookup.insert(token, Seq::empty()),
            ..self
        }
    }

    /// The registry after `token` was registered with `description`: the
    /// flag is appended, then both lookup tables are brought up to date.
    pub open spec fn with_argument(self, token: Seq<char>, description: Seq<char>) -> ArgsView {
        self.appended(token, description).synced()
    }

    /// The registry after the built-in flags were switched off: the first two
    /// flags and the first four description entries are gone, and so are the
    /// lookup entries of the two built-in flags.
    pub open spec fn without_defaults(self) -> ArgsView {
        ArgsView {
            arguments: self.arguments.skip(2),
            arg_desc_vec: self.arg_desc_vec.skip(4),
            passed_arguments_lookup: self.passed_arguments_lookup.remove(help_flag()).remove(
                version_flag(),
            ),
            parameters_lookup: self.parameters_lookup.remove(help_flag()).remove(version_flag()),
            default_arguments: false,
            ..self
        }
    }

    /// The registry after a help section was added.
    pub open spec fn with_help_section(self, title: Seq<char>, body: Seq<char>) -> ArgsView {
        ArgsView {
            help_sections: self.help_sections.push(title),
            help_sections_content: self.help_sections_content.push(title).push(body),
            ..self
        }
    }
}

} // verus!
