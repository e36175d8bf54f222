//! What holds of the registry as a whole, proved over its model: its
//! invariant is kept, and validation, registration and the queries fit
//! together.

use vstd::prelude::*;
use crate::model::{
    body_of, description_of, first_pair, first_rejected, help_flag, key_at, last_pair,
    lemma_first_pair, lemma_first_rejected, lemma_last_pair, paired_with, pairs, token_accepted,
    value_at, version_flag, ArgsView,
};
use crate::screen::error_text;
use crate::text::is_marked;

verus! {

impl ArgsView {
    /// The registry with only the built-in flags, their entries reset, is
    /// well-formed.
    pub proof fn lemma_initial_wf(snapshot: Seq<Seq<char>>)
        requires
            snapshot.len() >= 1,
        ensures
            ArgsView::initial(snapshot).wf(),
    {
    }

    /// A fresh registry is well-formed, and its lookup tables record the
    /// invocation.
    pub proof fn lemma_fresh_registry(snapshot: Seq<Seq<char>>)
        requires
            snapshot.len() >= 1,
        ensures
            ArgsView::initial(snapshot).synced().wf(),
            ArgsView::initial(snapshot).synced().lookups_current(),
    {
        ArgsView::lemma_initial_wf(snapshot);
        ArgsView::initial(snapshot).lemma_synced_wf();
        ArgsView::initial(snapshot).lemma_synced_current();
    }

    /// Appending a flag keeps a registry well-formed.
    pub proof fn lemma_appended_wf(self, token: Seq<char>, description: Seq<char>)
        requires
            self.wf(),
        ensures
            self.appended(token, description).wf(),
    {
        broadcast use vstd::seq_lib::lemma_seq_contains_after_push;

    }

    /// Bringing the lookup tables up to date keeps a registry well-formed.
    pub proof fn lemma_synced_wf(self)
        requires
            self.wf(),
        ensures
            self.synced().wf(),
    {
    }

    /// Registering a flag keeps a registry well-formed.
    pub proof fn lemma_with_argument_wf(self, token: Seq<char>, description: Seq<char>)
        requires
            self.wf(),
        ensures
            self.with_argument(token, description).wf(),
    {
        self.lemma_appended_wf(token, description);
        self.appended(token, description).lemma_synced_wf();
    }

    /// Adding a help section keeps a registry well-formed.
    pub proof fn lemma_with_help_section_wf(self, title: Seq<char>, body: Seq<char>)
        requires
            self.wf(),
        ensures
            self.with_help_section(title, body).wf(),
    {
    }

    /// Switching the built-in flags off, while they are in force, keeps a
    /// registry well-formed exactly if neither of them is among the flags
    /// that remain, that is, if neither was registered a second time.
    pub proof fn lemma_without_defaults_wf(self)
        requires
            self.wf(),
            self.default_arguments,
        ensures
            self.without_defaults().wf() <==> !self.without_defaults().arguments.contains(
                help_flag(),
            ) && !self.without_defaults().arguments.contains(version_flag()),
    {
        broadcast use vstd::seq_lib::lemma_seq_skip_contains;

        let rest = self.without_defaults();
        // The pairs that remain are those from the third on.
        assert forall|k: int| 0 <= k < rest.arguments.len() implies rest.arg_desc_vec[2 * k]
            == #[trigger] rest.arguments[k] by {
            assert(self.arg_desc_vec[2 * (k + 2)] == self.arguments[k + 2]);
        }
        if rest.arguments.contains(help_flag()) {
            // A built-in flag that remains has lost its lookup entries.
            assert(!rest.passed_arguments_lookup.dom().contains(help_flag()));
        } else if rest.arguments.contains(version_flag()) {
            assert(!rest.passed_arguments_lookup.dom().contains(version_flag()));
        } else {
            // Every other flag keeps its entries, and nothing else has any.
            assert forall|key: Seq<char>|
                rest.arguments.contains(key) <==> (self.arguments.contains(key) && key
                    != help_flag() && key != version_flag()) by {
                if self.arguments.contains(key) && key != help_flag() && key != version_flag() {
                    let k = choose|k: int| 0 <= k < self.arguments.len() && self.arguments[k] == key;
                    assert(rest.arguments[k - 2] == key);
                }
            }
        }
    }

    /// No operation changes the invocation, nor whether the final token is
    /// left out of validation.
    pub proof fn lemma_invocation_kept(
        self,
        token: Seq<char>,
        description: Seq<char>,
        title: Seq<char>,
        body: Seq<char>,
    )
        ensures
            self.with_argument(token, description).arguments_passed == self.arguments_passed,
            self.with_argument(token, description).last_param_ok == self.last_param_ok,
            self.synced().arguments_passed == self.arguments_passed,
            self.synced().last_param_ok == self.last_param_ok,
            self.without_defaults().arguments_passed == self.arguments_passed,
            self.without_defaults().last_param_ok == self.last_param_ok,
            self.with_help_section(title, body).arguments_passed == self.arguments_passed,
            self.with_help_section(title, body).last_param_ok == self.last_param_ok,
    {
    }

    /// Once the lookup tables of a well-formed registry are brought up to
    /// date, they record the invocation.
    pub proof fn lemma_synced_current(self)
        requires
            self.wf(),
        ensures
            self.synced().lookups_current(),
    {
        let synced = self.synced();
        assert forall|flag: Seq<char>| #[trigger] synced.arguments.contains(flag) implies {
            &&& synced.passed_arguments_lookup.contains_key(flag)
            &&& synced.passed_arguments_lookup[flag] == synced.passed(flag)
            &&& synced.parameters_lookup.contains_key(flag)
            &&& synced.parameters_lookup[flag] == synced.parameter_for(flag)
        } by {
            assert(self.arguments.to_set().contains(flag));
            if !self.passed(flag) {
                // A flag that was not passed has quiet entries and no parameter.
                self.arguments_passed.index_of_first_ensures(flag);
            }
        }
    }

    /// After a flag was registered in a well-formed registry, the lookup
    /// tables record the invocation.
    pub proof fn lemma_with_argument_current(self, token: Seq<char>, description: Seq<char>)
        requires
            self.wf(),
        ensures
            self.with_argument(token, description).lookups_current(),
    {
        self.lemma_appended_wf(token, description);
        self.appended(token, description).lemma_synced_current();
    }

    /// Switching the built-in flags off removes entries and writes none. So
    /// if the registry stays well-formed, tables that record the invocation
    /// still do, as long as no flag that remains has another parameter once
    /// the two built-in flags are no longer registered.
    pub proof fn lemma_without_defaults_current(self)
        requires
            self.wf(),
            self.default_arguments,
            self.lookups_current(),
            self.without_defaults().wf(),
            forall|flag: Seq<char>| #[trigger]
                self.without_defaults().arguments.contains(flag)
                    ==> self.without_defaults().parameter_for(flag) == self.parameter_for(flag),
        ensures
            self.without_defaults().lookups_current(),
    {
        broadcast use vstd::seq_lib::lemma_seq_skip_contains;

        let rest = self.without_defaults();
        self.lemma_without_defaults_wf();
        assert forall|flag: Seq<char>| #[trigger] rest.arguments.contains(flag) implies {
            &&& rest.passed_arguments_lookup.contains_key(flag)
            &&& rest.passed_arguments_lookup[flag] == rest.passed(flag)
            &&& rest.parameters_lookup.contains_key(flag)
            &&& rest.parameters_lookup[flag] == rest.parameter_for(flag)
        } by {
            assert(self.arguments.contains(flag));
            assert(flag != help_flag() && flag != version_flag());
        }
    }

    /// Adding a help section leaves the lookup tables as current as they were.
    pub proof fn lemma_with_help_section_current(self, title: Seq<char>, body: Seq<char>)
        requires
            self.lookups_current(),
        ensures
            self.with_help_section(title, body).lookups_current(),
    {
        let added = self.with_help_section(title, body);
        assert forall|flag: Seq<char>| #[trigger] added.arguments.contains(flag) implies {
            &&& added.passed_arguments_lookup.contains_key(flag)
            &&& added.passed_arguments_lookup[flag] == added.passed(flag)
            &&& added.parameters_lookup.contains_key(flag)
            &&& added.parameters_lookup[flag] == added.parameter_for(flag)
        } by {
            assert(self.arguments.contains(flag));
        }
    }

    /// In a well-formed registry every flag has a description and every
    /// section a body.
    pub proof fn lemma_every_entry_found(self, k: int)
        requires
            self.wf(),
        ensures
            0 <= k < self.arguments.len() ==> description_of(
                self.arg_desc_vec,
                self.arguments[k],
            ) is Some,
            0 <= k < self.help_sections.len() ==> body_of(
                self.help_sections_content,
                self.help_sections[k],
            ) is Some,
    {
        if 0 <= k < self.arguments.len() {
            assert(key_at(self.arg_desc_vec, k) == self.arguments[k]);
            lemma_last_pair(self.arg_desc_vec, self.arguments[k], pairs(self.arg_desc_vec));
        }
        if 0 <= k < self.help_sections.len() {
            assert(key_at(self.help_sections_content, k) == self.help_sections[k]);
            lemma_first_pair(
                self.help_sections_content,
                self.help_sections[k],
                0,
                pairs(self.help_sections_content),
            );
        }
    }

    /// In a well-formed registry a flag that is registered once has the
    /// description it was registered with.
    pub proof fn lemma_single_flag_described(self, k: int)
        requires
            self.wf(),
            0 <= k < self.arguments.len(),
            forall|j: int|
                0 <= j < self.arguments.len() && j != k ==> self.arguments[j] != self.arguments[k],
        ensures
            description_of(self.arg_desc_vec, self.arguments[k]) == Some(
                value_at(self.arg_desc_vec, k),
            ),
    {
        let flag = self.arguments[k];
        assert(key_at(self.arg_desc_vec, k) == flag);
        lemma_last_pair(self.arg_desc_vec, flag, pairs(self.arg_desc_vec));
        let found = last_pair(self.arg_desc_vec, flag, pairs(self.arg_desc_vec)).unwrap();
        assert(key_at(self.arg_desc_vec, found) == self.arguments[found]);
    }

    /// A registration overwrites the description: in a registry whose
    /// description list is in step with its flags, the flag just registered
    /// has the description just given, whatever it was registered with
    /// before, and every other flag keeps the description it had.
    pub proof fn lemma_registration_overwrites(
        self,
        token: Seq<char>,
        description: Seq<char>,
        other: Seq<char>,
    )
        requires
            paired_with(self.arg_desc_vec, self.arguments),
        ensures
            description_of(self.with_argument(token, description).arg_desc_vec, token) == Some(
                description,
            ),
            other != token ==> description_of(
                self.with_argument(token, description).arg_desc_vec,
                other,
            ) == description_of(self.arg_desc_vec, other),
    {
        let before = self.arg_desc_vec;
        let after = self.with_argument(token, description).arg_desc_vec;
        let n = pairs(before);
        assert(after =~= before.push(token).push(description));
        assert(pairs(after) == n + 1);
        assert(key_at(after, n) == token);
        assert(value_at(after, n) == description);
        if other != token {
            lemma_same_pairs(before, after, other, n);
            lemma_last_pair(before, other, n);
            if last_pair(before, other, n) is Some {
                let found = last_pair(before, other, n).unwrap();
                assert(value_at(after, found) == value_at(before, found));
            }
        }
    }

    /// Of two sections with one title the first gives the body: adding a
    /// section leaves every section that has a body with the body it has,
    /// and gives a title that had none the body just added.
    pub proof fn lemma_first_section_gives_body(
        self,
        title: Seq<char>,
        body: Seq<char>,
        other: Seq<char>,
    )
        requires
            paired_with(self.help_sections_content, self.help_sections),
        ensures
            body_of(self.help_sections_content, other) is Some ==> body_of(
                self.with_help_section(title, body).help_sections_content,
                other,
            ) == body_of(self.help_sections_content, other),
            body_of(self.help_sections_content, title) is None ==> body_of(
                self.with_help_section(title, body).help_sections_content,
                title,
            ) == Some(body),
    {
        let before = self.help_sections_content;
        let after = self.with_help_section(title, body).help_sections_content;
        let n = pairs(before);
        assert(pairs(after) == n + 1);
        assert(key_at(after, n) == title);
        assert(value_at(after, n) == body);
        assert forall|j: int| 0 <= j < n implies #[trigger] key_at(after, j) == key_at(before, j)
            && value_at(after, j) == value_at(before, j) by {}
        lemma_first_pair(before, other, 0, n);
        lemma_first_pair(after, other, 0, n + 1);
        if body_of(before, other) is Some {
            let found = first_pair(before, other, 0, n).unwrap();
            assert(key_at(after, found) == other);
        }
        lemma_first_pair(before, title, 0, n);
        lemma_first_pair(after, title, 0, n + 1);
        if body_of(before, title) is None {
            let found = first_pair(after, title, 0, n + 1).unwrap();
            if found < n {
                assert(key_at(after, found) == key_at(before, found));
            }
        }
    }
}

/// Two flat lists that agree on their first `n` pairs have the same last
/// pair for `key` among them.
proof fn lemma_same_pairs(a: Seq<Seq<char>>, b: Seq<Seq<char>>, key: Seq<char>, n: int)
    requires
        0 <= 2 * n <= a.len(),
        2 * n <= b.len(),
        forall|i: int| 0 <= i < 2 * n ==> a[i] == b[i],
    ensures
        last_pair(a, key, n) == last_pair(b, key, n),
    decreases n,
{
    if n > 0 {
        assert(key_at(a, n - 1) == key_at(b, n - 1));
        lemma_same_pairs(a, b, key, n - 1);
    }
}

/// A token that may stand at index `i` of an invocation: a registered flag,
/// written like a flag; or a parameter, a token not written like a flag that
/// directly follows a registered flag.
pub open spec fn legal_token(snapshot: Seq<Seq<char>>, flags: Seq<Seq<char>>, i: int) -> bool {
    ||| is_marked(snapshot[i]) && flags.contains(snapshot[i])
    ||| !is_marked(snapshot[i]) && flags.contains(snapshot[i - 1])
}

/// An invocation made up of registered flags and their parameters is
/// accepted: validation finds nothing wrong, and a run ends with code 0 and
/// writes nothing to the error stream.
pub proof fn lemma_legal_invocation_accepted(registry: ArgsView)
    requires
        forall|i: int|
            1 <= i < registry.arguments_passed.len() ==> legal_token(
                registry.arguments_passed,
                registry.arguments,
                i,
            ),
    ensures
        !registry.wrong_arguments(),
        registry.first_wrong() is None,
        registry.exit_code() == 0,
        registry.pars_stderr() == Seq::<char>::empty(),
{
    assert forall|i: int| 1 <= i < registry.scan_end() implies token_accepted(
        registry.arguments_passed,
        registry.arguments,
        i,
    ) by {
        assert(legal_token(registry.arguments_passed, registry.arguments, i));
    }
    registry.lemma_wrong_iff_first_wrong();
}

/// An invocation in which a scanned token is written like a flag without
/// being registered is rejected: a run ends with code 1, writes nothing to
/// the output stream, and reports a token at or before that one.
pub proof fn lemma_unknown_flag_rejected(registry: ArgsView, at: int)
    requires
        1 <= at < registry.scan_end(),
        is_marked(registry.arguments_passed[at]),
        !registry.arguments.contains(registry.arguments_passed[at]),
    ensures
        registry.wrong_arguments(),
        registry.exit_code() == 1,
        registry.pars_stdout() == Seq::<char>::empty(),
        registry.first_wrong() matches Some(first) && 1 <= first <= at,
{
    assert(!token_accepted(registry.arguments_passed, registry.arguments, at));
    lemma_first_rejected(registry.arguments_passed, registry.arguments, 1, registry.scan_end());
}

/// If the token at `at` is the only one written like a flag without being
/// registered, and every parameter before it follows a registered flag, the
/// diagnostics name that token.
pub proof fn lemma_single_unknown_flag_named(registry: ArgsView, at: int)
    requires
        1 <= at < registry.scan_end(),
        is_marked(registry.arguments_passed[at]),
        !registry.arguments.contains(registry.arguments_passed[at]),
        forall|i: int|
            1 <= i < registry.arguments_passed.len() && i != at && is_marked(
                registry.arguments_passed[i],
            ) ==> registry.arguments.contains(registry.arguments_passed[i]),
        forall|i: int|
            1 <= i < at && !is_marked(registry.arguments_passed[i])
                ==> registry.arguments.contains(registry.arguments_passed[i - 1]),
    ensures
        registry.first_wrong() == Some(at),
        registry.pars_stderr() == error_text(
            registry.arguments_passed[at],
            registry.arguments_passed[0],
        ),
{
    let snapshot = registry.arguments_passed;
    let flags = registry.arguments;
    lemma_unknown_flag_rejected(registry, at);
    lemma_first_rejected(snapshot, flags, 1, registry.scan_end());
    let first = first_rejected(snapshot, flags, 1, registry.scan_end()).unwrap();
    if first < at {
        // Every token before `at` is accepted, so none of them is the first
        // to be rejected.
        assert(token_accepted(snapshot, flags, first));
    }
}

/// Registering a token a second time changes no answer: whether a token was
/// passed, the parameter found for a token, and both lookup tables are as
/// after the first registration. Only the flag list and the description list
/// grow, by a duplicate flag and by the flag with its second description.
pub proof fn lemma_add_argument_twice(
    registry: ArgsView,
    token: Seq<char>,
    first: Seq<char>,
    second: Seq<char>,
    query: Seq<char>,
)
    ensures
        ({
            let once = registry.with_argument(token, first);
            let twice = once.with_argument(token, second);
            &&& twice.passed(query) == once.passed(query)
            &&& twice.parameter_for(query) == once.parameter_for(query)
            &&& twice.passed_arguments_lookup == once.passed_arguments_lookup
            &&& twice.parameters_lookup == once.parameters_lookup
            &&& twice.arguments == once.arguments.push(token)
            &&& twice.arg_desc_vec == once.arg_desc_vec.push(token).push(second)
        }),
{
    broadcast use vstd::seq_lib::lemma_seq_contains_after_push;

    // The second registration adds no new member to the flag list, so every
    // parameter stays what it was.
    let once = registry.with_argument(token, first);
    let twice = once.with_argument(token, second);
    assert forall|key: Seq<char>| twice.parameter_for(key) == once.parameter_for(key) by {}
}

/// A flag that was registered and occurs in the invocation is found again:
/// it counts as passed, its parameter is the token after its first
/// occurrence, or empty if that token is a registered flag or there is none,
/// and both lookup tables say the same. `at` is the index of the first
/// occurrence.
pub proof fn lemma_added_flag_round_trip(
    registry: ArgsView,
    token: Seq<char>,
    description: Seq<char>,
    at: int,
)
    requires
        0 <= at < registry.arguments_passed.len(),
        registry.arguments_passed[at] == token,
        forall|i: int| 0 <= i < at ==> registry.arguments_passed[i] != token,
    ensures
        ({
            let added = registry.with_argument(token, description);
            let parameter = if at + 1 < added.arguments_passed.len() && !added.arguments.contains(
                added.arguments_passed[at + 1],
            ) {
                added.arguments_passed[at + 1]
            } else {
                Seq::empty()
            };
            &&& added.passed(token)
            &&& added.parameter_for(token) == parameter
            &&& added.passed_arguments_lookup.contains_key(token)
            &&& added.passed_arguments_lookup[token]
            &&& added.parameters_lookup.contains_key(token)
            &&& added.parameters_lookup[token] == parameter
        }),
{
    broadcast use vstd::seq_lib::lemma_seq_contains_after_push;

    // The search for the token stops at `at`, its first occurrence.
    let snapshot = registry.arguments_passed;
    assert(snapshot.contains(token));
    snapshot.index_of_first_ensures(token);
    assert(snapshot.index_of_first(token) == Some(at));
}

} // verus!
