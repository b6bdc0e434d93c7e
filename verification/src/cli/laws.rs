use crate::cli::completion::{
    argument_cands, command_cands, complete_spec, normalized, option_cands, value_cands, CandidateModel, CompletionKind,
    RequestModel,
};
use crate::cli::help::{command_rows, option_rows, option_usage};
use crate::cli::parser::{find_command, find_long, find_short, finish, has_terminal, run, visible_options, ParsedModel, PState};
use crate::cli::raw::{raw_ok, word_ok, ArgLimits};
use crate::cli::spec::{CliSpec, CommandSpec, OptionSpec};
use crate::cli::suggestion::{best_among, closer, closest_spec, eligible, MAX_SUGGESTION_BYTES};
use crate::cli::validation::spec_ok;
use crate::text::{first_index, has_char, lemma_first_index_props};
use vstd::prelude::*;

verus! {

/// The word under the cursor once a leading binary name is dropped; empty past the last word.
pub open spec fn typed_word(s: CliSpec, req: RequestModel) -> Seq<char> {
    let (words, cursor) = normalized(s, req);
    if cursor < words.len() { words[cursor] } else { seq![] }
}

proof fn lemma_value_cands_extend(values: Seq<Seq<char>>, prefix: Seq<char>, long: Option<Seq<char>>)
    ensures
        forall|k: int| 0 <= k < value_cands(values, prefix, long).len() ==> exists|t: int|
            0 <= t < values.len() && prefix.is_prefix_of(values[t]) && (#[trigger] value_cands(values, prefix, long)[k]).value
                == match long {
                Some(n) => "--"@ + n + "="@ + values[t],
                None => values[t],
            },
    decreases values.len(),
{
    if values.len() > 0 {
        let d = values.drop_last();
        lemma_value_cands_extend(d, prefix, long);
        let r = value_cands(values, prefix, long);
        let rest = value_cands(d, prefix, long);
        assert forall|k: int| 0 <= k < r.len() implies exists|t: int|
            0 <= t < values.len() && prefix.is_prefix_of(values[t]) && (#[trigger] r[k]).value == match long {
                Some(n) => "--"@ + n + "="@ + values[t],
                None => values[t],
            } by {
            if k < rest.len() {
                assert(r[k] == rest[k]);
                let t = choose|t: int|
                    0 <= t < d.len() && prefix.is_prefix_of(d[t]) && (#[trigger] rest[k]).value == match long {
                        Some(n) => "--"@ + n + "="@ + d[t],
                        None => d[t],
                    };
                assert(d[t] == values[t]);
            } else {
                assert(values[values.len() - 1] == values.last());
            }
        }
    }
}

proof fn lemma_join_extends(a: Seq<CandidateModel>, b: Seq<CandidateModel>, prefix: Seq<char>)
    requires
        forall|k: int| 0 <= k < a.len() ==> prefix.is_prefix_of(#[trigger] a[k].value),
        forall|k: int| 0 <= k < b.len() ==> prefix.is_prefix_of(#[trigger] b[k].value),
    ensures
        forall|k: int| 0 <= k < (a + b).len() ==> prefix.is_prefix_of(#[trigger] (a + b)[k].value),
{
    assert forall|k: int| 0 <= k < (a + b).len() implies prefix.is_prefix_of(#[trigger] (a + b)[k].value) by {
        if k < a.len() {
            assert((a + b)[k] == a[k]);
        } else {
            assert((a + b)[k] == b[k - a.len()]);
        }
    }
}

proof fn lemma_plain_values_extend(values: Seq<Seq<char>>, prefix: Seq<char>)
    ensures
        forall|k: int| 0 <= k < value_cands(values, prefix, None).len() ==> prefix.is_prefix_of(
            #[trigger] value_cands(values, prefix, None)[k].value,
        ),
{
    lemma_value_cands_extend(values, prefix, None);
}

/// Every completion candidate extends the word under the cursor, once a leading binary name is
/// dropped: an option's `--name=` prefix is kept in front of each of its values.
pub proof fn completions_extend_the_typed_word(s: CliSpec, req: RequestModel)
    ensures
        forall|k: int| 0 <= k < complete_spec(s, req).len() ==> typed_word(s, req).is_prefix_of(
            #[trigger] complete_spec(s, req)[k].value,
        ),
{
    let prefix = typed_word(s, req);
    let r = complete_spec(s, req);
    let (words, cursor) = normalized(s, req);
    let before = words.take(if cursor < words.len() { cursor } else { words.len() as int });
    let c = crate::cli::completion::analyze_from(s, crate::cli::completion::empty_context(), before, 0);
    let vis = visible_options(s, c.commands);
    if !spec_ok(s) || c.passthrough {
    } else if prefix.len() >= 2 && prefix[0] == '-' && prefix[1] == '-' && first_index(prefix.skip(2), '=') is Some {
        let raw = prefix.skip(2);
        let k = first_index(raw, '=').unwrap();
        lemma_first_index_props(raw, '=');
        match crate::cli::parser::find_long(vis, raw.take(k)) {
            Some(o) => {
                let n = raw.take(k);
                let vp = raw.skip(k + 1);
                lemma_value_cands_extend(o@.possible_values, vp, Some(n));
                reveal_strlit("--");
                reveal_strlit("=");
                assert(prefix =~= "--"@ + n + "="@ + vp);
                assert forall|j: int| 0 <= j < r.len() implies prefix.is_prefix_of(#[trigger] r[j].value) by {
                    let vals = o@.possible_values;
                    let t = choose|t: int|
                        0 <= t < vals.len() && vp.is_prefix_of(vals[t]) && (#[trigger] value_cands(vals, vp, Some(n))[j]).value
                            == "--"@ + n + "="@ + vals[t];
                    let full = "--"@ + n + "="@ + vals[t];
                    assert(full.len() == prefix.len() - vp.len() + vals[t].len());
                    assert forall|q: int| 0 <= q < prefix.len() implies prefix[q] == full[q] by {
                        if q >= prefix.len() - vp.len() {
                            assert(vals[t][q - (prefix.len() - vp.len())] == vp[q - (prefix.len() - vp.len())]);
                        }
                    }
                }
            },
            None => {},
        }
    } else if c.pending is Some {
        lemma_plain_values_extend(c.pending.unwrap()@.possible_values, prefix);
    } else {
        let args = argument_cands(s, c, prefix);
        if crate::cli::completion::ctx_next_argument(s, c) is Some {
            lemma_plain_values_extend(crate::cli::completion::ctx_next_argument(s, c).unwrap()@.possible_values, prefix);
        }
        if prefix.len() > 0 && prefix[0] == '-' {
            option_candidates_are_offerable_and_match(vis, c.used, prefix);
            lemma_join_extends(option_cands(vis, c.used, prefix), args, prefix);
        } else {
            let cmds = crate::cli::completion::ctx_available(s, c);
            command_candidates_are_visible_and_match(cmds, prefix);
            let first = if c.positionals > 0 { Seq::<CandidateModel>::empty() } else { command_cands(cmds, prefix) };
            lemma_join_extends(first, args, prefix);
        }
    }
}

/// What the words before the cursor establish, once a leading binary name is dropped.
pub open spec fn context_before(s: CliSpec, req: RequestModel) -> crate::cli::completion::ContextModel {
    let (words, cursor) = normalized(s, req);
    let before = words.take(if cursor < words.len() { cursor } else { words.len() as int });
    crate::cli::completion::analyze_from(s, crate::cli::completion::empty_context(), before, 0)
}

proof fn lemma_value_cands_kind(values: Seq<Seq<char>>, prefix: Seq<char>, long: Option<Seq<char>>)
    ensures
        forall|k: int| 0 <= k < value_cands(values, prefix, long).len() ==> (#[trigger] value_cands(values, prefix, long)[k]).kind
            == CompletionKind::Value,
    decreases values.len(),
{
    if values.len() > 0 {
        lemma_value_cands_kind(values.drop_last(), prefix, long);
        let r = value_cands(values, prefix, long);
        let rest = value_cands(values.drop_last(), prefix, long);
        assert forall|k: int| 0 <= k < r.len() implies (#[trigger] r[k]).kind == CompletionKind::Value by {
            if k < rest.len() {
                assert(r[k] == rest[k]);
            }
        }
    }
}

proof fn lemma_command_cands_kind(cmds: Seq<CommandSpec>, prefix: Seq<char>)
    ensures
        forall|k: int| 0 <= k < command_cands(cmds, prefix).len() ==> (#[trigger] command_cands(cmds, prefix)[k]).kind
            == CompletionKind::Command,
    decreases cmds.len(),
{
    if cmds.len() > 0 {
        lemma_command_cands_kind(cmds.drop_last(), prefix);
        let r = command_cands(cmds, prefix);
        let rest = command_cands(cmds.drop_last(), prefix);
        assert forall|k: int| 0 <= k < r.len() implies (#[trigger] r[k]).kind == CompletionKind::Command by {
            if k < rest.len() {
                assert(r[k] == rest[k]);
            }
        }
    }
}

proof fn lemma_option_cands_kind(vis: Seq<OptionSpec>, used: Seq<Seq<char>>, prefix: Seq<char>)
    ensures
        forall|k: int| 0 <= k < option_cands(vis, used, prefix).len() ==> (#[trigger] option_cands(vis, used, prefix)[k]).kind
            == CompletionKind::Option,
    decreases vis.len(),
{
    if vis.len() > 0 {
        lemma_option_cands_kind(vis.drop_last(), used, prefix);
        let r = option_cands(vis, used, prefix);
        let rest = option_cands(vis.drop_last(), used, prefix);
        assert forall|k: int| 0 <= k < r.len() implies (#[trigger] r[k]).kind == CompletionKind::Option by {
            if k < rest.len() {
                assert(r[k] == rest[k]);
            } else if k == rest.len() {
            }
        }
    }
}

/// A candidate offers nothing closed in context `c`: a command candidate names a command that is
/// not hidden among those that may be entered next; an option candidate spells an option that is
/// visible there, not hidden, and not a non-repeatable option already used.
pub open spec fn offers_open(s: CliSpec, c: crate::cli::completion::ContextModel, x: CandidateModel) -> bool {
    let cmds = crate::cli::completion::ctx_available(s, c);
    let vis = visible_options(s, c.commands);
    &&& x.kind == CompletionKind::Command ==> exists|t: int| 0 <= t < cmds.len() && !cmds[t]@.hidden && cmds[t]@.name == x.value
    &&& x.kind == CompletionKind::Option ==> exists|t: int| 0 <= t < vis.len() && offerable(vis[t], c.used) && spells(vis[t], x.value)
}

/// No completion candidate offers a hidden command or option, or a non-repeatable option
/// already used before the cursor.
pub proof fn completions_offer_no_hidden_or_spent_option(s: CliSpec, req: RequestModel)
    ensures
        forall|k: int| 0 <= k < complete_spec(s, req).len() ==> offers_open(s, context_before(s, req), #[trigger] complete_spec(s, req)[k]),
{
    let r = complete_spec(s, req);
    let prefix = typed_word(s, req);
    let c = context_before(s, req);
    let vis = visible_options(s, c.commands);
    let cmds = crate::cli::completion::ctx_available(s, c);
    if !spec_ok(s) || c.passthrough {
    } else if prefix.len() >= 2 && prefix[0] == '-' && prefix[1] == '-' && first_index(prefix.skip(2), '=') is Some {
        let raw = prefix.skip(2);
        let k = first_index(raw, '=').unwrap();
        match crate::cli::parser::find_long(vis, raw.take(k)) {
            Some(o) => {
                lemma_value_cands_kind(o@.possible_values, raw.skip(k + 1), Some(raw.take(k)));
                assert forall|j: int| 0 <= j < r.len() implies offers_open(s, c, #[trigger] r[j]) by {
                    assert(r[j].kind == CompletionKind::Value);
                }
            },
            None => {},
        }
    } else if c.pending is Some {
        lemma_value_cands_kind(c.pending.unwrap()@.possible_values, prefix, None);
        assert forall|j: int| 0 <= j < r.len() implies offers_open(s, c, #[trigger] r[j]) by {
            assert(r[j].kind == CompletionKind::Value);
        }
    } else {
        let args = argument_cands(s, c, prefix);
        if crate::cli::completion::ctx_next_argument(s, c) is Some {
            lemma_value_cands_kind(crate::cli::completion::ctx_next_argument(s, c).unwrap()@.possible_values, prefix, None);
        }
        assert forall|j: int| 0 <= j < args.len() implies (#[trigger] args[j]).kind == CompletionKind::Value by {
        }
        if prefix.len() > 0 && prefix[0] == '-' {
            let a = option_cands(vis, c.used, prefix);
            option_candidates_are_offerable_and_match(vis, c.used, prefix);
            lemma_option_cands_kind(vis, c.used, prefix);
            assert forall|j: int| 0 <= j < r.len() implies offers_open(s, c, #[trigger] r[j]) by {
                if j < a.len() {
                    assert(r[j] == a[j]);
                    assert(a[j].kind == CompletionKind::Option);
                    assert(prefix.is_prefix_of(a[j].value));
                } else {
                    assert(r[j] == args[j - a.len()]);
                    assert(args[j - a.len()].kind == CompletionKind::Value);
                }
            }
        } else {
            let first = if c.positionals > 0 { Seq::<CandidateModel>::empty() } else { command_cands(cmds, prefix) };
            command_candidates_are_visible_and_match(cmds, prefix);
            lemma_command_cands_kind(cmds, prefix);
            assert forall|j: int| 0 <= j < r.len() implies offers_open(s, c, #[trigger] r[j]) by {
                if j < first.len() {
                    assert(r[j] == first[j]);
                    assert(first[j].kind == CompletionKind::Command);
                    assert(prefix.is_prefix_of(first[j].value));
                } else {
                    assert(r[j] == args[j - first.len()]);
                    assert(args[j - first.len()].kind == CompletionKind::Value);
                }
            }
        }
    }
}

/// `word` is the name or one of the aliases of `c`.
pub open spec fn names_command(c: CommandSpec, word: Seq<char>) -> bool {
    c@.name == word || c@.aliases.contains(word)
}

/// A word selects a command exactly when it is the name or one of the aliases of some command
/// on offer, and then it selects the first such command.
pub proof fn command_selected_by_name_or_alias(cmds: Seq<CommandSpec>, word: Seq<char>)
    ensures
        find_command(cmds, word) is Some <==> exists|t: int| 0 <= t < cmds.len() && names_command(#[trigger] cmds[t], word),
        find_command(cmds, word) matches Some(c) ==> exists|t: int|
            0 <= t < cmds.len() && cmds[t] == c && names_command(c, word) && forall|u: int|
                0 <= u < t ==> !names_command(#[trigger] cmds[u], word),
    decreases cmds.len(),
{
    if cmds.len() > 0 {
        let rest = cmds.drop_first();
        command_selected_by_name_or_alias(rest, word);
        if names_command(cmds[0], word) {
            assert(find_command(cmds, word) == Some(cmds[0]));
        } else {
            assert(find_command(cmds, word) == find_command(rest, word));
            if exists|t: int| 0 <= t < cmds.len() && names_command(#[trigger] cmds[t], word) {
                let t = choose|t: int| 0 <= t < cmds.len() && names_command(#[trigger] cmds[t], word);
                assert(rest[t - 1] == cmds[t]);
            }
            if exists|t: int| 0 <= t < rest.len() && names_command(#[trigger] rest[t], word) {
                let t = choose|t: int| 0 <= t < rest.len() && names_command(#[trigger] rest[t], word);
                assert(cmds[t + 1] == rest[t]);
            }
            if let Some(c) = find_command(rest, word) {
                let t = choose|t: int|
                    0 <= t < rest.len() && rest[t] == c && names_command(c, word) && forall|u: int|
                        0 <= u < t ==> !names_command(#[trigger] rest[u], word);
                assert(cmds[t + 1] == rest[t]);
                assert forall|u: int| 0 <= u < t + 1 implies !names_command(#[trigger] cmds[u], word) by {
                    if u > 0 {
                        assert(cmds[u] == rest[u - 1]);
                    }
                }
            }
        }
    }
}

/// The Commands section of help lists exactly the commands that are not hidden: every row names
/// a visible command with its description, and every visible command has a row.
pub proof fn help_lists_exactly_the_visible_commands(cmds: Seq<CommandSpec>)
    ensures
        forall|k: int| 0 <= k < command_rows(cmds).len() ==> exists|t: int|
            0 <= t < cmds.len() && !cmds[t]@.hidden && (#[trigger] command_rows(cmds)[k]) == (cmds[t]@.name, cmds[t]@.about),
        forall|t: int| 0 <= t < cmds.len() && !(#[trigger] cmds[t]@.hidden) ==> exists|k: int|
            0 <= k < command_rows(cmds).len() && command_rows(cmds)[k] == (cmds[t]@.name, cmds[t]@.about),
        command_rows(cmds).len() <= cmds.len(),
    decreases cmds.len(),
{
    if cmds.len() > 0 {
        let d = cmds.drop_last();
        help_lists_exactly_the_visible_commands(d);
        let r = command_rows(cmds);
        let rest = command_rows(d);
        let last = cmds.len() - 1;
        assert(cmds[last] == cmds.last());
        assert forall|k: int| 0 <= k < r.len() implies exists|t: int|
            0 <= t < cmds.len() && !cmds[t]@.hidden && (#[trigger] r[k]) == (cmds[t]@.name, cmds[t]@.about) by {
            if k < rest.len() {
                assert(r[k] == rest[k]);
                let t = choose|t: int| 0 <= t < d.len() && !d[t]@.hidden && (#[trigger] rest[k]) == (d[t]@.name, d[t]@.about);
                assert(d[t] == cmds[t]);
            }
        }
        assert forall|t: int| 0 <= t < cmds.len() && !(#[trigger] cmds[t]@.hidden) implies exists|k: int|
            0 <= k < r.len() && r[k] == (cmds[t]@.name, cmds[t]@.about) by {
            if t < last {
                assert(d[t] == cmds[t]);
                assert(!d[t]@.hidden);
                let k = choose|k: int| 0 <= k < rest.len() && rest[k] == (d[t]@.name, d[t]@.about);
                assert(r[k] == rest[k]);
            } else {
                assert(r[rest.len() as int] == (cmds[t]@.name, cmds[t]@.about));
            }
        }
    }
}

/// Option completion misses nothing: every offerable option whose long form `--name`, or short
/// form `-c`, extends the typed prefix is offered in that form.
pub proof fn option_completion_is_complete(vis: Seq<OptionSpec>, used: Seq<Seq<char>>, prefix: Seq<char>)
    ensures
        forall|t: int| 0 <= t < vis.len() && offerable(#[trigger] vis[t], used) ==> ({
            &&& prefix.is_prefix_of(seq!['-', '-'] + vis[t]@.long) ==> exists|k: int|
                0 <= k < option_cands(vis, used, prefix).len() && option_cands(vis, used, prefix)[k].value == seq!['-', '-']
                    + vis[t]@.long
            &&& (vis[t]@.short matches Some(c) && prefix.is_prefix_of(seq!['-', c])) ==> exists|k: int|
                0 <= k < option_cands(vis, used, prefix).len() && option_cands(vis, used, prefix)[k].value == seq!['-', vis[t]@.short->Some_0]
        }),
    decreases vis.len(),
{
    if vis.len() > 0 {
        let d = vis.drop_last();
        option_completion_is_complete(d, used, prefix);
        let r = option_cands(vis, used, prefix);
        let rest = option_cands(d, used, prefix);
        let last = vis.len() - 1;
        assert(vis[last] == vis.last());
        let o = vis.last()@;
        let long = seq!['-', '-'] + o.long;
        let with_long = if prefix.is_prefix_of(long) {
            rest.push(CandidateModel { value: long, description: o.about, kind: CompletionKind::Option })
        } else {
            rest
        };
        // Everything offered before stays offered.
        assert forall|k: int| 0 <= k < rest.len() implies r[k] == rest[k] by {
            if !(o.hidden || (!o.repeatable && used.contains(o.long))) {
                assert(with_long[k] == rest[k]);
            }
        }
        assert forall|t: int| 0 <= t < vis.len() && offerable(#[trigger] vis[t], used) implies ({
            &&& prefix.is_prefix_of(seq!['-', '-'] + vis[t]@.long) ==> exists|k: int|
                0 <= k < r.len() && r[k].value == seq!['-', '-'] + vis[t]@.long
            &&& (vis[t]@.short matches Some(c) && prefix.is_prefix_of(seq!['-', c])) ==> exists|k: int|
                0 <= k < r.len() && r[k].value == seq!['-', vis[t]@.short->Some_0]
        }) by {
            if t < last {
                assert(d[t] == vis[t]);
                if prefix.is_prefix_of(seq!['-', '-'] + vis[t]@.long) {
                    let k = choose|k: int| 0 <= k < rest.len() && rest[k].value == seq!['-', '-'] + d[t]@.long;
                    assert(r[k] == rest[k]);
                }
                if vis[t]@.short matches Some(c) && prefix.is_prefix_of(seq!['-', c]) {
                    let k = choose|k: int| 0 <= k < rest.len() && rest[k].value == seq!['-', d[t]@.short->Some_0];
                    assert(r[k] == rest[k]);
                }
            } else {
                if prefix.is_prefix_of(long) {
                    assert(with_long[rest.len() as int].value == long);
                    assert(r[rest.len() as int] == with_long[rest.len() as int]);
                }
                if o.short is Some && prefix.is_prefix_of(seq!['-', o.short->Some_0]) {
                    assert(r[with_long.len() as int].value == seq!['-', o.short->Some_0]);
                }
            }
        }
    }
}

/// The Options section of help lists exactly the options that are not hidden, each by its usage
/// form and description.
pub proof fn help_lists_exactly_the_visible_options(opts: Seq<OptionSpec>)
    ensures
        forall|k: int| 0 <= k < option_rows(opts).len() ==> exists|t: int|
            0 <= t < opts.len() && !opts[t]@.hidden && (#[trigger] option_rows(opts)[k]) == (option_usage(opts[t]), opts[t]@.about),
        forall|t: int| 0 <= t < opts.len() && !(#[trigger] opts[t]@.hidden) ==> exists|k: int|
            0 <= k < option_rows(opts).len() && option_rows(opts)[k] == (option_usage(opts[t]), opts[t]@.about),
    decreases opts.len(),
{
    if opts.len() > 0 {
        let d = opts.drop_last();
        help_lists_exactly_the_visible_options(d);
        let r = option_rows(opts);
        let rest = option_rows(d);
        let last = opts.len() - 1;
        assert(opts[last] == opts.last());
        assert forall|k: int| 0 <= k < r.len() implies exists|t: int|
            0 <= t < opts.len() && !opts[t]@.hidden && (#[trigger] r[k]) == (option_usage(opts[t]), opts[t]@.about) by {
            if k < rest.len() {
                assert(r[k] == rest[k]);
                let t = choose|t: int| 0 <= t < d.len() && !d[t]@.hidden && (#[trigger] rest[k]) == (option_usage(d[t]), d[t]@.about);
                assert(d[t] == opts[t]);
            }
        }
        assert forall|t: int| 0 <= t < opts.len() && !(#[trigger] opts[t]@.hidden) implies exists|k: int|
            0 <= k < r.len() && r[k] == (option_usage(opts[t]), opts[t]@.about) by {
            if t < last {
                assert(d[t] == opts[t]);
                assert(!d[t]@.hidden);
                let k = choose|k: int| 0 <= k < rest.len() && rest[k] == (option_usage(d[t]), d[t]@.about);
                assert(r[k] == rest[k]);
            } else {
                assert(r[rest.len() as int] == (option_usage(opts[t]), opts[t]@.about));
            }
        }
    }
}

/// Command completion misses nothing: every command that is not hidden and whose name extends
/// the typed prefix is offered.
pub proof fn command_completion_is_complete(cmds: Seq<CommandSpec>, prefix: Seq<char>)
    ensures
        forall|t: int| 0 <= t < cmds.len() && !(#[trigger] cmds[t])@.hidden && prefix.is_prefix_of(cmds[t]@.name) ==> exists|k: int|
            0 <= k < command_cands(cmds, prefix).len() && command_cands(cmds, prefix)[k].value == cmds[t]@.name,
    decreases cmds.len(),
{
    if cmds.len() > 0 {
        let d = cmds.drop_last();
        command_completion_is_complete(d, prefix);
        let r = command_cands(cmds, prefix);
        let rest = command_cands(d, prefix);
        let last = cmds.len() - 1;
        assert(cmds[last] == cmds.last());
        assert forall|t: int| 0 <= t < cmds.len() && !(#[trigger] cmds[t])@.hidden && prefix.is_prefix_of(cmds[t]@.name) implies exists|k: int|
            0 <= k < r.len() && r[k].value == cmds[t]@.name by {
            if t < last {
                assert(d[t] == cmds[t]);
                let k = choose|k: int| 0 <= k < rest.len() && rest[k].value == d[t]@.name;
                assert(r[k] == rest[k]);
            } else {
                assert(r[rest.len() as int].value == cmds[t]@.name);
            }
        }
    }
}

/// Value completion misses nothing: every possible value that extends the typed prefix is
/// offered, after `--name=` where an option name is given.
pub proof fn value_completion_is_complete(values: Seq<Seq<char>>, prefix: Seq<char>, long: Option<Seq<char>>)
    ensures
        forall|t: int| 0 <= t < values.len() && prefix.is_prefix_of(#[trigger] values[t]) ==> exists|k: int|
            0 <= k < value_cands(values, prefix, long).len() && value_cands(values, prefix, long)[k].value == match long {
                Some(n) => "--"@ + n + "="@ + values[t],
                None => values[t],
            },
    decreases values.len(),
{
    if values.len() > 0 {
        let d = values.drop_last();
        value_completion_is_complete(d, prefix, long);
        let r = value_cands(values, prefix, long);
        let rest = value_cands(d, prefix, long);
        let last = values.len() - 1;
        assert(values[last] == values.last());
        assert forall|t: int| 0 <= t < values.len() && prefix.is_prefix_of(#[trigger] values[t]) implies exists|k: int|
            0 <= k < r.len() && r[k].value == match long {
                Some(n) => "--"@ + n + "="@ + values[t],
                None => values[t],
            } by {
            if t < last {
                assert(d[t] == values[t]);
                let k = choose|k: int| 0 <= k < rest.len() && rest[k].value == match long {
                    Some(n) => "--"@ + n + "="@ + d[t],
                    None => d[t],
                };
                assert(r[k] == rest[k]);
            } else {
                assert(r[rest.len() as int].value == match long {
                    Some(n) => "--"@ + n + "="@ + values[t],
                    None => values[t],
                });
            }
        }
    }
}

/// A long option name is recognised exactly when some visible option has it, and then the
/// latest such option (the innermost command's) is the one found.
pub proof fn long_option_found_by_name(vis: Seq<OptionSpec>, name: Seq<char>)
    ensures
        find_long(vis, name) is Some <==> exists|t: int| 0 <= t < vis.len() && (#[trigger] vis[t])@.long == name,
        find_long(vis, name) matches Some(o) ==> exists|t: int|
            0 <= t < vis.len() && vis[t] == o && o@.long == name && forall|u: int| t < u < vis.len() ==> (#[trigger] vis[u])@.long != name,
    decreases vis.len(),
{
    if vis.len() > 0 {
        let d = vis.drop_last();
        long_option_found_by_name(d, name);
        let last = vis.len() - 1;
        assert(vis[last] == vis.last());
        if vis.last()@.long != name {
            if exists|t: int| 0 <= t < vis.len() && (#[trigger] vis[t])@.long == name {
                let t = choose|t: int| 0 <= t < vis.len() && (#[trigger] vis[t])@.long == name;
                assert(d[t] == vis[t]);
            }
            if exists|t: int| 0 <= t < d.len() && (#[trigger] d[t])@.long == name {
                let t = choose|t: int| 0 <= t < d.len() && (#[trigger] d[t])@.long == name;
                assert(vis[t] == d[t]);
            }
            if let Some(o) = find_long(d, name) {
                let t = choose|t: int|
                    0 <= t < d.len() && d[t] == o && o@.long == name && forall|u: int| t < u < d.len() ==> (#[trigger] d[u])@.long != name;
                assert(vis[t] == d[t]);
                assert forall|u: int| t < u < vis.len() implies (#[trigger] vis[u])@.long != name by {
                    if u < last {
                        assert(vis[u] == d[u]);
                    }
                }
            }
        }
    }
}

/// A short option letter is recognised exactly when some visible option has it, and then the
/// latest such option is the one found.
pub proof fn short_option_found_by_letter(vis: Seq<OptionSpec>, c: char)
    ensures
        find_short(vis, c) is Some <==> exists|t: int| 0 <= t < vis.len() && (#[trigger] vis[t])@.short == Some(c),
        find_short(vis, c) matches Some(o) ==> exists|t: int|
            0 <= t < vis.len() && vis[t] == o && o@.short == Some(c) && forall|u: int|
                t < u < vis.len() ==> (#[trigger] vis[u])@.short != Some(c),
    decreases vis.len(),
{
    if vis.len() > 0 {
        let d = vis.drop_last();
        short_option_found_by_letter(d, c);
        let last = vis.len() - 1;
        assert(vis[last] == vis.last());
        if vis.last()@.short != Some(c) {
            if exists|t: int| 0 <= t < vis.len() && (#[trigger] vis[t])@.short == Some(c) {
                let t = choose|t: int| 0 <= t < vis.len() && (#[trigger] vis[t])@.short == Some(c);
                assert(d[t] == vis[t]);
            }
            if exists|t: int| 0 <= t < d.len() && (#[trigger] d[t])@.short == Some(c) {
                let t = choose|t: int| 0 <= t < d.len() && (#[trigger] d[t])@.short == Some(c);
                assert(vis[t] == d[t]);
            }
            if let Some(o) = find_short(d, c) {
                let t = choose|t: int|
                    0 <= t < d.len() && d[t] == o && o@.short == Some(c) && forall|u: int|
                        t < u < d.len() ==> (#[trigger] d[u])@.short != Some(c);
                assert(vis[t] == d[t]);
                assert forall|u: int| t < u < vis.len() implies (#[trigger] vis[u])@.short != Some(c) by {
                    if u < last {
                        assert(vis[u] == d[u]);
                    }
                }
            }
        }
    }
}

/// An invalid specification yields no completion candidates at all.
pub proof fn invalid_specification_completes_nothing(s: CliSpec, req: RequestModel)
    requires
        !spec_ok(s),
    ensures
        complete_spec(s, req) == Seq::<CandidateModel>::empty(),
{
}

/// Every command candidate extends the typed prefix and names a command that is not hidden.
pub proof fn command_candidates_are_visible_and_match(cmds: Seq<CommandSpec>, prefix: Seq<char>)
    ensures
        forall|k: int| 0 <= k < command_cands(cmds, prefix).len() ==> prefix.is_prefix_of(
            #[trigger] command_cands(cmds, prefix)[k].value,
        ) && exists|t: int| 0 <= t < cmds.len() && !cmds[t]@.hidden && cmds[t]@.name == command_cands(cmds, prefix)[k].value,
    decreases cmds.len(),
{
    if cmds.len() > 0 {
        let d = cmds.drop_last();
        command_candidates_are_visible_and_match(d, prefix);
        let r = command_cands(cmds, prefix);
        let rest = command_cands(d, prefix);
        assert forall|k: int| 0 <= k < r.len() implies prefix.is_prefix_of(#[trigger] r[k].value) && exists|t: int|
            0 <= t < cmds.len() && !cmds[t]@.hidden && cmds[t]@.name == r[k].value by {
            if k < rest.len() {
                assert(r[k] == rest[k]);
                let t = choose|t: int| 0 <= t < d.len() && !d[t]@.hidden && d[t]@.name == rest[k].value;
                assert(d[t] == cmds[t]);
            } else {
                assert(cmds[cmds.len() - 1] == cmds.last());
            }
        }
    }
}

/// An option may be offered: it is not hidden, and not a non-repeatable option already used.
pub open spec fn offerable(o: OptionSpec, used: Seq<Seq<char>>) -> bool {
    !o@.hidden && (o@.repeatable || !used.contains(o@.long))
}

/// `v` is the long (`--name`) or short (`-c`) form of the option.
pub open spec fn spells(o: OptionSpec, v: Seq<char>) -> bool {
    v == seq!['-', '-'] + o@.long || (o@.short matches Some(c) && v == seq!['-', c])
}

/// Every option candidate extends the typed prefix and spells the long or short form of an
/// offerable option.
pub proof fn option_candidates_are_offerable_and_match(vis: Seq<OptionSpec>, used: Seq<Seq<char>>, prefix: Seq<char>)
    ensures
        forall|k: int| 0 <= k < option_cands(vis, used, prefix).len() ==> prefix.is_prefix_of(
            #[trigger] option_cands(vis, used, prefix)[k].value,
        ) && exists|t: int|
            0 <= t < vis.len() && offerable(vis[t], used) && spells(vis[t], option_cands(vis, used, prefix)[k].value),
    decreases vis.len(),
{
    if vis.len() > 0 {
        let d = vis.drop_last();
        option_candidates_are_offerable_and_match(d, used, prefix);
        let r = option_cands(vis, used, prefix);
        let rest = option_cands(d, used, prefix);
        let last = vis[vis.len() - 1];
        assert(last == vis.last());
        assert forall|k: int| 0 <= k < r.len() implies prefix.is_prefix_of(#[trigger] r[k].value) && exists|t: int|
            0 <= t < vis.len() && offerable(vis[t], used) && spells(vis[t], r[k].value) by {
            if k < rest.len() {
                assert(r[k] == rest[k]);
                let t = choose|t: int| 0 <= t < d.len() && offerable(d[t], used) && spells(d[t], rest[k].value);
                assert(d[t] == vis[t]);
            } else {
                assert(offerable(last, used));
            }
        }
    }
}

/// A terminal option, once given, makes the parse succeed whatever else is missing.
pub proof fn terminal_option_bypasses_requirements(s: CliSpec, st: PState)
    requires
        has_terminal(visible_options(s, st.commands), st.options),
    ensures
        finish(s, st) == Ok::<ParsedModel, crate::cli::error::CliErrorModel>(
            ParsedModel {
                command_path: st.command_path,
                options: st.options,
                positionals: st.positionals,
                passthrough: st.passthrough,
            },
        ),
{
}

/// Everything after `--` is kept as passthrough, untouched, and parsing ends there.
pub proof fn passthrough_is_untouched(s: CliSpec, words: Seq<Seq<char>>, st: PState, i: int)
    requires
        0 <= i < words.len(),
        words[i] == seq!['-', '-'],
    ensures
        run(s, words, st, i) == finish(s, PState { passthrough: st.passthrough + words.skip(i + 1), ..st }),
{
    let st2 = PState { passthrough: st.passthrough + words.skip(i + 1), ..st };
    assert(run(s, words, st2, words.len() as int) == finish(s, st2));
}

/// A word holding a NUL character is refused at the raw input boundary, whatever the limits.
pub proof fn nul_bytes_are_refused(words: Seq<Seq<char>>, limits: ArgLimits, i: int)
    requires
        0 <= i < words.len(),
        has_char(words[i], '\0'),
    ensures
        !raw_ok(words, limits),
{
    assert(!word_ok(words, i, limits));
}

proof fn lemma_best_among(input: Seq<u8>, cands: Seq<Seq<u8>>, n: int)
    requires
        0 <= n <= cands.len(),
    ensures
        match best_among(input, cands, n) {
            Some(k) => 0 <= k < n && eligible(input, cands[k]) && forall|j: int|
                0 <= j < n && eligible(input, #[trigger] cands[j]) ==> !closer(input, cands[j], cands[k]),
            None => forall|j: int| 0 <= j < n ==> !eligible(input, #[trigger] cands[j]),
        },
    decreases n,
{
    if n > 0 {
        lemma_best_among(input, cands, n - 1);
    }
}

/// A suggestion is within the accepted distance of the input, and no eligible candidate is
/// strictly closer (smaller distance, then shorter); inputs over the byte bound get none.
pub proof fn suggestion_is_closest_eligible(input: Seq<u8>, cands: Seq<Seq<u8>>)
    ensures
        input.len() > MAX_SUGGESTION_BYTES ==> closest_spec(input, cands) is None,
        closest_spec(input, cands) matches Some(k) ==> 0 <= k < cands.len() && eligible(input, cands[k])
            && forall|j: int| 0 <= j < cands.len() && eligible(input, #[trigger] cands[j]) ==> !closer(input, cands[j], cands[k]),
        input.len() <= MAX_SUGGESTION_BYTES && closest_spec(input, cands) is None ==> forall|j: int|
            0 <= j < cands.len() ==> !eligible(input, #[trigger] cands[j]),
{
    lemma_best_among(input, cands, cands.len() as int);
}

} // verus!
