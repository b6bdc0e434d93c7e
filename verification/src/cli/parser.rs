use crate::cli::error::{CliError, CliErrorKind, CliErrorModel};
use crate::cli::numbers::{is_i64, is_i64_text};
use crate::cli::raw::RawArgs;
use crate::cli::spec::{
    strings_view, ArgumentSpec, CliSpec, CommandSpec, OptionSpec, ValueMode, ValueType,
};
use crate::cli::suggestion::{append_suggestion, suggestion_for, with_suggestion};
use crate::cli::validation::{spec_ok, spec_problem};
use crate::cli::value::{joined, option_value, option_value_spec, validate_value, value_error_message, value_ok};
use crate::text::{
    chars_of, find_char, first_index, lemma_first_index_props, owned, push_str, string_from,
    text_eq,
};
use vstd::prelude::*;

verus! {

/// The result of a successful parse.
#[derive(Clone, Debug, PartialEq, Eq)]
pub struct ParsedCli {
    command_path: Vec<String>,
    options: Vec<ParsedOption>,
    positionals: Vec<String>,
    passthrough: Vec<String>,
}

/// One occurrence of an option, with its value if any.
#[derive(Clone, Debug, PartialEq, Eq)]
pub struct ParsedOption {
    name: String,
    value: Option<String>,
}

/// Parser for one specification.
pub struct CliParser<'a> {
    spec: &'a CliSpec,
}

/// Abstract content of a [`ParsedOption`].
pub struct OccurrenceModel {
    pub name: Seq<char>,
    pub value: Option<Seq<char>>,
}

/// Abstract content of a [`ParsedCli`].
pub struct ParsedModel {
    pub command_path: Seq<Seq<char>>,
    pub options: Seq<OccurrenceModel>,
    pub positionals: Seq<Seq<char>>,
    pub passthrough: Seq<Seq<char>>,
}

/// The view of an optional string.
pub open spec fn opt_view(v: Option<String>) -> Option<Seq<char>> {
    match v {
        Some(s) => Some(s@),
        None => None,
    }
}

impl View for ParsedOption {
    type V = OccurrenceModel;

    closed spec fn view(&self) -> OccurrenceModel {
        OccurrenceModel { name: self.name@, value: opt_view(self.value) }
    }
}

/// The view of a list of occurrences.
pub open spec fn occurrences_view(v: Seq<ParsedOption>) -> Seq<OccurrenceModel> {
    v.map_values(|o: ParsedOption| o@)
}

impl View for ParsedCli {
    type V = ParsedModel;

    closed spec fn view(&self) -> ParsedModel {
        ParsedModel {
            command_path: strings_view(self.command_path@),
            options: occurrences_view(self.options@),
            positionals: strings_view(self.positionals@),
            passthrough: strings_view(self.passthrough@),
        }
    }
}

/// Some occurrence is named `name`.
pub open spec fn present(options: Seq<OccurrenceModel>, name: Seq<char>) -> bool {
    exists|i: int| 0 <= i < options.len() && (#[trigger] options[i]).name == name
}

/// Value of the last occurrence named `name` (`None` when absent or valueless).
pub open spec fn last_value(options: Seq<OccurrenceModel>, name: Seq<char>) -> Option<Seq<char>>
    decreases options.len(),
{
    if options.len() == 0 {
        None
    } else if options.last().name == name {
        options.last().value
    } else {
        last_value(options.drop_last(), name)
    }
}

/// Values of the occurrences named `name`, in order, skipping valueless ones.
pub open spec fn values_named(options: Seq<OccurrenceModel>, name: Seq<char>) -> Seq<Seq<char>>
    decreases options.len(),
{
    if options.len() == 0 {
        seq![]
    } else {
        let rest = values_named(options.drop_last(), name);
        if options.last().name == name {
            match options.last().value {
                Some(v) => rest.push(v),
                None => rest,
            }
        } else {
            rest
        }
    }
}

/// Number of occurrences named `name`.
pub open spec fn count_named(options: Seq<OccurrenceModel>, name: Seq<char>) -> nat
    decreases options.len(),
{
    if options.len() == 0 {
        0
    } else {
        count_named(options.drop_last(), name) + if options.last().name == name {
            1nat
        } else {
            0nat
        }
    }
}

impl ParsedCli {
    /// Names of the selected commands, outermost first.
    pub fn command_path(&self) -> (r: &[String])
        ensures
            strings_view(r@) == self@.command_path,
    {
        self.command_path.as_slice()
    }

    /// Option occurrences, in input order.
    pub fn options(&self) -> (r: &[ParsedOption])
        ensures
            occurrences_view(r@) == self@.options,
    {
        self.options.as_slice()
    }

    /// Positional values, in input order.
    pub fn positionals(&self) -> (r: &[String])
        ensures
            strings_view(r@) == self@.positionals,
    {
        self.positionals.as_slice()
    }

    /// Words after `--`, untouched.
    pub fn passthrough(&self) -> (r: &[String])
        ensures
            strings_view(r@) == self@.passthrough,
    {
        self.passthrough.as_slice()
    }

    /// Whether the option occurred at least once.
    pub fn has_flag(&self, name: &str) -> (r: bool)
        ensures
            r == present(self@.options, name@),
    {
        let n = owned(name);
        let mut i: usize = 0;
        while i < self.options.len()
            invariant
                i <= self.options.len(),
                n@ == name@,
                forall|j: int| 0 <= j < i ==> self.options@[j]@.name != name@,
            decreases self.options.len() - i,
        {
            if self.options[i].name == n {
                assert(self@.options[i as int] == self.options@[i as int]@);
                return true;
            }
            i = i + 1;
        }
        assert forall|j: int| 0 <= j < self@.options.len() implies (#[trigger] self@.options[j]).name != name@ by {
            assert(self@.options[j] == self.options@[j]@);
        }
        false
    }

    /// Value of the last occurrence of the option.
    pub fn option_value(&self, name: &str) -> (r: Option<&str>)
        ensures
            match r {
                Some(v) => last_value(self@.options, name@) == Some(v@),
                None => last_value(self@.options, name@) is None,
            },
    {
        let n = owned(name);
        let ghost all = self@.options;
        let mut i: usize = self.options.len();
        assert(all.take(i as int) =~= all);
        while i > 0
            invariant
                i <= self.options.len(),
                n@ == name@,
                all == occurrences_view(self.options@),
                last_value(all, name@) == last_value(all.take(i as int), name@),
            decreases i,
        {
            let o = &self.options[i - 1];
            assert(all.take(i as int).last() == o@);
            assert(all.take(i as int).drop_last() =~= all.take(i - 1));
            if o.name == n {
                return match &o.value {
                    Some(v) => Some(v.as_str()),
                    None => None,
                };
            }
            i = i - 1;
        }
        None
    }

    /// Values of all occurrences of the option, in order.
    pub fn option_values(&self, name: &str) -> (r: Vec<String>)
        ensures
            strings_view(r@) == values_named(self@.options, name@),
    {
        let n = owned(name);
        let ghost all = self@.options;
        let mut r: Vec<String> = Vec::new();
        let mut i: usize = 0;
        assert(all.take(0) =~= seq![]);
        while i < self.options.len()
            invariant
                i <= self.options.len(),
                n@ == name@,
                all == occurrences_view(self.options@),
                strings_view(r@) == values_named(all.take(i as int), name@),
            decreases self.options.len() - i,
        {
            let o = &self.options[i];
            assert(all.take(i + 1).drop_last() =~= all.take(i as int));
            assert(all.take(i + 1).last() == o@);
            if o.name == n {
                if let Some(v) = &o.value {
                    let ghost before = r@;
                    let x = v.clone();
                    r.push(x);
                    proof {
                        crate::cli::spec::lemma_strings_view_push(before, x);
                    }
                }
            }
            i = i + 1;
        }
        assert(all.take(self.options.len() as int) =~= all);
        r
    }

    /// Number of occurrences of the option.
    pub fn option_occurrences(&self, name: &str) -> (r: usize)
        ensures
            r == count_named(self@.options, name@),
    {
        let n = owned(name);
        let ghost all = self@.options;
        let mut count: usize = 0;
        let mut i: usize = 0;
        assert(all.take(0) =~= seq![]);
        while i < self.options.len()
            invariant
                i <= self.options.len(),
                n@ == name@,
                all == occurrences_view(self.options@),
                count == count_named(all.take(i as int), name@),
                count <= i,
            decreases self.options.len() - i,
        {
            assert(all.take(i + 1).drop_last() =~= all.take(i as int));
            assert(all.take(i + 1).last() == self.options@[i as int]@);
            if self.options[i].name == n {
                count = count + 1;
            }
            i = i + 1;
        }
        assert(all.take(self.options.len() as int) =~= all);
        count
    }
}

impl ParsedOption {
    /// Long name of the option.
    pub fn name(&self) -> (r: &str)
        ensures
            r@ == self@.name,
    {
        self.name.as_str()
    }

    /// Value, when one was given.
    pub fn value(&self) -> (r: Option<&str>)
        ensures
            match r {
                Some(v) => self@.value == Some(v@),
                None => self@.value is None,
            },
    {
        match &self.value {
            Some(v) => Some(v.as_str()),
            None => None,
        }
    }
}


/// Abstract state of a parse in progress.
pub struct PState {
    pub commands: Seq<CommandSpec>,
    pub command_path: Seq<Seq<char>>,
    pub options: Seq<OccurrenceModel>,
    pub positionals: Seq<Seq<char>>,
    pub passthrough: Seq<Seq<char>>,
}

/// The state before the first word.
pub open spec fn initial_state() -> PState {
    PState {
        commands: seq![],
        command_path: seq![],
        options: seq![],
        positionals: seq![],
        passthrough: seq![],
    }
}

/// Commands that may be entered next.
pub open spec fn available(s: CliSpec, st: PState) -> Seq<CommandSpec> {
    if st.commands.len() == 0 {
        s@.commands
    } else {
        st.commands.last()@.commands
    }
}

/// Positional arguments of the innermost selected command (or the root).
pub open spec fn active_arguments(s: CliSpec, st: PState) -> Seq<ArgumentSpec> {
    if st.commands.len() == 0 {
        s@.arguments
    } else {
        st.commands.last()@.arguments
    }
}

/// Whether a subcommand is required at the current level.
pub open spec fn command_required_here(s: CliSpec, st: PState) -> bool {
    if st.commands.len() == 0 {
        s@.command_required
    } else {
        st.commands.last()@.command_required
    }
}

/// Options visible after selecting `cmds`: global ones, then each command's own.
pub open spec fn visible_options(s: CliSpec, cmds: Seq<CommandSpec>) -> Seq<OptionSpec>
    decreases cmds.len(),
{
    if cmds.len() == 0 {
        s@.options
    } else {
        visible_options(s, cmds.drop_last()) + cmds.last()@.options
    }
}

/// The last visible option with this long name.
pub open spec fn find_long(vis: Seq<OptionSpec>, name: Seq<char>) -> Option<OptionSpec>
    decreases vis.len(),
{
    if vis.len() == 0 {
        None
    } else if vis.last()@.long == name {
        Some(vis.last())
    } else {
        find_long(vis.drop_last(), name)
    }
}

/// The last visible option with this short name.
pub open spec fn find_short(vis: Seq<OptionSpec>, c: char) -> Option<OptionSpec>
    decreases vis.len(),
{
    if vis.len() == 0 {
        None
    } else if vis.last()@.short == Some(c) {
        Some(vis.last())
    } else {
        find_short(vis.drop_last(), c)
    }
}

/// The first command whose name or an alias is `word`.
pub open spec fn find_command(cmds: Seq<CommandSpec>, word: Seq<char>) -> Option<CommandSpec>
    decreases cmds.len(),
{
    if cmds.len() == 0 {
        None
    } else if cmds[0]@.name == word || cmds[0]@.aliases.contains(word) {
        Some(cmds[0])
    } else {
        find_command(cmds.drop_first(), word)
    }
}

/// The argument that the next positional value fills.
pub open spec fn next_argument(s: CliSpec, st: PState) -> Option<ArgumentSpec> {
    let args = active_arguments(s, st);
    if st.positionals.len() < args.len() {
        Some(args[st.positionals.len() as int])
    } else if args.len() > 0 && args.last()@.multiple {
        Some(args.last())
    } else {
        None
    }
}

/// A word starting with `-` that the next argument takes as a negative number.
pub open spec fn accepts_negative(s: CliSpec, st: PState, w: Seq<char>) -> bool {
    match next_argument(s, st) {
        Some(a) => a@.value_type == ValueType::I64 && is_i64_text(w) && (w.len() < 2 || find_short(
            visible_options(s, st.commands),
            w[1],
        ) is None),
        None => false,
    }
}

/// Starts with `--`.
pub open spec fn is_long_word(w: Seq<char>) -> bool {
    w.len() >= 2 && w[0] == '-' && w[1] == '-'
}

/// A cluster of short options such as `-v` or `-avo`.
pub open spec fn is_short_word(w: Seq<char>) -> bool {
    w.len() > 1 && w[0] == '-' && w[1] != '-'
}

/// A failure of the given kind with the given message.
pub open spec fn failure(kind: CliErrorKind, message: Seq<char>) -> CliErrorModel {
    CliErrorModel { kind: kind, message: message }
}

/// Records an option occurrence after the repetition and value checks.
pub open spec fn push_option(st: PState, o: OptionSpec, value: Option<Seq<char>>) -> Result<PState, CliErrorModel> {
    if !o@.repeatable && present(st.options, o@.long) {
        Err(failure(CliErrorKind::DuplicateOption, "option `--"@ + o@.long + "` cannot be repeated"@))
    } else if value is Some && !value_ok(value.unwrap(), o@.value_type, o@.possible_values) {
        Err(failure(
            CliErrorKind::InvalidValue,
            value_error_message(value.unwrap(), o@.value_type, o@.possible_values, "--"@ + o@.long),
        ))
    } else {
        Ok(PState { options: st.options.push(OccurrenceModel { name: o@.long, value: value }), ..st })
    }
}

/// Names and aliases of the commands that are not hidden, in order: what an unknown command is compared with.
pub open spec fn command_candidates(cmds: Seq<CommandSpec>) -> Seq<Seq<char>>
    decreases cmds.len(),
{
    if cmds.len() == 0 {
        seq![]
    } else {
        let rest = command_candidates(cmds.drop_last());
        let c = cmds.last()@;
        if c.hidden {
            rest
        } else {
            rest.push(c.name) + c.aliases
        }
    }
}

/// Long names of the options that are not hidden, in order: what an unknown option is compared with.
pub open spec fn option_candidates(vis: Seq<OptionSpec>) -> Seq<Seq<char>>
    decreases vis.len(),
{
    if vis.len() == 0 {
        seq![]
    } else {
        let rest = option_candidates(vis.drop_last());
        if vis.last()@.hidden {
            rest
        } else {
            rest.push(vis.last()@.long)
        }
    }
}

/// Records a positional value.
pub open spec fn push_positional(s: CliSpec, st: PState, w: Seq<char>) -> Result<PState, CliErrorModel> {
    match next_argument(s, st) {
        None => if st.positionals.len() == 0 && available(s, st).len() > 0 {
            Err(failure(
                CliErrorKind::UnexpectedArgument,
                with_suggestion(
                    "unknown command `"@ + w + "`"@,
                    suggestion_for(w, command_candidates(available(s, st))),
                    ""@,
                ),
            ))
        } else {
            Err(failure(CliErrorKind::UnexpectedArgument, "unexpected argument `"@ + w + "`"@))
        },
        Some(a) => if !value_ok(w, a@.value_type, a@.possible_values) {
            Err(failure(CliErrorKind::InvalidValue, value_error_message(w, a@.value_type, a@.possible_values, a@.name)))
        } else {
            Ok(PState { positionals: st.positionals.push(w), ..st })
        },
    }
}

/// Name and attached value of a long option word `--name[=value]`.
pub open spec fn split_long(w: Seq<char>) -> (Seq<char>, Option<Seq<char>>) {
    let raw = w.skip(2);
    match first_index(raw, '=') {
        Some(k) => (raw.take(k), Some(raw.skip(k + 1))),
        None => (raw, None),
    }
}

/// Handles the long option at `words[idx]`.
pub open spec fn long_step(s: CliSpec, words: Seq<Seq<char>>, st: PState, idx: int) -> Result<(PState, int), CliErrorModel> {
    let (name, inline) = split_long(words[idx]);
    if name.len() == 0 {
        Err(failure(CliErrorKind::UnknownOption, "empty long option is not accepted"@))
    } else {
        match find_long(visible_options(s, st.commands), name) {
            None => Err(failure(
                CliErrorKind::UnknownOption,
                with_suggestion(
                    "unknown option `--"@ + name + "`"@,
                    suggestion_for(name, option_candidates(visible_options(s, st.commands))),
                    "--"@,
                ),
            )),
            Some(o) => match option_value_spec(words, idx, inline, o@, false) {
                Err(k) => Err(k),
                Ok((value, next)) => match push_option(st, o, value) {
                    Err(k) => Err(k),
                    Ok(st2) => Ok((st2, next)),
                },
            },
        }
    }
}

/// Value attached after the short option at position `p` of `raw`.
pub open spec fn short_remainder(raw: Seq<char>, p: int) -> Option<Seq<char>> {
    if p + 1 < raw.len() {
        let rest = raw.skip(p + 1);
        Some(if rest[0] == '=' { rest.skip(1) } else { rest })
    } else {
        None
    }
}

/// Handles the short options of `raw` from position `p` on, for the word at `idx`.
pub open spec fn short_steps(
    s: CliSpec,
    words: Seq<Seq<char>>,
    st: PState,
    idx: int,
    raw: Seq<char>,
    p: int,
) -> Result<(PState, int), CliErrorModel>
    decreases raw.len() - p,
{
    if p >= raw.len() || p < 0 {
        Ok((st, idx + 1))
    } else {
        match find_short(visible_options(s, st.commands), raw[p]) {
            None => Err(failure(CliErrorKind::UnknownOption, "unknown option `-"@ + seq![raw[p]] + "`"@)),
            Some(o) => match option_value_spec(words, idx, short_remainder(raw, p), o@, true) {
                Err(k) => Err(k),
                Ok((value, next)) => match push_option(st, o, value) {
                    Err(k) => Err(k),
                    Ok(st2) => if o@.value != ValueMode::Forbidden {
                        Ok((st2, next))
                    } else {
                        short_steps(s, words, st2, idx, raw, p + 1)
                    },
                },
            },
        }
    }
}

/// Handles `words[idx]`, giving the next state and the index of the next word to read.
pub open spec fn step(s: CliSpec, words: Seq<Seq<char>>, st: PState, idx: int) -> Result<(PState, int), CliErrorModel> {
    let w = words[idx];
    if w == seq!['-', '-'] {
        Ok((PState { passthrough: st.passthrough + words.skip(idx + 1), ..st }, words.len() as int))
    } else if is_long_word(w) {
        long_step(s, words, st, idx)
    } else if is_short_word(w) && !accepts_negative(s, st, w) {
        short_steps(s, words, st, idx, w.skip(1), 0)
    } else if st.positionals.len() == 0 && find_command(available(s, st), w) is Some {
        let c = find_command(available(s, st), w).unwrap();
        Ok((PState { commands: st.commands.push(c), command_path: st.command_path.push(c@.name), ..st }, idx + 1))
    } else {
        match push_positional(s, st, w) {
            Err(k) => Err(k),
            Ok(st2) => Ok((st2, idx + 1)),
        }
    }
}

/// Some terminal option occurred.
pub open spec fn has_terminal(vis: Seq<OptionSpec>, options: Seq<OccurrenceModel>) -> bool {
    exists|i: int| 0 <= i < vis.len() && (#[trigger] vis[i])@.terminal && present(options, vis[i]@.long)
}

/// Index of the first required argument at position `k` or later.
pub open spec fn first_required_from(args: Seq<ArgumentSpec>, k: int) -> Option<int>
    decreases args.len() - k,
{
    if k >= args.len() || k < 0 {
        None
    } else if args[k]@.required {
        Some(k)
    } else {
        first_required_from(args, k + 1)
    }
}

/// Index of the first of `names[c..]` whose presence among `options` is `want`.
pub open spec fn first_with(options: Seq<OccurrenceModel>, names: Seq<Seq<char>>, want: bool, c: int) -> Option<int>
    decreases names.len() - c,
{
    if c >= names.len() || c < 0 {
        None
    } else if present(options, names[c]) == want {
        Some(c)
    } else {
        first_with(options, names, want, c + 1)
    }
}

/// First failure of the required/conflict/requirement rules among `vis[k..]`.
pub open spec fn rules_from(vis: Seq<OptionSpec>, options: Seq<OccurrenceModel>, k: int) -> Option<CliErrorModel>
    decreases vis.len() - k,
{
    if k >= vis.len() || k < 0 {
        None
    } else {
        let o = vis[k]@;
        if o.required && !present(options, o.long) {
            Some(failure(CliErrorKind::MissingOption, "required option `--"@ + o.long + "` was not provided"@))
        } else if !present(options, o.long) {
            rules_from(vis, options, k + 1)
        } else {
            match first_with(options, o.conflicts_with, true, 0) {
                Some(c) => Some(failure(
                    CliErrorKind::OptionConflict,
                    "option `--"@ + o.long + "` conflicts with `--"@ + o.conflicts_with[c] + "`"@,
                )),
                None => match first_with(options, o.required_options, false, 0) {
                    Some(c) => Some(failure(
                        CliErrorKind::MissingRequirement,
                        "option `--"@ + o.long + "` requires `--"@ + o.required_options[c] + "`"@,
                    )),
                    None => rules_from(vis, options, k + 1),
                },
            }
        }
    }
}

/// Where a missing subcommand is reported: the program name, or the selected command path.
pub open spec fn command_location(s: CliSpec, st: PState) -> Seq<char> {
    if st.command_path.len() == 0 {
        s@.name
    } else {
        joined(st.command_path, " "@)
    }
}

/// The parse result once all words are consumed.
pub open spec fn finish(s: CliSpec, st: PState) -> Result<ParsedModel, CliErrorModel> {
    let vis = visible_options(s, st.commands);
    let result = ParsedModel {
        command_path: st.command_path,
        options: st.options,
        positionals: st.positionals,
        passthrough: st.passthrough,
    };
    if has_terminal(vis, st.options) {
        Ok(result)
    } else if command_required_here(s, st) && available(s, st).len() > 0 {
        Err(failure(CliErrorKind::MissingCommand, "a command is required after `"@ + command_location(s, st) + "`"@))
    } else if first_required_from(active_arguments(s, st), st.positionals.len() as int) is Some {
        let k = first_required_from(active_arguments(s, st), st.positionals.len() as int).unwrap();
        Err(failure(CliErrorKind::MissingValue, "missing required argument `<"@ + active_arguments(s, st)[k]@.name + ">`"@))
    } else {
        match rules_from(vis, st.options, 0) {
            Some(k) => Err(k),
            None => Ok(result),
        }
    }
}

/// Parses `words[idx..]` from state `st`.
pub open spec fn run(s: CliSpec, words: Seq<Seq<char>>, st: PState, idx: int) -> Result<ParsedModel, CliErrorModel>
    decreases words.len() - idx,
{
    if idx >= words.len() || idx < 0 {
        finish(s, st)
    } else {
        match step(s, words, st, idx) {
            Err(k) => Err(k),
            Ok((st2, next)) => if idx < next <= words.len() {
                run(s, words, st2, next)
            } else {
                Err(failure(CliErrorKind::InvalidInput, seq![]))
            },
        }
    }
}

/// What parsing `words` against `s` yields.
pub open spec fn parse_spec(s: CliSpec, words: Seq<Seq<char>>) -> Result<ParsedModel, CliErrorModel> {
    if !spec_ok(s) {
        Err(failure(CliErrorKind::InvalidSpecification, spec_problem(s).unwrap()))
    } else {
        run(s, words, initial_state(), 0)
    }
}


/// The options behind a list of references.
pub open spec fn deref_options(v: Seq<&OptionSpec>) -> Seq<OptionSpec> {
    v.map_values(|o: &OptionSpec| *o)
}

/// The commands behind a list of references.
pub open spec fn deref_commands(v: Seq<&CommandSpec>) -> Seq<CommandSpec> {
    v.map_values(|c: &CommandSpec| *c)
}

struct ParseState<'a> {
    spec: &'a CliSpec,
    commands: Vec<&'a CommandSpec>,
    command_path: Vec<String>,
    options: Vec<ParsedOption>,
    positionals: Vec<String>,
    passthrough: Vec<String>,
}

impl<'a> View for ParseState<'a> {
    type V = PState;

    closed spec fn view(&self) -> PState {
        PState {
            commands: deref_commands(self.commands@),
            command_path: strings_view(self.command_path@),
            options: occurrences_view(self.options@),
            positionals: strings_view(self.positionals@),
            passthrough: strings_view(self.passthrough@),
        }
    }
}

/// Appends references to every option of `opts`.
fn extend_options<'a>(r: &mut Vec<&'a OptionSpec>, opts: &'a [OptionSpec])
    ensures
        deref_options(final(r)@) == deref_options(old(r)@) + opts@,
{
    let ghost start = deref_options(r@);
    let mut k: usize = 0;
    while k < opts.len()
        invariant
            k <= opts.len(),
            start == deref_options(old(r)@),
            deref_options(r@) == start + opts@.take(k as int),
        decreases opts.len() - k,
    {
        let ghost before = r@;
        r.push(&opts[k]);
        assert(deref_options(r@) =~= deref_options(before).push(opts@[k as int]));
        assert(opts@.take(k + 1) =~= opts@.take(k as int).push(opts@[k as int]));
        assert(deref_options(r@) =~= start + opts@.take(k + 1));
        k = k + 1;
    }
    assert(opts@.take(opts.len() as int) =~= opts@);
}

/// Whether an occurrence named `name` exists.
fn is_present(options: &Vec<ParsedOption>, name: &str) -> (r: bool)
    ensures
        r == present(occurrences_view(options@), name@),
{
    let n = owned(name);
    let mut i: usize = 0;
    while i < options.len()
        invariant
            i <= options.len(),
            n@ == name@,
            forall|j: int| 0 <= j < i ==> options@[j]@.name != name@,
        decreases options.len() - i,
    {
        if options[i].name == n {
            assert(occurrences_view(options@)[i as int] == options@[i as int]@);
            return true;
        }
        i = i + 1;
    }
    assert forall|j: int| 0 <= j < occurrences_view(options@).len() implies (#[trigger] occurrences_view(options@)[j]).name != name@ by {
        assert(occurrences_view(options@)[j] == options@[j]@);
    }
    false
}

/// The characters of `v` from `lo` on.
fn chars_from(v: &Vec<char>, lo: usize) -> (r: Vec<char>)
    requires
        lo <= v.len(),
    ensures
        r@ == v@.skip(lo as int),
{
    let mut r: Vec<char> = Vec::new();
    let mut i = lo;
    while i < v.len()
        invariant
            lo <= i <= v.len(),
            r@ == v@.subrange(lo as int, i as int),
        decreases v.len() - i,
    {
        r.push(v[i]);
        assert(r@ =~= v@.subrange(lo as int, i + 1));
        i = i + 1;
    }
    assert(r@ =~= v@.skip(lo as int));
    r
}

pub(crate) fn visible_for<'a>(spec: &'a CliSpec, commands: &Vec<&'a CommandSpec>) -> (r: Vec<&'a OptionSpec>)
    ensures
        deref_options(r@) == visible_options(*spec, deref_commands(commands@)),
{
    let mut r: Vec<&'a OptionSpec> = Vec::new();
    assert(deref_options(r@) =~= seq![]);
    extend_options(&mut r, spec.options());
    assert(deref_options(r@) =~= visible_options(*spec, deref_commands(commands@).take(0)));
    let mut j: usize = 0;
    while j < commands.len()
        invariant
            j <= commands.len(),
            deref_options(r@) == visible_options(*spec, deref_commands(commands@).take(j as int)),
        decreases commands.len() - j,
    {
        let c = commands[j];
        extend_options(&mut r, c.options());
        assert(deref_commands(commands@).take(j + 1).drop_last() =~= deref_commands(commands@).take(j as int));
        assert(deref_commands(commands@).take(j + 1).last() == *c);
        j = j + 1;
    }
    assert(deref_commands(commands@).take(commands.len() as int) =~= deref_commands(commands@));
    r
}

pub(crate) fn find_long_in<'a>(spec: &'a CliSpec, commands: &Vec<&'a CommandSpec>, name: &str) -> (r: Option<&'a OptionSpec>)
    ensures
        match r {
            Some(o) => find_long(visible_options(*spec, deref_commands(commands@)), name@) == Some(*o),
            None => find_long(visible_options(*spec, deref_commands(commands@)), name@) is None,
        },
{
    let vis = visible_for(spec, commands);
    let ghost all = deref_options(vis@);
    let mut i = vis.len();
    assert(all.take(i as int) =~= all);
    while i > 0
        invariant
            i <= vis.len(),
            all == deref_options(vis@),
            all == visible_options(*spec, deref_commands(commands@)),
            find_long(all, name@) == find_long(all.take(i as int), name@),
        decreases i,
    {
        let o = vis[i - 1];
        assert(all.take(i as int).last() == *o);
        assert(all.take(i as int).drop_last() =~= all.take(i - 1));
        if text_eq(o.long(), name) {
            assert(all.take(i as int).last()@.long == name@);
            assert(find_long(all.take(i as int), name@) == Some(*o));
            return Some(o);
        }
        i = i - 1;
    }
    None
}

pub(crate) fn find_short_in<'a>(spec: &'a CliSpec, commands: &Vec<&'a CommandSpec>, short: char) -> (r: Option<&'a OptionSpec>)
    ensures
        match r {
            Some(o) => find_short(visible_options(*spec, deref_commands(commands@)), short) == Some(*o),
            None => find_short(visible_options(*spec, deref_commands(commands@)), short) is None,
        },
{
    let vis = visible_for(spec, commands);
    let ghost all = deref_options(vis@);
    let mut i = vis.len();
    assert(all.take(i as int) =~= all);
    while i > 0
        invariant
            i <= vis.len(),
            all == deref_options(vis@),
            all == visible_options(*spec, deref_commands(commands@)),
            find_short(all, short) == find_short(all.take(i as int), short),
        decreases i,
    {
        let o = vis[i - 1];
        assert(all.take(i as int).last() == *o);
        assert(all.take(i as int).drop_last() =~= all.take(i - 1));
        if o.short_name() == Some(short) {
            return Some(o);
        }
        i = i - 1;
    }
    None
}


impl<'a> ParseState<'a> {
    fn new(spec: &'a CliSpec) -> (r: Self)
        ensures
            r@ == initial_state(),
            r.spec == spec,
    {
        let r = ParseState {
            spec,
            commands: Vec::new(),
            command_path: Vec::new(),
            options: Vec::new(),
            positionals: Vec::new(),
            passthrough: Vec::new(),
        };
        assert(r@.commands =~= seq![]);
        assert(r@.command_path =~= seq![]);
        assert(r@.options =~= seq![]);
        assert(r@.positionals =~= seq![]);
        assert(r@.passthrough =~= seq![]);
        r
    }

    fn available_commands(&self) -> (r: &'a [CommandSpec])
        ensures
            r@ == available(*self.spec, self@),
    {
        if self.commands.len() == 0 {
            self.spec.commands()
        } else {
            let c = self.commands[self.commands.len() - 1];
            assert(self@.commands.last() == *c);
            c.commands()
        }
    }

    fn active_arguments(&self) -> (r: &'a [ArgumentSpec])
        ensures
            r@ == active_arguments(*self.spec, self@),
    {
        if self.commands.len() == 0 {
            self.spec.arguments()
        } else {
            let c = self.commands[self.commands.len() - 1];
            assert(self@.commands.last() == *c);
            c.arguments()
        }
    }

    fn command_required_here(&self) -> (r: bool)
        ensures
            r == command_required_here(*self.spec, self@),
    {
        if self.commands.len() == 0 {
            self.spec.is_command_required()
        } else {
            let c = self.commands[self.commands.len() - 1];
            assert(self@.commands.last() == *c);
            c.is_command_required()
        }
    }

    fn visible_options(&self) -> (r: Vec<&'a OptionSpec>)
        ensures
            deref_options(r@) == visible_options(*self.spec, self@.commands),
    {
        visible_for(self.spec, &self.commands)
    }

    fn find_long_option(&self, name: &str) -> (r: Option<&'a OptionSpec>)
        ensures
            match r {
                Some(o) => find_long(visible_options(*self.spec, self@.commands), name@) == Some(*o),
                None => find_long(visible_options(*self.spec, self@.commands), name@) is None,
            },
    {
        find_long_in(self.spec, &self.commands, name)
    }

    fn find_short_option(&self, short: char) -> (r: Option<&'a OptionSpec>)
        ensures
            match r {
                Some(o) => find_short(visible_options(*self.spec, self@.commands), short) == Some(*o),
                None => find_short(visible_options(*self.spec, self@.commands), short) is None,
            },
    {
        find_short_in(self.spec, &self.commands, short)
    }

    fn next_argument(&self) -> (r: Option<&'a ArgumentSpec>)
        ensures
            match r {
                Some(a) => next_argument(*self.spec, self@) == Some(*a),
                None => next_argument(*self.spec, self@) is None,
            },
    {
        let args = self.active_arguments();
        if self.positionals.len() < args.len() {
            Some(&args[self.positionals.len()])
        } else if args.len() > 0 && args[args.len() - 1].is_multiple() {
            Some(&args[args.len() - 1])
        } else {
            None
        }
    }

    fn accepts_negative_positional(&self, value: &Vec<char>) -> (r: bool)
        ensures
            r == accepts_negative(*self.spec, self@, value@),
    {
        match self.next_argument() {
            None => false,
            Some(argument) => {
                argument.value_type_kind() == ValueType::I64 && is_i64(value) && (value.len() < 2
                    || self.find_short_option(value[1]).is_none())
            },
        }
    }
}


impl<'a> ParseState<'a> {
    fn enter_command(&mut self, word: &str) -> (r: bool)
        ensures
            final(self).spec == old(self).spec,
            r == (find_command(available(*old(self).spec, old(self)@), word@) is Some),
            r ==> final(self)@ == (PState {
                commands: old(self)@.commands.push(find_command(available(*old(self).spec, old(self)@), word@).unwrap()),
                command_path: old(self)@.command_path.push(find_command(available(*old(self).spec, old(self)@), word@).unwrap()@.name),
                ..old(self)@
            }),
            !r ==> final(self)@ == old(self)@,
    {
        let commands = self.available_commands();
        let ghost avail = commands@;
        let mut i: usize = 0;
        assert(avail.skip(0) =~= avail);
        while i < commands.len()
            invariant
                i <= commands.len(),
                avail == commands@,
                avail == available(*self.spec, self@),
                *self == *old(self),
                find_command(avail, word@) == find_command(avail.skip(i as int), word@),
            decreases commands.len() - i,
        {
            let command = &commands[i];
            assert(avail.skip(i as int)[0] == *command);
            assert(avail.skip(i as int).drop_first() =~= avail.skip(i + 1));
            if command.matches(word) {
                let ghost before = self@;
                let ghost before_path = self.command_path@;
                let ghost before_cmds = self.commands@;
                let name = owned(command.name());
                self.command_path.push(name);
                self.commands.push(command);
                proof {
                    crate::cli::spec::lemma_strings_view_push(before_path, name);
                    assert(deref_commands(self.commands@) =~= deref_commands(before_cmds).push(*command));
                }
                return true;
            }
            i = i + 1;
        }
        false
    }

    fn push_option(&mut self, option: &OptionSpec, value: Option<String>) -> (r: Result<(), CliError>)
        ensures
            final(self).spec == old(self).spec,
            match (r, push_option(old(self)@, *option, opt_view(value))) {
                (Ok(()), Ok(st)) => final(self)@ == st,
                (Err(e), Err(k)) => e@ == k,
                _ => false,
            },
    {
        if !option.is_repeatable() && is_present(&self.options, option.long()) {
            let mut m = owned("option `--");
            push_str(&mut m, option.long());
            push_str(&mut m, "` cannot be repeated");
            return Err(CliError::new(CliErrorKind::DuplicateOption, m));
        }
        if let Some(v) = &value {
            let owner = crate::cli::value::dashed(option.long());
            if let Err(e) = validate_value(v.as_str(), option.value_type_kind(), option.possible_values(), owner.as_str()) {
                return Err(e);
            }
        }
        let ghost before = self.options@;
        let entry = ParsedOption { name: owned(option.long()), value };
        self.options.push(entry);
        assert(occurrences_view(self.options@) =~= occurrences_view(before).push(entry@));
        Ok(())
    }

    fn push_positional(&mut self, value: &str) -> (r: Result<(), CliError>)
        ensures
            final(self).spec == old(self).spec,
            match (r, push_positional(*old(self).spec, old(self)@, value@)) {
                (Ok(()), Ok(st)) => final(self)@ == st,
                (Err(e), Err(k)) => e@ == k,
                _ => false,
            },
    {
        let argument = self.next_argument();
        if argument.is_none() && self.positionals.len() == 0 && self.available_commands().len() != 0 {
            let candidates = self.command_candidates();
            let mut m = owned("unknown command `");
            push_str(&mut m, value);
            push_str(&mut m, "`");
            let message = append_suggestion(m, value, candidates.as_slice(), "");
            return Err(CliError::new(CliErrorKind::UnexpectedArgument, message));
        }
        let argument = match argument {
            Some(a) => a,
            None => {
                let mut m = owned("unexpected argument `");
                push_str(&mut m, value);
                push_str(&mut m, "`");
                return Err(CliError::new(CliErrorKind::UnexpectedArgument, m));
            },
        };
        if let Err(e) = validate_value(value, argument.value_type_kind(), argument.possible_values(), argument.name()) {
            return Err(e);
        }
        let ghost before = self.positionals@;
        let x = owned(value);
        self.positionals.push(x);
        proof {
            crate::cli::spec::lemma_strings_view_push(before, x);
        }
        Ok(())
    }

    /// Names and aliases of the visible available commands, for suggestions.
    fn command_candidates(&self) -> (r: Vec<String>)
        ensures
            strings_view(r@) == command_candidates(available(*self.spec, self@)),
    {
        let commands = self.available_commands();
        let ghost cmds = commands@;
        let mut r: Vec<String> = Vec::new();
        let mut i: usize = 0;
        assert(cmds.take(0) =~= seq![]);
        assert(strings_view(r@) =~= seq![]);
        while i < commands.len()
            invariant
                i <= commands.len(),
                cmds == commands@,
                strings_view(r@) == command_candidates(cmds.take(i as int)),
            decreases commands.len() - i,
        {
            let command = &commands[i];
            assert(cmds.take(i + 1).drop_last() =~= cmds.take(i as int));
            assert(cmds.take(i + 1).last() == *command);
            if !command.is_hidden() {
                let ghost base = strings_view(r@);
                let ghost b0 = r@;
                let name = owned(command.name());
                r.push(name);
                proof {
                    crate::cli::spec::lemma_strings_view_push(b0, name);
                }
                let aliases = command.aliases();
                let mut j: usize = 0;
                assert(strings_view(aliases@).take(0) =~= seq![]);
                assert(strings_view(r@) =~= base.push(command@.name) + strings_view(aliases@).take(0));
                while j < aliases.len()
                    invariant
                        j <= aliases.len(),
                        strings_view(aliases@) == command@.aliases,
                        strings_view(r@) == base.push(command@.name) + strings_view(aliases@).take(j as int),
                    decreases aliases.len() - j,
                {
                    let ghost b = r@;
                    let x = aliases[j].clone();
                    r.push(x);
                    proof {
                        crate::cli::spec::lemma_strings_view_push(b, x);
                        assert(strings_view(aliases@)[j as int] == aliases@[j as int]@);
                        assert(strings_view(aliases@).take(j + 1) =~= strings_view(aliases@).take(j as int).push(x@));
                    }
                    j = j + 1;
                }
                assert(strings_view(aliases@).take(aliases.len() as int) =~= strings_view(aliases@));
            }
            i = i + 1;
        }
        assert(cmds.take(commands.len() as int) =~= cmds);
        r
    }

    /// Long names of the visible options that are not hidden, for suggestions.
    fn option_candidates(&self) -> (r: Vec<String>)
        ensures
            strings_view(r@) == option_candidates(visible_options(*self.spec, self@.commands)),
    {
        let vis = self.visible_options();
        let ghost all = deref_options(vis@);
        let mut r: Vec<String> = Vec::new();
        let mut i: usize = 0;
        assert(all.take(0) =~= seq![]);
        assert(strings_view(r@) =~= seq![]);
        while i < vis.len()
            invariant
                i <= vis.len(),
                all == deref_options(vis@),
                strings_view(r@) == option_candidates(all.take(i as int)),
            decreases vis.len() - i,
        {
            assert(all.take(i + 1).drop_last() =~= all.take(i as int));
            assert(all.take(i + 1).last() == *vis[i as int]);
            if !vis[i].is_hidden() {
                let ghost b = r@;
                let x = owned(vis[i].long());
                r.push(x);
                proof {
                    crate::cli::spec::lemma_strings_view_push(b, x);
                }
            }
            i = i + 1;
        }
        assert(all.take(vis.len() as int) =~= all);
        r
    }
}


/// Whether some visible terminal option occurred.
fn has_terminal_option(state: &ParseState) -> (r: bool)
    ensures
        r == has_terminal(visible_options(*state.spec, state@.commands), state@.options),
{
    let vis = state.visible_options();
    let ghost all = deref_options(vis@);
    let mut i: usize = 0;
    while i < vis.len()
        invariant
            i <= vis.len(),
            all == deref_options(vis@),
            all == visible_options(*state.spec, state@.commands),
            forall|j: int| 0 <= j < i ==> !((#[trigger] all[j])@.terminal && present(state@.options, all[j]@.long)),
        decreases vis.len() - i,
    {
        let o = vis[i];
        assert(all[i as int] == *o);
        if o.is_terminal() && is_present(&state.options, o.long()) {
            return true;
        }
        i = i + 1;
    }
    false
}

/// Fails when a subcommand is required here but none was selected.
fn validate_required_command(state: &ParseState) -> (r: Result<(), CliError>)
    ensures
        r is Err <==> command_required_here(*state.spec, state@) && available(*state.spec, state@).len() > 0,
        r matches Err(e) ==> e@ == failure(
            CliErrorKind::MissingCommand,
            "a command is required after `"@ + command_location(*state.spec, state@) + "`"@,
        ),
{
    if state.command_required_here() && state.available_commands().len() != 0 {
        let mut m = owned("a command is required after `");
        if state.command_path.len() == 0 {
            push_str(&mut m, state.spec.name());
        } else {
            let path = crate::cli::value::join_strings(state.command_path.as_slice(), " ");
            push_str(&mut m, path.as_str());
        }
        push_str(&mut m, "`");
        return Err(CliError::new(CliErrorKind::MissingCommand, m));
    }
    Ok(())
}

/// Fails when a required positional argument was not given.
fn validate_required_arguments(state: &ParseState) -> (r: Result<(), CliError>)
    ensures
        match first_required_from(active_arguments(*state.spec, state@), state@.positionals.len() as int) {
            Some(k) => r matches Err(e) && e@ == failure(
                CliErrorKind::MissingValue,
                "missing required argument `<"@ + active_arguments(*state.spec, state@)[k]@.name + ">`"@,
            ),
            None => r is Ok,
        },
{
    let provided = state.positionals.len();
    let args = state.active_arguments();
    let ghost target = first_required_from(args@, provided as int);
    let mut i: usize = provided;
    while i < args.len()
        invariant
            provided <= i,
            provided == state@.positionals.len(),
            args@ == active_arguments(*state.spec, state@),
            target == first_required_from(args@, provided as int),
            target == first_required_from(args@, i as int),
        decreases args.len() - i,
    {
        if args[i].is_required() {
            let mut m = owned("missing required argument `<");
            push_str(&mut m, args[i].name());
            push_str(&mut m, ">`");
            return Err(CliError::new(CliErrorKind::MissingValue, m));
        }
        i = i + 1;
    }
    Ok(())
}

/// Index of the first name of `names` that is present (when `want_present`) or absent.
fn first_with_presence(options: &Vec<ParsedOption>, names: &[String], want_present: bool) -> (r: Option<usize>)
    ensures
        match r {
            Some(k) => k < names@.len() && first_with(occurrences_view(options@), strings_view(names@), want_present, 0) == Some(k as int),
            None => first_with(occurrences_view(options@), strings_view(names@), want_present, 0) is None,
        },
{
    let ghost target = first_with(occurrences_view(options@), strings_view(names@), want_present, 0);
    let mut k: usize = 0;
    while k < names.len()
        invariant
            k <= names.len(),
            target == first_with(occurrences_view(options@), strings_view(names@), want_present, 0),
            target == first_with(occurrences_view(options@), strings_view(names@), want_present, k as int),
        decreases names.len() - k,
    {
        assert(strings_view(names@)[k as int] == names@[k as int]@);
        if is_present(options, names[k].as_str()) == want_present {
            return Some(k);
        }
        k = k + 1;
    }
    None
}

/// Applies the required, conflict and requirement rules of the visible options, in order.
fn validate_option_rules(state: &ParseState) -> (r: Result<(), CliError>)
    ensures
        match (r, rules_from(visible_options(*state.spec, state@.commands), state@.options, 0)) {
            (Ok(()), None) => true,
            (Err(e), Some(k)) => e@ == k,
            _ => false,
        },
{
    let vis = state.visible_options();
    let ghost all = deref_options(vis@);
    let mut i: usize = 0;
    while i < vis.len()
        invariant
            i <= vis.len(),
            all == deref_options(vis@),
            all == visible_options(*state.spec, state@.commands),
            rules_from(all, state@.options, 0) == rules_from(all, state@.options, i as int),
        decreases vis.len() - i,
    {
        let option = vis[i];
        assert(all[i as int] == *option);
        let here = is_present(&state.options, option.long());
        if option.is_required() && !here {
            let mut m = owned("required option `--");
            push_str(&mut m, option.long());
            push_str(&mut m, "` was not provided");
            return Err(CliError::new(CliErrorKind::MissingOption, m));
        }
        if here {
            let conflicts = option.conflicts();
            if let Some(c) = first_with_presence(&state.options, conflicts, true) {
                assert(strings_view(conflicts@)[c as int] == conflicts@[c as int]@);
                let mut m = owned("option `--");
                push_str(&mut m, option.long());
                push_str(&mut m, "` conflicts with `--");
                push_str(&mut m, conflicts[c].as_str());
                push_str(&mut m, "`");
                return Err(CliError::new(CliErrorKind::OptionConflict, m));
            }
            let reqs = option.requirements();
            if let Some(c) = first_with_presence(&state.options, reqs, false) {
                assert(strings_view(reqs@)[c as int] == reqs@[c as int]@);
                let mut m = owned("option `--");
                push_str(&mut m, option.long());
                push_str(&mut m, "` requires `--");
                push_str(&mut m, reqs[c].as_str());
                push_str(&mut m, "`");
                return Err(CliError::new(CliErrorKind::MissingRequirement, m));
            }
        }
        i = i + 1;
    }
    Ok(())
}

impl<'a> ParseState<'a> {
    fn finish(self) -> (r: Result<ParsedCli, CliError>)
        ensures
            match (r, finish(*self.spec, self@)) {
                (Ok(p), Ok(m)) => p@ == m,
                (Err(e), Err(k)) => e@ == k,
                _ => false,
            },
    {
        if !has_terminal_option(&self) {
            validate_required_command(&self)?;
            validate_required_arguments(&self)?;
            validate_option_rules(&self)?;
        }
        Ok(ParsedCli {
            command_path: self.command_path,
            options: self.options,
            positionals: self.positionals,
            passthrough: self.passthrough,
        })
    }
}


/// Handles the long option `words[index]`, whose characters are `word`.
fn parse_long_option(words: &[String], index: usize, word: &Vec<char>, state: &mut ParseState) -> (r: Result<usize, CliError>)
    requires
        index < words.len(),
        word@ == strings_view(words@)[index as int],
        is_long_word(word@),
    ensures
        final(state).spec == old(state).spec,
        match (r, long_step(*old(state).spec, strings_view(words@), old(state)@, index as int)) {
            (Ok(n), Ok((st, m))) => n == m && final(state)@ == st,
            (Err(e), Err(k)) => e@ == k,
            _ => false,
        },
{
    let raw = chars_from(word, 2);
    let (name, inline) = match find_char(&raw, '=') {
        Some(k) => {
            proof {
                lemma_first_index_props(raw@, '=');
            }
            assert(k < raw.len());
            (string_from(&raw, 0, k), Some(string_from(&raw, k + 1, raw.len())))
        },
        None => (string_from(&raw, 0, raw.len()), None),
    };
    assert(raw@.subrange(0, raw@.len() as int) =~= raw@);
    proof {
        if let Some(k) = first_index(raw@, '=') {
            lemma_first_index_props(raw@, '=');
            assert(raw@.subrange(0, k) =~= raw@.take(k));
            assert(raw@.subrange(k + 1, raw@.len() as int) =~= raw@.skip(k + 1));
        }
    }
    if name.as_str().is_empty() {
        return Err(CliError::new(CliErrorKind::UnknownOption, owned("empty long option is not accepted")));
    }
    let option = match state.find_long_option(name.as_str()) {
        Some(o) => o,
        None => {
            let candidates = state.option_candidates();
            let mut m = owned("unknown option `--");
            push_str(&mut m, name.as_str());
            push_str(&mut m, "`");
            let message = append_suggestion(m, name.as_str(), candidates.as_slice(), "--");
            return Err(CliError::new(CliErrorKind::UnknownOption, message));
        },
    };
    let (value, next) = option_value(words, index, inline, option, false)?;
    state.push_option(option, value)?;
    Ok(next)
}

/// Handles the cluster of short options `words[index]`, whose characters are `word`.
fn parse_short_options(words: &[String], index: usize, word: &Vec<char>, state: &mut ParseState) -> (r: Result<usize, CliError>)
    requires
        index < words.len(),
        word@ == strings_view(words@)[index as int],
        word@.len() >= 1,
    ensures
        final(state).spec == old(state).spec,
        match (r, short_steps(*old(state).spec, strings_view(words@), old(state)@, index as int, word@.skip(1), 0)) {
            (Ok(n), Ok((st, m))) => n == m && final(state)@ == st,
            (Err(e), Err(k)) => e@ == k,
            _ => false,
        },
{
    let raw = chars_from(word, 1);
    let ghost w = strings_view(words@);
    let ghost target = short_steps(*old(state).spec, w, old(state)@, index as int, raw@, 0);
    let mut p: usize = 0;
    while p < raw.len()
        invariant
            p <= raw.len(),
            index < words.len(),
            raw@ == word@.skip(1),
            w == strings_view(words@),
            state.spec == old(state).spec,
            target == short_steps(*old(state).spec, w, old(state)@, index as int, raw@, 0),
            target == short_steps(*state.spec, w, state@, index as int, raw@, p as int),
        decreases raw.len() - p,
    {
        let short = raw[p];
        let option = match state.find_short_option(short) {
            Some(o) => o,
            None => {
                let mut m = owned("unknown option `-");
                crate::text::push_char(&mut m, short);
                push_str(&mut m, "`");
                assert(m@ =~= "unknown option `-"@ + seq![short] + "`"@);
                return Err(CliError::new(CliErrorKind::UnknownOption, m));
            },
        };
        let remainder = if p + 1 < raw.len() {
            let start = if raw[p + 1] == '=' { p + 2 } else { p + 1 };
            let rest = string_from(&raw, start, raw.len());
            proof {
                let r2 = raw@.skip(p + 1);
                if r2[0] == '=' {
                    assert(rest@ =~= r2.skip(1));
                } else {
                    assert(rest@ =~= r2);
                }
            }
            Some(rest)
        } else {
            None
        };
        assert(opt_view(remainder) == short_remainder(raw@, p as int));
        let (value, next) = option_value(words, index, remainder, option, true)?;
        state.push_option(option, value)?;
        if option.value_mode() != ValueMode::Forbidden {
            return Ok(next);
        }
        p = p + 1;
    }
    Ok(index + 1)
}

/// Handles `words[index]`.
fn step_exec(words: &[String], index: usize, state: &mut ParseState) -> (r: Result<usize, CliError>)
    requires
        index < words.len(),
    ensures
        final(state).spec == old(state).spec,
        match (r, step(*old(state).spec, strings_view(words@), old(state)@, index as int)) {
            (Ok(n), Ok((st, m))) => n == m && final(state)@ == st,
            (Err(e), Err(k)) => e@ == k,
            _ => false,
        },
{
    let ghost w = strings_view(words@);
    let word_text = words[index].as_str();
    let word = chars_of(word_text);
    assert(w[index as int] == word@);
    if word.len() == 2 && word[0] == '-' && word[1] == '-' {
        assert(word@ =~= seq!['-', '-']);
        let ghost before = state.passthrough@;
        let mut k = index + 1;
        while k < words.len()
            invariant
                index < k <= words.len(),
                w == strings_view(words@),
                state.spec == old(state).spec,
                state@ == (PState { passthrough: old(state)@.passthrough + w.subrange(index + 1, k as int), ..old(state)@ }),
            decreases words.len() - k,
        {
            let ghost b = state.passthrough@;
            let x = words[k].clone();
            state.passthrough.push(x);
            proof {
                crate::cli::spec::lemma_strings_view_push(b, x);
                assert(w.subrange(index + 1, k + 1) =~= w.subrange(index + 1, k as int).push(w[k as int]));
            }
            k = k + 1;
        }
        assert(w.subrange(index + 1, words.len() as int) =~= w.skip(index + 1));
        return Ok(words.len());
    }
    assert(!(word@ =~= seq!['-', '-']) || word.len() == 2);
    if word.len() >= 2 && word[0] == '-' && word[1] == '-' {
        return parse_long_option(words, index, &word, state);
    }
    if word.len() > 1 && word[0] == '-' && word[1] != '-' && !state.accepts_negative_positional(&word) {
        return parse_short_options(words, index, &word, state);
    }
    if state.positionals.len() == 0 && state.enter_command(word_text) {
        return Ok(index + 1);
    }
    state.push_positional(word_text)?;
    Ok(index + 1)
}

proof fn lemma_step_progress(s: CliSpec, words: Seq<Seq<char>>, st: PState, idx: int)
    requires
        0 <= idx < words.len(),
    ensures
        step(s, words, st, idx) matches Ok((st2, n)) ==> idx < n <= words.len(),
{
    let w = words[idx];
    if is_short_word(w) {
        lemma_short_progress(s, words, st, idx, w.skip(1), 0);
    }
}

proof fn lemma_short_progress(s: CliSpec, words: Seq<Seq<char>>, st: PState, idx: int, raw: Seq<char>, p: int)
    requires
        0 <= idx < words.len(),
    ensures
        short_steps(s, words, st, idx, raw, p) matches Ok((st2, n)) ==> idx < n <= words.len(),
    decreases raw.len() - p,
{
    if 0 <= p < raw.len() {
        match find_short(visible_options(s, st.commands), raw[p]) {
            None => {},
            Some(o) => match option_value_spec(words, idx, short_remainder(raw, p), o@, true) {
                Err(k) => {},
                Ok((value, next)) => match push_option(st, o, value) {
                    Err(k) => {},
                    Ok(st2) => {
                        lemma_short_progress(s, words, st2, idx, raw, p + 1);
                    },
                },
            },
        }
    }
}

impl<'a> CliParser<'a> {
    /// A parser for `spec`.
    pub fn new(spec: &'a CliSpec) -> (r: Self)
        ensures
            r.spec() == *spec,
    {
        CliParser { spec }
    }

    /// The specification this parser follows.
    pub closed spec fn spec(&self) -> CliSpec {
        *self.spec
    }

    /// Parses the words against the specification.
    pub fn parse(&self, args: &RawArgs) -> (r: Result<ParsedCli, CliError>)
        ensures
            match (r, parse_spec(self.spec(), args@)) {
                (Ok(p), Ok(m)) => p@ == m,
                (Err(e), Err(k)) => e@ == k,
                _ => false,
            },
    {
        if let Err(e) = self.spec.validate() {
            return Err(CliError::new(CliErrorKind::InvalidSpecification, owned(e.message())));
        }
        let words = args.words();
        let ghost w = strings_view(words@);
        let mut state = ParseState::new(self.spec);
        let ghost target = run(*self.spec, w, initial_state(), 0);
        let mut index: usize = 0;
        while index < words.len()
            invariant
                index <= words.len(),
                w == strings_view(words@),
                w == args@,
                state.spec == self.spec,
                spec_ok(*self.spec),
                target == run(*self.spec, w, initial_state(), 0),
                target == run(*self.spec, w, state@, index as int),
            decreases words.len() - index,
        {
            proof {
                lemma_step_progress(*self.spec, w, state@, index as int);
            }
            match step_exec(words, index, &mut state) {
                Ok(next) => {
                    index = next;
                },
                Err(e) => {
                    return Err(e);
                },
            }
        }
        state.finish()
    }
}

} // verus!
