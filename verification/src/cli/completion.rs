use crate::cli::numbers::{is_i64, is_i64_text};
use crate::cli::parser::{
    deref_commands, deref_options, find_command, find_long, find_long_in, find_short,
    find_short_in, visible_for, visible_options,
};
use crate::cli::spec::{
    strings_view, ArgumentSpec, CliSpec, CommandSpec, OptionSpec, ValueMode, ValueType,
};
use crate::cli::validation::spec_ok;
use crate::text::{
    chars_of, chars_start_with, find_char, first_index, lemma_first_index_props, owned, push_char,
    push_str, string_from, text_eq,
};
use vstd::prelude::*;

verus! {

/// Words typed so far and the index of the word under the cursor.
#[derive(Clone, Debug, PartialEq, Eq)]
pub struct CompletionRequest {
    words: Vec<String>,
    cursor_word: usize,
}

/// One proposed completion.
#[derive(Clone, Debug, PartialEq, Eq)]
pub struct CompletionCandidate {
    value: String,
    description: String,
    kind: CompletionKind,
}

/// What a candidate completes.
#[derive(Clone, Copy, Debug, PartialEq, Eq, Structural)]
pub enum CompletionKind {
    Command,
    Option,
    Value,
}

/// Completion engine for one specification.
pub struct CompletionEngine<'a> {
    spec: &'a CliSpec,
}

/// Abstract content of a [`CompletionRequest`].
pub struct RequestModel {
    pub words: Seq<Seq<char>>,
    pub cursor_word: nat,
}

/// Abstract content of a [`CompletionCandidate`].
pub struct CandidateModel {
    pub value: Seq<char>,
    pub description: Seq<char>,
    pub kind: CompletionKind,
}

impl View for CompletionRequest {
    type V = RequestModel;

    closed spec fn view(&self) -> RequestModel {
        RequestModel { words: strings_view(self.words@), cursor_word: self.cursor_word as nat }
    }
}

impl View for CompletionCandidate {
    type V = CandidateModel;

    closed spec fn view(&self) -> CandidateModel {
        CandidateModel { value: self.value@, description: self.description@, kind: self.kind }
    }
}

/// The view of a list of candidates.
pub open spec fn candidates_view(v: Seq<CompletionCandidate>) -> Seq<CandidateModel> {
    v.map_values(|c: CompletionCandidate| c@)
}

impl CompletionRequest {
    /// A request over `words` with the cursor on word `cursor_word`.
    pub fn new(words: Vec<String>, cursor_word: usize) -> (r: Self)
        ensures
            r@ == (RequestModel { words: strings_view(words@), cursor_word: cursor_word as nat }),
    {
        CompletionRequest { words, cursor_word }
    }

    /// The words.
    pub fn words(&self) -> (r: &[String])
        ensures
            strings_view(r@) == self@.words,
    {
        self.words.as_slice()
    }

    /// Index of the word under the cursor.
    pub fn cursor_word(&self) -> (r: usize)
        ensures
            r as nat == self@.cursor_word,
    {
        self.cursor_word
    }
}

impl CompletionCandidate {
    /// A candidate.
    pub fn new(value: &str, description: &str, kind: CompletionKind) -> (r: Self)
        ensures
            r@ == (CandidateModel { value: value@, description: description@, kind: kind }),
    {
        CompletionCandidate { value: owned(value), description: owned(description), kind }
    }

    /// Text to insert.
    pub fn value(&self) -> (r: &str)
        ensures
            r@ == self@.value,
    {
        self.value.as_str()
    }

    /// Explanation shown beside the value.
    pub fn description(&self) -> (r: &str)
        ensures
            r@ == self@.description,
    {
        self.description.as_str()
    }

    /// What the candidate completes.
    pub fn kind(&self) -> (r: CompletionKind)
        ensures
            r == self@.kind,
    {
        self.kind
    }
}

/// What the words before the cursor establish.
pub struct ContextModel {
    pub commands: Seq<CommandSpec>,
    pub used: Seq<Seq<char>>,
    pub positionals: nat,
    pub pending: Option<OptionSpec>,
    pub passthrough: bool,
}

/// The context before any word.
pub open spec fn empty_context() -> ContextModel {
    ContextModel { commands: seq![], used: seq![], positionals: 0, pending: None, passthrough: false }
}

/// Commands that may be entered next.
pub open spec fn ctx_available(s: CliSpec, c: ContextModel) -> Seq<CommandSpec> {
    if c.commands.len() == 0 { s@.commands } else { c.commands.last()@.commands }
}

/// Arguments of the innermost command (or the root).
pub open spec fn ctx_arguments(s: CliSpec, c: ContextModel) -> Seq<ArgumentSpec> {
    if c.commands.len() == 0 { s@.arguments } else { c.commands.last()@.arguments }
}

/// The argument the next positional fills.
pub open spec fn ctx_next_argument(s: CliSpec, c: ContextModel) -> Option<ArgumentSpec> {
    let args = ctx_arguments(s, c);
    if c.positionals < args.len() {
        Some(args[c.positionals as int])
    } else if args.len() > 0 && args.last()@.multiple {
        Some(args.last())
    } else {
        None
    }
}

/// A dash-led word that the next argument takes as a negative number.
pub open spec fn ctx_accepts_negative(s: CliSpec, c: ContextModel, w: Seq<char>) -> bool {
    match ctx_next_argument(s, c) {
        Some(a) => a@.value_type == ValueType::I64 && is_i64_text(w) && (w.len() < 2 || find_short(
            visible_options(s, c.commands),
            w[1],
        ) is None),
        None => false,
    }
}

/// `w` without its leading dashes.
pub open spec fn strip_dashes(w: Seq<char>) -> Seq<char>
    decreases w.len(),
{
    if w.len() > 0 && w[0] == '-' { strip_dashes(w.drop_first()) } else { w }
}

/// Effect of a long option word (without its dashes) on the context.
pub open spec fn consume_long(s: CliSpec, c: ContextModel, raw: Seq<char>) -> ContextModel {
    let name = match first_index(raw, '=') { Some(k) => raw.take(k), None => raw };
    let has_value = first_index(raw, '=') is Some;
    match find_long(visible_options(s, c.commands), name) {
        Some(o) => ContextModel {
            used: c.used.push(o@.long),
            pending: if o@.value == ValueMode::Required && !has_value { Some(o) } else { c.pending },
            ..c
        },
        None => c,
    }
}

/// Effect of the short options of `raw` from position `p` on the context.
pub open spec fn consume_short(s: CliSpec, c: ContextModel, raw: Seq<char>, p: int) -> ContextModel
    decreases raw.len() - p,
{
    if p < 0 || p >= raw.len() {
        c
    } else {
        match find_short(visible_options(s, c.commands), raw[p]) {
            None => c,
            Some(o) => {
                let c2 = ContextModel { used: c.used.push(o@.long), ..c };
                if o@.value != ValueMode::Forbidden {
                    if p + 1 >= raw.len() && o@.value == ValueMode::Required {
                        ContextModel { pending: Some(o), ..c2 }
                    } else {
                        c2
                    }
                } else {
                    consume_short(s, c2, raw, p + 1)
                }
            },
        }
    }
}

/// Effect of one word on the context, and whether analysis stops there.
pub open spec fn consume(s: CliSpec, c: ContextModel, w: Seq<char>) -> (ContextModel, bool) {
    if c.pending is Some {
        (ContextModel { pending: None, ..c }, false)
    } else if w == seq!['-', '-'] {
        (ContextModel { passthrough: true, ..c }, true)
    } else if w.len() >= 2 && w[0] == '-' && w[1] == '-' {
        (consume_long(s, c, w.skip(2)), false)
    } else if w.len() > 1 && w[0] == '-' && !ctx_accepts_negative(s, c, w) {
        (consume_short(s, c, strip_dashes(w), 0), false)
    } else if c.positionals == 0 && find_command(ctx_available(s, c), w) is Some {
        (ContextModel { commands: c.commands.push(find_command(ctx_available(s, c), w).unwrap()), ..c }, false)
    } else {
        (ContextModel { positionals: c.positionals + 1, ..c }, false)
    }
}

/// Context after the words `words[i..]`.
pub open spec fn analyze_from(s: CliSpec, c: ContextModel, words: Seq<Seq<char>>, i: int) -> ContextModel
    decreases words.len() - i,
{
    if i < 0 || i >= words.len() {
        c
    } else {
        let (c2, stop) = consume(s, c, words[i]);
        if stop { c2 } else { analyze_from(s, c2, words, i + 1) }
    }
}

/// Candidates for the values of `values` that start with `prefix`, rendered as
/// `--long=value` when `long` is given.
pub open spec fn value_cands(values: Seq<Seq<char>>, prefix: Seq<char>, long: Option<Seq<char>>) -> Seq<CandidateModel>
    decreases values.len(),
{
    if values.len() == 0 {
        seq![]
    } else {
        let rest = value_cands(values.drop_last(), prefix, long);
        let v = values.last();
        if prefix.is_prefix_of(v) {
            rest.push(CandidateModel {
                value: match long { Some(n) => "--"@ + n + "="@ + v, None => v },
                description: seq![],
                kind: CompletionKind::Value,
            })
        } else {
            rest
        }
    }
}

/// Option candidates among `vis` matching `prefix`.
pub open spec fn option_cands(vis: Seq<OptionSpec>, used: Seq<Seq<char>>, prefix: Seq<char>) -> Seq<CandidateModel>
    decreases vis.len(),
{
    if vis.len() == 0 {
        seq![]
    } else {
        let rest = option_cands(vis.drop_last(), used, prefix);
        let o = vis.last()@;
        if o.hidden || (!o.repeatable && used.contains(o.long)) {
            rest
        } else {
            let long = seq!['-', '-'] + o.long;
            let with_long = if prefix.is_prefix_of(long) {
                rest.push(CandidateModel { value: long, description: o.about, kind: CompletionKind::Option })
            } else {
                rest
            };
            match o.short {
                Some(c) => if prefix.is_prefix_of(seq!['-', c]) {
                    with_long.push(CandidateModel { value: seq!['-', c], description: o.about, kind: CompletionKind::Option })
                } else {
                    with_long
                },
                None => with_long,
            }
        }
    }
}

/// Command candidates among `cmds` matching `prefix`.
pub open spec fn command_cands(cmds: Seq<CommandSpec>, prefix: Seq<char>) -> Seq<CandidateModel>
    decreases cmds.len(),
{
    if cmds.len() == 0 {
        seq![]
    } else {
        let rest = command_cands(cmds.drop_last(), prefix);
        let c = cmds.last()@;
        if !c.hidden && prefix.is_prefix_of(c.name) {
            rest.push(CandidateModel { value: c.name, description: c.about, kind: CompletionKind::Command })
        } else {
            rest
        }
    }
}

/// Value candidates for the next positional argument.
pub open spec fn argument_cands(s: CliSpec, c: ContextModel, prefix: Seq<char>) -> Seq<CandidateModel> {
    match ctx_next_argument(s, c) {
        Some(a) => value_cands(a@.possible_values, prefix, None),
        None => seq![],
    }
}

/// Words and cursor after dropping a leading binary name.
pub open spec fn normalized(s: CliSpec, req: RequestModel) -> (Seq<Seq<char>>, int) {
    if req.words.len() > 0 && req.words[0] == s@.name {
        (req.words.skip(1), if req.cursor_word == 0 { 0 } else { req.cursor_word - 1 })
    } else {
        (req.words, req.cursor_word as int)
    }
}

/// The candidates proposed for a request.
pub open spec fn complete_spec(s: CliSpec, req: RequestModel) -> Seq<CandidateModel> {
    let (words, cursor) = normalized(s, req);
    let prefix = if cursor < words.len() { words[cursor] } else { seq![] };
    let before = words.take(if cursor < words.len() { cursor } else { words.len() as int });
    let c = analyze_from(s, empty_context(), before, 0);
    if !spec_ok(s) || c.passthrough {
        seq![]
    } else if prefix.len() >= 2 && prefix[0] == '-' && prefix[1] == '-' && first_index(prefix.skip(2), '=') is Some {
        let raw = prefix.skip(2);
        let k = first_index(raw, '=').unwrap();
        match find_long(visible_options(s, c.commands), raw.take(k)) {
            Some(o) => value_cands(o@.possible_values, raw.skip(k + 1), Some(raw.take(k))),
            None => seq![],
        }
    } else if c.pending is Some {
        value_cands(c.pending.unwrap()@.possible_values, prefix, None)
    } else if prefix.len() > 0 && prefix[0] == '-' {
        option_cands(visible_options(s, c.commands), c.used, prefix) + argument_cands(s, c, prefix)
    } else {
        (if c.positionals > 0 { seq![] } else { command_cands(ctx_available(s, c), prefix) }) + argument_cands(s, c, prefix)
    }
}


struct CompletionContext<'a> {
    spec: &'a CliSpec,
    commands: Vec<&'a CommandSpec>,
    used: Vec<String>,
    positionals: usize,
    pending: Option<&'a OptionSpec>,
    passthrough: bool,
}

/// The option behind an optional reference.
pub open spec fn deref_pending(p: Option<&OptionSpec>) -> Option<OptionSpec> {
    match p {
        Some(o) => Some(*o),
        None => None,
    }
}

impl<'a> View for CompletionContext<'a> {
    type V = ContextModel;

    closed spec fn view(&self) -> ContextModel {
        ContextModel {
            commands: deref_commands(self.commands@),
            used: strings_view(self.used@),
            positionals: self.positionals as nat,
            pending: deref_pending(self.pending),
            passthrough: self.passthrough,
        }
    }
}

/// The first command of `cmds` named or aliased `word`.
pub(crate) fn find_command_in<'a>(cmds: &'a [CommandSpec], word: &str) -> (r: Option<&'a CommandSpec>)
    ensures
        match r {
            Some(c) => find_command(cmds@, word@) == Some(*c),
            None => find_command(cmds@, word@) is None,
        },
{
    let ghost all = cmds@;
    let mut i: usize = 0;
    assert(all.skip(0) =~= all);
    while i < cmds.len()
        invariant
            i <= cmds.len(),
            all == cmds@,
            find_command(all, word@) == find_command(all.skip(i as int), word@),
        decreases cmds.len() - i,
    {
        let command = &cmds[i];
        assert(all.skip(i as int)[0] == *command);
        assert(all.skip(i as int).drop_first() =~= all.skip(i + 1));
        if command.matches(word) {
            return Some(command);
        }
        i = i + 1;
    }
    None
}

/// `w` without its leading dashes.
fn strip_dashes_exec(w: &Vec<char>) -> (r: Vec<char>)
    ensures
        r@ == strip_dashes(w@),
{
    let mut k: usize = 0;
    assert(w@.skip(0) =~= w@);
    while k < w.len() && w[k] == '-'
        invariant
            k <= w.len(),
            strip_dashes(w@) == strip_dashes(w@.skip(k as int)),
        decreases w.len() - k,
    {
        assert(w@.skip(k as int).drop_first() =~= w@.skip(k + 1));
        k = k + 1;
    }
    let r = chars_from_pos(w, k);
    r
}

/// The characters of `v` from `lo` on.
fn chars_from_pos(v: &Vec<char>, lo: usize) -> (r: Vec<char>)
    requires
        lo <= v.len(),
    ensures
        r@ == v@.skip(lo as int),
{
    let mut r: Vec<char> = Vec::new();
    let mut i = lo;
    while i < v.len()
        invariant
            lo <= i <= v.len(),
            r@ == v@.subrange(lo as int, i as int),
        decreases v.len() - i,
    {
        r.push(v[i]);
        assert(r@ =~= v@.subrange(lo as int, i + 1));
        i = i + 1;
    }
    assert(r@ =~= v@.skip(lo as int));
    r
}

impl<'a> CompletionContext<'a> {
    fn new(spec: &'a CliSpec) -> (r: Self)
        ensures
            r@ == empty_context(),
            r.spec == spec,
    {
        let r = CompletionContext { spec, commands: Vec::new(), used: Vec::new(), positionals: 0, pending: None, passthrough: false };
        assert(r@.commands =~= seq![]);
        assert(r@.used =~= seq![]);
        r
    }

    fn available_commands(&self) -> (r: &'a [CommandSpec])
        ensures
            r@ == ctx_available(*self.spec, self@),
    {
        if self.commands.len() == 0 {
            self.spec.commands()
        } else {
            let c = self.commands[self.commands.len() - 1];
            assert(self@.commands.last() == *c);
            c.commands()
        }
    }

    fn active_arguments(&self) -> (r: &'a [ArgumentSpec])
        ensures
            r@ == ctx_arguments(*self.spec, self@),
    {
        if self.commands.len() == 0 {
            self.spec.arguments()
        } else {
            let c = self.commands[self.commands.len() - 1];
            assert(self@.commands.last() == *c);
            c.arguments()
        }
    }

    fn next_argument(&self) -> (r: Option<&'a ArgumentSpec>)
        ensures
            match r {
                Some(a) => ctx_next_argument(*self.spec, self@) == Some(*a),
                None => ctx_next_argument(*self.spec, self@) is None,
            },
    {
        let args = self.active_arguments();
        if self.positionals < args.len() {
            Some(&args[self.positionals])
        } else if args.len() > 0 && args[args.len() - 1].is_multiple() {
            Some(&args[args.len() - 1])
        } else {
            None
        }
    }

    fn accepts_negative_positional(&self, value: &Vec<char>) -> (r: bool)
        ensures
            r == ctx_accepts_negative(*self.spec, self@, value@),
    {
        match self.next_argument() {
            None => false,
            Some(argument) => {
                argument.value_type_kind() == ValueType::I64 && is_i64(value) && (value.len() < 2
                    || find_short_in(self.spec, &self.commands, value[1]).is_none())
            },
        }
    }

    fn mark_used(&mut self, long: &str)
        ensures
            final(self).positionals == old(self).positionals,
            final(self)@ == (ContextModel { used: old(self)@.used.push(long@), ..old(self)@ }),
            final(self).spec == old(self).spec,
    {
        let ghost before = self.used@;
        let x = owned(long);
        self.used.push(x);
        proof {
            crate::cli::spec::lemma_strings_view_push(before, x);
        }
    }

    fn consume_long(&mut self, raw: &Vec<char>)
        ensures
            final(self).positionals == old(self).positionals,
            final(self)@ == consume_long(*old(self).spec, old(self)@, raw@),
            final(self).spec == old(self).spec,
    {
        let eq = find_char(raw, '=');
        proof {
            lemma_first_index_props(raw@, '=');
        }
        let name = match eq {
            Some(k) => string_from(raw, 0, k),
            None => string_from(raw, 0, raw.len()),
        };
        proof {
            lemma_first_index_props(raw@, '=');
            if let Some(k) = first_index(raw@, '=') {
                assert(raw@.subrange(0, k) =~= raw@.take(k));
            } else {
                assert(raw@.subrange(0, raw@.len() as int) =~= raw@);
            }
        }
        if let Some(option) = find_long_in(self.spec, &self.commands, name.as_str()) {
            self.mark_used(option.long());
            if option.value_mode() == ValueMode::Required && eq.is_none() {
                self.pending = Some(option);
            }
        }
    }

    fn consume_short(&mut self, raw: &Vec<char>)
        ensures
            final(self).positionals == old(self).positionals,
            final(self)@ == consume_short(*old(self).spec, old(self)@, raw@, 0),
            final(self).spec == old(self).spec,
    {
        let ghost target = consume_short(*self.spec, self@, raw@, 0);
        let mut p: usize = 0;
        while p < raw.len()
            invariant
                p <= raw.len(),
                self.spec == old(self).spec,
                self.positionals == old(self).positionals,
                target == consume_short(*old(self).spec, old(self)@, raw@, 0),
                target == consume_short(*self.spec, self@, raw@, p as int),
            decreases raw.len() - p,
        {
            let option = match find_short_in(self.spec, &self.commands, raw[p]) {
                Some(o) => o,
                None => {
                    return;
                },
            };
            self.mark_used(option.long());
            if option.value_mode() != ValueMode::Forbidden {
                if p + 1 >= raw.len() && option.value_mode() == ValueMode::Required {
                    self.pending = Some(option);
                }
                return;
            }
            p = p + 1;
        }
    }

    fn consume(&mut self, word: &str) -> (r: bool)
        requires
            old(self).positionals < usize::MAX,
        ensures
            (final(self)@, r) == consume(*old(self).spec, old(self)@, word@),
            final(self).spec == old(self).spec,
            final(self).positionals <= old(self).positionals + 1,
    {
        if self.pending.is_some() {
            self.pending = None;
            return false;
        }
        let w = chars_of(word);
        if w.len() == 2 && w[0] == '-' && w[1] == '-' {
            assert(w@ =~= seq!['-', '-']);
            self.passthrough = true;
            return true;
        }
        assert(!(w@ =~= seq!['-', '-']) || w.len() == 2);
        if w.len() >= 2 && w[0] == '-' && w[1] == '-' {
            let raw = chars_from_pos(&w, 2);
            self.consume_long(&raw);
            return false;
        }
        if w.len() > 1 && w[0] == '-' && !self.accepts_negative_positional(&w) {
            let raw = strip_dashes_exec(&w);
            self.consume_short(&raw);
            return false;
        }
        if self.positionals == 0 {
            if let Some(command) = find_command_in(self.available_commands(), word) {
                let ghost before = self.commands@;
                self.commands.push(command);
                assert(deref_commands(self.commands@) =~= deref_commands(before).push(*command));
                return false;
            }
        }
        self.positionals = self.positionals + 1;
        false
    }
}


/// The view of an optional string slice.
pub open spec fn opt_str_view(v: Option<&str>) -> Option<Seq<char>> {
    match v {
        Some(s) => Some(s@),
        None => None,
    }
}

/// Candidates for the possible values starting with `prefix`.
fn value_candidates(values: &[String], prefix: &str, long_option: Option<&str>) -> (r: Vec<CompletionCandidate>)
    ensures
        candidates_view(r@) == value_cands(strings_view(values@), prefix@, opt_str_view(long_option)),
{
    let ghost vs = strings_view(values@);
    let p = chars_of(prefix);
    let mut r: Vec<CompletionCandidate> = Vec::new();
    let mut i: usize = 0;
    assert(vs.take(0) =~= seq![]);
    assert(candidates_view(r@) =~= seq![]);
    while i < values.len()
        invariant
            i <= values.len(),
            vs == strings_view(values@),
            p@ == prefix@,
            candidates_view(r@) == value_cands(vs.take(i as int), prefix@, opt_str_view(long_option)),
        decreases values.len() - i,
    {
        let value = values[i].as_str();
        assert(vs.take(i + 1).drop_last() =~= vs.take(i as int));
        assert(vs.take(i + 1).last() == value@);
        let v = chars_of(value);
        if chars_start_with(&v, &p) {
            let rendered = match long_option {
                Some(name) => {
                    let mut m = owned("--");
                    push_str(&mut m, name);
                    push_str(&mut m, "=");
                    push_str(&mut m, value);
                    m
                },
                None => owned(value),
            };
            let c = CompletionCandidate::new(rendered.as_str(), "", CompletionKind::Value);
            let ghost before = r@;
            r.push(c);
            assert(candidates_view(r@) =~= candidates_view(before).push(c@));
            assert(""@ =~= Seq::<char>::empty()) by {
                reveal_strlit("");
            }
        }
        i = i + 1;
    }
    assert(vs.take(values.len() as int) =~= vs);
    r
}

impl<'a> CompletionContext<'a> {
    fn push_options(&self, prefix: &str, candidates: &mut Vec<CompletionCandidate>)
        ensures
            candidates_view(final(candidates)@) == candidates_view(old(candidates)@) + option_cands(
                visible_options(*self.spec, self@.commands),
                self@.used,
                prefix@,
            ),
    {
        let vis = visible_for(self.spec, &self.commands);
        let ghost all = deref_options(vis@);
        let ghost start = candidates_view(candidates@);
        let p = chars_of(prefix);
        let mut i: usize = 0;
        assert(all.take(0) =~= seq![]);
        assert(start + option_cands(all.take(0), self@.used, prefix@) =~= start);
        while i < vis.len()
            invariant
                i <= vis.len(),
                all == deref_options(vis@),
                all == visible_options(*self.spec, self@.commands),
                p@ == prefix@,
                start == candidates_view(old(candidates)@),
                candidates_view(candidates@) == start + option_cands(all.take(i as int), self@.used, prefix@),
            decreases vis.len() - i,
        {
            let option = vis[i];
            assert(all.take(i + 1).drop_last() =~= all.take(i as int));
            assert(all.take(i + 1).last() == *option);
            let skip = option.is_hidden() || (!option.is_repeatable() && crate::cli::value::contains_value(self.used.as_slice(), option.long()));
            if !skip {
                let mut long = String::new();
                push_char(&mut long, '-');
                push_char(&mut long, '-');
                push_str(&mut long, option.long());
                assert(long@ =~= seq!['-', '-'] + option@.long);
                let lv = chars_of(long.as_str());
                if chars_start_with(&lv, &p) {
                    let c = CompletionCandidate::new(long.as_str(), option.about_text(), CompletionKind::Option);
                    let ghost before = candidates@;
                    candidates.push(c);
                    assert(candidates_view(candidates@) =~= candidates_view(before).push(c@));
                }
                if let Some(short) = option.short_name() {
                    let mut sh = String::new();
                    push_char(&mut sh, '-');
                    push_char(&mut sh, short);
                    assert(sh@ =~= seq!['-', short]);
                    let sv = chars_of(sh.as_str());
                    if chars_start_with(&sv, &p) {
                        let c = CompletionCandidate::new(sh.as_str(), option.about_text(), CompletionKind::Option);
                        let ghost before = candidates@;
                        candidates.push(c);
                        assert(candidates_view(candidates@) =~= candidates_view(before).push(c@));
                    }
                }
            }
            assert(candidates_view(candidates@) =~= start + option_cands(all.take(i + 1), self@.used, prefix@));
            i = i + 1;
        }
        assert(all.take(vis.len() as int) =~= all);
    }

    fn push_commands(&self, prefix: &str, candidates: &mut Vec<CompletionCandidate>)
        ensures
            candidates_view(final(candidates)@) == candidates_view(old(candidates)@) + (if self@.positionals > 0 {
                seq![]
            } else {
                command_cands(ctx_available(*self.spec, self@), prefix@)
            }),
    {
        if self.positionals > 0 {
            assert(candidates_view(candidates@) + seq![] =~= candidates_view(candidates@));
            return;
        }
        let commands = self.available_commands();
        let ghost all = commands@;
        let ghost start = candidates_view(candidates@);
        let p = chars_of(prefix);
        let mut i: usize = 0;
        assert(all.take(0) =~= seq![]);
        assert(start + command_cands(all.take(0), prefix@) =~= start);
        while i < commands.len()
            invariant
                i <= commands.len(),
                all == commands@,
                p@ == prefix@,
                start == candidates_view(old(candidates)@),
                candidates_view(candidates@) == start + command_cands(all.take(i as int), prefix@),
            decreases commands.len() - i,
        {
            let command = &commands[i];
            assert(all.take(i + 1).drop_last() =~= all.take(i as int));
            assert(all.take(i + 1).last() == *command);
            let name = chars_of(command.name());
            if !command.is_hidden() && chars_start_with(&name, &p) {
                let c = CompletionCandidate::new(command.name(), command.about_text(), CompletionKind::Command);
                let ghost before = candidates@;
                candidates.push(c);
                assert(candidates_view(candidates@) =~= candidates_view(before).push(c@));
            }
            assert(candidates_view(candidates@) =~= start + command_cands(all.take(i + 1), prefix@));
            i = i + 1;
        }
        assert(all.take(commands.len() as int) =~= all);
    }

    fn push_argument_values(&self, prefix: &str, candidates: &mut Vec<CompletionCandidate>)
        ensures
            candidates_view(final(candidates)@) == candidates_view(old(candidates)@) + argument_cands(*self.spec, self@, prefix@),
    {
        match self.next_argument() {
            Some(argument) => {
                let mut more = value_candidates(argument.possible_values(), prefix, None);
                let ghost before = candidates@;
                let ghost added = more@;
                candidates.append(&mut more);
                assert(candidates_view(candidates@) =~= candidates_view(before) + candidates_view(added));
            },
            None => {
                assert(candidates_view(candidates@) + seq![] =~= candidates_view(candidates@));
            },
        }
    }
}


/// Context after the given words, stopping at `--`.
fn analyze<'a>(spec: &'a CliSpec, words: &[String]) -> (r: CompletionContext<'a>)
    ensures
        r@ == analyze_from(*spec, empty_context(), strings_view(words@), 0),
        r.spec == spec,
{
    let ghost w = strings_view(words@);
    let mut context = CompletionContext::new(spec);
    let ghost target = analyze_from(*spec, empty_context(), w, 0);
    let mut i: usize = 0;
    while i < words.len()
        invariant
            i <= words.len(),
            w == strings_view(words@),
            context.spec == spec,
            context.positionals <= i,
            target == analyze_from(*spec, empty_context(), w, 0),
            target == analyze_from(*spec, context@, w, i as int),
        decreases words.len() - i,
    {
        assert(w[i as int] == words@[i as int]@);
        let stop = context.consume(words[i].as_str());
        assert(context.positionals <= i + 1);
        if stop {
            return context;
        }
        i = i + 1;
    }
    context
}

/// A copy of `words[lo..hi]`.
fn copy_range(words: &[String], lo: usize, hi: usize) -> (r: Vec<String>)
    requires
        lo <= hi <= words.len(),
    ensures
        strings_view(r@) == strings_view(words@).subrange(lo as int, hi as int),
{
    let mut r: Vec<String> = Vec::new();
    let mut i = lo;
    while i < hi
        invariant
            lo <= i <= hi <= words.len(),
            strings_view(r@) == strings_view(words@).subrange(lo as int, i as int),
        decreases hi - i,
    {
        let ghost before = r@;
        let x = words[i].clone();
        r.push(x);
        proof {
            crate::cli::spec::lemma_strings_view_push(before, x);
            assert(strings_view(words@).subrange(lo as int, i + 1) =~= strings_view(words@).subrange(lo as int, i as int).push(words@[i as int]@));
        }
        i = i + 1;
    }
    r
}

impl<'a> CompletionEngine<'a> {
    /// An engine for `spec`.
    pub fn new(spec: &'a CliSpec) -> (r: Self)
        ensures
            r.spec() == *spec,
    {
        CompletionEngine { spec }
    }

    /// The specification this engine follows.
    pub closed spec fn spec(&self) -> CliSpec {
        *self.spec
    }

    /// Candidates for the word under the cursor; none for an invalid specification.
    pub fn complete(&self, request: &CompletionRequest) -> (r: Vec<CompletionCandidate>)
        ensures
            candidates_view(r@) == complete_spec(self.spec(), request@),
    {
        if self.spec.validate().is_err() {
            return Vec::new();
        }
        let ghost (nw, nc) = normalized(*self.spec, request@);
        let all = request.words();
        let drop_first = all.len() > 0 && text_eq(all[0].as_str(), self.spec.name());
        let words = if drop_first {
            copy_range(all, 1, all.len())
        } else {
            copy_range(all, 0, all.len())
        };
        let cursor = if drop_first {
            if request.cursor_word() == 0 { 0 } else { request.cursor_word() - 1 }
        } else {
            request.cursor_word()
        };
        proof {
            assert(strings_view(all@) == request@.words);
            if drop_first {
                assert(strings_view(all@)[0] == all@[0]@);
                assert(strings_view(all@).subrange(1, all@.len() as int) =~= request@.words.skip(1));
            } else {
                assert(strings_view(all@).subrange(0, all@.len() as int) =~= request@.words);
                if all@.len() > 0 {
                    assert(strings_view(all@)[0] == all@[0]@);
                }
            }
        }
        assert(strings_view(words@) == nw);
        assert(cursor as int == nc);
        let prefix: String = if cursor < words.len() { words[cursor].clone() } else { String::new() };
        let end = if cursor < words.len() { cursor } else { words.len() };
        let before = copy_range(words.as_slice(), 0, end);
        assert(strings_view(words@).subrange(0, end as int) =~= nw.take(end as int));
        let context = analyze(self.spec, before.as_slice());
        if context.passthrough {
            return Vec::new();
        }
        let pv = chars_of(prefix.as_str());
        if pv.len() >= 2 && pv[0] == '-' && pv[1] == '-' {
            let raw = chars_from_pos(&pv, 2);
            if let Some(k) = find_char(&raw, '=') {
                proof {
                    lemma_first_index_props(raw@, '=');
                    assert(raw@.subrange(0, k as int) =~= raw@.take(k as int));
                    assert(raw@.subrange(k + 1, raw@.len() as int) =~= raw@.skip(k + 1));
                }
                let name = string_from(&raw, 0, k);
                let value_prefix = string_from(&raw, k + 1, raw.len());
                return match find_long_in(self.spec, &context.commands, name.as_str()) {
                    Some(option) => value_candidates(option.possible_values(), value_prefix.as_str(), Some(name.as_str())),
                    None => Vec::new(),
                };
            }
        }
        if let Some(option) = context.pending {
            return value_candidates(option.possible_values(), prefix.as_str(), None);
        }
        let mut candidates: Vec<CompletionCandidate> = Vec::new();
        assert(candidates_view(candidates@) =~= seq![]);
        if pv.len() > 0 && pv[0] == '-' {
            context.push_options(prefix.as_str(), &mut candidates);
            context.push_argument_values(prefix.as_str(), &mut candidates);
            return candidates;
        }
        context.push_commands(prefix.as_str(), &mut candidates);
        context.push_argument_values(prefix.as_str(), &mut candidates);
        candidates
    }
}

} // verus!
