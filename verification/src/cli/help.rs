use crate::cli::completion::find_command_in;
use crate::cli::parser::{deref_commands, deref_options, find_command, visible_for, visible_options};
use crate::cli::spec::{ArgumentSpec, CliSpec, CommandSpec, OptionSpec, SpecError, ValueMode};
use crate::cli::validation::{spec_ok, spec_problem};
use crate::text::{owned, push_char, push_str, utf8_len};
use vstd::prelude::*;

verus! {

/// Renders help text for a specification.
pub struct HelpRenderer<'a> {
    spec: &'a CliSpec,
    width: usize,
}

/// Abstract content of a [`HelpRenderer`]: the specification and the line width.
pub struct HelpModel {
    pub spec: CliSpec,
    pub width: nat,
}

impl<'a> View for HelpRenderer<'a> {
    type V = HelpModel;

    closed spec fn view(&self) -> HelpModel {
        HelpModel { spec: *self.spec, width: self.width as nat }
    }
}

/// The view of a list of string slices.
pub open spec fn path_view(path: Seq<&str>) -> Seq<Seq<char>> {
    path.map_values(|s: &str| s@)
}

/// Commands selected by the first `n` names of `path`, or `None` when one is unknown.
pub open spec fn resolve(s: CliSpec, path: Seq<Seq<char>>, n: int) -> Option<Seq<CommandSpec>>
    decreases n,
{
    if n <= 0 {
        Some(seq![])
    } else {
        match resolve(s, path, n - 1) {
            None => None,
            Some(done) => {
                let cmds = if done.len() == 0 { s@.commands } else { done.last()@.commands };
                match find_command(cmds, path[n - 1]) {
                    Some(c) => Some(done.push(c)),
                    None => None,
                }
            },
        }
    }
}

/// `n` spaces.
pub open spec fn spaces(n: nat) -> Seq<char> {
    Seq::new(n, |i: int| ' ')
}

/// Usage form of an argument: `<name>` or `[name]`, with `...` when variadic.
pub open spec fn argument_usage(a: ArgumentSpec) -> Seq<char> {
    let suffix = if a@.multiple { "..."@ } else { seq![] };
    if a@.required {
        seq!['<'] + a@.name + suffix + seq!['>']
    } else {
        seq!['['] + a@.name + suffix + seq![']']
    }
}

/// Usage form of an option: `-s, --long <VALUE>`.
pub open spec fn option_usage(o: OptionSpec) -> Seq<char> {
    let short = match o@.short {
        Some(c) => seq!['-', c, ',', ' '],
        None => seq![],
    };
    let value = match o@.value {
        ValueMode::Forbidden => seq![],
        ValueMode::Required => " <"@ + o@.value_name + ">"@,
        ValueMode::Optional => "[=<"@ + o@.value_name + ">]"@,
    };
    short + seq!['-', '-'] + o@.long + value
}

/// Longest label, in bytes.
pub open spec fn max_label(rows: Seq<(Seq<char>, Seq<char>)>) -> nat
    decreases rows.len(),
{
    if rows.len() == 0 {
        0
    } else {
        let m = max_label(rows.drop_last());
        let l = utf8_len(rows.last().0);
        if l > m { l } else { m }
    }
}

/// Lines of a table whose labels are padded to `label_width` bytes.
pub open spec fn rows_text(rows: Seq<(Seq<char>, Seq<char>)>, label_width: nat) -> Seq<char>
    decreases rows.len(),
{
    if rows.len() == 0 {
        seq![]
    } else {
        let (label, about) = rows.last();
        let pad = if label_width >= utf8_len(label) { (label_width - utf8_len(label)) as nat } else { 0 };
        rows_text(rows.drop_last(), label_width) + seq![' ', ' '] + label + spaces(pad + 2) + about + seq!['\n']
    }
}

/// A titled table, or nothing when it has no row.
pub open spec fn section(title: Seq<char>, rows: Seq<(Seq<char>, Seq<char>)>, width: nat) -> Seq<char> {
    if rows.len() == 0 {
        seq![]
    } else {
        let lw = if max_label(rows) <= width / 2 { max_label(rows) } else { width / 2 };
        seq!['\n'] + title + seq![':', '\n'] + rows_text(rows, lw)
    }
}

/// Rows for the visible commands.
pub open spec fn command_rows(cmds: Seq<CommandSpec>) -> Seq<(Seq<char>, Seq<char>)>
    decreases cmds.len(),
{
    if cmds.len() == 0 {
        seq![]
    } else {
        let rest = command_rows(cmds.drop_last());
        if cmds.last()@.hidden { rest } else { rest.push((cmds.last()@.name, cmds.last()@.about)) }
    }
}

/// Rows for the arguments.
pub open spec fn argument_rows(args: Seq<ArgumentSpec>) -> Seq<(Seq<char>, Seq<char>)> {
    args.map_values(|a: ArgumentSpec| (argument_usage(a), a@.about))
}

/// Rows for the visible options.
pub open spec fn option_rows(opts: Seq<OptionSpec>) -> Seq<(Seq<char>, Seq<char>)>
    decreases opts.len(),
{
    if opts.len() == 0 {
        seq![]
    } else {
        let rest = option_rows(opts.drop_last());
        if opts.last()@.hidden { rest } else { rest.push((option_usage(opts.last()), opts.last()@.about)) }
    }
}

/// Usage forms of the arguments, each after a space.
pub open spec fn arguments_usage(args: Seq<ArgumentSpec>) -> Seq<char>
    decreases args.len(),
{
    if args.len() == 0 {
        seq![]
    } else {
        arguments_usage(args.drop_last()) + seq![' '] + argument_usage(args.last())
    }
}

/// The full name shown for a command path.
pub open spec fn full_name(binary: Seq<char>, path: Seq<Seq<char>>) -> Seq<char> {
    if path.len() == 0 {
        binary
    } else {
        binary + seq![' '] + crate::cli::value::joined(path, seq![' '])
    }
}

/// The scope that help describes: the last resolved command, or the root.
pub open spec fn scope_about(s: CliSpec, resolved: Seq<CommandSpec>) -> Seq<char> {
    if resolved.len() == 0 { s@.about } else { resolved.last()@.about }
}

/// Subcommands of the described scope.
pub open spec fn scope_commands(s: CliSpec, resolved: Seq<CommandSpec>) -> Seq<CommandSpec> {
    if resolved.len() == 0 { s@.commands } else { resolved.last()@.commands }
}

/// Arguments of the described scope.
pub open spec fn scope_arguments(s: CliSpec, resolved: Seq<CommandSpec>) -> Seq<ArgumentSpec> {
    if resolved.len() == 0 { s@.arguments } else { resolved.last()@.arguments }
}

/// Whether the described scope requires a subcommand.
pub open spec fn scope_required(s: CliSpec, resolved: Seq<CommandSpec>) -> bool {
    if resolved.len() == 0 { s@.command_required } else { resolved.last()@.command_required }
}

/// First lines of help: name, version, and the description when there is one.
pub open spec fn heading(s: CliSpec, resolved: Seq<CommandSpec>, name: Seq<char>) -> Seq<char> {
    let about = scope_about(s, resolved);
    name + match s@.version {
        Some(v) => seq![' '] + v,
        None => seq![],
    } + seq!['\n'] + if about.len() == 0 { seq![] } else { about + seq!['\n', '\n'] }
}

/// The usage line, without its leading indentation.
pub open spec fn usage_line(s: CliSpec, resolved: Seq<CommandSpec>, name: Seq<char>) -> Seq<char> {
    let cmds = scope_commands(s, resolved);
    name + (if visible_options(s, resolved).len() > 0 { " [OPTIONS]"@ } else { seq![] }) + (if cmds.len()
        > 0 {
        if scope_required(s, resolved) { " <COMMAND>"@ } else { " [COMMAND]"@ }
    } else {
        seq![]
    }) + arguments_usage(scope_arguments(s, resolved))
}

/// Help text for a resolved command path.
pub open spec fn help_text(s: CliSpec, width: nat, resolved: Seq<CommandSpec>, name: Seq<char>) -> Seq<char> {
    heading(s, resolved, name) + "Usage:\n  "@ + usage_line(s, resolved, name) + seq!['\n']
        + section("Commands"@, command_rows(scope_commands(s, resolved)), width)
        + section("Arguments"@, argument_rows(scope_arguments(s, resolved)), width)
        + section("Options"@, option_rows(visible_options(s, resolved)), width)
}

/// The help text for `path`, or `None` when the specification is invalid or the path unknown.
pub open spec fn help_spec(s: CliSpec, width: nat, path: Seq<Seq<char>>) -> Option<Seq<char>> {
    if !spec_ok(s) {
        None
    } else {
        match resolve(s, path, path.len() as int) {
            None => None,
            Some(resolved) => Some(help_text(s, width, resolved, full_name(s@.name, path))),
        }
    }
}


/// Diagnostic for a help path that names no command.
pub open spec fn unknown_command_message(path: Seq<Seq<char>>) -> Seq<char> {
    "unknown help command `"@ + crate::cli::value::joined(path, seq![' ']) + "`"@
}

/// Rows made of parallel lists of labels and descriptions.
pub open spec fn rows_of(labels: Seq<String>, abouts: Seq<&str>) -> Seq<(Seq<char>, Seq<char>)> {
    Seq::new(labels.len(), |i: int| (labels[i]@, abouts[i]@))
}

proof fn lemma_resolve_none(s: CliSpec, path: Seq<Seq<char>>, i: int, n: int)
    requires
        resolve(s, path, i) is None,
        0 <= i <= n,
    ensures
        resolve(s, path, n) is None,
    decreases n - i,
{
    if n > i {
        lemma_resolve_none(s, path, i, n - 1);
    }
}

proof fn lemma_rows_push(labels: Seq<String>, abouts: Seq<&str>, l: String, a: &str)
    requires
        labels.len() == abouts.len(),
    ensures
        rows_of(labels.push(l), abouts.push(a)) == rows_of(labels, abouts).push((l@, a@)),
{
    assert(rows_of(labels.push(l), abouts.push(a)) =~= rows_of(labels, abouts).push((l@, a@)));
}

/// The commands named by `path`, one per name, or `None` when a name is unknown.
fn resolve_path<'b>(spec: &'b CliSpec, path: &[&str]) -> (r: Option<Vec<&'b CommandSpec>>)
    ensures
        match r {
            Some(v) => resolve(*spec, path_view(path@), path@.len() as int) == Some(deref_commands(v@)),
            None => resolve(*spec, path_view(path@), path@.len() as int) is None,
        },
{
    let ghost pv = path_view(path@);
    let mut resolved: Vec<&'b CommandSpec> = Vec::new();
    assert(deref_commands(resolved@) =~= seq![]);
    let mut i: usize = 0;
    while i < path.len()
        invariant
            i <= path.len(),
            pv == path_view(path@),
            resolve(*spec, pv, i as int) == Some(deref_commands(resolved@)),
        decreases path.len() - i,
    {
        let n = resolved.len();
        let cmds: &'b [CommandSpec] = if n == 0 {
            spec.commands()
        } else {
            let last: &'b CommandSpec = resolved[n - 1];
            last.commands()
        };
        assert(pv[i as int] == path@[i as int]@);
        proof {
            if n > 0 {
                assert(deref_commands(resolved@).last() == *resolved@[n - 1]);
            }
        }
        match find_command_in(cmds, path[i]) {
            Some(c) => {
                let ghost before = resolved@;
                resolved.push(c);
                assert(deref_commands(resolved@) =~= deref_commands(before).push(*c));
            },
            None => {
                proof {
                    lemma_resolve_none(*spec, pv, i + 1, path@.len() as int);
                }
                return None;
            },
        }
        i = i + 1;
    }
    Some(resolved)
}

/// Appends the names of `path` separated by single spaces.
fn push_joined(out: &mut String, path: &[&str])
    ensures
        final(out)@ == old(out)@ + crate::cli::value::joined(path_view(path@), seq![' ']),
{
    let ghost pv = path_view(path@);
    let ghost start = out@;
    assert(pv.take(0) =~= seq![]);
    assert(start + seq![] =~= start);
    let mut i: usize = 0;
    while i < path.len()
        invariant
            i <= path.len(),
            pv == path_view(path@),
            start == old(out)@,
            out@ == start + crate::cli::value::joined(pv.take(i as int), seq![' ']),
        decreases path.len() - i,
    {
        let ghost before = out@;
        assert(pv[i as int] == path@[i as int]@);
        assert(pv.take(i + 1).drop_last() =~= pv.take(i as int));
        if i != 0 {
            push_char(out, ' ');
        }
        push_str(out, path[i]);
        proof {
            if i == 0 {
                assert(pv.take(1) =~= seq![pv[0]]);
            }
            assert(out@ =~= start + crate::cli::value::joined(pv.take(i + 1), seq![' ']));
        }
        i = i + 1;
    }
    assert(pv.take(path.len() as int) =~= pv);
}

/// The binary name followed by the command path.
fn full_name_exec(binary: &str, path: &[&str]) -> (r: String)
    ensures
        r@ == full_name(binary@, path_view(path@)),
{
    let mut r = owned(binary);
    if path.len() == 0 {
        return r;
    }
    push_char(&mut r, ' ');
    push_joined(&mut r, path);
    r
}

/// Usage form of an argument.
fn argument_usage_exec(a: &ArgumentSpec) -> (r: String)
    ensures
        r@ == argument_usage(*a),
{
    let mut r = String::new();
    if a.is_required() {
        push_char(&mut r, '<');
    } else {
        push_char(&mut r, '[');
    }
    push_str(&mut r, a.name());
    if a.is_multiple() {
        push_str(&mut r, "...");
    }
    if a.is_required() {
        push_char(&mut r, '>');
    } else {
        push_char(&mut r, ']');
    }
    assert(r@ =~= argument_usage(*a));
    r
}

/// Usage form of an option.
fn option_usage_exec(o: &OptionSpec) -> (r: String)
    ensures
        r@ == option_usage(*o),
{
    let mut r = String::new();
    match o.short_name() {
        Some(c) => {
            push_char(&mut r, '-');
            push_char(&mut r, c);
            push_char(&mut r, ',');
            push_char(&mut r, ' ');
        },
        None => {},
    }
    push_char(&mut r, '-');
    push_char(&mut r, '-');
    push_str(&mut r, o.long());
    match o.value_mode() {
        ValueMode::Forbidden => {},
        ValueMode::Required => {
            push_str(&mut r, " <");
            push_str(&mut r, o.value_name_text());
            push_str(&mut r, ">");
        },
        ValueMode::Optional => {
            push_str(&mut r, "[=<");
            push_str(&mut r, o.value_name_text());
            push_str(&mut r, ">]");
        },
    }
    assert(r@ =~= option_usage(*o));
    r
}

/// Appends the usage forms of the arguments, each after a space.
fn push_arguments_usage(out: &mut String, args: &[ArgumentSpec])
    ensures
        final(out)@ == old(out)@ + arguments_usage(args@),
{
    let ghost start = out@;
    assert(args@.take(0) =~= seq![]);
    assert(start + seq![] =~= start);
    let mut i: usize = 0;
    while i < args.len()
        invariant
            i <= args.len(),
            start == old(out)@,
            out@ == start + arguments_usage(args@.take(i as int)),
        decreases args.len() - i,
    {
        assert(args@.take(i + 1).drop_last() =~= args@.take(i as int));
        push_char(out, ' ');
        let u = argument_usage_exec(&args[i]);
        push_str(out, u.as_str());
        assert(out@ =~= start + arguments_usage(args@.take(i + 1)));
        i = i + 1;
    }
    assert(args@.take(args.len() as int) =~= args@);
}

/// Labels and descriptions of the visible commands.
fn command_rows_exec<'b>(cmds: &'b [CommandSpec]) -> (r: (Vec<String>, Vec<&'b str>))
    ensures
        r.0.len() == r.1.len(),
        rows_of(r.0@, r.1@) == command_rows(cmds@),
{
    let mut labels: Vec<String> = Vec::new();
    let mut abouts: Vec<&'b str> = Vec::new();
    assert(rows_of(labels@, abouts@) =~= command_rows(cmds@.take(0)));
    let mut i: usize = 0;
    while i < cmds.len()
        invariant
            i <= cmds.len(),
            labels.len() == abouts.len(),
            rows_of(labels@, abouts@) == command_rows(cmds@.take(i as int)),
        decreases cmds.len() - i,
    {
        let c: &'b CommandSpec = &cmds[i];
        assert(cmds@.take(i + 1).drop_last() =~= cmds@.take(i as int));
        assert(cmds@.take(i + 1).last() == *c);
        if !c.is_hidden() {
            let l = owned(c.name());
            let a = c.about_text();
            proof {
                lemma_rows_push(labels@, abouts@, l, a);
            }
            labels.push(l);
            abouts.push(a);
        }
        i = i + 1;
    }
    assert(cmds@.take(cmds.len() as int) =~= cmds@);
    (labels, abouts)
}

/// Labels and descriptions of the arguments.
fn argument_rows_exec<'b>(args: &'b [ArgumentSpec]) -> (r: (Vec<String>, Vec<&'b str>))
    ensures
        r.0.len() == r.1.len(),
        rows_of(r.0@, r.1@) == argument_rows(args@),
{
    let mut labels: Vec<String> = Vec::new();
    let mut abouts: Vec<&'b str> = Vec::new();
    assert(rows_of(labels@, abouts@) =~= argument_rows(args@.take(0)));
    let mut i: usize = 0;
    while i < args.len()
        invariant
            i <= args.len(),
            labels.len() == abouts.len(),
            labels.len() == i,
            rows_of(labels@, abouts@) == argument_rows(args@.take(i as int)),
        decreases args.len() - i,
    {
        let a: &'b ArgumentSpec = &args[i];
        let l = argument_usage_exec(a);
        let d = a.about_text();
        proof {
            lemma_rows_push(labels@, abouts@, l, d);
            assert(argument_rows(args@.take(i + 1)) =~= argument_rows(args@.take(i as int)).push(
                (argument_usage(*a), a@.about),
            ));
        }
        labels.push(l);
        abouts.push(d);
        i = i + 1;
    }
    assert(args@.take(args.len() as int) =~= args@);
    (labels, abouts)
}

/// Labels and descriptions of the visible options.
fn option_rows_exec<'b>(opts: &Vec<&'b OptionSpec>) -> (r: (Vec<String>, Vec<&'b str>))
    ensures
        r.0.len() == r.1.len(),
        rows_of(r.0@, r.1@) == option_rows(deref_options(opts@)),
{
    let ghost all = deref_options(opts@);
    let mut labels: Vec<String> = Vec::new();
    let mut abouts: Vec<&'b str> = Vec::new();
    assert(rows_of(labels@, abouts@) =~= option_rows(all.take(0)));
    let mut i: usize = 0;
    while i < opts.len()
        invariant
            i <= opts.len(),
            all == deref_options(opts@),
            labels.len() == abouts.len(),
            rows_of(labels@, abouts@) == option_rows(all.take(i as int)),
        decreases opts.len() - i,
    {
        let o: &'b OptionSpec = opts[i];
        assert(all.take(i + 1).drop_last() =~= all.take(i as int));
        assert(all.take(i + 1).last() == *o);
        if !o.is_hidden() {
            let l = option_usage_exec(o);
            let a = o.about_text();
            proof {
                lemma_rows_push(labels@, abouts@, l, a);
            }
            labels.push(l);
            abouts.push(a);
        }
        i = i + 1;
    }
    assert(all.take(opts.len() as int) =~= all);
    (labels, abouts)
}

/// Appends `n` spaces.
fn push_spaces(out: &mut String, n: usize)
    ensures
        final(out)@ == old(out)@ + spaces(n as nat),
{
    let ghost start = out@;
    let mut i: usize = 0;
    assert(start + spaces(0) =~= start);
    while i < n
        invariant
            i <= n,
            start == old(out)@,
            out@ == start + spaces(i as nat),
        decreases n - i,
    {
        push_char(out, ' ');
        assert(out@ =~= start + spaces((i + 1) as nat));
        i = i + 1;
    }
}

/// Appends a titled table of rows, labels padded to a common width.
fn render_rows(out: &mut String, title: &str, labels: &Vec<String>, abouts: &Vec<&str>, width: usize)
    requires
        labels.len() == abouts.len(),
    ensures
        final(out)@ == old(out)@ + section(title@, rows_of(labels@, abouts@), width as nat),
{
    let ghost rows = rows_of(labels@, abouts@);
    if labels.len() == 0 {
        assert(old(out)@ + seq![] =~= old(out)@);
        return;
    }
    let mut m: usize = 0;
    let mut i: usize = 0;
    assert(rows.take(0) =~= seq![]);
    while i < labels.len()
        invariant
            i <= labels.len(),
            labels.len() == abouts.len(),
            rows == rows_of(labels@, abouts@),
            m as nat == max_label(rows.take(i as int)),
        decreases labels.len() - i,
    {
        let len = labels[i].as_str().as_bytes().len();
        assert(rows.take(i + 1).drop_last() =~= rows.take(i as int));
        assert(rows.take(i + 1).last() == rows[i as int]);
        assert(len == utf8_len(rows[i as int].0));
        if len > m {
            m = len;
        }
        i = i + 1;
    }
    assert(rows.take(labels.len() as int) =~= rows);
    let half = width / 2;
    let lw = if m <= half { m } else { half };
    let ghost head = old(out)@;
    push_char(out, '\n');
    push_str(out, title);
    push_char(out, ':');
    push_char(out, '\n');
    let ghost base = out@;
    assert(base =~= head + (seq!['\n'] + title@ + seq![':', '\n']));
    assert(base + seq![] =~= base);
    let mut k: usize = 0;
    while k < labels.len()
        invariant
            k <= labels.len(),
            labels.len() == abouts.len(),
            rows == rows_of(labels@, abouts@),
            lw <= half,
            half == width / 2,
            out@ == base + rows_text(rows.take(k as int), lw as nat),
        decreases labels.len() - k,
    {
        let label = labels[k].as_str();
        let len = label.as_bytes().len();
        assert(len == utf8_len(rows[k as int].0));
        assert(rows.take(k + 1).drop_last() =~= rows.take(k as int));
        assert(rows.take(k + 1).last() == rows[k as int]);
        let pad = if lw >= len { lw - len } else { 0 };
        let ghost before = out@;
        push_char(out, ' ');
        push_char(out, ' ');
        push_str(out, label);
        push_spaces(out, pad + 2);
        push_str(out, abouts[k]);
        push_char(out, '\n');
        assert(out@ =~= before + (seq![' ', ' '] + rows[k as int].0 + spaces((pad + 2) as nat)
            + rows[k as int].1 + seq!['\n']));
        assert(out@ =~= base + rows_text(rows.take(k + 1), lw as nat));
        k = k + 1;
    }
    assert(rows.take(labels.len() as int) =~= rows);
    assert(out@ =~= head + section(title@, rows, width as nat));
}

/// The described scope: its description, subcommands, arguments and whether a subcommand is required.
fn scope_of<'b>(spec: &'b CliSpec, resolved: &Vec<&'b CommandSpec>) -> (r: (&'b str, &'b [CommandSpec], &'b [ArgumentSpec], bool))
    ensures
        r.0@ == scope_about(*spec, deref_commands(resolved@)),
        r.1@ == scope_commands(*spec, deref_commands(resolved@)),
        r.2@ == scope_arguments(*spec, deref_commands(resolved@)),
        r.3 == scope_required(*spec, deref_commands(resolved@)),
{
    let n = resolved.len();
    if n == 0 {
        (spec.about_text(), spec.commands(), spec.arguments(), spec.is_command_required())
    } else {
        let last: &'b CommandSpec = resolved[n - 1];
        assert(deref_commands(resolved@).last() == *last);
        (last.about_text(), last.commands(), last.arguments(), last.is_command_required())
    }
}

/// First lines of help.
fn heading_exec(spec: &CliSpec, about: &str, name: &str) -> (r: String)
    ensures
        forall|resolved: Seq<CommandSpec>|
            scope_about(*spec, resolved) == about@ ==> #[trigger] heading(*spec, resolved, name@) == r@,
{
    let mut out = owned(name);
    match spec.version_text() {
        Some(v) => {
            push_char(&mut out, ' ');
            push_str(&mut out, v);
        },
        None => {},
    }
    push_char(&mut out, '\n');
    if !about.is_empty() {
        push_str(&mut out, about);
        push_char(&mut out, '\n');
        push_char(&mut out, '\n');
    }
    assert(out@ =~= name@ + match spec@.version {
        Some(v) => seq![' '] + v,
        None => seq![],
    } + seq!['\n'] + if about@.len() == 0 { seq![] } else { about@ + seq!['\n', '\n'] });
    out
}

/// The usage line for a scope with `visible` options in view.
fn usage_exec(scope: (&str, &[CommandSpec], &[ArgumentSpec], bool), name: &str, visible: usize) -> (r: String)
    ensures
        forall|s: CliSpec, resolved: Seq<CommandSpec>|
            scope_commands(s, resolved) == scope.1@ && scope_arguments(s, resolved) == scope.2@
                && scope_required(s, resolved) == scope.3 && visible_options(s, resolved).len()
                == visible ==> #[trigger] usage_line(s, resolved, name@) == r@,
{
    let mut usage = owned(name);
    if visible > 0 {
        push_str(&mut usage, " [OPTIONS]");
    }
    let ghost u1 = usage@;
    if scope.1.len() > 0 {
        if scope.3 {
            push_str(&mut usage, " <COMMAND>");
        } else {
            push_str(&mut usage, " [COMMAND]");
        }
    }
    let ghost u2 = usage@;
    push_arguments_usage(&mut usage, scope.2);
    assert(usage@ =~= name@ + (if visible > 0 { " [OPTIONS]"@ } else { seq![] }) + (if scope.1@.len() > 0 {
        if scope.3 { " <COMMAND>"@ } else { " [COMMAND]"@ }
    } else {
        seq![]
    }) + arguments_usage(scope.2@));
    usage
}

impl<'a> HelpRenderer<'a> {
    /// A renderer with a line width of 100.
    pub fn new(spec: &'a CliSpec) -> (r: Self)
        ensures
            r@ == (HelpModel { spec: *spec, width: 100 }),
    {
        HelpRenderer { spec, width: 100 }
    }

    /// The same renderer with another line width, never below 40.
    pub fn width(self, width: usize) -> (r: Self)
        ensures
            r@ == (HelpModel { spec: self@.spec, width: if width >= 40 { width as nat } else { 40 } }),
    {
        let w = if width >= 40 { width } else { 40 };
        HelpRenderer { spec: self.spec, width: w }
    }

    /// Help text for the command named by `command_path` (the root when empty).
    pub fn render(&self, command_path: &[&str]) -> (r: Result<String, SpecError>)
        ensures
            match r {
                Ok(text) => help_spec(self@.spec, self@.width, path_view(command_path@)) == Some(text@),
                Err(e) => {
                    &&& help_spec(self@.spec, self@.width, path_view(command_path@)) is None
                    &&& spec_ok(self@.spec) ==> e@ == unknown_command_message(path_view(command_path@))
                    &&& !spec_ok(self@.spec) ==> spec_problem(self@.spec) == Some(e@)
                },
            },
    {
        let spec: &'a CliSpec = self.spec;
        match spec.validate() {
            Ok(()) => {},
            Err(e) => {
                return Err(e);
            },
        }
        let resolved = match resolve_path(spec, command_path) {
            Some(v) => v,
            None => {
                let mut msg = owned("unknown help command `");
                push_joined(&mut msg, command_path);
                push_str(&mut msg, "`");
                return Err(SpecError::new_internal(msg));
            },
        };
        let ghost res = deref_commands(resolved@);
        let name = full_name_exec(spec.name(), command_path);
        let scope = scope_of(spec, &resolved);
        let vis = visible_for(spec, &resolved);
        let mut out = heading_exec(spec, scope.0, name.as_str());
        push_str(&mut out, "Usage:\n  ");
        let usage = usage_exec(scope, name.as_str(), vis.len());
        push_str(&mut out, usage.as_str());
        push_char(&mut out, '\n');
        let (cl, ca) = command_rows_exec(scope.1);
        render_rows(&mut out, "Commands", &cl, &ca, self.width);
        let (al, aa) = argument_rows_exec(scope.2);
        render_rows(&mut out, "Arguments", &al, &aa, self.width);
        let (ol, oa) = option_rows_exec(&vis);
        render_rows(&mut out, "Options", &ol, &oa, self.width);
        proof {
            assert(deref_options(vis@).len() == vis@.len());
        }
        Ok(out)
    }
}

} // verus!
