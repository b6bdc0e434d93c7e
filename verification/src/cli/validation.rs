use crate::cli::spec::{
    lemma_strings_view_push, strings_view, ArgumentSpec, CliSpec, CommandSpec, OptionModel, OptionSpec, SpecError,
    ValueMode, ValueType,
};
use crate::text::{chars_of, is_name, is_name_exec, owned, push_char, push_str};
use vstd::prelude::*;

verus! {

/// The first of two outcomes that reports a problem.
pub open spec fn first_problem(a: Option<Seq<char>>, b: Option<Seq<char>>) -> Option<Seq<char>> {
    if a is Some { a } else { b }
}

/// The problem a check reported, if any.
pub open spec fn outcome(r: Result<(), SpecError>) -> Option<Seq<char>> {
    match r {
        Ok(()) => None,
        Err(e) => Some(e@),
    }
}

/// A name that is not valid for its kind.
pub open spec fn name_problem(kind: Seq<char>, name: Seq<char>) -> Option<Seq<char>> {
    if is_name(name) {
        None
    } else {
        Some("invalid "@ + kind + " name `"@ + name + "`"@)
    }
}

/// The first empty or repeated possible value from position `i` on.
pub open spec fn values_problem_from(values: Seq<Seq<char>>, owner: Seq<char>, i: int) -> Option<Seq<char>>
    decreases values.len() - i,
{
    if i < 0 || i >= values.len() {
        None
    } else if values[i].len() == 0 {
        Some(owner + " contains an empty possible value"@)
    } else if values.take(i).contains(values[i]) {
        Some(owner + " contains duplicate possible value `"@ + values[i] + "`"@)
    } else {
        values_problem_from(values, owner, i + 1)
    }
}

/// The first empty or repeated possible value.
pub open spec fn values_problem(values: Seq<Seq<char>>, owner: Seq<char>) -> Option<Seq<char>> {
    values_problem_from(values, owner, 0)
}

/// A short option character is acceptable: ASCII, not `-`, not white space.
pub open spec fn valid_short(c: char) -> bool {
    &&& c != '-'
    &&& (c as u32) < 128
    &&& !(9 <= (c as u32) <= 13 || c == ' ')
}

/// Long names of a list of options.
pub open spec fn longs_of(opts: Seq<OptionSpec>) -> Seq<Seq<char>> {
    opts.map_values(|o: OptionSpec| o@.long)
}

/// Short names of a list of options, in order, skipping options without one.
pub open spec fn shorts_of(opts: Seq<OptionSpec>) -> Seq<char>
    decreases opts.len(),
{
    if opts.len() == 0 {
        seq![]
    } else {
        let s = shorts_of(opts.drop_last());
        match opts.last()@.short {
            Some(c) => s.push(c),
            None => s,
        }
    }
}

/// The first problem with one option, given the long and short names already taken in view.
pub open spec fn option_problem(o: OptionModel, longs: Seq<Seq<char>>, shorts: Seq<char>, path: Seq<char>) -> Option<Seq<char>> {
    if !is_name(o.long) {
        name_problem("option"@, o.long)
    } else if longs.contains(o.long) {
        Some("duplicate option `--"@ + o.long + "` under `"@ + path + "`"@)
    } else if o.short matches Some(c) && !valid_short(c) {
        Some("invalid short option `-"@ + seq![o.short.unwrap()] + "` under `"@ + path + "`"@)
    } else if o.short matches Some(c) && shorts.contains(c) {
        Some("duplicate short option `-"@ + seq![o.short.unwrap()] + "` under `"@ + path + "`"@)
    } else if o.value == ValueMode::Forbidden && (o.possible_values.len() != 0 || o.value_type != ValueType::String) {
        Some("flag `--"@ + o.long + "` cannot declare value validation"@)
    } else {
        values_problem(o.possible_values, "option `--"@ + o.long + "`"@)
    }
}

/// The first related option name, from position `k` on, that is the option itself or not in view.
pub open spec fn related_problem_from(
    related: Seq<Seq<char>>,
    own: Seq<char>,
    visible: Seq<Seq<char>>,
    path: Seq<char>,
    k: int,
) -> Option<Seq<char>>
    decreases related.len() - k,
{
    if k < 0 || k >= related.len() {
        None
    } else if related[k] == own || !visible.contains(related[k]) {
        Some("option `--"@ + own + "` references unknown or self option `--"@ + related[k] + "` under `"@ + path + "`"@)
    } else {
        related_problem_from(related, own, visible, path, k + 1)
    }
}

/// The first bad conflict, then the first bad requirement, of an option.
pub open spec fn relation_problem(o: OptionModel, visible: Seq<Seq<char>>, path: Seq<char>) -> Option<Seq<char>> {
    first_problem(
        related_problem_from(o.conflicts_with, o.long, visible, path, 0),
        related_problem_from(o.required_options, o.long, visible, path, 0),
    )
}

/// The first problem among the options of a scope from position `i` on.
pub open spec fn option_list_problem_from(
    opts: Seq<OptionSpec>,
    longs: Seq<Seq<char>>,
    shorts: Seq<char>,
    path: Seq<char>,
    i: int,
) -> Option<Seq<char>>
    decreases opts.len() - i,
{
    if i < 0 || i >= opts.len() {
        None
    } else {
        first_problem(
            option_problem(opts[i]@, longs + longs_of(opts.take(i)), shorts + shorts_of(opts.take(i)), path),
            option_list_problem_from(opts, longs, shorts, path, i + 1),
        )
    }
}

/// The first relationship problem among the options of a scope from position `k` on.
pub open spec fn relations_problem_from(opts: Seq<OptionSpec>, visible: Seq<Seq<char>>, path: Seq<char>, k: int) -> Option<Seq<char>>
    decreases opts.len() - k,
{
    if k < 0 || k >= opts.len() {
        None
    } else {
        first_problem(relation_problem(opts[k]@, visible, path), relations_problem_from(opts, visible, path, k + 1))
    }
}

/// The first problem with the options of a scope: each option in turn, then relationships.
pub open spec fn options_problem(opts: Seq<OptionSpec>, longs: Seq<Seq<char>>, shorts: Seq<char>, path: Seq<char>) -> Option<Seq<char>> {
    first_problem(
        option_list_problem_from(opts, longs, shorts, path, 0),
        relations_problem_from(opts, longs + longs_of(opts), path, 0),
    )
}

/// Names of the arguments of one scope.
pub open spec fn argument_names(args: Seq<ArgumentSpec>) -> Seq<Seq<char>> {
    args.map_values(|a: ArgumentSpec| a@.name)
}

/// Some argument of the list is optional.
pub open spec fn has_optional(args: Seq<ArgumentSpec>) -> bool {
    exists|k: int| 0 <= k < args.len() && !(#[trigger] args[k]@.required)
}

/// The first problem among the arguments of a scope from position `i` on.
pub open spec fn arguments_problem_from(args: Seq<ArgumentSpec>, path: Seq<char>, i: int) -> Option<Seq<char>>
    decreases args.len() - i,
{
    if i < 0 || i >= args.len() {
        None
    } else {
        let a = args[i]@;
        if !is_name(a.name) {
            name_problem("argument"@, a.name)
        } else if argument_names(args.take(i)).contains(a.name) {
            Some("duplicate argument `"@ + a.name + "` under `"@ + path + "`"@)
        } else if a.required && has_optional(args.take(i)) {
            Some("required argument `"@ + a.name + "` follows an optional argument under `"@ + path + "`"@)
        } else if a.multiple && i + 1 != args.len() {
            Some("variadic argument `"@ + a.name + "` must be last under `"@ + path + "`"@)
        } else {
            first_problem(
                values_problem(a.possible_values, "argument `"@ + a.name + "`"@),
                arguments_problem_from(args, path, i + 1),
            )
        }
    }
}

/// Names and aliases of a list of commands, in declaration order.
pub open spec fn command_names(cmds: Seq<CommandSpec>) -> Seq<Seq<char>>
    decreases cmds.len(),
{
    if cmds.len() == 0 {
        seq![]
    } else {
        command_names(cmds.drop_last()) + seq![cmds.last()@.name] + cmds.last()@.aliases
    }
}

/// The first invalid or repeated name among `names` from position `j` on, `prior` being taken.
pub open spec fn alias_problem_from(names: Seq<Seq<char>>, prior: Seq<Seq<char>>, path: Seq<char>, j: int) -> Option<Seq<char>>
    decreases names.len() - j,
{
    if j < 0 || j >= names.len() {
        None
    } else if !is_name(names[j]) {
        name_problem("command alias"@, names[j])
    } else if (prior + names.take(j)).contains(names[j]) {
        Some("duplicate command or alias `"@ + names[j] + "` under `"@ + path + "`"@)
    } else {
        alias_problem_from(names, prior, path, j + 1)
    }
}

/// The first problem with the command names of a scope from position `i` on.
pub open spec fn commands_problem_from(cmds: Seq<CommandSpec>, path: Seq<char>, i: int) -> Option<Seq<char>>
    decreases cmds.len() - i,
{
    if i < 0 || i >= cmds.len() {
        None
    } else if !is_name(cmds[i]@.name) {
        name_problem("command"@, cmds[i]@.name)
    } else {
        first_problem(
            alias_problem_from(seq![cmds[i]@.name] + cmds[i]@.aliases, command_names(cmds.take(i)), path, 0),
            commands_problem_from(cmds, path, i + 1),
        )
    }
}

/// The first problem local to one scope: commands, then options, then arguments.
pub open spec fn scope_problem(
    path: Seq<char>,
    cmds: Seq<CommandSpec>,
    opts: Seq<OptionSpec>,
    args: Seq<ArgumentSpec>,
    longs: Seq<Seq<char>>,
    shorts: Seq<char>,
) -> Option<Seq<char>> {
    first_problem(
        commands_problem_from(cmds, path, 0),
        first_problem(options_problem(opts, longs, shorts, path), arguments_problem_from(args, path, 0)),
    )
}

/// The first problem in a command and its descendants, given the option names in view.
pub open spec fn command_problem(c: CommandSpec, path: Seq<char>, longs: Seq<Seq<char>>, shorts: Seq<char>) -> Option<Seq<char>>
    decreases c.depth(), 1int, 0int,
{
    proof {
        c.lemma_depth();
    }
    let p = path + " "@ + c@.name;
    first_problem(
        scope_problem(p, c@.commands, c@.options, c@.arguments, longs, shorts),
        children_problem_from(c@.commands, p, longs + longs_of(c@.options), shorts + shorts_of(c@.options), 0),
    )
}

/// The first problem among the command trees of a scope from position `k` on.
pub open spec fn children_problem_from(
    cmds: Seq<CommandSpec>,
    path: Seq<char>,
    longs: Seq<Seq<char>>,
    shorts: Seq<char>,
    k: int,
) -> Option<Seq<char>>
    decreases CommandSpec::forest_depth(cmds), 2int, cmds.len() - k,
{
    if k < 0 || k >= cmds.len() {
        None
    } else {
        proof {
            CommandSpec::lemma_forest_depth(cmds, k);
        }
        first_problem(
            command_problem(cmds[k], path, longs, shorts),
            children_problem_from(cmds, path, longs, shorts, k + 1),
        )
    }
}

/// The first problem of a specification, in the order checks are made, or `None`.
pub open spec fn spec_problem(s: CliSpec) -> Option<Seq<char>> {
    first_problem(
        name_problem("CLI"@, s@.name),
        first_problem(
            scope_problem(s@.name, s@.commands, s@.options, s@.arguments, seq![], seq![]),
            children_problem_from(s@.commands, s@.name, longs_of(s@.options), shorts_of(s@.options), 0),
        ),
    )
}

/// A whole specification is valid.
pub open spec fn spec_ok(s: CliSpec) -> bool {
    spec_problem(s) is None
}

fn error(message: String) -> (r: SpecError)
    ensures
        r@ == message@,
{
    SpecError::new_internal(message)
}

fn text2(a: &str, b: &str) -> (r: String)
    ensures
        r@ == a@ + b@,
{
    let mut m = owned(a);
    push_str(&mut m, b);
    m
}

fn text3(a: &str, b: &str, c: &str) -> (r: String)
    ensures
        r@ == a@ + b@ + c@,
{
    let mut m = owned(a);
    push_str(&mut m, b);
    push_str(&mut m, c);
    m
}

fn text4(a: &str, b: &str, c: &str, d: &str) -> (r: String)
    ensures
        r@ == a@ + b@ + c@ + d@,
{
    let mut m = owned(a);
    push_str(&mut m, b);
    push_str(&mut m, c);
    push_str(&mut m, d);
    m
}

fn text5(a: &str, b: &str, c: &str, d: &str, e: &str) -> (r: String)
    ensures
        r@ == a@ + b@ + c@ + d@ + e@,
{
    let mut m = owned(a);
    push_str(&mut m, b);
    push_str(&mut m, c);
    push_str(&mut m, d);
    push_str(&mut m, e);
    m
}

fn text7(a: &str, b: &str, c: &str, d: &str, e: &str, f: &str, g: &str) -> (r: String)
    ensures
        r@ == a@ + b@ + c@ + d@ + e@ + f@ + g@,
{
    let mut m = owned(a);
    push_str(&mut m, b);
    push_str(&mut m, c);
    push_str(&mut m, d);
    push_str(&mut m, e);
    push_str(&mut m, f);
    push_str(&mut m, g);
    m
}

fn short_text(head: &str, c: char, path: &str) -> (r: String)
    ensures
        r@ == head@ + seq![c] + "` under `"@ + path@ + "`"@,
{
    let mut m = owned(head);
    push_char(&mut m, c);
    push_str(&mut m, "` under `");
    push_str(&mut m, path);
    push_str(&mut m, "`");
    m
}

/// Checks a name of the given kind.
fn validate_name(kind: &str, name: &str) -> (r: Result<(), SpecError>)
    ensures
        outcome(r) == name_problem(kind@, name@),
{
    let chars = chars_of(name);
    if is_name_exec(&chars) {
        Ok(())
    } else {
        Err(error(text5("invalid ", kind, " name `", name, "`")))
    }
}

/// Whether `list` holds `value`.
fn contains_string(list: &Vec<String>, value: &str) -> (r: bool)
    ensures
        r == strings_view(list@).contains(value@),
{
    let v = owned(value);
    let mut i: usize = 0;
    while i < list.len()
        invariant
            i <= list.len(),
            v@ == value@,
            forall|j: int| 0 <= j < i ==> list@[j]@ != value@,
        decreases list.len() - i,
    {
        if list[i] == v {
            assert(strings_view(list@)[i as int] == value@);
            return true;
        }
        i = i + 1;
    }
    false
}

/// Whether `list` holds `value`.
fn contains_char_in(list: &Vec<char>, value: char) -> (r: bool)
    ensures
        r == list@.contains(value),
{
    let mut i: usize = 0;
    while i < list.len()
        invariant
            i <= list.len(),
            forall|j: int| 0 <= j < i ==> list@[j] != value,
        decreases list.len() - i,
    {
        if list[i] == value {
            return true;
        }
        i = i + 1;
    }
    false
}

/// A copy of a list of strings.
fn copy_strings(list: &Vec<String>) -> (r: Vec<String>)
    ensures
        strings_view(r@) == strings_view(list@),
{
    let mut r: Vec<String> = Vec::new();
    let mut i: usize = 0;
    while i < list.len()
        invariant
            i <= list.len(),
            strings_view(r@) == strings_view(list@).take(i as int),
        decreases list.len() - i,
    {
        let x = list[i].clone();
        let ghost before = r@;
        r.push(x);
        proof {
            lemma_strings_view_push(before, x);
        }
        assert(strings_view(r@) =~= strings_view(list@).take(i + 1));
        i = i + 1;
    }
    assert(strings_view(list@).take(list.len() as int) =~= strings_view(list@));
    r
}

/// A copy of a list of characters.
fn copy_chars(list: &Vec<char>) -> (r: Vec<char>)
    ensures
        r@ == list@,
{
    let mut r: Vec<char> = Vec::new();
    let mut i: usize = 0;
    while i < list.len()
        invariant
            i <= list.len(),
            r@ == list@.take(i as int),
        decreases list.len() - i,
    {
        r.push(list[i]);
        assert(r@ =~= list@.take(i + 1));
        i = i + 1;
    }
    assert(list@.take(list.len() as int) =~= list@);
    r
}

/// Possible values are non-empty and distinct.
fn validate_possible_values(values: &[String], owner: &str) -> (r: Result<(), SpecError>)
    ensures
        outcome(r) == values_problem(strings_view(values@), owner@),
{
    let ghost vs = strings_view(values@);
    let mut seen: Vec<String> = Vec::new();
    let mut i: usize = 0;
    assert(vs.take(0) =~= seq![]);
    while i < values.len()
        invariant
            i <= values.len(),
            vs == strings_view(values@),
            strings_view(seen@) == vs.take(i as int),
            values_problem(vs, owner@) == values_problem_from(vs, owner@, i as int),
        decreases values.len() - i,
    {
        let value = &values[i];
        assert(vs[i as int] == value@);
        if value.as_str().is_empty() {
            return Err(error(text2(owner, " contains an empty possible value")));
        }
        if contains_string(&seen, value.as_str()) {
            return Err(error(text4(owner, " contains duplicate possible value `", value.as_str(), "`")));
        }
        let x = value.clone();
        let ghost before = seen@;
        seen.push(x);
        proof {
            lemma_strings_view_push(before, x);
        }
        assert(strings_view(seen@) =~= vs.take(i + 1));
        i = i + 1;
    }
    Ok(())
}

/// Adds `name` to `seen` when it is a valid name not yet present.
fn insert_name(seen: &mut Vec<String>, name: &str, path: &str) -> (r: Result<(), SpecError>)
    ensures
        outcome(r) == (if !is_name(name@) {
            name_problem("command alias"@, name@)
        } else if strings_view(old(seen)@).contains(name@) {
            Some("duplicate command or alias `"@ + name@ + "` under `"@ + path@ + "`"@)
        } else {
            None
        }),
        r is Ok ==> strings_view(final(seen)@) == strings_view(old(seen)@).push(name@),
{
    validate_name("command alias", name)?;
    if contains_string(seen, name) {
        return Err(error(text5("duplicate command or alias `", name, "` under `", path, "`")));
    }
    let ghost before = seen@;
    let x = owned(name);
    seen.push(x);
    proof {
        lemma_strings_view_push(before, x);
    }
    Ok(())
}

proof fn lemma_command_names_step(cmds: Seq<CommandSpec>, i: int)
    requires
        0 <= i < cmds.len(),
    ensures
        command_names(cmds.take(i + 1)) == command_names(cmds.take(i)) + seq![cmds[i]@.name]
            + cmds[i]@.aliases,
{
    assert(cmds.take(i + 1).drop_last() =~= cmds.take(i));
}

/// Command names and aliases of one scope are valid and distinct.
fn validate_commands(path: &str, cmds: &[CommandSpec]) -> (r: Result<(), SpecError>)
    ensures
        outcome(r) == commands_problem_from(cmds@, path@, 0),
{
    let mut seen: Vec<String> = Vec::new();
    let mut i: usize = 0;
    assert(command_names(cmds@.take(0)) =~= seq![]);
    while i < cmds.len()
        invariant
            i <= cmds.len(),
            strings_view(seen@) == command_names(cmds@.take(i as int)),
            commands_problem_from(cmds@, path@, 0) == commands_problem_from(cmds@, path@, i as int),
        decreases cmds.len() - i,
    {
        let command = &cmds[i];
        proof {
            lemma_command_names_step(cmds@, i as int);
        }
        validate_name("command", command.name())?;
        let ghost prior = strings_view(seen@);
        let ghost names = seq![command@.name] + command@.aliases;
        assert(names[0] == command@.name);
        assert(names.take(0) =~= seq![]);
        assert(prior + names.take(0) =~= prior);
        insert_name(&mut seen, command.name(), path)?;
        assert(names.take(1) =~= seq![command@.name]);
        assert(strings_view(seen@) =~= prior + names.take(1));
        let aliases = command.aliases();
        let mut j: usize = 0;
        while j < aliases.len()
            invariant
                j <= aliases.len(),
                strings_view(aliases@) == command@.aliases,
                names == seq![command@.name] + command@.aliases,
                strings_view(seen@) == prior + names.take(j + 1),
                i < cmds.len(),
                cmds@[i as int] == *command,
                is_name(command@.name),
                prior == command_names(cmds@.take(i as int)),
                commands_problem_from(cmds@, path@, 0) == commands_problem_from(cmds@, path@, i as int),
                alias_problem_from(names, prior, path@, 0) == alias_problem_from(names, prior, path@, j + 1),
            decreases aliases.len() - j,
        {
            let alias = aliases[j].as_str();
            assert(names[j + 1] == alias@);
            insert_name(&mut seen, alias, path)?;
            assert(names.take(j + 2) =~= names.take(j + 1).push(alias@));
            assert(strings_view(seen@) =~= prior + names.take(j + 2));
            j = j + 1;
        }
        assert(names.take(aliases.len() + 1) =~= names);
        assert(strings_view(seen@) =~= command_names(cmds@.take(i + 1)));
        i = i + 1;
    }
    Ok(())
}

proof fn lemma_longs_step(opts: Seq<OptionSpec>, i: int)
    requires
        0 <= i < opts.len(),
    ensures
        longs_of(opts.take(i + 1)) == longs_of(opts.take(i)).push(opts[i]@.long),
        shorts_of(opts.take(i + 1)) == match opts[i]@.short {
            Some(c) => shorts_of(opts.take(i)).push(c),
            None => shorts_of(opts.take(i)),
        },
{
    assert(opts.take(i + 1).drop_last() =~= opts.take(i));
    assert(longs_of(opts.take(i + 1)) =~= longs_of(opts.take(i)).push(opts[i]@.long));
}

/// Whether `c` is acceptable as a short option.
fn short_ok(c: char) -> (r: bool)
    ensures
        r == valid_short(c),
{
    let code = c as u32;
    c != '-' && code < 128 && !((9 <= code && code <= 13) || c == ' ')
}

/// One option, checked against the names taken so far; on success its names are taken.
fn validate_option(
    path: &str,
    option: &OptionSpec,
    longs: &mut Vec<String>,
    shorts: &mut Vec<char>,
) -> (r: Result<(), SpecError>)
    ensures
        outcome(r) == option_problem(option@, strings_view(old(longs)@), old(shorts)@, path@),
        r is Ok ==> strings_view(final(longs)@) == strings_view(old(longs)@).push(option@.long),
        r is Ok ==> final(shorts)@ == match option@.short {
            Some(c) => old(shorts)@.push(c),
            None => old(shorts)@,
        },
{
    validate_name("option", option.long())?;
    if contains_string(longs, option.long()) {
        return Err(error(text5("duplicate option `--", option.long(), "` under `", path, "`")));
    }
    match option.short_name() {
        Some(short) => {
            if !short_ok(short) {
                return Err(error(short_text("invalid short option `-", short, path)));
            }
            if contains_char_in(shorts, short) {
                return Err(error(short_text("duplicate short option `-", short, path)));
            }
        },
        None => {},
    }
    if option.value_mode() == ValueMode::Forbidden && (option.possible_values().len() != 0
        || option.value_type_kind() != ValueType::String) {
        return Err(error(text3("flag `--", option.long(), "` cannot declare value validation")));
    }
    let owner = text3("option `--", option.long(), "`");
    validate_possible_values(option.possible_values(), owner.as_str())?;
    let ghost before = longs@;
    let x = owned(option.long());
    longs.push(x);
    proof {
        lemma_strings_view_push(before, x);
    }
    if let Some(short) = option.short_name() {
        shorts.push(short);
    }
    Ok(())
}

/// The first related name that is `own` or not visible.
fn validate_related(path: &str, own: &str, related: &[String], visible: &Vec<String>) -> (r: Result<(), SpecError>)
    ensures
        outcome(r) == related_problem_from(strings_view(related@), own@, strings_view(visible@), path@, 0),
{
    let ghost rs = strings_view(related@);
    let own_s = owned(own);
    let mut k: usize = 0;
    while k < related.len()
        invariant
            k <= related.len(),
            own_s@ == own@,
            rs == strings_view(related@),
            related_problem_from(rs, own@, strings_view(visible@), path@, 0) == related_problem_from(
                rs,
                own@,
                strings_view(visible@),
                path@,
                k as int,
            ),
        decreases related.len() - k,
    {
        let item = &related[k];
        assert(rs[k as int] == item@);
        if *item == own_s || !contains_string(visible, item.as_str()) {
            return Err(error(text7("option `--", own, "` references unknown or self option `--", item.as_str(), "` under `", path, "`")));
        }
        k = k + 1;
    }
    Ok(())
}

/// The options of one scope; on success the scope's names are added to `longs` and `shorts`.
fn validate_options(
    path: &str,
    opts: &[OptionSpec],
    longs: &mut Vec<String>,
    shorts: &mut Vec<char>,
) -> (r: Result<(), SpecError>)
    ensures
        outcome(r) == options_problem(opts@, strings_view(old(longs)@), old(shorts)@, path@),
        r is Ok ==> strings_view(final(longs)@) == strings_view(old(longs)@) + longs_of(opts@),
        r is Ok ==> final(shorts)@ == old(shorts)@ + shorts_of(opts@),
{
    let ghost l0 = strings_view(longs@);
    let ghost s0 = shorts@;
    let mut i: usize = 0;
    assert(longs_of(opts@.take(0)) =~= seq![]);
    assert(shorts_of(opts@.take(0)) =~= seq![]);
    assert(l0 + longs_of(opts@.take(0)) =~= l0);
    assert(s0 + shorts_of(opts@.take(0)) =~= s0);
    while i < opts.len()
        invariant
            i <= opts.len(),
            l0 == strings_view(old(longs)@),
            s0 == old(shorts)@,
            strings_view(longs@) == l0 + longs_of(opts@.take(i as int)),
            shorts@ == s0 + shorts_of(opts@.take(i as int)),
            option_list_problem_from(opts@, l0, s0, path@, 0) == option_list_problem_from(opts@, l0, s0, path@, i as int),
        decreases opts.len() - i,
    {
        proof {
            lemma_longs_step(opts@, i as int);
        }
        validate_option(path, &opts[i], longs, shorts)?;
        assert(strings_view(longs@) =~= l0 + longs_of(opts@.take(i + 1)));
        assert(shorts@ =~= s0 + shorts_of(opts@.take(i + 1)));
        i = i + 1;
    }
    assert(opts@.take(opts.len() as int) =~= opts@);
    let mut k: usize = 0;
    while k < opts.len()
        invariant
            k <= opts.len(),
            l0 == strings_view(old(longs)@),
            s0 == old(shorts)@,
            strings_view(longs@) == l0 + longs_of(opts@),
            shorts@ == s0 + shorts_of(opts@),
            option_list_problem_from(opts@, l0, s0, path@, 0) is None,
            relations_problem_from(opts@, l0 + longs_of(opts@), path@, 0) == relations_problem_from(
                opts@,
                l0 + longs_of(opts@),
                path@,
                k as int,
            ),
        decreases opts.len() - k,
    {
        let option = &opts[k];
        let conflicts = option.conflicts();
        let reqs = option.requirements();
        validate_related(path, option.long(), conflicts, longs)?;
        validate_related(path, option.long(), reqs, longs)?;
        k = k + 1;
    }
    Ok(())
}

/// The positional arguments of one scope.
fn validate_arguments(path: &str, args: &[ArgumentSpec]) -> (r: Result<(), SpecError>)
    ensures
        outcome(r) == arguments_problem_from(args@, path@, 0),
{
    let mut seen: Vec<String> = Vec::new();
    let mut optional_seen = false;
    let mut i: usize = 0;
    assert(argument_names(args@.take(0)) =~= seq![]);
    while i < args.len()
        invariant
            i <= args.len(),
            strings_view(seen@) == argument_names(args@.take(i as int)),
            optional_seen == has_optional(args@.take(i as int)),
            arguments_problem_from(args@, path@, 0) == arguments_problem_from(args@, path@, i as int),
        decreases args.len() - i,
    {
        let argument = &args[i];
        assert(args@.take(i + 1).drop_last() =~= args@.take(i as int));
        validate_name("argument", argument.name())?;
        if contains_string(&seen, argument.name()) {
            return Err(error(text5("duplicate argument `", argument.name(), "` under `", path, "`")));
        }
        if argument.is_required() && optional_seen {
            return Err(error(text5("required argument `", argument.name(), "` follows an optional argument under `", path, "`")));
        }
        if argument.is_multiple() && i + 1 != args.len() {
            return Err(error(text5("variadic argument `", argument.name(), "` must be last under `", path, "`")));
        }
        let owner = text3("argument `", argument.name(), "`");
        validate_possible_values(argument.possible_values(), owner.as_str())?;
        proof {
            let t = args@.take(i as int);
            let t1 = args@.take(i + 1);
            assert(t1 =~= t.push(args@[i as int]));
            if has_optional(t1) != (has_optional(t) || !argument@.required) {
                if has_optional(t1) {
                    let k = choose|k: int| 0 <= k < t1.len() && !(#[trigger] t1[k]@.required);
                    if k < i {
                        assert(t[k] == t1[k]);
                    }
                } else if has_optional(t) {
                    let k = choose|k: int| 0 <= k < t.len() && !(#[trigger] t[k]@.required);
                    assert(t1[k] == t[k]);
                } else {
                    assert(!t1[i as int]@.required);
                }
            }
        }
        optional_seen = optional_seen || !argument.is_required();
        let ghost before = seen@;
        let x = owned(argument.name());
        seen.push(x);
        proof {
            lemma_strings_view_push(before, x);
            assert(argument_names(args@.take(i + 1)) =~= argument_names(args@.take(i as int)).push(argument@.name));
        }
        i = i + 1;
    }
    Ok(())
}

/// The checks local to one scope; on success the scope's option names are added.
fn validate_local(
    path: &str,
    cmds: &[CommandSpec],
    opts: &[OptionSpec],
    args: &[ArgumentSpec],
    longs: &mut Vec<String>,
    shorts: &mut Vec<char>,
) -> (r: Result<(), SpecError>)
    ensures
        outcome(r) == scope_problem(path@, cmds@, opts@, args@, strings_view(old(longs)@), old(shorts)@),
        r is Ok ==> strings_view(final(longs)@) == strings_view(old(longs)@) + longs_of(opts@),
        r is Ok ==> final(shorts)@ == old(shorts)@ + shorts_of(opts@),
{
    validate_commands(path, cmds)?;
    validate_options(path, opts, longs, shorts)?;
    validate_arguments(path, args)?;
    Ok(())
}

/// A command and its descendants.
fn validate_command(path: &str, c: &CommandSpec, longs: &Vec<String>, shorts: &Vec<char>) -> (r: Result<(), SpecError>)
    ensures
        outcome(r) == command_problem(*c, path@, strings_view(longs@), shorts@),
    decreases c.depth(), 1int,
{
    proof {
        c.lemma_depth();
    }
    let mut l = copy_strings(longs);
    let mut s = copy_chars(shorts);
    let p = text3(path, " ", c.name());
    validate_local(p.as_str(), c.commands(), c.options(), c.arguments(), &mut l, &mut s)?;
    validate_children(p.as_str(), c.commands(), &l, &s)
}

/// All commands of a scope, with their descendants.
fn validate_children(path: &str, cmds: &[CommandSpec], longs: &Vec<String>, shorts: &Vec<char>) -> (r: Result<(), SpecError>)
    ensures
        outcome(r) == children_problem_from(cmds@, path@, strings_view(longs@), shorts@, 0),
    decreases CommandSpec::forest_depth(cmds@), 2int,
{
    let mut i: usize = 0;
    while i < cmds.len()
        invariant
            i <= cmds.len(),
            children_problem_from(cmds@, path@, strings_view(longs@), shorts@, 0) == children_problem_from(
                cmds@,
                path@,
                strings_view(longs@),
                shorts@,
                i as int,
            ),
        decreases cmds.len() - i,
    {
        proof {
            CommandSpec::lemma_forest_depth(cmds@, i as int);
        }
        validate_command(path, &cmds[i], longs, shorts)?;
        i = i + 1;
    }
    Ok(())
}

/// Checks a whole specification, reporting the first problem in check order.
pub fn validate_spec(spec: &CliSpec) -> (r: Result<(), SpecError>)
    ensures
        outcome(r) == spec_problem(*spec),
{
    validate_name("CLI", spec.name())?;
    let mut longs: Vec<String> = Vec::new();
    let mut shorts: Vec<char> = Vec::new();
    assert(strings_view(longs@) =~= seq![]);
    validate_local(spec.name(), spec.commands(), spec.options(), spec.arguments(), &mut longs, &mut shorts)?;
    assert(strings_view(longs@) =~= longs_of(spec@.options));
    assert(shorts@ =~= shorts_of(spec@.options));
    validate_children(spec.name(), spec.commands(), &longs, &shorts)
}

} // verus!
