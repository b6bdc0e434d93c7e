use crate::cli::validation::{spec_ok, validate_spec};
use crate::text::owned;
use vstd::prelude::*;

verus! {

/// How an option takes a value.
#[derive(Clone, Copy, Debug, PartialEq, Eq, Structural)]
pub enum ValueMode {
    Forbidden,
    Required,
    Optional,
}

/// Type that an option or argument value must parse as.
#[derive(Clone, Copy, Debug, PartialEq, Eq, Structural)]
pub enum ValueType {
    String,
    Bool,
    I64,
    U64,
}

/// Human wording of a value type, as used in diagnostics.
pub open spec fn value_type_text(t: ValueType) -> Seq<char> {
    match t {
        ValueType::String => "text"@,
        ValueType::Bool => "true or false"@,
        ValueType::I64 => "a signed integer"@,
        ValueType::U64 => "an unsigned integer"@,
    }
}

impl ValueType {
    /// The wording used for this type in diagnostics.
    pub fn display_text(self) -> (r: &'static str)
        ensures
            r@ == value_type_text(self),
    {
        match self {
            ValueType::String => "text",
            ValueType::Bool => "true or false",
            ValueType::I64 => "a signed integer",
            ValueType::U64 => "an unsigned integer",
        }
    }
}

/// The view of a list of strings.
pub open spec fn strings_view(v: Seq<String>) -> Seq<Seq<char>> {
    v.map_values(|s: String| s@)
}

/// The view of a list grown by one string.
pub proof fn lemma_strings_view_push(v: Seq<String>, x: String)
    ensures
        strings_view(v.push(x)) == strings_view(v).push(x@),
{
    assert(strings_view(v.push(x)) =~= strings_view(v).push(x@));
}

/// Root of a command-line interface description.
#[derive(Debug)]
pub struct CliSpec {
    name: String,
    about: String,
    version: Option<String>,
    commands: Vec<CommandSpec>,
    options: Vec<OptionSpec>,
    arguments: Vec<ArgumentSpec>,
    command_required: bool,
}

/// A (sub)command.
#[derive(Debug)]
pub struct CommandSpec {
    name: String,
    aliases: Vec<String>,
    about: String,
    commands: Vec<CommandSpec>,
    options: Vec<OptionSpec>,
    arguments: Vec<ArgumentSpec>,
    command_required: bool,
    hidden: bool,
}

/// A named option (`--long`, optionally `-s`).
#[derive(Clone, Debug, PartialEq, Eq)]
pub struct OptionSpec {
    long: String,
    short: Option<char>,
    value: ValueMode,
    value_name: String,
    value_type: ValueType,
    possible_values: Vec<String>,
    about: String,
    required: bool,
    repeatable: bool,
    detached_optional_value: bool,
    terminal: bool,
    hidden: bool,
    conflicts_with: Vec<String>,
    required_options: Vec<String>,
}

/// A positional argument.
#[derive(Clone, Debug, PartialEq, Eq)]
pub struct ArgumentSpec {
    name: String,
    about: String,
    value_type: ValueType,
    possible_values: Vec<String>,
    required: bool,
    multiple: bool,
}

/// Reason a specification is rejected.
#[derive(Clone, Debug, PartialEq, Eq)]
pub struct SpecError {
    message: String,
}

/// Abstract content of a [`CliSpec`].
pub struct CliModel {
    pub name: Seq<char>,
    pub about: Seq<char>,
    pub version: Option<Seq<char>>,
    pub commands: Seq<CommandSpec>,
    pub options: Seq<OptionSpec>,
    pub arguments: Seq<ArgumentSpec>,
    pub command_required: bool,
}

/// Abstract content of a [`CommandSpec`]; nested commands stay values.
pub struct CommandModel {
    pub name: Seq<char>,
    pub aliases: Seq<Seq<char>>,
    pub about: Seq<char>,
    pub commands: Seq<CommandSpec>,
    pub options: Seq<OptionSpec>,
    pub arguments: Seq<ArgumentSpec>,
    pub command_required: bool,
    pub hidden: bool,
}

/// Abstract content of an [`OptionSpec`].
pub struct OptionModel {
    pub long: Seq<char>,
    pub short: Option<char>,
    pub value: ValueMode,
    pub value_name: Seq<char>,
    pub value_type: ValueType,
    pub possible_values: Seq<Seq<char>>,
    pub about: Seq<char>,
    pub required: bool,
    pub repeatable: bool,
    pub detached_optional_value: bool,
    pub terminal: bool,
    pub hidden: bool,
    pub conflicts_with: Seq<Seq<char>>,
    pub required_options: Seq<Seq<char>>,
}

/// Abstract content of an [`ArgumentSpec`].
pub struct ArgumentModel {
    pub name: Seq<char>,
    pub about: Seq<char>,
    pub value_type: ValueType,
    pub possible_values: Seq<Seq<char>>,
    pub required: bool,
    pub multiple: bool,
}

impl View for CliSpec {
    type V = CliModel;

    closed spec fn view(&self) -> CliModel {
        CliModel {
            name: self.name@,
            about: self.about@,
            version: match self.version {
                Some(v) => Some(v@),
                None => None,
            },
            commands: self.commands@,
            options: self.options@,
            arguments: self.arguments@,
            command_required: self.command_required,
        }
    }
}

impl View for CommandSpec {
    type V = CommandModel;

    closed spec fn view(&self) -> CommandModel {
        CommandModel {
            name: self.name@,
            aliases: strings_view(self.aliases@),
            about: self.about@,
            commands: self.commands@,
            options: self.options@,
            arguments: self.arguments@,
            command_required: self.command_required,
            hidden: self.hidden,
        }
    }
}

impl View for OptionSpec {
    type V = OptionModel;

    closed spec fn view(&self) -> OptionModel {
        OptionModel {
            long: self.long@,
            short: self.short,
            value: self.value,
            value_name: self.value_name@,
            value_type: self.value_type,
            possible_values: strings_view(self.possible_values@),
            about: self.about@,
            required: self.required,
            repeatable: self.repeatable,
            detached_optional_value: self.detached_optional_value,
            terminal: self.terminal,
            hidden: self.hidden,
            conflicts_with: strings_view(self.conflicts_with@),
            required_options: strings_view(self.required_options@),
        }
    }
}

impl View for ArgumentSpec {
    type V = ArgumentModel;

    closed spec fn view(&self) -> ArgumentModel {
        ArgumentModel {
            name: self.name@,
            about: self.about@,
            value_type: self.value_type,
            possible_values: strings_view(self.possible_values@),
            required: self.required,
            multiple: self.multiple,
        }
    }
}

impl View for SpecError {
    type V = Seq<char>;

    closed spec fn view(&self) -> Seq<char> {
        self.message@
    }
}

/// Pushes a copy of `value` onto a list of strings.
fn push_owned(list: &mut Vec<String>, value: &str)
    ensures
        strings_view(final(list)@) == strings_view(old(list)@).push(value@),
{
    let ghost before = list@;
    list.push(owned(value));
    assert(strings_view(list@) =~= strings_view(before).push(value@));
}

impl CliSpec {
    /// A specification with the given binary name and nothing else.
    pub fn new(name: &str) -> (r: Self)
        ensures
            r@ == (CliModel {
                name: name@,
                about: seq![],
                version: None,
                commands: seq![],
                options: seq![],
                arguments: seq![],
                command_required: false,
            }),
    {
        let r = CliSpec {
            name: owned(name),
            about: String::new(),
            version: None,
            commands: Vec::new(),
            options: Vec::new(),
            arguments: Vec::new(),
            command_required: false,
        };
        assert(r@.commands =~= seq![]);
        assert(r@.options =~= seq![]);
        assert(r@.arguments =~= seq![]);
        r
    }

    /// Sets the description.
    pub fn about(self, about: &str) -> (r: Self)
        ensures
            r@ == (CliModel { about: about@, ..self@ }),
    {
        let mut s = self;
        s.about = owned(about);
        s
    }

    /// Sets the version text.
    pub fn version(self, version: &str) -> (r: Self)
        ensures
            r@ == (CliModel { version: Some(version@), ..self@ }),
    {
        let mut s = self;
        s.version = Some(owned(version));
        s
    }

    /// Appends a top-level command.
    pub fn command(self, command: CommandSpec) -> (r: Self)
        ensures
            r@ == (CliModel { commands: self@.commands.push(command), ..self@ }),
    {
        let mut s = self;
        s.commands.push(command);
        s
    }

    /// Appends a global option.
    pub fn option(self, option: OptionSpec) -> (r: Self)
        ensures
            r@ == (CliModel { options: self@.options.push(option), ..self@ }),
    {
        let mut s = self;
        s.options.push(option);
        s
    }

    /// Appends a top-level positional argument.
    pub fn argument(self, argument: ArgumentSpec) -> (r: Self)
        ensures
            r@ == (CliModel { arguments: self@.arguments.push(argument), ..self@ }),
    {
        let mut s = self;
        s.arguments.push(argument);
        s
    }

    /// Sets whether a command must be given.
    pub fn command_required(self, required: bool) -> (r: Self)
        ensures
            r@ == (CliModel { command_required: required, ..self@ }),
    {
        let mut s = self;
        s.command_required = required;
        s
    }

    /// Checks names, uniqueness, option relationships and argument order in every scope.
    pub fn validate(&self) -> (r: Result<(), SpecError>)
        ensures
            r is Ok <==> spec_ok(*self),
            crate::cli::validation::outcome(r) == crate::cli::validation::spec_problem(*self),
    {
        validate_spec(self)
    }

    /// Binary name.
    pub fn name(&self) -> (r: &str)
        ensures
            r@ == self@.name,
    {
        self.name.as_str()
    }

    /// Description.
    pub fn about_text(&self) -> (r: &str)
        ensures
            r@ == self@.about,
    {
        self.about.as_str()
    }

    /// Version text, when set.
    pub fn version_text(&self) -> (r: Option<&str>)
        ensures
            match r {
                Some(v) => self@.version == Some(v@),
                None => self@.version is None,
            },
    {
        match &self.version {
            Some(v) => Some(v.as_str()),
            None => None,
        }
    }

    /// Top-level commands.
    pub fn commands(&self) -> (r: &[CommandSpec])
        ensures
            r@ == self@.commands,
    {
        self.commands.as_slice()
    }

    /// Global options.
    pub fn options(&self) -> (r: &[OptionSpec])
        ensures
            r@ == self@.options,
    {
        self.options.as_slice()
    }

    /// Top-level positional arguments.
    pub fn arguments(&self) -> (r: &[ArgumentSpec])
        ensures
            r@ == self@.arguments,
    {
        self.arguments.as_slice()
    }

    /// Whether a command must be given.
    pub fn is_command_required(&self) -> (r: bool)
        ensures
            r == self@.command_required,
    {
        self.command_required
    }
}

impl CommandSpec {
    /// A command with the given name and nothing else.
    pub fn new(name: &str) -> (r: Self)
        ensures
            r@ == (CommandModel {
                name: name@,
                aliases: seq![],
                about: seq![],
                commands: seq![],
                options: seq![],
                arguments: seq![],
                command_required: false,
                hidden: false,
            }),
    {
        let r = CommandSpec {
            name: owned(name),
            aliases: Vec::new(),
            about: String::new(),
            commands: Vec::new(),
            options: Vec::new(),
            arguments: Vec::new(),
            command_required: false,
            hidden: false,
        };
        assert(r@.aliases =~= seq![]);
        assert(r@.commands =~= seq![]);
        assert(r@.options =~= seq![]);
        assert(r@.arguments =~= seq![]);
        r
    }

    /// Adds an alternative name.
    pub fn alias(self, alias: &str) -> (r: Self)
        ensures
            r@ == (CommandModel { aliases: self@.aliases.push(alias@), ..self@ }),
    {
        let mut s = self;
        push_owned(&mut s.aliases, alias);
        s
    }

    /// Sets the description.
    pub fn about(self, about: &str) -> (r: Self)
        ensures
            r@ == (CommandModel { about: about@, ..self@ }),
    {
        let mut s = self;
        s.about = owned(about);
        s
    }

    /// Appends a subcommand.
    pub fn command(self, command: CommandSpec) -> (r: Self)
        ensures
            r@ == (CommandModel { commands: self@.commands.push(command), ..self@ }),
    {
        let mut s = self;
        s.commands.push(command);
        s
    }

    /// Appends an option visible in this command and its subcommands.
    pub fn option(self, option: OptionSpec) -> (r: Self)
        ensures
            r@ == (CommandModel { options: self@.options.push(option), ..self@ }),
    {
        let mut s = self;
        s.options.push(option);
        s
    }

    /// Appends a positional argument.
    pub fn argument(self, argument: ArgumentSpec) -> (r: Self)
        ensures
            r@ == (CommandModel { arguments: self@.arguments.push(argument), ..self@ }),
    {
        let mut s = self;
        s.arguments.push(argument);
        s
    }

    /// Sets whether a subcommand must be given.
    pub fn command_required(self, required: bool) -> (r: Self)
        ensures
            r@ == (CommandModel { command_required: required, ..self@ }),
    {
        let mut s = self;
        s.command_required = required;
        s
    }

    /// Sets whether the command is left out of help and suggestions.
    pub fn hidden(self, hidden: bool) -> (r: Self)
        ensures
            r@ == (CommandModel { hidden: hidden, ..self@ }),
    {
        let mut s = self;
        s.hidden = hidden;
        s
    }

    /// Command name.
    pub fn name(&self) -> (r: &str)
        ensures
            r@ == self@.name,
    {
        self.name.as_str()
    }

    /// Alternative names.
    pub fn aliases(&self) -> (r: &[String])
        ensures
            strings_view(r@) == self@.aliases,
    {
        self.aliases.as_slice()
    }

    /// Whether `value` is the name or one of the aliases.
    pub fn matches(&self, value: &str) -> (r: bool)
        ensures
            r == (self@.name == value@ || self@.aliases.contains(value@)),
    {
        let v = owned(value);
        if self.name == v {
            return true;
        }
        let mut i: usize = 0;
        while i < self.aliases.len()
            invariant
                i <= self.aliases.len(),
                v@ == value@,
                forall|j: int| 0 <= j < i ==> self.aliases@[j]@ != value@,
            decreases self.aliases.len() - i,
        {
            if self.aliases[i] == v {
                assert(strings_view(self.aliases@)[i as int] == value@);
                return true;
            }
            i = i + 1;
        }
        assert(!strings_view(self.aliases@).contains(value@));
        false
    }

    /// Description.
    pub fn about_text(&self) -> (r: &str)
        ensures
            r@ == self@.about,
    {
        self.about.as_str()
    }

    /// Subcommands.
    pub fn commands(&self) -> (r: &[CommandSpec])
        ensures
            r@ == self@.commands,
    {
        self.commands.as_slice()
    }

    /// Options declared on this command.
    pub fn options(&self) -> (r: &[OptionSpec])
        ensures
            r@ == self@.options,
    {
        self.options.as_slice()
    }

    /// Positional arguments.
    pub fn arguments(&self) -> (r: &[ArgumentSpec])
        ensures
            r@ == self@.arguments,
    {
        self.arguments.as_slice()
    }

    /// Whether a subcommand must be given.
    pub fn is_command_required(&self) -> (r: bool)
        ensures
            r == self@.command_required,
    {
        self.command_required
    }

    /// Whether the command is hidden.
    pub fn is_hidden(&self) -> (r: bool)
        ensures
            r == self@.hidden,
    {
        self.hidden
    }

    /// Height of the command tree rooted here.
    pub closed spec fn depth(self) -> nat
        decreases self,
    {
        1 + Self::forest_depth(self.commands@)
    }

    /// Largest height among the given command trees.
    pub closed spec fn forest_depth(s: Seq<CommandSpec>) -> nat
        decreases s,
    {
        if s.len() == 0 {
            0
        } else {
            let a = s.last().depth();
            let b = Self::forest_depth(s.subrange(0, s.len() - 1));
            if a >= b {
                a
            } else {
                b
            }
        }
    }

    /// Each tree of a forest is no higher than the forest.
    pub proof fn lemma_forest_depth(s: Seq<CommandSpec>, i: int)
        requires
            0 <= i < s.len(),
        ensures
            s[i].depth() <= Self::forest_depth(s),
        decreases s.len(),
    {
        if i < s.len() - 1 {
            Self::lemma_forest_depth(s.subrange(0, s.len() - 1), i);
        }
    }

    /// A command is higher than the forest of its subcommands.
    pub proof fn lemma_depth(self)
        ensures
            Self::forest_depth(self@.commands) < self.depth(),
    {
    }
}

/// The value mode given to a fresh option.
pub open spec fn fresh_option(long: Seq<char>, value: ValueMode) -> OptionModel {
    OptionModel {
        long: long,
        short: None,
        value: value,
        value_name: seq!['V', 'A', 'L', 'U', 'E'],
        value_type: ValueType::String,
        possible_values: seq![],
        about: seq![],
        required: false,
        repeatable: false,
        detached_optional_value: false,
        terminal: false,
        hidden: false,
        conflicts_with: seq![],
        required_options: seq![],
    }
}

impl OptionSpec {
    /// An option that takes no value.
    pub fn flag(long: &str) -> (r: Self)
        ensures
            r@ == fresh_option(long@, ValueMode::Forbidden),
    {
        Self::with_mode(long, ValueMode::Forbidden)
    }

    /// An option that requires a value.
    pub fn value(long: &str) -> (r: Self)
        ensures
            r@ == fresh_option(long@, ValueMode::Required),
    {
        Self::with_mode(long, ValueMode::Required)
    }

    fn with_mode(long: &str, value: ValueMode) -> (r: Self)
        ensures
            r@ == fresh_option(long@, value),
    {
        let mut value_name = String::new();
        crate::text::push_char(&mut value_name, 'V');
        crate::text::push_char(&mut value_name, 'A');
        crate::text::push_char(&mut value_name, 'L');
        crate::text::push_char(&mut value_name, 'U');
        crate::text::push_char(&mut value_name, 'E');
        let r = OptionSpec {
            long: owned(long),
            short: None,
            value,
            value_name,
            value_type: ValueType::String,
            possible_values: Vec::new(),
            about: String::new(),
            required: false,
            repeatable: false,
            detached_optional_value: false,
            terminal: false,
            hidden: false,
            conflicts_with: Vec::new(),
            required_options: Vec::new(),
        };
        assert(r@.possible_values =~= seq![]);
        assert(r@.conflicts_with =~= seq![]);
        assert(r@.required_options =~= seq![]);
        assert(r@.value_name =~= seq!['V', 'A', 'L', 'U', 'E']);
        r
    }

    /// Sets the one-character alias.
    pub fn short(self, short: char) -> (r: Self)
        ensures
            r@ == (OptionModel { short: Some(short), ..self@ }),
    {
        let mut s = self;
        s.short = Some(short);
        s
    }

    /// Makes the value optional.
    pub fn optional_value(self) -> (r: Self)
        ensures
            r@ == (OptionModel { value: ValueMode::Optional, ..self@ }),
    {
        let mut s = self;
        s.value = ValueMode::Optional;
        s
    }

    /// Sets the placeholder shown in help.
    pub fn value_name(self, name: &str) -> (r: Self)
        ensures
            r@ == (OptionModel { value_name: name@, ..self@ }),
    {
        let mut s = self;
        s.value_name = owned(name);
        s
    }

    /// Sets the type that values must parse as.
    pub fn value_type(self, value_type: ValueType) -> (r: Self)
        ensures
            r@ == (OptionModel { value_type: value_type, ..self@ }),
    {
        let mut s = self;
        s.value_type = value_type;
        s
    }

    /// Adds an accepted value.
    pub fn possible_value(self, value: &str) -> (r: Self)
        ensures
            r@ == (OptionModel { possible_values: self@.possible_values.push(value@), ..self@ }),
    {
        let mut s = self;
        push_owned(&mut s.possible_values, value);
        s
    }

    /// Sets the description.
    pub fn about(self, about: &str) -> (r: Self)
        ensures
            r@ == (OptionModel { about: about@, ..self@ }),
    {
        let mut s = self;
        s.about = owned(about);
        s
    }

    /// Sets whether the option must be given.
    pub fn required(self, required: bool) -> (r: Self)
        ensures
            r@ == (OptionModel { required: required, ..self@ }),
    {
        let mut s = self;
        s.required = required;
        s
    }

    /// Sets whether the option may be given more than once.
    pub fn repeatable(self, repeatable: bool) -> (r: Self)
        ensures
            r@ == (OptionModel { repeatable: repeatable, ..self@ }),
    {
        let mut s = self;
        s.repeatable = repeatable;
        s
    }

    /// Allows an optional value to be supplied as the following argument.
    ///
    /// Optional values remain attached-only by default because a detached text
    /// value may otherwise consume a positional argument. Prefer a bounded
    /// [`ValueType`] such as [`ValueType::Bool`] when enabling this behavior.
    pub fn detached_optional_value(self, enabled: bool) -> (r: Self)
        ensures
            r@ == (OptionModel { detached_optional_value: enabled, ..self@ }),
    {
        let mut s = self;
        s.detached_optional_value = enabled;
        s
    }

    /// Sets whether the option ends validation of required inputs (like `--help`).
    pub fn terminal(self, terminal: bool) -> (r: Self)
        ensures
            r@ == (OptionModel { terminal: terminal, ..self@ }),
    {
        let mut s = self;
        s.terminal = terminal;
        s
    }

    /// Sets whether the option is left out of help and suggestions.
    pub fn hidden(self, hidden: bool) -> (r: Self)
        ensures
            r@ == (OptionModel { hidden: hidden, ..self@ }),
    {
        let mut s = self;
        s.hidden = hidden;
        s
    }

    /// Declares an option that may not be combined with this one.
    pub fn conflicts_with(self, long: &str) -> (r: Self)
        ensures
            r@ == (OptionModel { conflicts_with: self@.conflicts_with.push(long@), ..self@ }),
    {
        let mut s = self;
        push_owned(&mut s.conflicts_with, long);
        s
    }

    /// Declares an option that must accompany this one.
    pub fn requires_option(self, long: &str) -> (r: Self)
        ensures
            r@ == (OptionModel { required_options: self@.required_options.push(long@), ..self@ }),
    {
        let mut s = self;
        push_owned(&mut s.required_options, long);
        s
    }

    /// Long name, without dashes.
    pub fn long(&self) -> (r: &str)
        ensures
            r@ == self@.long,
    {
        self.long.as_str()
    }

    /// Short name, when set.
    pub fn short_name(&self) -> (r: Option<char>)
        ensures
            r == self@.short,
    {
        self.short
    }

    /// Value mode.
    pub fn value_mode(&self) -> (r: ValueMode)
        ensures
            r == self@.value,
    {
        self.value
    }

    /// Value placeholder.
    pub fn value_name_text(&self) -> (r: &str)
        ensures
            r@ == self@.value_name,
    {
        self.value_name.as_str()
    }

    /// Value type.
    pub fn value_type_kind(&self) -> (r: ValueType)
        ensures
            r == self@.value_type,
    {
        self.value_type
    }

    /// Accepted values (empty: any value of the type).
    pub fn possible_values(&self) -> (r: &[String])
        ensures
            strings_view(r@) == self@.possible_values,
    {
        self.possible_values.as_slice()
    }

    /// Description.
    pub fn about_text(&self) -> (r: &str)
        ensures
            r@ == self@.about,
    {
        self.about.as_str()
    }

    /// Whether the option must be given.
    pub fn is_required(&self) -> (r: bool)
        ensures
            r == self@.required,
    {
        self.required
    }

    /// Whether the option may repeat.
    pub fn is_repeatable(&self) -> (r: bool)
        ensures
            r == self@.repeatable,
    {
        self.repeatable
    }

    /// Whether an optional value may be the following argument.
    pub fn accepts_detached_optional_value(&self) -> (r: bool)
        ensures
            r == self@.detached_optional_value,
    {
        self.detached_optional_value
    }

    /// Whether the option is terminal.
    pub fn is_terminal(&self) -> (r: bool)
        ensures
            r == self@.terminal,
    {
        self.terminal
    }

    /// Whether the option is hidden.
    pub fn is_hidden(&self) -> (r: bool)
        ensures
            r == self@.hidden,
    {
        self.hidden
    }

    /// Options this one conflicts with.
    pub fn conflicts(&self) -> (r: &[String])
        ensures
            strings_view(r@) == self@.conflicts_with,
    {
        self.conflicts_with.as_slice()
    }

    /// Options this one requires.
    pub fn requirements(&self) -> (r: &[String])
        ensures
            strings_view(r@) == self@.required_options,
    {
        self.required_options.as_slice()
    }
}

impl ArgumentSpec {
    /// An optional, single, untyped argument with the given name.
    pub fn new(name: &str) -> (r: Self)
        ensures
            r@ == (ArgumentModel {
                name: name@,
                about: seq![],
                value_type: ValueType::String,
                possible_values: seq![],
                required: false,
                multiple: false,
            }),
    {
        let r = ArgumentSpec {
            name: owned(name),
            about: String::new(),
            value_type: ValueType::String,
            possible_values: Vec::new(),
            required: false,
            multiple: false,
        };
        assert(r@.possible_values =~= seq![]);
        r
    }

    /// Sets the description.
    pub fn about(self, about: &str) -> (r: Self)
        ensures
            r@ == (ArgumentModel { about: about@, ..self@ }),
    {
        let mut s = self;
        s.about = owned(about);
        s
    }

    /// Sets the type values must parse as.
    pub fn value_type(self, value_type: ValueType) -> (r: Self)
        ensures
            r@ == (ArgumentModel { value_type: value_type, ..self@ }),
    {
        let mut s = self;
        s.value_type = value_type;
        s
    }

    /// Adds an accepted value.
    pub fn possible_value(self, value: &str) -> (r: Self)
        ensures
            r@ == (ArgumentModel { possible_values: self@.possible_values.push(value@), ..self@ }),
    {
        let mut s = self;
        push_owned(&mut s.possible_values, value);
        s
    }

    /// Sets whether the argument must be given.
    pub fn required(self, required: bool) -> (r: Self)
        ensures
            r@ == (ArgumentModel { required: required, ..self@ }),
    {
        let mut s = self;
        s.required = required;
        s
    }

    /// Sets whether the argument collects all remaining positionals.
    pub fn multiple(self, multiple: bool) -> (r: Self)
        ensures
            r@ == (ArgumentModel { multiple: multiple, ..self@ }),
    {
        let mut s = self;
        s.multiple = multiple;
        s
    }

    /// Argument name.
    pub fn name(&self) -> (r: &str)
        ensures
            r@ == self@.name,
    {
        self.name.as_str()
    }

    /// Description.
    pub fn about_text(&self) -> (r: &str)
        ensures
            r@ == self@.about,
    {
        self.about.as_str()
    }

    /// Value type.
    pub fn value_type_kind(&self) -> (r: ValueType)
        ensures
            r == self@.value_type,
    {
        self.value_type
    }

    /// Accepted values.
    pub fn possible_values(&self) -> (r: &[String])
        ensures
            strings_view(r@) == self@.possible_values,
    {
        self.possible_values.as_slice()
    }

    /// Whether the argument must be given.
    pub fn is_required(&self) -> (r: bool)
        ensures
            r == self@.required,
    {
        self.required
    }

    /// Whether the argument is variadic.
    pub fn is_multiple(&self) -> (r: bool)
        ensures
            r == self@.multiple,
    {
        self.multiple
    }
}

impl SpecError {
    /// An error with the given message.
    pub fn new_internal(message: String) -> (r: Self)
        ensures
            r@ == message@,
    {
        SpecError { message }
    }

    /// The diagnostic message.
    pub fn message(&self) -> (r: &str)
        ensures
            r@ == self@,
    {
        self.message.as_str()
    }
}

} // verus!
