use crate::cli::help::path_view;
use crate::cli::value::joined;
use crate::text::{chars_of, is_ascii_alnum, is_name, is_name_exec, owned, push_char, push_str, text_eq};
use vstd::prelude::*;

verus! {

/// Shells for which a completion script can be produced.
#[derive(Clone, Copy, Debug, PartialEq, Eq, Structural)]
pub enum Shell {
    Bash,
    Zsh,
    Fish,
    PowerShell,
}

/// A refused completion-script request.
#[derive(Clone, Debug, PartialEq, Eq)]
pub struct ShellScriptError {
    message: String,
}

impl View for ShellScriptError {
    type V = Seq<char>;

    closed spec fn view(&self) -> Seq<char> {
        self.message@
    }
}

/// The shell named by `value`, if any (`pwsh` is an alias of `powershell`).
pub open spec fn shell_named(value: Seq<char>) -> Option<Shell> {
    if value == "bash"@ {
        Some(Shell::Bash)
    } else if value == "zsh"@ {
        Some(Shell::Zsh)
    } else if value == "fish"@ {
        Some(Shell::Fish)
    } else if value == "powershell"@ || value == "pwsh"@ {
        Some(Shell::PowerShell)
    } else {
        None
    }
}

/// The canonical name of a shell.
pub open spec fn shell_name(shell: Shell) -> Seq<char> {
    match shell {
        Shell::Bash => "bash"@,
        Shell::Zsh => "zsh"@,
        Shell::Fish => "fish"@,
        Shell::PowerShell => "powershell"@,
    }
}

impl Shell {
    /// Reads a shell name.
    pub fn parse(value: &str) -> (r: Option<Shell>)
        ensures
            r == shell_named(value@),
    {
        if text_eq(value, "bash") {
            Some(Shell::Bash)
        } else if text_eq(value, "zsh") {
            Some(Shell::Zsh)
        } else if text_eq(value, "fish") {
            Some(Shell::Fish)
        } else if text_eq(value, "powershell") || text_eq(value, "pwsh") {
            Some(Shell::PowerShell)
        } else {
            None
        }
    }

    /// The canonical name of the shell.
    pub fn display_text(self) -> (r: &'static str)
        ensures
            r@ == shell_name(self),
    {
        match self {
            Shell::Bash => "bash",
            Shell::Zsh => "zsh",
            Shell::Fish => "fish",
            Shell::PowerShell => "powershell",
        }
    }
}

impl ShellScriptError {
    /// The diagnostic message.
    pub fn message(&self) -> (r: &str)
        ensures
            r@ == self@,
    {
        self.message.as_str()
    }
}

/// Diagnostic for a token that could break out of a shell word.
pub open spec fn unsafe_token_message(kind: Seq<char>, value: Seq<char>) -> Seq<char> {
    "unsafe "@ + kind + " token `"@ + value + "`"@
}

/// Identifier of the shell function: `_`, the binary with every non-alphanumeric character
/// turned into `_`, then `_complete`.
pub open spec fn function_name(binary: Seq<char>) -> Seq<char> {
    "_"@ + binary.map_values(|c: char| if is_ascii_alnum(c) { c } else { '_' }) + "_complete"@
}

/// The command that a script runs to ask for candidates.
pub open spec fn command_prefix(binary: Seq<char>, parts: Seq<Seq<char>>) -> Seq<char> {
    joined(seq![binary] + parts, seq![' '])
}

/// Bash completion script.
pub open spec fn bash_script(binary: Seq<char>, parts: Seq<Seq<char>>) -> Seq<char> {
    function_name(binary)
        + "() {\n    local IFS=$'\\n'\n    COMPREPLY=( $("@
        + command_prefix(binary, parts)
        + " bash \"$COMP_CWORD\" \"${COMP_WORDS[@]}\") )\n}\ncomplete -o bashdefault -o default -F "@
        + function_name(binary)
        + " "@
        + binary
        + "\n"@
}

/// Zsh completion script.
pub open spec fn zsh_script(binary: Seq<char>, parts: Seq<Seq<char>>) -> Seq<char> {
    function_name(binary)
        + "() {\n    local -a completions\n    completions=(\"${(@f)$("@
        + command_prefix(binary, parts)
        + " zsh \"$((CURRENT - 1))\" \"${words[@]}\")}\")\n    if (( ${#completions} )); then\n        compadd -- \"${completions[@]}\"\n    else\n        _files\n    fi\n}\ncompdef "@
        + function_name(binary)
        + " "@
        + binary
        + "\n"@
}

/// Fish completion script.
pub open spec fn fish_script(binary: Seq<char>, parts: Seq<Seq<char>>) -> Seq<char> {
    "complete -c "@
        + binary
        + " -a '(set -l words (commandline -opc); set -a words (commandline -ct); set -l cursor (math (count $words) - 1); "@
        + command_prefix(binary, parts)
        + " fish $cursor $words)'\n"@
}

/// PowerShell completion script.
pub open spec fn powershell_script(binary: Seq<char>, parts: Seq<Seq<char>>) -> Seq<char> {
    "Register-ArgumentCompleter -Native -CommandName '"@
        + binary
        + "' -ScriptBlock {\n    param($wordToComplete, $commandAst, $cursorPosition)\n    $words = @($commandAst.CommandElements | ForEach-Object { $_.ToString() })\n    $cursorWord = [Math]::Max(0, $words.Count - 1)\n    $custom = @(& "@
        + command_prefix(binary, parts)
        + " powershell $cursorWord @words)\n    if ($custom.Count -gt 0) {\n        $custom | ForEach-Object { [System.Management.Automation.CompletionResult]::new($_, $_, 'ParameterValue', $_) }\n    } else {\n        Get-ChildItem -Name -Path \"$wordToComplete*\" -ErrorAction SilentlyContinue |\n            ForEach-Object { [System.Management.Automation.CompletionResult]::new($_, $_, 'ProviderItem', $_) }\n    }\n}\n"@
}

/// The completion script for `shell`.
pub open spec fn script_for(shell: Shell, binary: Seq<char>, parts: Seq<Seq<char>>) -> Seq<char> {
    match shell {
        Shell::Bash => bash_script(binary, parts),
        Shell::Zsh => zsh_script(binary, parts),
        Shell::Fish => fish_script(binary, parts),
        Shell::PowerShell => powershell_script(binary, parts),
    }
}

/// Every part of the completion command is a safe token.
pub open spec fn parts_safe(parts: Seq<Seq<char>>) -> bool {
    forall|i: int| 0 <= i < parts.len() ==> #[trigger] is_name(parts[i])
}

fn validate_token(kind: &str, value: &str) -> (r: Result<(), ShellScriptError>)
    ensures
        r is Ok <==> is_name(value@),
        r matches Err(e) ==> e@ == unsafe_token_message(kind@, value@),
{
    let chars = chars_of(value);
    if is_name_exec(&chars) {
        Ok(())
    } else {
        let mut message = owned("unsafe ");
        push_str(&mut message, kind);
        push_str(&mut message, " token `");
        push_str(&mut message, value);
        push_str(&mut message, "`");
        Err(ShellScriptError { message })
    }
}

fn function_name_exec(binary: &str) -> (r: String)
    ensures
        r@ == function_name(binary@),
{
    let chars = chars_of(binary);
    let ghost mapped = binary@.map_values(|c: char| if is_ascii_alnum(c) { c } else { '_' });
    let mut r = owned("_");
    let ghost start = r@;
    let mut i: usize = 0;
    assert(start + mapped.take(0) =~= start);
    while i < chars.len()
        invariant
            i <= chars.len(),
            chars@ == binary@,
            mapped == binary@.map_values(|c: char| if is_ascii_alnum(c) { c } else { '_' }),
            r@ == start + mapped.take(i as int),
        decreases chars.len() - i,
    {
        let c = chars[i];
        let code = c as u32;
        let alnum = (('a' as u32) <= code && code <= ('z' as u32)) || (('A' as u32) <= code && code
            <= ('Z' as u32)) || (('0' as u32) <= code && code <= ('9' as u32));
        assert(alnum == is_ascii_alnum(c));
        if alnum {
            push_char(&mut r, c);
        } else {
            push_char(&mut r, '_');
        }
        assert(mapped.take(i + 1) =~= mapped.take(i as int).push(mapped[i as int]));
        i = i + 1;
    }
    assert(mapped.take(chars.len() as int) =~= mapped);
    push_str(&mut r, "_complete");
    r
}

fn command_prefix_exec(binary: &str, parts: &[&str]) -> (r: String)
    ensures
        r@ == command_prefix(binary@, path_view(parts@)),
{
    let ghost all = seq![binary@] + path_view(parts@);
    let mut r = owned(binary);
    assert(all.take(1) =~= seq![binary@]);
    let mut i: usize = 0;
    while i < parts.len()
        invariant
            i <= parts.len(),
            all == seq![binary@] + path_view(parts@),
            r@ == joined(all.take(i + 1), seq![' ']),
        decreases parts.len() - i,
    {
        push_char(&mut r, ' ');
        push_str(&mut r, parts[i]);
        assert(all.take(i + 2).drop_last() =~= all.take(i + 1));
        assert(all[i + 1] == parts@[i as int]@);
        assert(r@ =~= joined(all.take(i + 2), seq![' ']));
        i = i + 1;
    }
    assert(all.take(parts.len() + 1) =~= all);
    r
}

/// Bash completion script.
fn bash_script_exec(binary: &str, parts: &[&str]) -> (r: String)
    ensures
        r@ == bash_script(binary@, path_view(parts@)),
{
    let function = function_name_exec(binary);
    let prefix = command_prefix_exec(binary, parts);
    let mut r = String::new();
    push_str(&mut r, function.as_str());
    push_str(&mut r, "() {\n    local IFS=$'\\n'\n    COMPREPLY=( $(");
    push_str(&mut r, prefix.as_str());
    push_str(&mut r, " bash \"$COMP_CWORD\" \"${COMP_WORDS[@]}\") )\n}\ncomplete -o bashdefault -o default -F ");
    push_str(&mut r, function.as_str());
    push_str(&mut r, " ");
    push_str(&mut r, binary);
    push_str(&mut r, "\n");
    assert(r@ =~= bash_script(binary@, path_view(parts@)));
    r
}

/// Zsh completion script.
fn zsh_script_exec(binary: &str, parts: &[&str]) -> (r: String)
    ensures
        r@ == zsh_script(binary@, path_view(parts@)),
{
    let function = function_name_exec(binary);
    let prefix = command_prefix_exec(binary, parts);
    let mut r = String::new();
    push_str(&mut r, function.as_str());
    push_str(&mut r, "() {\n    local -a completions\n    completions=(\"${(@f)$(");
    push_str(&mut r, prefix.as_str());
    push_str(&mut r, " zsh \"$((CURRENT - 1))\" \"${words[@]}\")}\")\n    if (( ${#completions} )); then\n        compadd -- \"${completions[@]}\"\n    else\n        _files\n    fi\n}\ncompdef ");
    push_str(&mut r, function.as_str());
    push_str(&mut r, " ");
    push_str(&mut r, binary);
    push_str(&mut r, "\n");
    assert(r@ =~= zsh_script(binary@, path_view(parts@)));
    r
}

/// Fish completion script.
fn fish_script_exec(binary: &str, parts: &[&str]) -> (r: String)
    ensures
        r@ == fish_script(binary@, path_view(parts@)),
{
    let prefix = command_prefix_exec(binary, parts);
    let mut r = String::new();
    push_str(&mut r, "complete -c ");
    push_str(&mut r, binary);
    push_str(&mut r, " -a '(set -l words (commandline -opc); set -a words (commandline -ct); set -l cursor (math (count $words) - 1); ");
    push_str(&mut r, prefix.as_str());
    push_str(&mut r, " fish $cursor $words)'\n");
    assert(r@ =~= fish_script(binary@, path_view(parts@)));
    r
}

/// PowerShell completion script.
fn powershell_script_exec(binary: &str, parts: &[&str]) -> (r: String)
    ensures
        r@ == powershell_script(binary@, path_view(parts@)),
{
    let prefix = command_prefix_exec(binary, parts);
    let mut r = String::new();
    push_str(&mut r, "Register-ArgumentCompleter -Native -CommandName '");
    push_str(&mut r, binary);
    push_str(&mut r, "' -ScriptBlock {\n    param($wordToComplete, $commandAst, $cursorPosition)\n    $words = @($commandAst.CommandElements | ForEach-Object { $_.ToString() })\n    $cursorWord = [Math]::Max(0, $words.Count - 1)\n    $custom = @(& ");
    push_str(&mut r, prefix.as_str());
    push_str(&mut r, " powershell $cursorWord @words)\n    if ($custom.Count -gt 0) {\n        $custom | ForEach-Object { [System.Management.Automation.CompletionResult]::new($_, $_, 'ParameterValue', $_) }\n    } else {\n        Get-ChildItem -Name -Path \"$wordToComplete*\" -ErrorAction SilentlyContinue |\n            ForEach-Object { [System.Management.Automation.CompletionResult]::new($_, $_, 'ProviderItem', $_) }\n    }\n}\n");
    assert(r@ =~= powershell_script(binary@, path_view(parts@)));
    r
}

/// A script that asks `binary completion_command...` for candidates as the user types.
pub fn render_dynamic_completion_script(binary: &str, completion_command: &[&str], shell: Shell) -> (r: Result<
    String,
    ShellScriptError,
>)
    ensures
        r is Ok <==> is_name(binary@) && parts_safe(path_view(completion_command@)),
        r matches Ok(text) ==> text@ == script_for(shell, binary@, path_view(completion_command@)),
        r matches Err(e) ==> !is_name(binary@) ==> e@ == unsafe_token_message("binary"@, binary@),
        r matches Err(e) ==> is_name(binary@) ==> exists|i: int|
            0 <= i < completion_command@.len() && !is_name(path_view(completion_command@)[i]) && (forall|j: int|
                0 <= j < i ==> is_name(#[trigger] path_view(completion_command@)[j])) && e@
                == unsafe_token_message("completion command"@, path_view(completion_command@)[i]),
{
    let ghost parts = path_view(completion_command@);
    match validate_token("binary", binary) {
        Ok(()) => {},
        Err(e) => {
            return Err(e);
        },
    }
    let mut i: usize = 0;
    while i < completion_command.len()
        invariant
            i <= completion_command.len(),
            parts == path_view(completion_command@),
            is_name(binary@),
            forall|j: int| 0 <= j < i ==> is_name(#[trigger] parts[j]),
        decreases completion_command.len() - i,
    {
        assert(parts[i as int] == completion_command@[i as int]@);
        match validate_token("completion command", completion_command[i]) {
            Ok(()) => {},
            Err(e) => {
                assert(!is_name(parts[i as int]));
                return Err(e);
            },
        }
        i = i + 1;
    }
    let text = match shell {
        Shell::Bash => bash_script_exec(binary, completion_command),
        Shell::Zsh => zsh_script_exec(binary, completion_command),
        Shell::Fish => fish_script_exec(binary, completion_command),
        Shell::PowerShell => powershell_script_exec(binary, completion_command),
    };
    Ok(text)
}

} // verus!
