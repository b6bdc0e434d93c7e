use crate::cli::error::{CliError, CliErrorKind, CliErrorModel};
use crate::cli::numbers::{is_i64, is_i64_text, is_u64, is_u64_text};
use crate::cli::spec::{strings_view, value_type_text, OptionModel, OptionSpec, ValueMode, ValueType};
use crate::cli::suggestion::{append_suggestion, suggestion_for, with_suggestion};
use crate::text::{chars_of, owned, push_str};
use vstd::prelude::*;

verus! {

/// `value` parses as `t`.
pub open spec fn typed_ok(value: Seq<char>, t: ValueType) -> bool {
    match t {
        ValueType::String => true,
        ValueType::Bool => value == seq!['t', 'r', 'u', 'e'] || value == seq!['f', 'a', 'l', 's', 'e'],
        ValueType::I64 => is_i64_text(value),
        ValueType::U64 => is_u64_text(value),
    }
}

/// `value` is acceptable for a slot of type `t` restricted to `possible` (empty: unrestricted).
pub open spec fn value_ok(value: Seq<char>, t: ValueType, possible: Seq<Seq<char>>) -> bool {
    typed_ok(value, t) && (possible.len() == 0 || possible.contains(value))
}

/// `values` joined with `sep` between consecutive items.
pub open spec fn joined(values: Seq<Seq<char>>, sep: Seq<char>) -> Seq<char>
    decreases values.len(),
{
    if values.len() == 0 {
        seq![]
    } else if values.len() == 1 {
        values[0]
    } else {
        joined(values.drop_last(), sep) + sep + values.last()
    }
}

/// Diagnostic for a value that fails its slot.
pub open spec fn value_error_message(
    value: Seq<char>,
    t: ValueType,
    possible: Seq<Seq<char>>,
    owner: Seq<char>,
) -> Seq<char> {
    if !typed_ok(value, t) {
        "invalid value `"@ + value + "` for `"@ + owner + "`; expected "@ + value_type_text(t)
    } else {
        with_suggestion(
            "invalid value `"@ + value + "` for `"@ + owner + "`; expected one of: "@ + joined(possible, ", "@),
            suggestion_for(value, possible),
            ""@,
        )
    }
}

/// `values` joined with `sep`.
pub fn join_strings(values: &[String], sep: &str) -> (r: String)
    ensures
        r@ == joined(strings_view(values@), sep@),
{
    let ghost vs = strings_view(values@);
    let mut r = String::new();
    let mut i: usize = 0;
    while i < values.len()
        invariant
            i <= values.len(),
            vs == strings_view(values@),
            r@ == joined(vs.take(i as int), sep@),
        decreases values.len() - i,
    {
        if i != 0 {
            push_str(&mut r, sep);
        }
        push_str(&mut r, values[i].as_str());
        proof {
            assert(vs.take(i + 1).drop_last() =~= vs.take(i as int));
            assert(vs[i as int] == values@[i as int]@);
            if i == 0 {
                assert(joined(vs.take(0), sep@) =~= seq![]);
                assert(r@ =~= vs.take(1)[0]);
            }
        }
        i = i + 1;
    }
    assert(vs.take(values.len() as int) =~= vs);
    r
}

/// Whether `value` parses as `t`.
pub fn typed_ok_exec(value: &Vec<char>, t: ValueType) -> (r: bool)
    ensures
        r == typed_ok(value@, t),
{
    match t {
        ValueType::String => true,
        ValueType::Bool => {
            let v = value;
            let is_true = v.len() == 4 && v[0] == 't' && v[1] == 'r' && v[2] == 'u' && v[3] == 'e';
            let is_false = v.len() == 5 && v[0] == 'f' && v[1] == 'a' && v[2] == 'l' && v[3] == 's'
                && v[4] == 'e';
            assert(is_true <==> v@ =~= seq!['t', 'r', 'u', 'e']);
            assert(is_false <==> v@ =~= seq!['f', 'a', 'l', 's', 'e']);
            is_true || is_false
        },
        ValueType::I64 => is_i64(value),
        ValueType::U64 => is_u64(value),
    }
}

/// Whether `value` is one of `possible`.
pub fn contains_value(possible: &[String], value: &str) -> (r: bool)
    ensures
        r == strings_view(possible@).contains(value@),
{
    let v = owned(value);
    let mut i: usize = 0;
    while i < possible.len()
        invariant
            i <= possible.len(),
            v@ == value@,
            forall|j: int| 0 <= j < i ==> possible@[j]@ != value@,
        decreases possible.len() - i,
    {
        if possible[i] == v {
            assert(strings_view(possible@)[i as int] == value@);
            return true;
        }
        i = i + 1;
    }
    false
}

/// Checks a value against its type and possible values.
pub fn validate_value(value: &str, value_type: ValueType, possible: &[String], owner: &str) -> (r: Result<(), CliError>)
    ensures
        r is Ok <==> value_ok(value@, value_type, strings_view(possible@)),
        r matches Err(e) ==> e@.kind == CliErrorKind::InvalidValue && e@.message == value_error_message(
            value@,
            value_type,
            strings_view(possible@),
            owner@,
        ),
{
    let chars = chars_of(value);
    if !typed_ok_exec(&chars, value_type) {
        let mut m = owned("invalid value `");
        push_str(&mut m, value);
        push_str(&mut m, "` for `");
        push_str(&mut m, owner);
        push_str(&mut m, "`; expected ");
        push_str(&mut m, value_type.display_text());
        return Err(CliError::new(CliErrorKind::InvalidValue, m));
    }
    if possible.len() != 0 && !contains_value(possible, value) {
        let mut m = owned("invalid value `");
        push_str(&mut m, value);
        push_str(&mut m, "` for `");
        push_str(&mut m, owner);
        push_str(&mut m, "`; expected one of: ");
        let list = join_strings(possible, ", ");
        push_str(&mut m, list.as_str());
        let message = append_suggestion(m, value, possible, "");
        return Err(CliError::new(CliErrorKind::InvalidValue, message));
    }
    Ok(())
}

/// Outcome of reading the value of an option found at `index`.
pub open spec fn option_value_spec(
    words: Seq<Seq<char>>,
    index: int,
    inline: Option<Seq<char>>,
    o: OptionModel,
    short: bool,
) -> Result<(Option<Seq<char>>, int), CliErrorModel> {
    match o.value {
        ValueMode::Forbidden => if inline is Some && !short {
            Err(CliErrorModel { kind: CliErrorKind::InvalidValue, message: "option `--"@ + o.long + "` does not accept a value"@ })
        } else {
            Ok((None, index + 1))
        },
        ValueMode::Optional => if inline is Some || !o.detached_optional_value {
            Ok((inline, index + 1))
        } else if index + 1 >= words.len() {
            Ok((None, index + 1))
        } else if value_ok(words[index + 1], o.value_type, o.possible_values) {
            Ok((Some(words[index + 1]), index + 2))
        } else {
            Ok((None, index + 1))
        },
        ValueMode::Required => match inline {
            Some(v) => Ok((Some(v), index + 1)),
            None => if index + 1 < words.len() {
                Ok((Some(words[index + 1]), index + 2))
            } else {
                Err(CliErrorModel { kind: CliErrorKind::MissingValue, message: "option `--"@ + o.long + "` requires a value"@ })
            },
        },
    }
}

/// `--` followed by `long`, as used in diagnostics.
pub fn dashed(long: &str) -> (r: String)
    ensures
        r@ == "--"@ + long@,
{
    let mut m = owned("--");
    push_str(&mut m, long);
    m
}

/// Reads the value of `option` found at `words[index]`, with an attached `inline` value if any.
pub fn option_value(
    words: &[String],
    index: usize,
    inline: Option<String>,
    option: &OptionSpec,
    short: bool,
) -> (r: Result<(Option<String>, usize), CliError>)
    requires
        index < words.len(),
    ensures
        match (r, option_value_spec(
            strings_view(words@),
            index as int,
            match inline {
                Some(v) => Some(v@),
                None => None,
            },
            option@,
            short,
        )) {
            (Ok((v, n)), Ok((sv, sn))) => n == sn && match v {
                Some(x) => sv == Some(x@),
                None => sv is None,
            },
            (Err(e), Err(k)) => e@ == k,
            _ => false,
        },
{
    match option.value_mode() {
        ValueMode::Forbidden => {
            if inline.is_some() && !short {
                let mut m = owned("option `--");
                push_str(&mut m, option.long());
                push_str(&mut m, "` does not accept a value");
                Err(CliError::new(CliErrorKind::InvalidValue, m))
            } else {
                Ok((None, index + 1))
            }
        },
        ValueMode::Optional => {
            if inline.is_some() || !option.accepts_detached_optional_value() {
                return Ok((inline, index + 1));
            }
            if index + 1 >= words.len() {
                return Ok((None, index + 1));
            }
            let candidate = &words[index + 1];
            assert(strings_view(words@)[index + 1] == candidate@);
            let owner = dashed(option.long());
            if validate_value(
                candidate.as_str(),
                option.value_type_kind(),
                option.possible_values(),
                owner.as_str(),
            ).is_ok() {
                Ok((Some(candidate.clone()), index + 2))
            } else {
                Ok((None, index + 1))
            }
        },
        ValueMode::Required => {
            match inline {
                Some(value) => Ok((Some(value), index + 1)),
                None => {
                    if index + 1 < words.len() {
                        assert(strings_view(words@)[index + 1] == words@[index + 1]@);
                        Ok((Some(words[index + 1].clone()), index + 2))
                    } else {
                        let mut m = owned("option `--");
                        push_str(&mut m, option.long());
                        push_str(&mut m, "` requires a value");
                        Err(CliError::new(CliErrorKind::MissingValue, m))
                    }
                },
            }
        },
    }
}

} // verus!
