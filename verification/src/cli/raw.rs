use crate::cli::error::{CliError, CliErrorKind};
use crate::cli::spec::strings_view;
use crate::text::{chars_of, contains_char, decimal, has_char, owned, push_decimal, push_str, utf8_len};
use vstd::prelude::*;

verus! {

/// Bounds on raw command-line input.
#[derive(Clone, Copy, Debug, PartialEq, Eq, Structural)]
pub struct ArgLimits {
    pub max_words: usize,
    pub max_word_bytes: usize,
    pub max_total_bytes: usize,
}

/// Bounded, NUL-free UTF-8 command-line words.
#[derive(Clone, Debug, PartialEq, Eq)]
pub struct RawArgs {
    words: Vec<String>,
}

impl View for RawArgs {
    type V = Seq<Seq<char>>;

    closed spec fn view(&self) -> Seq<Seq<char>> {
        strings_view(self.words@)
    }
}

/// The limits used when none are given.
pub open spec fn default_limits() -> ArgLimits {
    ArgLimits { max_words: 1024, max_word_bytes: 65536, max_total_bytes: 1048576 }
}

impl Default for ArgLimits {
    fn default() -> (r: Self)
        ensures
            r == default_limits(),
    {
        ArgLimits { max_words: 1024, max_word_bytes: 65536, max_total_bytes: 1048576 }
    }
}

/// Total UTF-8 bytes of a list of words.
pub open spec fn total_len(ws: Seq<Seq<char>>) -> nat
    decreases ws.len(),
{
    if ws.len() == 0 {
        0
    } else {
        total_len(ws.drop_last()) + utf8_len(ws.last())
    }
}

/// Word `i` respects the limits, given the words before it.
pub open spec fn word_ok(ws: Seq<Seq<char>>, i: int, limits: ArgLimits) -> bool {
    &&& i < limits.max_words
    &&& utf8_len(ws[i]) <= limits.max_word_bytes
    &&& total_len(ws.take(i)) + utf8_len(ws[i]) <= limits.max_total_bytes
    &&& !has_char(ws[i], '\0')
}

/// Every word respects the limits.
pub open spec fn raw_ok(ws: Seq<Seq<char>>, limits: ArgLimits) -> bool {
    forall|i: int| 0 <= i < ws.len() ==> #[trigger] word_ok(ws, i, limits)
}

/// Diagnostic for word `i`, the first that breaks the limits.
pub open spec fn word_problem(ws: Seq<Seq<char>>, i: int, limits: ArgLimits) -> Seq<char> {
    if i >= limits.max_words {
        "argument count exceeds limit of "@ + decimal(limits.max_words as nat)
    } else if utf8_len(ws[i]) > limits.max_word_bytes {
        "argument "@ + decimal((i + 1) as nat) + " exceeds byte limit of "@ + decimal(limits.max_word_bytes as nat)
    } else if total_len(ws.take(i)) + utf8_len(ws[i]) > limits.max_total_bytes {
        "total argument bytes exceed limit of "@ + decimal(limits.max_total_bytes as nat)
    } else {
        "argument "@ + decimal((i + 1) as nat) + " contains a NUL byte"@
    }
}

/// The words are refused at word `i`, the first that breaks the limits, with message `m`.
pub open spec fn refused_at(ws: Seq<Seq<char>>, limits: ArgLimits, i: int, m: Seq<char>) -> bool {
    &&& 0 <= i < ws.len()
    &&& !word_ok(ws, i, limits)
    &&& forall|j: int| 0 <= j < i ==> #[trigger] word_ok(ws, j, limits)
    &&& m == word_problem(ws, i, limits)
}

/// The text of a list of string slices.
pub open spec fn strs_view(args: Seq<&str>) -> Seq<Seq<char>> {
    args.map_values(|s: &str| s@)
}

impl RawArgs {
    /// Accepts the words under the default limits.
    pub fn parse(args: &[&str]) -> (r: Result<Self, CliError>)
        ensures
            r is Ok <==> raw_ok(strs_view(args@), default_limits()),
            r matches Ok(raw) ==> raw@ == strs_view(args@),
            r matches Err(e) ==> e@.kind == CliErrorKind::InvalidInput && exists|i: int|
                refused_at(strs_view(args@), default_limits(), i, e@.message),
    {
        Self::parse_with_limits(args, ArgLimits::default())
    }

    /// Accepts the words when every word and the total respect `limits` and no word holds NUL.
    pub fn parse_with_limits(args: &[&str], limits: ArgLimits) -> (r: Result<Self, CliError>)
        ensures
            r is Ok <==> raw_ok(strs_view(args@), limits),
            r matches Ok(raw) ==> raw@ == strs_view(args@),
            r matches Err(e) ==> e@.kind == CliErrorKind::InvalidInput && exists|i: int|
                refused_at(strs_view(args@), limits, i, e@.message),
    {
        let ghost ws = strs_view(args@);
        let mut words: Vec<String> = Vec::new();
        let mut total: usize = 0;
        let mut i: usize = 0;
        while i < args.len()
            invariant
                i <= args.len(),
                ws == strs_view(args@),
                strings_view(words@) == ws.take(i as int),
                words@.len() == i,
                total == total_len(ws.take(i as int)),
                total <= limits.max_total_bytes,
                forall|j: int| 0 <= j < i ==> #[trigger] word_ok(ws, j, limits),
            decreases args.len() - i,
        {
            let value = args[i];
            assert(ws[i as int] == value@);
            let bytes = value.as_bytes();
            let len = bytes.len();
            assert(bytes@ == vstd::utf8::encode_utf8(value@));
            assert(len == utf8_len(ws[i as int]));
            assert(ws.take(i + 1).drop_last() =~= ws.take(i as int));
            if i >= limits.max_words {
                let mut m = owned("argument count exceeds limit of ");
                push_decimal(&mut m, limits.max_words);
                assert(!word_ok(ws, i as int, limits));
                let e = CliError::new(CliErrorKind::InvalidInput, m);
                assert(refused_at(strs_view(args@), limits, i as int, e@.message));
                return Err(e);
            }
            if len > limits.max_word_bytes {
                let mut m = owned("argument ");
                push_decimal(&mut m, i + 1);
                push_str(&mut m, " exceeds byte limit of ");
                push_decimal(&mut m, limits.max_word_bytes);
                assert(!word_ok(ws, i as int, limits));
                let e = CliError::new(CliErrorKind::InvalidInput, m);
                assert(refused_at(strs_view(args@), limits, i as int, e@.message));
                return Err(e);
            }
            if len > limits.max_total_bytes - total {
                let mut m = owned("total argument bytes exceed limit of ");
                push_decimal(&mut m, limits.max_total_bytes);
                assert(!word_ok(ws, i as int, limits));
                let e = CliError::new(CliErrorKind::InvalidInput, m);
                assert(refused_at(strs_view(args@), limits, i as int, e@.message));
                return Err(e);
            }
            let chars = chars_of(value);
            if contains_char(&chars, '\0') {
                let mut m = owned("argument ");
                push_decimal(&mut m, i + 1);
                push_str(&mut m, " contains a NUL byte");
                assert(!word_ok(ws, i as int, limits));
                let e = CliError::new(CliErrorKind::InvalidInput, m);
                assert(refused_at(strs_view(args@), limits, i as int, e@.message));
                return Err(e);
            }
            total = total + len;
            let ghost before = words@;
            let x = owned(value);
            words.push(x);
            proof {
                crate::cli::spec::lemma_strings_view_push(before, x);
                assert(ws.take(i as int).push(value@) =~= ws.take(i + 1));
            }
            i = i + 1;
        }
        assert(ws.take(args.len() as int) =~= ws);
        Ok(RawArgs { words })
    }

    /// The accepted words.
    pub fn words(&self) -> (r: &[String])
        ensures
            strings_view(r@) == self@,
    {
        self.words.as_slice()
    }
}

} // verus!
