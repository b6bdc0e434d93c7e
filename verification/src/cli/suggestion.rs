use crate::cli::spec::strings_view;
use crate::text::push_str;
use vstd::prelude::*;

verus! {

/// Longest input or candidate, in bytes, for which a suggestion is computed.
pub const MAX_SUGGESTION_BYTES: usize = 128;

/// Smallest of three numbers.
pub open spec fn min3(x: nat, y: nat, z: nat) -> nat {
    let m = if x <= y { x } else { y };
    if m <= z { m } else { z }
}

/// Levenshtein distance between the first `i` bytes of `a` and the first `j` bytes of `b`.
pub open spec fn lev(a: Seq<u8>, b: Seq<u8>, i: int, j: int) -> nat
    decreases i + j,
{
    if i <= 0 {
        if j <= 0 { 0 } else { j as nat }
    } else if j <= 0 {
        i as nat
    } else {
        min3(
            lev(a, b, i - 1, j - 1) + if a[i - 1] == b[j - 1] { 0nat } else { 1nat },
            lev(a, b, i - 1, j) + 1,
            lev(a, b, i, j - 1) + 1,
        )
    }
}

/// Levenshtein distance between two byte strings.
pub open spec fn edit_distance(a: Seq<u8>, b: Seq<u8>) -> nat {
    lev(a, b, a.len() as int, b.len() as int)
}

/// Distance tolerated for a pair whose longer member has `length` bytes.
pub open spec fn accepted_distance(length: nat) -> nat {
    if length <= 4 { 1 } else if length <= 8 { 2 } else { 3 }
}

/// A candidate close enough to `input` to be suggested.
pub open spec fn eligible(input: Seq<u8>, c: Seq<u8>) -> bool {
    let longer = if input.len() >= c.len() { input.len() } else { c.len() };
    c.len() <= MAX_SUGGESTION_BYTES && edit_distance(input, c) <= accepted_distance(longer)
}

/// `x` is strictly closer to `input` than `y`: smaller distance, then shorter.
pub open spec fn closer(input: Seq<u8>, x: Seq<u8>, y: Seq<u8>) -> bool {
    edit_distance(input, x) < edit_distance(input, y) || (edit_distance(input, x)
        == edit_distance(input, y) && x.len() < y.len())
}

/// Index of the closest eligible candidate among the first `n`; the first one wins ties.
pub open spec fn best_among(input: Seq<u8>, cands: Seq<Seq<u8>>, n: int) -> Option<int>
    decreases n,
{
    if n <= 0 {
        None
    } else {
        let b = best_among(input, cands, n - 1);
        if eligible(input, cands[n - 1]) && match b {
            None => true,
            Some(k) => closer(input, cands[n - 1], cands[k]),
        } {
            Some(n - 1)
        } else {
            b
        }
    }
}

/// The suggestion for `input` among `cands`, if any.
pub open spec fn closest_spec(input: Seq<u8>, cands: Seq<Seq<u8>>) -> Option<int> {
    if input.len() > MAX_SUGGESTION_BYTES {
        None
    } else {
        best_among(input, cands, cands.len() as int)
    }
}

/// The UTF-8 bytes of each string.
pub open spec fn strings_bytes(v: Seq<String>) -> Seq<Seq<u8>> {
    v.map_values(|s: String| vstd::utf8::encode_utf8(s@))
}

proof fn lemma_lev_bound(a: Seq<u8>, b: Seq<u8>, i: int, j: int)
    requires
        0 <= i,
        0 <= j,
    ensures
        lev(a, b, i, j) <= i + j,
    decreases i + j,
{
    if i > 0 && j > 0 {
        lemma_lev_bound(a, b, i - 1, j - 1);
    }
}

/// Levenshtein distance of two short byte strings.
pub fn edit_distance_exec(left: &[u8], right: &[u8]) -> (r: usize)
    requires
        left@.len() <= MAX_SUGGESTION_BYTES,
        right@.len() <= MAX_SUGGESTION_BYTES,
    ensures
        r == edit_distance(left@, right@),
{
    let n = left.len();
    let m = right.len();
    let mut previous: Vec<usize> = Vec::new();
    let mut k: usize = 0;
    while k <= m
        invariant
            k <= m + 1,
            m == right@.len(),
            m <= MAX_SUGGESTION_BYTES,
            previous@.len() == k,
            forall|x: int| 0 <= x < k ==> previous@[x] == lev(left@, right@, 0, x),
        decreases m + 1 - k,
    {
        previous.push(k);
        k = k + 1;
    }
    let mut current: Vec<usize> = Vec::new();
    let mut k2: usize = 0;
    while k2 <= m
        invariant
            k2 <= m + 1,
            m <= MAX_SUGGESTION_BYTES,
            current@.len() == k2,
        decreases m + 1 - k2,
    {
        current.push(0);
        k2 = k2 + 1;
    }
    let mut i: usize = 0;
    while i < n
        invariant
            i <= n,
            n == left@.len(),
            m == right@.len(),
            n <= MAX_SUGGESTION_BYTES,
            m <= MAX_SUGGESTION_BYTES,
            previous@.len() == m + 1,
            current@.len() == m + 1,
            forall|x: int| 0 <= x <= m ==> previous@[x] == lev(left@, right@, i as int, x),
        decreases n - i,
    {
        let left_byte = left[i];
        current.set(0, i + 1);
        let mut j: usize = 0;
        while j < m
            invariant
                i < n,
                j <= m,
                n == left@.len(),
                m == right@.len(),
                n <= MAX_SUGGESTION_BYTES,
                m <= MAX_SUGGESTION_BYTES,
                left_byte == left@[i as int],
                previous@.len() == m + 1,
                current@.len() == m + 1,
                forall|x: int| 0 <= x <= m ==> previous@[x] == lev(left@, right@, i as int, x),
                forall|x: int| 0 <= x <= j ==> current@[x] == lev(left@, right@, i + 1, x),
            decreases m - j,
        {
            proof {
                lemma_lev_bound(left@, right@, i as int, j as int);
                lemma_lev_bound(left@, right@, i as int, j + 1);
                lemma_lev_bound(left@, right@, i + 1, j as int);
            }
            let cost: usize = if left_byte != right[j] { 1 } else { 0 };
            let substitution = previous[j] + cost;
            let deletion = previous[j + 1] + 1;
            let insertion = current[j] + 1;
            let mut best = substitution;
            if deletion < best {
                best = deletion;
            }
            if insertion < best {
                best = insertion;
            }
            current.set(j + 1, best);
            j = j + 1;
        }
        std::mem::swap(&mut previous, &mut current);
        i = i + 1;
    }
    previous[m]
}

/// Index of the closest candidate to `input` within the accepted distance.
pub fn closest(input: &str, candidates: &[String]) -> (r: Option<usize>)
    ensures
        match r {
            Some(k) => closest_spec(vstd::utf8::encode_utf8(input@), strings_bytes(candidates@)) == Some(k as int),
            None => closest_spec(vstd::utf8::encode_utf8(input@), strings_bytes(candidates@)) is None,
        },
{
    let ghost cands = strings_bytes(candidates@);
    let input_bytes = input.as_bytes();
    if input_bytes.len() > MAX_SUGGESTION_BYTES {
        return None;
    }
    let mut best: Option<usize> = None;
    let mut best_distance: usize = 0;
    let mut best_len: usize = 0;
    let mut i: usize = 0;
    while i < candidates.len()
        invariant
            i <= candidates.len(),
            cands == strings_bytes(candidates@),
            input_bytes@ == vstd::utf8::encode_utf8(input@),
            input_bytes@.len() <= MAX_SUGGESTION_BYTES,
            match best {
                Some(k) => best_among(input_bytes@, cands, i as int) == Some(k as int) && k < i
                    && best_distance == edit_distance(input_bytes@, cands[k as int])
                    && best_len == cands[k as int].len(),
                None => best_among(input_bytes@, cands, i as int) is None,
            },
        decreases candidates.len() - i,
    {
        let candidate = candidates[i].as_str();
        let candidate_bytes = candidate.as_bytes();
        assert(cands[i as int] == candidate_bytes@);
        if candidate_bytes.len() <= MAX_SUGGESTION_BYTES {
            let distance = edit_distance_exec(input_bytes, candidate_bytes);
            let longer = if input_bytes.len() >= candidate_bytes.len() {
                input_bytes.len()
            } else {
                candidate_bytes.len()
            };
            let accepted: usize = if longer <= 4 {
                1
            } else if longer <= 8 {
                2
            } else {
                3
            };
            if distance <= accepted {
                let take = match best {
                    None => true,
                    Some(_) => distance < best_distance || (distance == best_distance
                        && candidate_bytes.len() < best_len),
                };
                if take {
                    best = Some(i);
                    best_distance = distance;
                    best_len = candidate_bytes.len();
                }
            }
        }
        i = i + 1;
    }
    best
}

/// `message`, followed by a hint naming `prefix` and the suggestion when there is one.
pub open spec fn with_suggestion(message: Seq<char>, suggestion: Option<Seq<char>>, prefix: Seq<char>) -> Seq<char> {
    match suggestion {
        Some(s) => message + "; did you mean `"@ + prefix + s + "`?"@,
        None => message,
    }
}

/// The UTF-8 bytes of each text.
pub open spec fn texts_bytes(v: Seq<Seq<char>>) -> Seq<Seq<u8>> {
    v.map_values(|s: Seq<char>| vstd::utf8::encode_utf8(s))
}

/// The candidate closest to `input`, if one is close enough.
pub open spec fn suggestion_for(input: Seq<char>, candidates: Seq<Seq<char>>) -> Option<Seq<char>> {
    match closest_spec(vstd::utf8::encode_utf8(input), texts_bytes(candidates)) {
        Some(k) => Some(candidates[k]),
        None => None,
    }
}

/// Appends a "did you mean" hint for the closest candidate, when there is one.
pub fn append_suggestion(message: String, input: &str, candidates: &[String], prefix: &str) -> (r: String)
    ensures
        r@ == with_suggestion(message@, suggestion_for(input@, strings_view(candidates@)), prefix@),
{
    assert(strings_bytes(candidates@) =~= texts_bytes(strings_view(candidates@)));
    match closest(input, candidates) {
        Some(k) => {
            proof {
                lemma_best_in_range(vstd::utf8::encode_utf8(input@), strings_bytes(candidates@), candidates@.len() as int);
                assert(strings_view(candidates@)[k as int] == candidates@[k as int]@);
            }
            let mut m = message;
            push_str(&mut m, "; did you mean `");
            push_str(&mut m, prefix);
            push_str(&mut m, candidates[k].as_str());
            push_str(&mut m, "`?");
            m
        },
        None => message,
    }
}

proof fn lemma_best_in_range(input: Seq<u8>, cands: Seq<Seq<u8>>, n: int)
    requires
        0 <= n <= cands.len(),
    ensures
        best_among(input, cands, n) matches Some(k) ==> 0 <= k < n,
    decreases n,
{
    if n > 0 {
        lemma_best_in_range(input, cands, n - 1);
    }
}

} // verus!
