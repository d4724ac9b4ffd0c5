use vstd::prelude::*;

verus! {

/// What `str::to_lowercase` returns for a text.
pub uninterp spec fn lower_of(s: Seq<char>) -> Seq<char>;

/// Relies on `str::to_lowercase`: the result depends on the characters alone,
/// and an empty text stays empty.
#[verifier::external_body]
fn lowercase(s: &str) -> (r: String)
    ensures
        r@ == lower_of(s@),
        s@.len() == 0 ==> r@.len() == 0,
{
    s.to_lowercase()
}

/// Whether a lower-cased suggestion completes a lower-cased input: it starts
/// with the input and is longer.
pub open spec fn completes(input: Seq<char>, suggestion: Seq<char>) -> bool {
    input.is_prefix_of(suggestion) && suggestion != input
}

/// The index of the first entry that completes the input, if any.
pub open spec fn first_completion_spec(input: Seq<char>, lowered: Seq<Seq<char>>) -> Option<int>
    decreases lowered.len(),
{
    if lowered.len() == 0 {
        None
    } else {
        match first_completion_spec(input, lowered.drop_last()) {
            Some(i) => Some(i),
            None => if completes(input, lowered.last()) {
                Some(lowered.len() - 1)
            } else {
                None
            },
        }
    }
}

/// The views of a list of texts.
pub open spec fn views(v: Seq<String>) -> Seq<Seq<char>> {
    v.map_values(|s: String| s@)
}

proof fn lemma_first_completion_prefix(input: Seq<char>, l: Seq<Seq<char>>, k: int)
    requires
        0 <= k <= l.len(),
        first_completion_spec(input, l.take(k)) is Some,
    ensures
        first_completion_spec(input, l) == first_completion_spec(input, l.take(k)),
    decreases l.len(),
{
    if k == l.len() {
        assert(l.take(k) =~= l);
    } else {
        assert(l.drop_last().take(k) =~= l.take(k));
        lemma_first_completion_prefix(input, l.drop_last(), k);
    }
}

/// Whether `prefix` is a prefix of `s`.
pub fn starts_with(s: &str, prefix: &str) -> (r: bool)
    ensures
        r == prefix@.is_prefix_of(s@),
{
    let n = prefix.unicode_len();
    if n > s.unicode_len() {
        return false;
    }
    let mut i: usize = 0;
    while i < n
        invariant
            n == prefix@.len(),
            n <= s@.len(),
            0 <= i <= n,
            forall|j: int| 0 <= j < i ==> prefix@[j] == s@[j],
        decreases n - i,
    {
        if prefix.get_char(i) != s.get_char(i) {
            return false;
        }
        i = i + 1;
    }
    true
}

/// The index of the first lower-cased suggestion that completes the
/// lower-cased input, if any.
pub fn first_completion(input_lower: &str, suggestions_lower: &Vec<String>) -> (r: Option<usize>)
    ensures
        r matches Some(i) ==> i < suggestions_lower@.len(),
        first_completion_spec(input_lower@, views(suggestions_lower@)) == match r {
            Some(i) => Some(i as int),
            None => None::<int>,
        },
{
    let mut i: usize = 0;
    while i < suggestions_lower.len()
        invariant
            0 <= i <= suggestions_lower@.len(),
            first_completion_spec(input_lower@, views(suggestions_lower@.take(i as int))) is None,
        decreases suggestions_lower@.len() - i,
    {
        let s = suggestions_lower[i].as_str();
        proof {
            let t = views(suggestions_lower@.take(i as int + 1));
            assert(t.drop_last() =~= views(suggestions_lower@.take(i as int)));
            assert(t.last() == s@);
        }
        if starts_with(s, input_lower) && s.unicode_len() != input_lower.unicode_len() {
            proof {
                lemma_first_completion_prefix(
                    input_lower@,
                    views(suggestions_lower@),
                    i as int + 1,
                );
                assert(views(suggestions_lower@).take(i as int + 1) =~= views(
                    suggestions_lower@.take(i as int + 1),
                ));
            }
            return Some(i);
        }
        assert(!completes(input_lower@, s@)) by {
            if input_lower@.is_prefix_of(s@) {
                assert(s@ =~= input_lower@);
            }
        }
        i = i + 1;
    }
    assert(suggestions_lower@.take(i as int) =~= suggestions_lower@);
    None
}

/// The first suggestion that completes the input, compared in lower case;
/// empty where the input is empty or none does.
pub fn find_suggestion(input: &str, suggestions: &Vec<String>) -> (r: String)
    ensures
        input@.len() == 0 ==> r@.len() == 0,
        input@.len() > 0 ==> r@ == match first_completion_spec(
            lower_of(input@),
            views(suggestions@).map_values(|s: Seq<char>| lower_of(s)),
        ) {
            Some(i) => suggestions@[i]@,
            None => Seq::<char>::empty(),
        },
{
    if input.unicode_len() == 0 {
        return String::new();
    }
    let input_lower = lowercase(input);
    let mut lowered: Vec<String> = Vec::new();
    let mut i: usize = 0;
    while i < suggestions.len()
        invariant
            0 <= i <= suggestions@.len(),
            lowered@.len() == i,
            forall|j: int| 0 <= j < i ==> (#[trigger] lowered@[j])@ == lower_of(suggestions@[j]@),
        decreases suggestions@.len() - i,
    {
        lowered.push(lowercase(suggestions[i].as_str()));
        i = i + 1;
    }
    assert(views(lowered@) =~= views(suggestions@).map_values(|s: Seq<char>| lower_of(s)));
    match first_completion(input_lower.as_str(), &lowered) {
        Some(k) => suggestions[k].clone(),
        None => String::new(),
    }
}

/// What remains of a suggestion after the typed text: the characters past
/// as many as were typed; empty where either text is empty.
pub open spec fn suffix_spec(typed: Seq<char>, suggestion: Seq<char>) -> Seq<char> {
    if typed.len() == 0 || suggestion.len() == 0 || typed.len() >= suggestion.len() {
        Seq::empty()
    } else {
        suggestion.subrange(typed.len() as int, suggestion.len() as int)
    }
}

/// What remains of a suggestion after the typed text.
pub fn suggestion_suffix(typed: &str, suggestion: &str) -> (r: String)
    ensures
        r@ == suffix_spec(typed@, suggestion@),
{
    let n = typed.unicode_len();
    let m = suggestion.unicode_len();
    if n == 0 || m == 0 || n >= m {
        return String::new();
    }
    String::from_str(suggestion.substring_char(n, m))
}

/// Whether some lower-cased suggestion equals the lower-cased input.
pub fn contains_folded(input_lower: &str, suggestions_lower: &Vec<String>) -> (r: bool)
    ensures
        r == exists|i: int|
            0 <= i < suggestions_lower@.len() && (#[trigger] suggestions_lower@[i])@ == input_lower@,
{
    let mut i: usize = 0;
    while i < suggestions_lower.len()
        invariant
            0 <= i <= suggestions_lower@.len(),
            forall|j: int| 0 <= j < i ==> (#[trigger] suggestions_lower@[j])@ != input_lower@,
        decreases suggestions_lower@.len() - i,
    {
        let s = suggestions_lower[i].as_str();
        if starts_with(s, input_lower) && s.unicode_len() == input_lower.unicode_len() {
            assert(s@ =~= input_lower@);
            return true;
        }
        assert(s@ != input_lower@) by {
            if s@ == input_lower@ {
                assert(input_lower@.is_prefix_of(s@));
            }
        }
        i = i + 1;
    }
    false
}

/// Whether the input equals one of the suggestions, compared in lower case;
/// never for an empty input.
pub fn is_valid_input(input: &str, suggestions: &Vec<String>) -> (r: bool)
    ensures
        r == (input@.len() > 0 && exists|i: int|
            0 <= i < suggestions@.len() && lower_of((#[trigger] suggestions@[i])@) == lower_of(
                input@,
            )),
{
    if input.unicode_len() == 0 {
        return false;
    }
    let input_lower = lowercase(input);
    let mut lowered: Vec<String> = Vec::new();
    let mut i: usize = 0;
    while i < suggestions.len()
        invariant
            0 <= i <= suggestions@.len(),
            lowered@.len() == i,
            forall|j: int| 0 <= j < i ==> (#[trigger] lowered@[j])@ == lower_of(suggestions@[j]@),
        decreases suggestions@.len() - i,
    {
        lowered.push(lowercase(suggestions[i].as_str()));
        i = i + 1;
    }
    let r = contains_folded(input_lower.as_str(), &lowered);
    proof {
        if r {
            let k = choose|k: int| 0 <= k < lowered@.len() && (#[trigger] lowered@[k])@ == input_lower@;
            assert(lower_of(suggestions@[k]@) == lower_of(input@));
        } else {
            assert forall|k: int| 0 <= k < suggestions@.len() implies lower_of(
                (#[trigger] suggestions@[k])@,
            ) != lower_of(input@) by {
                assert(lowered@[k]@ != input_lower@);
            }
        }
    }
    r
}

} // verus!
