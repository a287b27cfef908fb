//! Reading the dispatch settings: parsing the values of the `ZCASH_ACCEL` and
//! `ZCASH_ACCEL_MIN_MSM` variables, and scoped overrides that take precedence
//! over them.

use vstd::prelude::*;

use crate::backend::{Backend, DispatchConfig, DEFAULT_MIN_MSM};

verus! {

/// ASCII upper-case letters become lower-case; every other character stays.
pub open spec fn ascii_lower(c: char) -> char {
    if 'A' <= c && c <= 'Z' {
        ((c as int) + 32) as char
    } else {
        c
    }
}

/// `text` with its ASCII letters lower-cased.
pub open spec fn ascii_lowercase(text: Seq<char>) -> Seq<char> {
    Seq::new(text.len(), |i: int| ascii_lower(text[i]))
}

/// The backend that a `ZCASH_ACCEL` value selects: `off` and `cpu` select the
/// CPU, `cuda`, `avx512` and `auto` their backends, ignoring ASCII case; an
/// unset variable or any other value selects the CPU.
pub open spec fn spec_selected_backend(value: Option<Seq<char>>) -> Backend {
    match value {
        None => Backend::Cpu,
        Some(text) => {
            let word = ascii_lowercase(text);
            if word == seq!['o', 'f', 'f'] || word == seq!['c', 'p', 'u'] {
                Backend::Cpu
            } else if word == seq!['c', 'u', 'd', 'a'] {
                Backend::Cuda
            } else if word == seq!['a', 'v', 'x', '5', '1', '2'] {
                Backend::Avx512
            } else if word == seq!['a', 'u', 't', 'o'] {
                Backend::Auto
            } else {
                Backend::Cpu
            }
        },
    }
}

/// The characters of an optional string.
pub open spec fn text_of(value: Option<&str>) -> Option<Seq<char>> {
    match value {
        None => None,
        Some(text) => Some(text@),
    }
}

fn lower_char(c: char) -> (lowered: char)
    ensures
        lowered == ascii_lower(c),
{
    if 'A' <= c && c <= 'Z' {
        let code = c as u8;
        assert(65 <= code && code <= 90);
        ((code + 32) as char)
    } else {
        c
    }
}

/// Whether `text`, with its ASCII letters lower-cased, is exactly `word`.
fn equals_lowercased(text: &str, word: &[char]) -> (equal: bool)
    ensures
        equal == (ascii_lowercase(text@) == word@),
{
    let len = text.unicode_len();
    if len != word.len() {
        proof {
            assert(ascii_lowercase(text@).len() != word@.len());
        }
        return false;
    }
    let mut i: usize = 0;
    while i < len
        invariant
            len == text@.len(),
            len == word@.len(),
            i <= len,
            forall|k: int| 0 <= k < i ==> ascii_lower(#[trigger] text@[k]) == word@[k],
        decreases len - i,
    {
        let c = lower_char(text.get_char(i));
        if c != word[i] {
            proof {
                assert(ascii_lowercase(text@)[i as int] != word@[i as int]);
            }
            return false;
        }
        i = i + 1;
    }
    proof {
        assert(ascii_lowercase(text@) =~= word@);
    }
    true
}

/// Selects the requested backend from the value of `ZCASH_ACCEL` (`None` when
/// it is unset or not Unicode).
///
/// Supported values are `off`, `cpu`, `cuda`, `avx512`, and `auto`, in any
/// ASCII case. Unknown values are treated as `cpu`.
pub fn selected_backend(value: Option<&str>) -> (backend: Backend)
    ensures
        backend == spec_selected_backend(text_of(value)),
{
    match value {
        None => Backend::Cpu,
        Some(text) => {
            if equals_lowercased(text, &['o', 'f', 'f']) || equals_lowercased(text, &['c', 'p', 'u']) {
                Backend::Cpu
            } else if equals_lowercased(text, &['c', 'u', 'd', 'a']) {
                Backend::Cuda
            } else if equals_lowercased(text, &['a', 'v', 'x', '5', '1', '2']) {
                Backend::Avx512
            } else if equals_lowercased(text, &['a', 'u', 't', 'o']) {
                Backend::Auto
            } else {
                Backend::Cpu
            }
        },
    }
}

/// Whether `c` is one of `0` to `9`.
pub open spec fn is_decimal_digit(c: char) -> bool {
    '0' <= c && c <= '9'
}

/// The number written by a string of decimal digits.
pub open spec fn decimal_value(digits: Seq<char>) -> nat
    decreases digits.len(),
{
    if digits.len() == 0 {
        0
    } else {
        decimal_value(digits.drop_last()) * 10 + ((digits.last() as int) - ('0' as int)) as nat
    }
}

/// Whether every character of `digits` is a decimal digit.
pub open spec fn all_decimal_digits(digits: Seq<char>) -> bool {
    forall|i: int| 0 <= i < digits.len() ==> is_decimal_digit(#[trigger] digits[i])
}

/// The part of `text` after an optional leading `+`.
pub open spec fn unsigned_digits(text: Seq<char>) -> Seq<char> {
    if text.len() > 0 && text[0] == '+' {
        text.drop_first()
    } else {
        text
    }
}

/// What the standard library's `usize` parsing accepts: an optional `+`, then
/// one or more decimal digits whose value fits in a `usize`.
pub open spec fn spec_parse_usize(text: Seq<char>) -> Option<usize> {
    let digits = unsigned_digits(text);
    if digits.len() > 0 && all_decimal_digits(digits) && decimal_value(digits) <= usize::MAX {
        Some(decimal_value(digits) as usize)
    } else {
        None
    }
}

proof fn lemma_decimal_value_grows(digits: Seq<char>, i: int)
    requires
        0 <= i <= digits.len(),
        all_decimal_digits(digits),
    ensures
        decimal_value(digits.take(i)) <= decimal_value(digits),
    decreases digits.len() - i,
{
    if i < digits.len() {
        lemma_decimal_value_grows(digits, i + 1);
        assert(digits.take(i + 1).drop_last() =~= digits.take(i));
    } else {
        assert(digits.take(i) =~= digits);
    }
}

/// Parses `text` as a decimal `usize` the way the standard library does.
fn parse_usize(text: &str) -> (parsed: Option<usize>)
    ensures
        parsed == spec_parse_usize(text@),
{
    let len = text.unicode_len();
    let start: usize = if len > 0 && text.get_char(0) == '+' {
        1
    } else {
        0
    };
    let ghost digits = text@.subrange(start as int, len as int);
    proof {
        if start == 1 {
            assert(digits =~= text@.drop_first());
        } else {
            assert(digits =~= text@);
        }
    }
    if start == len {
        return None;
    }
    let mut value: usize = 0;
    let mut i: usize = start;
    while i < len
        invariant
            len == text@.len(),
            start <= i <= len,
            digits == text@.subrange(start as int, len as int),
            digits == unsigned_digits(text@),
            forall|k: int| 0 <= k < i - start ==> is_decimal_digit(#[trigger] digits[k]),
            value == decimal_value(digits.take(i - start)),
        decreases len - i,
    {
        let c = text.get_char(i);
        proof {
            assert(digits[i - start] == c);
        }
        if !('0' <= c && c <= '9') {
            proof {
                assert(!is_decimal_digit(digits[i - start]));
            }
            return None;
        }
        let digit = (c as u32 - '0' as u32) as usize;
        proof {
            assert(digits.take(i - start + 1).drop_last() =~= digits.take(i - start));
            assert(digits.take(i - start + 1).last() == c);
            assert(digit == (c as int) - ('0' as int));
            assert(decimal_value(digits.take(i - start + 1)) == value * 10 + digit);
        }
        let scaled = value.checked_mul(10);
        match scaled {
            None => {
                proof {
                    lemma_prefix_overflow(digits, (i - start) as int);
                }
                return None;
            },
            Some(scaled) => match scaled.checked_add(digit) {
                None => {
                    proof {
                        lemma_prefix_overflow(digits, (i - start) as int);
                    }
                    return None;
                },
                Some(next) => {
                    value = next;
                },
            },
        }
        i = i + 1;
    }
    proof {
        assert(digits.take(len - start) =~= digits);
    }
    Some(value)
}

/// If the first `n + 1` digits already overflow, nothing the rest holds can
/// make the whole a `usize`.
proof fn lemma_prefix_overflow(digits: Seq<char>, n: int)
    requires
        0 <= n < digits.len(),
        forall|k: int| 0 <= k <= n ==> is_decimal_digit(#[trigger] digits[k]),
        decimal_value(digits.take(n + 1)) > usize::MAX,
    ensures
        all_decimal_digits(digits) ==> decimal_value(digits) > usize::MAX,
{
    if all_decimal_digits(digits) {
        lemma_decimal_value_grows(digits, n + 1);
    }
}

/// The MSM size threshold that a `ZCASH_ACCEL_MIN_MSM` value sets: the value
/// as a decimal `usize`, or 4096 when it is unset or does not parse.
pub open spec fn spec_env_min_msm_size(value: Option<Seq<char>>) -> usize {
    match value {
        Some(text) => match spec_parse_usize(text) {
            Some(size) => size,
            None => DEFAULT_MIN_MSM,
        },
        None => DEFAULT_MIN_MSM,
    }
}

/// Reads the MSM size threshold from the value of `ZCASH_ACCEL_MIN_MSM`.
pub fn env_min_msm_size(value: Option<&str>) -> (size: usize)
    ensures
        size == spec_env_min_msm_size(text_of(value)),
{
    match value {
        Some(text) => match parse_usize(text) {
            Some(size) => size,
            None => DEFAULT_MIN_MSM,
        },
        None => DEFAULT_MIN_MSM,
    }
}

/// The dispatch settings the two environment variables describe.
pub open spec fn spec_env_dispatch_config(
    backend_var: Option<Seq<char>>,
    min_msm_var: Option<Seq<char>>,
) -> DispatchConfig {
    DispatchConfig {
        backend: spec_selected_backend(backend_var),
        min_msm_size: spec_env_min_msm_size(min_msm_var),
    }
}

/// Builds the dispatch settings from the values of `ZCASH_ACCEL` and
/// `ZCASH_ACCEL_MIN_MSM`.
pub fn env_dispatch_config(backend_var: Option<&str>, min_msm_var: Option<&str>) -> (config:
    DispatchConfig)
    ensures
        config == spec_env_dispatch_config(text_of(backend_var), text_of(min_msm_var)),
{
    DispatchConfig {
        backend: selected_backend(backend_var),
        min_msm_size: env_min_msm_size(min_msm_var),
    }
}

/// The effective settings: a scoped override wins over the environment.
pub open spec fn spec_dispatch_config(
    scoped: Option<DispatchConfig>,
    backend_var: Option<Seq<char>>,
    min_msm_var: Option<Seq<char>>,
) -> DispatchConfig {
    match scoped {
        Some(config) => config,
        None => spec_env_dispatch_config(backend_var, min_msm_var),
    }
}

/// Returns the effective acceleration dispatch config.
///
/// A scoped override installed with [`with_dispatch_config`] takes precedence
/// over the environment; without one, the values of `ZCASH_ACCEL` and
/// `ZCASH_ACCEL_MIN_MSM` decide.
pub fn dispatch_config(
    scoped: Option<DispatchConfig>,
    backend_var: Option<&str>,
    min_msm_var: Option<&str>,
) -> (config: DispatchConfig)
    ensures
        config == spec_dispatch_config(scoped, text_of(backend_var), text_of(min_msm_var)),
{
    match scoped {
        Some(config) => config,
        None => env_dispatch_config(backend_var, min_msm_var),
    }
}

/// Returns the effective minimum MSM size.
pub fn min_msm_size(
    scoped: Option<DispatchConfig>,
    backend_var: Option<&str>,
    min_msm_var: Option<&str>,
) -> (size: usize)
    ensures
        size == spec_dispatch_config(scoped, text_of(backend_var), text_of(min_msm_var)).min_msm_size,
{
    dispatch_config(scoped, backend_var, min_msm_var).min_msm_size
}

/// Runs `f` with `config` as the scoped dispatch override.
///
/// `f` receives the override in force while it runs as its argument. The slot
/// itself is never written, so the override that was in force before is in
/// place afterwards however `f` ends, also when it unwinds.
pub fn with_dispatch_config<R, F: FnOnce(Option<DispatchConfig>) -> R>(
    scoped: &mut Option<DispatchConfig>,
    config: DispatchConfig,
    f: F,
) -> (result: R)
    requires
        f.requires((Some(config),)),
    ensures
        *final(scoped) == *old(scoped),
        f.ensures((Some(config),), result),
{
    f(Some(config))
}

/// A scoped override takes precedence over whatever the environment holds.
pub proof fn law_scoped_override_wins(
    config: DispatchConfig,
    backend_var: Option<Seq<char>>,
    min_msm_var: Option<Seq<char>>,
)
    ensures
        spec_dispatch_config(Some(config), backend_var, min_msm_var) == config,
{
}

/// With neither variable set and no override, dispatch uses the CPU with the
/// default threshold.
pub proof fn law_unset_environment_means_default()
    ensures
        spec_dispatch_config(None, None, None) == DispatchConfig::spec_default(),
{
}

/// The backend selection ignores ASCII case: two values that lower-case to
/// the same text select the same backend.
pub proof fn law_backend_selection_ignores_ascii_case(first: Seq<char>, second: Seq<char>)
    requires
        ascii_lowercase(first) == ascii_lowercase(second),
    ensures
        spec_selected_backend(Some(first)) == spec_selected_backend(Some(second)),
{
}

/// A threshold variable that does not parse leaves the default threshold.
pub proof fn law_unparsable_threshold_means_default(text: Seq<char>)
    requires
        spec_parse_usize(text) is None,
    ensures
        spec_env_min_msm_size(Some(text)) == DEFAULT_MIN_MSM,
{
}

/// A `ZCASH_ACCEL` value that is none of the five names, in any ASCII case,
/// selects the CPU.
pub proof fn law_unknown_backend_names_mean_cpu(text: Seq<char>)
    requires
        ascii_lowercase(text) != seq!['o', 'f', 'f'],
        ascii_lowercase(text) != seq!['c', 'p', 'u'],
        ascii_lowercase(text) != seq!['c', 'u', 'd', 'a'],
        ascii_lowercase(text) != seq!['a', 'v', 'x', '5', '1', '2'],
        ascii_lowercase(text) != seq!['a', 'u', 't', 'o'],
    ensures
        spec_selected_backend(Some(text)) == Backend::Cpu,
{
}

/// Lower-casing moves each ASCII capital `A`..=`Z` 32 code points up, onto
/// its small letter, and leaves every other character as it is.
pub proof fn law_ascii_lowering_moves_only_capitals(c: char)
    ensures
        'A' <= c <= 'Z' ==> ascii_lower(c) as int == c as int + 32,
        !('A' <= c <= 'Z') ==> ascii_lower(c) == c,
{
}

/// Whether `text` spells `word` up to ASCII case: the same length, and each
/// character either the word's own or the capital 32 code points below it.
pub open spec fn spells_ignoring_ascii_case(text: Seq<char>, word: Seq<char>) -> bool {
    &&& text.len() == word.len()
    &&& forall|i: int|
        0 <= i < text.len() ==> text[i] == word[i] || ('A' <= #[trigger] text[i] <= 'Z'
            && text[i] as int + 32 == word[i] as int)
}

proof fn lemma_lowercase_spells(text: Seq<char>, word: Seq<char>)
    requires
        spells_ignoring_ascii_case(text, word),
        forall|i: int| 0 <= i < word.len() ==> !('A' <= #[trigger] word[i] <= 'Z'),
    ensures
        ascii_lowercase(text) == word,
{
    assert forall|i: int| 0 <= i < text.len() implies #[trigger] ascii_lowercase(text)[i]
        == word[i] by {
        if 'A' <= text[i] <= 'Z' {
            assert(text[i] != word[i]);
        }
    }
    assert(ascii_lowercase(text) =~= word);
}

/// A `ZCASH_ACCEL` value that spells one of the backend names in any ASCII
/// case selects that backend: `off` and `cpu` the CPU, `cuda`, `avx512` and
/// `auto` their own backends.
pub proof fn law_backend_names_select_their_backend_in_any_case(text: Seq<char>)
    ensures
        spells_ignoring_ascii_case(text, seq!['o', 'f', 'f']) ==> spec_selected_backend(Some(text))
            == Backend::Cpu,
        spells_ignoring_ascii_case(text, seq!['c', 'p', 'u']) ==> spec_selected_backend(Some(text))
            == Backend::Cpu,
        spells_ignoring_ascii_case(text, seq!['c', 'u', 'd', 'a']) ==> spec_selected_backend(
            Some(text),
        ) == Backend::Cuda,
        spells_ignoring_ascii_case(text, seq!['a', 'v', 'x', '5', '1', '2'])
            ==> spec_selected_backend(Some(text)) == Backend::Avx512,
        spells_ignoring_ascii_case(text, seq!['a', 'u', 't', 'o']) ==> spec_selected_backend(
            Some(text),
        ) == Backend::Auto,
{
    let off = seq!['o', 'f', 'f'];
    let cpu = seq!['c', 'p', 'u'];
    let cuda = seq!['c', 'u', 'd', 'a'];
    let avx512 = seq!['a', 'v', 'x', '5', '1', '2'];
    let auto = seq!['a', 'u', 't', 'o'];
    if spells_ignoring_ascii_case(text, off) {
        lemma_lowercase_spells(text, off);
    }
    if spells_ignoring_ascii_case(text, cpu) {
        lemma_lowercase_spells(text, cpu);
    }
    if spells_ignoring_ascii_case(text, cuda) {
        lemma_lowercase_spells(text, cuda);
    }
    if spells_ignoring_ascii_case(text, avx512) {
        lemma_lowercase_spells(text, avx512);
    }
    if spells_ignoring_ascii_case(text, auto) {
        lemma_lowercase_spells(text, auto);
    }
}

/// Without a scoped override, the backend is the one `ZCASH_ACCEL` selects
/// and the threshold is the value of `ZCASH_ACCEL_MIN_MSM` read as a decimal
/// `usize`, or 4096 when it is unset or does not parse, whatever
/// `ZCASH_ACCEL` holds.
pub proof fn law_environment_sets_backend_and_threshold_independently(
    backend_var: Option<Seq<char>>,
    min_msm_var: Option<Seq<char>>,
)
    ensures
        spec_dispatch_config(None, backend_var, min_msm_var).backend == spec_selected_backend(
            backend_var,
        ),
        spec_dispatch_config(None, backend_var, min_msm_var).min_msm_size == match min_msm_var {
            Some(text) => match spec_parse_usize(text) {
                Some(size) => size,
                None => 4096usize,
            },
            None => 4096usize,
        },
{
}

/// How a threshold value is read, character by character: nothing, or a
/// lone `+`, is no number; one digit is its value; a digit after a number
/// makes ten times that number plus the digit, or no number once that passes
/// `usize::MAX`; anything ending in a character that is not a digit is no
/// number; and one leading `+` changes nothing.
pub proof fn law_threshold_values_read_as_decimal(text: Seq<char>, d: char)
    ensures
        spec_parse_usize(Seq::<char>::empty()) is None,
        spec_parse_usize(seq!['+']) is None,
        '0' <= d <= '9' ==> spec_parse_usize(seq![d]) == Some((d as int - '0' as int) as usize),
        !('0' <= d <= '9') ==> spec_parse_usize(text.push(d)) is None,
        '0' <= d <= '9' ==> (spec_parse_usize(text) matches Some(value) ==> spec_parse_usize(
            text.push(d),
        ) == if value * 10 + (d as int - '0' as int) <= usize::MAX {
            Some((value * 10 + (d as int - '0' as int)) as usize)
        } else {
            None
        }),
        (text.len() == 0 || text[0] != '+') ==> spec_parse_usize(seq!['+'] + text)
            == spec_parse_usize(text),
{
    let single = seq![d];
    assert(single.drop_last() =~= Seq::<char>::empty());
    if '0' <= d <= '9' {
        assert(unsigned_digits(single) == single);
        assert(all_decimal_digits(single));
        assert(decimal_value(single) == (d as int - '0' as int));
    }
    let pushed = text.push(d);
    if text.len() > 0 {
        if text[0] == '+' {
            assert(unsigned_digits(pushed) =~= unsigned_digits(text).push(d));
        } else {
            assert(unsigned_digits(pushed) =~= unsigned_digits(text).push(d));
        }
        assert(unsigned_digits(pushed).drop_last() =~= unsigned_digits(text));
    } else {
        assert(pushed =~= single);
    }
    if !('0' <= d <= '9') {
        let digits = unsigned_digits(pushed);
        assert(digits.len() > 0 ==> digits[digits.len() - 1] == d);
    }
    let plus = seq!['+'] + text;
    assert(plus.drop_first() =~= text);
}

} // verus!
