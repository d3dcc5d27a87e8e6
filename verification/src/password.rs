//! Constrained password generation.
//!
//! A policy names an alphabet and a set of required character classes; a
//! candidate of the requested length is drawn from the alphabet and kept only
//! if every required class is present.  Sampling is bounded: after
//! [`ATTEMPT_CAP`] rejected candidates, generation reports failure instead of
//! looping.

use vstd::prelude::*;

use crate::entropy::{
    alphanum_charset, map_alphanum_draw, map_symbol_draw, spec_alphanum_draw, spec_symbol_draw,
    symbol_charset, DrawSource, OsDrawSource, DRAW_CAP,
};
use crate::err::AikotError;
use crate::text::{push_char, spec_decimal, usize_to_string};

verus! {

/// How many candidate strings one generation request may draw and test
/// before it fails with a generation error.
pub const ATTEMPT_CAP: usize = 100;

/// A lowercase letter, `a` through `z`.
pub open spec fn is_lower_char(c: char) -> bool {
    'a' as u32 <= c as u32 && c as u32 <= 'z' as u32
}

/// An uppercase letter, `A` through `Z`.
pub open spec fn is_upper_char(c: char) -> bool {
    'A' as u32 <= c as u32 && c as u32 <= 'Z' as u32
}

/// A decimal digit, `0` through `9`.
pub open spec fn is_number_char(c: char) -> bool {
    '0' as u32 <= c as u32 && c as u32 <= '9' as u32
}

/// One of the 32 punctuation characters of the symbol alphabet: printable
/// ASCII that is neither a letter nor a digit.
pub open spec fn is_symbol_char(c: char) -> bool {
    ||| 33 <= c as u32 && c as u32 <= 47
    ||| 58 <= c as u32 && c as u32 <= 64
    ||| 91 <= c as u32 && c as u32 <= 96
    ||| 123 <= c as u32 && c as u32 <= 126
}

/// Whether a candidate has at least one lowercase letter, one uppercase
/// letter and one digit.
pub open spec fn alphanum_policy_ok(s: Seq<char>) -> bool {
    &&& exists|i: int| 0 <= i < s.len() && is_lower_char(#[trigger] s[i])
    &&& exists|i: int| 0 <= i < s.len() && is_upper_char(#[trigger] s[i])
    &&& exists|i: int| 0 <= i < s.len() && is_number_char(#[trigger] s[i])
}

/// Whether a candidate has at least one character of each of the four
/// classes: lowercase, uppercase, digit and symbol.
pub open spec fn alphanum_symbol_policy_ok(s: Seq<char>) -> bool {
    &&& alphanum_policy_ok(s)
    &&& exists|i: int| 0 <= i < s.len() && is_symbol_char(#[trigger] s[i])
}

/// Whether the character is a lowercase letter.
pub fn lower_char(c: char) -> (r: bool)
    ensures
        r == is_lower_char(c),
{
    let u = c as u32;
    97 <= u && u <= 122
}

/// Whether the character is an uppercase letter.
pub fn upper_char(c: char) -> (r: bool)
    ensures
        r == is_upper_char(c),
{
    let u = c as u32;
    65 <= u && u <= 90
}

/// Whether the character is a decimal digit.
pub fn number_char(c: char) -> (r: bool)
    ensures
        r == is_number_char(c),
{
    let u = c as u32;
    48 <= u && u <= 57
}

/// Whether the character is one of the 32 punctuation characters of the
/// symbol alphabet.
pub fn symbol_char(c: char) -> (r: bool)
    ensures
        r == is_symbol_char(c),
{
    let u = c as u32;
    (33 <= u && u <= 47) || (58 <= u && u <= 64) || (91 <= u && u <= 96) || (123 <= u && u <= 126)
}

/// The character classes are pairwise disjoint, so a candidate that has all
/// three required classes of the alphanumeric policy needs three distinct
/// positions: below the policy's floor of three, no candidate at all can
/// satisfy it.
pub proof fn lemma_alphanum_floor_unsatisfiable(s: Seq<char>)
    requires
        s.len() < 3,
    ensures
        !alphanum_policy_ok(s),
{
    if alphanum_policy_ok(s) {
        let i = choose|i: int| 0 <= i < s.len() && is_lower_char(#[trigger] s[i]);
        let j = choose|j: int| 0 <= j < s.len() && is_upper_char(#[trigger] s[j]);
        let k = choose|k: int| 0 <= k < s.len() && is_number_char(#[trigger] s[k]);
        assert(i != j && i != k && j != k);
    }
}

/// The four classes of the symbol policy are pairwise disjoint too, so its
/// floor is four.
pub proof fn lemma_symbol_floor_unsatisfiable(s: Seq<char>)
    requires
        s.len() < 4,
    ensures
        !alphanum_symbol_policy_ok(s),
{
    if alphanum_symbol_policy_ok(s) {
        let i = choose|i: int| 0 <= i < s.len() && is_lower_char(#[trigger] s[i]);
        let j = choose|j: int| 0 <= j < s.len() && is_upper_char(#[trigger] s[j]);
        let k = choose|k: int| 0 <= k < s.len() && is_number_char(#[trigger] s[k]);
        let m = choose|m: int| 0 <= m < s.len() && is_symbol_char(#[trigger] s[m]);
        assert(i != j && i != k && i != m && j != k && j != m && k != m);
    }
}

/// At the floor and above, the alphanumeric policy is satisfiable: some
/// candidate of every such length has all three classes.
pub proof fn lemma_alphanum_floor_feasible(len: int)
    requires
        len >= 3,
    ensures
        exists|s: Seq<char>|
            s.len() == len && #[trigger] alphanum_policy_ok(s),
{
    let s = Seq::new(len as nat, |i: int| if i == 0 { 'a' } else if i == 1 { 'A' } else { '0' });
    assert(is_lower_char(s[0]) && is_upper_char(s[1]) && is_number_char(s[2]));
    assert(alphanum_policy_ok(s));
}

/// At the floor and above, the symbol policy is satisfiable as well.
pub proof fn lemma_symbol_floor_feasible(len: int)
    requires
        len >= 4,
    ensures
        exists|s: Seq<char>|
            s.len() == len && #[trigger] alphanum_symbol_policy_ok(s),
{
    let s = Seq::new(
        len as nat,
        |i: int| if i == 0 { 'a' } else if i == 1 { 'A' } else if i == 2 { '0' } else { '!' },
    );
    assert(is_lower_char(s[0]) && is_upper_char(s[1]) && is_number_char(s[2]) && is_symbol_char(
        s[3],
    ));
    assert(alphanum_symbol_policy_ok(s));
}

/// A character-class policy: an alphabet to draw from, a set of required
/// classes, and the shortest length at which those classes can all appear.
pub trait PasswordClass: Sized {
    /// The shortest length this policy can be asked for.
    spec fn spec_minimum_length(&self) -> int;

    /// Whether a candidate has every required character class.
    spec fn satisfies(&self, s: Seq<char>) -> bool;

    /// Which character one raw draw maps to, or `None` where the draw is
    /// rejected to preserve uniformity.
    spec fn char_of_draw(&self, draw: u32) -> Option<char>;

    /// The shortest length this policy can be asked for.
    fn minimum_length(&self) -> (r: usize)
        ensures
            r as int == self.spec_minimum_length(),
    ;

    /// Scans a candidate once and reports whether every required class is
    /// present.
    fn verify(&self, pass: &str) -> (r: bool)
        ensures
            r == self.satisfies(pass@),
    ;

    /// Maps one raw draw onto this policy's alphabet, or rejects it.
    fn sample(&self, draw: u32) -> (r: Option<char>)
        ensures
            r == self.char_of_draw(draw),
    ;
}

/// The letters-and-digits policy: requires a lowercase letter, an uppercase
/// letter and a digit; minimum length three.
#[derive(Debug)]
pub struct Alphanum;

/// The letters, digits and punctuation policy: requires a lowercase letter,
/// an uppercase letter, a digit and a symbol; minimum length four.
#[derive(Debug)]
pub struct AlphanumSymbol;

impl PasswordClass for Alphanum {
    open spec fn spec_minimum_length(&self) -> int {
        3
    }

    open spec fn satisfies(&self, s: Seq<char>) -> bool {
        alphanum_policy_ok(s)
    }

    open spec fn char_of_draw(&self, draw: u32) -> Option<char> {
        spec_alphanum_draw(draw)
    }

    fn minimum_length(&self) -> usize {
        3
    }

    fn verify(&self, pass: &str) -> (r: bool) {
        let len = pass.unicode_len();
        let mut has_lower = false;
        let mut has_upper = false;
        let mut has_number = false;
        let mut i: usize = 0;
        while i < len
            invariant
                len == pass@.len(),
                i <= len,
                has_lower == exists|j: int| 0 <= j < i && is_lower_char(#[trigger] pass@[j]),
                has_upper == exists|j: int| 0 <= j < i && is_upper_char(#[trigger] pass@[j]),
                has_number == exists|j: int| 0 <= j < i && is_number_char(#[trigger] pass@[j]),
                !(has_lower && has_upper && has_number),
            decreases len - i,
        {
            let c = pass.get_char(i);
            if lower_char(c) {
                has_lower = true;
            }
            if upper_char(c) {
                has_upper = true;
            }
            if number_char(c) {
                has_number = true;
            }
            i += 1;
            if has_lower && has_upper && has_number {
                return true;
            }
        }
        false
    }

    fn sample(&self, draw: u32) -> Option<char> {
        map_alphanum_draw(draw)
    }
}

impl PasswordClass for AlphanumSymbol {
    open spec fn spec_minimum_length(&self) -> int {
        4
    }

    open spec fn satisfies(&self, s: Seq<char>) -> bool {
        alphanum_symbol_policy_ok(s)
    }

    open spec fn char_of_draw(&self, draw: u32) -> Option<char> {
        spec_symbol_draw(draw)
    }

    fn minimum_length(&self) -> usize {
        4
    }

    fn verify(&self, pass: &str) -> (r: bool) {
        let len = pass.unicode_len();
        let mut has_lower = false;
        let mut has_upper = false;
        let mut has_number = false;
        let mut has_symbol = false;
        let mut i: usize = 0;
        while i < len
            invariant
                len == pass@.len(),
                i <= len,
                has_lower == exists|j: int| 0 <= j < i && is_lower_char(#[trigger] pass@[j]),
                has_upper == exists|j: int| 0 <= j < i && is_upper_char(#[trigger] pass@[j]),
                has_number == exists|j: int| 0 <= j < i && is_number_char(#[trigger] pass@[j]),
                has_symbol == exists|j: int| 0 <= j < i && is_symbol_char(#[trigger] pass@[j]),
                !(has_lower && has_upper && has_number && has_symbol),
            decreases len - i,
        {
            let c = pass.get_char(i);
            if lower_char(c) {
                has_lower = true;
            }
            if upper_char(c) {
                has_upper = true;
            }
            if number_char(c) {
                has_number = true;
            }
            if symbol_char(c) {
                has_symbol = true;
            }
            i += 1;
            if has_lower && has_upper && has_number && has_symbol {
                return true;
            }
        }
        false
    }

    fn sample(&self, draw: u32) -> Option<char> {
        map_symbol_draw(draw)
    }
}

/// One character of a candidate, by rejection sampling bounded by
/// [`DRAW_CAP`]: `None` means the source kept producing rejected draws and
/// the whole candidate is abandoned.
fn sample_policy_char<C: PasswordClass, S: DrawSource>(class: &C, source: &mut S) -> (r: Option<
    char,
>)
    ensures
        r matches Some(c) ==> exists|d: u32| class.char_of_draw(d) == Some(c),
{
    let mut tries: usize = 0;
    while tries < DRAW_CAP
        invariant
            tries <= DRAW_CAP,
        decreases DRAW_CAP - tries,
    {
        let draw = source.next_u32();
        match class.sample(draw) {
            Some(c) => {
                proof {
                    assert(class.char_of_draw(draw) == Some(c));
                }
                return Some(c);
            },
            None => {},
        }
        tries += 1;
    }
    None
}

/// One candidate string of exactly `len` characters drawn from the policy's
/// alphabet, or `None` where the source failed to yield a character.
fn draw_candidate<C: PasswordClass, S: DrawSource>(class: &C, len: usize, source: &mut S) -> (r:
    Option<String>)
    ensures
        r matches Some(p) ==> p@.len() == len,
{
    let mut out = String::new();
    let mut i: usize = 0;
    while i < len
        invariant
            i <= len,
            out@.len() == i,
        decreases len - i,
    {
        match sample_policy_char(class, source) {
            Some(c) => {
                push_char(&mut out, c);
                i += 1;
            },
            None => {
                return None;
            },
        }
    }
    Some(out)
}

/// Rejection sampling with a hard cap: draws candidates of the requested
/// length from the given source and returns the first that satisfies every
/// required class of the policy, or `None` once [`ATTEMPT_CAP`] candidates
/// have been drawn and rejected.
pub fn try_generate_with<C: PasswordClass, S: DrawSource>(
    class: &C,
    len: usize,
    source: &mut S,
) -> (r: Option<String>)
    ensures
        r matches Some(p) ==> p@.len() == len && class.satisfies(p@),
{
    let mut attempt: usize = 0;
    while attempt < ATTEMPT_CAP
        invariant
            attempt <= ATTEMPT_CAP,
        decreases ATTEMPT_CAP - attempt,
    {
        match draw_candidate(class, len, source) {
            Some(candidate) => {
                if class.verify(candidate.as_str()) {
                    return Some(candidate);
                }
            },
            None => {},
        }
        attempt += 1;
    }
    None
}

/// A generation request: one of the two policies, together with the
/// requested length.
#[derive(Debug)]
pub enum PwGen {
    /// The alphanumeric policy at the carried length.
    AN(Alphanum, usize),
    /// The alphanumeric-plus-symbol policy at the carried length.
    ANS(AlphanumSymbol, usize),
}

/// The requested length of a generation request.
pub open spec fn spec_pwgen_length(g: PwGen) -> int {
    match g {
        PwGen::AN(_, len) => len as int,
        PwGen::ANS(_, len) => len as int,
    }
}

/// The policy floor of a generation request.
pub open spec fn spec_pwgen_min_length(g: PwGen) -> int {
    match g {
        PwGen::AN(_, _) => 3,
        PwGen::ANS(_, _) => 4,
    }
}

/// Whether a candidate satisfies the request's policy.
pub open spec fn spec_pwgen_ok(g: PwGen, s: Seq<char>) -> bool {
    match g {
        PwGen::AN(_, _) => alphanum_policy_ok(s),
        PwGen::ANS(_, _) => alphanum_symbol_policy_ok(s),
    }
}

/// A request's floor is exact on the low side: no candidate shorter than
/// the floor satisfies the request's policy, whichever policy it carries.
/// This is why a too-short request is rejected before any sampling: every
/// attempt would be wasted.
pub proof fn lemma_pwgen_floor_unsatisfiable(g: PwGen, s: Seq<char>)
    requires
        s.len() < spec_pwgen_min_length(g),
    ensures
        !spec_pwgen_ok(g, s),
{
    match g {
        PwGen::AN(_, _) => lemma_alphanum_floor_unsatisfiable(s),
        PwGen::ANS(_, _) => lemma_symbol_floor_unsatisfiable(s),
    }
}

/// A request's floor is exact on the high side as well: at the floor and
/// above, some candidate of the requested length satisfies the policy.
pub proof fn lemma_pwgen_floor_feasible(g: PwGen, len: int)
    requires
        len >= spec_pwgen_min_length(g),
    ensures
        exists|s: Seq<char>| s.len() == len && #[trigger] spec_pwgen_ok(g, s),
{
    match g {
        PwGen::AN(_, _) => {
            lemma_alphanum_floor_feasible(len);
            let s = choose|s: Seq<char>| s.len() == len && #[trigger] alphanum_policy_ok(s);
            assert(spec_pwgen_ok(g, s));
        },
        PwGen::ANS(_, _) => {
            lemma_symbol_floor_feasible(len);
            let s = choose|s: Seq<char>|
                s.len() == len && #[trigger] alphanum_symbol_policy_ok(s);
            assert(spec_pwgen_ok(g, s));
        },
    }
}

/// The one-line description of a generation request, as it appears in error
/// messages.
pub open spec fn spec_pwgen_describe(g: PwGen) -> Seq<char> {
    match g {
        PwGen::AN(_, len) => "length: "@ + spec_decimal(len as nat) + ", class: alphanum"@,
        PwGen::ANS(_, len) => "length: "@ + spec_decimal(len as nat) + ", class: alphanum+symbol"@,
    }
}

impl PwGen {
    /// Builds a generation request, rejecting a length below the chosen
    /// policy's floor before any sampling happens.
    pub fn new(length: usize, symbol: bool) -> (r: Result<PwGen, AikotError>)
        ensures
            symbol && length >= 4 ==> r == Ok::<PwGen, AikotError>(
                PwGen::ANS(AlphanumSymbol, length),
            ),
            !symbol && length >= 3 ==> r == Ok::<PwGen, AikotError>(PwGen::AN(Alphanum, length)),
            symbol && length < 4 ==> (r matches Err(AikotError::MinimumLength { pwgen, min_len })
                && pwgen@ == spec_pwgen_describe(PwGen::ANS(AlphanumSymbol, length)) && min_len
                == 4),
            !symbol && length < 3 ==> (r matches Err(AikotError::MinimumLength { pwgen, min_len })
                && pwgen@ == spec_pwgen_describe(PwGen::AN(Alphanum, length)) && min_len == 3),
    {
        let pwgen = if symbol {
            PwGen::ANS(AlphanumSymbol, length)
        } else {
            PwGen::AN(Alphanum, length)
        };
        let min_len = pwgen.minimum_length();
        if length < min_len {
            Err(AikotError::MinimumLength { pwgen: pwgen.describe(), min_len })
        } else {
            Ok(pwgen)
        }
    }

    /// Generates one password from the operating system's random source.
    ///
    /// Every success has exactly the requested length and every required
    /// character class; a request whose policy the source never satisfied
    /// within the attempt cap fails with a generation error.  Two calls are
    /// free to return different strings: nothing is promised of the draws.
    pub fn try_generate(&self) -> (r: Result<String, AikotError>)
        ensures
            r matches Ok(p) ==> p@.len() == spec_pwgen_length(*self) && spec_pwgen_ok(*self, p@),
            r matches Err(e) ==> (e matches AikotError::GenerationFail { pwgen } && pwgen@
                == spec_pwgen_describe(*self)),
    {
        let mut source = OsDrawSource;
        self.try_generate_from(&mut source)
    }

    /// Generates one password, drawing from the given source.
    pub fn try_generate_from<S: DrawSource>(&self, source: &mut S) -> (r: Result<
        String,
        AikotError,
    >)
        ensures
            r matches Ok(p) ==> p@.len() == spec_pwgen_length(*self) && spec_pwgen_ok(*self, p@),
            r matches Err(e) ==> (e matches AikotError::GenerationFail { pwgen } && pwgen@
                == spec_pwgen_describe(*self)),
    {
        let opass = match self {
            PwGen::AN(class, len) => try_generate_with(class, *len, source),
            PwGen::ANS(class, len) => try_generate_with(class, *len, source),
        };
        match opass {
            Some(pass) => Ok(pass),
            None => Err(AikotError::GenerationFail { pwgen: self.describe() }),
        }
    }

    /// The floor below which this request's policy cannot be satisfied.
    pub fn minimum_length(&self) -> (r: usize)
        ensures
            r as int == spec_pwgen_min_length(*self),
    {
        match self {
            PwGen::AN(class, _) => class.minimum_length(),
            PwGen::ANS(class, _) => class.minimum_length(),
        }
    }

    /// The one-line description used in error messages.
    pub fn describe(&self) -> (r: String)
        ensures
            r@ == spec_pwgen_describe(*self),
    {
        match self {
            PwGen::AN(_, len) => {
                let mut s = String::from_str("length: ");
                let n = usize_to_string(*len);
                s.append(n.as_str());
                s.append(", class: alphanum");
                s
            },
            PwGen::ANS(_, len) => {
                let mut s = String::from_str("length: ");
                let n = usize_to_string(*len);
                s.append(n.as_str());
                s.append(", class: alphanum+symbol");
                s
            },
        }
    }
}



/// The predicate can return true on some of the first `hi` characters of
/// `s`.
pub open spec fn pred_fires_before<F: Fn(char) -> bool>(f: F, s: Seq<char>, hi: int) -> bool {
    exists|j: int| 0 <= j < hi && call_ensures(f, (#[trigger] s[j],), true)
}

/// The predicate can return false on every one of the first `hi` characters
/// of `s`.
pub open spec fn pred_never_fires_before<F: Fn(char) -> bool>(f: F, s: Seq<char>, hi: int) -> bool {
    forall|j: int| 0 <= j < hi ==> call_ensures(f, (#[trigger] s[j],), false)
}

/// The predicate can return true on some character of `s`.
pub open spec fn pred_fires<F: Fn(char) -> bool>(f: F, s: Seq<char>) -> bool {
    pred_fires_before(f, s, s.len() as int)
}

/// The predicate can return false on every character of `s`.
pub open spec fn pred_never_fires<F: Fn(char) -> bool>(f: F, s: Seq<char>) -> bool {
    pred_never_fires_before(f, s, s.len() as int)
}

/// Whether every predicate fires somewhere in the candidate, scanning it
/// once and short-circuiting as soon as all have fired.  With no predicates
/// at all, any candidate with at least one character passes.
///
/// The contract is relational because the predicates are arbitrary
/// closures: a `true` result shows each predicate *can* fire on some
/// character, a `false` result shows some predicate *can* decline every
/// character.  For deterministic predicates — every named predicate of this
/// crate — that pins the result exactly.
pub fn all_predicts<F: Fn(char) -> bool>(preds: &Vec<F>, s: &str) -> (r: bool)
    requires
        forall|i: int, c: char| 0 <= i < preds@.len() ==> #[trigger] preds@[i].requires((c,)),
    ensures
        preds@.len() == 0 ==> r == (s@.len() > 0),
        r && preds@.len() > 0 ==> forall|i: int|
            0 <= i < preds@.len() ==> pred_fires(#[trigger] preds@[i], s@),
        !r && preds@.len() > 0 ==> exists|i: int|
            0 <= i < preds@.len() && pred_never_fires(#[trigger] preds@[i], s@),
{
    let len = s.unicode_len();
    let n = preds.len();
    let mut passed: Vec<bool> = Vec::new();
    let mut k: usize = 0;
    while k < n
        invariant
            k <= n,
            passed@.len() == k,
            forall|i: int| 0 <= i < k ==> passed@[i] == false,
        decreases n - k,
    {
        passed.push(false);
        k += 1;
    }
    let mut j: usize = 0;
    while j < len
        invariant
            n == preds@.len(),
            len == s@.len(),
            j <= len,
            passed@.len() == n,
            forall|i: int, c: char| 0 <= i < preds@.len() ==> #[trigger] preds@[i].requires((c,)),
            forall|i: int|
                0 <= i < n && passed@[i] ==> pred_fires_before(#[trigger] preds@[i], s@, j as int),
            forall|i: int|
                0 <= i < n && !passed@[i] ==> pred_never_fires_before(
                    #[trigger] preds@[i],
                    s@,
                    j as int,
                ),
            n > 0 && j > 0 ==> exists|i: int| 0 <= i < n && !passed@[i],
            n == 0 ==> j == 0,
        decreases len - j,
    {
        let c = s.get_char(j);
        let mut i: usize = 0;
        while i < n
            invariant
                n == preds@.len(),
                len == s@.len(),
                j < len,
                c == s@[j as int],
                i <= n,
                passed@.len() == n,
                forall|ii: int, cc: char| 0 <= ii < preds@.len() ==> #[trigger] preds@[ii].requires(
                    (cc,),
                ),
                forall|ii: int|
                    0 <= ii < n && passed@[ii] ==> pred_fires_before(
                        #[trigger] preds@[ii],
                        s@,
                        j + 1,
                    ),
                forall|ii: int|
                    i <= ii < n && !passed@[ii] ==> pred_never_fires_before(
                        #[trigger] preds@[ii],
                        s@,
                        j as int,
                    ),
                forall|ii: int|
                    0 <= ii < i && !passed@[ii] ==> pred_never_fires_before(
                        #[trigger] preds@[ii],
                        s@,
                        j + 1,
                    ),
            decreases n - i,
        {
            let fired = (&preds[i])(c);
            if fired {
                passed[i] = true;
            }
            i += 1;
        }
        let mut all: bool = true;
        let mut i2: usize = 0;
        while i2 < n
            invariant
                n == passed@.len(),
                i2 <= n,
                all == forall|ii: int| 0 <= ii < i2 ==> passed@[ii],
            decreases n - i2,
        {
            if !passed[i2] {
                all = false;
            }
            i2 += 1;
        }
        if all {
            proof {
                assert forall|i: int| 0 <= i < n implies pred_fires(preds@[i], s@) by {
                    assert(passed@[i]);
                    assert(pred_fires_before(preds@[i], s@, j + 1));
                    let jj = choose|jj: int|
                        0 <= jj < j + 1 && call_ensures(preds@[i], (#[trigger] s@[jj],), true);
                    assert(0 <= jj < s@.len() && call_ensures(preds@[i], (s@[jj],), true));
                }
            }
            return true;
        }
        j += 1;
    }
    proof {
        if n > 0 {
            if j == 0 {
                assert(passed@[0] ==> pred_fires_before(preds@[0], s@, 0));
                assert(!pred_fires_before(preds@[0], s@, 0));
                assert(!passed@[0]);
                assert(0 <= 0 < preds@.len() && pred_never_fires(preds@[0], s@));
            } else {
                let i = choose|i: int| 0 <= i < n && !passed@[i];
                assert(pred_never_fires_before(preds@[i], s@, j as int));
                assert(0 <= i < preds@.len() && pred_never_fires(preds@[i], s@));
            }
        }
    }
    false
}

} // verus!
