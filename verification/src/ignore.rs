//! The set of paths that never trigger a regeneration.
//!
//! An [`IgnoreSet`] is one matcher compiled from a list of glob expressions.
//! Parsing, compiling and matching of globs is done by the `wax` crate; this
//! module states what the library relies on and proves the rest.

use vstd::prelude::*;

verus! {

/// A compiled glob of `wax`. Opaque to the verifier.
#[verifier::external_type_specification]
#[verifier::external_body]
pub struct ExGlob<'t>(wax::Glob<'t>);

/// A compiled alternation of globs of `wax`. Opaque to the verifier.
#[verifier::external_type_specification]
#[verifier::external_body]
pub struct ExAny<'t>(wax::Any<'t>);

/// The error with which `wax` refuses a glob expression. Opaque to the
/// verifier.
#[verifier::external_type_specification]
#[verifier::external_body]
pub struct ExBuildError<'t>(wax::BuildError<'t>);

/// Whether `wax` accepts `expression` as a glob: it parses, it keeps the
/// rules of the glob language, and its program is not too large.
pub uninterp spec fn glob_well_formed(expression: Seq<char>) -> bool;

/// The expression that a glob was built from.
pub uninterp spec fn glob_expression(glob: wax::Glob<'static>) -> Seq<char>;

/// Whether the branch that `wax::any` compiles from the glob of `expression`
/// matches `path`, on the platform that the library is built for: `wax` takes
/// the platform's separator, and its habit in matters of case, from the
/// target at build time.
///
/// This is the answer of the alternation that is combined from this one
/// glob. It need not be the answer of the glob on its own: a group inside
/// the glob is compiled by its place in the alternation, not by its place in
/// the glob, and a tree wildcard at the edge of such a group is then written
/// differently.
pub uninterp spec fn branch_matches(expression: Seq<char>, path: Seq<char>) -> bool;

/// Whether the alternation of the globs built from `expressions` compiles, that
/// is, whether the program of all of them together is not too large.
pub uninterp spec fn alternation_compiles(expressions: Seq<Seq<char>>) -> bool;

/// The expressions whose globs an alternation was combined from, in order.
pub uninterp spec fn any_expressions(any: wax::Any<'static>) -> Seq<Seq<char>>;

/// The expressions of a list of globs, in order.
pub open spec fn expressions_of(globs: Seq<wax::Glob<'static>>) -> Seq<Seq<char>> {
    Seq::new(globs.len(), |i: int| glob_expression(globs[i]))
}

/// Whether the alternation of a list of expressions matches a path: the
/// branch of some expression matches it. The alternation of no expression
/// at all matches the empty path and no other.
pub open spec fn alternation_matches(expressions: Seq<Seq<char>>, path: Seq<char>) -> bool {
    if expressions.len() == 0 {
        path.len() == 0
    } else {
        exists|i: int|
            0 <= i < expressions.len() && branch_matches(#[trigger] expressions[i], path)
    }
}

/// The most bytes that a pattern may have.
pub const MAX_PATTERN_BYTES: usize = 4096;

/// The most groups, repetitions and classes that a pattern may open.
pub const MAX_GROUPS: usize = 16;

/// The most repetitions that a pattern may open.
pub const MAX_REPETITIONS: usize = 3;

/// The most digits in a row that a pattern with a repetition may hold, so
/// that no bound of a repetition is above 99.
pub const MAX_BOUND_DIGITS: usize = 2;

/// The byte opens an alternative, a repetition or a class: `{`, `<` or `[`.
pub open spec fn is_opener(byte: u8) -> bool {
    byte == 0x7b || byte == 0x3c || byte == 0x5b
}

/// The byte is an ASCII digit.
pub open spec fn is_digit(byte: u8) -> bool {
    0x30 <= byte <= 0x39
}

/// The number of openers among the first `n` bytes.
pub open spec fn openers(bytes: Seq<u8>, n: int) -> nat
    decreases n,
{
    if n <= 0 {
        0
    } else if is_opener(bytes[n - 1]) {
        openers(bytes, n - 1) + 1
    } else {
        openers(bytes, n - 1)
    }
}

/// The number of bytes `<` among the first `n` bytes.
pub open spec fn repetitions(bytes: Seq<u8>, n: int) -> nat
    decreases n,
{
    if n <= 0 {
        0
    } else if bytes[n - 1] == 0x3c {
        repetitions(bytes, n - 1) + 1
    } else {
        repetitions(bytes, n - 1)
    }
}

/// The length of the run of digits that ends with byte `n - 1`.
pub open spec fn digit_run(bytes: Seq<u8>, n: int) -> nat
    decreases n,
{
    if n <= 0 || !is_digit(bytes[n - 1]) {
        0
    } else {
        digit_run(bytes, n - 1) + 1
    }
}

/// No run of digits within the first `n` bytes is longer than
/// [`MAX_BOUND_DIGITS`].
pub open spec fn short_digit_runs(bytes: Seq<u8>, n: int) -> bool {
    forall|k: int| 0 <= k <= n ==> #[trigger] digit_run(bytes, k) <= MAX_BOUND_DIGITS
}

/// The bytes of a pattern keep the limits of this library: not too long, not
/// too many openers, few repetitions, and small bounds where it repeats.
pub open spec fn bytes_within_limits(bytes: Seq<u8>) -> bool {
    &&& bytes.len() <= MAX_PATTERN_BYTES
    &&& openers(bytes, bytes.len() as int) <= MAX_GROUPS
    &&& repetitions(bytes, bytes.len() as int) <= MAX_REPETITIONS
    &&& (repetitions(bytes, bytes.len() as int) > 0 ==> short_digit_runs(
        bytes,
        bytes.len() as int,
    ))
}

/// A pattern keeps the limits of this library. The limits are counted on
/// the bytes of its UTF-8 form.
///
/// A pattern beyond them is refused before the glob compiler sees it: the
/// compiler gives up with a panic, not with an error, on a pattern that
/// nests too deep or repeats too often.
pub open spec fn within_limits(expression: Seq<char>) -> bool {
    bytes_within_limits(vstd::utf8::encode_utf8(expression))
}

/// Every expression of the list keeps the limits.
pub open spec fn all_within_limits(expressions: Seq<Seq<char>>) -> bool {
    forall|i: int| 0 <= i < expressions.len() ==> within_limits(#[trigger] expressions[i])
}

/// Whether a pattern keeps the limits of this library.
pub fn fits_limits(expression: &str) -> (r: bool)
    ensures
        r == within_limits(expression@),
{
    let bytes = expression.as_bytes();
    if bytes.len() > MAX_PATTERN_BYTES {
        return false;
    }
    let mut groups: usize = 0;
    let mut repeats: usize = 0;
    let mut run: usize = 0;
    let mut short: bool = true;
    let mut i: usize = 0;
    while i < bytes.len()
        invariant
            i <= bytes.len() <= MAX_PATTERN_BYTES,
            groups == openers(bytes@, i as int),
            repeats == repetitions(bytes@, i as int),
            run == digit_run(bytes@, i as int),
            groups <= i,
            repeats <= i,
            run <= i,
            short == short_digit_runs(bytes@, i as int),
        decreases bytes.len() - i,
    {
        let byte: u8 = bytes[i];
        if byte == 0x7b || byte == 0x3c || byte == 0x5b {
            groups += 1;
        }
        if byte == 0x3c {
            repeats += 1;
        }
        if 0x30 <= byte && byte <= 0x39 {
            run += 1;
        } else {
            run = 0;
        }
        if run > MAX_BOUND_DIGITS {
            short = false;
        }
        i += 1;
        assert(short == short_digit_runs(bytes@, i as int)) by {
            if short_digit_runs(bytes@, i as int) {
                assert(digit_run(bytes@, i as int) <= MAX_BOUND_DIGITS);
                assert forall|k: int| 0 <= k <= i - 1 implies #[trigger] digit_run(bytes@, k)
                    <= MAX_BOUND_DIGITS by {}
            }
        }
    }
    groups <= MAX_GROUPS && repeats <= MAX_REPETITIONS && (repeats == 0 || short)
}

/// Every expression of the list is a well-formed glob.
pub open spec fn all_well_formed(expressions: Seq<Seq<char>>) -> bool {
    forall|i: int| 0 <= i < expressions.len() ==> glob_well_formed(#[trigger] expressions[i])
}

/// A list of expressions from which an [`IgnoreSet`] can be made: each keeps
/// the limits and is a well-formed glob, and all of them together compile.
pub open spec fn patterns_compile(expressions: Seq<Seq<char>>) -> bool {
    &&& all_within_limits(expressions)
    &&& all_well_formed(expressions)
    &&& alternation_compiles(expressions)
}

/// Trusted: `<wax::Glob<'static> as FromStr>::from_str`, which is
/// `wax::Glob::new` followed by `into_owned` on either outcome. It succeeds
/// exactly on the expressions named well formed, and the glob it gives was
/// built from the expression handed in.
///
/// `wax` panics where the regular expression that it writes is refused for
/// another reason than its size, and where the sizes that it multiplies
/// overflow. The first happens beyond a nesting of 250 in the regular
/// expression, of which an opener costs at most a handful, and with a bound
/// of a repetition above 32 bits; the second with large bounds nested in one
/// another. The limits keep well below all of these, so the call is made
/// within them only.
#[verifier::external_body]
fn build_glob(expression: &str) -> (r: Result<wax::Glob<'static>, wax::BuildError<'static>>)
    requires
        within_limits(expression@),
    ensures
        r is Ok <==> glob_well_formed(expression@),
        r matches Ok(glob) ==> glob_expression(glob) == expression@,
{
    expression.parse::<wax::Glob<'static>>()
}

/// Trusted: `wax::any`, called with globs that are already built. `wax`
/// combines the tokens of its inputs into one alternation and compiles that;
/// the only error left is a program that is too large, named by
/// [`alternation_compiles`]. The result was combined from the inputs, in order.
///
/// The alternation nests each glob a few levels deeper than the glob alone;
/// the call is made on globs within the limits only, for the reason given at
/// [`build_glob`].
#[verifier::external_body]
fn combine(globs: Vec<wax::Glob<'static>>) -> (r: Result<
    wax::Any<'static>,
    wax::BuildError<'static>,
>)
    requires
        all_within_limits(expressions_of(globs@)),
    ensures
        r is Ok <==> alternation_compiles(expressions_of(globs@)),
        r matches Ok(any) ==> any_expressions(any) == expressions_of(globs@),
{
    wax::any::<wax::Glob<'static>, _>(globs)
}

/// Trusted: `wax::Pattern::is_match` on `wax::Any`. In the program that
/// `wax` compiles for an alternation, each glob is a branch of its own
/// between the two anchors, written from the glob alone and with its own
/// flags: the alternation matches a path exactly when one of its branches
/// does. With no glob at all the program is an empty group between the
/// anchors, which matches the empty path and no other.
#[verifier::external_body]
fn any_is_match(any: &wax::Any<'static>, path: &str) -> (r: bool)
    ensures
        r == if any_expressions(*any).len() == 0 {
            path@.len() == 0
        } else {
            exists|i: int|
                0 <= i < any_expressions(*any).len() && branch_matches(
                    #[trigger] any_expressions(*any)[i],
                    path@,
                )
        },
{
    wax::Pattern::is_match(any, path)
}

/// Trusted: `Display` of `wax::BuildError`. Nothing is claimed of the text.
#[verifier::external_body]
fn describe(error: &wax::BuildError<'static>) -> String {
    error.to_string()
}

/// Why a list of patterns could not be made into an [`IgnoreSet`].
#[derive(Debug, PartialEq, Eq)]
pub struct PatternError {
    /// What the glob compiler said, after a fixed prefix.
    pub reason: String,
}

/// The words with which every [`PatternError`] begins.
pub open spec fn pattern_error_prefix() -> Seq<char> {
    "Fail to generate ignore glob: "@
}

impl PatternError {
    fn beyond_limits() -> (e: PatternError)
        ensures
            pattern_error_prefix().is_prefix_of(e.reason@),
    {
        let reason = "Fail to generate ignore glob: ".to_owned().concat(
            "pattern is too long, opens too many groups, or repeats too often",
        );
        assert(reason@.subrange(0, pattern_error_prefix().len() as int) == pattern_error_prefix());
        PatternError { reason }
    }

    fn from_build_error(error: &wax::BuildError<'static>) -> (e: PatternError)
        ensures
            pattern_error_prefix().is_prefix_of(e.reason@),
    {
        let detail = describe(error);
        let reason = "Fail to generate ignore glob: ".to_owned().concat(detail.as_str());
        assert(reason@.subrange(0, pattern_error_prefix().len() as int) == pattern_error_prefix());
        PatternError { reason }
    }
}

/// A matcher over a fixed list of glob patterns.
pub struct IgnoreSet {
    matcher: wax::Any<'static>,
}

impl IgnoreSet {
    /// The patterns that the set was compiled from, in order.
    pub closed spec fn patterns(&self) -> Seq<Seq<char>> {
        any_expressions(self.matcher)
    }

    /// Whether the set holds `path`: the alternation of its patterns matches
    /// it.
    pub open spec fn holds(&self, path: Seq<char>) -> bool {
        alternation_matches(self.patterns(), path)
    }

    /// Compiles `patterns` into one matcher.
    ///
    /// Fails when a pattern is beyond the limits of this library or is
    /// malformed, or when all of them together make too large a program;
    /// nothing is built in that case.
    pub fn new(patterns: &Vec<String>) -> (r: Result<IgnoreSet, PatternError>)
        ensures
            r is Ok <==> patterns_compile(patterns.deep_view()),
            r matches Ok(set) ==> set.patterns() == patterns.deep_view(),
            r matches Err(e) ==> pattern_error_prefix().is_prefix_of(e.reason@),
    {
        let mut globs: Vec<wax::Glob<'static>> = Vec::new();
        let mut i: usize = 0;
        while i < patterns.len()
            invariant
                i <= patterns.len(),
                globs.len() == i,
                forall|j: int|
                    0 <= j < i ==> glob_expression(#[trigger] globs[j]) == patterns[j]@
                        && glob_well_formed(patterns[j]@) && within_limits(patterns[j]@),
            decreases patterns.len() - i,
        {
            if !fits_limits(patterns[i].as_str()) {
                assert(!within_limits(patterns.deep_view()[i as int]));
                return Err(PatternError::beyond_limits());
            }
            match build_glob(patterns[i].as_str()) {
                Ok(glob) => {
                    globs.push(glob);
                },
                Err(error) => {
                    assert(!glob_well_formed(patterns.deep_view()[i as int]));
                    return Err(PatternError::from_build_error(&error));
                },
            }
            i += 1;
        }
        assert(expressions_of(globs@) == patterns.deep_view());
        assert(all_well_formed(patterns.deep_view()));
        assert(all_within_limits(patterns.deep_view()));
        match combine(globs) {
            Ok(matcher) => Ok(IgnoreSet { matcher }),
            Err(error) => Err(PatternError::from_build_error(&error)),
        }
    }

    /// Whether `path` is noise to be left alone.
    pub fn is_ignored(&self, path: &str) -> (r: bool)
        ensures
            r == self.holds(path@),
    {
        any_is_match(&self.matcher, path)
    }
}

/// A list of patterns with a malformed one among them makes no
/// [`IgnoreSet`].
pub proof fn lemma_malformed_pattern_fails(expressions: Seq<Seq<char>>, i: int)
    requires
        0 <= i < expressions.len(),
        !glob_well_formed(expressions[i]),
    ensures
        !patterns_compile(expressions),
{
}

/// A list of patterns with one beyond the limits among them makes no
/// [`IgnoreSet`].
pub proof fn lemma_pattern_beyond_limits_fails(expressions: Seq<Seq<char>>, i: int)
    requires
        0 <= i < expressions.len(),
        !within_limits(expressions[i]),
    ensures
        !patterns_compile(expressions),
{
}

/// A path that the branch of one pattern of a set matches is held by the
/// set.
pub proof fn lemma_matching_pattern_holds(set: IgnoreSet, i: int, path: Seq<char>)
    requires
        0 <= i < set.patterns().len(),
        branch_matches(set.patterns()[i], path),
    ensures
        set.holds(path),
{
}

} // verus!
