//! Laws of the accessors: what the dry-run rule, the evaluators and the
//! screening predicates decide, for every value of a field.

use crate::collaborators::{BlendTarget, Collaborators, Response, RunState, Screening};
use crate::literal;
use crate::lookup;
use crate::message;
use crate::outcomes;
use crate::template::Template;
use crate::text;
use vstd::prelude::*;

verus! {

/// A value in which no expression opens is evaluated and validated in every
/// mode, a syntax-only run included: each accessor allows for it what
/// evaluation gives, which is stated over the collaborators alone, and nothing
/// else.
pub proof fn marker_free_value_is_evaluated<R: RunState, P: Response, S: Screening>(
    t: Template<R, P, S>,
    request: &P::Request,
    field: &String,
    raw: &String,
)
    requires
        !text::has_marker(raw@),
    ensures
        forall|blend: BlendTarget, r: Result<String, P::Failure>|
            t.unscreened_yields(request, raw, blend, r) == t.collaborators().resolves(
                request,
                raw,
                blend,
                r,
            ),
        forall|r: Result<String, P::Failure>|
            t.string_yields(request, field, raw, r) == t.collaborators().string_evaluates(
                request,
                field,
                raw,
                r,
            ),
        forall|r: Result<String, P::Failure>|
            t.string_no_spaces_yields(request, field, raw, r)
                == t.collaborators().string_no_spaces_evaluates(request, field, raw, r),
        forall|r: Result<String, P::Failure>|
            t.path_yields(request, field, raw, r) == t.collaborators().path_evaluates(
                request,
                field,
                raw,
                r,
            ),
        forall|r: Result<i64, P::Failure>|
            t.integer_yields(request, field, raw, r) == t.collaborators().integer_evaluates(
                request,
                field,
                raw,
                r,
            ),
        forall|r: Result<bool, P::Failure>|
            t.boolean_yields(request, field, raw, r) == t.collaborators().boolean_evaluates(
                request,
                field,
                raw,
                r,
            ),
        forall|r: Result<bool, P::Failure>|
            t.test_cond_yields(request, raw, r) == t.collaborators().condition_evaluates(
                request,
                raw,
                r,
            ),
        forall|prefix: Seq<char>, r: Result<String, P::Failure>|
            t.looks_up(prefix, request, field, raw, r) == t.collaborators().lookup_evaluates(
                prefix,
                request,
                field,
                raw,
                r,
            ),
{
}

/// The same for a field that may be absent, when its value is present and no
/// expression opens in it.
pub proof fn marker_free_optional_value_is_evaluated<R: RunState, P: Response, S: Screening>(
    t: Template<R, P, S>,
    request: &P::Request,
    field: &String,
    raw: String,
)
    requires
        !text::has_marker(raw@),
    ensures
        forall|r: Result<Option<String>, P::Failure>|
            t.string_option_unsafe_yields(request, &Some(raw), r)
                == t.collaborators().string_option_unsafe_evaluates(request, &raw, r),
        forall|r: Result<Option<String>, P::Failure>|
            t.string_option_yields(request, field, &Some(raw), r)
                == t.collaborators().string_option_evaluates(request, field, &raw, r),
        forall|r: Result<Option<String>, P::Failure>|
            t.string_option_no_spaces_yields(request, field, &Some(raw), r)
                == t.collaborators().string_option_no_spaces_evaluates(request, field, &raw, r),
        forall|r: Result<Option<i64>, P::Failure>|
            t.integer_option_yields(request, field, &Some(raw), r)
                == t.collaborators().integer_option_evaluates(request, field, &raw, r),
        forall|default: bool, r: Result<bool, P::Failure>|
            t.boolean_option_yields(request, field, &Some(raw), default, r)
                == t.collaborators().boolean_evaluates(request, field, &raw, r),
        forall|r: Result<Option<bool>, P::Failure>|
            t.boolean_option_default_none_yields(request, field, &Some(raw), r)
                == t.collaborators().boolean_option_evaluates(request, field, &raw, r),
{
}

/// Two sets of accessors over the same collaborators allow the same results
/// for a value in which no expression opens, whatever their modes.
pub proof fn marker_free_value_ignores_mode<R: RunState, P: Response, S: Screening>(
    dry: Template<R, P, S>,
    live: Template<R, P, S>,
    request: &P::Request,
    field: &String,
    raw: &String,
)
    requires
        dry.collaborators() == live.collaborators(),
        !text::has_marker(raw@),
    ensures
        forall|r: Result<String, P::Failure>|
            dry.string_yields(request, field, raw, r) == live.string_yields(
                request,
                field,
                raw,
                r,
            ),
        forall|r: Result<String, P::Failure>|
            dry.string_no_spaces_yields(request, field, raw, r) == live.string_no_spaces_yields(
                request,
                field,
                raw,
                r,
            ),
        forall|r: Result<String, P::Failure>|
            dry.path_yields(request, field, raw, r) == live.path_yields(request, field, raw, r),
        forall|r: Result<i64, P::Failure>|
            dry.integer_yields(request, field, raw, r) == live.integer_yields(
                request,
                field,
                raw,
                r,
            ),
        forall|r: Result<bool, P::Failure>|
            dry.boolean_yields(request, field, raw, r) == live.boolean_yields(
                request,
                field,
                raw,
                r,
            ),
        forall|r: Result<bool, P::Failure>|
            dry.test_cond_yields(request, raw, r) == live.test_cond_yields(request, raw, r),
        forall|prefix: Seq<char>, r: Result<String, P::Failure>|
            dry.looks_up(prefix, request, field, raw, r) == live.looks_up(
                prefix,
                request,
                field,
                raw,
                r,
            ),
{
}

/// In a syntax-only run a value in which an expression opens is not
/// evaluated: each accessor allows its placeholder and nothing else, whatever
/// the collaborators would answer. The placeholders are the empty text, 0,
/// `false`, `true` for a condition, and the empty path.
pub proof fn skipped_value_gives_placeholder<R: RunState, P: Response, S: Screening>(
    t: Template<R, P, S>,
    request: &P::Request,
    field: &String,
    raw: &String,
)
    requires
        t.syntax_only(),
        text::has_marker(raw@),
    ensures
        forall|blend: BlendTarget, r: Result<String, P::Failure>|
            t.unscreened_yields(request, raw, blend, r) == outcomes::is_empty_text(r),
        forall|r: Result<String, P::Failure>|
            t.string_yields(request, field, raw, r) == outcomes::is_empty_text(r),
        forall|r: Result<String, P::Failure>|
            t.string_no_spaces_yields(request, field, raw, r) == outcomes::is_empty_text(r),
        forall|r: Result<String, P::Failure>|
            t.path_yields(request, field, raw, r) == outcomes::is_empty_text(r),
        forall|r: Result<i64, P::Failure>|
            t.integer_yields(request, field, raw, r) == (r == Ok::<i64, P::Failure>(0)),
        forall|r: Result<bool, P::Failure>|
            t.boolean_yields(request, field, raw, r) == (r == Ok::<bool, P::Failure>(false)),
        forall|r: Result<bool, P::Failure>|
            t.test_cond_yields(request, raw, r) == (r == Ok::<bool, P::Failure>(true)),
        forall|prefix: Seq<char>, r: Result<String, P::Failure>|
            t.looks_up(prefix, request, field, raw, r) == outcomes::is_empty_text(r),
{
}

/// In a syntax-only run a present optional value in which an expression opens
/// gives a present placeholder, never `None`, from the accessors for strings
/// and for integers; an optional boolean gives its default.
pub proof fn skipped_optional_value_gives_placeholder<R: RunState, P: Response, S: Screening>(
    t: Template<R, P, S>,
    request: &P::Request,
    field: &String,
    raw: String,
)
    requires
        t.syntax_only(),
        text::has_marker(raw@),
    ensures
        forall|r: Result<Option<String>, P::Failure>|
            t.string_option_unsafe_yields(request, &Some(raw), r)
                == outcomes::is_some_empty_text(r),
        forall|r: Result<Option<String>, P::Failure>|
            t.string_option_yields(request, field, &Some(raw), r) == outcomes::is_some_empty_text(
                r,
            ),
        forall|r: Result<Option<String>, P::Failure>|
            t.string_option_no_spaces_yields(request, field, &Some(raw), r)
                == outcomes::is_some_empty_text(r),
        forall|r: Result<Option<i64>, P::Failure>|
            t.integer_option_yields(request, field, &Some(raw), r) == (r == Ok::<
                Option<i64>,
                P::Failure,
            >(Some(0))),
        forall|default: bool, r: Result<bool, P::Failure>|
            t.boolean_option_yields(request, field, &Some(raw), default, r) == (r == Ok::<
                bool,
                P::Failure,
            >(default)),
        forall|r: Result<Option<bool>, P::Failure>|
            t.boolean_option_default_none_yields(request, field, &Some(raw), r) == (r == Ok::<
                Option<bool>,
                P::Failure,
            >(None)),
{
}

/// An absent optional value is never skipped and never evaluated: the
/// accessors give `None` for it, and an optional boolean its default, in every
/// mode.
pub proof fn absent_value_gives_nothing<R: RunState, P: Response, S: Screening>(
    t: Template<R, P, S>,
    request: &P::Request,
    field: &String,
)
    ensures
        !t.skips_option(None),
        forall|r: Result<Option<String>, P::Failure>|
            t.string_option_yields(request, field, &None, r) == (r == Ok::<
                Option<String>,
                P::Failure,
            >(None)),
        forall|r: Result<Option<i64>, P::Failure>|
            t.integer_option_yields(request, field, &None, r) == (r == Ok::<
                Option<i64>,
                P::Failure,
            >(None)),
        forall|default: bool, r: Result<bool, P::Failure>|
            t.boolean_option_yields(request, field, &None, default, r) == (r == Ok::<
                bool,
                P::Failure,
            >(default)),
{
}

/// Literal text stays as it is. Where the evaluator hands a text without
/// expressions back unchanged, the unscreened accessor returns that text if it
/// is not empty; and if general screening accepts it, `string` succeeds with
/// what screening made of it.
pub proof fn literal_text_is_kept<R: RunState, P: Response, S: Screening>(
    t: Template<R, P, S>,
    request: &P::Request,
    field: &String,
    raw: &String,
    unscreened: Result<String, P::Failure>,
    screened: Result<String, P::Failure>,
)
    requires
        !text::has_marker(raw@),
        raw@.len() > 0,
        forall|out: Result<String, String>| #[trigger]
            t.collaborators().renders(raw, BlendTarget::NotTemplateModule, out) ==> out == Ok::<
                String,
                String,
            >(*raw),
        forall|out: Result<String, String>| #[trigger]
            t.collaborators().screens_input(raw, out) ==> out is Ok,
        t.unscreened_yields(request, raw, BlendTarget::NotTemplateModule, unscreened),
        t.string_yields(request, field, raw, screened),
    ensures
        unscreened == Ok::<String, P::Failure>(*raw),
        screened matches Ok(clean) && t.collaborators().screens_input(raw, Ok(clean)),
{
}

/// A text that resolves to nothing fails: where the evaluator renders an
/// evaluated value to the empty text, be the value itself empty or not,
/// `string` and the unscreened accessors fail the request, saying that the
/// value evaluated to an empty string.
pub proof fn empty_render_fails<R: RunState, P: Response, S: Screening>(
    t: Template<R, P, S>,
    request: &P::Request,
    field: &String,
    raw: &String,
    blend: BlendTarget,
    unscreened: Result<String, P::Failure>,
    screened: Result<String, P::Failure>,
)
    requires
        !t.skips(raw@),
        forall|target: BlendTarget, out: Result<String, String>| #[trigger]
            t.collaborators().renders(raw, target, out) ==> (out matches Ok(value)
                && value@.len() == 0),
        t.unscreened_yields(request, raw, blend, unscreened),
        t.string_yields(request, field, raw, screened),
    ensures
        t.collaborators().fails_with(request, message::empty_render_text(), unscreened),
        t.collaborators().fails_with(request, message::empty_render_text(), screened),
{
}

/// The empty value is never skipped: no expression opens in it.
pub proof fn empty_value_is_never_skipped<R: RunState, P: Response, S: Screening>(
    t: Template<R, P, S>,
    raw: &String,
)
    requires
        raw@.len() == 0,
    ensures
        !t.skips(raw@),
{
}

/// A boolean has two spellings, `true` and `false`, and no other text is one.
pub proof fn boolean_has_two_spellings(s: Seq<char>)
    ensures
        literal::boolean_value(s) is Some <==> (s == "true"@ || s == "false"@),
        literal::boolean_value(s) == Some(true) <==> s == "true"@,
        literal::boolean_value(s) == Some(false) <==> s == "false"@,
{
    reveal_strlit("true");
    reveal_strlit("false");
    if s == "true"@ {
        assert(s.len() == 4);
    }
}

/// `boolean` succeeds on the two spellings and on nothing else: a screened
/// text is read as `true` or `false` exactly when it spells it, and any other
/// text fails the request.
pub proof fn boolean_accepts_two_spellings<R: RunState, P: Response, S: Screening>(
    c: Collaborators<R, P, S>,
    request: &P::Request,
    field: &String,
    value: String,
    r: Result<bool, P::Failure>,
)
    requires
        c.reads_boolean(request, field, Ok(value), r),
    ensures
        r is Ok <==> (value@ == "true"@ || value@ == "false"@),
        r == Ok::<bool, P::Failure>(true) <==> value@ == "true"@,
        r == Ok::<bool, P::Failure>(false) <==> value@ == "false"@,
        r is Err ==> c.fails_with(request, message::not_boolean_text(field@, value@), r),
{
    boolean_has_two_spellings(value@);
}

/// `integer` succeeds on the integer literals and on nothing else: a screened
/// text is read as the number that it spells, and any other text fails the
/// request with a message that names the field and gives the text.
pub proof fn integer_accepts_literals<R: RunState, P: Response, S: Screening>(
    c: Collaborators<R, P, S>,
    request: &P::Request,
    field: &String,
    value: String,
    r: Result<i64, P::Failure>,
)
    requires
        c.reads_integer(request, field, Ok(value), r),
    ensures
        r is Ok <==> literal::integer_value(value@) is Some,
        r matches Ok(number) ==> literal::integer_value(value@) == Some(number),
        r is Err ==> c.fails_with(request, message::not_integer_text(field@, value@), r),
{
}

/// An integer literal is an optional sign and then digits, one at least: what
/// `integer_value` reads has that shape and spells a number in the range of
/// `i64`, and any text of that shape whose number is in range is read.
pub proof fn integer_literal_shape(s: Seq<char>)
    ensures
        literal::integer_value(s) is Some <==> {
            let digits = if literal::is_signed(s) {
                s.skip(1)
            } else {
                s
            };
            let magnitude = literal::digits_value(digits);
            &&& digits.len() > 0
            &&& literal::all_digits(digits)
            &&& if literal::is_signed(s) && s[0] == '-' {
                magnitude <= 9223372036854775808
            } else {
                magnitude <= 9223372036854775807
            }
        },
{
    let digits = if literal::is_signed(s) {
        s.skip(1)
    } else {
        s
    };
    if literal::all_digits(digits) {
        literal::lemma_digits_value_nonnegative(digits);
    }
}

/// A path that is absolute after screening is probed where it points, under
/// no subdirectory; a relative one is probed as it is written, under the
/// subdirectory of the lookup.
pub proof fn absolute_path_is_not_confined(prefix: Seq<char>, screened: Seq<char>, raw: Seq<char>)
    ensures
        lookup::absolute_path(screened) ==> lookup::probed_text(prefix, screened, raw) == screened,
        !lookup::absolute_path(screened) ==> lookup::probed_text(prefix, screened, raw) == prefix
            + seq!['/'] + raw,
{
    reveal_strlit("/");
}

/// A lookup that succeeds gives the path that it probed, and one that fails
/// after screening has passed says that no such file is there: where path
/// screening accepts the path as `clean` and nothing else, the result is the
/// one or the other.
pub proof fn lookup_gives_the_probed_path<R: RunState, P: Response, S: Screening>(
    t: Template<R, P, S>,
    prefix: Seq<char>,
    request: &P::Request,
    field: &String,
    raw: &String,
    clean: String,
    r: Result<String, P::Failure>,
)
    requires
        !t.skips(raw@),
        forall|out: Result<String, String>| #[trigger]
            t.collaborators().screens_path(raw, out) ==> out == Ok::<String, String>(clean),
        t.looks_up(prefix, request, field, raw, r),
    ensures
        match r {
            Ok(path) => path@ == lookup::probed_text(prefix, clean@, raw@),
            Err(_) => t.collaborators().fails_with(
                request,
                message::no_such_file_text(field@, raw@),
                r,
            ),
        },
{
}

/// A lookup succeeds exactly when a regular file is where it probes: of the
/// two outcomes of a probe, the one for a file that is present is a success
/// with the probed path, and the one for a file that is absent, or for what is
/// no regular file, is the failure that says so.
pub proof fn lookup_succeeds_when_the_file_is_present<R: RunState, P: Response, S: Screening>(
    c: Collaborators<R, P, S>,
    request: &P::Request,
    field: &String,
    raw: &String,
    probed: Seq<char>,
    present: bool,
    r: Result<String, P::Failure>,
)
    requires
        c.probe_gives(request, field, raw, probed, present, r),
    ensures
        r is Ok <==> present,
        r matches Ok(path) ==> path@ == probed,
        r is Err ==> c.fails_with(request, message::no_such_file_text(field@, raw@), r),
{
}

/// An optional accessor does on a present value what its required form does:
/// for strings, screened or not, and for integers, it allows the results of
/// the required accessor with `Some` around the value, placeholders included.
pub proof fn optional_accessor_does_as_required<R: RunState, P: Response, S: Screening>(
    t: Template<R, P, S>,
    request: &P::Request,
    field: &String,
    raw: String,
)
    ensures
        forall|r: Result<Option<String>, P::Failure>|
            t.string_option_unsafe_yields(request, &Some(raw), r) <==> exists|
                inner: Result<String, P::Failure>,
            |
                #[trigger] t.unscreened_yields(
                    request,
                    &raw,
                    BlendTarget::NotTemplateModule,
                    inner,
                ) && r == outcomes::present(inner),
        forall|r: Result<Option<String>, P::Failure>|
            t.string_option_yields(request, field, &Some(raw), r) <==> exists|
                inner: Result<String, P::Failure>,
            |
                #[trigger] t.string_yields(request, field, &raw, inner) && r == outcomes::present(
                    inner,
                ),
        forall|r: Result<Option<i64>, P::Failure>|
            t.integer_option_yields(request, field, &Some(raw), r) <==> exists|
                inner: Result<i64, P::Failure>,
            |
                #[trigger] t.integer_yields(request, field, &raw, inner) && r == outcomes::present(
                    inner,
                ),
{
    if t.skips(raw@) {
        assert forall|r: Result<Option<String>, P::Failure>|
            outcomes::is_some_empty_text(r) implies exists|inner: Result<String, P::Failure>|
            #[trigger] outcomes::is_empty_text(inner) && r == outcomes::present(inner) by {
            let inner: Result<String, P::Failure> = Ok(r->Ok_0->Some_0);
            assert(outcomes::is_empty_text(inner) && r == outcomes::present(inner));
        }
        assert forall|r: Result<Option<String>, P::Failure>|
            t.string_option_unsafe_yields(request, &Some(raw), r) implies exists|
            inner: Result<String, P::Failure>,
        |
            #[trigger] t.unscreened_yields(request, &raw, BlendTarget::NotTemplateModule, inner)
                && r == outcomes::present(inner) by {
            let inner: Result<String, P::Failure> = Ok(r->Ok_0->Some_0);
            assert(t.unscreened_yields(request, &raw, BlendTarget::NotTemplateModule, inner));
        }
        assert forall|r: Result<Option<String>, P::Failure>|
            t.string_option_yields(request, field, &Some(raw), r) implies exists|
            inner: Result<String, P::Failure>,
        |
            #[trigger] t.string_yields(request, field, &raw, inner) && r == outcomes::present(
                inner,
            ) by {
            let inner: Result<String, P::Failure> = Ok(r->Ok_0->Some_0);
            assert(t.string_yields(request, field, &raw, inner));
        }
        assert forall|r: Result<Option<i64>, P::Failure>|
            t.integer_option_yields(request, field, &Some(raw), r) implies exists|
            inner: Result<i64, P::Failure>,
        |
            #[trigger] t.integer_yields(request, field, &raw, inner) && r == outcomes::present(
                inner,
            ) by {
            let inner: Result<i64, P::Failure> = Ok(0);
            assert(t.integer_yields(request, field, &raw, inner));
        }
    } else {
        assert forall|r: Result<Option<String>, P::Failure>|
            t.string_option_unsafe_yields(request, &Some(raw), r) implies exists|
            inner: Result<String, P::Failure>,
        |
            #[trigger] t.unscreened_yields(request, &raw, BlendTarget::NotTemplateModule, inner)
                && r == outcomes::present(inner) by {
            let inner = choose|inner: Result<String, P::Failure>|
                t.collaborators().resolves(request, &raw, BlendTarget::NotTemplateModule, inner)
                    && r == outcomes::present(inner);
            assert(t.unscreened_yields(request, &raw, BlendTarget::NotTemplateModule, inner));
        }
        assert forall|r: Result<Option<String>, P::Failure>|
            t.string_option_yields(request, field, &Some(raw), r) implies exists|
            inner: Result<String, P::Failure>,
        |
            #[trigger] t.string_yields(request, field, &raw, inner) && r == outcomes::present(
                inner,
            ) by {
            let inner = choose|inner: Result<String, P::Failure>|
                t.collaborators().string_evaluates(request, field, &raw, inner) && r
                    == outcomes::present(inner);
            assert(t.string_yields(request, field, &raw, inner));
        }
        assert forall|r: Result<Option<i64>, P::Failure>|
            t.integer_option_yields(request, field, &Some(raw), r) implies exists|
            inner: Result<i64, P::Failure>,
        |
            #[trigger] t.integer_yields(request, field, &raw, inner) && r == outcomes::present(
                inner,
            ) by {
            let inner = choose|inner: Result<i64, P::Failure>|
                t.collaborators().integer_evaluates(request, field, &raw, inner) && r
                    == outcomes::present(inner);
            assert(t.integer_yields(request, field, &raw, inner));
        }
    }
}

/// `path` looks for no file. Where the evaluator resolves the value, `path`
/// succeeds or path screening has refused the rendered text: what is on disk
/// has no part in it.
pub proof fn path_fails_by_screening_alone<R: RunState, P: Response, S: Screening>(
    t: Template<R, P, S>,
    request: &P::Request,
    field: &String,
    raw: &String,
    r: Result<String, P::Failure>,
)
    requires
        !t.skips(raw@),
        forall|out: Result<String, String>| #[trigger]
            t.collaborators().renders(raw, BlendTarget::NotTemplateModule, out) ==> out is Ok,
        t.path_yields(request, field, raw, r),
    ensures
        r is Ok || exists|value: String, cause: String|
            {
                &&& t.collaborators().renders(
                    raw,
                    BlendTarget::NotTemplateModule,
                    Ok::<String, String>(value),
                )
                &&& #[trigger] t.collaborators().screens_path(
                    &value,
                    Err::<String, String>(cause),
                )
                &&& t.collaborators().fails_with(
                    request,
                    message::path_screening_text(cause@, field@),
                    r,
                )
            },
{
}

/// Where the evaluator resolves the value and path screening refuses
/// nothing, `path` succeeds.
pub proof fn path_succeeds_when_screening_passes<R: RunState, P: Response, S: Screening>(
    t: Template<R, P, S>,
    request: &P::Request,
    field: &String,
    raw: &String,
    r: Result<String, P::Failure>,
)
    requires
        forall|out: Result<String, String>| #[trigger]
            t.collaborators().renders(raw, BlendTarget::NotTemplateModule, out) ==> out is Ok,
        forall|value: String, out: Result<String, String>| #[trigger]
            t.collaborators().screens_path(&value, out) ==> out is Ok,
        t.path_yields(request, field, raw, r),
    ensures
        r is Ok,
{
}

/// The text that an answer of an evaluator or of a screening predicate carries.
pub open spec fn text_of(answer: Result<String, String>) -> Result<Seq<char>, Seq<char>> {
    match answer {
        Ok(value) => Ok(value@),
        Err(cause) => Err(cause@),
    }
}

/// Two results read the same: the same failure, or a value with the same text.
pub open spec fn same_text<F>(a: Result<String, F>, b: Result<String, F>) -> bool {
    match a {
        Ok(x) => b matches Ok(y) && x@ == y@,
        Err(failure) => b == Err::<String, F>(failure),
    }
}

/// Two results of an optional accessor read the same.
pub open spec fn same_optional_text<F>(
    a: Result<Option<String>, F>,
    b: Result<Option<String>, F>,
) -> bool {
    match a {
        Ok(Some(x)) => b matches Ok(Some(y)) && x@ == y@,
        Ok(None) => b == Ok::<Option<String>, F>(None),
        Err(failure) => b == Err::<Option<String>, F>(failure),
    }
}

/// The collaborators answer as functions of what they are asked: their
/// contracts let no two answers through that read differently, for questions
/// that read the same.
pub open spec fn single_valued<R: RunState, P: Response, S: Screening>(
    c: Collaborators<R, P, S>,
) -> bool {
    &&& forall|
        t1: &String,
        t2: &String,
        blend: BlendTarget,
        o1: Result<String, String>,
        o2: Result<String, String>,
    |
        t1@ == t2@ && #[trigger] c.renders(t1, blend, o1) && #[trigger] c.renders(t2, blend, o2)
            ==> text_of(o1) == text_of(o2)
    &&& forall|e1: &String, e2: &String, o1: Result<bool, String>, o2: Result<bool, String>|
        e1@ == e2@ && #[trigger] c.evaluates(e1, o1) && #[trigger] c.evaluates(e2, o2)
            ==> match o1 {
            Ok(truth) => o2 == Ok::<bool, String>(truth),
            Err(cause) => o2 matches Err(other) && cause@ == other@,
        }
    &&& forall|w1: &String, w2: &String, o1: Result<String, String>, o2: Result<String, String>|
        w1@ == w2@ && #[trigger] c.screens_path(w1, o1) && #[trigger] c.screens_path(w2, o2)
            ==> text_of(o1) == text_of(o2)
    &&& forall|v1: &String, v2: &String, o1: Result<String, String>, o2: Result<String, String>|
        v1@ == v2@ && #[trigger] c.screens_input(v1, o1) && #[trigger] c.screens_input(v2, o2)
            ==> text_of(o1) == text_of(o2)
    &&& forall|request: &P::Request, m1: &String, m2: &String, f1: P::Failure, f2: P::Failure|
        m1@ == m2@ && #[trigger] c.reports(request, m1, f1) && #[trigger] c.reports(
            request,
            m2,
            f2,
        ) ==> f1 == f2
}

/// With single-valued collaborators there is one failure for one message.
proof fn lemma_one_failure<R: RunState, P: Response, S: Screening, T>(
    c: Collaborators<R, P, S>,
    request: &P::Request,
    text: Seq<char>,
    r1: Result<T, P::Failure>,
    r2: Result<T, P::Failure>,
)
    requires
        single_valued(c),
        c.fails_with(request, text, r1),
        c.fails_with(request, text, r2),
    ensures
        r1 == r2,
{
}

/// With single-valued collaborators rendering gives one result.
proof fn lemma_one_resolved<R: RunState, P: Response, S: Screening>(
    c: Collaborators<R, P, S>,
    request: &P::Request,
    raw1: &String,
    raw2: &String,
    blend: BlendTarget,
    r1: Result<String, P::Failure>,
    r2: Result<String, P::Failure>,
)
    requires
        single_valued(c),
        raw1@ == raw2@,
        c.resolves(request, raw1, blend, r1),
        c.resolves(request, raw2, blend, r2),
    ensures
        same_text(r1, r2),
{
    let o1 = choose|o: Result<String, String>|
        c.renders(raw1, blend, o) && c.resolved(request, o, r1);
    let o2 = choose|o: Result<String, String>|
        c.renders(raw2, blend, o) && c.resolved(request, o, r2);
    match o1 {
        Ok(value) => {
            if value@.len() == 0 {
                lemma_one_failure(c, request, message::empty_render_text(), r1, r2);
            }
        },
        Err(cause) => {},
    }
}

/// With single-valued collaborators general screening gives one result.
proof fn lemma_one_screened<R: RunState, P: Response, S: Screening>(
    c: Collaborators<R, P, S>,
    request: &P::Request,
    field: &String,
    v1: &String,
    v2: &String,
    r1: Result<String, P::Failure>,
    r2: Result<String, P::Failure>,
)
    requires
        single_valued(c),
        v1@ == v2@,
        c.screens_to(request, field, v1, r1),
        c.screens_to(request, field, v2, r2),
    ensures
        same_text(r1, r2),
{
    let o1 = choose|o: Result<String, String>|
        c.screens_input(v1, o) && match o {
            Ok(clean) => r1 == Ok::<String, P::Failure>(clean),
            Err(cause) => c.fails_with(request, message::screening_text(field@, cause@), r1),
        };
    let o2 = choose|o: Result<String, String>|
        c.screens_input(v2, o) && match o {
            Ok(clean) => r2 == Ok::<String, P::Failure>(clean),
            Err(cause) => c.fails_with(request, message::screening_text(field@, cause@), r2),
        };
    match o1 {
        Ok(clean) => {},
        Err(cause) => {
            lemma_one_failure(c, request, message::screening_text(field@, cause@), r1, r2);
        },
    }
}

/// With single-valued collaborators `string` gives one result for a value
/// that is evaluated.
proof fn lemma_one_string<R: RunState, P: Response, S: Screening>(
    c: Collaborators<R, P, S>,
    request: &P::Request,
    field: &String,
    raw: &String,
    r1: Result<String, P::Failure>,
    r2: Result<String, P::Failure>,
)
    requires
        single_valued(c),
        c.string_evaluates(request, field, raw, r1),
        c.string_evaluates(request, field, raw, r2),
    ensures
        same_text(r1, r2),
{
    let i1 = choose|i: Result<String, P::Failure>|
        c.resolves(request, raw, BlendTarget::NotTemplateModule, i) && match i {
            Ok(value) => c.screens_to(request, field, &value, r1),
            Err(failure) => r1 == Err::<String, P::Failure>(failure),
        };
    let i2 = choose|i: Result<String, P::Failure>|
        c.resolves(request, raw, BlendTarget::NotTemplateModule, i) && match i {
            Ok(value) => c.screens_to(request, field, &value, r2),
            Err(failure) => r2 == Err::<String, P::Failure>(failure),
        };
    lemma_one_resolved(c, request, raw, raw, BlendTarget::NotTemplateModule, i1, i2);
    match (i1, i2) {
        (Ok(v1), Ok(v2)) => {
            lemma_one_screened(c, request, field, &v1, &v2, r1, r2);
        },
        _ => {},
    }
}

/// With single-valued collaborators `path` gives one result for a value that
/// is evaluated.
proof fn lemma_one_path<R: RunState, P: Response, S: Screening>(
    c: Collaborators<R, P, S>,
    request: &P::Request,
    field: &String,
    raw: &String,
    r1: Result<String, P::Failure>,
    r2: Result<String, P::Failure>,
)
    requires
        single_valued(c),
        c.path_evaluates(request, field, raw, r1),
        c.path_evaluates(request, field, raw, r2),
    ensures
        same_text(r1, r2),
{
    let o1 = choose|o: Result<String, String>|
        c.renders(raw, BlendTarget::NotTemplateModule, o) && match o {
            Ok(value) => c.screens_path_to(request, field, &value, r1),
            Err(cause) => r1 matches Err(failure) && c.reports(request, &cause, failure),
        };
    let o2 = choose|o: Result<String, String>|
        c.renders(raw, BlendTarget::NotTemplateModule, o) && match o {
            Ok(value) => c.screens_path_to(request, field, &value, r2),
            Err(cause) => r2 matches Err(failure) && c.reports(request, &cause, failure),
        };
    match (o1, o2) {
        (Ok(v1), Ok(v2)) => {
            let s1 = choose|s: Result<String, String>|
                c.screens_path(&v1, s) && match s {
                    Ok(clean) => r1 == Ok::<String, P::Failure>(clean),
                    Err(cause) => c.fails_with(
                        request,
                        message::path_screening_text(cause@, field@),
                        r1,
                    ),
                };
            let s2 = choose|s: Result<String, String>|
                c.screens_path(&v2, s) && match s {
                    Ok(clean) => r2 == Ok::<String, P::Failure>(clean),
                    Err(cause) => c.fails_with(
                        request,
                        message::path_screening_text(cause@, field@),
                        r2,
                    ),
                };
            if let Err(cause) = s1 {
                lemma_one_failure(
                    c,
                    request,
                    message::path_screening_text(cause@, field@),
                    r1,
                    r2,
                );
            }
        },
        _ => {},
    }
}

/// With single-valued collaborators `string_option` gives one result for a
/// present value that is evaluated.
proof fn lemma_one_string_option<R: RunState, P: Response, S: Screening>(
    c: Collaborators<R, P, S>,
    request: &P::Request,
    field: &String,
    raw: &String,
    r1: Result<Option<String>, P::Failure>,
    r2: Result<Option<String>, P::Failure>,
)
    requires
        single_valued(c),
        c.string_option_evaluates(request, field, raw, r1),
        c.string_option_evaluates(request, field, raw, r2),
    ensures
        same_optional_text(r1, r2),
{
    let i1 = choose|i: Result<String, P::Failure>|
        c.string_evaluates(request, field, raw, i) && r1 == outcomes::present(i);
    let i2 = choose|i: Result<String, P::Failure>|
        c.string_evaluates(request, field, raw, i) && r2 == outcomes::present(i);
    lemma_one_string(c, request, field, raw, i1, i2);
}

/// With single-valued collaborators `string_option_unsafe` gives one result
/// for a present value that is evaluated.
proof fn lemma_one_string_option_unsafe<R: RunState, P: Response, S: Screening>(
    c: Collaborators<R, P, S>,
    request: &P::Request,
    raw: &String,
    r1: Result<Option<String>, P::Failure>,
    r2: Result<Option<String>, P::Failure>,
)
    requires
        single_valued(c),
        c.string_option_unsafe_evaluates(request, raw, r1),
        c.string_option_unsafe_evaluates(request, raw, r2),
    ensures
        same_optional_text(r1, r2),
{
    let i1 = choose|i: Result<String, P::Failure>|
        c.resolves(request, raw, BlendTarget::NotTemplateModule, i) && r1 == outcomes::present(i);
    let i2 = choose|i: Result<String, P::Failure>|
        c.resolves(request, raw, BlendTarget::NotTemplateModule, i) && r2 == outcomes::present(i);
    lemma_one_resolved(c, request, raw, raw, BlendTarget::NotTemplateModule, i1, i2);
}

/// The accessors are functions of their collaborators. Where the
/// collaborators are single-valued, any two results that an accessor may
/// return for one value read the same: the contract leaves one result. This
/// holds in every mode, for the accessors that give a string, an integer, a
/// boolean or the truth of a condition.
pub proof fn accessors_are_single_valued<R: RunState, P: Response, S: Screening>(
    t: Template<R, P, S>,
    request: &P::Request,
    field: &String,
    raw: &String,
)
    requires
        single_valued(t.collaborators()),
    ensures
        forall|blend: BlendTarget, r1: Result<String, P::Failure>, r2: Result<String, P::Failure>|
            #[trigger] t.unscreened_yields(request, raw, blend, r1)
                && #[trigger] t.unscreened_yields(request, raw, blend, r2) ==> same_text(r1, r2),
        forall|r1: Result<String, P::Failure>, r2: Result<String, P::Failure>|
            #[trigger] t.string_yields(request, field, raw, r1) && #[trigger] t.string_yields(
                request,
                field,
                raw,
                r2,
            ) ==> same_text(r1, r2),
        forall|r1: Result<String, P::Failure>, r2: Result<String, P::Failure>|
            #[trigger] t.string_no_spaces_yields(request, field, raw, r1)
                && #[trigger] t.string_no_spaces_yields(request, field, raw, r2) ==> same_text(
                r1,
                r2,
            ),
        forall|r1: Result<i64, P::Failure>, r2: Result<i64, P::Failure>|
            #[trigger] t.integer_yields(request, field, raw, r1) && #[trigger] t.integer_yields(
                request,
                field,
                raw,
                r2,
            ) ==> r1 == r2,
        forall|r1: Result<bool, P::Failure>, r2: Result<bool, P::Failure>|
            #[trigger] t.boolean_yields(request, field, raw, r1) && #[trigger] t.boolean_yields(
                request,
                field,
                raw,
                r2,
            ) ==> r1 == r2,
        forall|r1: Result<bool, P::Failure>, r2: Result<bool, P::Failure>|
            #[trigger] t.test_cond_yields(request, raw, r1) && #[trigger] t.test_cond_yields(
                request,
                raw,
                r2,
            ) ==> r1 == r2,
        forall|r1: Result<String, P::Failure>, r2: Result<String, P::Failure>|
            #[trigger] t.path_yields(request, field, raw, r1) && #[trigger] t.path_yields(
                request,
                field,
                raw,
                r2,
            ) ==> same_text(r1, r2),
{
    let c = t.collaborators();
    assert forall|r1: Result<String, P::Failure>, r2: Result<String, P::Failure>|
        #[trigger] t.path_yields(request, field, raw, r1) && #[trigger] t.path_yields(
            request,
            field,
            raw,
            r2,
        ) implies same_text(r1, r2) by {
        if !t.skips(raw@) {
            lemma_one_path(c, request, field, raw, r1, r2);
        }
    }
    assert forall|
        blend: BlendTarget,
        r1: Result<String, P::Failure>,
        r2: Result<String, P::Failure>,
    |
        #[trigger] t.unscreened_yields(request, raw, blend, r1)
            && #[trigger] t.unscreened_yields(request, raw, blend, r2) implies same_text(
        r1,
        r2,
    ) by {
        if !t.skips(raw@) {
            lemma_one_resolved(c, request, raw, raw, blend, r1, r2);
        }
    }
    assert forall|r1: Result<String, P::Failure>, r2: Result<String, P::Failure>|
        #[trigger] t.string_yields(request, field, raw, r1) && #[trigger] t.string_yields(
            request,
            field,
            raw,
            r2,
        ) implies same_text(r1, r2) by {
        if !t.skips(raw@) {
            lemma_one_string(c, request, field, raw, r1, r2);
        }
    }
    assert forall|r1: Result<String, P::Failure>, r2: Result<String, P::Failure>|
        #[trigger] t.string_no_spaces_yields(request, field, raw, r1)
            && #[trigger] t.string_no_spaces_yields(request, field, raw, r2) implies same_text(
        r1,
        r2,
    ) by {
        if !t.skips(raw@) {
            let i1 = choose|i: Result<String, P::Failure>|
                c.string_evaluates(request, field, raw, i) && c.rejects_spaces(
                    request,
                    field,
                    i,
                    r1,
                );
            let i2 = choose|i: Result<String, P::Failure>|
                c.string_evaluates(request, field, raw, i) && c.rejects_spaces(
                    request,
                    field,
                    i,
                    r2,
                );
            lemma_one_string(c, request, field, raw, i1, i2);
            if i1 is Ok && text::has_space(i1->Ok_0@) {
                lemma_one_failure(c, request, message::spaces_text(field@), r1, r2);
            }
        }
    }
    assert forall|r1: Result<i64, P::Failure>, r2: Result<i64, P::Failure>|
        #[trigger] t.integer_yields(request, field, raw, r1) && #[trigger] t.integer_yields(
            request,
            field,
            raw,
            r2,
        ) implies r1 == r2 by {
        if !t.skips(raw@) {
            let i1 = choose|i: Result<String, P::Failure>|
                c.string_evaluates(request, field, raw, i) && c.reads_integer(
                    request,
                    field,
                    i,
                    r1,
                );
            let i2 = choose|i: Result<String, P::Failure>|
                c.string_evaluates(request, field, raw, i) && c.reads_integer(
                    request,
                    field,
                    i,
                    r2,
                );
            lemma_one_string(c, request, field, raw, i1, i2);
            if i1 is Ok && literal::integer_value(i1->Ok_0@) is None {
                lemma_one_failure(
                    c,
                    request,
                    message::not_integer_text(field@, i1->Ok_0@),
                    r1,
                    r2,
                );
            }
        }
    }
    assert forall|r1: Result<bool, P::Failure>, r2: Result<bool, P::Failure>|
        #[trigger] t.boolean_yields(request, field, raw, r1) && #[trigger] t.boolean_yields(
            request,
            field,
            raw,
            r2,
        ) implies r1 == r2 by {
        if !t.skips(raw@) {
            let i1 = choose|i: Result<String, P::Failure>|
                c.string_evaluates(request, field, raw, i) && c.reads_boolean(
                    request,
                    field,
                    i,
                    r1,
                );
            let i2 = choose|i: Result<String, P::Failure>|
                c.string_evaluates(request, field, raw, i) && c.reads_boolean(
                    request,
                    field,
                    i,
                    r2,
                );
            lemma_one_string(c, request, field, raw, i1, i2);
            if i1 is Ok && literal::boolean_value(i1->Ok_0@) is None {
                lemma_one_failure(
                    c,
                    request,
                    message::not_boolean_text(field@, i1->Ok_0@),
                    r1,
                    r2,
                );
            }
        }
    }
    assert forall|r1: Result<bool, P::Failure>, r2: Result<bool, P::Failure>|
        #[trigger] t.test_cond_yields(request, raw, r1) && #[trigger] t.test_cond_yields(
            request,
            raw,
            r2,
        ) implies r1 == r2 by {
        if !t.skips(raw@) {
            let o1 = choose|o: Result<bool, String>|
                c.evaluates(raw, o) && match o {
                    Ok(truth) => r1 == Ok::<bool, P::Failure>(truth),
                    Err(cause) => r1 matches Err(failure) && c.reports(request, &cause, failure),
                };
            let o2 = choose|o: Result<bool, String>|
                c.evaluates(raw, o) && match o {
                    Ok(truth) => r2 == Ok::<bool, P::Failure>(truth),
                    Err(cause) => r2 matches Err(failure) && c.reports(request, &cause, failure),
                };
        }
    }
}

/// The same for the accessors of a field that may be absent: where the
/// collaborators are single-valued, their contracts leave one result.
pub proof fn optional_accessors_are_single_valued<R: RunState, P: Response, S: Screening>(
    t: Template<R, P, S>,
    request: &P::Request,
    field: &String,
    raw: &Option<String>,
)
    requires
        single_valued(t.collaborators()),
    ensures
        forall|r1: Result<Option<String>, P::Failure>, r2: Result<Option<String>, P::Failure>|
            #[trigger] t.string_option_unsafe_yields(request, raw, r1)
                && #[trigger] t.string_option_unsafe_yields(request, raw, r2)
                ==> same_optional_text(r1, r2),
        forall|r1: Result<Option<String>, P::Failure>, r2: Result<Option<String>, P::Failure>|
            #[trigger] t.string_option_yields(request, field, raw, r1)
                && #[trigger] t.string_option_yields(request, field, raw, r2)
                ==> same_optional_text(r1, r2),
        forall|r1: Result<Option<String>, P::Failure>, r2: Result<Option<String>, P::Failure>|
            #[trigger] t.string_option_no_spaces_yields(request, field, raw, r1)
                && #[trigger] t.string_option_no_spaces_yields(request, field, raw, r2)
                ==> same_optional_text(r1, r2),
        forall|r1: Result<Option<i64>, P::Failure>, r2: Result<Option<i64>, P::Failure>|
            #[trigger] t.integer_option_yields(request, field, raw, r1)
                && #[trigger] t.integer_option_yields(request, field, raw, r2) ==> r1 == r2,
        forall|default: bool, r1: Result<bool, P::Failure>, r2: Result<bool, P::Failure>|
            #[trigger] t.boolean_option_yields(request, field, raw, default, r1)
                && #[trigger] t.boolean_option_yields(request, field, raw, default, r2) ==> r1
                == r2,
        forall|r1: Result<Option<bool>, P::Failure>, r2: Result<Option<bool>, P::Failure>|
            #[trigger] t.boolean_option_default_none_yields(request, field, raw, r1)
                && #[trigger] t.boolean_option_default_none_yields(request, field, raw, r2) ==> r1
                == r2,
{
    let c = t.collaborators();
    match *raw {
        None => {},
        Some(template) => {
            if !t.skips(template@) {
                accessors_are_single_valued(t, request, field, &template);
                assert forall|
                    r1: Result<Option<String>, P::Failure>,
                    r2: Result<Option<String>, P::Failure>,
                |
                    #[trigger] t.string_option_unsafe_yields(request, raw, r1)
                        && #[trigger] t.string_option_unsafe_yields(
                        request,
                        raw,
                        r2,
                    ) implies same_optional_text(r1, r2) by {
                    lemma_one_string_option_unsafe(c, request, &template, r1, r2);
                }
                assert forall|
                    r1: Result<Option<String>, P::Failure>,
                    r2: Result<Option<String>, P::Failure>,
                |
                    #[trigger] t.string_option_yields(request, field, raw, r1)
                        && #[trigger] t.string_option_yields(
                        request,
                        field,
                        raw,
                        r2,
                    ) implies same_optional_text(r1, r2) by {
                    lemma_one_string_option(c, request, field, &template, r1, r2);
                }
                assert forall|
                    r1: Result<Option<String>, P::Failure>,
                    r2: Result<Option<String>, P::Failure>,
                |
                    #[trigger] t.string_option_no_spaces_yields(request, field, raw, r1)
                        && #[trigger] t.string_option_no_spaces_yields(
                        request,
                        field,
                        raw,
                        r2,
                    ) implies same_optional_text(r1, r2) by {
                    let i1 = choose|i: Result<Option<String>, P::Failure>|
                        c.string_option_evaluates(request, field, &template, i)
                            && c.rejects_spaces_option(request, field, i, r1);
                    let i2 = choose|i: Result<Option<String>, P::Failure>|
                        c.string_option_evaluates(request, field, &template, i)
                            && c.rejects_spaces_option(request, field, i, r2);
                    lemma_one_string_option(c, request, field, &template, i1, i2);
                    if i1 matches Ok(Some(value)) && text::has_space(value@) {
                        lemma_one_failure(c, request, message::spaces_text(field@), r1, r2);
                    }
                }
            }
        },
    }
}

} // verus!
