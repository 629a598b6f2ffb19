//! What each accessor may return.
//!
//! The evaluators, the screening predicates and the reporter are not defined
//! here, so an accessor's result is stated as a relation: over the answers
//! that those may give, as far as their own contracts pin them, it says which
//! results the accessor may hand back. For collaborators whose contracts fix
//! their answers, the relation allows one result and no other.
//!
//! Each accessor has two relations. The one on [`Collaborators`] says what
//! evaluation gives; the one on [`Template`] puts the dry-run rule in front of
//! it.

use crate::collaborators::{BlendTarget, Collaborators, Response, RunState, Screening};
use crate::literal;
use crate::lookup;
use crate::message;
use crate::template::Template;
use crate::text;
use vstd::prelude::*;

verus! {

/// `r` is a success that carries the empty text: the placeholder of the
/// accessors that give a string or a path.
pub open spec fn is_empty_text<F>(r: Result<String, F>) -> bool {
    r matches Ok(value) && value@ == Seq::<char>::empty()
}

/// `r` is a success that carries a present, empty text: the placeholder of the
/// optional string accessors.
pub open spec fn is_some_empty_text<F>(r: Result<Option<String>, F>) -> bool {
    r matches Ok(Some(value)) && value@ == Seq::<char>::empty()
}

/// The result for an optional field whose value is present: `inner`, with
/// `Some` around its value.
pub open spec fn present<T, F>(inner: Result<T, F>) -> Result<Option<T>, F> {
    match inner {
        Ok(value) => Ok(Some(value)),
        Err(failure) => Err(failure),
    }
}

impl<R: RunState, P: Response, S: Screening> Collaborators<R, P, S> {
    /// What becomes of the evaluator's answer `rendered` before screening: an
    /// error fails the request with the evaluator's own message, an empty
    /// text fails it too, and any other text is handed on as it is.
    pub open spec fn resolved(
        &self,
        request: &P::Request,
        rendered: Result<String, String>,
        r: Result<String, P::Failure>,
    ) -> bool {
        match rendered {
            Ok(value) => if value@.len() == 0 {
                self.fails_with(request, message::empty_render_text(), r)
            } else {
                r == Ok::<String, P::Failure>(value)
            },
            Err(cause) => r matches Err(failure) && self.reports(request, &cause, failure),
        }
    }

    /// What rendering `raw` without screening gives.
    pub open spec fn resolves(
        &self,
        request: &P::Request,
        raw: &String,
        blend_target: BlendTarget,
        r: Result<String, P::Failure>,
    ) -> bool {
        exists|rendered: Result<String, String>| #[trigger]
            self.renders(raw, blend_target, rendered) && self.resolved(request, rendered, r)
    }

    /// What general screening makes of `value`: the text that it hands back,
    /// or a failure that names `field` and the cause.
    pub open spec fn screens_to(
        &self,
        request: &P::Request,
        field: &String,
        value: &String,
        r: Result<String, P::Failure>,
    ) -> bool {
        exists|out: Result<String, String>| #[trigger]
            self.screens_input(value, out) && match out {
                Ok(clean) => r == Ok::<String, P::Failure>(clean),
                Err(cause) => self.fails_with(
                    request,
                    message::screening_text(field@, cause@),
                    r,
                ),
            }
    }

    /// What `string` gives for a value that is evaluated: a failure of
    /// rendering as it is, else the rendered text after general screening.
    pub open spec fn string_evaluates(
        &self,
        request: &P::Request,
        field: &String,
        raw: &String,
        r: Result<String, P::Failure>,
    ) -> bool {
        exists|inner: Result<String, P::Failure>| #[trigger]
            self.resolves(request, raw, BlendTarget::NotTemplateModule, inner) && match inner {
                Ok(value) => self.screens_to(request, field, &value, r),
                Err(failure) => r == Err::<String, P::Failure>(failure),
            }
    }

    /// What `string_option_unsafe` gives for a present value that is
    /// evaluated: what rendering without screening gives, the text present.
    pub open spec fn string_option_unsafe_evaluates(
        &self,
        request: &P::Request,
        raw: &String,
        r: Result<Option<String>, P::Failure>,
    ) -> bool {
        exists|inner: Result<String, P::Failure>| #[trigger]
            self.resolves(request, raw, BlendTarget::NotTemplateModule, inner) && r == present(
                inner,
            )
    }

    /// What `string_option` gives for a present value that is evaluated: what
    /// `string` gives, the text present.
    pub open spec fn string_option_evaluates(
        &self,
        request: &P::Request,
        field: &String,
        raw: &String,
        r: Result<Option<String>, P::Failure>,
    ) -> bool {
        exists|inner: Result<String, P::Failure>| #[trigger]
            self.string_evaluates(request, field, raw, inner) && r == present(inner)
    }

    /// What the space check makes of the screened text `inner`: text with a
    /// space in it fails the request, other text and failures pass.
    pub open spec fn rejects_spaces(
        &self,
        request: &P::Request,
        field: &String,
        inner: Result<String, P::Failure>,
        r: Result<String, P::Failure>,
    ) -> bool {
        match inner {
            Ok(value) => if text::has_space(value@) {
                self.fails_with(request, message::spaces_text(field@), r)
            } else {
                r == inner
            },
            Err(_) => r == inner,
        }
    }

    /// The space check for an optional field: an absent text passes.
    pub open spec fn rejects_spaces_option(
        &self,
        request: &P::Request,
        field: &String,
        inner: Result<Option<String>, P::Failure>,
        r: Result<Option<String>, P::Failure>,
    ) -> bool {
        match inner {
            Ok(Some(value)) => if text::has_space(value@) {
                self.fails_with(request, message::spaces_text(field@), r)
            } else {
                r == inner
            },
            Ok(None) => r == inner,
            Err(_) => r == inner,
        }
    }

    /// What `string_no_spaces` gives for a value that is evaluated: what
    /// `string` gives, after the space check.
    pub open spec fn string_no_spaces_evaluates(
        &self,
        request: &P::Request,
        field: &String,
        raw: &String,
        r: Result<String, P::Failure>,
    ) -> bool {
        exists|inner: Result<String, P::Failure>| #[trigger]
            self.string_evaluates(request, field, raw, inner) && self.rejects_spaces(
                request,
                field,
                inner,
                r,
            )
    }

    /// What `string_option_no_spaces` gives for a present value that is
    /// evaluated: what `string_option` gives, after the space check.
    pub open spec fn string_option_no_spaces_evaluates(
        &self,
        request: &P::Request,
        field: &String,
        raw: &String,
        r: Result<Option<String>, P::Failure>,
    ) -> bool {
        exists|inner: Result<Option<String>, P::Failure>| #[trigger]
            self.string_option_evaluates(request, field, raw, inner) && self.rejects_spaces_option(
                request,
                field,
                inner,
                r,
            )
    }

    /// What path screening makes of the rendered text `value`: the text that
    /// it hands back, or a failure that gives the cause and names `field`.
    pub open spec fn screens_path_to(
        &self,
        request: &P::Request,
        field: &String,
        value: &String,
        r: Result<String, P::Failure>,
    ) -> bool {
        exists|out: Result<String, String>| #[trigger]
            self.screens_path(value, out) && match out {
                Ok(clean) => r == Ok::<String, P::Failure>(clean),
                Err(cause) => self.fails_with(
                    request,
                    message::path_screening_text(cause@, field@),
                    r,
                ),
            }
    }

    /// What `path` gives for a value that is evaluated: the evaluator's error
    /// as a failure, else its text, empty or not, after path screening. No
    /// file is looked for.
    pub open spec fn path_evaluates(
        &self,
        request: &P::Request,
        field: &String,
        raw: &String,
        r: Result<String, P::Failure>,
    ) -> bool {
        exists|rendered: Result<String, String>| #[trigger]
            self.renders(raw, BlendTarget::NotTemplateModule, rendered) && match rendered {
                Ok(value) => self.screens_path_to(request, field, &value, r),
                Err(cause) => r matches Err(failure) && self.reports(request, &cause, failure),
            }
    }

    /// What reading the screened text `inner` as an integer gives.
    pub open spec fn reads_integer(
        &self,
        request: &P::Request,
        field: &String,
        inner: Result<String, P::Failure>,
        r: Result<i64, P::Failure>,
    ) -> bool {
        match inner {
            Ok(value) => match literal::integer_value(value@) {
                Some(number) => r == Ok::<i64, P::Failure>(number),
                None => self.fails_with(
                    request,
                    message::not_integer_text(field@, value@),
                    r,
                ),
            },
            Err(failure) => r == Err::<i64, P::Failure>(failure),
        }
    }

    /// What `integer` gives for a value that is evaluated: what `string`
    /// gives, read as an integer.
    pub open spec fn integer_evaluates(
        &self,
        request: &P::Request,
        field: &String,
        raw: &String,
        r: Result<i64, P::Failure>,
    ) -> bool {
        exists|inner: Result<String, P::Failure>| #[trigger]
            self.string_evaluates(request, field, raw, inner) && self.reads_integer(
                request,
                field,
                inner,
                r,
            )
    }

    /// What `integer_option` gives for a present value that is evaluated.
    pub open spec fn integer_option_evaluates(
        &self,
        request: &P::Request,
        field: &String,
        raw: &String,
        r: Result<Option<i64>, P::Failure>,
    ) -> bool {
        exists|inner: Result<i64, P::Failure>| #[trigger]
            self.integer_evaluates(request, field, raw, inner) && r == present(inner)
    }

    /// What reading the screened text `inner` as a boolean gives.
    pub open spec fn reads_boolean(
        &self,
        request: &P::Request,
        field: &String,
        inner: Result<String, P::Failure>,
        r: Result<bool, P::Failure>,
    ) -> bool {
        match inner {
            Ok(value) => match literal::boolean_value(value@) {
                Some(truth) => r == Ok::<bool, P::Failure>(truth),
                None => self.fails_with(
                    request,
                    message::not_boolean_text(field@, value@),
                    r,
                ),
            },
            Err(failure) => r == Err::<bool, P::Failure>(failure),
        }
    }

    /// What `boolean` gives for a value that is evaluated: what `string`
    /// gives, read as a boolean.
    pub open spec fn boolean_evaluates(
        &self,
        request: &P::Request,
        field: &String,
        raw: &String,
        r: Result<bool, P::Failure>,
    ) -> bool {
        exists|inner: Result<String, P::Failure>| #[trigger]
            self.string_evaluates(request, field, raw, inner) && self.reads_boolean(
                request,
                field,
                inner,
                r,
            )
    }

    /// What `boolean_option_default_none` gives for a present value that is
    /// evaluated.
    pub open spec fn boolean_option_evaluates(
        &self,
        request: &P::Request,
        field: &String,
        raw: &String,
        r: Result<Option<bool>, P::Failure>,
    ) -> bool {
        exists|inner: Result<bool, P::Failure>| #[trigger]
            self.boolean_evaluates(request, field, raw, inner) && r == present(inner)
    }

    /// What `test_cond` gives for a condition that is evaluated: the
    /// evaluator's answer, its error as a failure.
    pub open spec fn condition_evaluates(
        &self,
        request: &P::Request,
        expr: &String,
        r: Result<bool, P::Failure>,
    ) -> bool {
        exists|out: Result<bool, String>| #[trigger]
            self.evaluates(expr, out) && match out {
                Ok(truth) => r == Ok::<bool, P::Failure>(truth),
                Err(cause) => r matches Err(failure) && self.reports(request, &cause, failure),
            }
    }

    /// What a lookup gives for the path `raw` of `field` once the disk has
    /// answered: success with the probed path exactly when a regular file is
    /// `present` there, else a failure that names `field` and the path as it
    /// is written.
    pub open spec fn probe_gives(
        &self,
        request: &P::Request,
        field: &String,
        raw: &String,
        probed: Seq<char>,
        present: bool,
        r: Result<String, P::Failure>,
    ) -> bool {
        if present {
            r matches Ok(path) && path@ == probed
        } else {
            self.fails_with(request, message::no_such_file_text(field@, raw@), r)
        }
    }

    /// What the probe of the screened path `clean` gives, whatever is on disk:
    /// the one or the other outcome of probing the path that the lookup
    /// builds.
    pub open spec fn probes(
        &self,
        prefix: Seq<char>,
        request: &P::Request,
        field: &String,
        raw: &String,
        clean: &String,
        r: Result<String, P::Failure>,
    ) -> bool {
        exists|present: bool| #[trigger]
            self.probe_gives(
                request,
                field,
                raw,
                lookup::probed_text(prefix, clean@, raw@),
                present,
                r,
            )
    }

    /// What a lookup under the subdirectory `prefix` gives for a path that is
    /// evaluated. The path is screened as it is written, and a refusal fails
    /// the request. A screened path that is absolute is probed where it
    /// points, a relative one under `prefix`.
    pub open spec fn lookup_evaluates(
        &self,
        prefix: Seq<char>,
        request: &P::Request,
        field: &String,
        raw: &String,
        r: Result<String, P::Failure>,
    ) -> bool {
        exists|screened: Result<String, String>| #[trigger]
            self.screens_path(raw, screened) && match screened {
                Ok(clean) => self.probes(prefix, request, field, raw, &clean, r),
                Err(cause) => self.fails_with(
                    request,
                    message::lookup_screening_text(cause@, field@),
                    r,
                ),
            }
    }
}

impl<R: RunState, P: Response, S: Screening> Template<R, P, S> {
    /// The dry-run rule: evaluation of `raw` is skipped. That is so when the
    /// run is syntax-only and an expression opens in `raw`, and only then.
    pub open spec fn skips(&self, raw: Seq<char>) -> bool {
        self.syntax_only() && text::has_marker(raw)
    }

    /// The dry-run rule for an optional value: one that is absent is never
    /// skipped.
    pub open spec fn skips_option(&self, raw: Option<String>) -> bool {
        match raw {
            None => false,
            Some(template) => self.skips(template@),
        }
    }

    /// What `string_unsafe` and `string_for_template_module_use_only` may
    /// return for `raw`: the empty text when it is skipped.
    pub open spec fn unscreened_yields(
        &self,
        request: &P::Request,
        raw: &String,
        blend_target: BlendTarget,
        r: Result<String, P::Failure>,
    ) -> bool {
        if self.skips(raw@) {
            is_empty_text(r)
        } else {
            self.collaborators().resolves(request, raw, blend_target, r)
        }
    }

    /// What `string` may return for `raw`: the empty text when it is skipped.
    pub open spec fn string_yields(
        &self,
        request: &P::Request,
        field: &String,
        raw: &String,
        r: Result<String, P::Failure>,
    ) -> bool {
        if self.skips(raw@) {
            is_empty_text(r)
        } else {
            self.collaborators().string_evaluates(request, field, raw, r)
        }
    }

    /// What `string_no_spaces` may return for `raw`: the empty text when it is
    /// skipped.
    pub open spec fn string_no_spaces_yields(
        &self,
        request: &P::Request,
        field: &String,
        raw: &String,
        r: Result<String, P::Failure>,
    ) -> bool {
        if self.skips(raw@) {
            is_empty_text(r)
        } else {
            self.collaborators().string_no_spaces_evaluates(request, field, raw, r)
        }
    }

    /// What `string_option_unsafe` may return for `raw`: nothing for an absent
    /// value, the present empty text for a skipped one.
    pub open spec fn string_option_unsafe_yields(
        &self,
        request: &P::Request,
        raw: &Option<String>,
        r: Result<Option<String>, P::Failure>,
    ) -> bool {
        match *raw {
            None => r == Ok::<Option<String>, P::Failure>(None),
            Some(template) => if self.skips(template@) {
                is_some_empty_text(r)
            } else {
                self.collaborators().string_option_unsafe_evaluates(request, &template, r)
            },
        }
    }

    /// What `string_option` may return for `raw`: nothing for an absent value,
    /// the present empty text for a skipped one.
    pub open spec fn string_option_yields(
        &self,
        request: &P::Request,
        field: &String,
        raw: &Option<String>,
        r: Result<Option<String>, P::Failure>,
    ) -> bool {
        match *raw {
            None => r == Ok::<Option<String>, P::Failure>(None),
            Some(template) => if self.skips(template@) {
                is_some_empty_text(r)
            } else {
                self.collaborators().string_option_evaluates(request, field, &template, r)
            },
        }
    }

    /// What `string_option_no_spaces` may return for `raw`: nothing for an
    /// absent value, the present empty text for a skipped one.
    pub open spec fn string_option_no_spaces_yields(
        &self,
        request: &P::Request,
        field: &String,
        raw: &Option<String>,
        r: Result<Option<String>, P::Failure>,
    ) -> bool {
        match *raw {
            None => r == Ok::<Option<String>, P::Failure>(None),
            Some(template) => if self.skips(template@) {
                is_some_empty_text(r)
            } else {
                self.collaborators().string_option_no_spaces_evaluates(
                    request,
                    field,
                    &template,
                    r,
                )
            },
        }
    }

    /// What `path` may return for `raw`: the empty path when it is skipped.
    pub open spec fn path_yields(
        &self,
        request: &P::Request,
        field: &String,
        raw: &String,
        r: Result<String, P::Failure>,
    ) -> bool {
        if self.skips(raw@) {
            is_empty_text(r)
        } else {
            self.collaborators().path_evaluates(request, field, raw, r)
        }
    }

    /// What `integer` may return for `raw`: 0 when it is skipped.
    pub open spec fn integer_yields(
        &self,
        request: &P::Request,
        field: &String,
        raw: &String,
        r: Result<i64, P::Failure>,
    ) -> bool {
        if self.skips(raw@) {
            r == Ok::<i64, P::Failure>(0)
        } else {
            self.collaborators().integer_evaluates(request, field, raw, r)
        }
    }

    /// What `integer_option` may return for `raw`: nothing for an absent
    /// value, a present 0 for a skipped one.
    pub open spec fn integer_option_yields(
        &self,
        request: &P::Request,
        field: &String,
        raw: &Option<String>,
        r: Result<Option<i64>, P::Failure>,
    ) -> bool {
        match *raw {
            None => r == Ok::<Option<i64>, P::Failure>(None),
            Some(template) => if self.skips(template@) {
                r == Ok::<Option<i64>, P::Failure>(Some(0))
            } else {
                self.collaborators().integer_option_evaluates(request, field, &template, r)
            },
        }
    }

    /// What `boolean` may return for `raw`: `false` when it is skipped.
    pub open spec fn boolean_yields(
        &self,
        request: &P::Request,
        field: &String,
        raw: &String,
        r: Result<bool, P::Failure>,
    ) -> bool {
        if self.skips(raw@) {
            r == Ok::<bool, P::Failure>(false)
        } else {
            self.collaborators().boolean_evaluates(request, field, raw, r)
        }
    }

    /// What an optional boolean with the default `default` may return for
    /// `raw`: the default for an absent value and for a skipped one.
    pub open spec fn boolean_option_yields(
        &self,
        request: &P::Request,
        field: &String,
        raw: &Option<String>,
        default: bool,
        r: Result<bool, P::Failure>,
    ) -> bool {
        match *raw {
            None => r == Ok::<bool, P::Failure>(default),
            Some(template) => if self.skips(template@) {
                r == Ok::<bool, P::Failure>(default)
            } else {
                self.collaborators().boolean_evaluates(request, field, &template, r)
            },
        }
    }

    /// What `boolean_option_default_none` may return for `raw`: nothing for an
    /// absent value and for a skipped one.
    pub open spec fn boolean_option_default_none_yields(
        &self,
        request: &P::Request,
        field: &String,
        raw: &Option<String>,
        r: Result<Option<bool>, P::Failure>,
    ) -> bool {
        match *raw {
            None => r == Ok::<Option<bool>, P::Failure>(None),
            Some(template) => if self.skips(template@) {
                r == Ok::<Option<bool>, P::Failure>(None)
            } else {
                self.collaborators().boolean_option_evaluates(request, field, &template, r)
            },
        }
    }

    /// What `test_cond` may return for `expr`: `true` when it is skipped.
    pub open spec fn test_cond_yields(
        &self,
        request: &P::Request,
        expr: &String,
        r: Result<bool, P::Failure>,
    ) -> bool {
        if self.skips(expr@) {
            r == Ok::<bool, P::Failure>(true)
        } else {
            self.collaborators().condition_evaluates(request, expr, r)
        }
    }

    /// What a lookup under the subdirectory `prefix` may return for the path
    /// `raw`: the empty path when it is skipped.
    pub open spec fn looks_up(
        &self,
        prefix: Seq<char>,
        request: &P::Request,
        field: &String,
        raw: &String,
        r: Result<String, P::Failure>,
    ) -> bool {
        if self.skips(raw@) {
            is_empty_text(r)
        } else {
            self.collaborators().lookup_evaluates(prefix, request, field, raw, r)
        }
    }
}

} // verus!
