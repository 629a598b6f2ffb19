//! The accessors through which every field of a task passes.

use crate::collaborators::{BlendTarget, Collaborators, Response, RunState, Screening};
use crate::literal;
use crate::lookup;
use crate::message;
use crate::text;
use vstd::prelude::*;

verus! {

/// The accessors for the fields of one task on one host.
///
/// The execution mode is read once, when the value is made, and kept: later
/// changes of the run state do not reach it.
pub struct Template<R: RunState, P: Response, S: Screening> {
    parts: Collaborators<R, P, S>,
    syntax_only: bool,
}

impl<R: RunState, P: Response, S: Screening> Template<R, P, S> {
    /// What the accessors call on.
    pub closed spec fn collaborators(&self) -> Collaborators<R, P, S> {
        self.parts
    }

    /// Whether the run was syntax-only when this value was made.
    pub closed spec fn syntax_only(&self) -> bool {
        self.syntax_only
    }

    /// Binds the accessors to one run, one host, one reporter and one set of
    /// screening predicates, and reads the execution mode.
    pub fn new(run_state_handle: R, host_handle: R::Host, response: P, screening: S) -> (template:
        Self)
        ensures
            template.collaborators() == (Collaborators {
                run_state: run_state_handle,
                host: host_handle,
                response,
                screening,
            }),
            call_ensures(R::is_syntax_only, (&run_state_handle,), template.syntax_only()),
    {
        let syntax_value = run_state_handle.is_syntax_only();
        Template {
            parts: Collaborators {
                run_state: run_state_handle,
                host: host_handle,
                response,
                screening,
            },
            syntax_only: syntax_value,
        }
    }

    /// Whether the run was syntax-only when this value was made.
    fn is_syntax(&self) -> (syntax: bool)
        ensures
            syntax == self.syntax_only(),
    {
        self.syntax_only
    }

    /// Whether an expression opens in `input`.
    fn contains_vars(&self, input: &String) -> (found: bool)
        ensures
            found == text::has_marker(input@),
    {
        text::contains_marker(input.as_str())
    }

    /// Whether evaluation of `template` is skipped.
    fn is_syntax_skip_eval(&self, template: &String) -> (skip: bool)
        ensures
            skip == self.skips(template@),
    {
        self.contains_vars(template) && self.is_syntax()
    }

    /// Whether evaluation of the optional `template` is skipped.
    fn is_syntax_skip_eval_option(&self, template: &Option<String>) -> (skip: bool)
        ensures
            skip == self.skips_option(*template),
    {
        match template {
            None => false,
            Some(template2) => self.contains_vars(template2) && self.is_syntax(),
        }
    }

    /// The run state through which expressions are evaluated.
    pub fn get_context(&self) -> (context: &R)
        ensures
            *context == self.collaborators().run_state,
    {
        &self.parts.run_state
    }

    /// Fails `request` with `message`.
    fn failed<T>(&self, request: &P::Request, message: String) -> (r: Result<T, P::Failure>)
        ensures
            self.collaborators().fails_with(request, message@, r),
    {
        let failure = self.parts.response.is_failed(request, &message);
        assert(self.collaborators().reports(request, &message, failure));
        Err(failure)
    }

    /// Forwards the evaluator's answer: its text as it is, its error as the
    /// failure of `request`.
    fn unwrap_string_result(&self, request: &P::Request, str_result: Result<String, String>) -> (r:
        Result<String, P::Failure>)
        ensures
            match str_result {
                Ok(value) => r == Ok::<String, P::Failure>(value),
                Err(cause) => r matches Err(failure) && self.collaborators().reports(
                    request,
                    &cause,
                    failure,
                ),
            },
    {
        match str_result {
            Ok(x) => Ok(x),
            Err(y) => Err(self.parts.response.is_failed(request, &y)),
        }
    }

    /// Renders `template` by the rules of `blend_target`, without screening.
    fn template_unsafe_internal(
        &self,
        request: &P::Request,
        _field: &String,
        template: &String,
        blend_target: BlendTarget,
    ) -> (r: Result<String, P::Failure>)
        ensures
            self.unscreened_yields(request, template, blend_target, r),
    {
        if self.is_syntax_skip_eval(template) {
            return Ok(String::new());
        }
        let result = self.parts.run_state.render_template(template, &self.parts.host, blend_target);
        assert(self.collaborators().renders(template, blend_target, result));
        let empty = match &result {
            Ok(result_ok) => result_ok.as_str().is_empty(),
            Err(_) => false,
        };
        if empty {
            return self.failed(request, message::empty_render_message());
        }
        self.unwrap_string_result(request, result)
    }

    /// Renders `template` with the precedence rules of the module that itself
    /// renders templates, without screening. For that module alone.
    pub fn string_for_template_module_use_only(
        &self,
        request: &P::Request,
        field: &String,
        template: &String,
    ) -> (r: Result<String, P::Failure>)
        ensures
            self.unscreened_yields(request, template, BlendTarget::TemplateModule, r),
    {
        self.template_unsafe_internal(request, field, template, BlendTarget::TemplateModule)
    }

    /// Renders `template` without screening. For accessors that screen the
    /// result by stricter rules of their own.
    pub fn string_unsafe(&self, request: &P::Request, field: &String, template: &String) -> (r:
        Result<String, P::Failure>)
        ensures
            self.unscreened_yields(request, template, BlendTarget::NotTemplateModule, r),
    {
        self.template_unsafe_internal(request, field, template, BlendTarget::NotTemplateModule)
    }

    /// Screens `value` by the general rules.
    fn screen_input(&self, request: &P::Request, field: &String, value: &String) -> (r: Result<
        String,
        P::Failure,
    >)
        ensures
            self.collaborators().screens_to(request, field, value, r),
    {
        let out = self.parts.screening.screen_general_input_strict(value);
        assert(self.collaborators().screens_input(value, out));
        match out {
            Ok(y) => Ok(y),
            Err(z) => self.failed(request, message::screening_message(field, &z)),
        }
    }

    /// Renders `template` and screens the result by the general rules: the
    /// accessor for every value that may reach a shell or another process.
    pub fn string(&self, request: &P::Request, field: &String, template: &String) -> (r: Result<
        String,
        P::Failure,
    >)
        ensures
            self.string_yields(request, field, template, r),
    {
        if self.is_syntax_skip_eval(template) {
            return Ok(String::new());
        }
        let result = self.string_unsafe(request, field, template);
        assert(self.collaborators().resolves(
            request,
            template,
            BlendTarget::NotTemplateModule,
            result,
        ));
        match result {
            Ok(x) => self.screen_input(request, field, &x),
            Err(y) => Err(y),
        }
    }

    /// As `string_unsafe`, for a value that may be absent: an absent value
    /// gives `None`, a skipped one the present empty text.
    pub fn string_option_unsafe(
        &self,
        request: &P::Request,
        field: &String,
        template: &Option<String>,
    ) -> (r: Result<Option<String>, P::Failure>)
        ensures
            self.string_option_unsafe_yields(request, template, r),
    {
        if self.is_syntax_skip_eval_option(template) {
            return Ok(Some(String::new()));
        }
        match template {
            None => Ok(None),
            Some(present) => {
                let result = self.string_unsafe(request, field, present);
                match result {
                    Ok(x) => Ok(Some(x)),
                    Err(y) => Err(y),
                }
            },
        }
    }

    /// As `string`, for a value that may be absent. An absent value gives
    /// `None`; a skipped one gives the present empty text, never `None`.
    pub fn string_option(
        &self,
        request: &P::Request,
        field: &String,
        template: &Option<String>,
    ) -> (r: Result<Option<String>, P::Failure>)
        ensures
            self.string_option_yields(request, field, template, r),
    {
        if self.is_syntax_skip_eval_option(template) {
            return Ok(Some(String::new()));
        }
        match template {
            None => Ok(None),
            Some(present) => {
                let result = self.string(request, field, present);
                match result {
                    Ok(x) => Ok(Some(x)),
                    Err(y) => Err(y),
                }
            },
        }
    }

    /// As `string`, and the text may hold no space.
    pub fn string_no_spaces(&self, request: &P::Request, field: &String, template: &String) -> (r:
        Result<String, P::Failure>)
        ensures
            self.string_no_spaces_yields(request, field, template, r),
    {
        let value = self.string(request, field, template)?;
        if self.has_spaces(&value) {
            return self.failed(request, message::spaces_message(field));
        }
        Ok(value)
    }

    /// As `string_option`, and a present text may hold no space.
    pub fn string_option_no_spaces(
        &self,
        request: &P::Request,
        field: &String,
        template: &Option<String>,
    ) -> (r: Result<Option<String>, P::Failure>)
        ensures
            self.string_option_no_spaces_yields(request, field, template, r),
    {
        let prelim = self.string_option(request, field, template)?;
        let spaced = match &prelim {
            Some(value) => self.has_spaces(value),
            None => false,
        };
        if spaced {
            return self.failed(request, message::spaces_message(field));
        }
        Ok(prelim)
    }

    /// The value as it is written, without the white space around it. Nothing
    /// is rendered and nothing is screened.
    pub fn no_template_string_option_trim(&self, input: &Option<String>) -> (r: Option<String>)
        ensures
            match *input {
                Some(value) => r matches Some(inner) && inner@ == text::trimmed(value@),
                None => r is None,
            },
    {
        match input {
            Some(value) => Some(text::trim(value.as_str())),
            None => None,
        }
    }

    /// Renders `template` and screens the result as a path. The path need not
    /// exist: no file is looked for.
    pub fn path(&self, request: &P::Request, field: &String, template: &String) -> (r: Result<
        String,
        P::Failure,
    >)
        ensures
            self.path_yields(request, field, template, r),
    {
        if self.is_syntax_skip_eval(template) {
            return Ok(String::new());
        }
        let result = self.parts.run_state.render_template(
            template,
            &self.parts.host,
            BlendTarget::NotTemplateModule,
        );
        assert(self.collaborators().renders(template, BlendTarget::NotTemplateModule, result));
        let result2 = self.unwrap_string_result(request, result)?;
        let out = self.parts.screening.screen_path(&result2);
        assert(self.collaborators().screens_path(&result2, out));
        match out {
            Ok(x) => Ok(x),
            Err(y) => self.failed(request, message::path_screening_message(&y, field)),
        }
    }

    /// Resolves `template`, which is not skipped, and reads the screened text
    /// as an integer.
    fn evaluate_integer(&self, request: &P::Request, field: &String, template: &String) -> (r:
        Result<i64, P::Failure>)
        requires
            !self.skips(template@),
        ensures
            self.collaborators().integer_evaluates(request, field, template, r),
    {
        let st = self.string(request, field, template)?;
        match literal::parse_integer(st.as_str()) {
            Some(num) => Ok(num),
            None => self.failed(request, message::not_integer_message(field, &st)),
        }
    }

    /// The field as a signed 64-bit integer.
    pub fn integer(&self, request: &P::Request, field: &String, template: &String) -> (r: Result<
        i64,
        P::Failure,
    >)
        ensures
            self.integer_yields(request, field, template, r),
    {
        if self.is_syntax_skip_eval(template) {
            return Ok(0);
        }
        self.evaluate_integer(request, field, template)
    }

    /// The field as a signed 64-bit integer, where the field may be absent.
    pub fn integer_option(
        &self,
        request: &P::Request,
        field: &String,
        template: &Option<String>,
    ) -> (r: Result<Option<i64>, P::Failure>)
        ensures
            self.integer_option_yields(request, field, template, r),
    {
        if self.is_syntax_skip_eval_option(template) {
            return Ok(Some(0));
        }
        match template {
            None => Ok(None),
            Some(present) => {
                let num = self.evaluate_integer(request, field, present)?;
                Ok(Some(num))
            },
        }
    }

    /// Resolves `template`, which is not skipped, and reads the screened text
    /// as a boolean.
    fn evaluate_boolean(&self, request: &P::Request, field: &String, template: &String) -> (r:
        Result<bool, P::Failure>)
        requires
            !self.skips(template@),
        ensures
            self.collaborators().boolean_evaluates(request, field, template, r),
    {
        let st = self.string(request, field, template)?;
        match literal::parse_boolean(st.as_str()) {
            Some(x) => Ok(x),
            None => self.failed(request, message::not_boolean_message(field, &st)),
        }
    }

    /// The field as a boolean.
    pub fn boolean(&self, request: &P::Request, field: &String, template: &String) -> (r: Result<
        bool,
        P::Failure,
    >)
        ensures
            self.boolean_yields(request, field, template, r),
    {
        if self.is_syntax_skip_eval(template) {
            return Ok(false);
        }
        self.evaluate_boolean(request, field, template)
    }

    /// The field as a boolean; `true` where it is absent or skipped.
    pub fn boolean_option_default_true(
        &self,
        request: &P::Request,
        field: &String,
        template: &Option<String>,
    ) -> (r: Result<bool, P::Failure>)
        ensures
            self.boolean_option_yields(request, field, template, true, r),
    {
        self.internal_boolean_option(request, field, template, true)
    }

    /// The field as a boolean; `false` where it is absent or skipped.
    pub fn boolean_option_default_false(
        &self,
        request: &P::Request,
        field: &String,
        template: &Option<String>,
    ) -> (r: Result<bool, P::Failure>)
        ensures
            self.boolean_option_yields(request, field, template, false, r),
    {
        self.internal_boolean_option(request, field, template, false)
    }

    /// The field as a boolean; `default` where it is absent or skipped.
    fn internal_boolean_option(
        &self,
        request: &P::Request,
        field: &String,
        template: &Option<String>,
        default: bool,
    ) -> (r: Result<bool, P::Failure>)
        ensures
            self.boolean_option_yields(request, field, template, default, r),
    {
        if self.is_syntax_skip_eval_option(template) {
            return Ok(default);
        }
        match template {
            None => Ok(default),
            Some(present) => self.evaluate_boolean(request, field, present),
        }
    }

    /// The field as a boolean; `None` where it is absent or skipped.
    pub fn boolean_option_default_none(
        &self,
        request: &P::Request,
        field: &String,
        template: &Option<String>,
    ) -> (r: Result<Option<bool>, P::Failure>)
        ensures
            self.boolean_option_default_none_yields(request, field, template, r),
    {
        if self.is_syntax_skip_eval_option(template) {
            return Ok(None);
        }
        match template {
            None => Ok(None),
            Some(present) => {
                let x = self.evaluate_boolean(request, field, present)?;
                Ok(Some(x))
            },
        }
    }

    /// Whether the condition `expr` holds for the host.
    pub fn test_cond(&self, request: &P::Request, expr: &String) -> (r: Result<bool, P::Failure>)
        ensures
            self.test_cond_yields(request, expr, r),
    {
        if self.is_syntax_skip_eval(expr) {
            return Ok(true);
        }
        let result = self.get_context().test_cond(expr, &self.parts.host);
        assert(self.collaborators().evaluates(expr, result));
        match result {
            Ok(x) => Ok(x),
            Err(y) => Err(self.parts.response.is_failed(request, &y)),
        }
    }

    /// Finds the template that `str_path` names: under `templates` when the
    /// path is relative.
    pub fn find_template_path(&self, request: &P::Request, field: &String, str_path: &String) -> (r:
        Result<String, P::Failure>)
        ensures
            self.looks_up("templates"@, request, field, str_path, r),
    {
        self.find_sub_path("templates", request, field, str_path)
    }

    /// Finds the file that `str_path` names: under `files` when the path is
    /// relative.
    pub fn find_file_path(&self, request: &P::Request, field: &String, str_path: &String) -> (r:
        Result<String, P::Failure>)
        ensures
            self.looks_up("files"@, request, field, str_path, r),
    {
        self.find_sub_path("files", request, field, str_path)
    }

    /// Whether `input` holds a space.
    pub fn has_spaces(&self, input: &String) -> (found: bool)
        ensures
            found == text::has_space(input@),
    {
        text::contains_space(input.as_str())
    }

    /// What a lookup gives once the disk has answered: the probed `path` where
    /// a regular file is `present`, else a failure that names `field` and the
    /// path as it is written, `str_path`.
    pub fn probe_outcome(
        &self,
        request: &P::Request,
        field: &String,
        str_path: &String,
        path: String,
        present: bool,
    ) -> (r: Result<String, P::Failure>)
        ensures
            present <==> r is Ok,
            present ==> r == Ok::<String, P::Failure>(path),
            !present ==> self.collaborators().fails_with(
                request,
                message::no_such_file_text(field@, str_path@),
                r,
            ),
            self.collaborators().probe_gives(request, field, str_path, path@, present, r),
    {
        if present {
            Ok(path)
        } else {
            self.failed(request, message::no_such_file_message(field, str_path))
        }
    }

    /// Finds the file that `str_path` names: under `prefix` when the path is
    /// relative.
    fn find_sub_path(
        &self,
        prefix: &str,
        request: &P::Request,
        field: &String,
        str_path: &String,
    ) -> (r: Result<String, P::Failure>)
        ensures
            self.looks_up(prefix@, request, field, str_path, r),
    {
        if self.is_syntax_skip_eval(str_path) {
            return Ok(String::new());
        }
        let screened = self.parts.screening.screen_path(str_path);
        assert(self.collaborators().screens_path(str_path, screened));
        match screened {
            Err(cause) => self.failed(request, message::lookup_screening_message(&cause, field)),
            Ok(prelim) => {
                let ghost clean = prelim;
                let absolute = lookup::is_absolute(&prelim);
                let path = lookup::candidate(prefix, prelim, str_path, absolute);
                let ghost probed = path@;
                let present = lookup::is_file(&path);
                let r = self.probe_outcome(request, field, str_path, path, present);
                assert(probed == lookup::probed_text(prefix@, clean@, str_path@));
                assert(self.collaborators().probes(prefix@, request, field, str_path, &clean, r));
                r
            },
        }
    }
}

} // verus!
