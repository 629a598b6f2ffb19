//! What the accessors call and do not define: the run state with its
//! evaluators, the screening predicates and the failure reporter.
//!
//! The traits carry no contract of their own. What an accessor promises is
//! stated over whatever contract the implementation at hand gives its methods.

use vstd::prelude::*;

verus! {

/// Which precedence rules the evaluator applies to the variables in scope.
#[derive(PartialEq, Eq, Structural, Clone, Copy, Debug, Hash)]
pub enum BlendTarget {
    /// An ordinary field of any module.
    NotTemplateModule,
    /// The module that itself renders templates.
    TemplateModule,
}

/// Whether a value has passed screening.
#[derive(PartialEq, Eq, Structural, Clone, Copy, Debug, Hash)]
pub enum Safety {
    Safe,
    Unsafe,
}

/// The state of one run: its execution mode, and the playbook context that
/// evaluates expressions against a host's variables.
pub trait RunState {
    /// The variable scope that a render resolves against.
    type Host;

    /// Whether the run only checks syntax and applies nothing.
    fn is_syntax_only(&self) -> bool;

    /// Renders `template` for `host`; an error carries a readable message.
    fn render_template(
        &self,
        template: &String,
        host: &Self::Host,
        blend_target: BlendTarget,
    ) -> Result<String, String>;

    /// Evaluates the condition `expr` for `host`.
    fn test_cond(&self, expr: &String, host: &Self::Host) -> Result<bool, String>;
}

/// The screening predicates applied to a resolved string before a shell or the
/// filesystem sees it. On success they hand back the text to use.
pub trait Screening {
    /// Rejects traversal and other characters not allowed in a path.
    fn screen_path(&self, path: &String) -> Result<String, String>;

    /// Rejects characters that are unsafe for a shell or another process.
    fn screen_general_input_strict(&self, input: &String) -> Result<String, String>;
}

/// Turns a message into the terminal failure of a request.
pub trait Response {
    /// The unit of work in flight; handed on to the reporter and never read.
    type Request;

    /// A terminal failure tied to a request.
    type Failure;

    /// The failure of `request` that carries `message`.
    fn is_failed(&self, request: &Self::Request, message: &String) -> Self::Failure;
}

/// The collaborators of one task on one host, side by side.
///
/// What evaluation gives is stated over these four alone, so it cannot depend
/// on the mode of the run.
pub struct Collaborators<R: RunState, P: Response, S: Screening> {
    /// The run state that evaluates expressions.
    pub run_state: R,
    /// The host whose variables are in scope.
    pub host: R::Host,
    /// The reporter that makes failures.
    pub response: P,
    /// The screening predicates.
    pub screening: S,
}

impl<R: RunState, P: Response, S: Screening> Collaborators<R, P, S> {
    /// The evaluator may answer `out` when asked to render `template`.
    pub open spec fn renders(
        &self,
        template: &String,
        blend_target: BlendTarget,
        out: Result<String, String>,
    ) -> bool {
        call_ensures(R::render_template, (&self.run_state, template, &self.host, blend_target), out)
    }

    /// The evaluator may answer `out` when asked for the condition `expr`.
    pub open spec fn evaluates(&self, expr: &String, out: Result<bool, String>) -> bool {
        call_ensures(R::test_cond, (&self.run_state, expr, &self.host), out)
    }

    /// Path screening may answer `out` for `path`.
    pub open spec fn screens_path(&self, path: &String, out: Result<String, String>) -> bool {
        call_ensures(S::screen_path, (&self.screening, path), out)
    }

    /// General screening may answer `out` for `input`.
    pub open spec fn screens_input(&self, input: &String, out: Result<String, String>) -> bool {
        call_ensures(S::screen_general_input_strict, (&self.screening, input), out)
    }

    /// The reporter may make `failure` of `message` for `request`.
    pub open spec fn reports(
        &self,
        request: &P::Request,
        message: &String,
        failure: P::Failure,
    ) -> bool {
        call_ensures(P::is_failed, (&self.response, request, message), failure)
    }

    /// The reporter may make `failure` for `request` of a message that reads
    /// `text`.
    pub open spec fn reports_text(
        &self,
        request: &P::Request,
        text: Seq<char>,
        failure: P::Failure,
    ) -> bool {
        exists|message: String|
            message@ == text && #[trigger] self.reports(request, &message, failure)
    }

    /// `r` is a failure of `request` that the reporter made of a message
    /// reading `text`.
    pub open spec fn fails_with<T>(
        &self,
        request: &P::Request,
        text: Seq<char>,
        r: Result<T, P::Failure>,
    ) -> bool {
        match r {
            Ok(_) => false,
            Err(failure) => self.reports_text(request, text, failure),
        }
    }
}

} // verus!
