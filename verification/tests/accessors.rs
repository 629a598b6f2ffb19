use std::cell::Cell;
use std::rc::Rc;
use template_handle::{BlendTarget, Response, RunState, Safety, Screening, Template};

/// Shared state of a run: its mode, and how often an evaluator was asked.
struct Run {
    syntax_only: Cell<bool>,
    evaluations: Cell<usize>,
}

#[derive(Clone)]
struct RunHandle(Rc<Run>);

impl RunState for RunHandle {
    type Host = String;

    fn is_syntax_only(&self) -> bool {
        self.0.syntax_only.get()
    }

    fn render_template(
        &self,
        template: &String,
        host: &String,
        blend_target: BlendTarget,
    ) -> Result<String, String> {
        self.0.evaluations.set(self.0.evaluations.get() + 1);
        match template.as_str() {
            "{{ name }}" => Ok(host.clone()),
            "{{ port }}" => Ok("8080".to_string()),
            "{{ flag }}" => Ok("true".to_string()),
            "{{ empty }}" => Ok(String::new()),
            "{{ spaced }}" => Ok("two words".to_string()),
            "{{ unsafe }}" => Ok("rm -rf /; echo".to_string()),
            "{{ dir }}" => Ok("/srv/../etc".to_string()),
            "{{ blend }}" => match blend_target {
                BlendTarget::NotTemplateModule => Ok("ordinary".to_string()),
                BlendTarget::TemplateModule => Ok("template-module".to_string()),
            },
            other if other.contains("{{") => Err(format!("undefined variable in {}", other)),
            literal => Ok(literal.to_string()),
        }
    }

    fn test_cond(&self, expr: &String, host: &String) -> Result<bool, String> {
        self.0.evaluations.set(self.0.evaluations.get() + 1);
        match expr.as_str() {
            "always" => Ok(true),
            "never" => Ok(false),
            "{{ is_web }}" => Ok(host.starts_with("web")),
            other => Err(format!("cannot evaluate {}", other)),
        }
    }
}

/// Screening that trims, refuses `;` in general input and `..` in paths, and
/// takes one leading underscore away, so that a pass of it shows in the text.
struct Screens;

impl Screening for Screens {
    fn screen_path(&self, path: &String) -> Result<String, String> {
        if path.contains("..") {
            Err(format!("path may not climb: {}", path))
        } else {
            Ok(path.trim().to_string())
        }
    }

    fn screen_general_input_strict(&self, input: &String) -> Result<String, String> {
        if input.contains(';') {
            return Err(format!("illegal characters found: {}", input));
        }
        let trimmed = input.trim();
        Ok(trimmed.strip_prefix('_').unwrap_or(trimmed).to_string())
    }
}

#[derive(Debug, PartialEq)]
struct Failed {
    request: u32,
    message: String,
}

struct Reporter;

impl Response for Reporter {
    type Request = u32;
    type Failure = Failed;

    fn is_failed(&self, request: &u32, message: &String) -> Failed {
        Failed { request: *request, message: message.clone() }
    }
}

type Accessors = Template<RunHandle, Reporter, Screens>;

fn run(syntax_only: bool) -> RunHandle {
    RunHandle(Rc::new(Run { syntax_only: Cell::new(syntax_only), evaluations: Cell::new(0) }))
}

fn on(handle: &RunHandle) -> Accessors {
    Template::new(handle.clone(), "web1".to_string(), Reporter, Screens)
}

fn apply() -> Accessors {
    on(&run(false))
}

fn syntax_only() -> Accessors {
    on(&run(true))
}

fn s(text: &str) -> String {
    text.to_string()
}

fn fails<T>(request: u32, message: &str) -> Result<T, Failed> {
    Err(Failed { request, message: message.to_string() })
}

// ---- strings

#[test]
fn string_renders_and_screens() {
    let t = apply();
    assert_eq!(t.string(&1, &s("name"), &s("{{ name }}")), Ok(s("web1")));
    assert_eq!(t.string(&1, &s("name"), &s("  plain text ")), Ok(s("plain text")));
}

#[test]
fn string_keeps_literal_text() {
    let t = apply();
    assert_eq!(t.string_unsafe(&1, &s("note"), &s("hello world")), Ok(s("hello world")));
    assert_eq!(t.string(&1, &s("note"), &s("hello world")), Ok(s("hello world")));
}

#[test]
fn string_fails_on_screening_with_field_and_cause() {
    let t = apply();
    assert_eq!(
        t.string(&3, &s("cmd"), &s("{{ unsafe }}")),
        fails(3, "field cmd, illegal characters found: rm -rf /; echo")
    );
    assert_eq!(
        t.string(&3, &s("cmd"), &s("a;b")),
        fails(3, "field cmd, illegal characters found: a;b")
    );
}

#[test]
fn string_fails_on_empty_result() {
    let t = apply();
    assert_eq!(t.string(&4, &s("name"), &s("")), fails(4, "evaluated to empty string"));
    assert_eq!(t.string(&4, &s("name"), &s("{{ empty }}")), fails(4, "evaluated to empty string"));
    assert_eq!(t.string_unsafe(&4, &s("name"), &s("")), fails(4, "evaluated to empty string"));
    assert_eq!(
        t.string_for_template_module_use_only(&4, &s("name"), &s("{{ empty }}")),
        fails(4, "evaluated to empty string")
    );
}

#[test]
fn string_fails_on_empty_literal_in_syntax_only_mode() {
    let t = syntax_only();
    assert_eq!(t.string(&4, &s("name"), &s("")), fails(4, "evaluated to empty string"));
}

#[test]
fn string_carries_the_evaluator_message() {
    let t = apply();
    assert_eq!(
        t.string(&5, &s("name"), &s("{{ nope }}")),
        fails(5, "undefined variable in {{ nope }}")
    );
    assert_eq!(
        t.string_unsafe(&5, &s("name"), &s("{{ nope }}")),
        fails(5, "undefined variable in {{ nope }}")
    );
}

#[test]
fn string_unsafe_does_not_screen() {
    let t = apply();
    assert_eq!(t.string_unsafe(&1, &s("cmd"), &s("{{ unsafe }}")), Ok(s("rm -rf /; echo")));
    assert_eq!(t.string_unsafe(&1, &s("cmd"), &s(" _x ")), Ok(s(" _x ")));
}

#[test]
fn blend_target_is_handed_to_the_evaluator() {
    let t = apply();
    assert_eq!(t.string_unsafe(&1, &s("f"), &s("{{ blend }}")), Ok(s("ordinary")));
    assert_eq!(t.string(&1, &s("f"), &s("{{ blend }}")), Ok(s("ordinary")));
    assert_eq!(
        t.string_for_template_module_use_only(&1, &s("f"), &s("{{ blend }}")),
        Ok(s("template-module"))
    );
}

#[test]
fn string_no_spaces_rejects_a_space() {
    let t = apply();
    assert_eq!(
        t.string_no_spaces(&2, &s("user"), &s("a b")),
        fails(2, "field (user): spaces are not allowed")
    );
    assert_eq!(t.string_no_spaces(&2, &s("user"), &s("a_b")), Ok(s("a_b")));
    assert_eq!(
        t.string_no_spaces(&2, &s("user"), &s("{{ spaced }}")),
        fails(2, "field (user): spaces are not allowed")
    );
    assert_eq!(
        t.string_no_spaces(&2, &s("user"), &s("{{ nope }}")),
        fails(2, "undefined variable in {{ nope }}")
    );
}

#[test]
fn has_spaces_finds_a_space() {
    let t = apply();
    assert!(t.has_spaces(&s("a b")));
    assert!(t.has_spaces(&s(" ")));
    assert!(!t.has_spaces(&s("a_b")));
    assert!(!t.has_spaces(&s("a\tb")));
    assert!(!t.has_spaces(&s("")));
}

// ---- optional strings

#[test]
fn string_option_of_absent_value_is_none() {
    for t in [apply(), syntax_only()] {
        assert_eq!(t.string_option(&1, &s("f"), &None), Ok(None));
        assert_eq!(t.string_option_unsafe(&1, &s("f"), &None), Ok(None));
        assert_eq!(t.string_option_no_spaces(&1, &s("f"), &None), Ok(None));
    }
}

#[test]
fn string_option_renders_a_present_value() {
    let t = apply();
    assert_eq!(t.string_option(&1, &s("f"), &Some(s("{{ name }}"))), Ok(Some(s("web1"))));
    assert_eq!(t.string_option_unsafe(&1, &s("f"), &Some(s("{{ name }}"))), Ok(Some(s("web1"))));
}

#[test]
fn string_option_screens_as_string_does() {
    let t = apply();
    assert_eq!(t.string(&1, &s("f"), &s("__x")), Ok(s("_x")));
    assert_eq!(t.string_option(&1, &s("f"), &Some(s("__x"))), Ok(Some(s("_x"))));
    assert_eq!(t.string_option(&1, &s("f"), &Some(s(" plain "))), Ok(Some(s("plain"))));
}

#[test]
fn string_option_fails_as_string_does() {
    let t = apply();
    for raw in ["a;b", "", "{{ empty }}", "{{ nope }}", "{{ unsafe }}"] {
        let required = t.string(&6, &s("f"), &s(raw));
        assert!(required.is_err(), "{:?}", raw);
        assert_eq!(t.string_option(&6, &s("f"), &Some(s(raw))), required.map(Some), "{:?}", raw);
    }
    assert_eq!(
        t.string_option(&6, &s("f"), &Some(s("a;b"))),
        fails(6, "field f, illegal characters found: a;b")
    );
    assert_eq!(t.string_option(&6, &s("f"), &Some(s(""))), fails(6, "evaluated to empty string"));
}

#[test]
fn string_option_unsafe_does_not_screen() {
    let t = apply();
    assert_eq!(t.string_option_unsafe(&6, &s("f"), &Some(s("a;b"))), Ok(Some(s("a;b"))));
    assert_eq!(t.string_option_unsafe(&6, &s("f"), &Some(s("__x"))), Ok(Some(s("__x"))));
    assert_eq!(t.string_option_unsafe(&6, &s("f"), &Some(s(" x "))), Ok(Some(s(" x "))));
    assert_eq!(
        t.string_option_unsafe(&6, &s("f"), &Some(s("{{ unsafe }}"))),
        Ok(Some(s("rm -rf /; echo")))
    );
}

#[test]
fn string_option_unsafe_fails_as_string_unsafe_does() {
    let t = apply();
    assert_eq!(
        t.string_option_unsafe(&6, &s("f"), &Some(s(""))),
        fails(6, "evaluated to empty string")
    );
    assert_eq!(
        t.string_option_unsafe(&6, &s("f"), &Some(s("{{ nope }}"))),
        fails(6, "undefined variable in {{ nope }}")
    );
}

#[test]
fn string_option_no_spaces_checks_a_present_value() {
    let t = apply();
    assert_eq!(
        t.string_option_no_spaces(&2, &s("user"), &Some(s("a b"))),
        fails(2, "field (user): spaces are not allowed")
    );
    assert_eq!(t.string_option_no_spaces(&2, &s("user"), &Some(s("a_b"))), Ok(Some(s("a_b"))));
}

#[test]
fn trim_takes_white_space_away() {
    let t = apply();
    assert_eq!(t.no_template_string_option_trim(&Some(s("  a b \n"))), Some(s("a b")));
    assert_eq!(t.no_template_string_option_trim(&Some(s("{{ x }} "))), Some(s("{{ x }}")));
    assert_eq!(t.no_template_string_option_trim(&Some(s(" \t "))), Some(s("")));
    assert_eq!(t.no_template_string_option_trim(&Some(s(""))), Some(s("")));
    assert_eq!(t.no_template_string_option_trim(&None), None);
}

// ---- integers and booleans

#[test]
fn integer_reads_a_literal() {
    let t = apply();
    assert_eq!(t.integer(&7, &s("port"), &s("42")), Ok(42));
    assert_eq!(t.integer(&7, &s("port"), &s("{{ port }}")), Ok(8080));
    assert_eq!(t.integer(&7, &s("port"), &s("-17")), Ok(-17));
    assert_eq!(t.integer(&7, &s("port"), &s(" 42 ")), Ok(42));
}

#[test]
fn integer_names_field_and_text() {
    let t = apply();
    assert_eq!(
        t.integer(&7, &s("port"), &s("abc")),
        fails(7, "field (port) value is not an integer: abc")
    );
    assert_eq!(
        t.integer(&7, &s("port"), &s("4 2")),
        fails(7, "field (port) value is not an integer: 4 2")
    );
    assert_eq!(
        t.integer(&7, &s("port"), &s("9223372036854775808")),
        fails(7, "field (port) value is not an integer: 9223372036854775808")
    );
}

#[test]
fn integer_passes_on_the_failure_of_string() {
    let t = apply();
    assert_eq!(t.integer(&7, &s("port"), &s("")), fails(7, "evaluated to empty string"));
    assert_eq!(
        t.integer(&7, &s("port"), &s("1;2")),
        fails(7, "field port, illegal characters found: 1;2")
    );
}

#[test]
fn integer_option_reads_a_present_literal() {
    let t = apply();
    assert_eq!(t.integer_option(&7, &s("port"), &Some(s("42"))), Ok(Some(42)));
    assert_eq!(t.integer_option(&7, &s("port"), &None), Ok(None));
    assert_eq!(
        t.integer_option(&7, &s("port"), &Some(s("abc"))),
        fails(7, "field (port) value is not an integer: abc")
    );
    assert_eq!(
        t.integer_option(&7, &s("port"), &Some(s("1;2"))),
        fails(7, "field port, illegal characters found: 1;2")
    );
}

#[test]
fn boolean_accepts_the_two_spellings() {
    let t = apply();
    assert_eq!(t.boolean(&8, &s("force"), &s("true")), Ok(true));
    assert_eq!(t.boolean(&8, &s("force"), &s("false")), Ok(false));
    assert_eq!(t.boolean(&8, &s("force"), &s("{{ flag }}")), Ok(true));
}

#[test]
fn boolean_refuses_numbers_and_aliases() {
    let t = apply();
    for text in ["1", "0", "yes", "no", "on", "off", "True", "FALSE", "t", "truee", "tru"] {
        assert_eq!(
            t.boolean(&8, &s("force"), &s(text)),
            fails(8, &format!("field (force) value is not a boolean: {}", text))
        );
    }
}

#[test]
fn boolean_option_gives_its_default_when_absent() {
    for t in [apply(), syntax_only()] {
        assert_eq!(t.boolean_option_default_true(&8, &s("force"), &None), Ok(true));
        assert_eq!(t.boolean_option_default_false(&8, &s("force"), &None), Ok(false));
        assert_eq!(t.boolean_option_default_none(&8, &s("force"), &None), Ok(None));
    }
}

#[test]
fn boolean_option_reads_a_present_literal() {
    let t = apply();
    assert_eq!(t.boolean_option_default_true(&8, &s("force"), &Some(s("false"))), Ok(false));
    assert_eq!(t.boolean_option_default_false(&8, &s("force"), &Some(s("true"))), Ok(true));
    assert_eq!(t.boolean_option_default_none(&8, &s("force"), &Some(s("true"))), Ok(Some(true)));
    assert_eq!(t.boolean_option_default_none(&8, &s("force"), &Some(s("false"))), Ok(Some(false)));
    assert_eq!(
        t.boolean_option_default_true(&8, &s("force"), &Some(s("yes"))),
        fails(8, "field (force) value is not a boolean: yes")
    );
    assert_eq!(
        t.boolean_option_default_none(&8, &s("force"), &Some(s("1"))),
        fails(8, "field (force) value is not a boolean: 1")
    );
    assert_eq!(
        t.boolean_option_default_false(&8, &s("force"), &Some(s(""))),
        fails(8, "evaluated to empty string")
    );
}

// ---- conditions

#[test]
fn test_cond_asks_the_evaluator() {
    let t = apply();
    assert_eq!(t.test_cond(&9, &s("always")), Ok(true));
    assert_eq!(t.test_cond(&9, &s("never")), Ok(false));
    assert_eq!(t.test_cond(&9, &s("{{ is_web }}")), Ok(true));
    assert_eq!(t.test_cond(&9, &s("???")), fails(9, "cannot evaluate ???"));
}

#[test]
fn test_cond_without_expression_is_evaluated_in_syntax_only_mode() {
    let t = syntax_only();
    assert_eq!(t.test_cond(&9, &s("never")), Ok(false));
    assert_eq!(t.test_cond(&9, &s("???")), fails(9, "cannot evaluate ???"));
}

// ---- paths

#[test]
fn path_screens_and_looks_for_no_file() {
    let t = apply();
    assert_eq!(
        t.path(&10, &s("dest"), &s("/no/such/dir/anywhere/file.conf")),
        Ok(s("/no/such/dir/anywhere/file.conf"))
    );
    assert_eq!(t.path(&10, &s("dest"), &s(" relative/none.txt ")), Ok(s("relative/none.txt")));
}

#[test]
fn path_fails_on_screening() {
    let t = apply();
    assert_eq!(
        t.path(&10, &s("dest"), &s("../etc/passwd")),
        fails(10, "path may not climb: ../etc/passwd, for field dest")
    );
    assert_eq!(
        t.path(&10, &s("dest"), &s("{{ dir }}")),
        fails(10, "path may not climb: /srv/../etc, for field dest")
    );
}

#[test]
fn path_passes_an_empty_render_to_screening() {
    let t = apply();
    assert_eq!(t.path(&10, &s("dest"), &s("{{ empty }}")), Ok(s("")));
    assert_eq!(
        t.path(&10, &s("dest"), &s("{{ nope }}")),
        fails(10, "undefined variable in {{ nope }}")
    );
}

#[test]
fn path_does_not_apply_general_screening() {
    let t = apply();
    assert_eq!(t.path(&10, &s("dest"), &s("/tmp/a;b")), Ok(s("/tmp/a;b")));
}

#[test]
fn find_file_path_fails_when_absent() {
    let t = apply();
    assert_eq!(
        t.find_file_path(&11, &s("src"), &s("x.txt")),
        fails(11, "field (src): no such file: x.txt")
    );
    assert_eq!(
        t.find_template_path(&11, &s("src"), &s("x.j2")),
        fails(11, "field (src): no such file: x.j2")
    );
}

#[test]
fn find_file_path_checks_an_absolute_path_where_it_points() {
    let t = apply();
    assert_eq!(t.find_file_path(&11, &s("src"), &s("/bin/sh")), Ok(s("/bin/sh")));
    assert_eq!(t.find_template_path(&11, &s("src"), &s(" /bin/sh ")), Ok(s("/bin/sh")));
    assert_eq!(
        t.find_file_path(&11, &s("src"), &s("/no/such/dir/anywhere/x.txt")),
        fails(11, "field (src): no such file: /no/such/dir/anywhere/x.txt")
    );
}

#[test]
fn find_file_path_wants_a_regular_file() {
    let t = apply();
    assert_eq!(
        t.find_file_path(&11, &s("src"), &s("/")),
        fails(11, "field (src): no such file: /")
    );
}

#[test]
fn find_file_path_screens_before_it_looks() {
    let t = apply();
    assert_eq!(
        t.find_file_path(&11, &s("src"), &s("../x.txt")),
        fails(11, "path may not climb: ../x.txt, for field: src")
    );
    assert_eq!(
        t.find_template_path(&11, &s("src"), &s("/bin/../bin/sh")),
        fails(11, "path may not climb: /bin/../bin/sh, for field: src")
    );
}

#[test]
fn probe_outcome_gives_the_path_of_a_present_file() {
    let t = apply();
    assert_eq!(
        t.probe_outcome(&11, &s("src"), &s("x.txt"), s("files/x.txt"), true),
        Ok(s("files/x.txt"))
    );
    assert_eq!(
        t.probe_outcome(&11, &s("src"), &s("/opt/data/x.txt"), s("/opt/data/x.txt"), true),
        Ok(s("/opt/data/x.txt"))
    );
}

#[test]
fn probe_outcome_fails_for_an_absent_file() {
    let t = apply();
    assert_eq!(
        t.probe_outcome(&11, &s("src"), &s("x.txt"), s("files/x.txt"), false),
        fails(11, "field (src): no such file: x.txt")
    );
    assert_eq!(
        t.probe_outcome(&11, &s("src"), &s("/opt/data/x.txt"), s("/opt/data/x.txt"), false),
        fails(11, "field (src): no such file: /opt/data/x.txt")
    );
    assert_eq!(
        t.probe_outcome(&11, &s("src"), &s("/etc/conf.d"), s("/etc/conf.d"), false),
        fails(11, "field (src): no such file: /etc/conf.d")
    );
}

#[test]
fn probe_outcome_does_not_look_at_the_mode() {
    let t = syntax_only();
    assert_eq!(
        t.probe_outcome(&11, &s("src"), &s("/srv/app/motd"), s("/srv/app/motd"), false),
        fails(11, "field (src): no such file: /srv/app/motd")
    );
    assert_eq!(
        t.find_file_path(&11, &s("src"), &s("/srv/app/no-such-motd")),
        fails(11, "field (src): no such file: /srv/app/no-such-motd")
    );
}

// ---- the dry-run rule

#[test]
fn skipped_values_give_placeholders() {
    let t = syntax_only();
    let raw = s("{{ anything at all }}");
    assert_eq!(t.string(&1, &s("f"), &raw), Ok(s("")));
    assert_eq!(t.string_unsafe(&1, &s("f"), &raw), Ok(s("")));
    assert_eq!(t.string_for_template_module_use_only(&1, &s("f"), &raw), Ok(s("")));
    assert_eq!(t.string_no_spaces(&1, &s("f"), &raw), Ok(s("")));
    assert_eq!(t.path(&1, &s("f"), &raw), Ok(s("")));
    assert_eq!(t.integer(&1, &s("f"), &raw), Ok(0));
    assert_eq!(t.boolean(&1, &s("f"), &raw), Ok(false));
    assert_eq!(t.test_cond(&1, &raw), Ok(true));
    assert_eq!(t.find_template_path(&1, &s("f"), &raw), Ok(s("")));
    assert_eq!(t.find_file_path(&1, &s("f"), &raw), Ok(s("")));
}

#[test]
fn skipped_values_do_not_reach_the_evaluator() {
    let handle = run(true);
    let t = on(&handle);
    let raw = s("a {{ b }} c");
    assert_eq!(t.string(&1, &s("f"), &raw), Ok(s("")));
    assert_eq!(t.integer(&1, &s("f"), &raw), Ok(0));
    assert_eq!(t.boolean(&1, &s("f"), &raw), Ok(false));
    assert_eq!(t.test_cond(&1, &raw), Ok(true));
    assert_eq!(t.path(&1, &s("f"), &raw), Ok(s("")));
    assert_eq!(t.string_option(&1, &s("f"), &Some(raw.clone())), Ok(Some(s(""))));
    assert_eq!(t.integer_option(&1, &s("f"), &Some(raw)), Ok(Some(0)));
    assert_eq!(handle.0.evaluations.get(), 0);
    assert_eq!(t.string(&1, &s("f"), &s("plain")), Ok(s("plain")));
    assert_eq!(handle.0.evaluations.get(), 1);
}

#[test]
fn skipped_optional_values_give_present_placeholders() {
    let t = syntax_only();
    let raw = Some(s("{{ x }}"));
    assert_eq!(t.string_option(&1, &s("f"), &raw), Ok(Some(s(""))));
    assert_eq!(t.string_option_unsafe(&1, &s("f"), &raw), Ok(Some(s(""))));
    assert_eq!(t.string_option_no_spaces(&1, &s("f"), &raw), Ok(Some(s(""))));
    assert_eq!(t.integer_option(&1, &s("f"), &raw), Ok(Some(0)));
    assert_eq!(t.boolean_option_default_true(&1, &s("f"), &raw), Ok(true));
    assert_eq!(t.boolean_option_default_false(&1, &s("f"), &raw), Ok(false));
    assert_eq!(t.boolean_option_default_none(&1, &s("f"), &raw), Ok(None));
}

#[test]
fn values_without_expression_are_evaluated_in_syntax_only_mode() {
    let t = syntax_only();
    assert_eq!(
        t.string_no_spaces(&1, &s("f"), &s("5 words")),
        fails(1, "field (f): spaces are not allowed")
    );
    assert_eq!(t.string(&1, &s("f"), &s("5 words")), Ok(s("5 words")));
    assert_eq!(t.integer(&1, &s("f"), &s("12")), Ok(12));
    assert_eq!(
        t.integer(&1, &s("f"), &s("twelve")),
        fails(1, "field (f) value is not an integer: twelve")
    );
    assert_eq!(
        t.boolean(&1, &s("f"), &s("yes")),
        fails(1, "field (f) value is not a boolean: yes")
    );
    assert_eq!(
        t.path(&1, &s("f"), &s("../up")),
        fails(1, "path may not climb: ../up, for field f")
    );
    assert_eq!(
        t.find_file_path(&1, &s("f"), &s("x.txt")),
        fails(1, "field (f): no such file: x.txt")
    );
    assert_eq!(
        t.integer_option(&1, &s("f"), &Some(s("x"))),
        fails(1, "field (f) value is not an integer: x")
    );
}

#[test]
fn a_single_brace_opens_no_expression() {
    let t = syntax_only();
    assert_eq!(t.string(&1, &s("f"), &s("{ x }")), Ok(s("{ x }")));
    assert_eq!(t.string(&1, &s("f"), &s("{ {")), Ok(s("{ {")));
    assert_eq!(t.string(&1, &s("f"), &s("a{{")), Ok(s("")));
}

#[test]
fn expressions_are_evaluated_when_applying() {
    let t = apply();
    assert_eq!(t.integer(&1, &s("f"), &s("{{ port }}")), Ok(8080));
    assert_eq!(t.test_cond(&1, &s("{{ is_web }}")), Ok(true));
}

#[test]
fn mode_is_read_once() {
    let handle = run(true);
    let t = on(&handle);
    handle.0.syntax_only.set(false);
    assert_eq!(t.integer(&1, &s("f"), &s("{{ port }}")), Ok(0));
    let later = on(&handle);
    assert_eq!(later.integer(&1, &s("f"), &s("{{ port }}")), Ok(8080));
    handle.0.syntax_only.set(true);
    assert_eq!(later.integer(&1, &s("f"), &s("{{ port }}")), Ok(8080));
}

#[test]
fn get_context_hands_out_the_run_state() {
    let handle = run(false);
    let t = on(&handle);
    assert!(Rc::ptr_eq(&t.get_context().0, &handle.0));
    assert_eq!(
        t.get_context().render_template(
            &s("{{ name }}"),
            &s("db9"),
            BlendTarget::NotTemplateModule
        ),
        Ok(s("db9"))
    );
}

#[test]
fn enums_compare_by_variant() {
    assert_eq!(BlendTarget::TemplateModule, BlendTarget::TemplateModule);
    assert_ne!(BlendTarget::TemplateModule, BlendTarget::NotTemplateModule);
    assert_ne!(Safety::Safe, Safety::Unsafe);
    let copy = Safety::Safe;
    assert_eq!(copy, Safety::Safe);
    assert_eq!(format!("{:?}", BlendTarget::NotTemplateModule), "NotTemplateModule");
}
