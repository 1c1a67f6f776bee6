use vstd::prelude::*;
use crate::config::{
    config_of, config_problem, opt_text, parse_config, AnnotationConfig, Clause, ConfigError,
    ConfigModel, ErrorModel, RawOption, Style,
};
use crate::syntax::{
    is_expression, parses_as_expr, string_literal, string_literal_tokens, unsafe_block,
    unsafe_block_tokens,
};
use crate::text::{fresh_from, fresh_name, RESULT_NAME};

verus! {

/// Format string of the message of a failed `requires` or `precondition`.
pub const REQUIRED_FORMAT: &'static str =
    "\"\\\"{}\\\" is invalid because the required condition failed\"";

/// Format string of the message of a failed `ensures`.
pub const ENSURED_FORMAT: &'static str =
    "\"\\\"{}\\\" is invalid because the ensured condition failed\"";

/// A condition compiled into a debug-only check.
#[derive(Clone, Debug)]
pub struct Check {
    pub clause: Clause,
    /// Rust expression text, known to parse.
    pub condition: String,
    pub reason: String,
}

/// The meaning of a [`Check`].
pub struct CheckModel {
    pub clause: Clause,
    pub condition: Seq<char>,
    pub reason: Seq<char>,
}

impl View for Check {
    type V = CheckModel;

    open spec fn view(&self) -> CheckModel {
        CheckModel { clause: self.clause, condition: self.condition@, reason: self.reason@ }
    }
}

/// The replacement of one marked block.
#[derive(Clone, Debug)]
pub struct Expansion {
    pub style: Style,
    /// Checked before the body runs.
    pub pre: Option<Check>,
    /// The block (under `Contract`) or expression (under `Guard`) that runs.
    pub body: String,
    /// The name that holds the body's value under `Contract`.
    pub result_name: String,
    /// Checked after the body completes normally.
    pub post: Option<Check>,
}

/// The meaning of an [`Expansion`].
pub struct ExpansionModel {
    pub style: Style,
    pub pre: Option<CheckModel>,
    pub body: Seq<char>,
    pub result_name: Seq<char>,
    pub post: Option<CheckModel>,
}

pub open spec fn opt_check(o: Option<Check>) -> Option<CheckModel> {
    match o {
        Some(c) => Some(c@),
        None => None,
    }
}

impl View for Expansion {
    type V = ExpansionModel;

    open spec fn view(&self) -> ExpansionModel {
        ExpansionModel {
            style: self.style,
            pre: opt_check(self.pre),
            body: self.body@,
            result_name: self.result_name@,
            post: opt_check(self.post),
        }
    }
}

/// The clause that the precondition of a style is written under.
pub open spec fn pre_clause(style: Style) -> Clause {
    match style {
        Style::Contract => Clause::Requires,
        Style::Guard => Clause::Precondition,
    }
}

/// The check for an optional condition.
pub open spec fn check_for(clause: Clause, cond: Option<Seq<char>>, reason: Seq<char>) -> Option<
    CheckModel,
> {
    match cond {
        Some(t) => Some(CheckModel { clause, condition: t, reason }),
        None => None,
    }
}

/// The code that runs under a style, taken from the marked item's text.
pub open spec fn body_of(style: Style, item: Seq<char>) -> Option<Seq<char>> {
    match style {
        Style::Contract => unsafe_block_tokens(item),
        Style::Guard => if parses_as_expr(item) {
            Some(item)
        } else {
            None
        },
    }
}

/// The text that the result name must stay clear of: the postcondition,
/// the only code that sees it.
pub open spec fn visible_text(c: ConfigModel) -> Seq<char> {
    match c.postcondition {
        Some(q) => q,
        None => Seq::empty(),
    }
}

/// The expansion of an item under a configuration, or why there is none.
pub open spec fn expansion_from(c: ConfigModel, item: Seq<char>) -> Result<
    ExpansionModel,
    ErrorModel,
> {
    match body_of(c.style, item) {
        None => Err(
            if c.style is Contract {
                ErrorModel::NotUnsafeBlock
            } else {
                ErrorModel::NotExpression
            },
        ),
        Some(b) => if c.precondition is Some && !parses_as_expr(c.precondition->0) {
            Err(ErrorModel::MalformedCondition(pre_clause(c.style)))
        } else if c.postcondition is Some && !parses_as_expr(c.postcondition->0) {
            Err(ErrorModel::MalformedCondition(Clause::Ensures))
        } else {
            Ok(
                ExpansionModel {
                    style: c.style,
                    pre: check_for(pre_clause(c.style), c.precondition, c.reason),
                    body: b,
                    result_name: fresh_from(RESULT_NAME@, visible_text(c)),
                    post: check_for(Clause::Ensures, c.postcondition, c.reason),
                },
            )
        },
    }
}

/// The expansion of an item under a raw option list, or why there is none.
pub open spec fn expansion_of(opts: Seq<RawOption>, item: Seq<char>) -> Result<
    ExpansionModel,
    ErrorModel,
> {
    match config_problem(opts) {
        Some(e) => Err(e),
        None => expansion_from(config_of(opts), item),
    }
}

pub open spec fn expansion_result(r: Result<Expansion, ConfigError>) -> Result<
    ExpansionModel,
    ErrorModel,
> {
    match r {
        Ok(e) => Ok(e@),
        Err(x) => Err(x@),
    }
}

/// The format string of a clause's failure message, as source text.
pub open spec fn format_text(clause: Clause) -> Seq<char> {
    if clause.is_before() {
        REQUIRED_FORMAT@
    } else {
        ENSURED_FORMAT@
    }
}

/// The statement that a check becomes, with a trailing space.
pub open spec fn check_code(c: CheckModel) -> Seq<char> {
    "debug_assert!("@ + c.condition + ", "@ + format_text(c.clause) + ", "@
        + string_literal_tokens(c.reason) + "); "@
}

pub open spec fn opt_check_code(o: Option<CheckModel>) -> Seq<char> {
    match o {
        Some(c) => check_code(c),
        None => Seq::empty(),
    }
}

/// The source text of an expansion.
pub open spec fn code(e: ExpansionModel) -> Seq<char> {
    match e.style {
        Style::Contract => "unsafe { "@ + opt_check_code(e.pre) + "let "@ + e.result_name
            + " = "@ + e.body + "; "@ + opt_check_code(e.post) + e.result_name + " }"@,
        Style::Guard => "{ "@ + opt_check_code(e.pre) + e.body + " }"@,
    }
}

/// Compiles the condition of a clause into a check that names `reason`.
pub fn compile_assertion(clause: Clause, condition: &String, reason: &String) -> (r: Result<
    Check,
    ConfigError,
>)
    ensures
        match r {
            Ok(c) => parses_as_expr(condition@) && c@ == (CheckModel {
                clause,
                condition: condition@,
                reason: reason@,
            }),
            Err(e) => !parses_as_expr(condition@) && e@ == ErrorModel::MalformedCondition(clause),
        },
{
    if is_expression(condition.as_str()) {
        Ok(Check { clause, condition: condition.clone(), reason: reason.clone() })
    } else {
        Err(ConfigError::MalformedCondition(clause))
    }
}

/// Compiles an optional condition.
fn compile_optional(clause: Clause, condition: &Option<String>, reason: &String) -> (r: Result<
    Option<Check>,
    ConfigError,
>)
    ensures
        match r {
            Ok(c) => (condition.is_some() ==> parses_as_expr(condition->0@)) && opt_check(c)
                == check_for(clause, opt_text(*condition), reason@),
            Err(e) => condition.is_some() && !parses_as_expr(condition->0@) && e@
                == ErrorModel::MalformedCondition(clause),
        },
{
    match condition {
        Some(t) => match compile_assertion(clause, t, reason) {
            Ok(c) => Ok(Some(c)),
            Err(e) => Err(e),
        },
        None => Ok(None),
    }
}

/// The code that the marked item runs under a style.
pub fn marked_body(style: Style, item: &str) -> (r: Result<String, ConfigError>)
    ensures
        match r {
            Ok(b) => body_of(style, item@) == Some(b@),
            Err(e) => body_of(style, item@) is None && e@ == (if style is Contract {
                ErrorModel::NotUnsafeBlock
            } else {
                ErrorModel::NotExpression
            }),
        },
{
    match style {
        Style::Contract => match unsafe_block(item) {
            Some(b) => Ok(b),
            None => Err(ConfigError::NotUnsafeBlock),
        },
        Style::Guard => if is_expression(item) {
            Ok(String::from_str(item))
        } else {
            Err(ConfigError::NotExpression)
        },
    }
}

/// Builds the replacement of a marked item under a validated configuration.
pub fn expand_config(config: &AnnotationConfig, item: &str) -> (r: Result<Expansion, ConfigError>)
    ensures
        expansion_result(r) == expansion_from(config@, item@),
{
    let body = match marked_body(config.style, item) {
        Ok(b) => b,
        Err(e) => {
            return Err(e);
        },
    };
    let pre_clause = match config.style {
        Style::Contract => Clause::Requires,
        Style::Guard => Clause::Precondition,
    };
    let pre = match compile_optional(pre_clause, &config.precondition, &config.reason) {
        Ok(c) => c,
        Err(e) => {
            return Err(e);
        },
    };
    let post = match compile_optional(Clause::Ensures, &config.postcondition, &config.reason) {
        Ok(c) => c,
        Err(e) => {
            return Err(e);
        },
    };
    let result_name = match &config.postcondition {
        Some(q) => fresh_name(q.as_str()),
        None => fresh_name(""),
    };
    proof {
        reveal_strlit("");
        assert(""@ =~= Seq::<char>::empty());
    }
    Ok(Expansion { style: config.style, pre, body, result_name, post })
}

/// Checks the options of a marked item and builds its replacement.
pub fn expand(opts: &Vec<RawOption>, item: &str) -> (r: Result<Expansion, ConfigError>)
    ensures
        expansion_result(r) == expansion_of(opts@, item@),
{
    match parse_config(opts) {
        Ok(c) => expand_config(&c, item),
        Err(e) => Err(e),
    }
}

/// The statement that a check becomes.
fn check_to_code(c: &Check) -> (r: String)
    ensures
        r@ == check_code(c@),
{
    let mut s = String::from_str("debug_assert!(");
    s.append(c.condition.as_str());
    s.append(", ");
    match c.clause {
        Clause::Ensures => s.append(ENSURED_FORMAT),
        _ => s.append(REQUIRED_FORMAT),
    }
    s.append(", ");
    let lit = string_literal(c.reason.as_str());
    s.append(lit.as_str());
    s.append("); ");
    s
}

fn append_check(s: &mut String, c: &Option<Check>)
    ensures
        final(s)@ == old(s)@ + opt_check_code(opt_check(*c)),
{
    match c {
        Some(c) => {
            let t = check_to_code(c);
            s.append(t.as_str());
        },
        None => {
            assert(old(s)@ + Seq::<char>::empty() =~= old(s)@);
        },
    }
}

impl Expansion {
    /// The source text of this expansion.
    pub fn to_code(&self) -> (r: String)
        ensures
            r@ == code(self@),
    {
        match self.style {
            Style::Contract => {
                let mut s = String::from_str("unsafe { ");
                append_check(&mut s, &self.pre);
                s.append("let ");
                s.append(self.result_name.as_str());
                s.append(" = ");
                s.append(self.body.as_str());
                s.append("; ");
                append_check(&mut s, &self.post);
                s.append(self.result_name.as_str());
                s.append(" }");
                s
            },
            Style::Guard => {
                let mut s = String::from_str("{ ");
                append_check(&mut s, &self.pre);
                s.append(self.body.as_str());
                s.append(" }");
                s
            },
        }
    }
}

/// Expands a marked item: checks its options and returns the source text of
/// its replacement.
pub fn safe(opts: &Vec<RawOption>, item: &str) -> (r: Result<String, ConfigError>)
    ensures
        match r {
            Ok(s) => expansion_of(opts@, item@) is Ok && s@ == code(
                expansion_of(opts@, item@)->Ok_0,
            ),
            Err(e) => expansion_of(opts@, item@) == Err::<ExpansionModel, ErrorModel>(e@),
        },
{
    match expand(opts, item) {
        Ok(e) => Ok(e.to_code()),
        Err(e) => Err(e),
    }
}

} // verus!
