use vstd::prelude::*;

verus! {

/// A condition option, named by its key.
#[derive(Clone, Copy, Debug, PartialEq, Eq, Structural)]
pub enum Clause {
    /// `requires`: checked before an `unsafe` block.
    Requires,
    /// `ensures`: checked after an `unsafe` block completes normally.
    Ensures,
    /// `precondition`: checked before an arbitrary expression.
    Precondition,
}

impl Clause {
    /// The option key that names this clause.
    pub open spec fn key(self) -> Seq<char> {
        match self {
            Clause::Requires => "requires"@,
            Clause::Ensures => "ensures"@,
            Clause::Precondition => "precondition"@,
        }
    }

    /// The option key that names this clause.
    pub fn key_name(self) -> (r: &'static str)
        ensures
            r@ == self.key(),
    {
        match self {
            Clause::Requires => "requires",
            Clause::Ensures => "ensures",
            Clause::Precondition => "precondition",
        }
    }

    /// Whether the condition is checked before the marked code runs.
    pub open spec fn is_before(self) -> bool {
        !(self is Ensures)
    }
}

/// How the marked code is wrapped.
#[derive(Clone, Copy, Debug, PartialEq, Eq, Structural)]
pub enum Style {
    /// `requires` / `ensures` around an `unsafe` block that stays `unsafe`.
    Contract,
    /// A single `precondition` in front of an arbitrary expression.
    Guard,
}

/// One entry of an attribute's option list, as written.
#[derive(Clone, Debug)]
pub enum RawOption {
    /// `key = "text"`, with the literal already decoded.
    Text(String, String),
    /// A named entry whose value is not a string literal
    /// (`key`, `key(..)`, `key = 3`).
    NotText(String),
    /// A literal with no name.
    Unnamed,
}

/// Why a marked block cannot be expanded.
#[derive(Clone, Debug)]
pub enum ConfigError {
    UnknownOption(String),
    DuplicateOption(String),
    NotText(String),
    Unnamed,
    MissingReason,
    EmptyReason,
    /// `precondition` given together with `requires` or `ensures`.
    MixedStyles,
    /// The text of this clause is not a Rust expression.
    MalformedCondition(Clause),
    /// Under `requires` / `ensures` the marked code is not an `unsafe` block.
    NotUnsafeBlock,
    /// Under `precondition` the marked code is not an expression.
    NotExpression,
}

/// The meaning of a [`ConfigError`].
pub enum ErrorModel {
    UnknownOption(Seq<char>),
    DuplicateOption(Seq<char>),
    NotText(Seq<char>),
    Unnamed,
    MissingReason,
    EmptyReason,
    MixedStyles,
    MalformedCondition(Clause),
    NotUnsafeBlock,
    NotExpression,
}

impl View for ConfigError {
    type V = ErrorModel;

    open spec fn view(&self) -> ErrorModel {
        match self {
            ConfigError::UnknownOption(k) => ErrorModel::UnknownOption(k@),
            ConfigError::DuplicateOption(k) => ErrorModel::DuplicateOption(k@),
            ConfigError::NotText(k) => ErrorModel::NotText(k@),
            ConfigError::Unnamed => ErrorModel::Unnamed,
            ConfigError::MissingReason => ErrorModel::MissingReason,
            ConfigError::EmptyReason => ErrorModel::EmptyReason,
            ConfigError::MixedStyles => ErrorModel::MixedStyles,
            ConfigError::MalformedCondition(c) => ErrorModel::MalformedCondition(*c),
            ConfigError::NotUnsafeBlock => ErrorModel::NotUnsafeBlock,
            ConfigError::NotExpression => ErrorModel::NotExpression,
        }
    }
}

/// The validated options of one marked block.
#[derive(Clone, Debug)]
pub struct AnnotationConfig {
    pub reason: String,
    pub style: Style,
    /// Checked before the marked code (`requires` or `precondition`).
    pub precondition: Option<String>,
    /// Checked after the marked code (`ensures`).
    pub postcondition: Option<String>,
}

/// The meaning of an [`AnnotationConfig`].
pub struct ConfigModel {
    pub reason: Seq<char>,
    pub style: Style,
    pub precondition: Option<Seq<char>>,
    pub postcondition: Option<Seq<char>>,
}

pub open spec fn opt_text(o: Option<String>) -> Option<Seq<char>> {
    match o {
        Some(s) => Some(s@),
        None => None,
    }
}

impl View for AnnotationConfig {
    type V = ConfigModel;

    open spec fn view(&self) -> ConfigModel {
        ConfigModel {
            reason: self.reason@,
            style: self.style,
            precondition: opt_text(self.precondition),
            postcondition: opt_text(self.postcondition),
        }
    }
}

pub open spec fn known_key(k: Seq<char>) -> bool {
    k == "reason"@ || k == Clause::Requires.key() || k == Clause::Ensures.key()
        || k == Clause::Precondition.key()
}

/// The key of an entry, if it has one.
pub open spec fn key_of(o: RawOption) -> Option<Seq<char>> {
    match o {
        RawOption::Text(k, _) => Some(k@),
        RawOption::NotText(k) => Some(k@),
        RawOption::Unnamed => None,
    }
}

/// Some entry before position `i` has key `k`.
pub open spec fn seen_before(opts: Seq<RawOption>, i: int, k: Seq<char>) -> bool {
    exists|j: int| 0 <= j < i && #[trigger] key_of(opts[j]) == Some(k)
}

/// What is wrong with entry `i` on its own or against the entries before it.
pub open spec fn entry_problem(opts: Seq<RawOption>, i: int) -> Option<ErrorModel> {
    match opts[i] {
        RawOption::Unnamed => Some(ErrorModel::Unnamed),
        RawOption::NotText(k) => if !known_key(k@) {
            Some(ErrorModel::UnknownOption(k@))
        } else if seen_before(opts, i, k@) {
            Some(ErrorModel::DuplicateOption(k@))
        } else {
            Some(ErrorModel::NotText(k@))
        },
        RawOption::Text(k, _) => if !known_key(k@) {
            Some(ErrorModel::UnknownOption(k@))
        } else if seen_before(opts, i, k@) {
            Some(ErrorModel::DuplicateOption(k@))
        } else {
            None
        },
    }
}

/// The problem of the first faulty entry among the first `n`.
pub open spec fn first_problem(opts: Seq<RawOption>, n: int) -> Option<ErrorModel>
    decreases n,
{
    if n <= 0 {
        None
    } else {
        match first_problem(opts, n - 1) {
            Some(e) => Some(e),
            None => entry_problem(opts, n - 1),
        }
    }
}

/// The text given to key `k` by the last such entry among the first `n`.
pub open spec fn value_in(opts: Seq<RawOption>, k: Seq<char>, n: int) -> Option<Seq<char>>
    decreases n,
{
    if n <= 0 {
        None
    } else {
        match opts[n - 1] {
            RawOption::Text(k2, v) if k2@ == k => Some(v@),
            _ => value_in(opts, k, n - 1),
        }
    }
}

/// The text given to key `k`.
pub open spec fn value_of(opts: Seq<RawOption>, k: Seq<char>) -> Option<Seq<char>> {
    value_in(opts, k, opts.len() as int)
}

/// Why the options are refused, if they are.
pub open spec fn config_problem(opts: Seq<RawOption>) -> Option<ErrorModel> {
    match first_problem(opts, opts.len() as int) {
        Some(e) => Some(e),
        None => if value_of(opts, "reason"@) is None {
            Some(ErrorModel::MissingReason)
        } else if value_of(opts, "reason"@)->0.len() == 0 {
            Some(ErrorModel::EmptyReason)
        } else if value_of(opts, Clause::Precondition.key()) is Some && (value_of(
            opts,
            Clause::Requires.key(),
        ) is Some || value_of(opts, Clause::Ensures.key()) is Some) {
            Some(ErrorModel::MixedStyles)
        } else {
            None
        },
    }
}

/// The configuration that accepted options describe.
pub open spec fn config_of(opts: Seq<RawOption>) -> ConfigModel {
    if value_of(opts, Clause::Precondition.key()) is Some {
        ConfigModel {
            reason: value_of(opts, "reason"@)->0,
            style: Style::Guard,
            precondition: value_of(opts, Clause::Precondition.key()),
            postcondition: None,
        }
    } else {
        ConfigModel {
            reason: value_of(opts, "reason"@)->0,
            style: Style::Contract,
            precondition: value_of(opts, Clause::Requires.key()),
            postcondition: value_of(opts, Clause::Ensures.key()),
        }
    }
}

/// The four option keys differ from one another.
pub(crate) proof fn lemma_keys_distinct()
    ensures
        "reason"@.len() == 6,
        Clause::Requires.key().len() == 8,
        Clause::Ensures.key().len() == 7,
        Clause::Precondition.key().len() == 12,
{
    reveal_strlit("reason");
    reveal_strlit("requires");
    reveal_strlit("ensures");
    reveal_strlit("precondition");
}

/// Once an entry is faulty, the first problem stays the same.
proof fn lemma_first_problem_stays(opts: Seq<RawOption>, i: int, n: int)
    requires
        0 <= i <= n,
        first_problem(opts, i) is Some,
    ensures
        first_problem(opts, n) == first_problem(opts, i),
    decreases n - i,
{
    if n > i {
        lemma_first_problem_stays(opts, i, n - 1);
    }
}

fn is_key(k: &String, name: &str) -> (r: bool)
    ensures
        r == (k@ == name@),
{
    let n = String::from_str(name);
    *k == n
}

fn key_known(k: &String) -> (r: bool)
    ensures
        r == known_key(k@),
{
    is_key(k, "reason") || is_key(k, "requires") || is_key(k, "ensures") || is_key(
        k,
        "precondition",
    )
}

/// Whether an entry before position `i` has key `k`.
fn key_seen_before(opts: &Vec<RawOption>, i: usize, k: &String) -> (r: bool)
    requires
        i <= opts@.len(),
    ensures
        r == seen_before(opts@, i as int, k@),
{
    let mut j: usize = 0;
    while j < i
        invariant
            i <= opts@.len(),
            j <= i,
            forall|m: int| 0 <= m < j ==> #[trigger] key_of(opts@[m]) != Some(k@),
        decreases i - j,
    {
        let same = match &opts[j] {
            RawOption::Text(k2, _) => *k2 == *k,
            RawOption::NotText(k2) => *k2 == *k,
            RawOption::Unnamed => false,
        };
        if same {
            assert(key_of(opts@[j as int]) == Some(k@));
            return true;
        }
        j = j + 1;
    }
    false
}

/// Stores `v` in the slot that key `k` names.
fn store(
    k: &String,
    v: &String,
    reason: &mut Option<String>,
    required: &mut Option<String>,
    ensured: &mut Option<String>,
    precondition: &mut Option<String>,
)
    requires
        known_key(k@),
    ensures
        opt_text(*final(reason)) == if k@ == "reason"@ {
            Some(v@)
        } else {
            opt_text(*old(reason))
        },
        opt_text(*final(required)) == if k@ == Clause::Requires.key() {
            Some(v@)
        } else {
            opt_text(*old(required))
        },
        opt_text(*final(ensured)) == if k@ == Clause::Ensures.key() {
            Some(v@)
        } else {
            opt_text(*old(ensured))
        },
        opt_text(*final(precondition)) == if k@ == Clause::Precondition.key() {
            Some(v@)
        } else {
            opt_text(*old(precondition))
        },
{
    proof {
        lemma_keys_distinct();
    }
    if is_key(k, "reason") {
        *reason = Some(v.clone());
    } else if is_key(k, "requires") {
        *required = Some(v.clone());
    } else if is_key(k, "ensures") {
        *ensured = Some(v.clone());
    } else {
        *precondition = Some(v.clone());
    }
}

/// Whether entry `i` is faulty on its own or against the entries before it.
fn entry_is_faulty(opts: &Vec<RawOption>, i: usize) -> (r: bool)
    requires
        i < opts@.len(),
    ensures
        r == entry_problem(opts@, i as int) is Some,
{
    match &opts[i] {
        RawOption::Unnamed => true,
        RawOption::NotText(_) => true,
        RawOption::Text(k, _) => !key_known(k) || key_seen_before(opts, i, k),
    }
}

/// The position of the first faulty entry, the one whose problem
/// [`parse_config`] reports; `None` where every entry is fine.
pub fn first_faulty_entry(opts: &Vec<RawOption>) -> (r: Option<usize>)
    ensures
        match r {
            Some(i) => i < opts@.len() && first_problem(opts@, i as int) is None
                && entry_problem(opts@, i as int) is Some,
            None => first_problem(opts@, opts@.len() as int) is None,
        },
{
    let mut i: usize = 0;
    while i < opts.len()
        invariant
            i <= opts@.len(),
            first_problem(opts@, i as int) is None,
        decreases opts@.len() - i,
    {
        if entry_is_faulty(opts, i) {
            return Some(i);
        }
        i = i + 1;
    }
    None
}

/// Checks a marked block's option list and builds its configuration.
///
/// The entries are read in order; the first faulty one (no name, an unknown
/// key, a key given twice, a value that is not a string literal) is reported.
/// Then `reason` must be present and non-empty, and `precondition` must not
/// be mixed with `requires` or `ensures`.
pub fn parse_config(opts: &Vec<RawOption>) -> (r: Result<AnnotationConfig, ConfigError>)
    ensures
        match r {
            Ok(c) => config_problem(opts@) is None && c@ == config_of(opts@),
            Err(e) => config_problem(opts@) == Some(e@),
        },
{
    let mut reason: Option<String> = None;
    let mut required: Option<String> = None;
    let mut ensured: Option<String> = None;
    let mut precondition: Option<String> = None;
    let mut i: usize = 0;
    while i < opts.len()
        invariant
            i <= opts@.len(),
            first_problem(opts@, i as int) is None,
            opt_text(reason) == value_in(opts@, "reason"@, i as int),
            opt_text(required) == value_in(opts@, Clause::Requires.key(), i as int),
            opt_text(ensured) == value_in(opts@, Clause::Ensures.key(), i as int),
            opt_text(precondition) == value_in(opts@, Clause::Precondition.key(), i as int),
        decreases opts@.len() - i,
    {
        proof {
            if entry_problem(opts@, i as int) is Some {
                lemma_first_problem_stays(opts@, i + 1, opts@.len() as int);
            }
        }
        match &opts[i] {
            RawOption::Unnamed => {
                return Err(ConfigError::Unnamed);
            },
            RawOption::NotText(k) => {
                if !key_known(k) {
                    return Err(ConfigError::UnknownOption(k.clone()));
                }
                if key_seen_before(opts, i, k) {
                    return Err(ConfigError::DuplicateOption(k.clone()));
                }
                return Err(ConfigError::NotText(k.clone()));
            },
            RawOption::Text(k, v) => {
                if !key_known(k) {
                    return Err(ConfigError::UnknownOption(k.clone()));
                }
                if key_seen_before(opts, i, k) {
                    return Err(ConfigError::DuplicateOption(k.clone()));
                }
                store(k, v, &mut reason, &mut required, &mut ensured, &mut precondition);
            },
        }
        i = i + 1;
    }
    let reason = match reason {
        None => {
            return Err(ConfigError::MissingReason);
        },
        Some(s) => s,
    };
    if reason.as_str().unicode_len() == 0 {
        return Err(ConfigError::EmptyReason);
    }
    match precondition {
        Some(p) => {
            if required.is_some() || ensured.is_some() {
                return Err(ConfigError::MixedStyles);
            }
            Ok(
                AnnotationConfig {
                    reason,
                    style: Style::Guard,
                    precondition: Some(p),
                    postcondition: None,
                },
            )
        },
        None => Ok(
            AnnotationConfig {
                reason,
                style: Style::Contract,
                precondition: required,
                postcondition: ensured,
            },
        ),
    }
}

} // verus!
