//! The decisions of three procedural macros: which operators assign, which
//! properties the `tea` attribute takes, and which `lazy_static!`
//! declarations draw a diagnostic. The macros read these from the syntax
//! tree and hand them over as plain values.

use vstd::prelude::*;
use crate::text::same_text;

verus! {

/// A binary operator of a Rust expression.
#[derive(Debug, Clone, Copy, PartialEq, Eq, Structural)]
pub enum BinOp {
    Add,
    Sub,
    Mul,
    Div,
    Rem,
    And,
    Or,
    BitXor,
    BitAnd,
    BitOr,
    Shl,
    Shr,
    Eq,
    Lt,
    Le,
    Ne,
    Ge,
    Gt,
    AddAssign,
    SubAssign,
    MulAssign,
    DivAssign,
    RemAssign,
    BitXorAssign,
    BitAndAssign,
    BitOrAssign,
    ShlAssign,
    ShrAssign,
}

/// Whether an operator is a compound assignment such as `+=`.
pub open spec fn is_assign_op_spec(op: BinOp) -> bool {
    match op {
        BinOp::AddAssign | BinOp::SubAssign | BinOp::MulAssign | BinOp::DivAssign
        | BinOp::RemAssign | BinOp::BitXorAssign | BinOp::BitAndAssign | BinOp::BitOrAssign
        | BinOp::ShlAssign | BinOp::ShrAssign => true,
        _ => false,
    }
}

/// Whether an operator is a compound assignment such as `+=`.
pub fn is_assign_op(op: BinOp) -> (r: bool)
    ensures
        r == is_assign_op_spec(op),
{
    match op {
        BinOp::AddAssign | BinOp::SubAssign | BinOp::MulAssign | BinOp::DivAssign
        | BinOp::RemAssign | BinOp::BitXorAssign | BinOp::BitAndAssign | BinOp::BitOrAssign
        | BinOp::ShlAssign | BinOp::ShrAssign => true,
        _ => false,
    }
}

/// Law: an operator counts as assigning exactly when it is one of the ten
/// compound assignments `+=`, `-=`, `*=`, `/=`, `%=`, `^=`, `&=`, `|=`,
/// `<<=` and `>>=`; the plain operators and comparisons never do.
pub proof fn lemma_assign_ops_are_the_compound_ones(op: BinOp)
    ensures
        is_assign_op_spec(op) <==> {
            ||| op is AddAssign
            ||| op is SubAssign
            ||| op is MulAssign
            ||| op is DivAssign
            ||| op is RemAssign
            ||| op is BitXorAssign
            ||| op is BitAndAssign
            ||| op is BitOrAssign
            ||| op is ShlAssign
            ||| op is ShrAssign
        },
{
}

/// Whether `vars` holds the name `name`.
pub open spec fn names_contain(vars: Seq<String>, name: Seq<char>) -> bool {
    exists|i: int| 0 <= i < vars.len() && #[trigger] vars[i]@ == name
}

fn contains_name(vars: &[String], name: &str) -> (r: bool)
    ensures
        r == names_contain(vars@, name@),
{
    let mut i: usize = 0;
    while i < vars.len()
        invariant
            i <= vars@.len(),
            forall|j: int| 0 <= j < i ==> vars@[j]@ != name@,
        decreases vars@.len() - i,
    {
        if same_text(vars[i].as_str(), name) {
            return true;
        }
        i = i + 1;
    }
    false
}

/// One segment of a path: its name, and whether generic arguments follow.
#[derive(Debug)]
pub struct PathSegment {
    pub ident: String,
    pub has_arguments: bool,
}

/// An expression, as far as the tracer looks into it: a path, or anything
/// else.
#[derive(Debug)]
pub enum TracedExpr {
    Path { leading_colon: bool, segments: Vec<PathSegment> },
    Other,
}

/// Whether the tracer prints an expression: a plain name, with no leading
/// `::`, no further segment and no generic arguments, that is one of the
/// traced variables.
pub fn should_print_expr(vars: &[String], e: &TracedExpr) -> (r: bool)
    ensures
        r == match e {
            TracedExpr::Path { leading_colon, segments } => !*leading_colon && segments@.len() == 1
                && names_contain(vars@, segments@[0].ident@) && !segments@[0].has_arguments,
            TracedExpr::Other => false,
        },
{
    match e {
        TracedExpr::Path { leading_colon, segments } => {
            if *leading_colon {
                false
            } else if segments.len() != 1 {
                false
            } else {
                let first = &segments[0];
                contains_name(vars, first.ident.as_str()) && !first.has_arguments
            }
        },
        TracedExpr::Other => false,
    }
}

/// Whether the tracer prints a binding: one that binds a single name, when
/// the name is one of the traced variables.
pub fn should_print_pat(vars: &[String], ident: Option<&str>) -> (r: bool)
    ensures
        r == match ident {
            Some(name) => names_contain(vars@, name@),
            None => false,
        },
{
    match ident {
        Some(name) => contains_name(vars, name),
        None => false,
    }
}

/// One property inside `#[tea(...)]`: its path, the string after `=` or
/// the message of the parser that failed to read one, and the paths inside
/// its parentheses.
#[derive(Debug)]
pub struct TeaMeta {
    pub path: String,
    pub value: Result<String, String>,
    pub nested: Vec<String>,
}

/// What `#[tea(...)]` was given.
#[derive(Debug)]
pub struct TeaAttributes {
    pub kind: Option<String>,
    pub hot: bool,
    pub with: Vec<String>,
}

/// Why a property of `#[tea(...)]` was refused.
#[derive(Debug, PartialEq, Eq)]
pub enum TeaError {
    /// `kind` was not followed by `=` and a string; the parser's message.
    KindValue(String),
    /// The property is none of `kind`, `hot` and `with`.
    Unsupported,
}

impl TeaError {
    /// The message of the error.
    pub fn message(&self) -> (r: String)
        ensures
            r@ == match self {
                TeaError::KindValue(m) => m@,
                TeaError::Unsupported => "unsupportted tea property"@,
            },
    {
        match self {
            TeaError::KindValue(m) => m.clone(),
            TeaError::Unsupported => String::from_str("unsupportted tea property"),
        }
    }
}

impl TeaAttributes {
    /// No property given yet.
    pub fn new() -> (r: Self)
        ensures
            r.kind is None,
            !r.hot,
            r.with@.len() == 0,
    {
        TeaAttributes { kind: None, hot: false, with: Vec::new() }
    }

    /// Takes in one property: `kind = "..."` sets the kind, `hot` sets the
    /// flag, `with(...)` adds its paths; any other is refused.
    pub fn parse(&mut self, meta: TeaMeta) -> (r: Result<(), TeaError>)
        ensures
            meta.path@ == "kind"@ ==> match meta.value {
                Ok(v) => r is Ok && final(self).kind == Some(v) && final(self).hot == old(self).hot
                    && final(self).with == old(self).with,
                Err(m) => r matches Err(TeaError::KindValue(e)) && e == m && *final(self)
                    == *old(self),
            },
            meta.path@ == "hot"@ ==> r is Ok && final(self).hot && final(self).kind == old(self).kind
                && final(self).with == old(self).with,
            meta.path@ == "with"@ ==> r is Ok && final(self).with@ == old(self).with@ + meta.nested@
                && final(self).kind == old(self).kind && final(self).hot == old(self).hot,
            meta.path@ != "kind"@ && meta.path@ != "hot"@ && meta.path@ != "with"@ ==> (r matches Err(
                TeaError::Unsupported,
            ) && *final(self) == *old(self)),
    {
        proof {
            reveal_strlit("kind");
            reveal_strlit("hot");
            reveal_strlit("with");
            assert("kind"@.len() == 4 && "kind"@[0] == 'k');
            assert("hot"@.len() == 3);
            assert("with"@.len() == 4 && "with"@[0] == 'w');
        }
        if same_text(meta.path.as_str(), "kind") {
            match meta.value {
                Ok(v) => {
                    self.kind = Some(v);
                    Ok(())
                },
                Err(m) => Err(TeaError::KindValue(m)),
            }
        } else if same_text(meta.path.as_str(), "hot") {
            self.hot = true;
            Ok(())
        } else if same_text(meta.path.as_str(), "with") {
            let mut nested = meta.nested;
            self.with.append(&mut nested);
            Ok(())
        } else {
            Err(TeaError::Unsupported)
        }
    }
}

/// What `lazy_static!` says of a declaration.
#[derive(Debug, Clone, Copy, PartialEq, Eq, Structural)]
pub struct LazyStaticCheck {
    /// Warn that the name `FOO` is dull.
    pub warn_name: bool,
    /// Refuse to lazily initialise the unit value `()`, and expand to
    /// nothing.
    pub reject_unit: bool,
}

/// The diagnostics of a `lazy_static!` declaration named `name`, whose
/// initialiser is an empty tuple when `init_is_unit` holds.
pub fn check_lazy_static(name: &str, init_is_unit: bool) -> (r: LazyStaticCheck)
    ensures
        r.warn_name == (name@ == "FOO"@),
        r.reject_unit == init_is_unit,
{
    LazyStaticCheck { warn_name: same_text(name, "FOO"), reject_unit: init_is_unit }
}

impl LazyStaticCheck {
    /// The warning given for the name.
    pub fn name_warning(&self) -> (r: &'static str)
        ensures
            r@ == "come on, pick a more creative name"@,
    {
        "come on, pick a more creative name"
    }

    /// The error given for a unit initialiser.
    pub fn unit_error(&self) -> (r: &'static str)
        ensures
            r@ == "I can't think of a legitimate use fof lazily initializing the value`()`"@,
    {
        "I can't think of a legitimate use fof lazily initializing the value`()`"
    }
}

} // verus!
