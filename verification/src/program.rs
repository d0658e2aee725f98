//! The typed program that the analysis reads.
//!
//! A front end parses, resolves names and infers types; what is left for
//! the analysis is written down here as plain data. Every answer that the
//! analysis needs from the front end (what a path names, what a method
//! call resolves to, the source text of a conditional, whether a node was
//! written by a macro) is a field of the node it belongs to.

use vstd::prelude::*;
use vstd::string::StringExecFns;
use crate::ids::{CallableId, SourceLocation};

verus! {

/// A callable as a call site names it: its identity and its qualified path.
#[derive(Debug)]
pub struct Callee {
    pub id: CallableId,
    pub path: String,
}

/// Items that the language itself gives a meaning to.
#[derive(Clone, Copy, Debug, PartialEq, Eq, Structural)]
pub enum LangItem {
    /// The iterator protocol's `next`, which drives every `for` loop.
    IteratorNext,
    Other,
}

/// What stands in callee position of a call without a receiver.
#[derive(Debug)]
pub enum DirectCallee {
    /// A path that name resolution settled. `target` is the definition it
    /// names; a path to a local variable names none.
    Resolved { target: Option<Callee> },
    /// A path through a type, `Owner::member`. `owner_path` is the path of
    /// the owning type where that type is itself a resolved path, and
    /// `member_id` the member that type checking found.
    TypeRelative { owner_path: Option<String>, member: String, member_id: Option<CallableId> },
    /// A path that the compiler wrote to reach a language item.
    Lang { item: LangItem },
}

/// What kind of definition an instance resolves to.
#[derive(Clone, Copy, Debug, PartialEq, Eq, Structural)]
pub enum Definition {
    /// A method declared in an interface of the analysed program. Where
    /// the receiver's concrete type is known, this is the default body of
    /// the method, which that type did not override.
    InterfaceMethod,
    /// A method of an implementation block of the analysed program.
    ImplMethod,
    /// A free item of the analysed program.
    FreeItem,
    /// A foreign item declared in the analysed program.
    ForeignItem,
    /// A definition outside the analysed program.
    External,
    /// Any other kind of node: none that a method can resolve to.
    Unrecognized,
}

/// The outcome of resolving a named method against the receiver's type.
#[derive(Debug)]
pub enum Resolution {
    /// No instance could be determined.
    Unresolved,
    /// The call resolves to `target`, which is defined as `definition`
    /// says. `receiver_known` says whether the concrete type of the
    /// receiver is known at the call site; it is not where the receiver is
    /// a reference to some implementor of an interface.
    Instance { target: Callee, definition: Definition, receiver_known: bool },
}

/// What the front end knows of the target of a method call.
#[derive(Debug)]
pub enum MethodTarget {
    /// Type checking names the method; `resolution` is what resolving it
    /// against the receiver's inferred type and the call's type arguments
    /// gave.
    Named { method: Callee, resolution: Resolution },
    /// Type checking names no method. `segment` is what the method name
    /// resolves to by itself, if anything.
    Unnamed { segment: Option<Callee> },
}

#[derive(Clone, Copy, Debug, PartialEq, Eq, Structural)]
pub enum BinaryOp {
    /// Short-circuit conjunction.
    And,
    /// Short-circuit disjunction.
    Or,
    /// Any other binary operator.
    Other,
}

/// Where a `match` comes from.
#[derive(Clone, Copy, Debug, PartialEq, Eq, Structural)]
pub enum MatchOrigin {
    /// Written in the source, or lowered from a construct that branches.
    Source,
    /// Lowered from error propagation.
    TryDesugar,
    /// Lowered from a suspension point.
    AwaitDesugar,
    /// Lowered from formatting arguments.
    FormatArgs,
    /// Lowered from a `for` loop: the match that takes the iterator, and
    /// the match that steps it.
    ForLoopDesugar,
}

/// An expression.
#[derive(Debug)]
pub struct Expr {
    pub location: SourceLocation,
    /// Whether the node was written by a macro or other code generation.
    pub generated: bool,
    pub kind: ExprKind,
}

#[derive(Debug)]
pub enum ExprKind {
    /// `if cond { then_branch } else { else_branch }`. `text` is the source
    /// text of the whole conditional, where it can be had.
    If { cond: Box<Expr>, then_branch: Box<Expr>, else_branch: Option<Box<Expr>>, text: Option<String> },
    Binary { op: BinaryOp, lhs: Box<Expr>, rhs: Box<Expr> },
    /// A pattern match. `arms` holds the guards and bodies of the arms in
    /// source order.
    Match { scrutinee: Box<Expr>, arms: Vec<Expr>, origin: MatchOrigin },
    Loop { body: Box<Expr> },
    /// A call whose callee is a path.
    Call { callee: DirectCallee, args: Vec<Expr> },
    /// `receiver.method(args)`.
    MethodCall { target: MethodTarget, receiver: Box<Expr>, args: Vec<Expr> },
    /// Any other expression, with its direct subexpressions in source
    /// order. Blocks, closures and calls through a computed callee are
    /// of this kind.
    Other { children: Vec<Expr> },
}

/// A top-level item.
#[derive(Debug)]
pub struct Item {
    pub id: CallableId,
    pub location: SourceLocation,
    pub generated: bool,
    /// Whether the item is a function definition.
    pub is_fn: bool,
    /// The body of the function, or the initialiser of another item.
    pub body: Option<Expr>,
}

#[derive(Clone, Copy, Debug, PartialEq, Eq, Structural)]
pub enum TraitItemKind {
    /// A method signature without a body.
    Required,
    /// A method with a default body.
    Provided,
    /// An associated constant or type.
    Other,
}

/// A member of an interface definition.
#[derive(Debug)]
pub struct TraitItem {
    pub id: CallableId,
    pub location: SourceLocation,
    pub generated: bool,
    pub kind: TraitItemKind,
    pub body: Option<Expr>,
}

/// A member of an implementation block.
#[derive(Debug)]
pub struct ImplItem {
    pub id: CallableId,
    pub location: SourceLocation,
    pub generated: bool,
    /// Whether the member is a method.
    pub is_fn: bool,
    /// The interface method of the same name that the member implements,
    /// where its block implements an interface.
    pub declaration: Option<CallableId>,
    pub body: Option<Expr>,
}

/// Anything the traversal stops at on its way through a program.
#[derive(Debug)]
pub enum ItemLike {
    Item(Item),
    TraitItem(TraitItem),
    ImplItem(ImplItem),
}

/// A compilation unit.
#[derive(Debug)]
pub struct Program {
    pub items: Vec<ItemLike>,
}

/// Whether a node with this provenance counts as generated code, which
/// the traversal skips: it has no place in the source, or it comes from
/// an expansion that is not the compiler's own lowering of a construct
/// that the source holds.
pub open spec fn generated_code(from_expansion: bool, dummy: bool, desugared: bool) -> bool {
    dummy || (from_expansion && !desugared)
}

/// Decides from the provenance of a node whether it is generated code.
/// `from_expansion` says whether the node comes from any expansion,
/// `dummy` whether it has no place in the source, and `desugared` whether
/// the expansion is the compiler's lowering of a source construct.
pub fn is_generated(from_expansion: bool, dummy: bool, desugared: bool) -> (r: bool)
    ensures
        r == generated_code(from_expansion, dummy, desugared),
{
    dummy || (from_expansion && !desugared)
}

impl Callee {
    /// The callable `id`, displayed as `path`.
    pub fn new(id: CallableId, path: &str) -> (c: Callee)
        ensures
            c.id == id,
            c.path@ == path@,
    {
        Callee { id, path: String::from_str(path) }
    }
}

impl DirectCallee {
    /// A path that names the definition `id`, displayed as `path`.
    pub fn resolved(id: CallableId, path: &str) -> (c: DirectCallee)
        ensures
            c matches DirectCallee::Resolved { target: Some(t) } && t.id == id && t.path@ == path@,
    {
        DirectCallee::Resolved { target: Some(Callee::new(id, path)) }
    }

    /// The member `member` of the type displayed as `owner`, found by
    /// type checking to be `id`.
    pub fn type_relative(owner: &str, member: &str, id: CallableId) -> (c: DirectCallee)
        ensures
            c matches DirectCallee::TypeRelative { owner_path: Some(o), member: m, member_id: Some(i) }
                && o@ == owner@ && m@ == member@ && i == id,
    {
        DirectCallee::TypeRelative {
            owner_path: Some(String::from_str(owner)),
            member: String::from_str(member),
            member_id: Some(id),
        }
    }
}

impl MethodTarget {
    /// A method that type checking names `method` and that resolves to
    /// `target`, defined as `definition` says, on a receiver whose
    /// concrete type is known or not as `receiver_known` says.
    pub fn instance(method: Callee, target: Callee, definition: Definition, receiver_known: bool) -> (t:
        MethodTarget)
        ensures
            t == (MethodTarget::Named {
                method,
                resolution: Resolution::Instance { target, definition, receiver_known },
            }),
    {
        MethodTarget::Named { method, resolution: Resolution::Instance { target, definition, receiver_known } }
    }

    /// A method that type checking names `method` and that resolves to no
    /// instance.
    pub fn unresolved(method: Callee) -> (t: MethodTarget)
        ensures
            t == (MethodTarget::Named { method, resolution: Resolution::Unresolved }),
    {
        MethodTarget::Named { method, resolution: Resolution::Unresolved }
    }
}

impl Expr {
    /// An expression of kind `kind`, written in the source at `location`.
    pub fn new(kind: ExprKind, location: SourceLocation) -> (e: Expr)
        ensures
            e == (Expr { location, generated: false, kind }),
    {
        Expr { location, generated: false, kind }
    }

    /// The same expression, marked as written by a macro.
    pub fn into_generated(self) -> (e: Expr)
        ensures
            e == (Expr { generated: true, ..self }),
    {
        Expr { location: self.location, generated: true, kind: self.kind }
    }

    /// An expression without subexpressions that is no call.
    pub fn leaf() -> (e: Expr)
        ensures
            !e.generated,
            e.location == SourceLocation::unknown(),
            e.kind matches ExprKind::Other { children } && children@.len() == 0,
    {
        Expr::new(ExprKind::Other { children: Vec::new() }, SourceLocation::unknown())
    }

    /// A block, or any other expression that only holds `children`.
    pub fn block(children: Vec<Expr>) -> (e: Expr)
        ensures
            e == (Expr {
                location: SourceLocation::unknown(),
                generated: false,
                kind: ExprKind::Other { children },
            }),
    {
        Expr::new(ExprKind::Other { children }, SourceLocation::unknown())
    }

    /// `if cond { then_branch }`, with `else_branch` where there is one.
    pub fn conditional(cond: Expr, then_branch: Expr, else_branch: Option<Expr>, text: Option<String>) -> (e: Expr)
        ensures
            !e.generated,
            e.location == SourceLocation::unknown(),
            e.kind matches ExprKind::If { cond: c, then_branch: t, else_branch: b, text: x } && *c == cond
                && *t == then_branch && x == text && match else_branch {
                Some(other) => b matches Some(boxed) && *boxed == other,
                None => b is None,
            },
    {
        let else_branch = match else_branch {
            Some(b) => Some(Box::new(b)),
            None => None,
        };
        Expr::new(
            ExprKind::If { cond: Box::new(cond), then_branch: Box::new(then_branch), else_branch, text },
            SourceLocation::unknown(),
        )
    }

    /// `lhs op rhs`.
    pub fn binary(op: BinaryOp, lhs: Expr, rhs: Expr) -> (e: Expr)
        ensures
            e == (Expr {
                location: SourceLocation::unknown(),
                generated: false,
                kind: ExprKind::Binary { op, lhs: Box::new(lhs), rhs: Box::new(rhs) },
            }),
    {
        Expr::new(
            ExprKind::Binary { op, lhs: Box::new(lhs), rhs: Box::new(rhs) },
            SourceLocation::unknown(),
        )
    }

    /// A match on `scrutinee`.
    pub fn matching(scrutinee: Expr, arms: Vec<Expr>, origin: MatchOrigin) -> (e: Expr)
        ensures
            e == (Expr {
                location: SourceLocation::unknown(),
                generated: false,
                kind: ExprKind::Match { scrutinee: Box::new(scrutinee), arms, origin },
            }),
    {
        Expr::new(
            ExprKind::Match { scrutinee: Box::new(scrutinee), arms, origin },
            SourceLocation::unknown(),
        )
    }

    /// A loop around `body`.
    pub fn looping(body: Expr) -> (e: Expr)
        ensures
            e == (Expr {
                location: SourceLocation::unknown(),
                generated: false,
                kind: ExprKind::Loop { body: Box::new(body) },
            }),
    {
        Expr::new(ExprKind::Loop { body: Box::new(body) }, SourceLocation::unknown())
    }

    /// A call of `callee` with `args`.
    pub fn call(callee: DirectCallee, args: Vec<Expr>) -> (e: Expr)
        ensures
            e == (Expr {
                location: SourceLocation::unknown(),
                generated: false,
                kind: ExprKind::Call { callee, args },
            }),
    {
        Expr::new(ExprKind::Call { callee, args }, SourceLocation::unknown())
    }

    /// `receiver.method(args)`, where `target` is what is known of the
    /// method.
    pub fn method_call(target: MethodTarget, receiver: Expr, args: Vec<Expr>) -> (e: Expr)
        ensures
            e == (Expr {
                location: SourceLocation::unknown(),
                generated: false,
                kind: ExprKind::MethodCall { target, receiver: Box::new(receiver), args },
            }),
    {
        Expr::new(
            ExprKind::MethodCall { target, receiver: Box::new(receiver), args },
            SourceLocation::unknown(),
        )
    }
}

impl Item {
    /// A function definition with the given body.
    pub fn function(id: CallableId, body: Expr) -> (i: Item)
        ensures
            i == (Item {
                id,
                location: SourceLocation::unknown(),
                generated: false,
                is_fn: true,
                body: Some(body),
            }),
    {
        Item { id, location: SourceLocation::unknown(), generated: false, is_fn: true, body: Some(body) }
    }
}

impl TraitItem {
    /// A method signature without a body.
    pub fn required(id: CallableId) -> (i: TraitItem)
        ensures
            i == (TraitItem {
                id,
                location: SourceLocation::unknown(),
                generated: false,
                kind: TraitItemKind::Required,
                body: None,
            }),
    {
        TraitItem {
            id,
            location: SourceLocation::unknown(),
            generated: false,
            kind: TraitItemKind::Required,
            body: None,
        }
    }

    /// A method with the given default body.
    pub fn provided(id: CallableId, body: Expr) -> (i: TraitItem)
        ensures
            i == (TraitItem {
                id,
                location: SourceLocation::unknown(),
                generated: false,
                kind: TraitItemKind::Provided,
                body: Some(body),
            }),
    {
        TraitItem {
            id,
            location: SourceLocation::unknown(),
            generated: false,
            kind: TraitItemKind::Provided,
            body: Some(body),
        }
    }
}

impl ImplItem {
    /// A method of an implementation block. `declaration` is the
    /// interface method it satisfies, if any.
    pub fn method(id: CallableId, declaration: Option<CallableId>, body: Expr) -> (i: ImplItem)
        ensures
            i == (ImplItem {
                id,
                location: SourceLocation::unknown(),
                generated: false,
                is_fn: true,
                declaration,
                body: Some(body),
            }),
    {
        ImplItem {
            id,
            location: SourceLocation::unknown(),
            generated: false,
            is_fn: true,
            declaration,
            body: Some(body),
        }
    }
}

} // verus!
