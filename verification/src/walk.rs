//! What the analyser keeps while it walks a file, and how each step changes it: the function
//! under construction and its kind, the variables that hold collected query results, the depth
//! of loops and of nested validators, and where a finished function goes (exported at once, or
//! pending until an `export { .. }` names it).
use vstd::prelude::*;

use crate::analysis::{FunctionBuilder, PendingFunctions};
use crate::rules::{kind_is_query, ConvexFunction, FunctionKind};
use crate::syntax::Expr;
use crate::text::{lemma_string_views_push, owned, push_str, str_eq, string_views, contains_string};

verus! {

/// `n + 1`, held at `u32::MAX`.
pub open spec fn bumped(n: u32) -> u32 {
    if n < u32::MAX {
        (n + 1) as u32
    } else {
        n
    }
}

/// `n - 1`, held at 0.
pub open spec fn lowered(n: u32) -> u32 {
    if n > 0 {
        (n - 1) as u32
    } else {
        0
    }
}

/// The state of a walk over one file.
pub struct WalkState {
    kind: Option<FunctionKind>,
    builders: Vec<FunctionBuilder>,
    collected: Vec<String>,
    loops: u32,
    validators: u32,
    deepest: u32,
}

impl WalkState {
    /// The kind of the function the walk is inside, if any.
    pub closed spec fn kind(&self) -> Option<FunctionKind> {
        self.kind
    }

    /// The functions under construction, innermost last.
    pub closed spec fn builders(&self) -> Seq<FunctionBuilder> {
        self.builders@
    }

    /// The variables that hold the result of a database `.collect()` in the current function.
    pub closed spec fn collected(&self) -> Seq<Seq<char>> {
        string_views(self.collected@)
    }

    /// How many loops the walk is inside.
    pub closed spec fn loops(&self) -> u32 {
        self.loops
    }

    /// How many `v.object(..)`/`v.array(..)` validators the walk is inside.
    pub closed spec fn validators(&self) -> u32 {
        self.validators
    }

    /// The deepest nesting of validators met so far.
    pub closed spec fn deepest(&self) -> u32 {
        self.deepest
    }

    /// The state at the start of a file.
    pub fn new() -> (r: Self)
        ensures
            r.kind() is None,
            r.builders().len() == 0,
            r.collected().len() == 0,
            r.loops() == 0,
            r.validators() == 0,
            r.deepest() == 0,
    {
        let r = WalkState {
            kind: None,
            builders: Vec::new(),
            collected: Vec::new(),
            loops: 0,
            validators: 0,
            deepest: 0,
        };
        assert(r.collected() =~= Seq::<Seq<char>>::empty());
        r
    }

    /// The kind of the function the walk is inside, if any.
    pub fn function_kind(&self) -> (r: Option<FunctionKind>)
        ensures
            r == self.kind(),
    {
        self.kind
    }

    /// Whether the walk is inside a query, public or internal.
    pub fn in_query(&self) -> (b: bool)
        ensures
            b == (self.kind() matches Some(k) && kind_is_query(k)),
    {
        match self.kind {
            Some(k) => k.is_query(),
            None => false,
        }
    }

    /// Whether the walk is inside a function registration.
    pub fn in_function(&self) -> (b: bool)
        ensures
            b == (self.builders().len() > 0),
    {
        self.builders.len() > 0
    }

    /// The innermost function under construction.
    pub fn current_function(&self) -> (r: Option<&FunctionBuilder>)
        ensures
            match r {
                Some(b) => self.builders().len() > 0 && *b == self.builders().last(),
                None => self.builders().len() == 0,
            },
    {
        if self.builders.len() > 0 {
            Some(&self.builders[self.builders.len() - 1])
        } else {
            None
        }
    }

    /// Records that the innermost function checks authentication.
    pub fn mark_auth_check(&mut self)
        ensures
            final(self).kind() == old(self).kind(),
            final(self).collected() == old(self).collected(),
            final(self).loops() == old(self).loops(),
            final(self).validators() == old(self).validators(),
            final(self).deepest() == old(self).deepest(),
            final(self).builders().len() == old(self).builders().len(),
            old(self).builders().len() == 0 ==> final(self).builders() == old(self).builders(),
            old(self).builders().len() > 0 ==> final(self).builders() == old(self).builders().drop_last().push(
                (FunctionBuilder { has_auth_check: true, ..old(self).builders().last() }),
            ),
    {
        match self.builders.pop() {
            Some(mut b) => {
                b.has_auth_check = true;
                self.builders.push(b);
            },
            None => {},
        }
    }

    /// Enters the registration of a function of `kind`, under construction in `builder`;
    /// returns the kind it leaves, to restore at the end.
    pub fn start_function(&mut self, kind: FunctionKind, builder: FunctionBuilder) -> (previous: Option<FunctionKind>)
        ensures
            previous == old(self).kind(),
            final(self).kind() == Some(kind),
            final(self).builders() == old(self).builders().push(builder),
            final(self).collected().len() == 0,
            final(self).loops() == old(self).loops(),
            final(self).validators() == old(self).validators(),
            final(self).deepest() == old(self).deepest(),
    {
        let previous = self.kind;
        self.kind = Some(kind);
        self.builders.push(builder);
        self.collected = Vec::new();
        assert(self.collected() =~= Seq::<Seq<char>>::empty());
        previous
    }

    /// Leaves the innermost registration, restoring the kind `previous`; gives the function
    /// it built.
    pub fn end_function(&mut self, previous: Option<FunctionKind>) -> (r: Option<FunctionBuilder>)
        ensures
            final(self).kind() == previous,
            old(self).builders().len() > 0 ==> r == Some(old(self).builders().last())
                && final(self).builders() == old(self).builders().drop_last(),
            old(self).builders().len() == 0 ==> r is None && final(self).builders() == old(self).builders(),
            final(self).collected() == old(self).collected(),
            final(self).loops() == old(self).loops(),
            final(self).validators() == old(self).validators(),
            final(self).deepest() == old(self).deepest(),
    {
        self.kind = previous;
        self.builders.pop()
    }

    /// Records that `target`, where the call is assigned to one, holds a database collect.
    pub fn note_collect(&mut self, target: &Option<String>)
        ensures
            final(self).kind() == old(self).kind(),
            final(self).builders() == old(self).builders(),
            final(self).loops() == old(self).loops(),
            final(self).validators() == old(self).validators(),
            final(self).deepest() == old(self).deepest(),
            match target {
                Some(t) => if old(self).collected().contains(t@) {
                    final(self).collected() == old(self).collected()
                } else {
                    final(self).collected() == old(self).collected().push(t@)
                },
                None => final(self).collected() == old(self).collected(),
            },
    {
        match target {
            Some(t) => {
                if !contains_string(&self.collected, t.as_str()) {
                    let ghost before = self.collected@;
                    self.collected.push(owned(t.as_str()));
                    proof {
                        lemma_string_views_push(before, self.collected@.last());
                    }
                }
            },
            None => {},
        }
    }

    /// `v.filter(..)` on a variable `v` that holds collected results: what it is reported as.
    pub open spec fn collect_filter_of(&self, callee: Expr) -> Option<Seq<char>> {
        match callee {
            Expr::Member(o, p) => match *o {
                Expr::Ident(v) => if p@ == "filter"@ && self.collected().contains(v@) {
                    Some(v@ + ".filter() after .collect() — filter in JS instead of using an index"@)
                } else {
                    None
                },
                _ => None,
            },
            _ => None,
        }
    }

    /// The report of a `.filter(..)` on collected results, if the callee is one.
    pub fn collect_filter(&self, callee: &Expr) -> (r: Option<String>)
        ensures
            match r {
                Some(d) => self.collect_filter_of(*callee) == Some(d@),
                None => self.collect_filter_of(*callee) is None,
            },
    {
        match callee {
            Expr::Member(o, p) => match &**o {
                Expr::Ident(v) => if str_eq(p.as_str(), "filter") && contains_string(&self.collected, v.as_str()) {
                    let mut d = owned(v.as_str());
                    push_str(&mut d, ".filter() after .collect() — filter in JS instead of using an index");
                    Some(d)
                } else {
                    None
                },
                _ => None,
            },
            _ => None,
        }
    }

    /// Whether the walk is inside a loop.
    pub fn in_loop(&self) -> (b: bool)
        ensures
            b == (self.loops() > 0),
    {
        self.loops > 0
    }

    /// Enters a loop.
    pub fn enter_loop(&mut self)
        ensures
            final(self).loops() == bumped(old(self).loops()),
            final(self).kind() == old(self).kind(),
            final(self).builders() == old(self).builders(),
            final(self).collected() == old(self).collected(),
            final(self).validators() == old(self).validators(),
            final(self).deepest() == old(self).deepest(),
    {
        if self.loops < u32::MAX {
            self.loops = self.loops + 1;
        }
    }

    /// Leaves a loop.
    pub fn leave_loop(&mut self)
        ensures
            final(self).loops() == lowered(old(self).loops()),
            final(self).kind() == old(self).kind(),
            final(self).builders() == old(self).builders(),
            final(self).collected() == old(self).collected(),
            final(self).validators() == old(self).validators(),
            final(self).deepest() == old(self).deepest(),
    {
        if self.loops > 0 {
            self.loops = self.loops - 1;
        }
    }

    /// Enters a `v.object(..)` or `v.array(..)` validator.
    pub fn enter_validator(&mut self)
        ensures
            final(self).validators() == bumped(old(self).validators()),
            final(self).deepest() == if bumped(old(self).validators()) > old(self).deepest() {
                bumped(old(self).validators())
            } else {
                old(self).deepest()
            },
            final(self).kind() == old(self).kind(),
            final(self).builders() == old(self).builders(),
            final(self).collected() == old(self).collected(),
            final(self).loops() == old(self).loops(),
    {
        if self.validators < u32::MAX {
            self.validators = self.validators + 1;
        }
        if self.validators > self.deepest {
            self.deepest = self.validators;
        }
    }

    /// Leaves a validator.
    pub fn leave_validator(&mut self)
        ensures
            final(self).validators() == lowered(old(self).validators()),
            final(self).deepest() == old(self).deepest(),
            final(self).kind() == old(self).kind(),
            final(self).builders() == old(self).builders(),
            final(self).collected() == old(self).collected(),
            final(self).loops() == old(self).loops(),
    {
        if self.validators > 0 {
            self.validators = self.validators - 1;
        }
    }

    /// The deepest nesting of validators met so far.
    pub fn deepest_validators(&self) -> (n: u32)
        ensures
            n == self.deepest(),
    {
        self.deepest
    }
}

/// Where a finished function goes: straight into the file's functions, counted as exported,
/// when its registration is exported where it stands (`export const f = query(..)`); else it
/// waits under its name for an `export { f }`.
pub fn settle_function(
    functions: &mut Vec<ConvexFunction>,
    exported: &mut u32,
    pending: &mut PendingFunctions,
    func: ConvexFunction,
    direct: bool,
)
    ensures
        direct ==> final(functions)@ == old(functions)@.push(func) && *final(exported) == bumped(*old(exported))
            && final(pending).view() == old(pending).view(),
        !direct ==> final(functions)@ == old(functions)@ && *final(exported) == *old(exported)
            && ((exists|i: int|
            0 <= i < old(pending).view().len() && (#[trigger] old(pending).view()[i]).name@ == func.name@
                && final(pending).view() == old(pending).view().update(i, func)) || ((forall|i: int|
            0 <= i < old(pending).view().len() ==> (#[trigger] old(pending).view()[i]).name@ != func.name@)
            && final(pending).view() == old(pending).view().push(func))),
{
    if direct {
        functions.push(func);
        if *exported < u32::MAX {
            *exported = *exported + 1;
        }
    } else {
        pending.defer(func);
    }
}

/// `export { local as exported }`: the function pending under `local`, if any, joins the
/// file's functions under the exported name, counted as exported.
pub fn export_pending(
    functions: &mut Vec<ConvexFunction>,
    exported: &mut u32,
    pending: &mut PendingFunctions,
    local: &str,
    exported_name: &str,
)
    ensures
        (exists|i: int|
            0 <= i < old(pending).view().len() && (#[trigger] old(pending).view()[i]).name@ == local@
                && final(pending).view() == old(pending).view().remove(i)
                && final(functions)@.len() == old(functions)@.len() + 1
                && final(functions)@.drop_last() == old(functions)@
                && final(functions)@.last() == (ConvexFunction { name: final(functions)@.last().name, ..old(pending).view()[i] })
                && final(functions)@.last().name@ == exported_name@
                && *final(exported) == bumped(*old(exported)))
        || ((forall|i: int| 0 <= i < old(pending).view().len() ==> (#[trigger] old(pending).view()[i]).name@ != local@)
            && final(pending).view() == old(pending).view() && final(functions)@ == old(functions)@
            && *final(exported) == *old(exported)),
{
    match pending.take(local) {
        Some(mut func) => {
            func.name = owned(exported_name);
            functions.push(func);
            if *exported < u32::MAX {
                *exported = *exported + 1;
            }
        },
        None => {},
    }
}

/// The number of lines from line `first` to line `last`, both counted; 1 when `last` comes
/// before `first`, and held at `u32::MAX`.
pub open spec fn line_span(first: u32, last: u32) -> u32 {
    if last <= first {
        1
    } else if last - first < u32::MAX {
        (last - first + 1) as u32
    } else {
        u32::MAX
    }
}

/// How many lines a handler spans, from the line it starts on to the line it ends on.
pub fn handler_lines(first: u32, last: u32) -> (n: u32)
    ensures
        n == line_span(first, last),
{
    if last <= first {
        1
    } else if last - first < u32::MAX {
        last - first + 1
    } else {
        u32::MAX
    }
}

} // verus!
