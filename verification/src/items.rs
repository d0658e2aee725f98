//! Visiting items: the declaration collector and the driver of the pass.

use vstd::prelude::*;
use crate::graph::GraphView;
use crate::ids::CallableId;
use crate::program::{Expr, ImplItem, Item, ItemLike, Program, TraitItem, TraitItemKind};
use crate::validate::{body_admissible, is_program_admissible, item_admissible, program_admissible};
use crate::visitor::CallgraphVisitor;

verus! {

impl CallgraphVisitor {
    /// Visits a body from depth zero on behalf of `caller`.
    pub fn visit_body(&mut self, body: &Option<Expr>, caller: Option<CallableId>)
        requires
            old(self).wf(),
            body_admissible(*body),
        ensures
            final(self).wf(),
            final(self)@ == old(self)@.with_body(*body, caller),
    {
        match body {
            Some(e) => {
                self.visit_expr(e, caller, 0, false);
            },
            None => {},
        }
    }

    /// Visits a top-level item.
    pub fn visit_item(&mut self, item: &Item)
        requires
            old(self).wf(),
            item.generated || body_admissible(item.body),
        ensures
            final(self).wf(),
            final(self)@ == old(self)@.visit_item(*item),
            item.generated ==> final(self)@ == old(self)@,
    {
        if item.generated {
            return ;
        }
        if item.is_fn {
            self.record_function(item.id, item.location);
            self.visit_body(&item.body, Some(item.id));
        } else {
            self.visit_body(&item.body, None);
        }
    }

    /// Visits a member of an interface.
    pub fn visit_trait_item(&mut self, ti: &TraitItem)
        requires
            old(self).wf(),
            ti.generated || body_admissible(ti.body),
        ensures
            final(self).wf(),
            final(self)@ == old(self)@.visit_trait_item(*ti),
            ti.generated ==> final(self)@ == old(self)@,
    {
        if ti.generated {
            return ;
        }
        match ti.kind {
            TraitItemKind::Required => {
                self.declare(ti.id);
                self.visit_body(&ti.body, None);
            },
            TraitItemKind::Provided => {
                self.note_declaration(ti.id);
                self.record_function(ti.id, ti.location);
                self.link_implementation(ti.id, ti.id);
                self.visit_body(&ti.body, Some(ti.id));
            },
            TraitItemKind::Other => {
                self.visit_body(&ti.body, None);
            },
        }
    }

    /// Visits a member of an implementation block.
    pub fn visit_impl_item(&mut self, ii: &ImplItem)
        requires
            old(self).wf(),
            ii.generated || body_admissible(ii.body),
        ensures
            final(self).wf(),
            final(self)@ == old(self)@.visit_impl_item(*ii),
            ii.generated ==> final(self)@ == old(self)@,
    {
        if ii.generated {
            return ;
        }
        if ii.is_fn {
            self.record_function(ii.id, ii.location);
            match ii.declaration {
                Some(decl_id) => {
                    self.link_implementation(decl_id, ii.id);
                },
                None => {},
            }
            self.visit_body(&ii.body, Some(ii.id));
        } else {
            self.visit_body(&ii.body, None);
        }
    }

    /// Visits whatever `item` is.
    pub fn visit(&mut self, item: &ItemLike)
        requires
            old(self).wf(),
            item_admissible(*item),
        ensures
            final(self).wf(),
            final(self)@ == old(self)@.visit(*item),
    {
        match item {
            ItemLike::Item(i) => self.visit_item(i),
            ItemLike::TraitItem(i) => self.visit_trait_item(i),
            ItemLike::ImplItem(i) => self.visit_impl_item(i),
        }
    }

    /// Visits every item of `program` in order.
    pub fn visit_program(&mut self, program: &Program)
        requires
            old(self).wf(),
            program_admissible(*program),
        ensures
            final(self).wf(),
            final(self)@ == old(self)@.visit_all(program.items@),
    {
        let mut i: usize = 0;
        while i < program.items.len()
            invariant
                i <= program.items@.len(),
                self.wf(),
                program_admissible(*program),
                self@ == old(self)@.visit_all(program.items@.take(i as int)),
            decreases program.items@.len() - i,
        {
            assert(program.items@.take(i + 1).drop_last() =~= program.items@.take(i as int));
            assert(item_admissible(program.items@[i as int]));
            self.visit(&program.items[i]);
            i = i + 1;
        }
        assert(program.items@.take(i as int) =~= program.items@);
    }
}

/// The call graph of a program.
pub open spec fn call_graph(program: Program) -> GraphView {
    GraphView::empty().visit_all(program.items@)
}

/// Extracts the call graph of a program that can be traversed.
pub fn extract(program: &Program) -> (v: CallgraphVisitor)
    requires
        program_admissible(*program),
    ensures
        v.wf(),
        v@ == call_graph(*program),
{
    let mut v = CallgraphVisitor::new();
    v.visit_program(program);
    v
}

/// Extracts the call graph of a program, or tells that the program cannot
/// be traversed.
pub fn try_extract(program: &Program) -> (r: Option<CallgraphVisitor>)
    ensures
        r is Some <==> program_admissible(*program),
        r matches Some(v) ==> v.wf() && v@ == call_graph(*program),
{
    if is_program_admissible(program) {
        Some(extract(program))
    } else {
        None
    }
}

} // verus!
