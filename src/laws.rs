//! Laws of rendering: what holds of every render pass.
use vstd::prelude::*;
use crate::object::{args_rendered, call_rendered, node_rendered, CalleeView, NodeView, Object};
use crate::scad::{
    any_present, arg_text, args_text, call_spec, call_text, defs_text, def_line, emit_spec,
    AssignmentType, AssignmentView, FormatterView, Scad,
};
use crate::types::{list_rendered, numbers_rendered, rows_rendered, value_rendered, Number, ValueView};

verus! {

/// `b` records the same texts, with the same kinds, as `a`.
pub open spec fn same_table(a: FormatterView, b: FormatterView) -> bool {
    a.texts == b.texts && a.kinds == b.kinds
}

pub proof fn lemma_prefix_trans(a: FormatterView, b: FormatterView, c: FormatterView)
    requires
        a.prefix_of(b),
        b.prefix_of(c),
    ensures
        a.prefix_of(c),
{
    assert(c.texts.subrange(0, a.texts.len() as int) =~= c.texts.subrange(0, b.texts.len() as int).subrange(0, a.texts.len() as int));
    assert(c.kinds.subrange(0, a.kinds.len() as int) =~= c.kinds.subrange(0, b.kinds.len() as int).subrange(0, a.kinds.len() as int));
}

pub proof fn lemma_prefix_refl(a: FormatterView)
    ensures
        a.prefix_of(a),
{
    assert(a.texts.subrange(0, a.texts.len() as int) =~= a.texts);
    assert(a.kinds.subrange(0, a.kinds.len() as int) =~= a.kinds);
}

/// Recording keeps the state well formed and only appends; afterwards the
/// text is recorded, and the handle returned is the one recorded for it.
pub proof fn lemma_emit_grows(s: FormatterView, t: Seq<char>, k: AssignmentType)
    requires
        s.wf(),
    ensures
        emit_spec(s, t, k).0.wf(),
        s.prefix_of(emit_spec(s, t, k).0),
        emit_spec(s, t, k).0.has(t),
        emit_spec(s, t, k).1 == emit_spec(s, t, k).0.handle(emit_spec(s, t, k).0.index_of(t)),
        emit_spec(s, t, k).0.imports == s.imports,
{
    let r = emit_spec(s, t, k).0;
    if s.has(t) {
        lemma_prefix_refl(s);
    } else {
        assert(r.texts.subrange(0, s.texts.len() as int) =~= s.texts);
        assert(r.kinds.subrange(0, s.kinds.len() as int) =~= s.kinds);
        assert(r.texts[s.texts.len() as int] == t);
        let i = r.index_of(t);
        assert(i == s.texts.len()) by {
            if i < s.texts.len() {
                assert(s.texts[i] == t);
            }
        }
    }
}

/// A text recorded in an earlier state keeps its index and kind.
pub proof fn lemma_recorded_kept(s: FormatterView, later: FormatterView, t: Seq<char>)
    requires
        s.wf(),
        later.wf(),
        s.prefix_of(later),
        s.has(t),
    ensures
        later.has(t),
        later.index_of(t) == s.index_of(t),
        later.handle(later.index_of(t)) == s.handle(s.index_of(t)),
{
    let i = s.index_of(t);
    assert(later.texts[i] == s.texts[i]) by {
        assert(later.texts.subrange(0, s.texts.len() as int)[i] == later.texts[i]);
    }
    assert(later.kinds[i] == s.kinds[i]) by {
        assert(later.kinds.subrange(0, s.kinds.len() as int)[i] == later.kinds[i]);
    }
    let j = later.index_of(t);
    assert(j == i);
}

/// Recording a text again, in any later state, gives the same handle and
/// records nothing.
pub proof fn lemma_emit_stable(
    s: FormatterView,
    later: FormatterView,
    t: Seq<char>,
    k1: AssignmentType,
    k2: AssignmentType,
)
    requires
        s.wf(),
        later.wf(),
        emit_spec(s, t, k1).0.prefix_of(later),
    ensures
        emit_spec(later, t, k2) == (later, emit_spec(s, t, k1).1),
{
    lemma_emit_grows(s, t, k1);
    lemma_recorded_kept(emit_spec(s, t, k1).0, later, t);
}

pub proof fn lemma_prefix_same_table(a: FormatterView, b: FormatterView, c: FormatterView)
    requires
        a.prefix_of(b),
        same_table(b, c),
    ensures
        a.prefix_of(c),
{
}

pub proof fn lemma_numbers_grows(s: FormatterView, nums: Seq<Number>)
    requires
        s.wf(),
    ensures
        numbers_rendered(s, nums).0.wf(),
        s.prefix_of(numbers_rendered(s, nums).0),
        numbers_rendered(s, nums).0.imports == s.imports,
    decreases nums.len(),
{
    if nums.len() == 0 {
        lemma_prefix_refl(s);
    } else {
        lemma_numbers_grows(s, nums.drop_last());
        let s1 = numbers_rendered(s, nums.drop_last()).0;
        lemma_emit_grows(s1, nums.last().text(), AssignmentType::Function);
        lemma_prefix_trans(s, s1, numbers_rendered(s, nums).0);
    }
}

pub proof fn lemma_numbers_stable(s: FormatterView, later: FormatterView, nums: Seq<Number>)
    requires
        s.wf(),
        later.wf(),
        numbers_rendered(s, nums).0.prefix_of(later),
    ensures
        numbers_rendered(later, nums).1 == numbers_rendered(s, nums).1,
        same_table(numbers_rendered(later, nums).0, later),
    decreases nums.len(),
{
    if nums.len() > 0 {
        let p = nums.drop_last();
        let s1 = numbers_rendered(s, p).0;
        let s2 = numbers_rendered(s, nums).0;
        lemma_numbers_grows(s, p);
        lemma_emit_grows(s1, nums.last().text(), AssignmentType::Function);
        lemma_prefix_trans(s1, s2, later);
        lemma_numbers_stable(s, later, p);
        let l1 = numbers_rendered(later, p).0;
        lemma_numbers_grows(later, p);
        lemma_prefix_same_table(s2, later, l1);
        lemma_emit_stable(s1, l1, nums.last().text(), AssignmentType::Function, AssignmentType::Function);
    }
}

pub proof fn lemma_list_grows(s: FormatterView, nums: Seq<Number>)
    requires
        s.wf(),
    ensures
        list_rendered(s, nums).0.wf(),
        s.prefix_of(list_rendered(s, nums).0),
        list_rendered(s, nums).0.imports == s.imports,
{
    lemma_numbers_grows(s, nums);
    let (s1, rs) = numbers_rendered(s, nums);
    lemma_emit_grows(s1, crate::types::list_text(rs), AssignmentType::Function);
    lemma_prefix_trans(s, s1, list_rendered(s, nums).0);
}

pub proof fn lemma_list_stable(s: FormatterView, later: FormatterView, nums: Seq<Number>)
    requires
        s.wf(),
        later.wf(),
        list_rendered(s, nums).0.prefix_of(later),
    ensures
        list_rendered(later, nums).1 == list_rendered(s, nums).1,
        same_table(list_rendered(later, nums).0, later),
{
    let (s1, rs) = numbers_rendered(s, nums);
    let s2 = list_rendered(s, nums).0;
    lemma_numbers_grows(s, nums);
    lemma_emit_grows(s1, crate::types::list_text(rs), AssignmentType::Function);
    lemma_prefix_trans(s1, s2, later);
    lemma_numbers_stable(s, later, nums);
    let l1 = numbers_rendered(later, nums).0;
    lemma_numbers_grows(later, nums);
    lemma_prefix_same_table(s2, later, l1);
    lemma_emit_stable(s1, l1, crate::types::list_text(rs), AssignmentType::Function, AssignmentType::Function);
}

pub proof fn lemma_rows_grows(s: FormatterView, rows: Seq<Seq<Number>>)
    requires
        s.wf(),
    ensures
        rows_rendered(s, rows).0.wf(),
        s.prefix_of(rows_rendered(s, rows).0),
        rows_rendered(s, rows).0.imports == s.imports,
    decreases rows.len(),
{
    if rows.len() == 0 {
        lemma_prefix_refl(s);
    } else {
        lemma_rows_grows(s, rows.drop_last());
        let s1 = rows_rendered(s, rows.drop_last()).0;
        lemma_list_grows(s1, rows.last());
        lemma_prefix_trans(s, s1, rows_rendered(s, rows).0);
    }
}

pub proof fn lemma_rows_stable(s: FormatterView, later: FormatterView, rows: Seq<Seq<Number>>)
    requires
        s.wf(),
        later.wf(),
        rows_rendered(s, rows).0.prefix_of(later),
    ensures
        rows_rendered(later, rows).1 == rows_rendered(s, rows).1,
        same_table(rows_rendered(later, rows).0, later),
    decreases rows.len(),
{
    if rows.len() > 0 {
        let p = rows.drop_last();
        let s1 = rows_rendered(s, p).0;
        let s2 = rows_rendered(s, rows).0;
        lemma_rows_grows(s, p);
        lemma_list_grows(s1, rows.last());
        lemma_prefix_trans(s1, s2, later);
        lemma_rows_stable(s, later, p);
        let l1 = rows_rendered(later, p).0;
        lemma_rows_grows(later, p);
        lemma_prefix_same_table(s2, later, l1);
        lemma_list_stable(s1, l1, rows.last());
    }
}

pub proof fn lemma_value_grows(s: FormatterView, v: ValueView)
    requires
        s.wf(),
    ensures
        value_rendered(s, v).0.wf(),
        s.prefix_of(value_rendered(s, v).0),
        value_rendered(s, v).0.imports == s.imports,
{
    match v {
        ValueView::Bool(b) => lemma_emit_grows(s, crate::types::bool_text(b), AssignmentType::Function),
        ValueView::Text(t) => lemma_emit_grows(s, crate::types::quoted(t), AssignmentType::Function),
        ValueView::Number(n) => lemma_emit_grows(s, n.text(), AssignmentType::Function),
        ValueView::List(l) => lemma_list_grows(s, l),
        ValueView::Table(t) => {
            lemma_rows_grows(s, t);
            let (s1, rs) = rows_rendered(s, t);
            lemma_emit_grows(s1, crate::types::list_text(rs), AssignmentType::Function);
            lemma_prefix_trans(s, s1, value_rendered(s, v).0);
        },
    }
}

pub proof fn lemma_value_stable(s: FormatterView, later: FormatterView, v: ValueView)
    requires
        s.wf(),
        later.wf(),
        value_rendered(s, v).0.prefix_of(later),
    ensures
        value_rendered(later, v).1 == value_rendered(s, v).1,
        same_table(value_rendered(later, v).0, later),
{
    match v {
        ValueView::Bool(b) => lemma_emit_stable(s, later, crate::types::bool_text(b), AssignmentType::Function, AssignmentType::Function),
        ValueView::Text(t) => lemma_emit_stable(s, later, crate::types::quoted(t), AssignmentType::Function, AssignmentType::Function),
        ValueView::Number(n) => lemma_emit_stable(s, later, n.text(), AssignmentType::Function, AssignmentType::Function),
        ValueView::List(l) => lemma_list_stable(s, later, l),
        ValueView::Table(t) => {
            let (s1, rs) = rows_rendered(s, t);
            let s2 = value_rendered(s, v).0;
            lemma_rows_grows(s, t);
            lemma_emit_grows(s1, crate::types::list_text(rs), AssignmentType::Function);
            lemma_prefix_trans(s1, s2, later);
            lemma_rows_stable(s, later, t);
            let l1 = rows_rendered(later, t).0;
            lemma_rows_grows(later, t);
            lemma_prefix_same_table(s2, later, l1);
            lemma_emit_stable(s1, l1, crate::types::list_text(rs), AssignmentType::Function, AssignmentType::Function);
        },
    }
}

pub proof fn lemma_args_grows(s: FormatterView, args: Seq<(Seq<char>, Option<ValueView>)>)
    requires
        s.wf(),
    ensures
        args_rendered(s, args).0.wf(),
        s.prefix_of(args_rendered(s, args).0),
        args_rendered(s, args).0.imports == s.imports,
    decreases args.len(),
{
    if args.len() == 0 {
        lemma_prefix_refl(s);
    } else {
        lemma_args_grows(s, args.drop_last());
        let s1 = args_rendered(s, args.drop_last()).0;
        match args.last().1 {
            None => {},
            Some(v) => {
                lemma_value_grows(s1, v);
                lemma_prefix_trans(s, s1, args_rendered(s, args).0);
            },
        }
    }
}

pub proof fn lemma_args_stable(s: FormatterView, later: FormatterView, args: Seq<(Seq<char>, Option<ValueView>)>)
    requires
        s.wf(),
        later.wf(),
        args_rendered(s, args).0.prefix_of(later),
    ensures
        args_rendered(later, args).1 == args_rendered(s, args).1,
        same_table(args_rendered(later, args).0, later),
    decreases args.len(),
{
    if args.len() > 0 {
        let p = args.drop_last();
        let s1 = args_rendered(s, p).0;
        let s2 = args_rendered(s, args).0;
        lemma_args_grows(s, p);
        match args.last().1 {
            None => {
                lemma_prefix_refl(s1);
            },
            Some(v) => {
                lemma_value_grows(s1, v);
            },
        }
        lemma_prefix_trans(s1, s2, later);
        lemma_args_stable(s, later, p);
        let l1 = args_rendered(later, p).0;
        lemma_args_grows(later, p);
        lemma_prefix_same_table(s2, later, l1);
        match args.last().1 {
            None => {},
            Some(v) => {
                lemma_value_stable(s1, l1, v);
            },
        }
    }
}

/// The state after a call's imports are requested.
pub open spec fn with_imports(s: FormatterView, imports: Seq<crate::scad::ImportView>) -> FormatterView {
    FormatterView { imports: s.imports + imports, ..s }
}

/// The state after a call's callee is recorded, and its name.
pub open spec fn callee_rendered(s: FormatterView, callee: CalleeView) -> (FormatterView, Seq<char>) {
    match callee {
        CalleeView::Named(n) => (s, n),
        CalleeView::Template(t) => {
            let (s2, a) = emit_spec(s, t, AssignmentType::Module);
            (s2, crate::scad::ref_text(a))
        },
    }
}

pub proof fn lemma_call_parts(
    s: FormatterView,
    imports: Seq<crate::scad::ImportView>,
    callee: CalleeView,
    args: Seq<(Seq<char>, Option<ValueView>)>,
    operator: bool,
)
    ensures
        ({
            let (s2, name) = callee_rendered(with_imports(s, imports), callee);
            let (s3, refs) = args_rendered(s2, args);
            call_rendered(s, imports, callee, args, operator) == call_spec(s3, name, refs, operator)
        }),
{
}

pub proof fn lemma_callee_grows(s: FormatterView, callee: CalleeView)
    requires
        s.wf(),
    ensures
        callee_rendered(s, callee).0.wf(),
        s.prefix_of(callee_rendered(s, callee).0),
{
    match callee {
        CalleeView::Named(n) => lemma_prefix_refl(s),
        CalleeView::Template(t) => lemma_emit_grows(s, t, AssignmentType::Module),
    }
}

pub proof fn lemma_callee_stable(s: FormatterView, later: FormatterView, callee: CalleeView)
    requires
        s.wf(),
        later.wf(),
        callee_rendered(s, callee).0.prefix_of(later),
    ensures
        callee_rendered(later, callee).1 == callee_rendered(s, callee).1,
        same_table(callee_rendered(later, callee).0, later),
{
    match callee {
        CalleeView::Named(n) => {},
        CalleeView::Template(t) => lemma_emit_stable(s, later, t, AssignmentType::Module, AssignmentType::Module),
    }
}

pub proof fn lemma_call_spec_grows(s: FormatterView, name: Seq<char>, refs: Seq<(Seq<char>, Option<AssignmentView>)>, operator: bool)
    requires
        s.wf(),
    ensures
        call_spec(s, name, refs, operator).0.wf(),
        s.prefix_of(call_spec(s, name, refs, operator).0),
{
    if !any_present(refs) {
        lemma_prefix_refl(s);
    } else {
        lemma_emit_grows(s, call_text(name, refs, operator), AssignmentType::Call);
    }
}

pub proof fn lemma_call_grows(
    s: FormatterView,
    imports: Seq<crate::scad::ImportView>,
    callee: CalleeView,
    args: Seq<(Seq<char>, Option<ValueView>)>,
    operator: bool,
)
    requires
        s.wf(),
    ensures
        call_rendered(s, imports, callee, args, operator).0.wf(),
        s.prefix_of(call_rendered(s, imports, callee, args, operator).0),
{
    lemma_call_parts(s, imports, callee, args, operator);
    let s1 = with_imports(s, imports);
    let (s2, name) = callee_rendered(s1, callee);
    let (s3, refs) = args_rendered(s2, args);
    lemma_callee_grows(s1, callee);
    lemma_args_grows(s2, args);
    lemma_call_spec_grows(s3, name, refs, operator);
    lemma_prefix_trans(s1, s2, s3);
    lemma_prefix_trans(s1, s3, call_spec(s3, name, refs, operator).0);
}

pub proof fn lemma_call_stable(
    s: FormatterView,
    later: FormatterView,
    imports: Seq<crate::scad::ImportView>,
    callee: CalleeView,
    args: Seq<(Seq<char>, Option<ValueView>)>,
    operator: bool,
)
    requires
        s.wf(),
        later.wf(),
        call_rendered(s, imports, callee, args, operator).0.prefix_of(later),
    ensures
        call_rendered(later, imports, callee, args, operator).1 == call_rendered(s, imports, callee, args, operator).1,
        same_table(call_rendered(later, imports, callee, args, operator).0, later),
{
    lemma_call_parts(s, imports, callee, args, operator);
    lemma_call_parts(later, imports, callee, args, operator);
    let s1 = with_imports(s, imports);
    let (s2, name) = callee_rendered(s1, callee);
    let (s3, refs) = args_rendered(s2, args);
    let s4 = call_spec(s3, name, refs, operator).0;
    lemma_callee_grows(s1, callee);
    lemma_args_grows(s2, args);
    lemma_call_spec_grows(s3, name, refs, operator);
    lemma_prefix_trans(s3, s4, later);
    lemma_prefix_trans(s2, s3, later);
    let l1 = with_imports(later, imports);
    lemma_prefix_same_table(s2, later, l1);
    lemma_callee_stable(s1, l1, callee);
    let (l2, lname) = callee_rendered(l1, callee);
    lemma_callee_grows(l1, callee);
    lemma_prefix_same_table(s3, later, l2);
    lemma_args_stable(s2, l2, args);
    let (l3, lrefs) = args_rendered(l2, args);
    lemma_args_grows(l2, args);
    lemma_prefix_same_table(s4, later, l3);
    if any_present(refs) {
        lemma_emit_stable(s3, l3, call_text(name, refs, operator), AssignmentType::Call, AssignmentType::Call);
    }
}

/// Rendering a tree keeps the state well formed and only appends to it.
pub proof fn lemma_node_grows(s: FormatterView, n: NodeView)
    requires
        s.wf(),
    ensures
        node_rendered(s, n).0.wf(),
        s.prefix_of(node_rendered(s, n).0),
    decreases n,
{
    match n {
        NodeView::Call { imports, callee, args, operator } => lemma_call_grows(s, imports, callee, args, operator),
        NodeView::Wrapped { parent, child } => {
            let (s1, c) = node_rendered(s, *child);
            let (s2, p) = node_rendered(s1, *parent);
            lemma_node_grows(s, *child);
            lemma_node_grows(s1, *parent);
            lemma_emit_grows(s2, crate::object::wrapped_text(p, c), AssignmentType::Call);
            lemma_prefix_trans(s, s1, s2);
            lemma_prefix_trans(s, s2, node_rendered(s, n).0);
        },
        NodeView::Block { first, second } => {
            let (s1, a) = node_rendered(s, *first);
            lemma_node_grows(s, *first);
            lemma_node_grows(s1, *second);
            lemma_prefix_trans(s, s1, node_rendered(s, n).0);
        },
        NodeView::Import { path } => lemma_emit_grows(s, crate::object::import_text(path), AssignmentType::Call),
    }
}

/// Rendering a tree again, in any state that extends the one its first
/// rendering left, gives the same reference and records nothing new: a
/// shared or repeated subtree has one definition.
pub proof fn lemma_node_stable(s: FormatterView, later: FormatterView, n: NodeView)
    requires
        s.wf(),
        later.wf(),
        node_rendered(s, n).0.prefix_of(later),
    ensures
        node_rendered(later, n).1 == node_rendered(s, n).1,
        same_table(node_rendered(later, n).0, later),
    decreases n,
{
    match n {
        NodeView::Call { imports, callee, args, operator } => lemma_call_stable(s, later, imports, callee, args, operator),
        NodeView::Wrapped { parent, child } => {
            let (s1, c) = node_rendered(s, *child);
            let (s2, p) = node_rendered(s1, *parent);
            let s3 = node_rendered(s, n).0;
            lemma_node_grows(s, *child);
            lemma_node_grows(s1, *parent);
            lemma_emit_grows(s2, crate::object::wrapped_text(p, c), AssignmentType::Call);
            lemma_prefix_trans(s2, s3, later);
            lemma_prefix_trans(s1, s2, later);
            lemma_node_stable(s, later, *child);
            let l1 = node_rendered(later, *child).0;
            lemma_node_grows(later, *child);
            lemma_prefix_same_table(s2, later, l1);
            lemma_node_stable(s1, l1, *parent);
            let l2 = node_rendered(l1, *parent).0;
            lemma_node_grows(l1, *parent);
            lemma_prefix_same_table(s3, later, l2);
            lemma_emit_stable(s2, l2, crate::object::wrapped_text(p, c), AssignmentType::Call, AssignmentType::Call);
        },
        NodeView::Block { first, second } => {
            let (s1, a) = node_rendered(s, *first);
            let s2 = node_rendered(s, n).0;
            lemma_node_grows(s, *first);
            lemma_node_grows(s1, *second);
            lemma_prefix_trans(s1, s2, later);
            lemma_node_stable(s, later, *first);
            let l1 = node_rendered(later, *first).0;
            lemma_node_grows(later, *first);
            lemma_prefix_same_table(s2, later, l1);
            lemma_node_stable(s1, l1, *second);
        },
        NodeView::Import { path } => lemma_emit_stable(s, later, crate::object::import_text(path), AssignmentType::Call, AssignmentType::Call),
    }
}

/// The program for a tree rendered with a fresh formatter.
pub open spec fn program_of(n: NodeView) -> Seq<char> {
    crate::scad::program_text(node_rendered(FormatterView::empty(), n).0, node_rendered(FormatterView::empty(), n).1)
}

/// Determinism: two objects with the same tree (the same object rendered
/// twice, or a clone) render, each with a fresh formatter, to the same state,
/// reference and program text.
pub proof fn law_render_deterministic<const D: usize>(a: Object<D>, b: Object<D>)
    requires
        a@ == b@,
    ensures
        a.rendered(FormatterView::empty()) == b.rendered(FormatterView::empty()),
        program_of(a@) == program_of(b@),
{
}

/// Deduplication: in a well-formed state each text is recorded once, so it
/// has one definition; recording a text again, in any state after its first
/// recording, gives the first handle and records nothing.
pub proof fn law_text_recorded_once(
    s: FormatterView,
    later: FormatterView,
    t: Seq<char>,
    k1: AssignmentType,
    k2: AssignmentType,
)
    requires
        s.wf(),
        later.wf(),
        emit_spec(s, t, k1).0.prefix_of(later),
    ensures
        emit_spec(later, t, k2) == (later, emit_spec(s, t, k1).1),
        forall|i: int, j: int|
            0 <= i < later.texts.len() && 0 <= j < later.texts.len() && later.texts[i] == t && later.texts[j] == t
                ==> i == j,
{
    lemma_emit_stable(s, later, t, k1, k2);
}

/// Deduplication of subtrees: a subtree identical to one rendered earlier in
/// the pass, built independently, gets the same reference and adds no
/// definition.
pub proof fn law_identical_subtrees_share(s: FormatterView, a: NodeView, b: NodeView)
    requires
        s.wf(),
        a == b,
    ensures
        node_rendered(node_rendered(s, a).0, b).1 == node_rendered(s, a).1,
        same_table(node_rendered(node_rendered(s, a).0, b).0, node_rendered(s, a).0),
{
    lemma_node_grows(s, a);
    lemma_prefix_refl(node_rendered(s, a).0);
    lemma_node_stable(s, node_rendered(s, a).0, a);
}

/// Sharing: an object and its clone, placed under two parents, have one
/// definition: once the object is rendered, rendering the clone in any later
/// state of the pass gives the same reference and records nothing.
pub proof fn law_clone_shares_definition<const D: usize>(
    o: Object<D>,
    c: Object<D>,
    s: FormatterView,
    later: FormatterView,
)
    requires
        c@ == o@,
        s.wf(),
        later.wf(),
        node_rendered(s, o@).0.prefix_of(later),
    ensures
        node_rendered(later, c@).1 == node_rendered(s, o@).1,
        same_table(node_rendered(later, c@).0, later),
{
    lemma_node_stable(s, later, o@);
}

/// `a` followed by `b`.
pub open spec fn joined(a: Seq<char>, b: Seq<char>) -> Seq<char> {
    a + b
}

pub proof fn lemma_defs_prefix(texts: Seq<Seq<char>>, kinds: Seq<AssignmentType>, m: int, n: int)
    requires
        0 <= m <= n <= texts.len(),
    ensures
        exists|rest: Seq<char>| defs_text(texts.take(n), kinds) == #[trigger] joined(defs_text(texts.take(m), kinds), rest),
    decreases n - m,
{
    if m == n {
        assert(defs_text(texts.take(n), kinds) =~= joined(defs_text(texts.take(m), kinds), seq![]));
    } else {
        lemma_defs_prefix(texts, kinds, m, n - 1);
        let rest = choose|rest: Seq<char>| defs_text(texts.take(n - 1), kinds) == #[trigger] joined(defs_text(texts.take(m), kinds), rest);
        lemma_defs_step(texts, kinds, n - 1);
        assert(defs_text(texts.take(n), kinds) =~= joined(defs_text(texts.take(m), kinds), rest + def_line((n - 1) as nat, texts[n - 1], kinds[n - 1])));
    }
}

pub proof fn lemma_defs_step(texts: Seq<Seq<char>>, kinds: Seq<AssignmentType>, i: int)
    requires
        0 <= i < texts.len(),
    ensures
        defs_text(texts.take(i + 1), kinds) == defs_text(texts.take(i), kinds) + def_line(i as nat, texts[i], kinds[i]),
{
    assert(texts.take(i + 1).drop_last() =~= texts.take(i));
    assert(texts.take(i + 1).last() == texts[i]);
}

/// `x`, then `a`, then `y`, then `b`, then `z`.
pub open spec fn around(x: Seq<char>, a: Seq<char>, y: Seq<char>, b: Seq<char>, z: Seq<char>) -> Seq<char> {
    x + a + y + b + z
}

/// First-registration order: a text recorded before another is defined
/// before it in the printed definitions, wherever the two stand in the tree.
pub proof fn law_first_recorded_printed_first(s: FormatterView, later: FormatterView, a: Seq<char>, b: Seq<char>)
    requires
        s.wf(),
        later.wf(),
        s.prefix_of(later),
        s.has(a),
        !s.has(b),
        later.has(b),
    ensures
        later.index_of(a) < later.index_of(b),
        exists|x: Seq<char>, y: Seq<char>, z: Seq<char>|
            defs_text(later.texts, later.kinds) == #[trigger] around(
                x,
                def_line(later.index_of(a) as nat, a, later.kinds[later.index_of(a)]),
                y,
                def_line(later.index_of(b) as nat, b, later.kinds[later.index_of(b)]),
                z,
            ),
{
    lemma_recorded_kept(s, later, a);
    let ia = later.index_of(a);
    let ib = later.index_of(b);
    assert(ib >= s.texts.len()) by {
        if ib < s.texts.len() {
            assert(later.texts.subrange(0, s.texts.len() as int)[ib] == later.texts[ib]);
            assert(s.texts[ib] == b);
        }
    }
    let texts = later.texts;
    let kinds = later.kinds;
    let len = texts.len() as int;
    assert(texts.take(len) =~= texts);
    lemma_defs_prefix(texts, kinds, ib + 1, len);
    let z = choose|z: Seq<char>| defs_text(texts.take(len), kinds) == #[trigger] joined(defs_text(texts.take(ib + 1), kinds), z);
    lemma_defs_step(texts, kinds, ib);
    lemma_defs_prefix(texts, kinds, ia + 1, ib);
    let y = choose|y: Seq<char>| defs_text(texts.take(ib), kinds) == #[trigger] joined(defs_text(texts.take(ia + 1), kinds), y);
    lemma_defs_step(texts, kinds, ia);
    let x = defs_text(texts.take(ia), kinds);
    let la = def_line(ia as nat, a, kinds[ia]);
    let lb = def_line(ib as nat, b, kinds[ib]);
    assert(defs_text(texts, kinds) =~= around(x, la, y, lb, z));
}

pub proof fn lemma_args_text_remove_absent(args: Seq<(Seq<char>, Option<AssignmentView>)>, i: int)
    requires
        0 <= i < args.len(),
        args[i].1 is None,
    ensures
        args_text(args) == args_text(args.remove(i)),
    decreases args.len(),
{
    if i == args.len() - 1 {
        assert(args.remove(i) =~= args.drop_last());
    } else {
        lemma_args_text_remove_absent(args.drop_last(), i);
        assert(args.remove(i).drop_last() =~= args.drop_last().remove(i));
        assert(args.remove(i).last() == args.last());
    }
}

pub proof fn lemma_arg_text_nonempty(k: Seq<char>, v: AssignmentView)
    ensures
        arg_text(k, v).len() >= 1,
{
    assert(arg_text(k, v)[k.len() as int] == '=');
}

pub proof fn lemma_args_text_longer(args: Seq<(Seq<char>, Option<AssignmentView>)>, i: int, v: AssignmentView)
    requires
        0 <= i < args.len(),
        args[i].1 is None,
    ensures
        args_text(args.update(i, (args[i].0, Some(v)))).len() > args_text(args).len(),
    decreases args.len(),
{
    let u = args.update(i, (args[i].0, Some(v)));
    if i == args.len() - 1 {
        assert(u.drop_last() =~= args.drop_last());
        lemma_arg_text_nonempty(args[i].0, v);
    } else {
        lemma_args_text_longer(args.drop_last(), i, v);
        assert(u.drop_last() =~= args.drop_last().update(i, (args[i].0, Some(v))));
        assert(u.last() == args.last());
        match args.last().1 {
            None => {},
            Some(w) => {
                lemma_arg_text_nonempty(args.last().0, w);
            },
        }
    }
}

/// Omission: an absent argument leaves no trace in a call's text, which is
/// the text of the call without it; giving it a value changes the text, and
/// with it the key under which the call is recorded.
pub proof fn law_absent_argument_omitted(
    name: Seq<char>,
    args: Seq<(Seq<char>, Option<AssignmentView>)>,
    i: int,
    v: AssignmentView,
    operator: bool,
)
    requires
        0 <= i < args.len(),
        args[i].1 is None,
    ensures
        call_text(name, args, operator) == call_text(name, args.remove(i), operator),
        call_text(name, args.update(i, (args[i].0, Some(v))), operator) != call_text(name, args, operator),
{
    lemma_args_text_remove_absent(args, i);
    lemma_args_text_longer(args, i, v);
    let u = args.update(i, (args[i].0, Some(v)));
    assert(call_text(name, u, operator).len() > call_text(name, args, operator).len());
}

/// A call with no argument present is the inline literal `name()`: it
/// records nothing, however often and from wherever it is rendered.
pub proof fn law_no_argument_call_inline(
    s: FormatterView,
    name: Seq<char>,
    args: Seq<(Seq<char>, Option<AssignmentView>)>,
    operator: bool,
)
    requires
        !any_present(args),
    ensures
        call_spec(s, name, args, operator) == (s, AssignmentView::Inline { code: name + seq!['(', ')'] }),
        call_spec(call_spec(s, name, args, operator).0, name, args, operator) == call_spec(s, name, args, operator),
{
}

} // verus!
