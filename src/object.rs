//! The object tree: shared, immutable nodes, and how a tree is rendered.
use vstd::prelude::*;
use std::sync::Arc;
use crate::scad::{
    args_view, call_spec, emit_spec, ref_text, Assignment, AssignmentType, AssignmentView, Formatter,
    FormatterView, Import, ImportView, Scad,
};
use crate::types::{opt_value_view, quoted, value_rendered, Value, ValueView};

verus! {

/// What a call is named by.
pub enum CalleeView {
    /// A builtin, called by its name.
    Named(Seq<char>),
    /// A module body, recorded first and called through its handle.
    Template(Seq<char>),
}

/// What a node of the tree denotes.
pub enum NodeView {
    /// A call with keyed arguments, after bringing in `imports`; an operator
    /// call applies to the block that follows it.
    Call {
        imports: Seq<ImportView>,
        callee: CalleeView,
        args: Seq<(Seq<char>, Option<ValueView>)>,
        operator: bool,
    },
    /// `parent` applied to `child`.
    Wrapped { parent: Box<NodeView>, child: Box<NodeView> },
    /// Two statements grouped in braces.
    Block { first: Box<NodeView>, second: Box<NodeView> },
    /// A shape read from a file.
    Import { path: Seq<char> },
}

/// Records each present argument value in order, keeping the keys.
pub open spec fn args_rendered(s: FormatterView, args: Seq<(Seq<char>, Option<ValueView>)>) -> (
    FormatterView,
    Seq<(Seq<char>, Option<AssignmentView>)>,
)
    decreases args.len(),
{
    if args.len() == 0 {
        (s, seq![])
    } else {
        let (s1, rs) = args_rendered(s, args.drop_last());
        match args.last().1 {
            None => (s1, rs.push((args.last().0, None))),
            Some(v) => {
                let (s2, a) = value_rendered(s1, v);
                (s2, rs.push((args.last().0, Some(a))))
            },
        }
    }
}

/// Requests the imports, records a template callee, then the argument
/// values, then the call.
pub open spec fn call_rendered(
    s: FormatterView,
    imports: Seq<ImportView>,
    callee: CalleeView,
    args: Seq<(Seq<char>, Option<ValueView>)>,
    operator: bool,
) -> (FormatterView, AssignmentView) {
    let s1 = FormatterView { imports: s.imports + imports, ..s };
    let (s2, name) = match callee {
        CalleeView::Named(n) => (s1, n),
        CalleeView::Template(t) => {
            let (s2, a) = emit_spec(s1, t, AssignmentType::Module);
            (s2, ref_text(a))
        },
    };
    let (s3, refs) = args_rendered(s2, args);
    call_spec(s3, name, refs, operator)
}

/// `parent-reference child-reference`, the text of an applied operator.
pub open spec fn wrapped_text(parent: AssignmentView, child: AssignmentView) -> Seq<char> {
    ref_text(parent) + seq![' '] + ref_text(child)
}

/// `{ a; b; }`, the text of a block.
pub open spec fn block_text(a: AssignmentView, b: AssignmentView) -> Seq<char> {
    seq!['{', ' '] + ref_text(a) + seq![';', ' '] + ref_text(b) + seq![';', ' ', '}']
}

/// `import("path")`, the text of a file import.
pub open spec fn import_text(path: Seq<char>) -> Seq<char> {
    seq!['i', 'm', 'p', 'o', 'r', 't', '('] + quoted(path) + seq![')']
}

/// Renders a tree from state `s`, children before parents: a wrapped node
/// renders its child, then its parent, then records the pair as a call; a
/// block renders both statements and is an inline literal.
pub open spec fn node_rendered(s: FormatterView, n: NodeView) -> (FormatterView, AssignmentView)
    decreases n,
{
    match n {
        NodeView::Call { imports, callee, args, operator } => call_rendered(s, imports, callee, args, operator),
        NodeView::Wrapped { parent, child } => {
            let (s1, c) = node_rendered(s, *child);
            let (s2, p) = node_rendered(s1, *parent);
            emit_spec(s2, wrapped_text(p, c), AssignmentType::Call)
        },
        NodeView::Block { first, second } => {
            let (s1, a) = node_rendered(s, *first);
            let (s2, b) = node_rendered(s1, *second);
            (s2, AssignmentView::Inline { code: block_text(a, b) })
        },
        NodeView::Import { path } => emit_spec(s, import_text(path), AssignmentType::Call),
    }
}

/// What names a call.
#[derive(Debug)]
pub enum Callee {
    Named(String),
    Template(String),
}

/// A call node: a builtin or template with keyed, optional arguments.
#[derive(Debug)]
pub struct CallNode {
    pub imports: Vec<Import>,
    pub callee: Callee,
    pub args: Vec<(String, Option<Value>)>,
    pub operator: bool,
}

/// A node of the object tree; children are shared.
#[derive(Debug)]
pub enum Node {
    Call(CallNode),
    Wrapped(Arc<Node>, Arc<Node>),
    Block(Arc<Node>, Arc<Node>),
    Import(String),
}

pub open spec fn callee_view(c: Callee) -> CalleeView {
    match c {
        Callee::Named(n) => CalleeView::Named(n@),
        Callee::Template(t) => CalleeView::Template(t@),
    }
}

pub open spec fn call_args_view(args: Seq<(String, Option<Value>)>) -> Seq<(Seq<char>, Option<ValueView>)> {
    args.map_values(|a: (String, Option<Value>)| (a.0@, opt_value_view(a.1)))
}

pub open spec fn node_view(n: Node) -> NodeView
    decreases n,
{
    match n {
        Node::Call(c) => NodeView::Call {
            imports: c.imports@.map_values(|i: Import| i@),
            callee: callee_view(c.callee),
            args: call_args_view(c.args@),
            operator: c.operator,
        },
        Node::Wrapped(p, c) => NodeView::Wrapped {
            parent: Box::new(node_view(*p)),
            child: Box::new(node_view(*c)),
        },
        Node::Block(a, b) => NodeView::Block {
            first: Box::new(node_view(*a)),
            second: Box::new(node_view(*b)),
        },
        Node::Import(p) => NodeView::Import { path: p@ },
    }
}

impl View for Node {
    type V = NodeView;

    open spec fn view(&self) -> NodeView {
        node_view(*self)
    }
}

fn assign_call(c: &CallNode, f: &mut Formatter) -> (r: Assignment)
    requires
        old(f)@.wf(),
    ensures
        final(f)@.wf(),
        (final(f)@, r@) == call_rendered(
            old(f)@,
            c.imports@.map_values(|i: Import| i@),
            callee_view(c.callee),
            call_args_view(c.args@),
            c.operator,
        ),
{
    let ghost s = f@;
    let ghost imps = c.imports@.map_values(|i: Import| i@);
    let n = c.imports.len();
    let mut i: usize = 0;
    while i < n
        invariant
            n == c.imports@.len(),
            imps == c.imports@.map_values(|i: Import| i@),
            i <= n,
            f@.wf(),
            f@ == (FormatterView { imports: s.imports + imps.take(i as int), ..s }),
        decreases n - i,
    {
        match &c.imports[i] {
            Import::Use(p) => f.uses(p.clone()),
            Import::Include(p) => f.includes(p.clone()),
        }
        assert(s.imports + imps.take(i as int + 1) =~= (s.imports + imps.take(i as int)).push(imps[i as int]));
        i = i + 1;
    }
    assert(imps.take(n as int) =~= imps);
    let name = match &c.callee {
        Callee::Named(n) => n.clone(),
        Callee::Template(t) => {
            let a = f.module(t.clone());
            a.to_scad()
        },
    };
    let ghost s2 = f@;
    let ghost av = call_args_view(c.args@);
    let mut argv: Vec<(&str, Option<Assignment>)> = Vec::new();
    let m = c.args.len();
    let mut j: usize = 0;
    while j < m
        invariant
            m == c.args@.len(),
            av == call_args_view(c.args@),
            j <= m,
            f@.wf(),
            (f@, args_view(argv@)) == args_rendered(s2, av.take(j as int)),
        decreases m - j,
    {
        let key = c.args[j].0.as_str();
        let ghost before = argv@;
        let ghost sj = f@;
        proof {
            assert(av.take(j as int + 1).drop_last() =~= av.take(j as int));
            assert(av.take(j as int + 1).last() == av[j as int]);
            assert(av[j as int] == (c.args@[j as int].0@, opt_value_view(c.args@[j as int].1)));
        }
        match &c.args[j].1 {
            Some(v) => {
                let a = v.assign(f);
                argv.push((key, Some(a)));
                proof {
                    assert(args_view(argv@) =~= args_view(before).push((key@, Some(a@))));
                }
            },
            None => {
                argv.push((key, None));
                proof {
                    assert(args_view(argv@) =~= args_view(before).push((key@, None)));
                }
            },
        }
        j = j + 1;
    }
    assert(av.take(m as int) =~= av);
    f.call(name.as_str(), argv.as_slice(), c.operator)
}

impl Node {
    /// Renders this node and everything under it into `f`.
    pub fn assign_node(&self, f: &mut Formatter) -> (r: Assignment)
        requires
            old(f)@.wf(),
        ensures
            final(f)@.wf(),
            (final(f)@, r@) == node_rendered(old(f)@, self@),
        decreases self,
    {
        match self {
            Node::Call(c) => assign_call(c, f),
            Node::Wrapped(p, c) => {
                let child = c.assign_node(f);
                let parent = p.assign_node(f);
                let mut t = parent.to_scad();
                proof { reveal_strlit(" "); }
                t.append(" ");
                let ct = child.to_scad();
                t.append(ct.as_str());
                assert(t@ =~= wrapped_text(parent@, child@));
                f.emit(t, AssignmentType::Call)
            },
            Node::Block(a, b) => {
                let first = a.assign_node(f);
                let second = b.assign_node(f);
                let mut t = String::new();
                proof {
                    reveal_strlit("{ ");
                    reveal_strlit("; ");
                    reveal_strlit("; }");
                }
                t.append("{ ");
                let at = first.to_scad();
                t.append(at.as_str());
                t.append("; ");
                let bt = second.to_scad();
                t.append(bt.as_str());
                t.append("; }");
                assert(t@ =~= block_text(first@, second@));
                Assignment::Inline { code: t }
            },
            Node::Import(path) => {
                let mut t = String::new();
                proof {
                    reveal_strlit("import(");
                    reveal_strlit(")");
                }
                t.append("import(");
                let q = crate::types::quote_text(path.as_str());
                t.append(q.as_str());
                t.append(")");
                assert(t@ =~= import_text(path@));
                f.emit(t, AssignmentType::Call)
            },
        }
    }
}

/// A shape of dimension `D`: a shared handle on an immutable node. Cloning
/// shares the node.
#[derive(Debug)]
pub struct Object<const D: usize> {
    node: Arc<Node>,
}

impl<const D: usize> View for Object<D> {
    type V = NodeView;

    closed spec fn view(&self) -> NodeView {
        node_view(*self.node)
    }
}

impl<const D: usize> Clone for Object<D> {
    fn clone(&self) -> (r: Self)
        ensures
            r@ == self@,
    {
        Object { node: Arc::clone(&self.node) }
    }
}

impl<const D: usize> Object<D> {
    /// Wraps a node.
    pub fn new(node: Node) -> (r: Object<D>)
        ensures
            r@ == node@,
    {
        Object { node: Arc::new(node) }
    }

    /// A node that shares this object's node.
    pub fn shared_node(&self) -> (r: Arc<Node>)
        ensures
            (*r)@ == self@,
    {
        Arc::clone(&self.node)
    }

    /// `op` applied to this object: the single primitive behind every
    /// transform, extrusion and boolean.
    pub fn pipe<F: Operator<D>>(self, op: F) -> (r: F::Output)
        ensures
            op.applied(self@, r),
    {
        op.apply(self)
    }
}

impl<const D: usize> Scad for Object<D> {
    open spec fn rendered(&self, s: FormatterView) -> (FormatterView, AssignmentView) {
        node_rendered(s, self@)
    }

    fn assign(&self, f: &mut Formatter) -> (r: Assignment) {
        self.node.assign_node(f)
    }
}

/// What turns into an object of dimension `D`.
pub trait IntoObject<const D: usize>: Sized {
    /// The tree of the object it turns into.
    spec fn tree(&self) -> NodeView;

    fn into_object(self) -> (r: Object<D>)
        ensures
            r@ == self.tree(),
    ;
}

impl<const D: usize> IntoObject<D> for Object<D> {
    open spec fn tree(&self) -> NodeView {
        self@
    }

    fn into_object(self) -> (r: Object<D>) {
        self
    }
}

impl<'a, const D: usize> IntoObject<D> for &'a Object<D> {
    open spec fn tree(&self) -> NodeView {
        (**self)@
    }

    fn into_object(self) -> (r: Object<D>) {
        self.clone()
    }
}

/// A transform, extrusion or boolean that applies to an object of dimension
/// `D`.
pub trait Operator<const D: usize>: Sized {
    type Output;

    /// `out` is this operator applied to a child with tree `child`.
    spec fn applied(&self, child: NodeView, out: Self::Output) -> bool;

    fn apply(self, object: Object<D>) -> (r: Self::Output)
        ensures
            self.applied(object@, r),
    ;
}

/// The tree of `parent` applied to `child`.
pub open spec fn wrapped_tree(parent: NodeView, child: NodeView) -> NodeView {
    NodeView::Wrapped { parent: Box::new(parent), child: Box::new(child) }
}

/// The tree of two statements grouped in a block.
pub open spec fn block_tree(first: NodeView, second: NodeView) -> NodeView {
    NodeView::Block { first: Box::new(first), second: Box::new(second) }
}

/// An operator applied to a child: the parent renders as a template called on
/// the child.
#[derive(Debug)]
pub struct Wrapped<const DIN: usize, const DOUT: usize> {
    pub parent: Object<DOUT>,
    pub child: Object<DIN>,
}

impl<const DIN: usize, const DOUT: usize> Clone for Wrapped<DIN, DOUT> {
    fn clone(&self) -> (r: Self)
        ensures
            r.parent@ == self.parent@,
            r.child@ == self.child@,
    {
        Wrapped { parent: self.parent.clone(), child: self.child.clone() }
    }
}

impl<const DIN: usize, const DOUT: usize> Scad for Wrapped<DIN, DOUT> {
    open spec fn rendered(&self, s: FormatterView) -> (FormatterView, AssignmentView) {
        node_rendered(s, wrapped_tree(self.parent@, self.child@))
    }

    fn assign(&self, f: &mut Formatter) -> (r: Assignment) {
        let n = Node::Wrapped(self.parent.shared_node(), self.child.shared_node());
        n.assign_node(f)
    }
}

impl<const DIN: usize, const DOUT: usize> IntoObject<DOUT> for Wrapped<DIN, DOUT> {
    open spec fn tree(&self) -> NodeView {
        wrapped_tree(self.parent@, self.child@)
    }

    fn into_object(self) -> (r: Object<DOUT>) {
        Object::new(Node::Wrapped(self.parent.shared_node(), self.child.shared_node()))
    }
}

/// Two objects grouped as one child, for a boolean to apply to.
#[derive(Debug)]
pub struct Block<const D: usize>(pub Object<D>, pub Object<D>);

impl<const D: usize> Clone for Block<D> {
    fn clone(&self) -> (r: Self)
        ensures
            r.0@ == self.0@,
            r.1@ == self.1@,
    {
        Block(self.0.clone(), self.1.clone())
    }
}

impl<const D: usize> Scad for Block<D> {
    open spec fn rendered(&self, s: FormatterView) -> (FormatterView, AssignmentView) {
        node_rendered(s, block_tree(self.0@, self.1@))
    }

    fn assign(&self, f: &mut Formatter) -> (r: Assignment) {
        let n = Node::Block(self.0.shared_node(), self.1.shared_node());
        n.assign_node(f)
    }
}

impl<const D: usize> IntoObject<D> for Block<D> {
    open spec fn tree(&self) -> NodeView {
        block_tree(self.0@, self.1@)
    }

    fn into_object(self) -> (r: Object<D>) {
        Object::new(Node::Block(self.0.shared_node(), self.1.shared_node()))
    }
}

} // verus!
