//! Subtrees shown in preview only.
use vstd::prelude::*;
use crate::ext::boolean_tree;
use crate::primitive::set::{Difference, Union};
use crate::object::{call_args_view, node_rendered, wrapped_tree, CallNode, Callee, CalleeView, IntoObject, Node, NodeView, Object, Operator, Wrapped};
use crate::scad::{Assignment, AssignmentView, Formatter, FormatterView, Import, Scad};
use crate::types::{opt_to_value, opt_value, Value};

verus! {

/// Only renders the subtree in preview mode
#[derive(Clone, Copy, Debug, PartialEq)]
pub struct InPreview<const D: usize> {
}

impl<const D: usize> Default for InPreview<D> {
    fn default() -> (r: Self)
        ensures
            r == (InPreview::<D> {}),
    {
        InPreview::<D> {}
    }
}

/// Only renders the subtree in preview mode
pub fn in_preview<const D: usize>() -> (r: InPreview<D>)
    ensures
        r == (InPreview::<D> {  }),
{
    InPreview::<D>::default()
}

impl<const D: usize> InPreview<D> {
    /// The call this value renders as.
    pub open spec fn spec_node(&self) -> NodeView {
        NodeView::Call {
            imports: seq![],
            callee: CalleeView::Template("() { if($preview) { children(); } }"@),
            args: seq![],
            operator: true,
        }
    }

    /// The node of the call this value renders as.
    pub fn to_node(&self) -> (r: Node)
        ensures
            r@ == self.spec_node(),
    {
        let imports: Vec<Import> = Vec::new();
        let args: Vec<(String, Option<Value>)> = Vec::new();
        let ghost iv = imports@;
        let ghost av = args@;
        let callee = Callee::Template(String::from_str("() { if($preview) { children(); } }"));
        let r = Node::Call(CallNode { imports, callee, args, operator: true });
        assert(iv.map_values(|i: Import| i@) =~= seq![]);
        assert(call_args_view(av) =~= seq![]);
        r
    }
}

impl<const D: usize> Scad for InPreview<D> {
    open spec fn rendered(&self, s: FormatterView) -> (FormatterView, AssignmentView) {
        node_rendered(s, self.spec_node())
    }

    fn assign(&self, f: &mut Formatter) -> (r: Assignment) {
        self.to_node().assign_node(f)
    }
}

impl<const D: usize> IntoObject<D> for InPreview<D> {
    open spec fn tree(&self) -> NodeView {
        self.spec_node()
    }

    fn into_object(self) -> (r: Object<D>) {
        Object::new(self.to_node())
    }
}

impl<T: IntoObject<D>, const D: usize> core::ops::Add<T> for InPreview<D> {
    type Output = Object<D>;

    fn add(self, other: T) -> (r: Object<D>)
        ensures
            r@ == boolean_tree((Union::<D> {}).spec_node(), self.spec_node(), other.tree()),
    {
        self.into_object().union(other)
    }
}

impl<T: IntoObject<D>, const D: usize> vstd::std_specs::ops::AddSpecImpl<T> for InPreview<D> {
    /// No value is stated here: the operator's own contract states the tree
    /// of its result.
    open spec fn obeys_add_spec() -> bool {
        false
    }

    open spec fn add_req(self, rhs: T) -> bool {
        true
    }

    open spec fn add_spec(self, rhs: T) -> Object<D> {
        arbitrary()
    }
}

impl<T: IntoObject<D>, const D: usize> core::ops::BitOr<T> for InPreview<D> {
    type Output = Object<D>;

    fn bitor(self, other: T) -> (r: Object<D>)
        ensures
            r@ == boolean_tree((Union::<D> {}).spec_node(), self.spec_node(), other.tree()),
    {
        self.into_object().union(other)
    }
}

impl<T: IntoObject<D>, const D: usize> vstd::std_specs::ops::BitOrSpecImpl<T> for InPreview<D> {
    /// No value is stated here: the operator's own contract states the tree
    /// of its result.
    open spec fn obeys_bitor_spec() -> bool {
        false
    }

    open spec fn bitor_req(self, rhs: T) -> bool {
        true
    }

    open spec fn bitor_spec(self, rhs: T) -> Object<D> {
        arbitrary()
    }
}

impl<T: IntoObject<D>, const D: usize> core::ops::Sub<T> for InPreview<D> {
    type Output = Object<D>;

    fn sub(self, other: T) -> (r: Object<D>)
        ensures
            r@ == boolean_tree((Difference::<D> {}).spec_node(), self.spec_node(), other.tree()),
    {
        self.into_object().difference(other)
    }
}

impl<T: IntoObject<D>, const D: usize> vstd::std_specs::ops::SubSpecImpl<T> for InPreview<D> {
    /// No value is stated here: the operator's own contract states the tree
    /// of its result.
    open spec fn obeys_sub_spec() -> bool {
        false
    }

    open spec fn sub_req(self, rhs: T) -> bool {
        true
    }

    open spec fn sub_spec(self, rhs: T) -> Object<D> {
        arbitrary()
    }
}

impl<F: Operator<D>, const D: usize> core::ops::Shr<F> for InPreview<D> {
    type Output = F::Output;

    fn shr(self, f: F) -> (r: F::Output)
        ensures
            f.applied(self.spec_node(), r),
    {
        self.into_object().pipe(f)
    }
}

impl<F: Operator<D>, const D: usize> vstd::std_specs::ops::ShrSpecImpl<F> for InPreview<D> {
    /// No value is stated here: the operator's own contract states the tree
    /// of its result.
    open spec fn obeys_shr_spec() -> bool {
        false
    }

    open spec fn shr_req(self, rhs: F) -> bool {
        true
    }

    open spec fn shr_spec(self, rhs: F) -> F::Output {
        arbitrary()
    }
}

impl<const D: usize> From<InPreview<D>> for Object<D> {
    fn from(value: InPreview<D>) -> (r: Object<D>)
        ensures
            r@ == value.spec_node(),
    {
        value.into_object()
    }
}

impl<const D: usize> vstd::std_specs::convert::FromSpecImpl<InPreview<D>> for Object<D> {
    /// No value is stated here: the conversion's own contract states the
    /// tree of its result.
    open spec fn obeys_from_spec() -> bool {
        false
    }

    open spec fn from_spec(value: InPreview<D>) -> Object<D> {
        arbitrary()
    }
}

impl<const D: usize> Operator<D> for InPreview<D> {
    type Output = Object<D>;

    open spec fn applied(&self, child: NodeView, out: Object<D>) -> bool {
        out@ == wrapped_tree(self.spec_node(), child)
    }

    fn apply(self, object: Object<D>) -> (r: Object<D>) {
        let w: Wrapped<D, D> = Wrapped { parent: self.into_object(), child: object };
        w.into_object()
    }
}

} // verus!
