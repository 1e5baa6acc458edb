//! Debug modifiers: background, highlight, root, disable.
use vstd::prelude::*;
use crate::ext::boolean_tree;
use crate::primitive::set::{Difference, Union};
use crate::object::{call_args_view, node_rendered, wrapped_tree, CallNode, Callee, CalleeView, IntoObject, Node, NodeView, Object, Operator, Wrapped};
use crate::scad::{Assignment, AssignmentView, Formatter, FormatterView, Import, Scad};
use crate::types::{opt_to_value, opt_value, Value};

verus! {

/// Ignore this subtree for the normal rendering process and draw it in transparent gray (all transformations are still applied to the nodes in this tree).
///
/// Because the marked subtree is completely ignored, it might have unexpected effects in case it's used, for example, with the first object in a difference(). In that case this object is rendered in transparent gray, but it is not used as the base for the difference()!
#[derive(Clone, Copy, Debug, PartialEq)]
pub struct Bg<const D: usize> {
}

impl<const D: usize> Default for Bg<D> {
    fn default() -> (r: Self)
        ensures
            r == (Bg::<D> {}),
    {
        Bg::<D> {}
    }
}

/// Ignore this subtree for the normal rendering process and draw it in transparent gray (all transformations are still applied to the nodes in this tree).
///
/// Because the marked subtree is completely ignored, it might have unexpected effects in case it's used, for example, with the first object in a difference(). In that case this object is rendered in transparent gray, but it is not used as the base for the difference()!
pub fn bg<const D: usize>() -> (r: Bg<D>)
    ensures
        r == (Bg::<D> {  }),
{
    Bg::<D>::default()
}

impl<const D: usize> Bg<D> {
    /// The call this value renders as.
    pub open spec fn spec_node(&self) -> NodeView {
        NodeView::Call {
            imports: seq![],
            callee: CalleeView::Template("() { %children(); }"@),
            args: seq![],
            operator: true,
        }
    }

    /// The node of the call this value renders as.
    pub fn to_node(&self) -> (r: Node)
        ensures
            r@ == self.spec_node(),
    {
        let imports: Vec<Import> = Vec::new();
        let args: Vec<(String, Option<Value>)> = Vec::new();
        let ghost iv = imports@;
        let ghost av = args@;
        let callee = Callee::Template(String::from_str("() { %children(); }"));
        let r = Node::Call(CallNode { imports, callee, args, operator: true });
        assert(iv.map_values(|i: Import| i@) =~= seq![]);
        assert(call_args_view(av) =~= seq![]);
        r
    }
}

impl<const D: usize> Scad for Bg<D> {
    open spec fn rendered(&self, s: FormatterView) -> (FormatterView, AssignmentView) {
        node_rendered(s, self.spec_node())
    }

    fn assign(&self, f: &mut Formatter) -> (r: Assignment) {
        self.to_node().assign_node(f)
    }
}

impl<const D: usize> IntoObject<D> for Bg<D> {
    open spec fn tree(&self) -> NodeView {
        self.spec_node()
    }

    fn into_object(self) -> (r: Object<D>) {
        Object::new(self.to_node())
    }
}

impl<T: IntoObject<D>, const D: usize> core::ops::Add<T> for Bg<D> {
    type Output = Object<D>;

    fn add(self, other: T) -> (r: Object<D>)
        ensures
            r@ == boolean_tree((Union::<D> {}).spec_node(), self.spec_node(), other.tree()),
    {
        self.into_object().union(other)
    }
}

impl<T: IntoObject<D>, const D: usize> vstd::std_specs::ops::AddSpecImpl<T> for Bg<D> {
    /// No value is stated here: the operator's own contract states the tree
    /// of its result.
    open spec fn obeys_add_spec() -> bool {
        false
    }

    open spec fn add_req(self, rhs: T) -> bool {
        true
    }

    open spec fn add_spec(self, rhs: T) -> Object<D> {
        arbitrary()
    }
}

impl<T: IntoObject<D>, const D: usize> core::ops::BitOr<T> for Bg<D> {
    type Output = Object<D>;

    fn bitor(self, other: T) -> (r: Object<D>)
        ensures
            r@ == boolean_tree((Union::<D> {}).spec_node(), self.spec_node(), other.tree()),
    {
        self.into_object().union(other)
    }
}

impl<T: IntoObject<D>, const D: usize> vstd::std_specs::ops::BitOrSpecImpl<T> for Bg<D> {
    /// No value is stated here: the operator's own contract states the tree
    /// of its result.
    open spec fn obeys_bitor_spec() -> bool {
        false
    }

    open spec fn bitor_req(self, rhs: T) -> bool {
        true
    }

    open spec fn bitor_spec(self, rhs: T) -> Object<D> {
        arbitrary()
    }
}

impl<T: IntoObject<D>, const D: usize> core::ops::Sub<T> for Bg<D> {
    type Output = Object<D>;

    fn sub(self, other: T) -> (r: Object<D>)
        ensures
            r@ == boolean_tree((Difference::<D> {}).spec_node(), self.spec_node(), other.tree()),
    {
        self.into_object().difference(other)
    }
}

impl<T: IntoObject<D>, const D: usize> vstd::std_specs::ops::SubSpecImpl<T> for Bg<D> {
    /// No value is stated here: the operator's own contract states the tree
    /// of its result.
    open spec fn obeys_sub_spec() -> bool {
        false
    }

    open spec fn sub_req(self, rhs: T) -> bool {
        true
    }

    open spec fn sub_spec(self, rhs: T) -> Object<D> {
        arbitrary()
    }
}

impl<F: Operator<D>, const D: usize> core::ops::Shr<F> for Bg<D> {
    type Output = F::Output;

    fn shr(self, f: F) -> (r: F::Output)
        ensures
            f.applied(self.spec_node(), r),
    {
        self.into_object().pipe(f)
    }
}

impl<F: Operator<D>, const D: usize> vstd::std_specs::ops::ShrSpecImpl<F> for Bg<D> {
    /// No value is stated here: the operator's own contract states the tree
    /// of its result.
    open spec fn obeys_shr_spec() -> bool {
        false
    }

    open spec fn shr_req(self, rhs: F) -> bool {
        true
    }

    open spec fn shr_spec(self, rhs: F) -> F::Output {
        arbitrary()
    }
}

impl<const D: usize> From<Bg<D>> for Object<D> {
    fn from(value: Bg<D>) -> (r: Object<D>)
        ensures
            r@ == value.spec_node(),
    {
        value.into_object()
    }
}

impl<const D: usize> vstd::std_specs::convert::FromSpecImpl<Bg<D>> for Object<D> {
    /// No value is stated here: the conversion's own contract states the
    /// tree of its result.
    open spec fn obeys_from_spec() -> bool {
        false
    }

    open spec fn from_spec(value: Bg<D>) -> Object<D> {
        arbitrary()
    }
}

impl<const D: usize> Operator<D> for Bg<D> {
    type Output = Object<D>;

    open spec fn applied(&self, child: NodeView, out: Object<D>) -> bool {
        out@ == wrapped_tree(self.spec_node(), child)
    }

    fn apply(self, object: Object<D>) -> (r: Object<D>) {
        let w: Wrapped<D, D> = Wrapped { parent: self.into_object(), child: object };
        w.into_object()
    }
}

/// Use this subtree as usual in the rendering process but also draw it unmodified in transparent pink.
#[derive(Clone, Copy, Debug, PartialEq)]
pub struct Dbg<const D: usize> {
}

impl<const D: usize> Default for Dbg<D> {
    fn default() -> (r: Self)
        ensures
            r == (Dbg::<D> {}),
    {
        Dbg::<D> {}
    }
}

/// Use this subtree as usual in the rendering process but also draw it unmodified in transparent pink.
pub fn dbg<const D: usize>() -> (r: Dbg<D>)
    ensures
        r == (Dbg::<D> {  }),
{
    Dbg::<D>::default()
}

impl<const D: usize> Dbg<D> {
    /// The call this value renders as.
    pub open spec fn spec_node(&self) -> NodeView {
        NodeView::Call {
            imports: seq![],
            callee: CalleeView::Template("() { #children(); }"@),
            args: seq![],
            operator: true,
        }
    }

    /// The node of the call this value renders as.
    pub fn to_node(&self) -> (r: Node)
        ensures
            r@ == self.spec_node(),
    {
        let imports: Vec<Import> = Vec::new();
        let args: Vec<(String, Option<Value>)> = Vec::new();
        let ghost iv = imports@;
        let ghost av = args@;
        let callee = Callee::Template(String::from_str("() { #children(); }"));
        let r = Node::Call(CallNode { imports, callee, args, operator: true });
        assert(iv.map_values(|i: Import| i@) =~= seq![]);
        assert(call_args_view(av) =~= seq![]);
        r
    }
}

impl<const D: usize> Scad for Dbg<D> {
    open spec fn rendered(&self, s: FormatterView) -> (FormatterView, AssignmentView) {
        node_rendered(s, self.spec_node())
    }

    fn assign(&self, f: &mut Formatter) -> (r: Assignment) {
        self.to_node().assign_node(f)
    }
}

impl<const D: usize> IntoObject<D> for Dbg<D> {
    open spec fn tree(&self) -> NodeView {
        self.spec_node()
    }

    fn into_object(self) -> (r: Object<D>) {
        Object::new(self.to_node())
    }
}

impl<T: IntoObject<D>, const D: usize> core::ops::Add<T> for Dbg<D> {
    type Output = Object<D>;

    fn add(self, other: T) -> (r: Object<D>)
        ensures
            r@ == boolean_tree((Union::<D> {}).spec_node(), self.spec_node(), other.tree()),
    {
        self.into_object().union(other)
    }
}

impl<T: IntoObject<D>, const D: usize> vstd::std_specs::ops::AddSpecImpl<T> for Dbg<D> {
    /// No value is stated here: the operator's own contract states the tree
    /// of its result.
    open spec fn obeys_add_spec() -> bool {
        false
    }

    open spec fn add_req(self, rhs: T) -> bool {
        true
    }

    open spec fn add_spec(self, rhs: T) -> Object<D> {
        arbitrary()
    }
}

impl<T: IntoObject<D>, const D: usize> core::ops::BitOr<T> for Dbg<D> {
    type Output = Object<D>;

    fn bitor(self, other: T) -> (r: Object<D>)
        ensures
            r@ == boolean_tree((Union::<D> {}).spec_node(), self.spec_node(), other.tree()),
    {
        self.into_object().union(other)
    }
}

impl<T: IntoObject<D>, const D: usize> vstd::std_specs::ops::BitOrSpecImpl<T> for Dbg<D> {
    /// No value is stated here: the operator's own contract states the tree
    /// of its result.
    open spec fn obeys_bitor_spec() -> bool {
        false
    }

    open spec fn bitor_req(self, rhs: T) -> bool {
        true
    }

    open spec fn bitor_spec(self, rhs: T) -> Object<D> {
        arbitrary()
    }
}

impl<T: IntoObject<D>, const D: usize> core::ops::Sub<T> for Dbg<D> {
    type Output = Object<D>;

    fn sub(self, other: T) -> (r: Object<D>)
        ensures
            r@ == boolean_tree((Difference::<D> {}).spec_node(), self.spec_node(), other.tree()),
    {
        self.into_object().difference(other)
    }
}

impl<T: IntoObject<D>, const D: usize> vstd::std_specs::ops::SubSpecImpl<T> for Dbg<D> {
    /// No value is stated here: the operator's own contract states the tree
    /// of its result.
    open spec fn obeys_sub_spec() -> bool {
        false
    }

    open spec fn sub_req(self, rhs: T) -> bool {
        true
    }

    open spec fn sub_spec(self, rhs: T) -> Object<D> {
        arbitrary()
    }
}

impl<F: Operator<D>, const D: usize> core::ops::Shr<F> for Dbg<D> {
    type Output = F::Output;

    fn shr(self, f: F) -> (r: F::Output)
        ensures
            f.applied(self.spec_node(), r),
    {
        self.into_object().pipe(f)
    }
}

impl<F: Operator<D>, const D: usize> vstd::std_specs::ops::ShrSpecImpl<F> for Dbg<D> {
    /// No value is stated here: the operator's own contract states the tree
    /// of its result.
    open spec fn obeys_shr_spec() -> bool {
        false
    }

    open spec fn shr_req(self, rhs: F) -> bool {
        true
    }

    open spec fn shr_spec(self, rhs: F) -> F::Output {
        arbitrary()
    }
}

impl<const D: usize> From<Dbg<D>> for Object<D> {
    fn from(value: Dbg<D>) -> (r: Object<D>)
        ensures
            r@ == value.spec_node(),
    {
        value.into_object()
    }
}

impl<const D: usize> vstd::std_specs::convert::FromSpecImpl<Dbg<D>> for Object<D> {
    /// No value is stated here: the conversion's own contract states the
    /// tree of its result.
    open spec fn obeys_from_spec() -> bool {
        false
    }

    open spec fn from_spec(value: Dbg<D>) -> Object<D> {
        arbitrary()
    }
}

impl<const D: usize> Operator<D> for Dbg<D> {
    type Output = Object<D>;

    open spec fn applied(&self, child: NodeView, out: Object<D>) -> bool {
        out@ == wrapped_tree(self.spec_node(), child)
    }

    fn apply(self, object: Object<D>) -> (r: Object<D>) {
        let w: Wrapped<D, D> = Wrapped { parent: self.into_object(), child: object };
        w.into_object()
    }
}

/// Simply ignore this entire subtree.
#[derive(Clone, Copy, Debug, PartialEq)]
pub struct Disable<const D: usize> {
}

impl<const D: usize> Default for Disable<D> {
    fn default() -> (r: Self)
        ensures
            r == (Disable::<D> {}),
    {
        Disable::<D> {}
    }
}

/// Simply ignore this entire subtree.
pub fn disable<const D: usize>() -> (r: Disable<D>)
    ensures
        r == (Disable::<D> {  }),
{
    Disable::<D>::default()
}

impl<const D: usize> Disable<D> {
    /// The call this value renders as.
    pub open spec fn spec_node(&self) -> NodeView {
        NodeView::Call {
            imports: seq![],
            callee: CalleeView::Template("() { *children(); }"@),
            args: seq![],
            operator: true,
        }
    }

    /// The node of the call this value renders as.
    pub fn to_node(&self) -> (r: Node)
        ensures
            r@ == self.spec_node(),
    {
        let imports: Vec<Import> = Vec::new();
        let args: Vec<(String, Option<Value>)> = Vec::new();
        let ghost iv = imports@;
        let ghost av = args@;
        let callee = Callee::Template(String::from_str("() { *children(); }"));
        let r = Node::Call(CallNode { imports, callee, args, operator: true });
        assert(iv.map_values(|i: Import| i@) =~= seq![]);
        assert(call_args_view(av) =~= seq![]);
        r
    }
}

impl<const D: usize> Scad for Disable<D> {
    open spec fn rendered(&self, s: FormatterView) -> (FormatterView, AssignmentView) {
        node_rendered(s, self.spec_node())
    }

    fn assign(&self, f: &mut Formatter) -> (r: Assignment) {
        self.to_node().assign_node(f)
    }
}

impl<const D: usize> IntoObject<D> for Disable<D> {
    open spec fn tree(&self) -> NodeView {
        self.spec_node()
    }

    fn into_object(self) -> (r: Object<D>) {
        Object::new(self.to_node())
    }
}

impl<T: IntoObject<D>, const D: usize> core::ops::Add<T> for Disable<D> {
    type Output = Object<D>;

    fn add(self, other: T) -> (r: Object<D>)
        ensures
            r@ == boolean_tree((Union::<D> {}).spec_node(), self.spec_node(), other.tree()),
    {
        self.into_object().union(other)
    }
}

impl<T: IntoObject<D>, const D: usize> vstd::std_specs::ops::AddSpecImpl<T> for Disable<D> {
    /// No value is stated here: the operator's own contract states the tree
    /// of its result.
    open spec fn obeys_add_spec() -> bool {
        false
    }

    open spec fn add_req(self, rhs: T) -> bool {
        true
    }

    open spec fn add_spec(self, rhs: T) -> Object<D> {
        arbitrary()
    }
}

impl<T: IntoObject<D>, const D: usize> core::ops::BitOr<T> for Disable<D> {
    type Output = Object<D>;

    fn bitor(self, other: T) -> (r: Object<D>)
        ensures
            r@ == boolean_tree((Union::<D> {}).spec_node(), self.spec_node(), other.tree()),
    {
        self.into_object().union(other)
    }
}

impl<T: IntoObject<D>, const D: usize> vstd::std_specs::ops::BitOrSpecImpl<T> for Disable<D> {
    /// No value is stated here: the operator's own contract states the tree
    /// of its result.
    open spec fn obeys_bitor_spec() -> bool {
        false
    }

    open spec fn bitor_req(self, rhs: T) -> bool {
        true
    }

    open spec fn bitor_spec(self, rhs: T) -> Object<D> {
        arbitrary()
    }
}

impl<T: IntoObject<D>, const D: usize> core::ops::Sub<T> for Disable<D> {
    type Output = Object<D>;

    fn sub(self, other: T) -> (r: Object<D>)
        ensures
            r@ == boolean_tree((Difference::<D> {}).spec_node(), self.spec_node(), other.tree()),
    {
        self.into_object().difference(other)
    }
}

impl<T: IntoObject<D>, const D: usize> vstd::std_specs::ops::SubSpecImpl<T> for Disable<D> {
    /// No value is stated here: the operator's own contract states the tree
    /// of its result.
    open spec fn obeys_sub_spec() -> bool {
        false
    }

    open spec fn sub_req(self, rhs: T) -> bool {
        true
    }

    open spec fn sub_spec(self, rhs: T) -> Object<D> {
        arbitrary()
    }
}

impl<F: Operator<D>, const D: usize> core::ops::Shr<F> for Disable<D> {
    type Output = F::Output;

    fn shr(self, f: F) -> (r: F::Output)
        ensures
            f.applied(self.spec_node(), r),
    {
        self.into_object().pipe(f)
    }
}

impl<F: Operator<D>, const D: usize> vstd::std_specs::ops::ShrSpecImpl<F> for Disable<D> {
    /// No value is stated here: the operator's own contract states the tree
    /// of its result.
    open spec fn obeys_shr_spec() -> bool {
        false
    }

    open spec fn shr_req(self, rhs: F) -> bool {
        true
    }

    open spec fn shr_spec(self, rhs: F) -> F::Output {
        arbitrary()
    }
}

impl<const D: usize> From<Disable<D>> for Object<D> {
    fn from(value: Disable<D>) -> (r: Object<D>)
        ensures
            r@ == value.spec_node(),
    {
        value.into_object()
    }
}

impl<const D: usize> vstd::std_specs::convert::FromSpecImpl<Disable<D>> for Object<D> {
    /// No value is stated here: the conversion's own contract states the
    /// tree of its result.
    open spec fn obeys_from_spec() -> bool {
        false
    }

    open spec fn from_spec(value: Disable<D>) -> Object<D> {
        arbitrary()
    }
}

impl<const D: usize> Operator<D> for Disable<D> {
    type Output = Object<D>;

    open spec fn applied(&self, child: NodeView, out: Object<D>) -> bool {
        out@ == wrapped_tree(self.spec_node(), child)
    }

    fn apply(self, object: Object<D>) -> (r: Object<D>) {
        let w: Wrapped<D, D> = Wrapped { parent: self.into_object(), child: object };
        w.into_object()
    }
}

/// Ignore the rest of the design and use this subtree as design root.
#[derive(Clone, Copy, Debug, PartialEq)]
pub struct Root<const D: usize> {
}

impl<const D: usize> Default for Root<D> {
    fn default() -> (r: Self)
        ensures
            r == (Root::<D> {}),
    {
        Root::<D> {}
    }
}

/// Ignore the rest of the design and use this subtree as design root.
pub fn root<const D: usize>() -> (r: Root<D>)
    ensures
        r == (Root::<D> {  }),
{
    Root::<D>::default()
}

impl<const D: usize> Root<D> {
    /// The call this value renders as.
    pub open spec fn spec_node(&self) -> NodeView {
        NodeView::Call {
            imports: seq![],
            callee: CalleeView::Template("() { !children(); }"@),
            args: seq![],
            operator: true,
        }
    }

    /// The node of the call this value renders as.
    pub fn to_node(&self) -> (r: Node)
        ensures
            r@ == self.spec_node(),
    {
        let imports: Vec<Import> = Vec::new();
        let args: Vec<(String, Option<Value>)> = Vec::new();
        let ghost iv = imports@;
        let ghost av = args@;
        let callee = Callee::Template(String::from_str("() { !children(); }"));
        let r = Node::Call(CallNode { imports, callee, args, operator: true });
        assert(iv.map_values(|i: Import| i@) =~= seq![]);
        assert(call_args_view(av) =~= seq![]);
        r
    }
}

impl<const D: usize> Scad for Root<D> {
    open spec fn rendered(&self, s: FormatterView) -> (FormatterView, AssignmentView) {
        node_rendered(s, self.spec_node())
    }

    fn assign(&self, f: &mut Formatter) -> (r: Assignment) {
        self.to_node().assign_node(f)
    }
}

impl<const D: usize> IntoObject<D> for Root<D> {
    open spec fn tree(&self) -> NodeView {
        self.spec_node()
    }

    fn into_object(self) -> (r: Object<D>) {
        Object::new(self.to_node())
    }
}

impl<T: IntoObject<D>, const D: usize> core::ops::Add<T> for Root<D> {
    type Output = Object<D>;

    fn add(self, other: T) -> (r: Object<D>)
        ensures
            r@ == boolean_tree((Union::<D> {}).spec_node(), self.spec_node(), other.tree()),
    {
        self.into_object().union(other)
    }
}

impl<T: IntoObject<D>, const D: usize> vstd::std_specs::ops::AddSpecImpl<T> for Root<D> {
    /// No value is stated here: the operator's own contract states the tree
    /// of its result.
    open spec fn obeys_add_spec() -> bool {
        false
    }

    open spec fn add_req(self, rhs: T) -> bool {
        true
    }

    open spec fn add_spec(self, rhs: T) -> Object<D> {
        arbitrary()
    }
}

impl<T: IntoObject<D>, const D: usize> core::ops::BitOr<T> for Root<D> {
    type Output = Object<D>;

    fn bitor(self, other: T) -> (r: Object<D>)
        ensures
            r@ == boolean_tree((Union::<D> {}).spec_node(), self.spec_node(), other.tree()),
    {
        self.into_object().union(other)
    }
}

impl<T: IntoObject<D>, const D: usize> vstd::std_specs::ops::BitOrSpecImpl<T> for Root<D> {
    /// No value is stated here: the operator's own contract states the tree
    /// of its result.
    open spec fn obeys_bitor_spec() -> bool {
        false
    }

    open spec fn bitor_req(self, rhs: T) -> bool {
        true
    }

    open spec fn bitor_spec(self, rhs: T) -> Object<D> {
        arbitrary()
    }
}

impl<T: IntoObject<D>, const D: usize> core::ops::Sub<T> for Root<D> {
    type Output = Object<D>;

    fn sub(self, other: T) -> (r: Object<D>)
        ensures
            r@ == boolean_tree((Difference::<D> {}).spec_node(), self.spec_node(), other.tree()),
    {
        self.into_object().difference(other)
    }
}

impl<T: IntoObject<D>, const D: usize> vstd::std_specs::ops::SubSpecImpl<T> for Root<D> {
    /// No value is stated here: the operator's own contract states the tree
    /// of its result.
    open spec fn obeys_sub_spec() -> bool {
        false
    }

    open spec fn sub_req(self, rhs: T) -> bool {
        true
    }

    open spec fn sub_spec(self, rhs: T) -> Object<D> {
        arbitrary()
    }
}

impl<F: Operator<D>, const D: usize> core::ops::Shr<F> for Root<D> {
    type Output = F::Output;

    fn shr(self, f: F) -> (r: F::Output)
        ensures
            f.applied(self.spec_node(), r),
    {
        self.into_object().pipe(f)
    }
}

impl<F: Operator<D>, const D: usize> vstd::std_specs::ops::ShrSpecImpl<F> for Root<D> {
    /// No value is stated here: the operator's own contract states the tree
    /// of its result.
    open spec fn obeys_shr_spec() -> bool {
        false
    }

    open spec fn shr_req(self, rhs: F) -> bool {
        true
    }

    open spec fn shr_spec(self, rhs: F) -> F::Output {
        arbitrary()
    }
}

impl<const D: usize> From<Root<D>> for Object<D> {
    fn from(value: Root<D>) -> (r: Object<D>)
        ensures
            r@ == value.spec_node(),
    {
        value.into_object()
    }
}

impl<const D: usize> vstd::std_specs::convert::FromSpecImpl<Root<D>> for Object<D> {
    /// No value is stated here: the conversion's own contract states the
    /// tree of its result.
    open spec fn obeys_from_spec() -> bool {
        false
    }

    open spec fn from_spec(value: Root<D>) -> Object<D> {
        arbitrary()
    }
}

impl<const D: usize> Operator<D> for Root<D> {
    type Output = Object<D>;

    open spec fn applied(&self, child: NodeView, out: Object<D>) -> bool {
        out@ == wrapped_tree(self.spec_node(), child)
    }

    fn apply(self, object: Object<D>) -> (r: Object<D>) {
        let w: Wrapped<D, D> = Wrapped { parent: self.into_object(), child: object };
        w.into_object()
    }
}

} // verus!
