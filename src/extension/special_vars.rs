//! Fragment settings for the subtree.
use vstd::prelude::*;
use crate::ext::boolean_tree;
use crate::primitive::set::{Difference, Union};
use crate::object::{call_args_view, node_rendered, wrapped_tree, CallNode, Callee, CalleeView, IntoObject, Node, NodeView, Object, Operator, Wrapped};
use crate::scad::{Assignment, AssignmentView, Formatter, FormatterView, Import, Scad};
use crate::types::{opt_to_value, opt_value, Angle, Length, Scalar};

verus! {

/// The minimum angle for a fragment.
///
/// Even a huge circle does not have more fragments than 360 divided by this number. The default value is 12 (i.e. 30 fragments for a full circle). The minimum allowed value is 0.01. Attempting to set a lower value causes a warning.
#[derive(Clone, Copy, Debug, PartialEq)]
pub struct FragmentAngle<const D: usize> {
    pub angle: Option<Angle>,
    pub preview: Option<Angle>,
}

impl<const D: usize> Default for FragmentAngle<D> {
    fn default() -> (r: Self)
        ensures
            r == (FragmentAngle::<D> { angle: None, preview: None }),
    {
        FragmentAngle::<D> { angle: None, preview: None }
    }
}

pub fn fragment_angle<const D: usize>(angle: Angle) -> (r: FragmentAngle<D>)
    ensures
        r == (FragmentAngle::<D> { angle: Some(angle), preview: None }),
{
    FragmentAngle::<D>::default().angle(angle)
}

impl<const D: usize> FragmentAngle<D> {
    pub fn angle(self, angle: Angle) -> (r: Self)
        ensures
            r == (FragmentAngle::<D> { angle: Some(angle), ..self }),
    {
        FragmentAngle::<D> { angle: Some(angle), ..self }
    }

    pub fn preview(self, preview: Angle) -> (r: Self)
        ensures
            r == (FragmentAngle::<D> { preview: Some(preview), ..self }),
    {
        FragmentAngle::<D> { preview: Some(preview), ..self }
    }

    /// The call this value renders as.
    pub open spec fn spec_node(&self) -> NodeView {
        NodeView::Call {
            imports: seq![],
            callee: CalleeView::Template("(v=12, p=undef) { $fa = ($preview && !is_undef(p)) ? p : v; children(); }"@),
            args: seq![("v"@, opt_value(self.angle)), ("p"@, opt_value(self.preview))],
            operator: true,
        }
    }

    /// The node of the call this value renders as.
    pub fn to_node(&self) -> (r: Node)
        ensures
            r@ == self.spec_node(),
    {
        let imports: Vec<Import> = Vec::new();
        let args = vec![(String::from_str("v"), opt_to_value(&self.angle)), (String::from_str("p"), opt_to_value(&self.preview))];
        let ghost iv = imports@;
        let ghost av = args@;
        let callee = Callee::Template(String::from_str("(v=12, p=undef) { $fa = ($preview && !is_undef(p)) ? p : v; children(); }"));
        let r = Node::Call(CallNode { imports, callee, args, operator: true });
        assert(iv.map_values(|i: Import| i@) =~= seq![]);
        assert(call_args_view(av) =~= seq![("v"@, opt_value(self.angle)), ("p"@, opt_value(self.preview))]);
        r
    }
}

impl<const D: usize> Scad for FragmentAngle<D> {
    open spec fn rendered(&self, s: FormatterView) -> (FormatterView, AssignmentView) {
        node_rendered(s, self.spec_node())
    }

    fn assign(&self, f: &mut Formatter) -> (r: Assignment) {
        self.to_node().assign_node(f)
    }
}

impl<const D: usize> IntoObject<D> for FragmentAngle<D> {
    open spec fn tree(&self) -> NodeView {
        self.spec_node()
    }

    fn into_object(self) -> (r: Object<D>) {
        Object::new(self.to_node())
    }
}

impl<T: IntoObject<D>, const D: usize> core::ops::Add<T> for FragmentAngle<D> {
    type Output = Object<D>;

    fn add(self, other: T) -> (r: Object<D>)
        ensures
            r@ == boolean_tree((Union::<D> {}).spec_node(), self.spec_node(), other.tree()),
    {
        self.into_object().union(other)
    }
}

impl<T: IntoObject<D>, const D: usize> vstd::std_specs::ops::AddSpecImpl<T> for FragmentAngle<D> {
    /// No value is stated here: the operator's own contract states the tree
    /// of its result.
    open spec fn obeys_add_spec() -> bool {
        false
    }

    open spec fn add_req(self, rhs: T) -> bool {
        true
    }

    open spec fn add_spec(self, rhs: T) -> Object<D> {
        arbitrary()
    }
}

impl<T: IntoObject<D>, const D: usize> core::ops::BitOr<T> for FragmentAngle<D> {
    type Output = Object<D>;

    fn bitor(self, other: T) -> (r: Object<D>)
        ensures
            r@ == boolean_tree((Union::<D> {}).spec_node(), self.spec_node(), other.tree()),
    {
        self.into_object().union(other)
    }
}

impl<T: IntoObject<D>, const D: usize> vstd::std_specs::ops::BitOrSpecImpl<T> for FragmentAngle<D> {
    /// No value is stated here: the operator's own contract states the tree
    /// of its result.
    open spec fn obeys_bitor_spec() -> bool {
        false
    }

    open spec fn bitor_req(self, rhs: T) -> bool {
        true
    }

    open spec fn bitor_spec(self, rhs: T) -> Object<D> {
        arbitrary()
    }
}

impl<T: IntoObject<D>, const D: usize> core::ops::Sub<T> for FragmentAngle<D> {
    type Output = Object<D>;

    fn sub(self, other: T) -> (r: Object<D>)
        ensures
            r@ == boolean_tree((Difference::<D> {}).spec_node(), self.spec_node(), other.tree()),
    {
        self.into_object().difference(other)
    }
}

impl<T: IntoObject<D>, const D: usize> vstd::std_specs::ops::SubSpecImpl<T> for FragmentAngle<D> {
    /// No value is stated here: the operator's own contract states the tree
    /// of its result.
    open spec fn obeys_sub_spec() -> bool {
        false
    }

    open spec fn sub_req(self, rhs: T) -> bool {
        true
    }

    open spec fn sub_spec(self, rhs: T) -> Object<D> {
        arbitrary()
    }
}

impl<F: Operator<D>, const D: usize> core::ops::Shr<F> for FragmentAngle<D> {
    type Output = F::Output;

    fn shr(self, f: F) -> (r: F::Output)
        ensures
            f.applied(self.spec_node(), r),
    {
        self.into_object().pipe(f)
    }
}

impl<F: Operator<D>, const D: usize> vstd::std_specs::ops::ShrSpecImpl<F> for FragmentAngle<D> {
    /// No value is stated here: the operator's own contract states the tree
    /// of its result.
    open spec fn obeys_shr_spec() -> bool {
        false
    }

    open spec fn shr_req(self, rhs: F) -> bool {
        true
    }

    open spec fn shr_spec(self, rhs: F) -> F::Output {
        arbitrary()
    }
}

impl<const D: usize> From<FragmentAngle<D>> for Object<D> {
    fn from(value: FragmentAngle<D>) -> (r: Object<D>)
        ensures
            r@ == value.spec_node(),
    {
        value.into_object()
    }
}

impl<const D: usize> vstd::std_specs::convert::FromSpecImpl<FragmentAngle<D>> for Object<D> {
    /// No value is stated here: the conversion's own contract states the
    /// tree of its result.
    open spec fn obeys_from_spec() -> bool {
        false
    }

    open spec fn from_spec(value: FragmentAngle<D>) -> Object<D> {
        arbitrary()
    }
}

impl<const D: usize> Operator<D> for FragmentAngle<D> {
    type Output = Object<D>;

    open spec fn applied(&self, child: NodeView, out: Object<D>) -> bool {
        out@ == wrapped_tree(self.spec_node(), child)
    }

    fn apply(self, object: Object<D>) -> (r: Object<D>) {
        let w: Wrapped<D, D> = Wrapped { parent: self.into_object(), child: object };
        w.into_object()
    }
}

/// The number of fragments and usually has the default value of 0.
///
/// When this variable has a value greater than zero, the `fragment_angle` and `fragment_size` are ignored, and a full circle is rendered using this number of fragments.
#[derive(Clone, Copy, Debug, PartialEq)]
pub struct FragmentCount<const D: usize> {
    pub count: Option<Scalar>,
    pub preview: Option<Length>,
}

impl<const D: usize> Default for FragmentCount<D> {
    fn default() -> (r: Self)
        ensures
            r == (FragmentCount::<D> { count: None, preview: None }),
    {
        FragmentCount::<D> { count: None, preview: None }
    }
}

pub fn fragment_count<const D: usize>(count: Scalar) -> (r: FragmentCount<D>)
    ensures
        r == (FragmentCount::<D> { count: Some(count), preview: None }),
{
    FragmentCount::<D>::default().count(count)
}

impl<const D: usize> FragmentCount<D> {
    pub fn count(self, count: Scalar) -> (r: Self)
        ensures
            r == (FragmentCount::<D> { count: Some(count), ..self }),
    {
        FragmentCount::<D> { count: Some(count), ..self }
    }

    pub fn preview(self, preview: Length) -> (r: Self)
        ensures
            r == (FragmentCount::<D> { preview: Some(preview), ..self }),
    {
        FragmentCount::<D> { preview: Some(preview), ..self }
    }

    /// The call this value renders as.
    pub open spec fn spec_node(&self) -> NodeView {
        NodeView::Call {
            imports: seq![],
            callee: CalleeView::Template("(v=0, p=undef) { $fn = ($preview && !is_undef(p)) ? p : v; children(); }"@),
            args: seq![("v"@, opt_value(self.count)), ("p"@, opt_value(self.preview))],
            operator: true,
        }
    }

    /// The node of the call this value renders as.
    pub fn to_node(&self) -> (r: Node)
        ensures
            r@ == self.spec_node(),
    {
        let imports: Vec<Import> = Vec::new();
        let args = vec![(String::from_str("v"), opt_to_value(&self.count)), (String::from_str("p"), opt_to_value(&self.preview))];
        let ghost iv = imports@;
        let ghost av = args@;
        let callee = Callee::Template(String::from_str("(v=0, p=undef) { $fn = ($preview && !is_undef(p)) ? p : v; children(); }"));
        let r = Node::Call(CallNode { imports, callee, args, operator: true });
        assert(iv.map_values(|i: Import| i@) =~= seq![]);
        assert(call_args_view(av) =~= seq![("v"@, opt_value(self.count)), ("p"@, opt_value(self.preview))]);
        r
    }
}

impl<const D: usize> Scad for FragmentCount<D> {
    open spec fn rendered(&self, s: FormatterView) -> (FormatterView, AssignmentView) {
        node_rendered(s, self.spec_node())
    }

    fn assign(&self, f: &mut Formatter) -> (r: Assignment) {
        self.to_node().assign_node(f)
    }
}

impl<const D: usize> IntoObject<D> for FragmentCount<D> {
    open spec fn tree(&self) -> NodeView {
        self.spec_node()
    }

    fn into_object(self) -> (r: Object<D>) {
        Object::new(self.to_node())
    }
}

impl<T: IntoObject<D>, const D: usize> core::ops::Add<T> for FragmentCount<D> {
    type Output = Object<D>;

    fn add(self, other: T) -> (r: Object<D>)
        ensures
            r@ == boolean_tree((Union::<D> {}).spec_node(), self.spec_node(), other.tree()),
    {
        self.into_object().union(other)
    }
}

impl<T: IntoObject<D>, const D: usize> vstd::std_specs::ops::AddSpecImpl<T> for FragmentCount<D> {
    /// No value is stated here: the operator's own contract states the tree
    /// of its result.
    open spec fn obeys_add_spec() -> bool {
        false
    }

    open spec fn add_req(self, rhs: T) -> bool {
        true
    }

    open spec fn add_spec(self, rhs: T) -> Object<D> {
        arbitrary()
    }
}

impl<T: IntoObject<D>, const D: usize> core::ops::BitOr<T> for FragmentCount<D> {
    type Output = Object<D>;

    fn bitor(self, other: T) -> (r: Object<D>)
        ensures
            r@ == boolean_tree((Union::<D> {}).spec_node(), self.spec_node(), other.tree()),
    {
        self.into_object().union(other)
    }
}

impl<T: IntoObject<D>, const D: usize> vstd::std_specs::ops::BitOrSpecImpl<T> for FragmentCount<D> {
    /// No value is stated here: the operator's own contract states the tree
    /// of its result.
    open spec fn obeys_bitor_spec() -> bool {
        false
    }

    open spec fn bitor_req(self, rhs: T) -> bool {
        true
    }

    open spec fn bitor_spec(self, rhs: T) -> Object<D> {
        arbitrary()
    }
}

impl<T: IntoObject<D>, const D: usize> core::ops::Sub<T> for FragmentCount<D> {
    type Output = Object<D>;

    fn sub(self, other: T) -> (r: Object<D>)
        ensures
            r@ == boolean_tree((Difference::<D> {}).spec_node(), self.spec_node(), other.tree()),
    {
        self.into_object().difference(other)
    }
}

impl<T: IntoObject<D>, const D: usize> vstd::std_specs::ops::SubSpecImpl<T> for FragmentCount<D> {
    /// No value is stated here: the operator's own contract states the tree
    /// of its result.
    open spec fn obeys_sub_spec() -> bool {
        false
    }

    open spec fn sub_req(self, rhs: T) -> bool {
        true
    }

    open spec fn sub_spec(self, rhs: T) -> Object<D> {
        arbitrary()
    }
}

impl<F: Operator<D>, const D: usize> core::ops::Shr<F> for FragmentCount<D> {
    type Output = F::Output;

    fn shr(self, f: F) -> (r: F::Output)
        ensures
            f.applied(self.spec_node(), r),
    {
        self.into_object().pipe(f)
    }
}

impl<F: Operator<D>, const D: usize> vstd::std_specs::ops::ShrSpecImpl<F> for FragmentCount<D> {
    /// No value is stated here: the operator's own contract states the tree
    /// of its result.
    open spec fn obeys_shr_spec() -> bool {
        false
    }

    open spec fn shr_req(self, rhs: F) -> bool {
        true
    }

    open spec fn shr_spec(self, rhs: F) -> F::Output {
        arbitrary()
    }
}

impl<const D: usize> From<FragmentCount<D>> for Object<D> {
    fn from(value: FragmentCount<D>) -> (r: Object<D>)
        ensures
            r@ == value.spec_node(),
    {
        value.into_object()
    }
}

impl<const D: usize> vstd::std_specs::convert::FromSpecImpl<FragmentCount<D>> for Object<D> {
    /// No value is stated here: the conversion's own contract states the
    /// tree of its result.
    open spec fn obeys_from_spec() -> bool {
        false
    }

    open spec fn from_spec(value: FragmentCount<D>) -> Object<D> {
        arbitrary()
    }
}

impl<const D: usize> Operator<D> for FragmentCount<D> {
    type Output = Object<D>;

    open spec fn applied(&self, child: NodeView, out: Object<D>) -> bool {
        out@ == wrapped_tree(self.spec_node(), child)
    }

    fn apply(self, object: Object<D>) -> (r: Object<D>) {
        let w: Wrapped<D, D> = Wrapped { parent: self.into_object(), child: object };
        w.into_object()
    }
}

/// The minimum size of a fragment.
///
/// The default value is 2 so very small circles have a smaller number of fragments than specified using `fragment_angle`. The minimum allowed value is 0.01. Attempting to set a lower value causes a warning.
#[derive(Clone, Copy, Debug, PartialEq)]
pub struct FragmentSize<const D: usize> {
    pub preview: Option<Length>,
    pub size: Option<Length>,
}

impl<const D: usize> Default for FragmentSize<D> {
    fn default() -> (r: Self)
        ensures
            r == (FragmentSize::<D> { preview: None, size: None }),
    {
        FragmentSize::<D> { preview: None, size: None }
    }
}

pub fn fragment_size<const D: usize>(size: Length) -> (r: FragmentSize<D>)
    ensures
        r == (FragmentSize::<D> { preview: None, size: Some(size) }),
{
    FragmentSize::<D>::default().size(size)
}

impl<const D: usize> FragmentSize<D> {
    pub fn preview(self, preview: Length) -> (r: Self)
        ensures
            r == (FragmentSize::<D> { preview: Some(preview), ..self }),
    {
        FragmentSize::<D> { preview: Some(preview), ..self }
    }

    pub fn size(self, size: Length) -> (r: Self)
        ensures
            r == (FragmentSize::<D> { size: Some(size), ..self }),
    {
        FragmentSize::<D> { size: Some(size), ..self }
    }

    /// The call this value renders as.
    pub open spec fn spec_node(&self) -> NodeView {
        NodeView::Call {
            imports: seq![],
            callee: CalleeView::Template("(p=undef, v=2) { $fs = ($preview && !is_undef(p)) ? p : v; children(); }"@),
            args: seq![("p"@, opt_value(self.preview)), ("v"@, opt_value(self.size))],
            operator: true,
        }
    }

    /// The node of the call this value renders as.
    pub fn to_node(&self) -> (r: Node)
        ensures
            r@ == self.spec_node(),
    {
        let imports: Vec<Import> = Vec::new();
        let args = vec![(String::from_str("p"), opt_to_value(&self.preview)), (String::from_str("v"), opt_to_value(&self.size))];
        let ghost iv = imports@;
        let ghost av = args@;
        let callee = Callee::Template(String::from_str("(p=undef, v=2) { $fs = ($preview && !is_undef(p)) ? p : v; children(); }"));
        let r = Node::Call(CallNode { imports, callee, args, operator: true });
        assert(iv.map_values(|i: Import| i@) =~= seq![]);
        assert(call_args_view(av) =~= seq![("p"@, opt_value(self.preview)), ("v"@, opt_value(self.size))]);
        r
    }
}

impl<const D: usize> Scad for FragmentSize<D> {
    open spec fn rendered(&self, s: FormatterView) -> (FormatterView, AssignmentView) {
        node_rendered(s, self.spec_node())
    }

    fn assign(&self, f: &mut Formatter) -> (r: Assignment) {
        self.to_node().assign_node(f)
    }
}

impl<const D: usize> IntoObject<D> for FragmentSize<D> {
    open spec fn tree(&self) -> NodeView {
        self.spec_node()
    }

    fn into_object(self) -> (r: Object<D>) {
        Object::new(self.to_node())
    }
}

impl<T: IntoObject<D>, const D: usize> core::ops::Add<T> for FragmentSize<D> {
    type Output = Object<D>;

    fn add(self, other: T) -> (r: Object<D>)
        ensures
            r@ == boolean_tree((Union::<D> {}).spec_node(), self.spec_node(), other.tree()),
    {
        self.into_object().union(other)
    }
}

impl<T: IntoObject<D>, const D: usize> vstd::std_specs::ops::AddSpecImpl<T> for FragmentSize<D> {
    /// No value is stated here: the operator's own contract states the tree
    /// of its result.
    open spec fn obeys_add_spec() -> bool {
        false
    }

    open spec fn add_req(self, rhs: T) -> bool {
        true
    }

    open spec fn add_spec(self, rhs: T) -> Object<D> {
        arbitrary()
    }
}

impl<T: IntoObject<D>, const D: usize> core::ops::BitOr<T> for FragmentSize<D> {
    type Output = Object<D>;

    fn bitor(self, other: T) -> (r: Object<D>)
        ensures
            r@ == boolean_tree((Union::<D> {}).spec_node(), self.spec_node(), other.tree()),
    {
        self.into_object().union(other)
    }
}

impl<T: IntoObject<D>, const D: usize> vstd::std_specs::ops::BitOrSpecImpl<T> for FragmentSize<D> {
    /// No value is stated here: the operator's own contract states the tree
    /// of its result.
    open spec fn obeys_bitor_spec() -> bool {
        false
    }

    open spec fn bitor_req(self, rhs: T) -> bool {
        true
    }

    open spec fn bitor_spec(self, rhs: T) -> Object<D> {
        arbitrary()
    }
}

impl<T: IntoObject<D>, const D: usize> core::ops::Sub<T> for FragmentSize<D> {
    type Output = Object<D>;

    fn sub(self, other: T) -> (r: Object<D>)
        ensures
            r@ == boolean_tree((Difference::<D> {}).spec_node(), self.spec_node(), other.tree()),
    {
        self.into_object().difference(other)
    }
}

impl<T: IntoObject<D>, const D: usize> vstd::std_specs::ops::SubSpecImpl<T> for FragmentSize<D> {
    /// No value is stated here: the operator's own contract states the tree
    /// of its result.
    open spec fn obeys_sub_spec() -> bool {
        false
    }

    open spec fn sub_req(self, rhs: T) -> bool {
        true
    }

    open spec fn sub_spec(self, rhs: T) -> Object<D> {
        arbitrary()
    }
}

impl<F: Operator<D>, const D: usize> core::ops::Shr<F> for FragmentSize<D> {
    type Output = F::Output;

    fn shr(self, f: F) -> (r: F::Output)
        ensures
            f.applied(self.spec_node(), r),
    {
        self.into_object().pipe(f)
    }
}

impl<F: Operator<D>, const D: usize> vstd::std_specs::ops::ShrSpecImpl<F> for FragmentSize<D> {
    /// No value is stated here: the operator's own contract states the tree
    /// of its result.
    open spec fn obeys_shr_spec() -> bool {
        false
    }

    open spec fn shr_req(self, rhs: F) -> bool {
        true
    }

    open spec fn shr_spec(self, rhs: F) -> F::Output {
        arbitrary()
    }
}

impl<const D: usize> From<FragmentSize<D>> for Object<D> {
    fn from(value: FragmentSize<D>) -> (r: Object<D>)
        ensures
            r@ == value.spec_node(),
    {
        value.into_object()
    }
}

impl<const D: usize> vstd::std_specs::convert::FromSpecImpl<FragmentSize<D>> for Object<D> {
    /// No value is stated here: the conversion's own contract states the
    /// tree of its result.
    open spec fn obeys_from_spec() -> bool {
        false
    }

    open spec fn from_spec(value: FragmentSize<D>) -> Object<D> {
        arbitrary()
    }
}

impl<const D: usize> Operator<D> for FragmentSize<D> {
    type Output = Object<D>;

    open spec fn applied(&self, child: NodeView, out: Object<D>) -> bool {
        out@ == wrapped_tree(self.spec_node(), child)
    }

    fn apply(self, object: Object<D>) -> (r: Object<D>) {
        let w: Wrapped<D, D> = Wrapped { parent: self.into_object(), child: object };
        w.into_object()
    }
}

} // verus!
