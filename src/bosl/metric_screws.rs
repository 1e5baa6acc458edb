//! A simple metric screw model from the BOSL library.
use vstd::prelude::*;
use crate::ext::boolean_tree;
use crate::primitive::set::{Difference, Union};
use crate::object::{call_args_view, node_rendered, CallNode, Callee, CalleeView, IntoObject, Node, NodeView, Object, Operator};
use crate::scad::{Assignment, AssignmentView, Formatter, FormatterView, Import, ImportView, Scad};
use crate::types::{opt_to_value, opt_value, Length, Scalar};

verus! {

/// Makes a very simple screw model, useful for making screwholes.
#[derive(Clone, Copy, Debug, PartialEq)]
pub struct Screw {
    /// If true, center from cap's top instead of it's bottom.
    pub countersunk: Option<bool>,
    /// length of the screw head.
    pub head_len: Option<Length>,
    /// diameter of the screw head.
    pub head_size: Option<Length>,
    /// length of threaded part of screw.
    pub len: Option<Length>,
    pub pitch: Option<Scalar>,
    /// diameter of threaded part of screw.
    pub size: Option<Length>,
}

impl Default for Screw {
    fn default() -> (r: Self)
        ensures
            r == (Screw { countersunk: None, head_len: None, head_size: None, len: None, pitch: None, size: None }),
    {
        Screw { countersunk: None, head_len: None, head_size: None, len: None, pitch: None, size: None }
    }
}

/// Makes a very simple screw model, useful for making screwholes.
pub fn screw() -> (r: Screw)
    ensures
        r == (Screw { countersunk: None, head_len: None, head_size: None, len: None, pitch: None, size: None }),
{
    Screw::default()
}

impl Screw {
    /// If true, center from cap's top instead of it's bottom.
    pub fn countersunk(self, countersunk: bool) -> (r: Self)
        ensures
            r == (Screw { countersunk: Some(countersunk), ..self }),
    {
        Screw { countersunk: Some(countersunk), ..self }
    }

    /// length of the screw head.
    pub fn head_len(self, head_len: Length) -> (r: Self)
        ensures
            r == (Screw { head_len: Some(head_len), ..self }),
    {
        Screw { head_len: Some(head_len), ..self }
    }

    /// diameter of the screw head.
    pub fn head_size(self, head_size: Length) -> (r: Self)
        ensures
            r == (Screw { head_size: Some(head_size), ..self }),
    {
        Screw { head_size: Some(head_size), ..self }
    }

    /// length of threaded part of screw.
    pub fn len(self, len: Length) -> (r: Self)
        ensures
            r == (Screw { len: Some(len), ..self }),
    {
        Screw { len: Some(len), ..self }
    }

    pub fn pitch(self, pitch: Scalar) -> (r: Self)
        ensures
            r == (Screw { pitch: Some(pitch), ..self }),
    {
        Screw { pitch: Some(pitch), ..self }
    }

    /// diameter of threaded part of screw.
    pub fn size(self, size: Length) -> (r: Self)
        ensures
            r == (Screw { size: Some(size), ..self }),
    {
        Screw { size: Some(size), ..self }
    }

    /// The call this value renders as.
    pub open spec fn spec_node(&self) -> NodeView {
        NodeView::Call {
            imports: seq![ImportView::Include("<BOSL/constants.scad>"@), ImportView::Use("<BOSL/metric_screws.scad>"@)],
            callee: CalleeView::Named("screw"@),
            args: seq![("countersunk"@, opt_value(self.countersunk)), ("headlen"@, opt_value(self.head_len)), ("headsize"@, opt_value(self.head_size)), ("screwlen"@, opt_value(self.len)), ("pitch"@, opt_value(self.pitch)), ("screwsize"@, opt_value(self.size))],
            operator: false,
        }
    }

    /// The node of the call this value renders as.
    pub fn to_node(&self) -> (r: Node)
        ensures
            r@ == self.spec_node(),
    {
        let imports = vec![Import::Include(String::from_str("<BOSL/constants.scad>")), Import::Use(String::from_str("<BOSL/metric_screws.scad>"))];
        let args = vec![(String::from_str("countersunk"), opt_to_value(&self.countersunk)), (String::from_str("headlen"), opt_to_value(&self.head_len)), (String::from_str("headsize"), opt_to_value(&self.head_size)), (String::from_str("screwlen"), opt_to_value(&self.len)), (String::from_str("pitch"), opt_to_value(&self.pitch)), (String::from_str("screwsize"), opt_to_value(&self.size))];
        let ghost iv = imports@;
        let ghost av = args@;
        let callee = Callee::Named(String::from_str("screw"));
        let r = Node::Call(CallNode { imports, callee, args, operator: false });
        assert(iv.map_values(|i: Import| i@) =~= seq![ImportView::Include("<BOSL/constants.scad>"@), ImportView::Use("<BOSL/metric_screws.scad>"@)]);
        assert(call_args_view(av) =~= seq![("countersunk"@, opt_value(self.countersunk)), ("headlen"@, opt_value(self.head_len)), ("headsize"@, opt_value(self.head_size)), ("screwlen"@, opt_value(self.len)), ("pitch"@, opt_value(self.pitch)), ("screwsize"@, opt_value(self.size))]);
        r
    }
}

impl Scad for Screw {
    open spec fn rendered(&self, s: FormatterView) -> (FormatterView, AssignmentView) {
        node_rendered(s, self.spec_node())
    }

    fn assign(&self, f: &mut Formatter) -> (r: Assignment) {
        self.to_node().assign_node(f)
    }
}

impl IntoObject<3> for Screw {
    open spec fn tree(&self) -> NodeView {
        self.spec_node()
    }

    fn into_object(self) -> (r: Object<3>) {
        Object::new(self.to_node())
    }
}

impl<T: IntoObject<3>> core::ops::Add<T> for Screw {
    type Output = Object<3>;

    fn add(self, other: T) -> (r: Object<3>)
        ensures
            r@ == boolean_tree((Union::<3> {}).spec_node(), self.spec_node(), other.tree()),
    {
        self.into_object().union(other)
    }
}

impl<T: IntoObject<3>> vstd::std_specs::ops::AddSpecImpl<T> for Screw {
    /// No value is stated here: the operator's own contract states the tree
    /// of its result.
    open spec fn obeys_add_spec() -> bool {
        false
    }

    open spec fn add_req(self, rhs: T) -> bool {
        true
    }

    open spec fn add_spec(self, rhs: T) -> Object<3> {
        arbitrary()
    }
}

impl<T: IntoObject<3>> core::ops::BitOr<T> for Screw {
    type Output = Object<3>;

    fn bitor(self, other: T) -> (r: Object<3>)
        ensures
            r@ == boolean_tree((Union::<3> {}).spec_node(), self.spec_node(), other.tree()),
    {
        self.into_object().union(other)
    }
}

impl<T: IntoObject<3>> vstd::std_specs::ops::BitOrSpecImpl<T> for Screw {
    /// No value is stated here: the operator's own contract states the tree
    /// of its result.
    open spec fn obeys_bitor_spec() -> bool {
        false
    }

    open spec fn bitor_req(self, rhs: T) -> bool {
        true
    }

    open spec fn bitor_spec(self, rhs: T) -> Object<3> {
        arbitrary()
    }
}

impl<T: IntoObject<3>> core::ops::Sub<T> for Screw {
    type Output = Object<3>;

    fn sub(self, other: T) -> (r: Object<3>)
        ensures
            r@ == boolean_tree((Difference::<3> {}).spec_node(), self.spec_node(), other.tree()),
    {
        self.into_object().difference(other)
    }
}

impl<T: IntoObject<3>> vstd::std_specs::ops::SubSpecImpl<T> for Screw {
    /// No value is stated here: the operator's own contract states the tree
    /// of its result.
    open spec fn obeys_sub_spec() -> bool {
        false
    }

    open spec fn sub_req(self, rhs: T) -> bool {
        true
    }

    open spec fn sub_spec(self, rhs: T) -> Object<3> {
        arbitrary()
    }
}

impl<F: Operator<3>> core::ops::Shr<F> for Screw {
    type Output = F::Output;

    fn shr(self, f: F) -> (r: F::Output)
        ensures
            f.applied(self.spec_node(), r),
    {
        self.into_object().pipe(f)
    }
}

impl<F: Operator<3>> vstd::std_specs::ops::ShrSpecImpl<F> for Screw {
    /// No value is stated here: the operator's own contract states the tree
    /// of its result.
    open spec fn obeys_shr_spec() -> bool {
        false
    }

    open spec fn shr_req(self, rhs: F) -> bool {
        true
    }

    open spec fn shr_spec(self, rhs: F) -> F::Output {
        arbitrary()
    }
}

impl From<Screw> for Object<3> {
    fn from(value: Screw) -> (r: Object<3>)
        ensures
            r@ == value.spec_node(),
    {
        value.into_object()
    }
}

impl vstd::std_specs::convert::FromSpecImpl<Screw> for Object<3> {
    /// No value is stated here: the conversion's own contract states the
    /// tree of its result.
    open spec fn obeys_from_spec() -> bool {
        false
    }

    open spec fn from_spec(value: Screw) -> Object<3> {
        arbitrary()
    }
}

} // verus!
