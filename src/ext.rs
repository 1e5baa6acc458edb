//! Composition helpers on objects, and the operator sugar over them.
use vstd::prelude::*;
use crate::extension::modifiers::{Bg, Dbg, Disable, Root};
use crate::extension::translate::{Back, Down, Fwd, Left, Right, Up};
use crate::object::{block_tree, wrapped_tree, Block, IntoObject, NodeView, Object, Operator};
use crate::primitive::set::{difference, intersection, union, Difference, Intersection, Union};
use crate::primitive::transform::{resize, rotate, scale, translate, Resize, Rotate, Scale, Translate};
use crate::types::{Angle3, Length, Length3, Scalar3};

verus! {

/// The tree of a boolean `op` over two children grouped in a block.
pub open spec fn boolean_tree(op: NodeView, a: NodeView, b: NodeView) -> NodeView {
    wrapped_tree(op, block_tree(a, b))
}

impl<const D: usize> Object<D> {
    /// Both shapes.
    pub fn union<B: IntoObject<D>>(self, b: B) -> (r: Object<D>)
        ensures
            r@ == boolean_tree((Union::<D> {}).spec_node(), self@, b.tree()),
    {
        Block(self, b.into_object()).into_object().pipe(union::<D>())
    }

    /// The first shape without the second.
    pub fn difference<B: IntoObject<D>>(self, b: B) -> (r: Object<D>)
        ensures
            r@ == boolean_tree((Difference::<D> {}).spec_node(), self@, b.tree()),
    {
        Block(self, b.into_object()).into_object().pipe(difference::<D>())
    }

    /// What both shapes share.
    pub fn intersection<B: IntoObject<D>>(self, b: B) -> (r: Object<D>)
        ensures
            r@ == boolean_tree((Intersection::<D> {}).spec_node(), self@, b.tree()),
    {
        Block(self, b.into_object()).into_object().pipe(intersection::<D>())
    }

    /// Moved up (Z+) by `z`.
    pub fn up(self, z: Length) -> (r: Object<D>)
        ensures
            r@ == wrapped_tree((Up::<D> { z: Some(z) }).spec_node(), self@),
    {
        self.pipe(crate::extension::translate::up::<D>(z))
    }

    /// Moved down (Z-) by `z`.
    pub fn down(self, z: Length) -> (r: Object<D>)
        ensures
            r@ == wrapped_tree((Down::<D> { z: Some(z) }).spec_node(), self@),
    {
        self.pipe(crate::extension::translate::down::<D>(z))
    }

    /// Moved right (X+) by `x`.
    pub fn right(self, x: Length) -> (r: Object<D>)
        ensures
            r@ == wrapped_tree((Right::<D> { x: Some(x) }).spec_node(), self@),
    {
        self.pipe(crate::extension::translate::right::<D>(x))
    }

    /// Moved left (X-) by `x`.
    pub fn left(self, x: Length) -> (r: Object<D>)
        ensures
            r@ == wrapped_tree((Left::<D> { x: Some(x) }).spec_node(), self@),
    {
        self.pipe(crate::extension::translate::left::<D>(x))
    }

    /// Moved forward (Y+) by `y`.
    pub fn fwd(self, y: Length) -> (r: Object<D>)
        ensures
            r@ == wrapped_tree((Fwd::<D> { y: Some(y) }).spec_node(), self@),
    {
        self.pipe(crate::extension::translate::fwd::<D>(y))
    }

    /// Moved back (Y-) by `y`.
    pub fn back(self, y: Length) -> (r: Object<D>)
        ensures
            r@ == wrapped_tree((Back::<D> { y: Some(y) }).spec_node(), self@),
    {
        self.pipe(crate::extension::translate::back::<D>(y))
    }

    /// Scaled by `v`.
    pub fn scale(self, v: Scalar3) -> (r: Object<D>)
        ensures
            r@ == wrapped_tree((Scale::<D> { value: Some(v) }).spec_node(), self@),
    {
        self.pipe(scale::<D>(v))
    }

    /// Resized to `v`.
    pub fn resize(self, v: Length3) -> (r: Object<D>)
        ensures
            r@ == wrapped_tree((Resize::<D> { size: Some(v) }).spec_node(), self@),
    {
        self.pipe(resize::<D>(v))
    }

    /// Moved by `v`.
    pub fn translate(self, v: Length3) -> (r: Object<D>)
        ensures
            r@ == wrapped_tree((Translate::<D> { value: Some(v) }).spec_node(), self@),
    {
        self.pipe(translate::<D>(v))
    }

    /// Rotated by `v`.
    pub fn rotate(self, v: Angle3) -> (r: Object<D>)
        ensures
            r@ == wrapped_tree((Rotate::<D> { angle: Some(v), value: None }).spec_node(), self@),
    {
        self.pipe(rotate::<D>(v))
    }

    /// Use this subtree as usual in the rendering process but also draw it unmodified in transparent pink.
    pub fn dbg(self) -> (r: Object<D>)
        ensures
            r@ == wrapped_tree((Dbg::<D> {}).spec_node(), self@),
    {
        self.pipe(crate::extension::modifiers::dbg::<D>())
    }

    /// Ignore this subtree for the normal rendering process and draw it in transparent gray (all transformations are still applied to the nodes in this tree).
    ///
    /// Because the marked subtree is completely ignored, it might have unexpected effects in case it's used, for example, with the first object in a difference(). In that case this object is rendered in transparent gray, but it is not used as the base for the difference()!
    pub fn bg(self) -> (r: Object<D>)
        ensures
            r@ == wrapped_tree((Bg::<D> {}).spec_node(), self@),
    {
        self.pipe(crate::extension::modifiers::bg::<D>())
    }

    /// Ignore the rest of the design and use this subtree as design root.
    pub fn root(self) -> (r: Object<D>)
        ensures
            r@ == wrapped_tree((Root::<D> {}).spec_node(), self@),
    {
        self.pipe(crate::extension::modifiers::root::<D>())
    }

    /// Simply ignore this entire subtree.
    pub fn disable(self) -> (r: Object<D>)
        ensures
            r@ == wrapped_tree((Disable::<D> {}).spec_node(), self@),
    {
        self.pipe(crate::extension::modifiers::disable::<D>())
    }
}


impl<const D: usize, F: Operator<D>> core::ops::Shr<F> for Object<D> {
    type Output = F::Output;

    fn shr(self, f: F) -> (r: F::Output)
        ensures
            f.applied(self@, r),
    {
        self.pipe(f)
    }
}

impl<const D: usize, T: IntoObject<D>> core::ops::Add<T> for Object<D> {
    type Output = Object<D>;

    fn add(self, other: T) -> (r: Object<D>)
        ensures
            r@ == boolean_tree((Union::<D> {}).spec_node(), self@, other.tree()),
    {
        self.union(other)
    }
}

impl<const D: usize, T: IntoObject<D>> core::ops::BitOr<T> for Object<D> {
    type Output = Object<D>;

    fn bitor(self, other: T) -> (r: Object<D>)
        ensures
            r@ == boolean_tree((Union::<D> {}).spec_node(), self@, other.tree()),
    {
        self.union(other)
    }
}

impl<const D: usize, T: IntoObject<D>> core::ops::Sub<T> for Object<D> {
    type Output = Object<D>;

    fn sub(self, other: T) -> (r: Object<D>)
        ensures
            r@ == boolean_tree((Difference::<D> {}).spec_node(), self@, other.tree()),
    {
        self.difference(other)
    }
}

impl<const D: usize, T: IntoObject<D>> core::ops::BitAnd<T> for Object<D> {
    type Output = Object<D>;

    fn bitand(self, other: T) -> (r: Object<D>)
        ensures
            r@ == boolean_tree((Intersection::<D> {}).spec_node(), self@, other.tree()),
    {
        self.intersection(other)
    }
}

impl<const D: usize, T: IntoObject<D>> core::ops::AddAssign<T> for Object<D> {
    fn add_assign(&mut self, rhs: T)
        ensures
            final(self)@ == boolean_tree((Union::<D> {}).spec_node(), old(self)@, rhs.tree()),
    {
        *self = self.clone().union(rhs);
    }
}

impl<const D: usize, T: IntoObject<D>> core::ops::BitOrAssign<T> for Object<D> {
    fn bitor_assign(&mut self, rhs: T)
        ensures
            final(self)@ == boolean_tree((Union::<D> {}).spec_node(), old(self)@, rhs.tree()),
    {
        *self = self.clone().union(rhs);
    }
}

impl<const D: usize, T: IntoObject<D>> core::ops::SubAssign<T> for Object<D> {
    fn sub_assign(&mut self, rhs: T)
        ensures
            final(self)@ == boolean_tree((Difference::<D> {}).spec_node(), old(self)@, rhs.tree()),
    {
        *self = self.clone().difference(rhs);
    }
}

impl<const D: usize, T: IntoObject<D>> core::ops::BitAndAssign<T> for Object<D> {
    fn bitand_assign(&mut self, rhs: T)
        ensures
            final(self)@ == boolean_tree((Intersection::<D> {}).spec_node(), old(self)@, rhs.tree()),
    {
        *self = self.clone().intersection(rhs);
    }
}

impl<const D: usize, F: Operator<D>> vstd::std_specs::ops::ShrSpecImpl<F> for Object<D> {
    /// No value is stated here: the operator's own contract states the tree
    /// of its result.
    open spec fn obeys_shr_spec() -> bool {
        false
    }

    open spec fn shr_req(self, rhs: F) -> bool {
        true
    }

    open spec fn shr_spec(self, rhs: F) -> F::Output {
        arbitrary()
    }
}

impl<const D: usize, T: IntoObject<D>> vstd::std_specs::ops::AddSpecImpl<T> for Object<D> {
    /// No value is stated here: the operator's own contract states the tree
    /// of its result.
    open spec fn obeys_add_spec() -> bool {
        false
    }

    open spec fn add_req(self, rhs: T) -> bool {
        true
    }

    open spec fn add_spec(self, rhs: T) -> Object<D> {
        arbitrary()
    }
}

impl<const D: usize, T: IntoObject<D>> vstd::std_specs::ops::BitOrSpecImpl<T> for Object<D> {
    /// No value is stated here: the operator's own contract states the tree
    /// of its result.
    open spec fn obeys_bitor_spec() -> bool {
        false
    }

    open spec fn bitor_req(self, rhs: T) -> bool {
        true
    }

    open spec fn bitor_spec(self, rhs: T) -> Object<D> {
        arbitrary()
    }
}

impl<const D: usize, T: IntoObject<D>> vstd::std_specs::ops::SubSpecImpl<T> for Object<D> {
    /// No value is stated here: the operator's own contract states the tree
    /// of its result.
    open spec fn obeys_sub_spec() -> bool {
        false
    }

    open spec fn sub_req(self, rhs: T) -> bool {
        true
    }

    open spec fn sub_spec(self, rhs: T) -> Object<D> {
        arbitrary()
    }
}

impl<const D: usize, T: IntoObject<D>> vstd::std_specs::ops::BitAndSpecImpl<T> for Object<D> {
    /// No value is stated here: the operator's own contract states the tree
    /// of its result.
    open spec fn obeys_bitand_spec() -> bool {
        false
    }

    open spec fn bitand_req(self, rhs: T) -> bool {
        true
    }

    open spec fn bitand_spec(self, rhs: T) -> Object<D> {
        arbitrary()
    }
}

} // verus!
