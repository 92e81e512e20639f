use vstd::prelude::*;

verus! {

/// A payload cell that may hold one item of its kind.
pub trait ObjectTrait: Sized {
    type Item;

    /// What the cell hands out.
    spec fn content(&self) -> Option<Self::Item>;

    /// Whether the cell counts as empty.
    spec fn is_void(&self) -> bool;

    /// What the cell holds after being given `val`.
    spec fn kept(val: Option<Self::Item>) -> Option<Self::Item>;

    /// The type tag of the cell's kind.
    spec fn type_code() -> u8;

    fn new(val: Option<Self::Item>) -> (r: Self)
        ensures
            r.content() == Self::kept(val),
    ;

    fn is_none(&self) -> (r: bool)
        ensures
            r == self.is_void(),
    ;

    fn is_some(&self) -> (r: bool)
        ensures
            r == !self.is_void(),
    ;

    fn reveal_type(&self) -> (r: u8)
        ensures
            r == Self::type_code(),
    ;

    fn set_value(&mut self, val: Option<Self::Item>)
        ensures
            final(self).content() == Self::kept(val),
    ;

    fn into_inner(&mut self) -> (r: Option<Self::Item>)
        ensures
            r == old(self).content(),
            final(self).content() == Self::kept(None),
    ;
}

} // verus!
