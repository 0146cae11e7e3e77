use vstd::prelude::*;

use std::collections::{HashMap, HashSet};

use crate::emit::{emit, emitted, selector_of, synthesize};
use crate::shape::Shape;

verus! {

/// A type whose values can be fetched partially: it describes its own
/// selectable structure, and from that description derives its selector.
pub trait DriveSelector {
    /// The schema of the type.
    spec fn shape_spec() -> Shape;

    /// Builds the schema of the type.
    fn shape() -> (r: Shape)
        ensures
            r == Self::shape_spec(),
    ;

    /// The selector of the whole type, mounted at the empty path.
    fn selector() -> (r: String)
        ensures
            r@ == selector_of(Self::shape_spec()),
    {
        let shape = Self::shape();
        synthesize(&shape)
    }

    /// Appends the selector of the type, mounted at `ident`, to `selector`.
    fn selector_with_ident(ident: &str, selector: &mut String)
        ensures
            final(selector)@ == emitted(ident@, Self::shape_spec(), old(selector)@),
    {
        let shape = Self::shape();
        emit(ident, &shape, selector)
    }
}

impl DriveSelector for String {
    open spec fn shape_spec() -> Shape {
        Shape::Leaf
    }

    fn shape() -> (r: Shape) {
        Shape::Leaf
    }
}

impl DriveSelector for bool {
    open spec fn shape_spec() -> Shape {
        Shape::Leaf
    }

    fn shape() -> (r: Shape) {
        Shape::Leaf
    }
}

impl<K, V> DriveSelector for HashMap<K, V> {
    open spec fn shape_spec() -> Shape {
        Shape::Mapping
    }

    fn shape() -> (r: Shape) {
        Shape::Mapping
    }
}

impl<T: DriveSelector> DriveSelector for Vec<T> {
    open spec fn shape_spec() -> Shape {
        Shape::Collection(Box::new(T::shape_spec()))
    }

    fn shape() -> (r: Shape) {
        Shape::Collection(Box::new(T::shape()))
    }
}

impl<T: DriveSelector> DriveSelector for HashSet<T> {
    open spec fn shape_spec() -> Shape {
        Shape::Collection(Box::new(T::shape_spec()))
    }

    fn shape() -> (r: Shape) {
        Shape::Collection(Box::new(T::shape()))
    }
}

impl<T: DriveSelector> DriveSelector for Option<T> {
    open spec fn shape_spec() -> Shape {
        Shape::Optional(Box::new(T::shape_spec()))
    }

    fn shape() -> (r: Shape) {
        Shape::Optional(Box::new(T::shape()))
    }
}

} // verus!
