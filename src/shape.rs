use vstd::prelude::*;

verus! {

/// The selectable structure of a value, as far as a field selector sees it.
pub enum Shape {
    /// A scalar: a string, a boolean, a timestamp.
    Leaf,
    /// A keyed mapping whose values cannot be selected one by one.
    Mapping,
    /// A value that may be absent; it adds no syntax of its own.
    Optional(Box<Shape>),
    /// A sequence or set of elements; its elements' selector is grouped in parentheses.
    Collection(Box<Shape>),
    /// A record whose fields are addressed by slash-joined paths.
    Composite(Vec<Field>),
    /// A record whose fields are spliced into the enclosing record.
    Flatten(Box<Shape>),
}

/// One declared field of a record: its wire name and its shape.
pub struct Field {
    pub name: String,
    pub shape: Shape,
}

impl Field {
    /// A field with wire name `name` and shape `shape`.
    pub fn new(name: &str, shape: Shape) -> (r: Field)
        ensures
            r.name@ == name@,
            r.shape == shape,
    {
        Field { name: name.to_owned(), shape }
    }
}

/// Characters that the selector grammar reserves and a wire name may not hold.
pub open spec fn is_reserved(c: char) -> bool {
    c == ',' || c == '(' || c == ')' || c == '/'
}

/// A wire name is a non-empty identifier without reserved characters.
pub open spec fn valid_name(name: Seq<char>) -> bool {
    &&& name.len() > 0
    &&& forall|i: int| 0 <= i < name.len() ==> !is_reserved(#[trigger] name[i])
}

/// A well-formed schema: every wire name is valid, and every flattened
/// shape is a record.
pub open spec fn wf_shape(shape: Shape) -> bool
    decreases shape,
{
    match shape {
        Shape::Leaf | Shape::Mapping => true,
        Shape::Optional(inner) => wf_shape(*inner),
        Shape::Collection(inner) => wf_shape(*inner),
        Shape::Flatten(inner) => (*inner) is Composite && wf_shape(*inner),
        Shape::Composite(fields) => wf_fields(fields@),
    }
}

/// Every field of the sequence has a valid name and a well-formed shape.
pub open spec fn wf_fields(fields: Seq<Field>) -> bool
    decreases fields,
{
    if fields.len() == 0 {
        true
    } else {
        &&& wf_fields(fields.drop_last())
        &&& valid_name(fields.last().name@)
        &&& wf_shape(fields.last().shape)
    }
}

} // verus!
