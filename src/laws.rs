use vstd::prelude::*;

use crate::emit::{
    emitted, emitted_fields, field_path, joined_path, selector_of, with_group, with_segment,
};
use crate::grammar::{
    is_plain, lemma_comma_join_well_separated, paren_depth, lemma_concat_well_separated,
    lemma_plain_well_separated, lemma_wrap_well_separated, well_separated,
};
use crate::selector::DriveSelector;
use crate::shape::{valid_name, wf_fields, wf_shape, Field, Shape};

verus! {

proof fn lemma_with_segment_well_separated(buf: Seq<char>, seg: Seq<char>)
    requires
        well_separated(buf),
        is_plain(seg),
        seg.len() > 0 || buf.len() == 0,
    ensures
        well_separated(with_segment(buf, seg)),
{
    lemma_plain_well_separated(seg);
    if buf.len() > 0 {
        lemma_comma_join_well_separated(buf, seg);
    } else {
        assert(buf + seg =~= seg);
    }
}

proof fn lemma_joined_path_plain(path: Seq<char>, name: Seq<char>)
    requires
        is_plain(path),
        valid_name(name),
    ensures
        is_plain(joined_path(path, name)),
        joined_path(path, name).len() > 0,
{
    if path.len() > 0 {
        let s = path + seq!['/'] + name;
        assert forall|i: int| 0 <= i < s.len() implies #[trigger] s[i] != ',' && s[i] != '('
            && s[i] != ')' by {
            if i < path.len() {
                assert(s[i] == path[i]);
            } else if i > path.len() {
                assert(s[i] == name[i - path.len() - 1]);
            }
        }
    }
}

proof fn lemma_emitted_well_separated(path: Seq<char>, shape: Shape, buf: Seq<char>)
    requires
        wf_shape(shape),
        is_plain(path),
        well_separated(buf),
        path.len() > 0 || buf.len() == 0 || shape is Composite || shape is Flatten,
    ensures
        well_separated(emitted(path, shape, buf)),
    decreases shape,
{
    match shape {
        Shape::Leaf | Shape::Mapping => lemma_with_segment_well_separated(buf, path),
        Shape::Optional(inner) => lemma_emitted_well_separated(path, *inner, buf),
        Shape::Flatten(inner) => lemma_emitted_well_separated(path, *inner, buf),
        Shape::Collection(inner) => {
            lemma_with_segment_well_separated(buf, path);
            let e = Seq::<char>::empty();
            lemma_emitted_well_separated(e, *inner, e);
            let w = with_segment(buf, path);
            let g = emitted(e, *inner, e);
            if g.len() > 0 {
                lemma_wrap_well_separated(g);
                lemma_concat_well_separated(w, seq!['('] + g + seq![')']);
                assert(with_group(w, g) =~= w + (seq!['('] + g + seq![')']));
            }
        },
        Shape::Composite(fields) => lemma_fields_well_separated(path, fields@, buf),
    }
}

proof fn lemma_fields_well_separated(path: Seq<char>, fields: Seq<Field>, buf: Seq<char>)
    requires
        wf_fields(fields),
        is_plain(path),
        well_separated(buf),
    ensures
        well_separated(emitted_fields(path, fields, buf)),
    decreases fields,
{
    if fields.len() > 0 {
        lemma_fields_well_separated(path, fields.drop_last(), buf);
        let last = fields.last();
        lemma_joined_path_plain(path, last.name@);
        assert(decreases_to!(fields => fields[fields.len() - 1]));
        lemma_emitted_well_separated(
            field_path(path, last),
            last.shape,
            emitted_fields(path, fields.drop_last(), buf),
        );
    }
}

/// The selector of a well-formed schema never starts or ends with a comma,
/// never holds two adjacent commas, and balances its parentheses.
pub proof fn lemma_selector_well_separated(shape: Shape)
    requires
        wf_shape(shape),
    ensures
        well_separated(selector_of(shape)),
{
    let e = Seq::<char>::empty();
    assert(well_separated(e)) by {
        assert forall|i: int| 0 <= i <= e.len() implies paren_depth(#[trigger] e.take(i)) >= 0 by {
            assert(e.take(i) =~= e);
        }
    }
    lemma_emitted_well_separated(e, shape, e);
}

/// A selector depends on the schema alone: two syntheses of one schema give
/// the same text.
pub proof fn lemma_selector_deterministic(shape: Shape, first: Seq<char>, second: Seq<char>)
    requires
        first == selector_of(shape),
        second == selector_of(shape),
    ensures
        first == second,
{
}

/// Wrapping a shape in `Optional` changes nothing at any path.
pub proof fn lemma_optional_transparent(path: Seq<char>, inner: Shape, buf: Seq<char>)
    ensures
        emitted(path, Shape::Optional(Box::new(inner)), buf) == emitted(path, inner, buf),
{
}

/// Wrapping a shape in `Flatten` changes nothing at any path.
pub proof fn lemma_flatten_transparent(path: Seq<char>, inner: Shape, buf: Seq<char>)
    ensures
        emitted(path, Shape::Flatten(Box::new(inner)), buf) == emitted(path, inner, buf),
{
}

/// An `Option` of a type selects exactly what the type itself selects.
pub proof fn lemma_option_selector_transparent<T: DriveSelector>()
    ensures
        selector_of(<Option<T> as DriveSelector>::shape_spec()) == selector_of(T::shape_spec()),
{
}

/// Emitting two runs of fields one after the other is emitting their concatenation.
pub proof fn lemma_fields_concat(path: Seq<char>, a: Seq<Field>, b: Seq<Field>, buf: Seq<char>)
    ensures
        emitted_fields(path, a + b, buf) == emitted_fields(path, b, emitted_fields(path, a, buf)),
    decreases b.len(),
{
    if b.len() == 0 {
        assert(a + b =~= a);
    } else {
        assert((a + b).drop_last() =~= a + b.drop_last());
        assert((a + b).last() == b.last());
        lemma_fields_concat(path, a, b.drop_last(), buf);
    }
}

/// A field that flattens a record selects exactly what the record's own
/// fields would select, spliced in its place.
pub proof fn lemma_flatten_field_splices(
    path: Seq<char>,
    before: Seq<Field>,
    field: Field,
    inner: Vec<Field>,
    after: Seq<Field>,
    buf: Seq<char>,
)
    requires
        field.shape == Shape::Flatten(Box::new(Shape::Composite(inner))),
    ensures
        emitted_fields(path, before + seq![field] + after, buf) == emitted_fields(
            path,
            before + inner@ + after,
            buf,
        ),
{
    let head = emitted_fields(path, before, buf);
    lemma_fields_concat(path, before + seq![field], after, buf);
    lemma_fields_concat(path, before, seq![field], buf);
    lemma_fields_concat(path, before + inner@, after, buf);
    lemma_fields_concat(path, before, inner@, buf);
    let one = seq![field];
    assert(one.drop_last() =~= Seq::<Field>::empty());
    assert(one.last() == field);
    assert(emitted_fields(path, Seq::<Field>::empty(), head) == head);
    assert(field_path(path, field) == path);
    assert(emitted_fields(path, one, head) == emitted(path, field.shape, head));
    assert(emitted(path, field.shape, head) == emitted(path, Shape::Composite(inner), head));
    assert(emitted(path, Shape::Composite(inner), head) == emitted_fields(path, inner@, head));
}

/// A collection whose elements select nothing contributes its name alone,
/// with no parentheses.
pub proof fn lemma_empty_group_is_bare(path: Seq<char>, inner: Shape, buf: Seq<char>)
    requires
        selector_of(inner).len() == 0,
    ensures
        emitted(path, Shape::Collection(Box::new(inner)), buf) == with_segment(buf, path),
{
}

/// A record without fields selects nothing.
pub proof fn lemma_empty_record_selects_nothing(path: Seq<char>, fields: Vec<Field>, buf: Seq<char>)
    requires
        fields@.len() == 0,
    ensures
        emitted(path, Shape::Composite(fields), buf) == buf,
{
    assert(emitted(path, Shape::Composite(fields), buf) == emitted_fields(path, fields@, buf));
}

} // verus!
