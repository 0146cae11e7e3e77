use vstd::prelude::*;

use crate::shape::{Field, Shape};

verus! {

/// A separator goes before a new segment unless the buffer is empty or
/// already ends with one.
pub open spec fn needs_separator(buf: Seq<char>) -> bool {
    buf.len() > 0 && buf.last() != ','
}

/// The buffer after one segment is appended under the separator rule.
pub open spec fn with_segment(buf: Seq<char>, seg: Seq<char>) -> Seq<char> {
    if needs_separator(buf) {
        buf + seq![','] + seg
    } else {
        buf + seg
    }
}

/// The path of a field named `name` mounted under `path`.
pub open spec fn joined_path(path: Seq<char>, name: Seq<char>) -> Seq<char> {
    if path.len() == 0 {
        name
    } else {
        path + seq!['/'] + name
    }
}

/// The path at which a field of a record mounted at `path` is emitted: a
/// flattened field keeps the record's own path.
pub open spec fn field_path(path: Seq<char>, field: Field) -> Seq<char> {
    if field.shape is Flatten {
        path
    } else {
        joined_path(path, field.name@)
    }
}

/// The buffer followed by a parenthesized group, or unchanged when the group is empty.
pub open spec fn with_group(buf: Seq<char>, group: Seq<char>) -> Seq<char> {
    if group.len() == 0 {
        buf
    } else {
        buf + seq!['('] + group + seq![')']
    }
}

/// The buffer after the selector of `shape`, mounted at `path`, is appended to `buf`.
pub open spec fn emitted(path: Seq<char>, shape: Shape, buf: Seq<char>) -> Seq<char>
    decreases shape,
{
    match shape {
        Shape::Leaf | Shape::Mapping => with_segment(buf, path),
        Shape::Optional(inner) => emitted(path, *inner, buf),
        Shape::Flatten(inner) => emitted(path, *inner, buf),
        Shape::Collection(inner) => with_group(
            with_segment(buf, path),
            emitted(Seq::empty(), *inner, Seq::empty()),
        ),
        Shape::Composite(fields) => emitted_fields(path, fields@, buf),
    }
}

/// The buffer after the fields of a record mounted at `path` are emitted in order.
pub open spec fn emitted_fields(path: Seq<char>, fields: Seq<Field>, buf: Seq<char>) -> Seq<char>
    decreases fields,
{
    if fields.len() == 0 {
        buf
    } else {
        let last = fields.last();
        emitted(field_path(path, last), last.shape, emitted_fields(path, fields.drop_last(), buf))
    }
}

/// The selector of a whole schema: its root mounted at the empty path.
pub open spec fn selector_of(shape: Shape) -> Seq<char> {
    emitted(Seq::empty(), shape, Seq::empty())
}

/// Appends `seg` to `buf`, preceded by a comma where the separator rule asks for one.
pub fn push_segment(buf: &mut String, seg: &str)
    ensures
        final(buf)@ == with_segment(old(buf)@, seg@),
{
    let n = buf.as_str().unicode_len();
    if n > 0 && buf.as_str().get_char(n - 1) != ',' {
        proof {
            reveal_strlit(",");
        }
        buf.append(",");
    }
    buf.append(seg);
}

/// The path at which `field` of a record mounted at `path` is emitted.
pub fn field_path_of(path: &str, field: &Field) -> (r: String)
    ensures
        r@ == field_path(path@, *field),
{
    let mut r = path.to_owned();
    if !matches!(field.shape, Shape::Flatten(_)) {
        if !path.is_empty() {
            proof {
                reveal_strlit("/");
            }
            r.append("/");
        }
        r.append(field.name.as_str());
    }
    r
}

/// Appends the selector of `shape`, mounted at `path`, to `buf`.
pub fn emit(path: &str, shape: &Shape, buf: &mut String)
    ensures
        final(buf)@ == emitted(path@, *shape, old(buf)@),
    decreases shape,
{
    match shape {
        Shape::Leaf => push_segment(buf, path),
        Shape::Mapping => push_segment(buf, path),
        Shape::Optional(inner) => emit(path, inner, buf),
        Shape::Flatten(inner) => emit(path, inner, buf),
        Shape::Collection(inner) => {
            push_segment(buf, path);
            let mut group = String::new();
            proof {
                reveal_strlit("");
                assert(""@ =~= Seq::<char>::empty());
            }
            emit("", inner, &mut group);
            if !group.as_str().is_empty() {
                proof {
                    reveal_strlit("(");
                    reveal_strlit(")");
                }
                buf.append("(");
                buf.append(group.as_str());
                buf.append(")");
            }
        },
        Shape::Composite(fields) => {
            let ghost start = old(buf)@;
            let mut i: usize = 0;
            while i < fields.len()
                invariant
                    0 <= i <= fields@.len(),
                    *shape == Shape::Composite(*fields),
                    buf@ == emitted_fields(path@, fields@.subrange(0, i as int), start),
                decreases fields.len() - i,
            {
                let field = &fields[i];
                let child = field_path_of(path, field);
                proof {
                    assert(fields@.subrange(0, i + 1).drop_last() == fields@.subrange(0, i as int));
                    assert(decreases_to!(*shape => (*shape)->Composite_0));
                    assert(decreases_to!(*fields => fields@));
                    assert(decreases_to!(fields@ => fields@[i as int]));
                    assert(decreases_to!(fields@[i as int] => fields@[i as int].shape));
                    assert(decreases_to!(*shape => fields@[i as int].shape));
                }
                emit(child.as_str(), &field.shape, buf);
                i += 1;
            }
            proof {
                assert(fields@.subrange(0, fields@.len() as int) == fields@);
            }
        },
    }
}

/// The selector of a whole schema.
pub fn synthesize(shape: &Shape) -> (r: String)
    ensures
        r@ == selector_of(*shape),
{
    let mut r = String::new();
    proof {
        reveal_strlit("");
        assert(""@ =~= Seq::<char>::empty());
    }
    emit("", shape, &mut r);
    r
}

} // verus!
