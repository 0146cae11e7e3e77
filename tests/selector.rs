use std::collections::{HashMap, HashSet};

use drive_selector::{emit, synthesize, DriveSelector, Field, Shape};

fn user_info() -> Shape {
    Shape::Composite(vec![
        Field::new("me", bool::shape()),
        Field::new("emailAddress", String::shape()),
    ])
}

fn file() -> Shape {
    Shape::Composite(vec![
        Field::new("id", String::shape()),
        Field::new("mimeType", String::shape()),
        Field::new("sharingUser", Shape::Optional(Box::new(user_info()))),
    ])
}

fn list_files() -> Shape {
    Shape::Composite(vec![Field::new("files", Shape::Collection(Box::new(file())))])
}

fn leaves(names: &[&str]) -> Shape {
    Shape::Composite(names.iter().map(|n| Field::new(n, Shape::Leaf)).collect())
}

fn assert_well_separated(s: &str) {
    assert!(!s.starts_with(','));
    assert!(!s.ends_with(','));
    assert!(!s.contains(",,"));
    let mut depth: i64 = 0;
    for c in s.chars() {
        if c == '(' {
            depth += 1;
        } else if c == ')' {
            depth -= 1;
        }
        assert!(depth >= 0);
    }
    assert_eq!(depth, 0);
}

#[test]
fn basic() {
    let response = Shape::Composite(vec![
        Field::new("nextPageToken", String::shape()),
        Field::new("files", Shape::Collection(Box::new(file()))),
    ]);
    assert_eq!(
        synthesize(&response),
        "nextPageToken,files(id,mimeType,sharingUser/me,sharingUser/emailAddress)"
    );
}

#[test]
fn generic_with_flatten() {
    let response = Shape::Composite(vec![
        Field::new("nextPageToken", String::shape()),
        Field::new("payload", Shape::Flatten(Box::new(list_files()))),
    ]);
    assert_eq!(
        synthesize(&response),
        "nextPageToken,files(id,mimeType,sharingUser/me,sharingUser/emailAddress)"
    );
}

#[test]
fn empty_root_selects_nothing() {
    assert_eq!(synthesize(&Shape::Composite(vec![])), "");
}

#[test]
fn collection_groups_its_elements() {
    let root = Shape::Composite(vec![Field::new(
        "xs",
        Shape::Collection(Box::new(leaves(&["a", "b"]))),
    )]);
    assert_eq!(synthesize(&root), "xs(a,b)");
}

#[test]
fn collection_without_leaves_is_bare() {
    let root = Shape::Composite(vec![Field::new(
        "xs",
        Shape::Collection(Box::new(Shape::Composite(vec![]))),
    )]);
    assert_eq!(synthesize(&root), "xs");
    let mut buf = String::from("a");
    emit("xs", &Shape::Collection(Box::new(Shape::Composite(vec![]))), &mut buf);
    assert_eq!(buf, "a,xs");
}

#[test]
fn nested_record_repeats_its_path() {
    let root = Shape::Composite(vec![Field::new("u", leaves(&["m", "e"]))]);
    assert_eq!(synthesize(&root), "u/m,u/e");
    let deeper = Shape::Composite(vec![
        Field::new("k", Shape::Leaf),
        Field::new("v", Shape::Composite(vec![Field::new("u", leaves(&["m", "e"]))])),
    ]);
    assert_eq!(synthesize(&deeper), "k,v/u/m,v/u/e");
}

#[test]
fn optional_is_transparent() {
    let plain = Shape::Composite(vec![
        Field::new("a", Shape::Leaf),
        Field::new("u", leaves(&["m", "e"])),
    ]);
    let wrapped = Shape::Composite(vec![
        Field::new("a", Shape::Optional(Box::new(Shape::Leaf))),
        Field::new("u", Shape::Optional(Box::new(leaves(&["m", "e"])))),
    ]);
    assert_eq!(synthesize(&plain), synthesize(&wrapped));
    assert_eq!(synthesize(&wrapped), "a,u/m,u/e");
}

#[test]
fn flatten_is_transparent() {
    let spliced = Shape::Composite(vec![
        Field::new("a", Shape::Leaf),
        Field::new("m", Shape::Leaf),
        Field::new("e", Shape::Leaf),
        Field::new("z", Shape::Leaf),
    ]);
    let flattened = Shape::Composite(vec![
        Field::new("a", Shape::Leaf),
        Field::new("inner", Shape::Flatten(Box::new(leaves(&["m", "e"])))),
        Field::new("z", Shape::Leaf),
    ]);
    assert_eq!(synthesize(&flattened), synthesize(&spliced));
    assert_eq!(synthesize(&flattened), "a,m,e,z");
}

#[test]
fn flatten_inside_nested_record_keeps_parent_path() {
    let root = Shape::Composite(vec![Field::new(
        "u",
        Shape::Composite(vec![
            Field::new("m", Shape::Leaf),
            Field::new("rest", Shape::Flatten(Box::new(leaves(&["e"])))),
        ]),
    )]);
    assert_eq!(synthesize(&root), "u/m,u/e");
}

#[test]
fn synthesis_is_deterministic() {
    let root = Shape::Composite(vec![
        Field::new("nextPageToken", Shape::Leaf),
        Field::new("files", Shape::Collection(Box::new(file()))),
    ]);
    let first = synthesize(&root);
    let second = synthesize(&root);
    assert_eq!(first, second);
}

#[test]
fn output_is_well_separated() {
    let shapes = vec![
        Shape::Composite(vec![]),
        leaves(&["a"]),
        Shape::Composite(vec![
            Field::new("nextPageToken", Shape::Leaf),
            Field::new("files", Shape::Collection(Box::new(file()))),
            Field::new("labels", Shape::Mapping),
            Field::new("empty", Shape::Collection(Box::new(Shape::Composite(vec![])))),
            Field::new("nested", Shape::Collection(Box::new(Shape::Collection(Box::new(file()))))),
        ]),
        Shape::Composite(vec![
            Field::new("gone", Shape::Flatten(Box::new(Shape::Composite(vec![])))),
            Field::new("b", Shape::Leaf),
        ]),
    ];
    for shape in &shapes {
        assert_well_separated(&synthesize(shape));
    }
}

#[test]
fn mapping_is_opaque() {
    let root = Shape::Composite(vec![
        Field::new("id", Shape::Leaf),
        Field::new("exportLinks", HashMap::<String, String>::shape()),
    ]);
    assert_eq!(synthesize(&root), "id,exportLinks");
}

#[test]
fn nested_collection_groups_twice() {
    let root = Shape::Composite(vec![Field::new(
        "rows",
        Shape::Collection(Box::new(Shape::Collection(Box::new(leaves(&["a", "b"]))))),
    )]);
    assert_eq!(synthesize(&root), "rows((a,b))");
}

#[test]
fn separator_not_doubled_after_trailing_comma() {
    let mut buf = String::from("a,");
    emit("b", &Shape::Leaf, &mut buf);
    assert_eq!(buf, "a,b");
    let mut empty = String::new();
    emit("b", &Shape::Leaf, &mut empty);
    assert_eq!(empty, "b");
}

#[test]
fn std_types_select_through_trait() {
    assert_eq!(String::selector(), "");
    assert_eq!(Vec::<bool>::selector(), "");
    let mut buf = String::from("a");
    Option::<bool>::selector_with_ident("flag", &mut buf);
    assert_eq!(buf, "a,flag");
    HashSet::<Vec<String>>::selector_with_ident("tags", &mut buf);
    assert_eq!(buf, "a,flag,tags");
    HashMap::<String, bool>::selector_with_ident("links", &mut buf);
    assert_eq!(buf, "a,flag,tags,links");
    let mut fresh = String::new();
    Vec::<Option<String>>::selector_with_ident("names", &mut fresh);
    assert_eq!(fresh, "names");
}
