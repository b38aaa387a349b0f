use kaitai_meta::{get_optional, get_required, Error, Node, Shape};

fn sample_entries() -> Vec<(String, Node)> {
    vec![
        ("id".to_string(), Node::Str("file_header".to_string())),
        ("size".to_string(), Node::Int(16)),
        (
            "flags".to_string(),
            Node::Sequence(vec![Node::Bool(true), Node::Bool(false)]),
        ),
    ]
}

#[test]
fn optional_lookup_of_an_absent_key_is_no_error() {
    let entries = sample_entries();
    assert_eq!(get_optional(&entries, "missing", Shape::Str), Ok(None));
}

#[test]
fn optional_lookup_extracts_a_matching_entry() {
    let entries = sample_entries();
    let found = get_optional(&entries, "id", Shape::Str).unwrap();
    assert_eq!(found, Some(&Node::Str("file_header".to_string())));
}

#[test]
fn optional_lookup_reports_a_shape_mismatch_with_the_offender() {
    let entries = sample_entries();
    assert_eq!(
        get_optional(&entries, "size", Shape::Str),
        Err(Error::InvalidAttrType {
            attr: "size".to_string(),
            expected: Shape::Str,
            actual: Node::Int(16),
        })
    );
}

#[test]
fn required_lookup_extracts_a_matching_entry() {
    let entries = sample_entries();
    assert_eq!(
        get_required(&entries, "size", Shape::Int),
        Ok(&Node::Int(16))
    );
}

#[test]
fn required_lookup_of_an_absent_key_is_an_error() {
    let entries = sample_entries();
    assert_eq!(
        get_required(&entries, "missing", Shape::Int),
        Err(Error::RequiredAttrNotFound {
            attr: "missing".to_string()
        })
    );
}

#[test]
fn required_lookup_reports_a_shape_mismatch_with_the_offender() {
    let entries = sample_entries();
    assert_eq!(
        get_required(&entries, "flags", Shape::Mapping),
        Err(Error::InvalidAttrType {
            attr: "flags".to_string(),
            expected: Shape::Mapping,
            actual: Node::Sequence(vec![Node::Bool(true), Node::Bool(false)]),
        })
    );
}

#[test]
fn first_matching_entry_is_authoritative() {
    let entries = vec![
        ("id".to_string(), Node::Str("first".to_string())),
        ("id".to_string(), Node::Str("second".to_string())),
    ];
    assert_eq!(
        get_optional(&entries, "id", Shape::Str),
        Ok(Some(&Node::Str("first".to_string())))
    );
}

#[test]
fn shapes_of_every_node_kind() {
    let cases = vec![
        (Node::Null, Shape::Null),
        (Node::Bool(true), Shape::Bool),
        (Node::Int(-3), Shape::Int),
        (Node::Real("2.5".to_string()), Shape::Real),
        (Node::Str("s".to_string()), Shape::Str),
        (Node::Sequence(Vec::new()), Shape::Sequence),
        (Node::Mapping(Vec::new()), Shape::Mapping),
        (Node::Alias(4), Shape::Alias),
    ];
    for (node, shape) in cases {
        assert_eq!(node.shape(), shape);
    }
}

#[test]
fn shape_descriptions_name_the_kind() {
    assert_eq!(Shape::Mapping.describe(), "mapping");
    assert_eq!(Shape::Str.describe(), "string");
}

#[test]
fn cloning_a_node_copies_it_deeply() {
    let node = Node::Mapping(sample_entries());
    let copy = node.clone();
    assert_eq!(copy, node);
}
