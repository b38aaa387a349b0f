use kaitai_meta::{meta, Endianness, Error, MetaSpec, Node, Shape, TypeData};

fn entry(key: &str, value: Node) -> (String, Node) {
    (key.to_string(), value)
}

fn meta_block(endian: Node) -> Node {
    Node::Mapping(vec![entry("endian", endian)])
}

fn little() -> MetaSpec {
    MetaSpec {
        endianness: Endianness::Le,
    }
}

fn big() -> MetaSpec {
    MetaSpec {
        endianness: Endianness::Be,
    }
}

#[test]
fn endianness_round_trips_through_its_canonical_forms() {
    for s in ["le", "be"] {
        let parsed = Endianness::try_from(s).unwrap();
        assert_eq!(parsed.render(), s);
    }
    assert_eq!(Endianness::try_from("le"), Ok(Endianness::Le));
    assert_eq!(Endianness::try_from("be"), Ok(Endianness::Be));
}

#[test]
fn endianness_rejects_everything_else() {
    for s in ["", "LE", "Be", "little", "big", "l", "bee", "north"] {
        assert_eq!(Endianness::try_from(s), Err(Error::InvalidEndianness));
    }
}

#[test]
fn absent_meta_inherits_verbatim() {
    let info = TypeData {
        map: vec![entry("doc", Node::Str("no meta here".to_string()))],
        inherited_meta: Some(big()),
    };
    assert_eq!(meta(&info), Ok(big()));
}

#[test]
fn absent_meta_without_inheritance_is_an_error() {
    let info = TypeData {
        map: vec![entry("doc", Node::Str("no meta here".to_string()))],
        inherited_meta: None,
    };
    assert_eq!(
        meta(&info),
        Err(Error::RequiredAttrNotFound {
            attr: "meta".to_string()
        })
    );
}

#[test]
fn own_meta_overrides_inherited_meta() {
    let info = TypeData {
        map: vec![entry("meta", meta_block(Node::Str("be".to_string())))],
        inherited_meta: Some(little()),
    };
    assert_eq!(meta(&info), Ok(big()));
}

#[test]
fn unrecognised_endianness_fails_regardless_of_inheritance() {
    for inherited in [Some(little()), Some(big()), None] {
        let info = TypeData {
            map: vec![entry("meta", meta_block(Node::Str("north".to_string())))],
            inherited_meta: inherited,
        };
        assert_eq!(meta(&info), Err(Error::InvalidEndianness));
    }
}

#[test]
fn meta_that_is_no_mapping_is_a_shape_error() {
    let info = TypeData {
        map: vec![entry("meta", Node::Str("not-a-mapping".to_string()))],
        inherited_meta: Some(little()),
    };
    assert_eq!(
        meta(&info),
        Err(Error::InvalidAttrType {
            attr: "meta".to_string(),
            expected: Shape::Mapping,
            actual: Node::Str("not-a-mapping".to_string()),
        })
    );
}

#[test]
fn empty_own_meta_suppresses_inheritance_and_fails() {
    let info = TypeData {
        map: vec![entry("meta", Node::Mapping(Vec::new()))],
        inherited_meta: Some(little()),
    };
    assert_eq!(
        meta(&info),
        Err(Error::RequiredAttrNotFound {
            attr: "endian".to_string()
        })
    );
}

#[test]
fn endian_of_the_wrong_shape_is_a_shape_error() {
    let info = TypeData {
        map: vec![entry("meta", meta_block(Node::Int(1)))],
        inherited_meta: None,
    };
    assert_eq!(
        meta(&info),
        Err(Error::InvalidAttrType {
            attr: "endian".to_string(),
            expected: Shape::Str,
            actual: Node::Int(1),
        })
    );
}

#[test]
fn extra_keys_beside_endian_are_ignored() {
    let info = TypeData {
        map: vec![entry(
            "meta",
            Node::Mapping(vec![
                entry("id", Node::Str("file_header".to_string())),
                entry("endian", Node::Str("be".to_string())),
            ]),
        )],
        inherited_meta: None,
    };
    assert_eq!(meta(&info), Ok(big()));
}

#[test]
fn little_endian_resolves_too() {
    let info = TypeData {
        map: vec![
            entry("meta", meta_block(Node::Str("le".to_string()))),
            entry("seq", Node::Sequence(vec![Node::Null])),
        ],
        inherited_meta: None,
    };
    assert_eq!(meta(&info), Ok(little()));
}
