use openapi_lambda::ir::CompileErrorKind;
use openapi_lambda::reference::{
    resolve_in, resolve_local_reference, resolve_reference, split_reference, DocCache, Node,
};

fn s(text: &str) -> String {
    text.to_string()
}

fn mapping(entries: Vec<(&str, Node)>) -> Node {
    Node::Mapping(entries.into_iter().map(|(key, node)| (s(key), node)).collect())
}

fn document() -> Node {
    mapping(vec![
        ("openapi", Node::Text(s("3.0.2"))),
        (
            "components",
            mapping(vec![(
                "schemas",
                mapping(vec![
                    ("Pet", mapping(vec![("type", Node::Text(s("object")))])),
                    ("Alias", mapping(vec![("$ref", Node::Text(s("#/components/schemas/Pet")))])),
                    ("Odd", mapping(vec![("$ref", Node::Number(s("5")))])),
                    ("Names", Node::Sequence(vec![Node::Text(s("a"))])),
                ]),
            )]),
        ),
    ])
}

#[test]
fn a_reference_is_a_document_and_a_path() {
    assert_eq!(
        split_reference("#/components/schemas/Pet"),
        Ok((s(""), s("components/schemas/Pet")))
    );
    assert_eq!(split_reference("pets.yaml#/Pet"), Ok((s("pets.yaml"), s("Pet"))));
    assert_eq!(split_reference("../a/b.yaml#/"), Ok((s("../a/b.yaml"), s(""))));
    for invalid in ["", "pets.yaml", "#Pet", "pets.yaml#", "a#/b#/c", "#"] {
        let error = split_reference(invalid).unwrap_err();
        assert_eq!(error.kind, CompileErrorKind::InvalidReference);
        assert_eq!(error.subject, invalid);
    }
}

#[test]
fn a_path_is_walked_through_the_mappings() {
    let doc = document();
    let found = resolve_in(&doc, "components/schemas/Pet", "#/components/schemas/Pet").unwrap();
    assert_eq!(found.root_rel_ref, "components/schemas/Pet");
    assert_eq!(found.target_name, "Pet");
    assert_eq!(found.target, &mapping(vec![("type", Node::Text(s("object")))]));

    let found = resolve_in(&doc, "components", "#/components").unwrap();
    assert_eq!(found.target_name, "components");
}

#[test]
fn a_segment_must_be_there_and_be_a_mapping() {
    let doc = document();
    let error = resolve_in(&doc, "components/schemas/Cat", "#/components/schemas/Cat").unwrap_err();
    assert_eq!(error.kind, CompileErrorKind::SegmentNotFound);
    assert_eq!(error.subject, "Cat");

    let error = resolve_in(&doc, "openapi", "#/openapi").unwrap_err();
    assert_eq!(error.kind, CompileErrorKind::NotAMapping);
    assert_eq!(error.subject, "openapi");

    let error = resolve_in(&doc, "components/schemas/Names", "x").unwrap_err();
    assert_eq!(error.kind, CompileErrorKind::NotAMapping);

    let error = resolve_in(&doc, "", "#/").unwrap_err();
    assert_eq!(error.kind, CompileErrorKind::SegmentNotFound);
    assert_eq!(error.subject, "");

    let error = resolve_in(&Node::Null, "a", "#/a").unwrap_err();
    assert_eq!(error.kind, CompileErrorKind::NotAMapping);
}

#[test]
fn a_reference_to_a_reference_is_an_error() {
    let doc = document();
    let error =
        resolve_in(&doc, "components/schemas/Alias", "#/components/schemas/Alias").unwrap_err();
    assert_eq!(error.kind, CompileErrorKind::ReferenceChain);
    assert_eq!(error.subject, "#/components/schemas/Alias");

    // Only a text makes a reference.
    assert!(resolve_in(&doc, "components/schemas/Odd", "#/components/schemas/Odd").is_ok());
}

#[test]
fn a_local_reference_names_no_document() {
    let doc = document();
    let found = resolve_local_reference("#/components/schemas/Pet", &doc).unwrap();
    assert_eq!(found.target_name, "Pet");

    let error = resolve_local_reference("pets.yaml#/Pet", &doc).unwrap_err();
    assert_eq!(error.kind, CompileErrorKind::NonLocalReference);
    assert_eq!(error.subject, "pets.yaml#/Pet");

    assert_eq!(
        resolve_local_reference("nonsense", &doc).unwrap_err().kind,
        CompileErrorKind::InvalidReference
    );
}

#[test]
fn a_document_is_kept_once() {
    let mut cache = DocCache::new();
    assert!(!cache.contains("api/openapi.yaml"));
    cache.insert(s("api/openapi.yaml"), document());
    assert!(cache.contains("api/openapi.yaml"));
    cache.insert(s("api/openapi.yaml"), Node::Null);
    assert_eq!(cache.docs.len(), 1);
    assert_eq!(cache.docs[0].1, document());
}

#[test]
fn a_reference_is_resolved_in_the_document_it_names() {
    let mut cache = DocCache::new();
    cache.insert(s("api/openapi.yaml"), document());
    cache.insert(
        s("api/shared/pets.yaml"),
        mapping(vec![("Cat", mapping(vec![("type", Node::Text(s("string")))]))]),
    );

    let (doc_path, found) =
        resolve_reference("api/openapi.yaml", "#/components/schemas/Pet", &cache).unwrap();
    assert_eq!(doc_path, "api/openapi.yaml");
    assert_eq!(found.target_name, "Pet");

    let (doc_path, found) =
        resolve_reference("api/openapi.yaml", "shared/pets.yaml#/Cat", &cache).unwrap();
    assert_eq!(std::path::Path::new(&doc_path), std::path::Path::new("api/shared/pets.yaml"));
    assert_eq!(found.root_rel_ref, "Cat");
    assert_eq!(found.target, &mapping(vec![("type", Node::Text(s("string")))]));

    // From the other document, a reference without a document stays there.
    let (doc_path, found) = resolve_reference("api/shared/pets.yaml", "#/Cat", &cache).unwrap();
    assert_eq!(doc_path, "api/shared/pets.yaml");
    assert_eq!(found.target_name, "Cat");
}

#[test]
fn a_document_that_is_not_loaded_is_named() {
    let mut cache = DocCache::new();
    cache.insert(s("api/openapi.yaml"), document());
    let error = resolve_reference("api/openapi.yaml", "other.yaml#/Cat", &cache).unwrap_err();
    assert_eq!(error.kind, CompileErrorKind::DocumentNotLoaded);
    assert_eq!(std::path::Path::new(&error.subject), std::path::Path::new("api/other.yaml"));
}
