//! Usage tracking of collected attribute entries.

use evitable::attrs::Attrs;
use evitable::from_meta::FromMeta;
use evitable::meta::{Lit, Meta, MetaList, MetaNameValue, MetaValue, NestedMeta, Path};

fn path1(s: &str) -> Path {
    Path { leading_colon: false, segments: vec![s.to_string()] }
}

/// `evitable(flag, name = "x")`
fn collected() -> Attrs {
    let metas = vec![Meta::List(MetaList {
        path: path1("evitable"),
        nested: vec![
            NestedMeta::Meta(Meta::Path(path1("flag"))),
            NestedMeta::Meta(Meta::NameValue(MetaNameValue {
                path: path1("name"),
                val: MetaValue::Lit(Lit::Str("x".to_string())),
            })),
        ],
    })];
    Attrs::from_metas(&metas, "evitable").expect("collection should succeed")
}

#[test]
fn entries_read_by_name_are_marked_used() {
    let mut attrs = collected();
    // nothing read yet: closing the collection names the first unread entry
    assert!(attrs.ensure_used().is_err());

    let flag: Option<bool> = attrs.get_optional::<bool>("flag").unwrap();
    assert_eq!(flag, Some(true));
    // one entry is still unread
    assert!(attrs.ensure_used().is_err());

    let name: Option<String> = attrs.get_optional::<String>("name").unwrap();
    assert_eq!(name, Some("x".to_string()));
    // every entry was read by exactly one call: the collection closes
    assert!(attrs.ensure_used().is_ok());
}

#[test]
fn absent_names_do_not_mark() {
    let mut attrs = collected();
    let missing: Option<bool> = attrs.get_optional::<bool>("absent").unwrap();
    assert_eq!(missing, None);
    assert!(attrs.ensure_used().is_err());
}

#[test]
fn a_failed_read_still_marks_its_entry() {
    let mut attrs = collected();
    // `name = "x"` does not read as a number, but the entry was consumed
    assert!(attrs.get_optional::<u8>("name").is_err());
    let flag: Option<bool> = attrs.get_optional::<bool>("flag").unwrap();
    assert_eq!(flag, Some(true));
    assert!(attrs.ensure_used().is_ok());
}

#[test]
fn get_list_aggregates_every_entry_of_the_name() {
    // evitable(from = A, from = B)
    let metas = vec![Meta::List(MetaList {
        path: path1("evitable"),
        nested: vec![
            NestedMeta::Meta(Meta::NameValue(MetaNameValue {
                path: path1("from"),
                val: MetaValue::Path(path1("A")),
            })),
            NestedMeta::Meta(Meta::NameValue(MetaNameValue {
                path: path1("from"),
                val: MetaValue::Path(path1("B")),
            })),
        ],
    })];
    let mut attrs = Attrs::from_metas(&metas, "evitable").expect("collection should succeed");
    let froms: Vec<evitable::from_impl::FromImpl> = attrs.get_list("from").unwrap();
    assert_eq!(froms.len(), 2);
    assert_eq!(froms[0].path.segments, vec!["A".to_string()]);
    assert_eq!(froms[1].path.segments, vec!["B".to_string()]);
    assert!(attrs.ensure_used().is_ok());
}

#[test]
fn raw_literal_items_are_rejected() {
    let metas = vec![Meta::List(MetaList {
        path: path1("evitable"),
        nested: vec![NestedMeta::Lit(Lit::Int(3, String::new()))],
    })];
    assert!(Attrs::from_metas(&metas, "evitable").is_err());
}

#[test]
fn other_namespaces_are_skipped() {
    let metas = vec![
        Meta::Path(path1("derive")),
        Meta::List(MetaList { path: path1("serde"), nested: vec![] }),
    ];
    let attrs = Attrs::from_metas(&metas, "evitable").expect("collection should succeed");
    assert!(attrs.ensure_used().is_ok());
}
