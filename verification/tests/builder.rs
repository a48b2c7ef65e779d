use abseil::{Persist, PersistBuilder};

#[test]
fn new_names_only_the_application() {
    let persist = Persist::new("demo");
    assert_eq!(persist.identity(), ("", "", "demo"));
    assert!(persist.pretty());
    assert_eq!(persist.to_string(), "demo");
}

#[test]
fn builder_starts_where_new_does() {
    let built = Persist::builder("demo").build();
    let made = Persist::new("demo");
    assert_eq!(built.identity(), made.identity());
    assert_eq!(built.pretty(), made.pretty());
    assert_eq!(built.to_string(), made.to_string());
}

#[test]
fn builder_sets_each_field() {
    let persist = Persist::builder("editor")
        .with_qualifier("org")
        .with_organization("acme")
        .compact()
        .build();
    assert_eq!(persist.identity(), ("org", "acme", "editor"));
    assert!(!persist.pretty());
}

#[test]
fn qualifier_and_organization_commute() {
    let one = Persist::builder("app").with_qualifier("q").with_organization("o").build();
    let other = Persist::builder("app").with_organization("o").with_qualifier("q").build();
    assert_eq!(one.identity(), ("q", "o", "app"));
    assert_eq!(one.identity(), other.identity());
    assert_eq!(one.pretty(), other.pretty());
    assert_eq!(one.to_string(), other.to_string());
}

#[test]
fn last_value_of_a_field_wins() {
    let persist = Persist::builder("app")
        .with_qualifier("first")
        .with_organization("old")
        .with_qualifier("second")
        .with_organization("new")
        .build();
    assert_eq!(persist.identity(), ("second", "new", "app"));
}

#[test]
fn compact_leaves_the_identity_alone() {
    let before = Persist::builder("app").compact().with_qualifier("q").build();
    let after = Persist::builder("app").with_qualifier("q").compact().build();
    assert_eq!(before.identity(), ("q", "", "app"));
    assert_eq!(before.identity(), after.identity());
    assert!(!before.pretty());
    assert!(!after.pretty());
}

#[test]
fn compact_twice_is_compact() {
    let persist = Persist::builder("app").compact().compact().build();
    assert!(!persist.pretty());
}

#[test]
fn an_empty_qualifier_is_still_a_qualifier() {
    let persist = Persist::builder("app").with_qualifier("").build();
    assert_eq!(persist.identity(), ("", "", "app"));
    assert_eq!(persist.to_string(), "/app");
}

#[test]
fn name_lists_the_parts_that_are_set() {
    let full = Persist::builder("editor").with_qualifier("org").with_organization("acme").build();
    assert_eq!(full.to_string(), "org/acme/editor");
    let qualified = Persist::builder("editor").with_qualifier("org").build();
    assert_eq!(qualified.to_string(), "org/editor");
    let organized = Persist::builder("editor").with_organization("acme").build();
    assert_eq!(organized.to_string(), "acme/editor");
}

#[test]
fn name_keeps_other_scripts() {
    let persist = Persist::builder("éditeur").with_organization("société").build();
    assert_eq!(persist.to_string(), "société/éditeur");
    assert_eq!(persist.identity(), ("", "société", "éditeur"));
}

#[test]
fn clone_keeps_the_configuration() {
    let persist = Persist::builder("app").with_qualifier("q").compact().build();
    let copy = persist.clone();
    assert_eq!(copy.identity(), persist.identity());
    assert_eq!(copy.pretty(), persist.pretty());
}

#[test]
fn builder_is_a_value() {
    let builder: PersistBuilder = Persist::builder("app");
    let next: PersistBuilder = builder.with_organization("o");
    assert_eq!(next.build().identity(), ("", "o", "app"));
}
