use proc_macro2::TokenStream;
use require_lifetimes::require_lifetimes;

const UNANNOTATED: &str =
    ":: core :: compile_error ! { \"In this function, all references must be annotated with a lifetime.\" }";
const ANONYMOUS: &str =
    ":: core :: compile_error ! { \"In this function, the anonymous lifetime is not allowed.\" }";
const INVALID_ITEM: &str = ":: core :: compile_error ! { \"Attribute not valid on this item type.\" }";

fn tokens_of(source: &str) -> TokenStream {
    source.parse().unwrap()
}

fn expansion(attr: &str, item: &str) -> String {
    match require_lifetimes(tokens_of(attr), tokens_of(item)) {
        Ok(expanded) => expanded.to_string(),
        Err(failure) => panic!("{}", failure.message),
    }
}

#[test]
fn function_without_references_is_unchanged() {
    assert_eq!(expansion("", "fn f(a: u8) -> u8 { a }"), "fn f (a : u8) -> u8 { a }");
}

#[test]
fn named_lifetimes_are_accepted() {
    let item = "fn f<'a>(a: &'a u8, b: &'static str, c: &'a mut [&'a u8]) -> &'a u8 { a }";
    assert_eq!(expansion("", item), tokens_of(item).to_string());
}

#[test]
fn argument_is_ignored_without_errors() {
    let item = "fn f<'a>(a: &'a u8) -> &'a u8 { a }";
    assert_eq!(expansion("!", item), tokens_of(item).to_string());
    assert_eq!(expansion("struct Gone;", item), tokens_of(item).to_string());
}

#[test]
fn missing_lifetime_is_reported_behind_the_function() {
    assert_eq!(
        expansion("", "fn f(a: &u8) {}"),
        format!("fn f (a : & u8) {{ }} {}", UNANNOTATED)
    );
}

#[test]
fn anonymous_lifetime_is_reported_behind_the_function() {
    assert_eq!(
        expansion("", "fn f(a: &'_ u8) {}"),
        format!("fn f (a : & '_ u8) {{ }} {}", ANONYMOUS)
    );
}

#[test]
fn exclamation_mark_replaces_the_function_with_nothing() {
    assert_eq!(expansion("!", "fn f(a: &u8) {}"), UNANNOTATED);
}

#[test]
fn other_argument_replaces_the_function() {
    assert_eq!(
        expansion("struct Gone;", "fn f(a: &'_ u8) {}"),
        format!("struct Gone ; {}", ANONYMOUS)
    );
    assert_eq!(
        expansion("! !", "fn f(a: &u8) {}"),
        format!("! ! {}", UNANNOTATED)
    );
}

#[test]
fn errors_come_in_the_order_of_the_signature() {
    assert_eq!(
        expansion("!", "fn f(a: &'_ u8, b: &u8, c: &'_ u8) -> &u8 { b }"),
        format!("{} {} {} {}", ANONYMOUS, UNANNOTATED, ANONYMOUS, UNANNOTATED)
    );
}

#[test]
fn references_inside_other_types_are_reported() {
    assert_eq!(expansion("!", "fn f(a: Vec<&u8>) {}"), UNANNOTATED);
    assert_eq!(expansion("!", "fn f(a: (u8, [&'_ u8; 2])) {}"), ANONYMOUS);
    assert_eq!(expansion("!", "fn f(a: *const &u8) {}"), UNANNOTATED);
    assert_eq!(expansion("!", "fn f() -> Option<&'_ u8> { None }"), ANONYMOUS);
}

#[test]
fn reference_to_a_reference_is_reported_from_the_outside_in() {
    assert_eq!(
        expansion("!", "fn f(a: &&'_ u8) {}"),
        format!("{} {}", UNANNOTATED, ANONYMOUS)
    );
    assert_eq!(expansion("!", "fn f<'a>(a: &'a &u8) {}"), UNANNOTATED);
}

#[test]
fn references_in_bounds_are_reported() {
    assert_eq!(
        expansion("!", "fn f<T>(t: T) where T: Fn(&u8) {}"),
        UNANNOTATED
    );
}

#[test]
fn references_in_the_body_are_not_reported() {
    let item = "fn f() { let a: &u8 = &1; let _: &'_ u8 = a; }";
    assert_eq!(expansion("!", item), tokens_of(item).to_string());
}

#[test]
fn receiver_is_a_reference_like_any_other() {
    assert_eq!(expansion("!", "fn f(&self) {}"), UNANNOTATED);
    assert_eq!(expansion("!", "fn f(&'_ mut self) {}"), ANONYMOUS);
    assert_eq!(expansion("!", "fn f(self: &Self) {}"), UNANNOTATED);
    let item = "fn f<'a>(&'a self, other: Self) {}";
    assert_eq!(expansion("!", item), tokens_of(item).to_string());
    let item = "fn f(self) {}";
    assert_eq!(expansion("!", item), tokens_of(item).to_string());
}

#[test]
fn literals_of_every_kind_are_read() {
    let item = "fn f() { let _ = (c\"x\", cr#\"y\"#, b\"z\", 'c', 1u8, 1.5e3, \"s\", r\"t\"); }";
    assert_eq!(expansion("!", item), tokens_of(item).to_string());
    assert_eq!(
        expansion("!", "fn f(a: &u8) -> [u8; 2] { c\"x\"; [0, 1] }"),
        UNANNOTATED
    );
}

#[test]
fn lifetime_that_only_starts_with_an_underscore_is_accepted() {
    let item = "fn f<'_a>(a: &'_a u8) {}";
    assert_eq!(expansion("!", item), tokens_of(item).to_string());
}

#[test]
fn item_that_is_no_function_gets_an_error() {
    assert_eq!(
        expansion("", "struct S;"),
        format!("struct S ; {}", INVALID_ITEM)
    );
    assert_eq!(
        expansion("!", "struct S { a: &u8 }"),
        format!("struct S {{ a : & u8 }} {}", INVALID_ITEM)
    );
}

#[test]
fn tokens_that_are_no_item_are_a_failure() {
    let expected = match syn::parse2::<syn::Item>(tokens_of("fn")) {
        Ok(_) => panic!("`fn` alone was parsed as an item"),
        Err(error) => error.to_string(),
    };
    assert!(!expected.is_empty());
    match require_lifetimes(tokens_of(""), tokens_of("fn")) {
        Ok(expanded) => panic!("expanded to {}", expanded),
        Err(failure) => assert_eq!(failure.message, expected),
    }
    assert!(require_lifetimes(tokens_of("!"), tokens_of("1 + 1")).is_err());
    assert!(require_lifetimes(tokens_of(""), tokens_of("")).is_err());
}
