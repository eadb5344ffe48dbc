use relay_core::text::contains_text;
use relay_core::text::ends_with;
use relay_core::text::file_stem;
use relay_core::text::char_is_lowercase;
use relay_core::text::contains_char;
use relay_core::text::is_resolver_comment;
use relay_core::text::before_first_dot;
use relay_core::text::after_first_dot;

#[test]
fn finds_the_resolver_marker() {
    assert!(contains_text("*\n * @RelayResolver User.name\n", "@RelayResolver"));
    assert!(!contains_text("* @RelayResolve", "@RelayResolver"));
    assert!(contains_text("abc", ""));
    assert!(!contains_text("", "a"));
}

#[test]
fn suffixes() {
    assert!(ends_with("UserFragment$key", "$key"));
    assert!(ends_with("User.graphql", ".graphql"));
    assert!(!ends_with("key", "$key"));
    assert!(!ends_with("User.graphql.ts", ".graphql"));
}

#[test]
fn characters() {
    assert!(contains_char("Client.greeting", '.'));
    assert!(!contains_char("greeting", '.'));
    assert!(char_is_lowercase('g'));
    assert!(!char_is_lowercase('G'));
    assert!(char_is_lowercase('é'));
}

#[test]
fn file_stems() {
    assert_eq!(file_stem("src/components/Viewer.ts"), Some("Viewer".to_string()));
    assert_eq!(file_stem("Profile.react.js"), Some("Profile.react".to_string()));
    assert_eq!(file_stem(""), None);
}

#[test]
fn resolver_comments() {
    assert!(is_resolver_comment("*\n * @RelayResolver\n"));
    assert!(!is_resolver_comment("* @relayresolver"));
}

#[test]
fn dotted_names_split_at_the_first_dot() {
    assert_eq!(before_first_dot("Client.greeting"), "Client");
    assert_eq!(after_first_dot("Client.greeting"), "greeting");
    assert_eq!(after_first_dot("A.b.c"), "b.c");
}
