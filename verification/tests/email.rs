use itchat::utils::email::{
    normalize, render_verification_mail, replace_all, verification_code_matches, AccountInvite,
};
use itchat::structures::base::Base;
use itchat::utils::snowflakes::Snowflake;

fn norm(s: &str) -> Option<String> {
    normalize(s.to_string())
}

#[test]
fn normalizes_addresses() {
    assert_eq!(norm("John.Doe+news@Example.com").as_deref(), Some("johndoe@example.com"));
    assert_eq!(norm("plain@mail.org").as_deref(), Some("plain@mail.org"));
    assert_eq!(norm("a.b.c@x.y").as_deref(), Some("abc@x.y"));
    // The domain keeps its dots.
    assert_eq!(norm("x@a.b.c").as_deref(), Some("x@a.b.c"));
    // A `+` with nothing after it stays.
    assert_eq!(norm("ab+@x").as_deref(), Some("ab+@x"));
    // Everything from the `+` on goes.
    assert_eq!(norm("+tag@x.com").as_deref(), Some("@x.com"));
    // Leading `@`s are skipped.
    assert_eq!(norm("@@a@b").as_deref(), Some("a@b"));
    // The domain stops at a line break.
    assert_eq!(norm("a@b\nc").as_deref(), Some("a@b"));
}

#[test]
fn rejects_what_is_not_an_address() {
    assert_eq!(norm("no-at-sign"), None);
    assert_eq!(norm("user@"), None);
    assert_eq!(norm("@domain"), None);
    assert_eq!(norm(""), None);
    assert_eq!(norm("a@\nb"), None);
}

#[test]
fn replaces_like_std() {
    for (s, p, r) in [
        ("aaaa", "aa", "b"),
        ("hello %%X%% and %%X%%", "%%X%%", "yo"),
        ("abc", "d", "e"),
        ("", "x", "y"),
        ("xx", "x", ""),
        ("aaa", "aa", "aa"),
    ] {
        assert_eq!(replace_all(s, p, r), s.replace(p, r));
    }
}

#[test]
fn renders_the_verification_mail() {
    let template = "<a href=\"/verify/%%USER_ID%%/%%CODE%%\">%%EMAIL%%</a>";
    let body = render_verification_mail(template, "me@x.org", "c0de", Snowflake(42));
    assert_eq!(body, "<a href=\"/verify/42/c0de\">me@x.org</a>");
}

#[test]
fn verification_codes() {
    assert!(verification_code_matches("abc", Some("abc")));
    assert!(!verification_code_matches("abc", Some("abd")));
    assert!(!verification_code_matches("abc", Some("ab")));
    assert!(!verification_code_matches("abc", None));
}

#[test]
fn account_invite_rows() {
    let invite = AccountInvite { code: 7, used: false, taken_by: None };
    assert_eq!(invite.id(), 7);
    assert_eq!(AccountInvite::table_name(), "account_invites");
    assert_eq!(AccountInvite::primary_key(), "code");
    assert_eq!(AccountInvite::columns(), vec!["code", "used", "taken_by"]);
}
