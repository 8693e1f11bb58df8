use telescope::assignments::FormData;
use telescope::avatar::{gravatar_url, picture_url};
use telescope::email::Email;
use telescope::forms::{EmailField, PasswordRecoveryPage};
use telescope::oauth::GitHubOauth;
use uuid::Uuid;

#[test]
fn recovery_page_starts_empty() {
    let page = PasswordRecoveryPage::new();
    assert!(!page.success);
    assert_eq!(page.email_field(), &EmailField { id: "email-input".to_string(), value: None, error: None });
}

#[test]
fn recovery_page_keeps_email_and_error() {
    let page = PasswordRecoveryPage::new().email("a@b.edu").error("No such account");
    let field = page.email_field();
    assert_eq!(field.id, "email-input");
    assert_eq!(field.value, Some("a@b.edu".to_string()));
    assert_eq!(field.error, Some("No such account".to_string()));
}

#[test]
fn rcs_ids_are_split_without_white_space() {
    let form = FormData { project_id: Some(3), rcs_ids: Some(" smithj, doej2 ,\tlee\n".to_string()) };
    assert_eq!(form.rcs_id_list(), vec!["smithj".to_string(), "doej2".to_string(), "lee".to_string()]);
}

#[test]
fn rcs_ids_keep_empty_entries() {
    let form = FormData { project_id: None, rcs_ids: Some("a,,b,".to_string()) };
    assert_eq!(
        form.rcs_id_list(),
        vec!["a".to_string(), "".to_string(), "b".to_string(), "".to_string()]
    );
    let none = FormData { project_id: None, rcs_ids: None };
    assert_eq!(none.rcs_id_list(), vec!["".to_string()]);
}

#[test]
fn gravatar_of_trimmed_lowercase_address() {
    assert_eq!(
        gravatar_url("  MyEmailAddress@example.com "),
        "https://www.gravatar.com/avatar/0bc83cb571cd1c50ba6f3e8a78ef1346?d=identicon&s=600"
    );
}

#[test]
fn email_must_match_pattern() {
    let id = Uuid::nil();
    let e = Email::new(id, "student@rpi.edu").expect("valid address");
    assert_eq!(e.address(), "student@rpi.edu");
    assert!(!e.is_visible);
    assert_eq!(e.user_id, id);
    assert!(Email::new(id, "student@rpi").is_none());
    assert!(Email::new(id, "not an address").is_none());
    assert!(Email::new(id, "stu1@rpi.edu").is_none());
}

#[test]
fn github_scopes_and_name() {
    assert_eq!(GitHubOauth::scopes(), vec!["read:user".to_string()]);
    assert_eq!(GitHubOauth::service_name(), "github");
}

#[test]
fn picture_prefers_the_set_location() {
    let emails = vec![Email::new(Uuid::nil(), "student@rpi.edu").expect("valid address")];
    let location = Some("https://example.com/me.png".to_string());
    assert_eq!(picture_url(&location, &emails), "https://example.com/me.png");
    assert_eq!(picture_url(&location, &vec![]), "https://example.com/me.png");
}

#[test]
fn picture_falls_back_to_first_address() {
    let emails = vec![
        Email::new(Uuid::nil(), "MyEmailAddress@example.com").expect("valid address"),
        Email::new(Uuid::nil(), "other@example.com").expect("valid address"),
    ];
    assert_eq!(
        picture_url(&None, &emails),
        "https://www.gravatar.com/avatar/0bc83cb571cd1c50ba6f3e8a78ef1346?d=identicon&s=600"
    );
}
