use issue_bot::conf::Configuration;
use issue_bot::mail::Mail;

fn conf() -> Configuration {
    Configuration {
        tag: "meli-issues".to_string(),
        auth_token: "0123456789abcdef".to_string(),
        local_part: "issues".to_string(),
        domain: "meli.delivery".to_string(),
        base_url: "https://git.meli.delivery".to_string(),
        repo: "meli/meli".to_string(),
        bot_name: "IssueBot".to_string(),
        bot_username: "issuebot".to_string(),
        mailer: "sendmail -t".to_string(),
        log_file: "issue_bot.log".to_string(),
        dry_run: false,
    }
}

#[test]
fn mail_is_from_the_bot_with_the_tag_in_the_subject() {
    let mail = Mail::new(&conf(), "a@x.com", "invalid request", "body".to_string());
    assert_eq!(mail.from, "issues@meli.delivery");
    assert_eq!(mail.to, "a@x.com");
    assert_eq!(mail.subject, "[meli-issues] invalid request");
    assert_eq!(mail.body, "body");
}

#[test]
fn titled_mail_puts_the_title_between_head_and_tail() {
    let mail = Mail::titled(&conf(), "a@x.com", "issue `", "Crash", "` has been closed", String::new());
    assert_eq!(mail.subject, "[meli-issues] issue `Crash` has been closed");
    assert_eq!(mail.from, "issues@meli.delivery");
    assert_eq!(mail.body, "");
}
