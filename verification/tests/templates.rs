use issue_bot::conf::Configuration;
use issue_bot::error::{Error, ErrorKind};
use issue_bot::issue::Issue;
use issue_bot::templates::{
    change_subscription_error, change_subscription_failure, change_subscription_success,
    close_failure, close_success, invalid_request, new_issue_failure, new_issue_success,
    new_reply_failure, new_reply_success, reply_update,
};
use issue_bot::token::Token;

fn conf() -> Configuration {
    Configuration {
        tag: "issues".to_string(),
        auth_token: "0123456789abcdef".to_string(),
        local_part: "issues".to_string(),
        domain: "example.com".to_string(),
        base_url: "https://git.example.com".to_string(),
        repo: "owner/repo".to_string(),
        bot_name: "IssueBot".to_string(),
        bot_username: "issuebot".to_string(),
        mailer: "sendmail -t".to_string(),
        log_file: "issue_bot.log".to_string(),
        dry_run: false,
    }
}

fn token() -> Token {
    Token { value: 0x67e55044_10b1_426f_9247_bb680e5fe0c8 }
}

#[test]
fn new_issue_failure_gives_the_reason() {
    assert_eq!(
        new_issue_failure(Error::new("Not found"), &conf()),
        "Hello,\n\nUnfortunately we were not able to create your issue. The reason was: `Not found`. Please contact the repository's owners for assistance.\n\nThis is an automated email from IssueBot <issues+help@example.com>"
    );
}

#[test]
fn new_issue_success_lists_the_addresses() {
    assert_eq!(
        new_issue_success("Crash on save".to_string(), token(), 42, &conf()),
        "Hello,\n\nYou have successfully submitted an issue titled \"Crash on save\". Your issue can be found at\n\nhttps://git.example.com/owner/repo/issues/42\n\nYou will receive replies from other users. To unsubscribe from the conversation, send an email to issues+67e55044-10b1-426f-9247-bb680e5fe0c8+unsubscribe@example.com.\n\nTo reply to other users or post new comments, send your text to issues+67e55044-10b1-426f-9247-bb680e5fe0c8+reply@example.com.\n\nTo close the issue, send an email to issues+67e55044-10b1-426f-9247-bb680e5fe0c8+close@example.com.\n\nPlease keep this email in order to be able to keep in touch with your issue.\n\nThis is an automated email from IssueBot <issues+help@example.com>"
    );
}

#[test]
fn new_reply_failure_gives_the_reason() {
    assert_eq!(
        new_reply_failure(Error::with_kind(ErrorKind::NotFound, "Not found"), &conf()),
        "Hello,\n\nUnfortunately we were not able to post your reply. The reason was: `Not found`. Please contact the repository's owners for assistance.\n\nThis is an automated email from IssueBot <issues+help@example.com>"
    );
}

#[test]
fn new_reply_success_when_subscribed() {
    assert_eq!(
        new_reply_success("Crash on save".to_string(), token(), 42, true, &conf()),
        "Hello,\n\nYour reply to issue \"Crash on save\" has been successfully posted. You can view the discussion here:\n\nhttps://git.example.com/owner/repo/issues/42\n\nYou will receive replies from other users. To unsubscribe from the conversation, send an email to issues+67e55044-10b1-426f-9247-bb680e5fe0c8+unsubscribe@example.com.\n\nTo reply to other users or post new comments, send your text to issues+67e55044-10b1-426f-9247-bb680e5fe0c8+reply@example.com.\n\nTo close the issue, send an email to issues+67e55044-10b1-426f-9247-bb680e5fe0c8+close@example.com.\n\nPlease keep this email in order to be able to keep in touch with your issue.\n\nThis is an automated email from IssueBot <issues+help@example.com>"
    );
}

#[test]
fn new_reply_success_when_not_subscribed() {
    assert_eq!(
        new_reply_success("Crash on save".to_string(), token(), 42, false, &conf()),
        "Hello,\n\nYour reply to issue \"Crash on save\" has been successfully posted. You can view the discussion here:\n\nhttps://git.example.com/owner/repo/issues/42\n\nYou will not receive replies from other users. To subscribe to the conversation, send an email to issues+67e55044-10b1-426f-9247-bb680e5fe0c8+subscribe@example.com.\n\nTo reply to other users or post new comments, send your text to issues+67e55044-10b1-426f-9247-bb680e5fe0c8+reply@example.com.\n\nTo close the issue, send an email to issues+67e55044-10b1-426f-9247-bb680e5fe0c8+close@example.com.\n\nPlease keep this email in order to be able to keep in touch with your issue.\n\nThis is an automated email from IssueBot <issues+help@example.com>"
    );
}

#[test]
fn close_success_names_the_issue() {
    assert_eq!(
        close_success("Crash on save".to_string(), -7, &conf()),
        "Hello,\n\nYour issue \"Crash on save\" has been successfully closed. You can view the discussion here:\n\nhttps://git.example.com/owner/repo/issues/-7\n\nThis is an automated email from IssueBot <issues+help@example.com>"
    );
}

#[test]
fn close_failure_gives_the_reason() {
    assert_eq!(
        close_failure(Error::new("Issue cannot be closed due to an internal error."), &conf()),
        "Hello,\n\nUnfortunately we were not able to close this issue. The reason was: `Issue cannot be closed due to an internal error.`. Please contact the repository's owners for assistance.\n\nThis is an automated email from IssueBot <issues+help@example.com>"
    );
}

#[test]
fn invalid_request_lists_valid_requests() {
    assert_eq!(
        invalid_request(&conf()),
        "Hello,\n\nYour request was not correct. Here are the valid requests you can ask from this bot:\n\n- post a new issue eponymously: send an e-mail with the issue title as the subject and the issue body as the email body to issues@example.com. On success a password will be given that allows you to reply, close the issue, and also change your subscription to the discussion.\n- post a new issue anonymously: send an email as above to the address issues+anonymous@example.com. IssueBot will replace your name with 'Anonymous'\n\nIf p is the given password, you may perform actions on your issue as follows:\n\n- reply: issues+p+reply@example.com. Subject value can be anything.\n- close issue: issues+p+close@example.com email content can be anything\n- change subscription: issues+p+unsubscribe@example.com and issues+p+subscribe@example.com\n\nThis is an automated email from IssueBot <issues+help@example.com>"
    );
}

#[test]
fn change_subscription_success_when_subscribed() {
    assert_eq!(
        change_subscription_success("Crash on save".to_string(), token(), 42, true, &conf()),
        "Hello,\n\nYour subscription change to issue \"Crash on save\" has been successfully performed. You can view the discussion here:\n\nhttps://git.example.com/owner/repo/issues/42\n\nYou will receive replies from other users. To unsubscribe to the conversation, send an email to issues+67e55044-10b1-426f-9247-bb680e5fe0c8+unsubscribe@example.com.\n\nTo reply to other users or post new comments, send your text to issues+67e55044-10b1-426f-9247-bb680e5fe0c8+reply@example.com.\n\nTo close the issue, send an email to issues+67e55044-10b1-426f-9247-bb680e5fe0c8+close@example.com.\n\nPlease keep this email in order to be able to keep in touch with your issue.\n\nThis is an automated email from IssueBot <issues+help@example.com>"
    );
}

#[test]
fn change_subscription_success_when_unsubscribed() {
    assert_eq!(
        change_subscription_success("Crash on save".to_string(), token(), 42, false, &conf()),
        "Hello,\n\nYour subscription change to issue \"Crash on save\" has been successfully performed. You can view the discussion here:\n\nhttps://git.example.com/owner/repo/issues/42\n\nYou will not receive replies from other users. To subscribe to the conversation, send an email to issues+67e55044-10b1-426f-9247-bb680e5fe0c8+subscribe@example.com.\n\nTo reply to other users or post new comments, send your text to issues+67e55044-10b1-426f-9247-bb680e5fe0c8+reply@example.com.\n\nTo close the issue, send an email to issues+67e55044-10b1-426f-9247-bb680e5fe0c8+close@example.com.\n\nPlease keep this email in order to be able to keep in touch with your issue.\n\nThis is an automated email from IssueBot <issues+help@example.com>"
    );
}

#[test]
fn change_subscription_failure_with_the_flag_set() {
    assert_eq!(
        change_subscription_failure(true, &conf()),
        "Hello,\n\nYour subscription change was unsuccessful. You are already unsubscribed.\n\nThis is an automated email from IssueBot <issues+help@example.com>"
    );
}

#[test]
fn change_subscription_failure_with_the_flag_unset() {
    assert_eq!(
        change_subscription_failure(false, &conf()),
        "Hello,\n\nYour subscription change was unsuccessful. You are already subscribed.\n\nThis is an automated email from IssueBot <issues+help@example.com>"
    );
}

#[test]
fn change_subscription_error_gives_the_reason() {
    assert_eq!(
        change_subscription_error(Error::with_kind(ErrorKind::NotFound, "Issue not found"), &conf()),
        "Hello,\n\nUnfortunately we were not able to change your subscription. The reason was: `Issue not found`. Please contact the repository's owners for assistance.\n\nThis is an automated email from IssueBot <issues+help@example.com>"
    );
}

#[test]
fn reply_update_with_one_comment() {
    let issue = Issue {
        id: 42,
        submitter: "a@x.com".to_string(),
        token: token(),
        created_at: "2024-01-01T00:00:00.000Z".to_string(),
        anonymous: false,
        subscribed: true,
        title: "Crash on save".to_string(),
        watermark: String::new(),
    };
    assert_eq!(
        reply_update(&issue, &conf(), vec!["first".to_string()]),
        "Hello,\n\nThere have been new replies in issue `Crash on save`. You are receiving this notice because you are subscribed to the discussion. To unsubscribe, send an email to issues+67e55044-10b1-426f-9247-bb680e5fe0c8+unsubscribe@example.com\n\nfirst\n\nThis is an automated email from IssueBot <issues+help@example.com>"
    );
}

#[test]
fn reply_update_joins_comments_in_order() {
    let issue = Issue {
        id: 42,
        submitter: "a@x.com".to_string(),
        token: token(),
        created_at: "2024-01-01T00:00:00.000Z".to_string(),
        anonymous: false,
        subscribed: true,
        title: "Crash on save".to_string(),
        watermark: String::new(),
    };
    let comments = vec![
        "first".to_string(),
        "User ann replied:\n\nsecond".to_string(),
        "third".to_string(),
    ];
    assert_eq!(
        reply_update(&issue, &conf(), comments),
        "Hello,\n\nThere have been new replies in issue `Crash on save`. You are receiving this notice because you are subscribed to the discussion. To unsubscribe, send an email to issues+67e55044-10b1-426f-9247-bb680e5fe0c8+unsubscribe@example.com\n\nfirst\n\n-------------------------------------------------------------------------\n\nUser ann replied:\n\nsecond\n\n-------------------------------------------------------------------------\n\nthird\n\nThis is an automated email from IssueBot <issues+help@example.com>"
    );
}
