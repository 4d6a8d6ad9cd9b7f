use github_pr_review::handler::{
    append_chat_answer, build_raw_url, build_system_prompt, chat_id, classify,
    extract_commit_hash, file_section_heading, initial_comment_body, plan_file_chats,
    plan_file_review, response_header, select_tracking_comment, ChangedFile, Classification,
    CommentRecord, EventInput, FileAction, IssueCommentAction, PullRequestAction, BOT_GREETING,
    BOT_GREETING_CHECK, BOT_REVIEWS_HEADER, BOT_WAITING_PLACEHOLDER,
};
use github_pr_review::prompt::{format_prompt, format_prompt_or_empty};
use github_pr_review::settings::Settings;

fn default_settings() -> Settings {
    Settings::from_parts(None, None, None, None, None, None, None, None)
}

fn comment_event(body: &str) -> EventInput {
    EventInput::IssueComment {
        action: IssueCommentAction::Created,
        number: 42,
        title: "Add feature".to_string(),
        body: Some(body.to_string()),
    }
}

#[test]
fn pr_opened_proceeds_without_new_commit() {
    let s = default_settings();
    let c = classify(
        &s,
        EventInput::PullRequest {
            action: PullRequestAction::Opened,
            number: 42,
            title: Some("Add feature".to_string()),
        },
    );
    match c {
        Classification::Proceed { new_commit, pull_number, subject } => {
            assert!(!new_commit);
            assert_eq!(pull_number, 42);
            assert_eq!(subject, "Add feature");
        }
        Classification::Skip => panic!("expected Proceed"),
    }
}

#[test]
fn pr_synchronize_proceeds_with_new_commit() {
    let s = default_settings();
    let c = classify(
        &s,
        EventInput::PullRequest {
            action: PullRequestAction::Synchronize,
            number: 7,
            title: None,
        },
    );
    match c {
        Classification::Proceed { new_commit, pull_number, subject } => {
            assert!(new_commit);
            assert_eq!(pull_number, 7);
            assert_eq!(subject, "");
        }
        Classification::Skip => panic!("expected Proceed"),
    }
}

#[test]
fn pr_other_action_skips() {
    let s = default_settings();
    let c = classify(
        &s,
        EventInput::PullRequest {
            action: PullRequestAction::Other,
            number: 42,
            title: Some("x".to_string()),
        },
    );
    assert!(matches!(c, Classification::Skip));
}

#[test]
fn comment_with_trigger_proceeds() {
    let s = default_settings();
    let c = classify(&s, comment_event("hey, flows review please"));
    match c {
        Classification::Proceed { new_commit, pull_number, subject } => {
            assert!(!new_commit);
            assert_eq!(pull_number, 42);
            assert_eq!(subject, "Add feature");
        }
        Classification::Skip => panic!("expected Proceed"),
    }
}

#[test]
fn trigger_match_is_case_insensitive() {
    let s = default_settings();
    let c = classify(&s, comment_event("FLOWS Review this one"));
    assert!(matches!(c, Classification::Proceed { .. }));
}

#[test]
fn comment_without_trigger_skips() {
    let s = default_settings();
    let c = classify(&s, comment_event("nice change, ship it"));
    assert!(matches!(c, Classification::Skip));
}

#[test]
fn comment_from_bot_itself_skips() {
    let s = default_settings();
    // Even with the trigger phrase present, a body that opens with the
    // bot's own greeting is ignored, to prevent a loop.
    let mut body = BOT_GREETING.to_string();
    body.push_str("flows review");
    let c = classify(&s, comment_event(&body));
    assert!(matches!(c, Classification::Skip));
}

#[test]
fn deleted_comment_skips() {
    let s = default_settings();
    let c = classify(
        &s,
        EventInput::IssueComment {
            action: IssueCommentAction::Deleted,
            number: 42,
            title: "t".to_string(),
            body: Some("flows review".to_string()),
        },
    );
    assert!(matches!(c, Classification::Skip));
}

#[test]
fn other_event_skips() {
    let s = default_settings();
    let c = classify(&s, EventInput::Other);
    assert!(matches!(c, Classification::Skip));
}

#[test]
fn no_greeting_comment_selects_nothing() {
    let comments = vec![
        CommentRecord { id: 1, body: Some("looks good".to_string()) },
        CommentRecord { id: 2, body: None },
    ];
    assert_eq!(select_tracking_comment(&comments), None);
    assert_eq!(select_tracking_comment(&Vec::new()), None);
}

#[test]
fn first_greeting_comment_is_selected() {
    let comments = vec![
        CommentRecord { id: 3, body: Some("unrelated".to_string()) },
        CommentRecord { id: 7, body: Some(initial_comment_body()) },
        CommentRecord { id: 9, body: Some(initial_comment_body()) },
    ];
    assert_eq!(select_tracking_comment(&comments), Some(7));
}

#[test]
fn created_comment_is_later_recognised() {
    // The body posted on a new pull request is one the synchronize path
    // finds again: the same comment is overwritten, never doubled.
    let posted = initial_comment_body();
    assert!(posted.starts_with(BOT_GREETING_CHECK));
    let comments = vec![CommentRecord { id: 11, body: Some(posted) }];
    assert_eq!(select_tracking_comment(&comments), Some(11));
    let overwritten = response_header();
    assert!(overwritten.starts_with(BOT_GREETING_CHECK));
}

#[test]
fn initial_body_and_header_texts() {
    let body = initial_comment_body();
    assert_eq!(body, format!("{}{}", BOT_GREETING, BOT_WAITING_PLACEHOLDER));
    let header = response_header();
    assert_eq!(header, format!("{}{}", BOT_GREETING, BOT_REVIEWS_HEADER));
}

#[test]
fn commit_hash_comes_from_url_tail() {
    let hash = "0123456789abcdef0123456789abcdef01234567";
    let url = format!("https://api.github.com/repos/o/r/contents/f?ref={}", hash);
    assert_eq!(extract_commit_hash(&url), Some(hash));
    assert_eq!(extract_commit_hash("too short"), None);
}

#[test]
fn raw_url_is_assembled_from_parts() {
    let r = build_raw_url("octo", "demo", "abc123", "src/main.py");
    assert_eq!(r, "https://raw.githubusercontent.com/octo/demo/abc123/src/main.py");
}

#[test]
fn section_heading_links_the_file() {
    let h = file_section_heading("foo.py", "https://github.com/o/r/blob/abc/foo.py");
    assert_eq!(h, "## [foo.py](https://github.com/o/r/blob/abc/foo.py)\n\n");
}

#[test]
fn chat_id_is_keyed_by_pull_number() {
    assert_eq!(chat_id(42), "PR#42");
    assert_eq!(chat_id(0), "PR#0");
    assert_eq!(chat_id(10070), "PR#10070");
}

#[test]
fn plan_skips_unmatched_extension() {
    let s = default_settings();
    let f = ChangedFile {
        filename: "README.md".to_string(),
        contents_url: "x".repeat(60),
        blob_url: "b".to_string(),
        patch: None,
    };
    assert!(matches!(plan_file_review(&s, "o", "r", &f), FileAction::SkipExtension));
}

#[test]
fn plan_skips_short_contents_url() {
    let s = default_settings();
    let f = ChangedFile {
        filename: "foo.py".to_string(),
        contents_url: "short".to_string(),
        blob_url: "b".to_string(),
        patch: None,
    };
    assert!(matches!(plan_file_review(&s, "o", "r", &f), FileAction::SkipNoHash));
}

#[test]
fn format_prompt_substitutes_the_value() {
    let r = format_prompt("Hello {{ name }}!", "name", "World").unwrap();
    assert_eq!(r, "Hello World!");
}

#[test]
fn format_prompt_reports_bad_template() {
    assert!(format_prompt("{{ unclosed", "k", "v").is_err());
    assert_eq!(format_prompt_or_empty("{{ unclosed", "k", "v"), "");
}

#[test]
fn system_prompt_mentions_the_subject() {
    let s = default_settings();
    let p = build_system_prompt(&s, "Fix the flux capacitor");
    assert!(p.contains("Fix the flux capacitor"));
    assert_ne!(p, s.prompt.system_prompt);
}

#[test]
fn opened_pr_with_one_python_file_gets_reviewed() {
    // One changed file matching the default extension set: the bot first
    // posts the greeting, then overwrites it with a linked heading for the
    // file followed by the two chat answers.
    let s = default_settings();
    let c = classify(
        &s,
        EventInput::PullRequest {
            action: PullRequestAction::Opened,
            number: 42,
            title: Some("Add foo".to_string()),
        },
    );
    let subject = match c {
        Classification::Proceed { new_commit, pull_number, subject } => {
            assert!(!new_commit);
            assert_eq!(pull_number, 42);
            subject
        }
        Classification::Skip => panic!("expected Proceed"),
    };

    // New pull request: a fresh tracking comment is created.
    let created = initial_comment_body();
    assert!(created.starts_with(BOT_GREETING));

    let hash = "0123456789abcdef0123456789abcdef01234567";
    let f = ChangedFile {
        filename: "foo.py".to_string(),
        contents_url: format!("https://api.github.com/repos/o/r/contents/foo.py?ref={}", hash),
        blob_url: "https://github.com/o/r/blob/0123/foo.py".to_string(),
        patch: Some("@@ -1 +1 @@\n-old\n+new\n".to_string()),
    };
    let (raw_url, heading) = match plan_file_review(&s, "o", "r", &f) {
        FileAction::Review { raw_url, heading } => (raw_url, heading),
        _ => panic!("expected Review"),
    };
    assert_eq!(
        raw_url,
        format!("https://raw.githubusercontent.com/o/r/{}/foo.py", hash)
    );
    assert!(heading.starts_with("## [foo.py]("));

    let _system = build_system_prompt(&s, &subject);
    let (first, second) = plan_file_chats(&s, "print('hi')\n", &f.patch);
    assert!(first.restart);
    assert!(!second.restart);
    assert!(first.question.contains("print('hi')"));
    assert!(second.question.contains("@@ -1 +1 @@"));

    // The fetched answers are appended under the heading.
    let mut resp = response_header();
    resp.push_str(&heading);
    append_chat_answer(&mut resp, &Some("The code looks fine.".to_string()));
    append_chat_answer(&mut resp, &Some("The patch renames old to new.".to_string()));

    assert!(resp.starts_with(BOT_GREETING));
    let pos = resp.find("## [foo.py](").expect("heading present");
    let after = &resp[pos..];
    let blocks: Vec<&str> = after.split("\n\n").filter(|b| !b.is_empty()).collect();
    assert!(blocks.len() >= 3);
    assert_eq!(blocks[1], "The code looks fine.");
    assert_eq!(blocks[2], "The patch renames old to new.");
}

#[test]
fn synchronized_pr_overwrites_the_prior_comment() {
    // A later commit on the same pull request: the prior greeting comment
    // is located and overwritten under the same id; no new comment is
    // created, and with no prior comment the flow aborts.
    let s = default_settings();
    let c = classify(
        &s,
        EventInput::PullRequest {
            action: PullRequestAction::Synchronize,
            number: 42,
            title: Some("Add foo".to_string()),
        },
    );
    assert!(matches!(c, Classification::Proceed { new_commit: true, .. }));

    let prior = CommentRecord { id: 1001, body: Some(initial_comment_body()) };
    let others = CommentRecord { id: 1000, body: Some("nice".to_string()) };
    let selected = select_tracking_comment(&vec![others, prior]);
    assert_eq!(selected, Some(1001));

    // Without a prior greeting comment nothing is selected: the flow
    // aborts instead of posting again.
    let none = select_tracking_comment(&vec![CommentRecord {
        id: 1,
        body: Some("unrelated".to_string()),
    }]);
    assert_eq!(none, None);

    let mut resp = response_header();
    append_chat_answer(&mut resp, &None);
    assert_eq!(resp, response_header());
}

#[test]
fn failed_chat_call_omits_its_section() {
    let mut resp = String::from("start\n");
    append_chat_answer(&mut resp, &None);
    assert_eq!(resp, "start\n");
    append_chat_answer(&mut resp, &Some("answer".to_string()));
    assert_eq!(resp, "start\nanswer\n\n");
}
