//! The orchestration decisions for one webhook delivery: classifying the
//! event, selecting or creating the tracking comment, filtering changed
//! files, constructing fetch URLs, planning the two chat calls per file,
//! and assembling the response buffer. The surrounding binary performs
//! the network calls and feeds their results back in.

use vstd::prelude::*;

use crate::prompt::{
    format_prompt_or_empty, spec_rendered_or_empty, spec_self_contained_template,
};
use crate::settings::{spec_check_file_type, Settings};
use crate::text::{
    contains_str, lower_of, lowercase, spec_contains, spec_starts_with, spec_u64_string,
    starts_with_str, u64_to_string,
};
use crate::utils::{spec_truncate, truncate, CHAR_SOFT_LIMIT};

verus! {

/// Greeting that opens every comment the bot posts.
pub const BOT_GREETING: &'static str = "Hello, I am a [code review bot](https://github.com/flows-network/github-pr-review/) on [flows.network](https://flows.network/).\n\n";

/// Prefix by which the bot recognises its own comments.
pub const BOT_GREETING_CHECK: &'static str = "Hello, I am a [code review bot]";

/// Placeholder shown until the reviews arrive.
pub const BOT_WAITING_PLACEHOLDER: &'static str = "It could take a few minutes for me to analyze this PR. Please be patient.\n";

/// Header that opens the assembled reviews.
pub const BOT_REVIEWS_HEADER: &'static str = "Here are my reviews of changed source code files in this PR.\n\n------\n\n";

/// The pull-request actions the bot distinguishes.
#[derive(Clone, Copy, Debug, PartialEq, Eq, Structural)]
pub enum PullRequestAction {
    Opened,
    Synchronize,
    Other,
}

/// The issue-comment actions the bot distinguishes.
#[derive(Clone, Copy, Debug, PartialEq, Eq, Structural)]
pub enum IssueCommentAction {
    Created,
    Edited,
    Deleted,
}

/// One webhook delivery, reduced to the values the decisions read.
#[derive(Clone, Debug)]
pub enum EventInput {
    PullRequest { action: PullRequestAction, number: u64, title: Option<String> },
    IssueComment { action: IssueCommentAction, number: u64, title: String, body: Option<String> },
    Other,
}

/// What the delivery amounts to: a review run, or nothing.
#[derive(Clone, Debug)]
pub enum Classification {
    Proceed { new_commit: bool, pull_number: u64, subject: String },
    Skip,
}

/// The text of an optional string, the empty sequence when absent.
pub open spec fn spec_opt_text(t: Option<String>) -> Seq<char> {
    match t {
        Some(s) => s@,
        None => Seq::<char>::empty(),
    }
}

/// An issue comment invokes a review iff it was not deleted, does not come
/// from the bot itself, and contains the trigger phrase, case-insensitively.
pub open spec fn spec_comment_proceeds(
    setting: Settings,
    action: IssueCommentAction,
    body: Seq<char>,
) -> bool {
    &&& action != IssueCommentAction::Deleted
    &&& !spec_starts_with(body, BOT_GREETING_CHECK@)
    &&& spec_contains(lower_of(body), lower_of(setting.trigger_phrase@))
}

/// The full classification relation: what `classify` returns for every
/// event.
pub open spec fn spec_classified(setting: Settings, event: EventInput, c: Classification) -> bool {
    match event {
        EventInput::PullRequest { action, number, title } => {
            if action == PullRequestAction::Opened || action == PullRequestAction::Synchronize {
                c matches Classification::Proceed { new_commit, pull_number, subject }
                    && new_commit == (action == PullRequestAction::Synchronize) && pull_number
                    == number && subject@ == spec_opt_text(title)
            } else {
                c is Skip
            }
        },
        EventInput::IssueComment { action, number, title, body } => {
            if spec_comment_proceeds(setting, action, spec_opt_text(body)) {
                c matches Classification::Proceed { new_commit, pull_number, subject }
                    && new_commit == false && pull_number == number && subject@ == title@
            } else {
                c is Skip
            }
        },
        EventInput::Other => c is Skip,
    }
}

/// The owned text of an optional string, empty when absent.
fn opt_text(t: Option<String>) -> (r: String)
    ensures
        r@ == spec_opt_text(t),
{
    match t {
        Some(s) => s,
        None => String::new(),
    }
}

/// Classifies one delivery: a pull request that was opened or gained a
/// commit proceeds, and an issue comment proceeds only when it invokes a
/// review; everything else is a no-op.
pub fn classify(setting: &Settings, event: EventInput) -> (c: Classification)
    ensures
        spec_classified(*setting, event, c),
{
    match event {
        EventInput::PullRequest { action, number, title } => {
            match action {
                PullRequestAction::Opened => Classification::Proceed {
                    new_commit: false,
                    pull_number: number,
                    subject: opt_text(title),
                },
                PullRequestAction::Synchronize => Classification::Proceed {
                    new_commit: true,
                    pull_number: number,
                    subject: opt_text(title),
                },
                PullRequestAction::Other => Classification::Skip,
            }
        },
        EventInput::IssueComment { action, number, title, body } => {
            if action == IssueCommentAction::Deleted {
                return Classification::Skip;
            }
            let body_text = opt_text(body);
            if starts_with_str(body_text.as_str(), BOT_GREETING_CHECK) {
                return Classification::Skip;
            }
            let body_lower = lowercase(body_text.as_str());
            let trigger_lower = lowercase(setting.trigger_phrase.as_str());
            if !contains_str(body_lower.as_str(), trigger_lower.as_str()) {
                return Classification::Skip;
            }
            Classification::Proceed { new_commit: false, pull_number: number, subject: title }
        },
        EventInput::Other => Classification::Skip,
    }
}

/// An issue comment whose body lacks the trigger phrase, compared
/// case-insensitively, is classified as a no-op: the handler makes no
/// GitHub or chat calls for it.
pub proof fn lemma_comment_without_trigger_skips(
    setting: Settings,
    action: IssueCommentAction,
    number: u64,
    title: String,
    body: Option<String>,
    c: Classification,
)
    requires
        spec_classified(
            setting,
            EventInput::IssueComment { action, number, title, body },
            c,
        ),
        !spec_contains(lower_of(spec_opt_text(body)), lower_of(setting.trigger_phrase@)),
    ensures
        c is Skip,
{
}

/// Loop prevention: an issue comment that begins with the bot's own
/// greeting is classified as a no-op, whatever else it contains.
pub proof fn lemma_own_comment_skips(
    setting: Settings,
    action: IssueCommentAction,
    number: u64,
    title: String,
    body: Option<String>,
    c: Classification,
)
    requires
        spec_classified(
            setting,
            EventInput::IssueComment { action, number, title, body },
            c,
        ),
        spec_starts_with(spec_opt_text(body), BOT_GREETING_CHECK@),
    ensures
        c is Skip,
{
}

/// One existing comment on the pull request, as the listing returns it.
#[derive(Clone, Debug)]
pub struct CommentRecord {
    pub id: u64,
    pub body: Option<String>,
}

/// A comment the bot recognises as its own: its body starts with the
/// greeting prefix.
pub open spec fn spec_is_bot_comment(c: CommentRecord) -> bool {
    spec_starts_with(spec_opt_text(c.body), BOT_GREETING_CHECK@)
}

/// The selection relation: `None` exactly when no listed comment is the
/// bot's, otherwise the id of the first one that is.
pub open spec fn spec_selects_tracking(comments: Seq<CommentRecord>, r: Option<u64>) -> bool {
    match r {
        None => forall|i: int|
            0 <= i < comments.len() ==> !spec_is_bot_comment(#[trigger] comments[i]),
        Some(id) => exists|i: int|
            0 <= i < comments.len() && spec_is_bot_comment(#[trigger] comments[i]) && comments[i].id
                == id && (forall|j: int|
                0 <= j < i ==> !spec_is_bot_comment(#[trigger] comments[j])),
    }
}

/// Finds the comment to overwrite on a new commit: the first whose body
/// starts with the bot greeting, or nothing, in which case the flow
/// aborts rather than posting a second comment.
pub fn select_tracking_comment(comments: &Vec<CommentRecord>) -> (r: Option<u64>)
    ensures
        spec_selects_tracking(comments@, r),
{
    let n = comments.len();
    let mut i: usize = 0;
    while i < n
        invariant
            i <= n,
            n == comments@.len(),
            forall|j: int| 0 <= j < i ==> !spec_is_bot_comment(#[trigger] comments@[j]),
        decreases n - i,
    {
        let body_str = match &comments[i].body {
            Some(b) => b.as_str(),
            None => "",
        };
        proof {
            reveal_strlit("");
            assert(body_str@ == spec_opt_text(comments@[i as int].body));
        }
        if starts_with_str(body_str, BOT_GREETING_CHECK) {
            proof {
                assert(spec_is_bot_comment(comments@[i as int]));
            }
            return Some(comments[i].id);
        }
        i = i + 1;
    }
    None
}

/// On a new commit with no bot comment among those listed, nothing is
/// selected: the flow aborts without creating a new comment.
pub proof fn lemma_no_greeting_aborts(comments: Seq<CommentRecord>, r: Option<u64>)
    requires
        spec_selects_tracking(comments, r),
        forall|i: int| 0 <= i < comments.len() ==> !spec_is_bot_comment(#[trigger] comments[i]),
    ensures
        r is None,
{
}

/// The body of the freshly created tracking comment: greeting, then the
/// waiting placeholder.
pub fn initial_comment_body() -> (r: String)
    ensures
        r@ == BOT_GREETING@ + BOT_WAITING_PLACEHOLDER@,
{
    let mut s = String::from_str(BOT_GREETING);
    s.append(BOT_WAITING_PLACEHOLDER);
    s
}

/// The opening of the assembled response: greeting, then the reviews
/// header.
pub fn response_header() -> (r: String)
    ensures
        r@ == BOT_GREETING@ + BOT_REVIEWS_HEADER@,
{
    let mut s = String::from_str(BOT_GREETING);
    s.append(BOT_REVIEWS_HEADER);
    s
}

/// Every comment the bot writes is one its own scan recognises: both
/// bodies it ever posts start with the greeting prefix, so a later
/// synchronize event finds and overwrites them instead of double-posting.
pub proof fn lemma_bot_recognizes_own_comment()
    ensures
        spec_starts_with(BOT_GREETING@ + BOT_WAITING_PLACEHOLDER@, BOT_GREETING_CHECK@),
        spec_starts_with(BOT_GREETING@ + BOT_REVIEWS_HEADER@, BOT_GREETING_CHECK@),
{
    reveal_strlit("Hello, I am a [code review bot](https://github.com/flows-network/github-pr-review/) on [flows.network](https://flows.network/).\n\n");
    reveal_strlit("Hello, I am a [code review bot]");
    assert((BOT_GREETING@ + BOT_WAITING_PLACEHOLDER@).subrange(0, BOT_GREETING_CHECK@.len() as int)
        =~= BOT_GREETING_CHECK@);
    assert((BOT_GREETING@ + BOT_REVIEWS_HEADER@).subrange(0, BOT_GREETING_CHECK@.len() as int)
        =~= BOT_GREETING_CHECK@);
}

/// One changed file of the pull request, as the listing returns it.
#[derive(Clone, Debug)]
pub struct ChangedFile {
    pub filename: String,
    pub contents_url: String,
    pub blob_url: String,
    pub patch: Option<String>,
}

/// The trailing forty characters of a contents URL, read as the commit
/// hash; nothing when the URL is too short.
pub fn extract_commit_hash(contents_url: &str) -> (r: Option<&str>)
    ensures
        contents_url@.len() >= 40 ==> (r matches Some(h) && h@ == contents_url@.subrange(
            contents_url@.len() - 40,
            contents_url@.len() as int,
        )),
        contents_url@.len() < 40 ==> r is None,
{
    let n = contents_url.unicode_len();
    if n < 40 {
        None
    } else {
        Some(contents_url.substring_char(n - 40, n))
    }
}

/// The raw-content URL for one file at one commit.
pub open spec fn spec_raw_url(
    owner: Seq<char>,
    repo: Seq<char>,
    hash: Seq<char>,
    filename: Seq<char>,
) -> Seq<char> {
    "https://raw.githubusercontent.com/"@ + owner + "/"@ + repo + "/"@ + hash + "/"@ + filename
}

/// Builds the raw-content URL for one file at one commit.
pub fn build_raw_url(owner: &str, repo: &str, hash: &str, filename: &str) -> (r: String)
    ensures
        r@ == spec_raw_url(owner@, repo@, hash@, filename@),
{
    let mut s = String::from_str("https://raw.githubusercontent.com/");
    s.append(owner);
    s.append("/");
    s.append(repo);
    s.append("/");
    s.append(hash);
    s.append("/");
    s.append(filename);
    proof {
        assert(s@ =~= spec_raw_url(owner@, repo@, hash@, filename@));
    }
    s
}

/// The markdown heading that opens one file's section: the file name as a
/// link to its blob.
pub open spec fn spec_file_heading(filename: Seq<char>, blob_url: Seq<char>) -> Seq<char> {
    "## ["@ + filename + "]("@ + blob_url + ")\n\n"@
}

/// Builds the markdown heading that opens one file's section.
pub fn file_section_heading(filename: &str, blob_url: &str) -> (r: String)
    ensures
        r@ == spec_file_heading(filename@, blob_url@),
{
    let mut s = String::from_str("## [");
    s.append(filename);
    s.append("](");
    s.append(blob_url);
    s.append(")\n\n");
    proof {
        assert(s@ =~= spec_file_heading(filename@, blob_url@));
    }
    s
}

/// What to do with one changed file.
#[derive(Clone, Debug)]
pub enum FileAction {
    SkipExtension,
    SkipNoHash,
    Review { raw_url: String, heading: String },
}

/// Decides one file: skip it when its name matches no configured suffix
/// or its contents URL yields no commit hash; otherwise review it, with
/// the raw-content URL to fetch and the section heading to emit.
pub fn plan_file_review(setting: &Settings, owner: &str, repo: &str, file: &ChangedFile) -> (r:
    FileAction)
    ensures
        !spec_check_file_type(*setting, file.filename@) ==> r is SkipExtension,
        spec_check_file_type(*setting, file.filename@) && file.contents_url@.len() < 40 ==> r
            is SkipNoHash,
        spec_check_file_type(*setting, file.filename@) && file.contents_url@.len() >= 40 ==> (r
            matches FileAction::Review { raw_url, heading } && raw_url@ == spec_raw_url(
            owner@,
            repo@,
            file.contents_url@.subrange(
                file.contents_url@.len() - 40,
                file.contents_url@.len() as int,
            ),
            file.filename@,
        ) && heading@ == spec_file_heading(file.filename@, file.blob_url@)),
{
    if !setting.check_file_type(file.filename.as_str()) {
        return FileAction::SkipExtension;
    }
    match extract_commit_hash(file.contents_url.as_str()) {
        None => FileAction::SkipNoHash,
        Some(hash) => {
            let raw_url = build_raw_url(owner, repo, hash, file.filename.as_str());
            let heading = file_section_heading(file.filename.as_str(), file.blob_url.as_str());
            FileAction::Review { raw_url, heading }
        },
    }
}

/// The conversation identifier for one pull request.
pub fn chat_id(pull_number: u64) -> (r: String)
    ensures
        r@ == "PR#"@ + spec_u64_string(pull_number as nat),
{
    let mut s = String::from_str("PR#");
    let digits = u64_to_string(pull_number);
    s.append(digits.as_str());
    s
}

/// Renders the system prompt for a pull request with the given title.
pub fn build_system_prompt(setting: &Settings, subject: &str) -> (r: String)
    ensures
        spec_self_contained_template(setting.prompt.system_prompt@) ==> r@
            == spec_rendered_or_empty(setting.prompt.system_prompt@, "subject"@, subject@),
{
    format_prompt_or_empty(setting.prompt.system_prompt.as_str(), "subject", subject)
}

/// One chat-completion call to make: whether it restarts the conversation
/// context, and the question to ask.
#[derive(Clone, Debug)]
pub struct ChatRequest {
    pub restart: bool,
    pub question: String,
}

/// Plans the two sequential chat calls for one file: first the full-file
/// review, restarting the conversation context, then the diff summary,
/// continuing it. Both texts are bounded to the soft character limit
/// before substitution.
pub fn plan_file_chats(setting: &Settings, file_text: &str, patch: &Option<String>) -> (r: (
    ChatRequest,
    ChatRequest,
))
    ensures
        r.0.restart == true,
        r.1.restart == false,
        spec_self_contained_template(setting.prompt.review_code@) ==> r.0.question@
            == spec_rendered_or_empty(
            setting.prompt.review_code@,
            "code_message"@,
            spec_truncate(file_text@, CHAR_SOFT_LIMIT as nat),
        ),
        spec_self_contained_template(setting.prompt.summarize_diff@) ==> r.1.question@
            == spec_rendered_or_empty(
            setting.prompt.summarize_diff@,
            "patch_message"@,
            spec_truncate(spec_opt_text(*patch), CHAR_SOFT_LIMIT as nat),
        ),
{
    let truncated_file = truncate(file_text);
    let review_question = format_prompt_or_empty(
        setting.prompt.review_code.as_str(),
        "code_message",
        truncated_file,
    );
    let patch_str = match patch {
        Some(p) => p.as_str(),
        None => "",
    };
    proof {
        reveal_strlit("");
        assert(patch_str@ == spec_opt_text(*patch));
    }
    let truncated_patch = truncate(patch_str);
    let diff_question = format_prompt_or_empty(
        setting.prompt.summarize_diff.as_str(),
        "patch_message",
        truncated_patch,
    );
    (
        ChatRequest { restart: true, question: review_question },
        ChatRequest { restart: false, question: diff_question },
    )
}

/// Appends one chat answer to the response buffer; a failed call appends
/// nothing, so that section is simply omitted.
pub fn append_chat_answer(resp: &mut String, answer: &Option<String>)
    ensures
        final(resp)@ == old(resp)@ + (match *answer {
            Some(a) => a@ + "\n\n"@,
            None => Seq::<char>::empty(),
        }),
{
    match answer {
        Some(a) => {
            resp.append(a.as_str());
            resp.append("\n\n");
            proof {
                assert(resp@ =~= old(resp)@ + (a@ + "\n\n"@));
            }
        },
        None => {
            proof {
                assert(resp@ =~= old(resp)@ + Seq::<char>::empty());
            }
        },
    }
}

} // verus!
