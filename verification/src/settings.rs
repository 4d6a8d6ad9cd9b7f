//! Configuration: model choice, prompt templates, accepted file suffixes,
//! output language and trigger phrase, with built-in defaults for every
//! value that the environment leaves unset.

use vstd::prelude::*;

use crate::text::{ends_with_str, spec_ends_with, str_eq};

verus! {

/// Default phrase that must occur in an issue comment to invoke a review.
pub const DEFAULT_TRIGGER_PHRASE: &'static str = "flows review";

/// Default chat model identifier, the lowest-cost tier.
pub const DEFAULT_MODEL_NAME: &'static str = "gpt3.5-turbo";

/// Default system prompt; `{{ subject }}` is replaced by the pull request
/// title.
pub const DEFAULT_PROMPT_SYSTEM: &'static str = "Act as an experienced software developer reviewing the pull request titled \"{{ subject }}\". Answer precisely and concisely.";

/// Default translation prompt; `{{ language }}` and `{{ text }}` are
/// replaced by the target language and the text to translate.
pub const DEFAULT_PROMPT_TRANSLATION: &'static str = "Translate the following text into {{ language }}, keeping the markdown formatting intact:\n{{ text }}";

/// Default review prompt; `{{ code_message }}` is replaced by the file
/// contents.
pub const DEFAULT_PROMPT_REVIEW_CODE: &'static str = "Review the following source code file and point out potential problems:\n{{ code_message }}";

/// Default diff-summary prompt; `{{ patch_message }}` is replaced by the
/// patch text.
pub const DEFAULT_PROMPT_SUMMARIZE_DIFF: &'static str = "The following is a patch of the file you just reviewed. Summarize the key changes it makes:\n{{ patch_message }}";

/// The chat models the bot can be configured to use.
#[derive(Clone, Copy, Debug, PartialEq, Eq, Structural)]
pub enum OpenAIModel {
    GPT4_32K,
    GPT4,
    GPT35Turbo,
}

/// The model named by `s`; any unrecognised name falls back to the
/// default model.
pub open spec fn spec_parse_model(s: Seq<char>) -> OpenAIModel {
    if s == "gpt4-32k"@ {
        OpenAIModel::GPT4_32K
    } else if s == "gpt4"@ {
        OpenAIModel::GPT4
    } else {
        OpenAIModel::GPT35Turbo
    }
}

/// Parses a model name, falling back to the default model on anything
/// unrecognised (including the default name itself).
pub fn parse_model(s: &str) -> (r: OpenAIModel)
    ensures
        r == spec_parse_model(s@),
{
    if str_eq(s, "gpt4-32k") {
        OpenAIModel::GPT4_32K
    } else if str_eq(s, "gpt4") {
        OpenAIModel::GPT4
    } else {
        OpenAIModel::GPT35Turbo
    }
}

/// The built-in set of accepted source-file suffixes.
pub open spec fn spec_default_filetypes() -> Seq<Seq<char>> {
    seq![
        ".js"@,
        ".py"@,
        ".java"@,
        ".ts"@,
        ".c"@,
        ".cc"@,
        ".cpp"@,
        ".cs"@,
        ".go"@,
        ".rs"@,
        ".sh"@,
        ".rb"@,
        ".php"@,
        ".lua"@,
        ".kt"@,
        ".swift"@,
        ".scala"@,
        ".pl"@,
        ".dart"@,
        ".jl"@,
    ]
}

/// Builds the built-in suffix set as owned strings.
pub fn default_source_filetypes() -> (r: Vec<String>)
    ensures
        r.deep_view() == spec_default_filetypes(),
{
    let mut v: Vec<String> = Vec::new();
    v.push(String::from_str(".js"));
    v.push(String::from_str(".py"));
    v.push(String::from_str(".java"));
    v.push(String::from_str(".ts"));
    v.push(String::from_str(".c"));
    v.push(String::from_str(".cc"));
    v.push(String::from_str(".cpp"));
    v.push(String::from_str(".cs"));
    v.push(String::from_str(".go"));
    v.push(String::from_str(".rs"));
    v.push(String::from_str(".sh"));
    v.push(String::from_str(".rb"));
    v.push(String::from_str(".php"));
    v.push(String::from_str(".lua"));
    v.push(String::from_str(".kt"));
    v.push(String::from_str(".swift"));
    v.push(String::from_str(".scala"));
    v.push(String::from_str(".pl"));
    v.push(String::from_str(".dart"));
    v.push(String::from_str(".jl"));
    proof {
        assert(v.deep_view() =~~= spec_default_filetypes());
    }
    v
}

/// Splitting `s` at every comma, in order; a string without commas is one
/// piece, and each comma separates two (possibly empty) pieces.
pub open spec fn spec_split_commas(s: Seq<char>) -> Seq<Seq<char>>
    decreases s.len(),
{
    if s.len() == 0 {
        seq![Seq::<char>::empty()]
    } else if s[0] == ',' {
        seq![Seq::<char>::empty()] + spec_split_commas(s.skip(1))
    } else {
        let rest = spec_split_commas(s.skip(1));
        seq![seq![s[0]] + rest[0]] + rest.skip(1)
    }
}

/// A split always yields at least one piece.
pub proof fn lemma_split_commas_nonempty(s: Seq<char>)
    ensures
        spec_split_commas(s).len() >= 1,
    decreases s.len(),
{
    if s.len() == 0 {
    } else {
        lemma_split_commas_nonempty(s.skip(1));
    }
}

/// The split of `s`, with `c` glued onto the front of its first piece.
pub open spec fn spec_prepend_first(c: Seq<char>, l: Seq<Seq<char>>) -> Seq<Seq<char>>
    recommends
        l.len() >= 1,
{
    seq![c + l[0]] + l.skip(1)
}

/// Splits `s` at every comma.
pub fn split_commas(s: &str) -> (r: Vec<String>)
    ensures
        r.deep_view() == spec_split_commas(s@),
{
    let chars = crate::text::chars_of(s);
    let n = chars.len();
    let mut res: Vec<String> = Vec::new();
    let mut start: usize = 0;
    let mut j: usize = 0;
    proof {
        lemma_split_commas_nonempty(s@);
        assert(s@.skip(0) =~= s@);
        assert(s@.subrange(0, 0) =~= Seq::<char>::empty());
        assert(Seq::<char>::empty() + spec_split_commas(s@)[0] =~= spec_split_commas(s@)[0]);
        assert(res.deep_view() + spec_prepend_first(
            s@.subrange(0, 0),
            spec_split_commas(s@.skip(0)),
        ) =~~= spec_split_commas(s@));
    }
    while j < n
        invariant
            0 <= start <= j <= n,
            n == s@.len(),
            chars@ == s@,
            spec_split_commas(s@) == res.deep_view() + spec_prepend_first(
                s@.subrange(start as int, j as int),
                spec_split_commas(s@.skip(j as int)),
            ),
        decreases n - j,
    {
        proof {
            lemma_split_commas_nonempty(s@.skip(j as int));
            lemma_split_commas_nonempty(s@.skip(j + 1));
            assert(s@.skip(j as int)[0] == s@[j as int]);
            assert(s@.skip(j as int).skip(1) =~= s@.skip(j + 1));
        }
        if chars[j] == ',' {
            let piece = String::from_str(s.substring_char(start, j));
            res.push(piece);
            proof {
                let old_deep = res.deep_view().drop_last();
                assert(res.deep_view() =~~= old_deep.push(s@.subrange(start as int, j as int)));
                assert(spec_split_commas(s@.skip(j as int)) =~~= seq![Seq::<char>::empty()]
                    + spec_split_commas(s@.skip(j + 1)));
                assert(s@.subrange(start as int, j as int) + s@.skip(j as int).subrange(
                    0,
                    0,
                ) =~= s@.subrange(start as int, j as int));
                assert(res.deep_view() + spec_prepend_first(
                    s@.subrange(j + 1, j + 1),
                    spec_split_commas(s@.skip(j + 1)),
                ) =~~= old_deep + spec_prepend_first(
                    s@.subrange(start as int, j as int),
                    spec_split_commas(s@.skip(j as int)),
                ));
            }
            start = j + 1;
        } else {
            proof {
                let rest = spec_split_commas(s@.skip(j + 1));
                assert(spec_split_commas(s@.skip(j as int)) =~~= seq![seq![s@[j as int]]
                    + rest[0]] + rest.skip(1));
                assert(s@.subrange(start as int, j + 1) =~= s@.subrange(
                    start as int,
                    j as int,
                ).push(s@[j as int]));
                assert(s@.subrange(start as int, j + 1) + rest[0] =~= s@.subrange(
                    start as int,
                    j as int,
                ) + (seq![s@[j as int]] + rest[0]));
                assert(spec_prepend_first(
                    s@.subrange(start as int, j + 1),
                    rest,
                ) =~~= spec_prepend_first(
                    s@.subrange(start as int, j as int),
                    spec_split_commas(s@.skip(j as int)),
                ));
            }
        }
        j = j + 1;
    }
    let piece = String::from_str(s.substring_char(start, n));
    res.push(piece);
    proof {
        assert(s@.skip(n as int) =~= Seq::<char>::empty());
        assert(spec_split_commas(s@.skip(n as int)) =~~= seq![Seq::<char>::empty()]);
        assert(s@.subrange(start as int, n as int) + Seq::<char>::empty() =~= s@.subrange(
            start as int,
            n as int,
        ));
        let old_deep = res.deep_view().drop_last();
        assert(res.deep_view() =~~= old_deep.push(s@.subrange(start as int, n as int)));
        assert(res.deep_view() =~~= old_deep + spec_prepend_first(
            s@.subrange(start as int, n as int),
            spec_split_commas(s@.skip(n as int)),
        ));
    }
    res
}

/// The four prompt templates the bot renders.
#[derive(Clone, Debug)]
pub struct PromptSettings {
    pub system_prompt: String,
    pub translation: String,
    pub review_code: String,
    pub summarize_diff: String,
}

/// Output options; `lang` of `None` means no translation.
#[derive(Clone, Debug)]
pub struct OutputSettings {
    pub lang: Option<String>,
}

/// One invocation's immutable configuration.
#[derive(Clone, Debug)]
pub struct Settings {
    pub model: OpenAIModel,
    pub prompt: PromptSettings,
    pub source_filetypes: Vec<String>,
    pub output: OutputSettings,
    pub trigger_phrase: String,
}

/// `f` ends with one of the configured suffixes of `s`.
pub open spec fn spec_check_file_type(s: Settings, f: Seq<char>) -> bool {
    exists|i: int|
        0 <= i < s.source_filetypes.deep_view().len() && spec_ends_with(
            f,
            #[trigger] s.source_filetypes.deep_view()[i],
        )
}

impl Settings {
    /// Configuration from one snapshot of the environment: each argument
    /// is the value of the matching variable, `None` where it is unset,
    /// and every missing value falls back to its built-in default.
    pub fn from_parts(
        trigger_phrase: Option<String>,
        openai_model: Option<String>,
        prompt_system: Option<String>,
        prompt_translation: Option<String>,
        prompt_review_code: Option<String>,
        prompt_summarize_diff: Option<String>,
        source_filetypes: Option<String>,
        language: Option<String>,
    ) -> (s: Settings)
        ensures
            s.trigger_phrase@ == (match trigger_phrase {
                Some(t) => t@,
                None => DEFAULT_TRIGGER_PHRASE@,
            }),
            s.model == (match openai_model {
                Some(m) => spec_parse_model(m@),
                None => OpenAIModel::GPT35Turbo,
            }),
            s.prompt.system_prompt@ == (match prompt_system {
                Some(p) => p@,
                None => DEFAULT_PROMPT_SYSTEM@,
            }),
            s.prompt.translation@ == (match prompt_translation {
                Some(p) => p@,
                None => DEFAULT_PROMPT_TRANSLATION@,
            }),
            s.prompt.review_code@ == (match prompt_review_code {
                Some(p) => p@,
                None => DEFAULT_PROMPT_REVIEW_CODE@,
            }),
            s.prompt.summarize_diff@ == (match prompt_summarize_diff {
                Some(p) => p@,
                None => DEFAULT_PROMPT_SUMMARIZE_DIFF@,
            }),
            s.source_filetypes.deep_view() == (match source_filetypes {
                Some(x) => spec_split_commas(x@),
                None => spec_default_filetypes(),
            }),
            s.output.lang == language,
    {
        let model = match &openai_model {
            Some(m) => parse_model(m.as_str()),
            None => parse_model(DEFAULT_MODEL_NAME),
        };
        proof {
            reveal_strlit("gpt3.5-turbo");
            reveal_strlit("gpt4-32k");
            reveal_strlit("gpt4");
            assert(DEFAULT_MODEL_NAME@ == "gpt3.5-turbo"@);
            assert(spec_parse_model(DEFAULT_MODEL_NAME@) == OpenAIModel::GPT35Turbo);
        }
        let filetypes = match &source_filetypes {
            Some(x) => split_commas(x.as_str()),
            None => default_source_filetypes(),
        };
        Settings {
            model,
            prompt: PromptSettings {
                system_prompt: match prompt_system {
                    Some(p) => p,
                    None => String::from_str(DEFAULT_PROMPT_SYSTEM),
                },
                translation: match prompt_translation {
                    Some(p) => p,
                    None => String::from_str(DEFAULT_PROMPT_TRANSLATION),
                },
                review_code: match prompt_review_code {
                    Some(p) => p,
                    None => String::from_str(DEFAULT_PROMPT_REVIEW_CODE),
                },
                summarize_diff: match prompt_summarize_diff {
                    Some(p) => p,
                    None => String::from_str(DEFAULT_PROMPT_SUMMARIZE_DIFF),
                },
            },
            source_filetypes: filetypes,
            output: OutputSettings { lang: language },
            trigger_phrase: match trigger_phrase {
                Some(t) => t,
                None => String::from_str(DEFAULT_TRIGGER_PHRASE),
            },
        }
    }

    /// True iff the filename ends with one of the configured suffixes;
    /// the match is exact and case-sensitive.
    pub fn check_file_type(&self, filename: &str) -> (r: bool)
        ensures
            r == spec_check_file_type(*self, filename@),
    {
        let n = self.source_filetypes.len();
        let mut i: usize = 0;
        while i < n
            invariant
                i <= n,
                n == self.source_filetypes@.len(),
                forall|j: int|
                    0 <= j < i ==> !spec_ends_with(
                        filename@,
                        #[trigger] self.source_filetypes.deep_view()[j],
                    ),
            decreases n - i,
        {
            let hit = ends_with_str(filename, self.source_filetypes[i].as_str());
            proof {
                assert(self.source_filetypes.deep_view()[i as int] == self.source_filetypes@[
                    i as int
                ]@);
            }
            if hit {
                proof {
                    assert(spec_ends_with(filename@, self.source_filetypes.deep_view()[i as int]));
                }
                return true;
            }
            i = i + 1;
        }
        false
    }
}

impl Default for Settings {
    /// The fully defaulted configuration, as an empty environment gives it.
    fn default() -> (s: Settings)
        ensures
            s.model == OpenAIModel::GPT35Turbo,
            s.prompt.system_prompt@ == DEFAULT_PROMPT_SYSTEM@,
            s.prompt.translation@ == DEFAULT_PROMPT_TRANSLATION@,
            s.prompt.review_code@ == DEFAULT_PROMPT_REVIEW_CODE@,
            s.prompt.summarize_diff@ == DEFAULT_PROMPT_SUMMARIZE_DIFF@,
            s.source_filetypes.deep_view() == spec_default_filetypes(),
            s.output.lang is None,
            s.trigger_phrase@ == DEFAULT_TRIGGER_PHRASE@,
    {
        Settings::from_parts(None, None, None, None, None, None, None, None)
    }
}

} // verus!
