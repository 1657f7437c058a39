//! The prompt builder: from a generation mode, a source text and a count to
//! the text that is sent to the model.
//!
//! The model is held to its output format by example, so each prompt carries
//! one worked example. The examples are constants of this module and are
//! complete JSON documents.

use crate::text::{
    contains, debug_escaped, debug_format, decimal, i8_decimal, is_plain, lemma_contains_infix,
    quoted,
};
use vstd::prelude::*;
use vstd::string::*;

verus! {

/// What the model is asked to produce.
#[derive(Debug, Clone, Copy, PartialEq, Eq, Structural)]
pub enum GenerationMode {
    /// Key points extracted from the text ("flashcards").
    KeyPoints,
    /// Multiple-choice questions on the text ("quiz").
    MultipleChoice,
}

pub const KEY_POINTS_OPENING: &'static str = "Extract ";

pub const KEY_POINTS_FORMAT: &'static str =
    " key points from the text. Present the information in a JSON format with two fields:\n\
* key_points_array: An array containing each key point as a string.\n\
* number_of_key_points: The number of elements in the key_points_array.\n\
Use only these valid fields.\n\
\n\
Text: ";

pub const EXAMPLE_HEADING: &'static str = "\n\n**Example:**\n";

/// The worked example of the key-points format: an object with the array of
/// points and their number.
pub const KEY_POINTS_EXAMPLE: &'static str = "{\n    \
\"key_points_array\": [\n        \
\"key point 0\",\n        \
\"key point 1\",\n        \
\"key point 2\",\n        \
\"key point 3\",\n        \
\"key point 4\"\n    \
],\n    \
\"number_of_key_points\": 5\n\
}";

pub const KEY_POINTS_CLOSING: &'static str = "\n";

pub const QUIZ_OPENING: &'static str = "**Prompt:**\n\nGiven a passage of text `";

pub const QUIZ_COUNT: &'static str = "` and an integer ";

pub const QUIZ_TASK: &'static str = ", generate a JSON object containing ";

pub const QUIZ_FORMAT: &'static str = " multiple choice questions (MCQs) based on the text. \
Each MCQ should have the following structure:\n\
\n\
* `question`: The question itself, derived from the text.\n\
* `options`: An array containing four possible answer choices.\n\
* `answer`: The index (0-based) of the correct option in the `options` array.";

/// The worked example of the quiz format: an object whose `questions` array
/// holds question objects, each with four options and the zero-based index
/// of the correct one.
pub const QUIZ_EXAMPLE: &'static str = "{\n\
\"questions\": [\n\
{\n\
\"question\": \"question 1\",\n\
\"options\": [\n\
\"Option 1\",\n\
\"Option 2\",\n\
\"Option 3\",\n\
\"Option 4\"\n\
],\n\
\"answer\": 1\n\
},\n\
{\n\
\"question\": \"question 2\",\n\
\"options\": [\n\
\"Option 1\",\n\
\"Option 2\",\n\
\"Option 3\",\n\
\"Option 4\"\n\
],\n\
\"answer\": 3\n\
}\n\
]\n\
}";

pub const QUIZ_CONTINUATION: &'static str = "\n... and so on for ";

pub const QUIZ_CLOSING: &'static str = " questions";

/// The worked example that the prompt of a mode carries.
pub open spec fn worked_example(mode: GenerationMode) -> Seq<char> {
    match mode {
        GenerationMode::KeyPoints => KEY_POINTS_EXAMPLE@,
        GenerationMode::MultipleChoice => QUIZ_EXAMPLE@,
    }
}

/// The prompt of a mode around the escaped source text and the count.
pub open spec fn prompt_text(mode: GenerationMode, escaped: Seq<char>, count: int) -> Seq<char> {
    match mode {
        GenerationMode::KeyPoints => KEY_POINTS_OPENING@ + decimal(count) + KEY_POINTS_FORMAT@
            + escaped + EXAMPLE_HEADING@ + KEY_POINTS_EXAMPLE@ + KEY_POINTS_CLOSING@,
        GenerationMode::MultipleChoice => QUIZ_OPENING@ + escaped + QUIZ_COUNT@ + decimal(count)
            + QUIZ_TASK@ + decimal(count) + QUIZ_FORMAT@ + EXAMPLE_HEADING@ + QUIZ_EXAMPLE@
            + QUIZ_CONTINUATION@ + decimal(count) + QUIZ_CLOSING@,
    }
}

/// Every prompt holds the count in decimal, the escaped source text and the
/// worked example of its mode.
pub proof fn lemma_prompt_embeds_inputs(mode: GenerationMode, escaped: Seq<char>, count: int)
    ensures
        contains(prompt_text(mode, escaped, count), decimal(count)),
        contains(prompt_text(mode, escaped, count), escaped),
        contains(prompt_text(mode, escaped, count), worked_example(mode)),
{
    let p = prompt_text(mode, escaped, count);
    let d = decimal(count);
    match mode {
        GenerationMode::KeyPoints => {
            let after_count = KEY_POINTS_FORMAT@ + escaped + EXAMPLE_HEADING@ + KEY_POINTS_EXAMPLE@
                + KEY_POINTS_CLOSING@;
            assert(p =~= KEY_POINTS_OPENING@ + d + after_count);
            lemma_contains_infix(KEY_POINTS_OPENING@, d, after_count);
            let before_text = KEY_POINTS_OPENING@ + d + KEY_POINTS_FORMAT@;
            let after_text = EXAMPLE_HEADING@ + KEY_POINTS_EXAMPLE@ + KEY_POINTS_CLOSING@;
            assert(p =~= before_text + escaped + after_text);
            lemma_contains_infix(before_text, escaped, after_text);
            let before_example = before_text + escaped + EXAMPLE_HEADING@;
            assert(p =~= before_example + KEY_POINTS_EXAMPLE@ + KEY_POINTS_CLOSING@);
            lemma_contains_infix(before_example, KEY_POINTS_EXAMPLE@, KEY_POINTS_CLOSING@);
        },
        GenerationMode::MultipleChoice => {
            let before_count = QUIZ_OPENING@ + escaped + QUIZ_COUNT@;
            let after_example = QUIZ_CONTINUATION@ + d + QUIZ_CLOSING@;
            let after_count = QUIZ_TASK@ + d + QUIZ_FORMAT@ + EXAMPLE_HEADING@ + QUIZ_EXAMPLE@
                + after_example;
            assert(p =~= before_count + d + after_count);
            lemma_contains_infix(before_count, d, after_count);
            let after_text = QUIZ_COUNT@ + d + after_count;
            assert(p =~= QUIZ_OPENING@ + escaped + after_text);
            lemma_contains_infix(QUIZ_OPENING@, escaped, after_text);
            let before_example = before_count + d + QUIZ_TASK@ + d + QUIZ_FORMAT@
                + EXAMPLE_HEADING@;
            assert(p =~= before_example + QUIZ_EXAMPLE@ + after_example);
            lemma_contains_infix(before_example, QUIZ_EXAMPLE@, after_example);
        },
    }
}

/// A source text that needs no escaping stands in the prompt as it is.
pub proof fn lemma_prompt_embeds_plain_text(mode: GenerationMode, text: Seq<char>, count: int)
    ensures
        contains(prompt_text(mode, quoted(text), count), text),
{
    let p = prompt_text(mode, quoted(text), count);
    let d = decimal(count);
    let q = seq!['"'];
    match mode {
        GenerationMode::KeyPoints => {
            let before = KEY_POINTS_OPENING@ + d + KEY_POINTS_FORMAT@ + q;
            let after = q + EXAMPLE_HEADING@ + KEY_POINTS_EXAMPLE@ + KEY_POINTS_CLOSING@;
            assert(p =~= before + text + after);
            lemma_contains_infix(before, text, after);
        },
        GenerationMode::MultipleChoice => {
            let before = QUIZ_OPENING@ + q;
            let after = q + QUIZ_COUNT@ + d + QUIZ_TASK@ + d + QUIZ_FORMAT@ + EXAMPLE_HEADING@
                + QUIZ_EXAMPLE@ + QUIZ_CONTINUATION@ + d + QUIZ_CLOSING@;
            assert(p =~= before + text + after);
            lemma_contains_infix(before, text, after);
        },
    }
}

/// Builds prompts. It has no state and no failure path.
pub struct PromptBuilder {}

impl PromptBuilder {
    /// The prompt for `count` items of `mode` on `source_text`.
    ///
    /// The source text is embedded in its escaped, quoted form and the count
    /// in decimal; the worked example of the mode follows the instructions.
    pub fn build(mode: GenerationMode, source_text: &str, count: i8) -> (prompt: String)
        ensures
            prompt@ == prompt_text(mode, debug_escaped(source_text@), count as int),
            contains(prompt@, decimal(count as int)),
            contains(prompt@, debug_escaped(source_text@)),
            contains(prompt@, worked_example(mode)),
            is_plain(source_text@) ==> contains(prompt@, source_text@),
    {
        let escaped = debug_format(source_text);
        let number = i8_decimal(count);
        let mut prompt = String::new();
        match mode {
            GenerationMode::KeyPoints => {
                prompt.append(KEY_POINTS_OPENING);
                prompt.append(number.as_str());
                prompt.append(KEY_POINTS_FORMAT);
                prompt.append(escaped.as_str());
                prompt.append(EXAMPLE_HEADING);
                prompt.append(KEY_POINTS_EXAMPLE);
                prompt.append(KEY_POINTS_CLOSING);
            },
            GenerationMode::MultipleChoice => {
                prompt.append(QUIZ_OPENING);
                prompt.append(escaped.as_str());
                prompt.append(QUIZ_COUNT);
                prompt.append(number.as_str());
                prompt.append(QUIZ_TASK);
                prompt.append(number.as_str());
                prompt.append(QUIZ_FORMAT);
                prompt.append(EXAMPLE_HEADING);
                prompt.append(QUIZ_EXAMPLE);
                prompt.append(QUIZ_CONTINUATION);
                prompt.append(number.as_str());
                prompt.append(QUIZ_CLOSING);
            },
        }
        proof {
            assert(prompt@ =~= prompt_text(mode, escaped@, count as int));
            lemma_prompt_embeds_inputs(mode, escaped@, count as int);
            if is_plain(source_text@) {
                lemma_prompt_embeds_plain_text(mode, source_text@, count as int);
            }
        }
        prompt
    }
}

/// One request for generated content: at least one item of a mode, on a
/// text that is not empty. A request cannot be changed once it is built.
#[derive(Debug, PartialEq, Eq)]
pub struct GenerationRequest {
    mode: GenerationMode,
    source_text: String,
    count: i8,
}

/// A request by what it holds.
pub struct RequestView {
    pub mode: GenerationMode,
    pub source_text: Seq<char>,
    pub count: int,
}

impl View for GenerationRequest {
    type V = RequestView;

    closed spec fn view(&self) -> RequestView {
        RequestView { mode: self.mode, source_text: self.source_text@, count: self.count as int }
    }
}

/// What a request may hold: a count of at least one and a text with at least
/// one character.
pub open spec fn valid_request(request: RequestView) -> bool {
    request.count >= 1 && request.source_text.len() > 0
}

impl GenerationRequest {
    #[verifier::type_invariant]
    spec fn well_formed(self) -> bool {
        valid_request(self@)
    }

    /// A request from its parts, or `None` when the count is below one or
    /// the text is empty.
    pub fn new(mode: GenerationMode, source_text: String, count: i8) -> (request: Option<Self>)
        ensures
            request is Some <==> count >= 1 && source_text@.len() > 0,
            request matches Some(r) ==> r@ == (RequestView {
                mode,
                source_text: source_text@,
                count: count as int,
            }),
    {
        if count >= 1 && !source_text.as_str().is_empty() {
            Some(GenerationRequest { mode, source_text, count })
        } else {
            None
        }
    }

    pub fn mode(&self) -> (mode: GenerationMode)
        ensures
            mode == self@.mode,
    {
        self.mode
    }

    pub fn source_text(&self) -> (text: &str)
        ensures
            text@ == self@.source_text,
            text@.len() > 0,
    {
        proof {
            use_type_invariant(self);
        }
        self.source_text.as_str()
    }

    pub fn count(&self) -> (count: i8)
        ensures
            count == self@.count,
            count >= 1,
    {
        proof {
            use_type_invariant(self);
        }
        self.count
    }

    /// The prompt of this request.
    pub fn prompt(&self) -> (prompt: String)
        ensures
            valid_request(self@),
            prompt@ == prompt_text(
                self@.mode,
                debug_escaped(self@.source_text),
                self@.count,
            ),
            contains(prompt@, decimal(self@.count)),
            contains(prompt@, debug_escaped(self@.source_text)),
            contains(prompt@, worked_example(self@.mode)),
            is_plain(self@.source_text) ==> contains(prompt@, self@.source_text),
    {
        proof {
            use_type_invariant(self);
        }
        PromptBuilder::build(self.mode, self.source_text.as_str(), self.count)
    }
}

} // verus!
