use flashquiz::prompt::{
    GenerationMode, GenerationRequest, PromptBuilder, KEY_POINTS_EXAMPLE, QUIZ_EXAMPLE,
};
use flashquiz::text::i8_decimal;

#[test]
fn key_points_prompt_is_exact() {
    let prompt = PromptBuilder::build(GenerationMode::KeyPoints, "Photosynthesis", 3);
    let expected = "Extract 3 key points from the text. Present the information in a JSON format with two fields:\n\
* key_points_array: An array containing each key point as a string.\n\
* number_of_key_points: The number of elements in the key_points_array.\n\
Use only these valid fields.\n\
\n\
Text: \"Photosynthesis\"\n\
\n\
**Example:**\n\
{\n    \"key_points_array\": [\n        \"key point 0\",\n        \"key point 1\",\n        \"key point 2\",\n        \"key point 3\",\n        \"key point 4\"\n    ],\n    \"number_of_key_points\": 5\n}\n";
    assert_eq!(prompt, expected);
}

#[test]
fn quiz_prompt_is_exact() {
    let prompt = PromptBuilder::build(GenerationMode::MultipleChoice, "Cells", 2);
    let expected = "**Prompt:**\n\
\n\
Given a passage of text `\"Cells\"` and an integer 2, generate a JSON object containing 2 multiple choice questions (MCQs) based on the text. Each MCQ should have the following structure:\n\
\n\
* `question`: The question itself, derived from the text.\n\
* `options`: An array containing four possible answer choices.\n\
* `answer`: The index (0-based) of the correct option in the `options` array.\n\
\n\
**Example:**\n\
{\n\"questions\": [\n{\n\"question\": \"question 1\",\n\"options\": [\n\"Option 1\",\n\"Option 2\",\n\"Option 3\",\n\"Option 4\"\n],\n\"answer\": 1\n},\n{\n\"question\": \"question 2\",\n\"options\": [\n\"Option 1\",\n\"Option 2\",\n\"Option 3\",\n\"Option 4\"\n],\n\"answer\": 3\n}\n]\n}\n... and so on for 2 questions";
    assert_eq!(prompt, expected);
}

#[test]
fn prompt_holds_count_text_and_example() {
    let texts = ["Photosynthesis", "The mitochondria is the powerhouse of the cell.", "x"];
    let counts: [i8; 4] = [1, 3, 42, 127];
    for text in texts {
        for count in counts {
            let key_points = PromptBuilder::build(GenerationMode::KeyPoints, text, count);
            assert!(key_points.contains(&count.to_string()));
            assert!(key_points.contains(text));
            assert!(key_points.contains(KEY_POINTS_EXAMPLE));
            let quiz = PromptBuilder::build(GenerationMode::MultipleChoice, text, count);
            assert!(quiz.contains(&count.to_string()));
            assert!(quiz.contains(text));
            assert!(quiz.contains(QUIZ_EXAMPLE));
        }
    }
}

#[test]
fn source_text_is_escaped_where_needed() {
    let prompt = PromptBuilder::build(GenerationMode::KeyPoints, "say \"hi\"\nplease\\", 1);
    assert!(prompt.contains("Text: \"say \\\"hi\\\"\\nplease\\\\\"\n"));
    assert!(!prompt.contains("say \"hi\"\nplease\\"));
}

#[test]
fn plain_source_text_stands_between_quotes() {
    let prompt = PromptBuilder::build(GenerationMode::MultipleChoice, "plain text 123", 5);
    assert!(prompt.contains("`\"plain text 123\"`"));
}

#[test]
fn key_points_example_is_complete_json() {
    let value: serde_json::Value = serde_json::from_str(KEY_POINTS_EXAMPLE).unwrap();
    let object = value.as_object().unwrap();
    assert_eq!(object.len(), 2);
    let points = object.get("key_points_array").unwrap().as_array().unwrap();
    assert_eq!(points.len(), 5);
    for point in points {
        assert!(point.is_string());
    }
    assert_eq!(object.get("number_of_key_points").unwrap().as_u64(), Some(5));
}

#[test]
fn quiz_example_is_complete_json() {
    let value: serde_json::Value = serde_json::from_str(QUIZ_EXAMPLE).unwrap();
    let questions = value.get("questions").unwrap().as_array().unwrap();
    assert_eq!(questions.len(), 2);
    for question in questions {
        let object = question.as_object().unwrap();
        assert_eq!(object.len(), 3);
        assert!(object.get("question").unwrap().is_string());
        let options = object.get("options").unwrap().as_array().unwrap();
        assert_eq!(options.len(), 4);
        let answer = object.get("answer").unwrap().as_u64().unwrap();
        assert!(answer < 4);
    }
}

#[test]
fn example_in_prompt_parses_as_json() {
    let prompt = PromptBuilder::build(GenerationMode::KeyPoints, "Water", 2);
    let start = prompt.find("**Example:**\n").unwrap() + "**Example:**\n".len();
    let parsed: Result<serde_json::Value, serde_json::Error> =
        serde_json::from_str(prompt[start..].trim_end());
    assert!(parsed.is_ok());
}

#[test]
fn decimal_of_counts() {
    assert_eq!(i8_decimal(0), "0");
    assert_eq!(i8_decimal(7), "7");
    assert_eq!(i8_decimal(10), "10");
    assert_eq!(i8_decimal(99), "99");
    assert_eq!(i8_decimal(100), "100");
    assert_eq!(i8_decimal(127), "127");
    assert_eq!(i8_decimal(-1), "-1");
    assert_eq!(i8_decimal(-128), "-128");
}

#[test]
fn decimal_agrees_with_formatting_everywhere() {
    for n in i8::MIN..=i8::MAX {
        assert_eq!(i8_decimal(n), format!("{:?}", n));
    }
}

#[test]
fn prompt_is_built_for_any_count() {
    let prompt = PromptBuilder::build(GenerationMode::KeyPoints, "", -5);
    assert!(prompt.starts_with("Extract -5 key points"));
    assert!(prompt.contains("Text: \"\"\n"));
}

#[test]
fn request_needs_a_count_and_a_text() {
    assert!(GenerationRequest::new(GenerationMode::KeyPoints, "t".to_string(), 1).is_some());
    assert!(GenerationRequest::new(GenerationMode::KeyPoints, "t".to_string(), 0).is_none());
    assert!(GenerationRequest::new(GenerationMode::KeyPoints, "t".to_string(), -3).is_none());
    assert!(GenerationRequest::new(GenerationMode::MultipleChoice, String::new(), 4).is_none());
}

#[test]
fn request_prompt_is_the_builders() {
    let request =
        GenerationRequest::new(GenerationMode::MultipleChoice, "Rivers".to_string(), 4).unwrap();
    assert_eq!(request.mode(), GenerationMode::MultipleChoice);
    assert_eq!(request.source_text(), "Rivers");
    assert_eq!(request.count(), 4);
    assert_eq!(
        request.prompt(),
        PromptBuilder::build(GenerationMode::MultipleChoice, "Rivers", 4)
    );
}

#[test]
fn printable_ascii_is_embedded_as_it_is() {
    let mut text = String::new();
    for code in 0x20u8..=0x7e {
        let c = code as char;
        if c != '"' && c != '\\' {
            text.push(c);
        }
    }
    assert_eq!(text.len(), 93);
    let prompt = PromptBuilder::build(GenerationMode::KeyPoints, &text, 1);
    assert!(prompt.contains(&format!("Text: \"{}\"\n", text)));
    let apostrophe = PromptBuilder::build(GenerationMode::MultipleChoice, "it's", 1);
    assert!(apostrophe.contains("`\"it's\"`"));
}
