use ow_wasmtime::classify::{classification, decimal, decimal_text, entry, label, rank, to_planar, top_k};
use ow_wasmtime::json::Json;
use ow_wasmtime::marshal::{decode_result, encode_input};

fn json(text: &str) -> Json {
    decode_result(text.as_bytes().to_vec()).expect("a JSON document")
}

fn text(value: &Json) -> String {
    String::from_utf8(encode_input(value)).expect("UTF-8")
}

fn labels() -> Vec<Json> {
    match json(r#"["cat","dog",7,"fox"]"#) {
        Json::Array(items) => items,
        _ => panic!("an array"),
    }
}

#[test]
fn classes_are_ranked_from_the_highest_score_down() {
    assert_eq!(rank(&vec![10, 50, 20, 40, 30]), vec![1, 3, 4, 2, 0]);
    assert_eq!(rank(&vec![]), Vec::<usize>::new());
    assert_eq!(rank(&vec![7]), vec![0]);
}

#[test]
fn classes_of_equal_score_keep_their_order() {
    assert_eq!(rank(&vec![5, 9, 5, 9, 5]), vec![1, 3, 0, 2, 4]);
    assert_eq!(rank(&vec![0, 0, 0]), vec![0, 1, 2]);
}

#[test]
fn scores_of_probabilities_order_as_the_probabilities_do() {
    let probabilities = [0.1f32, 0.7, 0.0, 0.15, 0.05];
    let scores: Vec<u32> = probabilities.iter().map(|p| p.to_bits()).collect();
    assert_eq!(rank(&scores), vec![1, 3, 0, 4, 2]);
}

#[test]
fn the_planar_layout_puts_each_channel_together() {
    assert_eq!(to_planar(&vec![1, 2, 3, 11, 12, 13, 21, 22, 23, 31, 32, 33]), vec![
        1, 11, 21, 31, 2, 12, 22, 32, 3, 13, 23, 33
    ]);
    assert_eq!(to_planar(&vec![]), Vec::<u32>::new());
    assert_eq!(to_planar(&vec![1, 2, 3]), vec![1, 2, 3]);
}

#[test]
fn values_behind_the_last_whole_pixel_are_zero() {
    assert_eq!(to_planar(&vec![1, 2, 3, 4, 5, 6, 7, 8]), vec![1, 4, 2, 5, 3, 6, 0, 0]);
    assert_eq!(to_planar(&vec![9, 9]), vec![0, 0]);
}

#[test]
fn top_k_is_read_from_the_request_and_defaults_to_five() {
    assert_eq!(top_k(&json(r#"{"top_k":3}"#)), 3);
    assert_eq!(top_k(&json(r#"{"top_k":0}"#)), 0);
    assert_eq!(top_k(&json(r#"{"top_k":1000}"#)), 1000);
    assert_eq!(top_k(&json(r#"{}"#)), 5);
    assert_eq!(top_k(&json(r#"{"top_k":"3"}"#)), 5);
    assert_eq!(top_k(&json(r#"{"top_k":-3}"#)), 5);
    assert_eq!(top_k(&json(r#"{"top_k":2.5}"#)), 5);
    assert_eq!(top_k(&json(r#"{"top_k":null}"#)), 5);
    assert_eq!(top_k(&json(r#"[3]"#)), 5);
}

#[test]
fn decimal_reads_digits_and_nothing_else() {
    assert_eq!(decimal("0"), Some(0));
    assert_eq!(decimal("42"), Some(42));
    assert_eq!(decimal("007"), Some(7));
    assert_eq!(decimal(""), None);
    assert_eq!(decimal("4 2"), None);
    assert_eq!(decimal("-1"), None);
    assert_eq!(decimal("1.0"), None);
    assert_eq!(decimal("１"), None);
    assert_eq!(decimal(&usize::MAX.to_string()), Some(usize::MAX));
    assert_eq!(decimal("99999999999999999999999999"), Some(usize::MAX));
}

#[test]
fn decimal_text_writes_a_number_without_leading_zeros() {
    assert_eq!(decimal_text(0), "0");
    assert_eq!(decimal_text(9), "9");
    assert_eq!(decimal_text(10), "10");
    assert_eq!(decimal_text(999), "999");
    assert_eq!(decimal_text(1_234_567_890), "1234567890");
    assert_eq!(decimal_text(usize::MAX), usize::MAX.to_string());
}

#[test]
fn a_class_without_a_label_is_unknown() {
    assert_eq!(label(&labels(), 0), "cat");
    assert_eq!(label(&labels(), 3), "fox");
    assert_eq!(label(&labels(), 2), "unknown");
    assert_eq!(label(&labels(), 4), "unknown");
    assert_eq!(label(&vec![], 0), "unknown");
}

#[test]
fn an_entry_names_class_probability_and_label() {
    let probabilities = vec!["0.25".to_string(), "0.75".to_string()];
    assert_eq!(
        text(&entry(1, &probabilities, &labels(), None)),
        r#"{"class":1,"label":"dog","probability":0.75}"#
    );
    assert_eq!(
        text(&entry(0, &probabilities, &labels(), Some("a.png"))),
        r#"{"class":0,"image_name":"a.png","label":"cat","probability":0.25}"#
    );
    assert_eq!(
        text(&entry(3, &probabilities, &labels(), None)),
        r#"{"class":3,"label":"fox","probability":null}"#
    );
}

#[test]
fn a_classification_has_the_best_classes_in_descending_order() {
    let probabilities: Vec<f32> = vec![0.05, 0.4, 0.1, 0.3, 0.01, 0.02, 0.12];
    let scores: Vec<u32> = probabilities.iter().map(|p| p.to_bits()).collect();
    let texts: Vec<String> = probabilities.iter().map(|p| format!("{p}")).collect();
    let names = match json(r#"["a","b","c","d","e","f","g"]"#) {
        Json::Array(items) => items,
        _ => panic!("an array"),
    };
    let result = classification(&rank(&scores), &texts, &names, top_k(&json("{}")), None);
    let entries = match &result {
        Json::Array(entries) => entries,
        _ => panic!("an array"),
    };
    assert_eq!(entries.len(), 5);
    let classes: Vec<String> = entries.iter().map(|e| text(e.get("class").expect("a class"))).collect();
    assert_eq!(classes, vec!["1", "3", "6", "2", "0"]);
    let read: Vec<f32> = entries
        .iter()
        .map(|e| text(e.get("probability").expect("a probability")).parse().expect("a number"))
        .collect();
    assert!(read.windows(2).all(|pair| pair[0] >= pair[1]));
    assert!(read.iter().all(|p| (0.0..=1.0).contains(p)));
    assert_eq!(text(entries[0].get("label").expect("a label")), r#""b""#);
}

#[test]
fn a_classification_is_no_longer_than_the_order() {
    let order = rank(&vec![1, 2]);
    let probabilities = vec!["0.1".to_string(), "0.9".to_string()];
    let result = classification(&order, &probabilities, &labels(), 5, Some("x"));
    assert_eq!(
        text(&result),
        r#"[{"class":1,"image_name":"x","label":"dog","probability":0.9},{"class":0,"image_name":"x","label":"cat","probability":0.1}]"#
    );
    assert_eq!(text(&classification(&order, &probabilities, &labels(), 0, None)), "[]");
}
