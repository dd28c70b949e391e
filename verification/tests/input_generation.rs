use fuzzer::config::FuzzerConfig;
use fuzzer::input::custom_document;
use fuzzer::input::json_document;
use fuzzer::input::xml_document;
use fuzzer::input::InputGenerator;
use fuzzer::utils::InputFormat;

fn generator(format: InputFormat, seed: u64) -> InputGenerator {
    InputGenerator::new(FuzzerConfig::builder().input_format(format).seed(seed).build())
}

fn text(bytes: Vec<u8>) -> String {
    String::from_utf8(bytes).unwrap()
}

#[test]
fn binary_inputs_have_between_1_and_1023_bytes() {
    let mut generator = generator(InputFormat::Binary, 1);
    let mut lengths = std::collections::HashSet::new();
    for _ in 0..500 {
        let input = generator.generate_input().unwrap();
        assert!((1..1024).contains(&input.len()));
        lengths.insert(input.len());
    }
    assert!(lengths.len() > 100);
}

#[test]
fn text_inputs_are_printable_ascii() {
    let mut generator = generator(InputFormat::Text, 2);
    for _ in 0..300 {
        let input = generator.generate_input().unwrap();
        assert!((1..1024).contains(&input.len()));
        assert!(input.iter().all(|&b| (32..127).contains(&b)));
    }
}

#[test]
fn unspecified_format_falls_back_to_binary() {
    let mut plain = generator(InputFormat::Binary, 77);
    let mut fallback = generator(InputFormat::Unspecified, 77);
    for _ in 0..50 {
        assert_eq!(plain.generate_input(), fallback.generate_input());
    }
}

#[test]
fn same_seed_gives_the_same_inputs() {
    for format in [
        InputFormat::Binary,
        InputFormat::Text,
        InputFormat::JSON,
        InputFormat::XML,
        InputFormat::Custom("tlv".to_string()),
    ] {
        let mut first = generator(format.clone(), 424242);
        let mut second = generator(format, 424242);
        for _ in 0..100 {
            assert_eq!(first.generate_input(), second.generate_input());
        }
    }
}

#[test]
fn different_seeds_give_different_inputs() {
    let mut first = generator(InputFormat::Binary, 1);
    let mut second = generator(InputFormat::Binary, 2);
    let a: Vec<_> = (0..5).map(|_| first.generate_input().unwrap()).collect();
    let b: Vec<_> = (0..5).map(|_| second.generate_input().unwrap()).collect();
    assert_ne!(a, b);
}

#[test]
fn a_cloned_generator_repeats_the_stream_of_its_parent() {
    let mut parent = generator(InputFormat::Binary, 9);
    parent.generate_input().unwrap();
    let mut copy = parent.clone();
    let from_parent: Vec<_> = (0..10).map(|_| parent.generate_input().unwrap()).collect();
    let from_copy: Vec<_> = (0..10).map(|_| copy.generate_input().unwrap()).collect();
    assert_eq!(from_parent, from_copy);
    let mut late_copy = parent.clone();
    assert_ne!(late_copy.generate_input().unwrap(), from_copy[0]);
}

#[test]
fn generators_without_seed_work() {
    let mut generator = InputGenerator::new(FuzzerConfig::builder().build());
    assert!(generator.generate_input().is_ok());
    let mut other = InputGenerator::with_format(InputFormat::Text, None);
    assert!(other.generate_input().is_ok());
}

#[test]
fn xml_document_has_the_fixed_shape() {
    assert_eq!(text(xml_document(42, true)), "<root><value>42</value><flag>true</flag></root>");
    assert_eq!(text(xml_document(0, false)), "<root><value>0</value><flag>false</flag></root>");
    assert_eq!(
        text(xml_document(u64::MAX, false)),
        "<root><value>18446744073709551615</value><flag>false</flag></root>"
    );
}

#[test]
fn generated_xml_has_the_fixed_shape() {
    let mut generator = generator(InputFormat::XML, 5);
    for _ in 0..100 {
        let document = text(generator.generate_input().unwrap());
        let rest = document.strip_prefix("<root><value>").unwrap();
        let (value, rest) = rest.split_once("</value><flag>").unwrap();
        let flag = rest.strip_suffix("</flag></root>").unwrap();
        assert_eq!(value.parse::<u64>().unwrap().to_string(), value);
        assert!(flag == "true" || flag == "false");
    }
}

#[test]
fn custom_document_names_the_format() {
    assert_eq!(text(custom_document("tlv")), "Custom format: tlv");
    assert_eq!(text(custom_document("")), "Custom format: ");
    assert_eq!(text(custom_document("grüße")), "Custom format: grüße");
    let mut generator = generator(InputFormat::Custom("proto-3".to_string()), 5);
    assert_eq!(text(generator.generate_input().unwrap()), "Custom format: proto-3");
    assert_eq!(text(generator.generate_input().unwrap()), "Custom format: proto-3");
}

#[test]
fn json_document_has_the_fixed_shape() {
    assert_eq!(
        text(json_document(7, 1 << 52, true, false, 1, 5)),
        "{\"array\":[true,false],\"key\":7,\"nested\":{\"a\":1,\"b\":\"str5\"},\"value\":0.5}"
    );
    assert_eq!(
        text(json_document(u64::MAX, 0, false, false, 255, 0)),
        "{\"array\":[false,false],\"key\":18446744073709551615,\
         \"nested\":{\"a\":255,\"b\":\"str0\"},\"value\":0.0}"
    );
    assert_eq!(
        text(json_document(0, 3 << 51, false, true, 0, 200)),
        "{\"array\":[false,true],\"key\":0,\"nested\":{\"a\":0,\"b\":\"str200\"},\"value\":0.75}"
    );
}

#[test]
fn json_document_is_what_serde_json_writes_for_short_fractions() {
    let mut nested = serde_json::Map::new();
    nested.insert("a".to_string(), serde_json::Value::from(9u8));
    nested.insert("b".to_string(), serde_json::Value::from("str33"));
    let mut object = serde_json::Map::new();
    object.insert("key".to_string(), serde_json::Value::from(123456789u64));
    object.insert("value".to_string(), serde_json::Value::from(0.625f64));
    object.insert("array".to_string(), serde_json::Value::from(vec![true, true]));
    object.insert("nested".to_string(), serde_json::Value::Object(nested));
    let expected = serde_json::to_vec(&serde_json::Value::Object(object)).unwrap();
    assert_eq!(json_document(123456789, 5 << 50, true, true, 9, 33), expected);
}

#[test]
fn json_fraction_is_written_exactly() {
    let scale = (1u64 << 53) as f64;
    for numerator in [1u64, 3, (1 << 53) - 1, 1 << 20, 0x15_5555_5555_5555, 12345678901234] {
        let document = text(json_document(0, numerator, false, false, 0, 0));
        let value = document
            .strip_suffix('}')
            .unwrap()
            .rsplit_once("\"value\":")
            .unwrap()
            .1
            .to_string();
        assert!(value.starts_with("0."));
        assert!(value.len() <= 55);
        assert!(!value.ends_with('0'));
        assert_eq!(value.parse::<f64>().unwrap(), numerator as f64 / scale);
    }
    let smallest = text(json_document(0, 1, false, false, 0, 0));
    assert!(smallest.ends_with("\"value\":0.00000000000000011102230246251565404236316680908203125}"));
}

#[test]
fn generated_json_parses_and_has_every_field() {
    let mut generator = generator(InputFormat::JSON, 6);
    for _ in 0..100 {
        let bytes = generator.generate_input().unwrap();
        let document: serde_json::Value = serde_json::from_slice(&bytes).unwrap();
        let object = document.as_object().unwrap();
        assert_eq!(object.len(), 4);
        assert!(object["key"].is_u64());
        let value = object["value"].as_f64().unwrap();
        assert!((0.0..1.0).contains(&value));
        let array = object["array"].as_array().unwrap();
        assert_eq!(array.len(), 2);
        assert!(array[0].is_boolean() && array[1].is_boolean());
        let nested = object["nested"].as_object().unwrap();
        assert!(nested["a"].as_u64().unwrap() <= 255);
        let b = nested["b"].as_str().unwrap();
        assert!(b.strip_prefix("str").unwrap().parse::<u8>().is_ok());
    }
}

#[test]
fn a_forked_generator_repeats_the_stream_of_its_parent() {
    let mut parent = generator(InputFormat::Custom("abc".to_string()), 9);
    let mut fork = parent.fork();
    assert_eq!(fork.generate_input(), parent.generate_input());
    let mut parent = generator(InputFormat::Text, 9);
    parent.generate_input().unwrap();
    let mut fork = parent.fork();
    for _ in 0..10 {
        assert_eq!(fork.generate_input(), parent.generate_input());
    }
}
