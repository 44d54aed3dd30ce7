use bindiff_rs::algorithm::FunctionAlgorithm;
use bindiff_rs::records::FunctionMatch;
use bindiff_rs::value::Score;

fn algorithm_json(a: &FunctionAlgorithm) -> serde_json::Value {
    match a {
        FunctionAlgorithm::Other(code) => {
            let mut object = serde_json::Map::new();
            object.insert("Other".to_string(), serde_json::Value::String(code.clone()));
            serde_json::Value::Object(object)
        }
        named => serde_json::Value::String(format!("{:?}", named)),
    }
}

fn algorithm_back(v: &serde_json::Value) -> FunctionAlgorithm {
    match v {
        serde_json::Value::String(name) => (0..20)
            .map(FunctionAlgorithm::from_code)
            .find(|a| &format!("{:?}", a) == name)
            .unwrap(),
        other => FunctionAlgorithm::Other(other["Other"].as_str().unwrap().to_string()),
    }
}

fn match_json(m: &FunctionMatch) -> serde_json::Value {
    let mut object = serde_json::Map::new();
    object.insert("id".to_string(), serde_json::Value::from(m.id));
    object.insert("address1".to_string(), serde_json::Value::from(m.address1));
    object.insert("name1".to_string(), serde_json::Value::from(m.name1.clone()));
    object.insert("address2".to_string(), serde_json::Value::from(m.address2));
    object.insert("name2".to_string(), serde_json::Value::from(m.name2.clone()));
    object.insert("similarity".to_string(), serde_json::Value::from(f64::from_bits(m.similarity.bits)));
    object.insert("confidence".to_string(), serde_json::Value::from(f64::from_bits(m.confidence.bits)));
    object.insert("flags".to_string(), serde_json::Value::from(m.flags));
    object.insert("algorithm".to_string(), algorithm_json(&m.algorithm));
    object.insert("evaluate".to_string(), serde_json::Value::from(m.evaluate));
    object.insert("comment_supported".to_string(), serde_json::Value::from(m.comment_supported));
    object.insert("basic_blocks".to_string(), serde_json::Value::from(m.basic_blocks));
    object.insert("edges".to_string(), serde_json::Value::from(m.edges));
    object.insert("instructions".to_string(), serde_json::Value::from(m.instructions));
    serde_json::Value::Object(object)
}

fn match_back(v: &serde_json::Value) -> FunctionMatch {
    FunctionMatch {
        id: v["id"].as_i64().unwrap(),
        address1: v["address1"].as_i64().unwrap(),
        name1: v["name1"].as_str().unwrap().to_string(),
        address2: v["address2"].as_i64().unwrap(),
        name2: v["name2"].as_str().unwrap().to_string(),
        similarity: Score::from_bits(v["similarity"].as_f64().unwrap().to_bits()).unwrap(),
        confidence: Score::from_bits(v["confidence"].as_f64().unwrap().to_bits()).unwrap(),
        flags: v["flags"].as_i64().unwrap(),
        algorithm: algorithm_back(&v["algorithm"]),
        evaluate: v["evaluate"].as_bool().unwrap(),
        comment_supported: v["comment_supported"].as_bool().unwrap(),
        basic_blocks: v["basic_blocks"].as_i64().unwrap(),
        edges: v["edges"].as_i64().unwrap(),
        instructions: v["instructions"].as_i64().unwrap(),
    }
}

fn sample(algorithm: FunctionAlgorithm) -> FunctionMatch {
    FunctionMatch {
        id: 42,
        address1: 0x401000,
        name1: "sub_401000".to_string(),
        address2: -1,
        name2: "gr\u{fc}n \"quoted\"\n".to_string(),
        similarity: Score::from_bits(0.987654321f64.to_bits()).unwrap(),
        confidence: Score::from_bits(0.1f64.to_bits()).unwrap(),
        flags: i64::MAX,
        algorithm,
        evaluate: true,
        comment_supported: false,
        basic_blocks: 9,
        edges: 11,
        instructions: 40,
    }
}

#[test]
fn function_match_survives_json_and_back() {
    let mut algorithms: Vec<FunctionAlgorithm> = (0..20).map(FunctionAlgorithm::from_code).collect();
    algorithms.push(FunctionAlgorithm::from_code(37));
    algorithms.push(FunctionAlgorithm::from_code(-1));
    for algorithm in algorithms {
        let before = sample(algorithm);
        let text = serde_json::to_string_pretty(&match_json(&before)).unwrap();
        let parsed: serde_json::Value = serde_json::from_str(&text).unwrap();
        let after = match_back(&parsed);
        assert_eq!(after, before);
        assert_eq!(after.algorithm, before.algorithm);
        assert_eq!(after.algorithm.to_string(), before.algorithm.to_string());
    }
}

#[test]
fn json_keeps_scores_at_full_precision() {
    let before = sample(FunctionAlgorithm::Manual);
    let text = serde_json::to_string_pretty(&match_json(&before)).unwrap();
    assert!(text.contains("0.987654321"));
    assert!(!text.contains("0.99"));
    assert_eq!(before.render("0.99", "0.10"), "sub_401000 -> gr\u{fc}n \"quoted\"\n\tsimilarity: 0.99, confidence: 0.10, algorithm: manual");
}
