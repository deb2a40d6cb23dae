use std::collections::HashMap;

fn parse_benchmarks(output: &str) -> Result<HashMap<String, String>, String> {
    let mut parsed_output = HashMap::new();
    for line in output.lines() {
        let line = line.trim_start();
        if line.starts_with("Benchmark") {
            let parts: Vec<&str> = line.split_whitespace().collect();
            if parts.len() >= 2 {
                parsed_output.insert(parts[0].to_string(), parts[1].to_string());
            }
        }
    }
    Ok(parsed_output)
}

fn check_parsing() {
    let output = "
        garbage data
        BenchmarkSigning/Secp256k1_-_5_of_9-16                         1        5794642205 ns/op
        BenchmarkSign2p-16                                             2         685590314 ns/op             29319 bytes/sign           16.00 msgs/sign
        garbage data
        ";
    let result = parse_benchmarks(output);
    assert!(result.is_ok(), "Failed to parse test input");
    let parsed_output = result.unwrap();
    assert_eq!(parsed_output.len(), 2, "Incorrect output length. Expected 2, got {}", parsed_output.len());
    assert!(parsed_output.contains_key("BenchmarkSigning/Secp256k1_-_5_of_9-16"), "Did not find BenchmarkSigning/Secp256k1_-_5_of_9-16 in the parsed output");
    assert!(parsed_output.contains_key("BenchmarkSign2p-16"), "Did not find BenchmarkSign2p-16 in the parsed output");
}

#[test]
fn commands_test_parsing() {
    check_parsing();
}

#[test]
fn config_test_parsing() {
    check_parsing();
}

#[test]
fn main_test_parsing() {
    check_parsing();
}
