use ps2api::query_builder::QueryBuilder;

fn pairs(v: &[(&str, &str)]) -> Vec<(String, String)> {
    v.iter().map(|(a, b)| (a.to_string(), b.to_string())).collect()
}

#[test]
fn default_commands() {
    let q = QueryBuilder::new("example".to_string(), "ps2:v2".to_string(), "character".to_string());
    assert_eq!(q.parse_commands(), pairs(&[("c:lang", "en"), ("c:retry", "false")]));
}

#[test]
fn all_commands() {
    let mut q = QueryBuilder::new("example".to_string(), "ps2:v2".to_string(), "character".to_string());
    q.resolve("item");
    q.resolves(vec!["world", "outfit"]);
    q.limit(1);
    q.start(20);
    q.lang("");
    q.retry(true);
    q.search("character_id".to_string(), "5428010618015189713".to_string());
    assert_eq!(
        q.parse_commands(),
        pairs(&[("c:resolve", "item,world,outfit"), ("c:limit", "1"), ("c:start", "20"), ("c:retry", "true")])
    );
    assert_eq!(q.search_vec, pairs(&[("character_id", "5428010618015189713")]));
}

#[test]
fn query_address() {
    let q = QueryBuilder::new("example".to_string(), "ps2:v2".to_string(), "achievement".to_string());
    assert_eq!(q.query_url("get"), "https://census.daybreakgames.com/s:example/get/ps2:v2/achievement/");
}
