use johnnyd_lib::config::{Config, FileRead, FileWrite};
use johnnyd_lib::ConfigError;
use std::collections::BTreeMap;
use std::path::PathBuf;

/// Text files by path, standing in for a directory tree.
fn read(files: &BTreeMap<String, String>, path: &str) -> FileRead {
    match files.get(path) {
        Some(text) => FileRead::Text(text.clone()),
        None => FileRead::Missing,
    }
}

fn write(files: &mut BTreeMap<String, String>, file: FileWrite) {
    files.insert(file.path, file.content);
}

fn config(source: &str, destination: &str) -> Config {
    Config { source: source.to_string(), destination: destination.to_string() }
}

#[test]
fn test_default_config() {
    let config = Config::default();
    assert_eq!(PathBuf::from(config.source), PathBuf::from("."));
    assert_eq!(PathBuf::from(config.destination), PathBuf::from("johnny-d"));
}

#[test]
fn test_save_and_load() {
    let mut files = BTreeMap::new();
    let dir_path = "/tmp/workspace";

    let config = Config {
        source: PathBuf::from("/some/source").to_str().unwrap().to_string(),
        destination: PathBuf::from("/some/destination").to_str().unwrap().to_string(),
    };

    write(&mut files, config.save(dir_path).unwrap());

    let config_path = PathBuf::from(dir_path).join("johnny-d-config.json");
    assert!(files.contains_key(config_path.to_str().unwrap()));

    let loaded_config = Config::try_load(read(&files, &Config::file_in(dir_path))).unwrap();
    assert_eq!(loaded_config, config);
}

#[test]
fn test_load_nonexistent() {
    let files = BTreeMap::new();
    let result = Config::try_load(read(&files, &Config::file_in("/tmp/workspace")));
    assert!(result.is_err());
}

#[test]
fn load_from_empty_directory_is_file_not_found() {
    let files = BTreeMap::new();
    let result = Config::try_load(read(&files, &Config::file_in("/tmp/workspace")));
    assert_eq!(result, Err(ConfigError::FileNotFound));
}

#[test]
fn load_of_unreadable_file_is_io_error() {
    assert_eq!(Config::try_load(FileRead::Unreadable), Err(ConfigError::IoError));
}

#[test]
fn file_in_appends_the_file_name() {
    assert_eq!(Config::file_in("/home/me"), "/home/me/johnny-d-config.json");
    assert_eq!(Config::file_in("/home/me/"), "/home/me/johnny-d-config.json");
    assert_eq!(Config::file_in("work"), "work/johnny-d-config.json");
    assert_eq!(Config::file_in(""), "johnny-d-config.json");
}

#[test]
fn frame_lays_out_four_lines() {
    assert_eq!(
        Config::frame("\"a\"", "\"b\""),
        "{\n  \"source\": \"a\",\n  \"destination\": \"b\"\n}"
    );
    assert_eq!(Config::frame("", ""), "{\n  \"source\": ,\n  \"destination\": \n}");
}

#[test]
fn render_of_default_config() {
    let text = Config::default().render().unwrap();
    assert_eq!(text, "{\n  \"source\": \".\",\n  \"destination\": \"johnny-d\"\n}");
}

#[test]
fn render_escapes_what_json_must_escape() {
    let text = config("a\"b\\c", "line\nbreak\ttab").render().unwrap();
    assert_eq!(
        text,
        "{\n  \"source\": \"a\\\"b\\\\c\",\n  \"destination\": \"line\\nbreak\\ttab\"\n}"
    );
}

#[test]
fn save_names_the_file_of_the_directory() {
    let file = config("/x", "/y").save("/base").unwrap();
    assert_eq!(file.path, "/base/johnny-d-config.json");
    assert_eq!(file.content, "{\n  \"source\": \"/x\",\n  \"destination\": \"/y\"\n}");
}

#[test]
fn save_replaces_an_earlier_file() {
    let mut files = BTreeMap::new();
    write(&mut files, config("a", "b").save("/base").unwrap());
    write(&mut files, config("c", "d").save("/base").unwrap());
    assert_eq!(files.len(), 1);
    let loaded = Config::try_load(read(&files, "/base/johnny-d-config.json")).unwrap();
    assert_eq!(loaded, config("c", "d"));
}

#[test]
fn round_trip_keeps_every_character() {
    let samples = [
        config(".", "johnny-d"),
        config("", ""),
        config("/some/source", "/some/destination"),
        config("with space", "with\"quote"),
        config("back\\slash", "new\nline"),
        config("tab\there", "bell\u{7}"),
        config("ünïcödé", "日本語/パス"),
        config("emoji 🗂", "{\"source\": \"x\"}"),
        config("destination", "source"),
    ];
    for sample in samples.iter() {
        let text = sample.render().unwrap();
        assert_eq!(Config::parse(&text), Ok(sample.clone()));
        let file = sample.save("/d").unwrap();
        assert_eq!(Config::try_load(FileRead::Text(file.content)), Ok(sample.clone()));
    }
}

#[test]
fn parse_compact_object() {
    let parsed = Config::parse("{\"source\":\"/x\",\"destination\":\"/y\"}");
    assert_eq!(parsed, Ok(config("/x", "/y")));
}

#[test]
fn parse_takes_the_keys_in_either_order() {
    let parsed = Config::parse("{\"destination\":\"/y\",\"source\":\"/x\"}");
    assert_eq!(parsed, Ok(config("/x", "/y")));
}

#[test]
fn parse_allows_white_space_and_escapes() {
    let parsed = Config::parse(" \n{ \"source\" :\t\"a\\u0041\\n\" , \"destination\" : \"\\\"\" }\n");
    assert_eq!(parsed, Ok(config("aA\n", "\"")));
}

#[test]
fn parse_rejects_what_is_not_json() {
    assert_eq!(Config::parse(""), Err(ConfigError::ParseError));
    assert_eq!(Config::parse("not json"), Err(ConfigError::ParseError));
    assert_eq!(Config::parse("{\"source\":\"a\",\"destination\":\"b\""), Err(ConfigError::ParseError));
    assert_eq!(
        Config::parse("{\"source\":\"a\",\"destination\":\"b\"} trailing"),
        Err(ConfigError::ParseError)
    );
}

#[test]
fn parse_rejects_other_json_values() {
    assert_eq!(Config::parse("null"), Err(ConfigError::ParseError));
    assert_eq!(Config::parse("\"source\""), Err(ConfigError::ParseError));
    assert_eq!(Config::parse("[\"a\",\"b\"]"), Err(ConfigError::ParseError));
    assert_eq!(Config::parse("{}"), Err(ConfigError::ParseError));
}

#[test]
fn parse_rejects_a_missing_field() {
    assert_eq!(Config::parse("{\"source\":\"a\"}"), Err(ConfigError::ParseError));
    assert_eq!(Config::parse("{\"destination\":\"b\"}"), Err(ConfigError::ParseError));
    assert_eq!(Config::parse("{\"source\":\"a\",\"target\":\"b\"}"), Err(ConfigError::ParseError));
}

#[test]
fn parse_rejects_a_field_that_is_no_text() {
    assert_eq!(Config::parse("{\"source\":1,\"destination\":\"b\"}"), Err(ConfigError::ParseError));
    assert_eq!(
        Config::parse("{\"source\":\"a\",\"destination\":null}"),
        Err(ConfigError::ParseError)
    );
    assert_eq!(
        Config::parse("{\"source\":\"a\",\"destination\":[\"b\"]}"),
        Err(ConfigError::ParseError)
    );
}

#[test]
fn parse_rejects_a_third_field() {
    assert_eq!(
        Config::parse("{\"source\":\"a\",\"destination\":\"b\",\"extra\":\"c\"}"),
        Err(ConfigError::ParseError)
    );
}

#[test]
fn from_members_reads_two_members() {
    let sorted = vec![
        ("destination".to_string(), "/y".to_string()),
        ("source".to_string(), "/x".to_string()),
    ];
    assert_eq!(Config::from_members(&sorted), Ok(config("/x", "/y")));
    let reversed = vec![
        ("source".to_string(), "/x".to_string()),
        ("destination".to_string(), "/y".to_string()),
    ];
    assert_eq!(Config::from_members(&reversed), Ok(config("/x", "/y")));
}

#[test]
fn from_members_rejects_other_shapes() {
    let none: Vec<(String, String)> = Vec::new();
    assert_eq!(Config::from_members(&none), Err(ConfigError::ParseError));
    let one = vec![("source".to_string(), "/x".to_string())];
    assert_eq!(Config::from_members(&one), Err(ConfigError::ParseError));
    let twice = vec![
        ("source".to_string(), "/x".to_string()),
        ("source".to_string(), "/y".to_string()),
    ];
    assert_eq!(Config::from_members(&twice), Err(ConfigError::ParseError));
    let three = vec![
        ("destination".to_string(), "/y".to_string()),
        ("extra".to_string(), "z".to_string()),
        ("source".to_string(), "/x".to_string()),
    ];
    assert_eq!(Config::from_members(&three), Err(ConfigError::ParseError));
    let upper = vec![
        ("Destination".to_string(), "/y".to_string()),
        ("Source".to_string(), "/x".to_string()),
    ];
    assert_eq!(Config::from_members(&upper), Err(ConfigError::ParseError));
}

#[test]
fn load_of_malformed_text_is_parse_error() {
    let read = FileRead::Text("{\"source\": 5}".to_string());
    assert_eq!(Config::try_load(read), Err(ConfigError::ParseError));
}

#[test]
fn equality_compares_both_fields() {
    assert_eq!(config("a", "b"), config("a", "b"));
    assert_ne!(config("a", "b"), config("a", "c"));
    assert_ne!(config("a", "b"), config("c", "b"));
    assert_ne!(config("a", "b"), config("b", "a"));
}

#[test]
fn clone_keeps_both_fields() {
    let first = config("/some/source", "/some/destination");
    let copy = first.clone();
    assert_eq!(copy.source, "/some/source");
    assert_eq!(copy.destination, "/some/destination");
    assert_eq!(copy, first);
}

#[test]
fn parse_keeps_the_last_of_a_repeated_key() {
    let parsed = Config::parse("{\"source\":\"a\",\"source\":\"b\",\"destination\":\"c\"}");
    assert_eq!(parsed, Ok(config("b", "c")));
    let parsed = Config::parse("{\"destination\":\"c\",\"source\":\"a\",\"destination\":\"d\"}");
    assert_eq!(parsed, Ok(config("a", "d")));
}

#[test]
fn parse_rejects_a_repeated_key_without_the_other() {
    assert_eq!(Config::parse("{\"source\":\"a\",\"source\":\"b\"}"), Err(ConfigError::ParseError));
}

#[test]
fn save_succeeds_a_second_time_with_the_same_file() {
    let mut files = BTreeMap::new();
    let sample = config("/some/source", "/some/destination");
    let first = sample.save("/t").unwrap();
    write(&mut files, first.clone());
    let once = files.clone();
    let second = sample.save("/t").unwrap();
    assert_eq!(second, first);
    write(&mut files, second);
    assert_eq!(files, once);
    assert!(files.contains_key("/t/johnny-d-config.json"));
}

#[test]
fn render_succeeds_on_control_characters() {
    let text = config("\u{0}\u{1f}", "\u{8}\u{c}\r").render().unwrap();
    assert_eq!(
        text,
        "{\n  \"source\": \"\\u0000\\u001f\",\n  \"destination\": \"\\b\\f\\r\"\n}"
    );
}
