use dds_gen::loader::Loader;
use dds_gen::loader::select_first_read;

#[test]
fn candidate_paths_follow_search_order() {
    let loader = Loader::new(vec!["dirA".to_string(), "dirB".to_string()]);
    let paths = loader.candidate_paths("HelloWorldData.idl");
    assert_eq!(
        paths,
        vec!["dirA/HelloWorldData.idl".to_string(), "dirB/HelloWorldData.idl".to_string()]
    );
}

#[test]
fn file_only_in_second_directory_wins() {
    let reads = vec![None, Some("module from B".to_string())];
    let r = select_first_read(&reads);
    assert_eq!(r.unwrap(), "module from B");
}

#[test]
fn first_successful_read_wins() {
    let reads = vec![Some("from A".to_string()), Some("from B".to_string())];
    assert_eq!(select_first_read(&reads).unwrap(), "from A");
}

#[test]
fn absent_everywhere_is_not_found() {
    let reads: Vec<Option<String>> = vec![None, None];
    assert!(select_first_read(&reads).is_err());
    let empty: Vec<Option<String>> = Vec::new();
    assert!(select_first_read(&empty).is_err());
}
