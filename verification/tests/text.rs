use process_probe::params::{get_cmdline_from_buffer, get_cwd, get_proc_env, ReadError};
use process_probe::text::{
    decode_all, has_terminator, null_terminated_wchar_to_string, split_environment,
};

fn wide(text: &str) -> Vec<u16> {
    text.encode_utf16().collect()
}

#[test]
fn environment_block_parses_to_its_entries() {
    let variables = get_proc_env(Ok(wide("A=1\0B=2\0\0")));
    assert_eq!(variables, vec!["A=1".to_string(), "B=2".to_string()]);
}

#[test]
fn environment_entry_without_separator_truncates_the_list() {
    let variables = get_proc_env(Ok(wide("A=1\0B=2\0broken\0C=3\0\0")));
    assert_eq!(variables, vec!["A=1".to_string(), "B=2".to_string()]);
    let none = get_proc_env(Ok(wide("broken\0A=1\0\0")));
    assert!(none.is_empty());
}

#[test]
fn environment_without_final_terminator_drops_the_open_entry() {
    let variables = get_proc_env(Ok(wide("A=1\0B=2")));
    assert_eq!(variables, vec!["A=1".to_string()]);
}

#[test]
fn environment_keeps_duplicates_and_odd_keys() {
    let variables = get_proc_env(Ok(wide("=C:=C:\\work\0A=1\0A=1\0A=\0\0")));
    assert_eq!(
        variables,
        vec![
            "=C:=C:\\work".to_string(),
            "A=1".to_string(),
            "A=1".to_string(),
            "A=".to_string()
        ]
    );
}

#[test]
fn environment_of_a_failed_read_is_empty() {
    assert!(get_proc_env(Err(ReadError::Read)).is_empty());
    assert!(get_proc_env(Err(ReadError::ShortRead)).is_empty());
    assert!(get_proc_env(Err(ReadError::RegionQuery)).is_empty());
}

#[test]
fn empty_environment_block_has_no_entries() {
    assert!(get_proc_env(Ok(Vec::new())).is_empty());
    assert!(get_proc_env(Ok(vec![0])).is_empty());
    assert!(split_environment(&[]).is_empty());
}

#[test]
fn split_environment_gives_raw_entries() {
    let raw = wide("K=v\0X=\0\0tail=1\0");
    let entries = split_environment(&raw);
    assert_eq!(entries, vec![wide("K=v"), wide("X=")]);
}

#[test]
fn text_ends_at_the_first_terminator() {
    assert_eq!(null_terminated_wchar_to_string(&wide("abc\0def\0")), "abc");
    assert_eq!(null_terminated_wchar_to_string(&wide("abc")), "abc");
    assert_eq!(null_terminated_wchar_to_string(&wide("\0abc")), "");
    assert_eq!(null_terminated_wchar_to_string(&[]), "");
}

#[test]
fn text_is_decoded_as_utf16() {
    let mut units = wide("h\u{e9}llo \u{1f600}");
    units.push(0);
    assert_eq!(null_terminated_wchar_to_string(&units), "h\u{e9}llo \u{1f600}");
    // A surrogate without its partner is replaced.
    assert_eq!(null_terminated_wchar_to_string(&[0x41, 0xd800, 0x42, 0]), "A\u{fffd}B");
}

#[test]
fn working_directory_is_the_text_of_the_read() {
    assert_eq!(get_cwd(Ok(wide("C:\\Users\\me\0"))), "C:\\Users\\me");
    assert_eq!(get_cwd(Err(ReadError::Read)), "");
}

#[test]
fn arguments_are_decoded_in_order() {
    let split = vec![wide("prog.exe"), wide("--flag"), wide("va lue"), wide("")];
    assert_eq!(
        get_cmdline_from_buffer(Some(split.clone())),
        vec!["prog.exe".to_string(), "--flag".to_string(), "va lue".to_string(), String::new()]
    );
    assert_eq!(decode_all(&split).len(), 4);
    assert!(get_cmdline_from_buffer(None).is_empty());
    assert!(get_cmdline_from_buffer(Some(Vec::new())).is_empty());
}

#[test]
fn terminator_is_found_anywhere() {
    assert!(has_terminator(&[0]));
    assert!(has_terminator(&[0x61, 0, 0x62]));
    assert!(has_terminator(&[0x61, 0x62, 0]));
    assert!(!has_terminator(&[0x61, 0x62]));
    assert!(!has_terminator(&[]));
}
