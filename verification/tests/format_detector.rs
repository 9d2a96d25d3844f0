use shim_core::detect::{
    classify_executable, classify_header, executable_candidates, first_match, is_linux_executable,
    DetectError, ExecutableClassification, FileProbe,
};

fn probe(is_regular_file: bool, mode: u32, header: &[u8]) -> FileProbe {
    FileProbe { is_regular_file, mode, header: header.to_vec() }
}

#[test]
fn elf_with_execute_bit_is_native() {
    let p = probe(true, 0o755, &[0x7f, 0x45, 0x4c, 0x46]);
    assert!(is_linux_executable(&Some(p)).is_ok());
    let p = probe(true, 0o755, &[0x7f, 0x45, 0x4c, 0x46]);
    assert_eq!(classify_executable(&Some(p)), ExecutableClassification::Native);
}

#[test]
fn shebang_is_native() {
    let p = probe(true, 0o111, &[0x23, 0x21, 0x2f, 0x62]);
    assert_eq!(classify_executable(&Some(p)), ExecutableClassification::Native);
    // The shebang marker alone, with nothing after it, still classifies.
    let p = probe(true, 0o111, &[0x23, 0x21]);
    assert_eq!(classify_executable(&Some(p)), ExecutableClassification::Native);
}

#[test]
fn other_bytes_missing_file_or_no_execute_bit_are_inconclusive() {
    // Arbitrary bytes.
    let p = probe(true, 0o755, &[0x00, 0x61, 0x73, 0x6d]);
    assert_eq!(is_linux_executable(&Some(p)), Err(DetectError::UnrecognizedHeader));
    let p = probe(true, 0o755, &[0x00, 0x61, 0x73, 0x6d]);
    assert_eq!(classify_executable(&Some(p)), ExecutableClassification::EmbeddedRuntime);
    // Missing file.
    assert_eq!(is_linux_executable(&None), Err(DetectError::FileNotFound));
    assert_eq!(classify_executable(&None), ExecutableClassification::EmbeddedRuntime);
    // Execute bit absent.
    let p = probe(true, 0o644, &[0x7f, 0x45, 0x4c, 0x46]);
    assert_eq!(is_linux_executable(&Some(p)), Err(DetectError::NotExecutable));
    // Not a regular file.
    let p = probe(false, 0o755, &[0x7f, 0x45, 0x4c, 0x46]);
    assert_eq!(is_linux_executable(&Some(p)), Err(DetectError::NotRegularFile));
    // A header cut short of the ELF magic.
    let p = probe(true, 0o755, &[0x7f, 0x45, 0x4c]);
    assert_eq!(classify_executable(&Some(p)), ExecutableClassification::EmbeddedRuntime);
}

#[test]
fn header_classification_is_exact() {
    assert!(classify_header(&vec![0x7f, 0x45, 0x4c, 0x46]));
    assert!(classify_header(&vec![0x23, 0x21]));
    assert!(classify_header(&vec![0x23, 0x21, 0xff, 0xff]));
    assert!(!classify_header(&vec![0x7f, 0x45, 0x4c]));
    assert!(!classify_header(&vec![0x46, 0x4c, 0x45, 0x7f]));
    assert!(!classify_header(&vec![]));
}

#[test]
fn candidates_for_slash_path_join_under_cwd() {
    let args = vec!["bin/tool".to_string()];
    let env: Vec<String> = vec![];
    let r = executable_candidates(&args, &env, "/work").unwrap();
    assert_eq!(r, vec!["/work/bin/tool".to_string()]);
    // An absolute executable replaces the working directory.
    let args = vec!["/usr/bin/tool".to_string()];
    let r = executable_candidates(&args, &env, "/work").unwrap();
    assert_eq!(r, vec!["/usr/bin/tool".to_string()]);
}

#[test]
fn candidates_for_bare_name_follow_path_order() {
    let args = vec!["tool".to_string()];
    let env = vec![
        "HOME=/root".to_string(),
        "PATH=/usr/bin:/bin".to_string(),
        "PATH=/ignored".to_string(),
    ];
    // Joining an absolute PATH entry replaces the working directory, as
    // path joining does.
    let r = executable_candidates(&args, &env, "/work").unwrap();
    assert_eq!(r, vec!["/usr/bin/tool".to_string(), "/bin/tool".to_string()]);
}

#[test]
fn candidate_errors() {
    let env: Vec<String> = vec![];
    assert_eq!(
        executable_candidates(&vec![], &env, "/"),
        Err(DetectError::NoArguments)
    );
    assert_eq!(
        executable_candidates(&vec!["".to_string()], &env, "/"),
        Err(DetectError::EmptyExecutable)
    );
    assert_eq!(
        executable_candidates(&vec!["tool".to_string()], &vec!["HOME=/root".to_string()], "/"),
        Err(DetectError::PathNotDefined)
    );
}

#[test]
fn first_match_picks_first_regular_file() {
    assert_eq!(first_match(&vec![false, true, true]), Some(1));
    assert_eq!(first_match(&vec![true]), Some(0));
    assert_eq!(first_match(&vec![false, false]), None);
    assert_eq!(first_match(&vec![]), None);
}
