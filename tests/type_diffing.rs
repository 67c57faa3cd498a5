use resym_core::diffing::{
    diff_module_by_path, diff_symbol_by_name, diff_type_by_name, generate_diff,
    generate_diff_header, DiffChange, PdbFileInfo,
};
use resym_core::error::ResymCoreError;

const TEST_PDB_FROM_FILE_PATH: &str = "tests/data/test_diff_from.pdb";
const TEST_PDB_TO_FILE_PATH: &str = "tests/data/test_diff_to.pdb";

fn pdb_file(path: &str) -> PdbFileInfo {
    PdbFileInfo {
        file_path: path.to_string(),
        machine_type: "Amd64".to_string(),
    }
}

fn missing(name: &str) -> Result<String, ResymCoreError> {
    Err(ResymCoreError::TypeNameNotFoundError(name.to_string()))
}

#[test]
fn test_struct_diffing_inexistent_type() {
    const INEXISTENT_TYPE_NAME: &str = "TypeNotFound";
    let pdb_file_from = pdb_file(TEST_PDB_FROM_FILE_PATH);
    let pdb_file_to = pdb_file(TEST_PDB_TO_FILE_PATH);
    assert!(diff_type_by_name(
        &pdb_file_from,
        &pdb_file_to,
        INEXISTENT_TYPE_NAME,
        missing(INEXISTENT_TYPE_NAME),
        missing(INEXISTENT_TYPE_NAME),
        false, // print_header
    )
    .is_err());
}

#[test]
fn inexistent_type_reports_its_name() {
    let from = pdb_file(TEST_PDB_FROM_FILE_PATH);
    let to = pdb_file(TEST_PDB_TO_FILE_PATH);
    let r = diff_type_by_name(&from, &to, "TypeNotFound", Ok(String::new()), missing("x"), true);
    assert_eq!(
        r.err(),
        Some(ResymCoreError::TypeNameNotFoundError("TypeNotFound".to_string()))
    );
}

#[test]
fn inexistent_module_and_symbol() {
    let from = pdb_file(TEST_PDB_FROM_FILE_PATH);
    let to = pdb_file(TEST_PDB_TO_FILE_PATH);
    let r = diff_module_by_path(&from, &to, "a.obj", missing("a"), missing("a"), false);
    assert_eq!(
        r.err(),
        Some(ResymCoreError::ModuleNotFoundError("a.obj".to_string()))
    );
    let r = diff_symbol_by_name(&from, &to, "g_value", missing("a"), missing("a"), true);
    assert_eq!(
        r.err(),
        Some(ResymCoreError::SymbolNotFoundError("g_value".to_string()))
    );
}

#[test]
fn removed_struct_is_all_deleted() {
    let from = pdb_file(TEST_PDB_FROM_FILE_PATH);
    let to = pdb_file(TEST_PDB_TO_FILE_PATH);
    let text = "struct RemovedStruct {\n  int32_t a;\n};\n".to_string();
    let d = diff_type_by_name(&from, &to, "RemovedStruct", Ok(text), missing("x"), false)
        .expect("diff generation");
    assert_eq!(d.metadata.len(), 3);
    assert!(d.metadata.iter().all(|(_, c)| *c == DiffChange::Delete));
    assert_eq!(d.data, "-struct RemovedStruct {\n-  int32_t a;\n-};\n");
}

#[test]
fn new_struct_is_all_inserted() {
    let from = pdb_file(TEST_PDB_FROM_FILE_PATH);
    let to = pdb_file(TEST_PDB_TO_FILE_PATH);
    let text = "struct NewStruct {\n  int32_t a;\n};".to_string();
    let d = diff_symbol_by_name(&from, &to, "NewStruct", missing("x"), Ok(text), false)
        .expect("diff generation");
    assert_eq!(d.metadata.len(), 3);
    assert!(d.metadata.iter().all(|(_, c)| *c == DiffChange::Insert));
    assert_eq!(d.data, "+struct NewStruct {\n+  int32_t a;\n+};\n");
}

#[test]
fn changed_struct_marks_changed_lines() {
    let from = pdb_file(TEST_PDB_FROM_FILE_PATH);
    let to = pdb_file(TEST_PDB_TO_FILE_PATH);
    let old = "struct S {\n  int32_t a;\n  int32_t b;\n};\n".to_string();
    let new = "struct S {\n  int32_t a;\n  int64_t b;\n  bool c;\n};\n".to_string();
    let d = diff_type_by_name(&from, &to, "S", Ok(old), Ok(new), false).expect("diff generation");
    assert_eq!(
        d.data,
        " struct S {\n   int32_t a;\n-  int32_t b;\n+  int64_t b;\n+  bool c;\n };\n"
    );
    assert_eq!(
        d.metadata,
        vec![
            ((Some(0), Some(0)), DiffChange::Equal),
            ((Some(1), Some(1)), DiffChange::Equal),
            ((Some(2), None), DiffChange::Delete),
            ((None, Some(2)), DiffChange::Insert),
            ((None, Some(3)), DiffChange::Insert),
            ((Some(3), Some(4)), DiffChange::Equal),
        ]
    );
}

#[test]
fn header_is_shared_by_both_sides() {
    let from = pdb_file("a.pdb");
    let to = PdbFileInfo {
        file_path: "b.pdb".to_string(),
        machine_type: "X86".to_string(),
    };
    let header = generate_diff_header(&from, &to);
    assert_eq!(
        header,
        "//\n// Showing differences between two PDB files:\n//\n// Reference PDB file: a.pdb\n\
         // Image architecture: Amd64\n//\n// New PDB file: b.pdb\n// Image architecture: X86\n\
         //\n// Information extracted with resym v0.4.0\n//\n"
    );
    let d = diff_type_by_name(&from, &to, "T", Ok("x\n".to_string()), missing("T"), true)
        .expect("diff generation");
    assert_eq!(d.metadata.len(), 12);
    assert!(d.metadata[..11].iter().all(|(_, c)| *c == DiffChange::Equal));
    assert_eq!(d.metadata[11].1, DiffChange::Delete);
    assert!(d.data.starts_with(" //\n // Showing differences"));
    assert!(d.data.ends_with(" //\n-x\n"));
}

#[test]
fn module_header_is_followed_by_an_empty_line() {
    let from = pdb_file("a.pdb");
    let to = pdb_file("b.pdb");
    let d = diff_module_by_path(&from, &to, "m.obj", Ok("x\n".to_string()), Ok("x\n".to_string()), true)
        .expect("diff generation");
    assert_eq!(d.metadata.len(), 13);
    assert!(d.metadata.iter().all(|(_, c)| *c == DiffChange::Equal));
    assert!(d.data.ends_with(" //\n \n x\n"));
}

#[test]
fn missing_final_line_break_is_added() {
    let d = generate_diff("a", "b").expect("diff generation");
    assert_eq!(d.data, "-a\n+b\n");
    let d = generate_diff("a\r\nb", "a\r\nb").expect("diff generation");
    assert_eq!(d.data, " a\r\n b\n");
}

#[test]
fn empty_texts_give_an_empty_diff() {
    let d = generate_diff("", "").expect("diff generation");
    assert!(d.metadata.is_empty());
    assert_eq!(d.data, "");
}

#[test]
fn unmarked_and_deleted_lines_give_back_the_old_text() {
    let old = "one\ntwo\nthree\nfour\n";
    let new = "zero\none\nthree\nfour\nfive\n";
    let d = generate_diff(old, new).expect("diff generation");
    let lines: Vec<&str> = d.data.split_inclusive('\n').collect();
    assert_eq!(lines.len(), d.metadata.len());
    let mut rebuilt_old = String::new();
    let mut rebuilt_new = String::new();
    for (line, (_, change)) in lines.iter().zip(d.metadata.iter()) {
        let (marker, text) = line.split_at(1);
        match change {
            DiffChange::Equal => {
                assert_eq!(marker, " ");
                rebuilt_old.push_str(text);
                rebuilt_new.push_str(text);
            }
            DiffChange::Delete => {
                assert_eq!(marker, "-");
                rebuilt_old.push_str(text);
            }
            DiffChange::Insert => {
                assert_eq!(marker, "+");
                rebuilt_new.push_str(text);
            }
        }
    }
    assert_eq!(rebuilt_old, old);
    assert_eq!(rebuilt_new, new);
}

#[test]
fn diffing_twice_gives_the_same_diff() {
    let from = pdb_file("a.pdb");
    let to = pdb_file("b.pdb");
    let a = diff_type_by_name(&from, &to, "S", Ok("a\nb\n".to_string()), Ok("b\nc\n".to_string()), true)
        .expect("diff generation");
    let b = diff_type_by_name(&from, &to, "S", Ok("a\nb\n".to_string()), Ok("b\nc\n".to_string()), true)
        .expect("diff generation");
    assert_eq!(a.data, b.data);
    assert_eq!(a.metadata, b.metadata);
}
