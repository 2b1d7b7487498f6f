use trench::util::validate_download_name;

#[test]
fn validate_download_name_accepts_plain_filenames() {
  assert!(validate_download_name("foo.zip").is_ok());
  assert!(validate_download_name("README.md").is_ok());
  assert!(validate_download_name("file_name-1.txt").is_ok());
}

#[test]
fn validate_download_name_rejects_leading_dot() {
  // `..foo`, `.bashrc`, etc. — would land as hidden files in ~/Downloads
  // if the upstream `name` from GitHub is hostile.
  assert!(validate_download_name("..foo").is_err());
  assert!(validate_download_name(".bashrc").is_err());
  assert!(validate_download_name(".hidden").is_err());
}

#[test]
fn validate_download_name_rejects_traversal() {
  assert!(validate_download_name("../etc/passwd").is_err());
  assert!(validate_download_name("..").is_err());
}

#[test]
fn validate_download_name_rejects_absolute_paths() {
  assert!(validate_download_name("/etc/passwd").is_err());
  assert!(validate_download_name("/foo.zip").is_err());
}

#[test]
fn validate_download_name_rejects_path_separators() {
  assert!(validate_download_name("dir/file").is_err());
  assert!(validate_download_name("a/b/c").is_err());
}

#[test]
fn download_name_errors_quote_the_name() {
  assert_eq!(
    validate_download_name("/etc/passwd"),
    Err("absolute path not allowed: \"/etc/passwd\"".to_string())
  );
  assert_eq!(
    validate_download_name(".x"),
    Err("leading dot in filename not allowed: \".x\"".to_string())
  );
  assert_eq!(
    validate_download_name("a/\"b"),
    Err("path separator or traversal segment: \"a/\\\"b\"".to_string())
  );
  assert_eq!(
    validate_download_name(""),
    Err("path separator or traversal segment: \"\"".to_string())
  );
}
