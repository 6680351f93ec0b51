use serum_rust_cli::error::ClientError;
use serum_rust_cli::utils::{
    is_initialized, list_files, note_namespace, note_plain_file, read_config, read_file,
    remove_dir_and_files, validate_input_for_space, validate_url_address, write_file, KeyStore,
    StoreError,
};

#[test]
fn test_validate_url_address_ok() {
    let url = "http://localhost:8899";
    let result = validate_url_address(url);
    assert_eq!(result.is_ok(), true);
}

#[test]
fn test_validate_url_address_failed() {
    let url = "localhost:8899";
    let result = validate_url_address(url);
    assert_eq!(result.is_err(), true);
}

#[test]
fn test_validate_input_for_space_ok() {
    let input = "some input";
    let result = validate_input_for_space(input);
    assert_eq!(result.is_ok(), true);
}

#[test]
fn test_validate_input_for_space_failed() {
    let input = "  ";
    let result = validate_input_for_space(input);
    assert_eq!(result.is_err(), true);

    let input = " some other input";
    let result = validate_input_for_space(input);
    assert_eq!(result.is_err(), true);
}

#[test]
fn test_write_file_ok() {
    let mut store = KeyStore::new();
    let dir_name = "test_write_file_ok";
    let file_name = "test_write_file_ok.json";
    let result = write_file(&mut store, dir_name, file_name, "market_pubkey");
    assert_eq!(result.is_ok(), true);

    if result.is_ok() {
        let result = remove_dir_and_files(&mut store, dir_name);
        assert_eq!(result.is_ok(), true);
    }
}

#[test]
fn test_write_file_failed() {
    let mut store = KeyStore::new();
    let dir_name = "test_write_file_failed";
    let outfile = "test_write_file_failed.json";
    let result = write_file(&mut store, "", "", "market_pubkey");
    assert_eq!(result.is_err(), true);

    let result = write_file(&mut store, "", outfile, "market_pubkey");
    assert_eq!(result.is_err(), true);

    let result = write_file(&mut store, dir_name, " ", "market_pubkey");
    assert_eq!(result.is_err(), true);

    let result = write_file(&mut store, dir_name, outfile, "");
    assert_eq!(result.is_err(), true);

    let result = write_file(&mut store, dir_name, outfile, "   ");
    assert_eq!(result.is_err(), true);
}

#[test]
fn test_read_file_ok() {
    let mut store = KeyStore::new();
    let dir_name = "test_read_file_ok";
    let outfile = "test_read_file_ok.json";
    let result = write_file(&mut store, dir_name, outfile, "market_pubkey");

    if result.is_ok() {
        let result = read_file(&store, dir_name, outfile);
        assert_eq!(result.is_ok(), true);

        let result = remove_dir_and_files(&mut store, dir_name);
        assert_eq!(result.is_ok(), true);
    } else {
        panic!("Unable to create a file");
    }
}

#[test]
fn test_read_file_failed() {
    let mut store = KeyStore::new();
    let dir_name = "test_read_file_failed";
    let outfile = "test_read_file_failed.json";
    let result = write_file(&mut store, " ", "", "market_pubkey");
    assert_eq!(result.is_err(), true);

    let result = write_file(&mut store, dir_name, outfile, "market_pubkey");
    if result.is_ok() {
        let result = read_file(&store, " ", "");
        assert_eq!(result.is_err(), true);

        let result = remove_dir_and_files(&mut store, dir_name);
        assert_eq!(result.is_ok(), true);
    } else {
        panic!("Unable to create a file: {:?}", result.err().unwrap());
    }

    let result = read_file(&store, dir_name, outfile);
    assert_eq!(result.is_err(), true);
}

#[test]
fn test_remove_dir_and_files_ok() {
    let mut store = KeyStore::new();
    let dir_name = "test_remove_dir_and_files_ok";
    let file_name1 = "test_remove_dir_and_files_ok_1.json";
    let file_name2 = "test_remove_dir_and_files_ok_2.json";
    let file_name3 = "test_remove_dir_and_files_ok_3.json";

    let result = write_file(&mut store, dir_name, file_name1, "test_remove_dir_and_files_ok_1");
    assert_eq!(result.is_ok(), true);

    let result = write_file(&mut store, dir_name, file_name2, "test_remove_dir_and_files_ok_2");
    assert_eq!(result.is_ok(), true);

    let result = write_file(&mut store, dir_name, file_name3, "test_remove_dir_and_files_ok_3");
    assert_eq!(result.is_ok(), true);

    let result = remove_dir_and_files(&mut store, dir_name);
    assert_eq!(result.is_ok(), true);
}

#[test]
fn test_remove_dir_and_files_failed() {
    let mut store = KeyStore::new();
    let dir_name = "";
    let result = remove_dir_and_files(&mut store, dir_name);
    assert_eq!(result.is_err(), true);
}

#[test]
fn validation_says_what_is_wrong() {
    assert_eq!(
        validate_url_address(" http://localhost:8899"),
        Err(String::from("URL cannot have leading and trailing space"))
    );
    assert_eq!(
        validate_url_address("ftp://localhost"),
        Err(String::from("URL should start with http or https prefix"))
    );
    assert_eq!(validate_url_address("https://api.example.org"), Ok(()));
    assert_eq!(validate_url_address("htt"), Err(String::from("URL should start with http or https prefix")));
    assert_eq!(
        validate_input_for_space("trailing\n"),
        Err(String::from("Input cannot have leading and trailing space"))
    );
    assert_eq!(validate_input_for_space(""), Ok(()));
    assert_eq!(validate_input_for_space("inner space stays"), Ok(()));
}

#[test]
fn put_then_get_returns_the_trimmed_value() {
    let mut store = KeyStore::new();
    assert!(write_file(&mut store, " configs ", "\turl.json", "  http://localhost:8899 \n").is_ok());
    assert_eq!(read_file(&store, "configs", "url.json").unwrap(), "http://localhost:8899");
    assert_eq!(read_file(&store, " configs ", "\turl.json").unwrap(), "http://localhost:8899");
    assert!(write_file(&mut store, "configs", "url.json", "http://other:1").is_ok());
    assert_eq!(read_file(&store, "configs", "url.json").unwrap(), "http://other:1");
}

#[test]
fn get_on_an_unset_name_is_not_found() {
    let mut store = KeyStore::new();
    assert!(matches!(read_file(&store, "configs", "url.json"), Err(StoreError::NotFound)));
    assert!(write_file(&mut store, "configs", "url.json", "u").is_ok());
    assert!(matches!(read_file(&store, "configs", "wallet.json"), Err(StoreError::NotFound)));
    assert!(matches!(read_file(&store, "other", "url.json"), Err(StoreError::NotFound)));
}

#[test]
fn reset_then_get_is_not_found() {
    let mut store = KeyStore::new();
    assert!(write_file(&mut store, "configs", "url.json", "u").is_ok());
    assert!(write_file(&mut store, "configs", "wallet.json", "w").is_ok());
    assert!(write_file(&mut store, "elsewhere", "url.json", "kept").is_ok());
    assert!(is_initialized(&store, "configs"));
    assert!(remove_dir_and_files(&mut store, "configs").is_ok());
    assert!(!is_initialized(&store, "configs"));
    assert!(matches!(read_file(&store, "configs", "url.json"), Err(StoreError::NotFound)));
    assert!(matches!(read_file(&store, "configs", "wallet.json"), Err(StoreError::NotFound)));
    assert_eq!(read_file(&store, "elsewhere", "url.json").unwrap(), "kept");
    assert!(matches!(remove_dir_and_files(&mut store, "configs"), Err(StoreError::NotFound)));
}

#[test]
fn each_store_error_has_an_input() {
    let mut store = KeyStore::new();
    assert!(matches!(write_file(&mut store, " ", "a", "b"), Err(StoreError::EmptyNamespace)));
    assert!(matches!(write_file(&mut store, "d", "\n", "b"), Err(StoreError::EmptyName)));
    assert!(matches!(write_file(&mut store, "d", "a", ""), Err(StoreError::EmptyValue)));
    assert!(matches!(remove_dir_and_files(&mut store, ""), Err(StoreError::EmptyNamespace)));
    assert!(matches!(remove_dir_and_files(&mut store, "d"), Err(StoreError::NotFound)));
    assert!(note_plain_file(&mut store, "plain"));
    assert!(!note_plain_file(&mut store, " plain"));
    assert!(matches!(write_file(&mut store, "plain", "a", "b"), Err(StoreError::NotADirectory)));
    assert!(matches!(remove_dir_and_files(&mut store, "plain"), Err(StoreError::NotADirectory)));
    assert!(!is_initialized(&store, "plain"));
    assert!(write_file(&mut store, "d", "a", "b").is_ok());
    assert!(!note_plain_file(&mut store, "d"));
}

#[test]
fn a_missing_required_record_is_config_missing() {
    let mut store = KeyStore::new();
    assert!(matches!(read_config(&store, "url.json"), Err(ClientError::ConfigMissing)));
    assert!(write_file(&mut store, "configs", "url.json", " http://localhost:8899 ").is_ok());
    assert_eq!(read_config(&store, "url.json").unwrap(), "http://localhost:8899");
    assert!(matches!(read_config(&store, "program_id.json"), Err(ClientError::ConfigMissing)));
}

#[test]
fn store_errors_have_words() {
    assert_eq!(StoreError::EmptyNamespace.message(), "The given dir name is empty");
    assert_eq!(StoreError::EmptyName.message(), "The given file name is empty");
    assert_eq!(StoreError::EmptyValue.message(), "The given content is empty");
    assert_eq!(StoreError::NotFound.message(), "The given path doesn't exist");
    assert_eq!(StoreError::NotADirectory.message(), "The given dir name isn't a directory");
}

#[test]
fn records_are_listed_in_their_order() {
    let mut store = KeyStore::new();
    assert!(list_files(&store, "configs").is_empty());
    assert!(write_file(&mut store, "configs", "b", "2").is_ok());
    assert!(write_file(&mut store, "other", "x", "9").is_ok());
    assert!(write_file(&mut store, "configs", "a", "1").is_ok());
    assert!(write_file(&mut store, "configs", "b", "3").is_ok());
    assert_eq!(
        list_files(&store, "configs"),
        vec![(String::from("b"), String::from("3")), (String::from("a"), String::from("1"))]
    );
    assert_eq!(list_files(&store, "other"), vec![(String::from("x"), String::from("9"))]);
}

#[test]
fn an_empty_namespace_is_a_namespace() {
    let mut store = KeyStore::new();
    assert!(!is_initialized(&store, "configs"));
    assert!(note_namespace(&mut store, "configs"));
    assert!(is_initialized(&store, "configs"));
    assert!(list_files(&store, "configs").is_empty());
    assert!(matches!(read_file(&store, "configs", "url.json"), Err(StoreError::NotFound)));
    assert!(note_namespace(&mut store, "configs"));
    assert!(write_file(&mut store, "configs", "url.json", "u").is_ok());
    assert!(remove_dir_and_files(&mut store, "configs").is_ok());
    assert!(!is_initialized(&store, "configs"));
    assert!(note_namespace(&mut store, "empty"));
    assert!(remove_dir_and_files(&mut store, "empty").is_ok());
    assert!(!is_initialized(&store, "empty"));
    assert!(!note_namespace(&mut store, ""));
    assert!(!note_namespace(&mut store, " padded"));
    assert!(note_plain_file(&mut store, "plain"));
    assert!(!note_namespace(&mut store, "plain"));
    assert!(!is_initialized(&store, "plain"));
}
