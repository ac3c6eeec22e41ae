use pasta_create::config::Config;

fn settings(default_expiry: &str) -> Config {
    Config {
        no_file_upload: false,
        max_file_size_encrypted_mb: 2,
        max_file_size_unencrypted_mb: 1,
        default_expiry: String::from(default_expiry),
        eternal_pasta: false,
        readonly: false,
        uploader_password: None,
        hash_ids: false,
        public_path: String::new(),
        editable: false,
        data_dir: String::from("data"),
    }
}

#[test]
fn settings_with_a_known_default_token_are_well_formed() {
    for token in ["1min", "10min", "1hour", "24hour", "3days", "1week", "never"] {
        assert!(settings(token).is_well_formed());
    }
}

#[test]
fn settings_with_an_unknown_default_token_are_not_well_formed() {
    for token in ["", "bogus", "2weeks"] {
        assert!(!settings(token).is_well_formed());
    }
}
