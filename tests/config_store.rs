use jiralang::config::{create_config, read_config, trim_newline, Config, ConfigFailure};

fn stored_text(site: &str, username: &str, password: &str) -> String {
    let conf = create_config(site.to_string(), username.to_string(), password.to_string());
    let mut bytes: Vec<u8> = Vec::new();
    conf.write_to(&mut bytes).unwrap();
    String::from_utf8(bytes).unwrap()
}

#[test]
fn round_trip_keeps_profile() {
    let text = stored_text("https://example.atlassian.net", "bob", "xyz");
    let read = read_config(Some(&text));
    assert_eq!(
        read,
        Ok(Config {
            site: "https://example.atlassian.net".to_string(),
            username: "bob".to_string(),
            password: "xyz".to_string(),
        })
    );
}

#[test]
fn round_trip_keeps_inner_whitespace() {
    let text = stored_text("https://my site.example", "bob smith", "pass word here");
    let c = read_config(Some(&text)).unwrap();
    assert_eq!(c.site, "https://my site.example");
    assert_eq!(c.username, "bob smith");
    assert_eq!(c.password, "pass word here");
}

#[test]
fn stored_document_has_config_section() {
    let conf = create_config("s".to_string(), "u".to_string(), "p".to_string());
    assert_eq!(conf.get_from(Some("Config"), "site"), Some("s"));
    assert_eq!(conf.get_from(Some("Config"), "username"), Some("u"));
    assert_eq!(conf.get_from(Some("Config"), "password"), Some("p"));
}

#[test]
fn missing_file_is_missing() {
    assert_eq!(read_config(None), Err(ConfigFailure::Missing));
}

#[test]
fn missing_password_is_malformed() {
    let text = "[Config]\nsite=https://example.atlassian.net\nusername=bob\n";
    assert_eq!(
        read_config(Some(text)),
        Err(ConfigFailure::Malformed("password".to_string()))
    );
}

#[test]
fn missing_site_is_malformed() {
    let text = "[Config]\nusername=bob\npassword=xyz\n";
    assert_eq!(read_config(Some(text)), Err(ConfigFailure::Malformed("site".to_string())));
}

#[test]
fn missing_section_is_malformed() {
    let text = "[Other]\nsite=a\nusername=b\npassword=c\n";
    assert_eq!(read_config(Some(text)), Err(ConfigFailure::Malformed("Config".to_string())));
}

#[test]
fn empty_file_is_malformed() {
    assert_eq!(read_config(Some("")), Err(ConfigFailure::Malformed("Config".to_string())));
}

#[test]
fn invalid_ini_is_unparsable() {
    assert_eq!(read_config(Some("=x\n")), Err(ConfigFailure::Unparsable));
}

#[test]
fn hand_written_file_is_read() {
    let text = "[Config]\nsite = https://a.example\nusername = amy\npassword = s3cret\n";
    let c = read_config(Some(text)).unwrap();
    assert_eq!(c.site, "https://a.example");
    assert_eq!(c.username, "amy");
    assert_eq!(c.password, "s3cret");
}

#[test]
fn trim_newline_removes_one_newline() {
    let mut s = "bob\n".to_string();
    trim_newline(&mut s);
    assert_eq!(s, "bob");
    let mut t = "bob\n\n".to_string();
    trim_newline(&mut t);
    assert_eq!(t, "bob\n");
}

#[test]
fn trim_newline_leaves_other_text() {
    let mut s = "bob".to_string();
    trim_newline(&mut s);
    assert_eq!(s, "bob");
    let mut e = String::new();
    trim_newline(&mut e);
    assert_eq!(e, "");
}
