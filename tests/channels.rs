use dvm::{describe, parse_channel, str_to_type, Channel, DvmError};

#[test]
fn aliases_map_to_channels() {
    for name in ["stable", "discord-stable", "s"] {
        assert_eq!(str_to_type(name.to_string()), Some(Channel::Stable));
    }
    for name in ["canary", "discord-canary", "c"] {
        assert_eq!(str_to_type(name.to_string()), Some(Channel::Canary));
    }
    for name in ["ptb", "discord-ptb", "p"] {
        assert_eq!(str_to_type(name.to_string()), Some(Channel::Ptb));
    }
    for name in ["development", "dev", "discord-development", "d"] {
        assert_eq!(str_to_type(name.to_string()), Some(Channel::Development));
    }
}

#[test]
fn unknown_alias_is_none() {
    assert_eq!(str_to_type("beta".to_string()), None);
    assert_eq!(str_to_type("".to_string()), None);
    assert_eq!(str_to_type("Stable".to_string()), None);
}

#[test]
fn parse_channel_reports_unknown() {
    assert_eq!(parse_channel("ptb".to_string()), Ok(Channel::Ptb));
    assert_eq!(parse_channel("nightly".to_string()), Err(DvmError::UnknownChannel));
}

#[test]
fn catalog_is_total_and_distinct() {
    let all = [Channel::Stable, Channel::Canary, Channel::Ptb, Channel::Development];
    let dirs: Vec<&str> = all.iter().map(|c| describe(*c).dir_name).collect();
    assert_eq!(dirs, vec!["discord-stable", "discord-canary", "discord-ptb", "discord-development"]);
    assert_eq!(describe(Channel::Ptb).display_name, "Discord PTB");
    assert!(describe(Channel::Canary).latest_url.contains("canary"));
}
