use dvm::version_from_locator;

fn v(s: &str) -> Option<Vec<u8>> {
    version_from_locator(&s.as_bytes().to_vec())
}

#[test]
fn version_is_segment_before_file() {
    assert_eq!(
        v("https://dl.discordapp.net/apps/linux/0.0.17/discord-0.0.17.tar.gz"),
        Some(b"0.0.17".to_vec())
    );
    assert_eq!(v("a/1.0.0/f"), Some(b"1.0.0".to_vec()));
}

#[test]
fn malformed_locators_give_none() {
    assert_eq!(v(""), None);
    assert_eq!(v("no-slashes"), None);
    assert_eq!(v("only/one"), None);
    assert_eq!(v("a//file"), None);
    assert_eq!(v("a/1.0/"), None);
}
