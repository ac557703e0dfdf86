use rust_template::update::{update_notice, UpdateInfo};

fn newer(current: &str, latest: &str) -> UpdateInfo {
    UpdateInfo { current: current.to_string(), latest: latest.to_string() }
}

#[test]
fn newer_release_gives_a_notice() {
    let outcome: Result<Option<UpdateInfo>, String> = Ok(Some(newer("0.1.0", "0.2.0")));
    assert_eq!(
        update_notice("rust-template", &outcome).as_deref(),
        Some("Update available: 0.1.0 \u{2192} 0.2.0 (run `cargo install rust-template` to update)")
    );
}

#[test]
fn up_to_date_gives_no_notice() {
    let outcome: Result<Option<UpdateInfo>, String> = Ok(None);
    assert_eq!(update_notice("rust-template", &outcome), None);
}

#[test]
fn failed_lookup_gives_no_notice() {
    let outcome: Result<Option<UpdateInfo>, String> = Err("network unreachable".to_string());
    assert_eq!(update_notice("rust-template", &outcome), None);
    let outcome: Result<Option<UpdateInfo>, std::io::Error> =
        Err(std::io::Error::new(std::io::ErrorKind::Other, "cache unreadable"));
    assert_eq!(update_notice("rust-template", &outcome), None);
}

#[test]
fn notice_names_what_it_was_given() {
    let outcome: Result<Option<UpdateInfo>, ()> = Ok(Some(newer("", "")));
    assert_eq!(
        update_notice("", &outcome).as_deref(),
        Some("Update available:  \u{2192}  (run `cargo install ` to update)")
    );
}
