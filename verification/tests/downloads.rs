use appsignal::download::{architecture_of, same_text};
use appsignal::{download_agent_archive, Download};

#[test]
fn known_targets_have_short_names() {
    assert_eq!(architecture_of("x86_64-apple-darwin"), "x86_64-darwin");
    assert_eq!(architecture_of("x86_64-unknown-linux"), "x86_64-linux");
    assert_eq!(architecture_of("i686-unknown-linux"), "i686-linux");
    assert_eq!(architecture_of("x86-unknown-linux"), "i686-linux");
}

#[test]
fn other_targets_keep_their_name() {
    assert_eq!(architecture_of("aarch64-unknown-linux-gnu"), "aarch64-unknown-linux-gnu");
    assert_eq!(architecture_of("x86_64-unknown-linux-gnu"), "x86_64-unknown-linux-gnu");
    assert_eq!(architecture_of(""), "");
}

#[test]
fn archive_is_named_after_the_architecture() {
    assert_eq!(
        download_agent_archive("x86_64-unknown-linux"),
        Download {
            archive_name: "appsignal-agent-x86_64-linux-static.tar.gz".to_owned(),
            url: "https://appsignal-agent-releases.global.ssl.fastly.net/4201306/appsignal-agent-x86_64-linux-static.tar.gz"
                .to_owned(),
        }
    );
}

#[test]
fn archive_of_an_unknown_target_carries_the_target() {
    let download = download_agent_archive("riscv64gc-unknown-linux-gnu");
    assert_eq!(
        download.archive_name,
        "appsignal-agent-riscv64gc-unknown-linux-gnu-static.tar.gz"
    );
    assert_eq!(
        download.url,
        "https://appsignal-agent-releases.global.ssl.fastly.net/4201306/appsignal-agent-riscv64gc-unknown-linux-gnu-static.tar.gz"
    );
}

#[test]
fn url_ends_in_the_archive_name() {
    for target in ["x86_64-apple-darwin", "i686-unknown-linux", "x86-unknown-linux", "other"] {
        let download = download_agent_archive(target);
        assert!(download.url.ends_with(&download.archive_name));
        assert!(download.url.starts_with("https://"));
    }
}

#[test]
fn same_text_compares_character_for_character() {
    assert!(same_text("", ""));
    assert!(same_text("abc", "abc"));
    assert!(same_text("caf\u{e9}", "caf\u{e9}"));
    assert!(!same_text("abc", "abd"));
    assert!(!same_text("abc", "ab"));
    assert!(!same_text("", "a"));
    assert!(!same_text("e\u{301}", "\u{e9}"));
}
