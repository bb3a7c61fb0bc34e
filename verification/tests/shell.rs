use regx::shell::{
    find_ascii_case_insensitive, find_shell_token, folder_path, mentions_shell,
    replace_ascii_case_insensitive, resolve_path, resolve_text, wide_to_string, Folders,
    KnownFolder,
};

fn folders() -> Folders {
    Folders {
        startup: Ok("C:\\Start".to_string()),
        desktop: Ok("C:\\Desk".to_string()),
        programs: Err("no programs".to_string()),
    }
}

#[test]
fn replacement_is_case_insensitive_and_replaces_every_occurrence() {
    assert_eq!(
        replace_ascii_case_insensitive(
            r"shell:startup\\A;SHELL:STARTUP\\B",
            "shell:Startup",
            r"C:\\Startup"
        ),
        r"C:\\Startup\\A;C:\\Startup\\B"
    );
}

#[test]
fn unknown_shell_token_fails_closed() {
    let error = resolve_text(r"shell:NotARealFolder\\x", &folders()).unwrap_err();
    assert!(error.contains("unsupported Windows Shell Known Folder"));
}

#[test]
fn every_known_folder_is_resolved() {
    assert_eq!(
        resolve_text("SHELL:startup\\a;shell:Desktop\\b", &folders()),
        Ok("C:\\Start\\a;C:\\Desk\\b".to_string())
    );
    assert_eq!(
        resolve_path("shell:Desktop\\App.lnk", &folders()),
        Ok("C:\\Desk\\App.lnk".to_string())
    );
    assert!(resolve_text("shell:Programs\\x", &folders()).is_err());
}

#[test]
fn text_without_tokens_is_untouched() {
    assert_eq!(
        resolve_text("C:\\plain\\text", &folders()),
        Ok("C:\\plain\\text".to_string())
    );
    assert!(!mentions_shell("C:\\plain"));
    assert!(mentions_shell("x SHELL:y"));
}

#[test]
fn tokens_are_found_in_any_case() {
    let s: Vec<char> = "ab SHELL:x".chars().collect();
    let n: Vec<char> = "shell:".chars().collect();
    assert_eq!(find_ascii_case_insensitive(&s, &n), Some(3));
    assert_eq!(find_ascii_case_insensitive(&n, &s), None);
    let t: Vec<char> = "shell:Foo\\bar".chars().collect();
    assert_eq!(find_shell_token(&t).as_deref(), Some("shell:Foo"));
}

#[test]
fn folder_paths_come_from_either_call() {
    let wide: Vec<u16> = "C:\\Desk".encode_utf16().chain([0]).collect();
    assert_eq!(
        folder_path(KnownFolder::Desktop, 0, Some(wide.clone()), -1, &[]),
        Ok("C:\\Desk".to_string())
    );
    assert_eq!(
        folder_path(KnownFolder::Desktop, -1, None, 0, &wide),
        Ok("C:\\Desk".to_string())
    );
    assert!(folder_path(KnownFolder::Desktop, -1, None, -1, &wide).is_err());
}

#[test]
fn malformed_wide_text_is_an_error() {
    assert!(wide_to_string(&[0xd800, 0]).is_err());
    assert!(wide_to_string(&[0x41, 0x42]).is_err());
    assert_eq!(wide_to_string(&[0x41, 0x42, 0, 0x43]), Ok("AB".to_string()));
}
