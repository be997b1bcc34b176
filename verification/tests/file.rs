use ultidesk::file::{creation_mode, over_permissive_note, Visibility};

#[test]
fn a_private_file_is_created_unreadable_by_anyone_else() {
    assert_eq!(creation_mode(Visibility::Private), 0o600);
    assert_eq!(creation_mode(Visibility::Normal), 0o644);
    assert_eq!(over_permissive_note("/k/identity.json", 0o600), None);
    assert!(over_permissive_note("/k/identity.json", 0o644).is_some(), "644 should be reported");
}

#[test]
fn the_note_names_the_file_its_mode_and_the_fix() {
    assert_eq!(
        over_permissive_note("/home/n/.config/ultidesk/identity.json", 0o100644),
        Some(
            "/home/n/.config/ultidesk/identity.json is mode 644; it holds a private key and should be 600 \
             (chmod 600 /home/n/.config/ultidesk/identity.json)"
                .to_string()
        )
    );
}

#[test]
fn owner_only_bits_are_never_reported() {
    for mode in [0o400, 0o600, 0o700, 0o100600, 0o4700] {
        assert_eq!(over_permissive_note("k", mode), None, "{mode:o}");
    }
    assert!(over_permissive_note("k", 0o604).is_some());
    assert!(over_permissive_note("k", 0o640).is_some());
}
