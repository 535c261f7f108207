use hocket_genet::IdentityHome;

#[test]
fn every_home_says_which_situation_the_user_is_in() {
    let family = IdentityHome::Family {
        profile: "work".into(),
        protection: "DPAPI-wrapped root".into(),
    };
    assert!(family.summary().contains("work"));
    assert!(family.summary().contains("DPAPI"));

    let apart = IdentityHome::Apart { family_profile: "work".into() };
    assert!(
        apart.summary().contains("contact token"),
        "the cost of switching is the point: {}",
        apart.summary()
    );

    let local = IdentityHome::Local { reason: "no vault".into() };
    assert!(local.summary().contains("no vault"));
}

#[test]
fn every_home_is_told_in_full() {
    assert_eq!(
        IdentityHome::Family { profile: "work".into(), protection: "a passphrase".into() }
            .summary(),
        "Persona work, shared across your Merely apps. Held by a passphrase."
    );
    assert_eq!(
        IdentityHome::Apart { family_profile: "work".into() }.summary(),
        "Hocket's own identity. Your persona work is a different key, and moving to it would \
         change the contact token you have already shared."
    );
    assert_eq!(
        IdentityHome::Local { reason: "no vault".into() }.summary(),
        "Hocket's own identity, on this machine only (no vault)."
    );
}

#[test]
fn homes_of_different_kinds_do_not_read_alike() {
    let family = IdentityHome::Family { profile: String::new(), protection: String::new() };
    let apart = IdentityHome::Apart { family_profile: String::new() };
    let local = IdentityHome::Local { reason: String::new() };
    assert_ne!(family.summary(), apart.summary());
    assert_ne!(apart.summary(), local.summary());
    assert_ne!(local.summary(), family.summary());
    assert_eq!(local.clone(), local);
}
