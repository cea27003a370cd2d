use lang_changer::guard::{arch_based, compatibility_issues, contains_field, Incompatibility};

const ARCH: &str = "NAME=\"Arch Linux\"\nID=arch\nBUILD_ID=rolling\n";
const ENDEAVOUR: &str = "NAME='EndeavourOS'\nID=\"endeavouros\"\nID_LIKE=\"arch\"\n";
const MANJARO: &str = "ID=manjaro\nID_LIKE=\"arch archlinux\"\n";
const UBUNTU: &str = "ID=ubuntu\nID_LIKE=debian\n";
const ARCHLIKE_WORD: &str = "ID=foo\nID_LIKE=\"archlinux\"\n";

#[test]
fn recognises_arch_and_derivatives() {
    assert!(arch_based(ARCH));
    assert!(arch_based(ENDEAVOUR));
    assert!(arch_based(MANJARO));
    assert!(!arch_based(UBUNTU));
    assert!(!arch_based(ARCHLIKE_WORD));
    assert!(arch_based("ID='arch'"));
    assert!(!arch_based(""));
}

#[test]
fn fields() {
    assert!(contains_field("ubuntu:GNOME", "GNOME", ':'));
    assert!(contains_field("KDE", "KDE", ':'));
    assert!(!contains_field("XFCE", "KDE", ':'));
    assert!(!contains_field("GNOME-Flashback", "GNOME", ':'));
    assert!(contains_field("a b arch", "arch", ' '));
    assert!(!contains_field("archer", "arch", ' '));
}

#[test]
fn xfce_on_arch_with_x11_passes() {
    assert!(compatibility_issues(Some("x11"), Some(ARCH), Some("XFCE")).is_empty());
    assert!(compatibility_issues(None, Some(ENDEAVOUR), None).is_empty());
}

#[test]
fn reports_each_problem_in_order() {
    assert_eq!(
        compatibility_issues(Some("wayland"), Some(UBUNTU), Some("ubuntu:GNOME")),
        vec![
            Incompatibility::WaylandSession,
            Incompatibility::NotArchBased,
            Incompatibility::UnsupportedDesktop
        ]
    );
    assert_eq!(
        compatibility_issues(Some("x11"), None, Some("Deepin")),
        vec![Incompatibility::NotArchBased, Incompatibility::UnsupportedDesktop]
    );
    assert_eq!(
        compatibility_issues(Some("wayland"), Some(ARCH), Some("KDE")),
        vec![Incompatibility::WaylandSession, Incompatibility::UnsupportedDesktop]
    );
}
