use restop::apps::{app_from_desktop_entry, App, DesktopError};

#[test]
fn app_runs_while_it_has_processes() {
    let mut a = App::new("org.example.Editor".to_string(), "Editor".to_string(), None, Some("editor %u".to_string()), Some("editor".to_string()));
    assert!(!a.is_running());
    a.add_process(42);
    a.add_process(7);
    a.add_process(42);
    assert!(a.is_running());
    a.remove_process(42);
    assert!(a.is_running());
    a.remove_process(7);
    assert!(!a.is_running());
    assert_eq!(a.display_name, "Editor");
}

fn entry(kv: &[(&str, &str)]) -> Vec<(String, String)> {
    kv.iter().map(|(k, v)| (k.to_string(), v.to_string())).collect()
}

fn locales(v: &[&str]) -> Vec<String> {
    v.iter().map(|s| s.to_string()).collect()
}

#[test]
fn desktop_entry_with_localized_name() {
    let e = entry(&[
        ("Name", "Text Editor"),
        ("Name[de]", "Texteditor"),
        ("Comment", "Edit text files"),
        ("Exec", "/usr/bin/gnome-text-editor %U"),
    ]);
    let a = app_from_desktop_entry(&e, Some("org.gnome.TextEditor".to_string()), &locales(&["de_DE", "de"])).unwrap();
    assert_eq!(a.id, "org.gnome.TextEditor");
    assert_eq!(a.display_name, "Texteditor");
    assert_eq!(a.description.as_deref(), Some("Edit text files"));
    assert_eq!(a.commandline.as_deref(), Some("/usr/bin/gnome-text-editor %U"));
    assert_eq!(a.executable_name.as_deref(), Some("gnome-text-editor"));
    assert!(!a.is_running());
}

#[test]
fn desktop_entry_flatpak_and_env() {
    let e = entry(&[
        ("X-Flatpak", "org.inkscape.Inkscape"),
        ("Exec", "/usr/bin/flatpak run --branch=stable --arch=x86_64 --command=inkscape org.inkscape.Inkscape %U"),
    ]);
    let a = app_from_desktop_entry(&e, None, &locales(&[])).unwrap();
    assert_eq!(a.id, "org.inkscape.Inkscape");
    assert_eq!(a.executable_name.as_deref(), Some("inkscape"));
    assert_eq!(a.display_name, "org.inkscape.Inkscape");
    let e = entry(&[("Name", "Tool"), ("Exec", "env GDK_BACKEND=x11 /opt/tool/bin/tool --flag")]);
    let a = app_from_desktop_entry(&e, Some("tool".to_string()), &locales(&[])).unwrap();
    assert_eq!(a.commandline.as_deref(), Some("/opt/tool/bin/tool --flag"));
    assert_eq!(a.executable_name.as_deref(), Some("tool"));
}

#[test]
fn desktop_entry_refusals() {
    assert_eq!(app_from_desktop_entry(&entry(&[("Name", "X")]), None, &locales(&[])).err(), Some(DesktopError::NoId));
    assert_eq!(
        app_from_desktop_entry(&entry(&[]), Some("org.gnome.Terminal.Preferences".to_string()), &locales(&[])).err(),
        Some(DesktopError::BlockedId)
    );
    assert_eq!(
        app_from_desktop_entry(&entry(&[("Exec", "/bin/bash -c foo")]), Some("shell".to_string()), &locales(&[])).err(),
        Some(DesktopError::BlockedExecutable)
    );
}
