use whatsapp_linux::privacy::{script_for, DISABLE_SCRIPT, ENABLE_SCRIPT, INITIALIZATION_SCRIPT};

#[test]
fn scripts_use_only_fixed_namespaced_values() {
    assert!(INITIALIZATION_SCRIPT.contains("whatsapp-linux-privacy"));
    assert!(ENABLE_SCRIPT.contains("classList.add"));
    assert!(DISABLE_SCRIPT.contains("classList.remove"));
    assert!(!ENABLE_SCRIPT.contains("${"));
    assert!(!DISABLE_SCRIPT.contains("${"));
}

#[test]
fn script_follows_the_setting() {
    assert_eq!(script_for(true), ENABLE_SCRIPT);
    assert_eq!(script_for(false), DISABLE_SCRIPT);
    assert!(INITIALIZATION_SCRIPT.contains("blur(10px)"));
}
