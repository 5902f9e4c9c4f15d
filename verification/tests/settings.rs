use mc_update_watcher::settings::{
    Settings, SettingsError, ICON_URL, INTERVAL_SECONDS, MANIFEST_URL, MARKER_FILE, PUSH_TOPIC,
    PUSH_URL, WEBHOOK_NAME,
};

#[test]
fn settings_need_a_webhook_address() {
    assert_eq!(Settings::new(None, None), Err(SettingsError::WebhookUrlMissing));
    assert_eq!(
        Settings::new(None, Some("https://hc.example/ping".to_string())),
        Err(SettingsError::WebhookUrlMissing)
    );
}

#[test]
fn settings_without_a_liveness_address() {
    let settings = Settings::new(Some("https://chat.example/hook".to_string()), None).unwrap();
    assert_eq!(
        settings,
        Settings {
            manifest_url: "https://piston-meta.mojang.com/mc/game/version_manifest_v2.json"
                .to_string(),
            push_url: "https://ntfy.sh/".to_string(),
            push_topic: "mcupdate".to_string(),
            push_icon:
                "https://resources.download.minecraft.net/df/df274fe57c49ef1af6d218703d805db76a5c8af9"
                    .to_string(),
            webhook_url: "https://chat.example/hook".to_string(),
            webhook_name: "Minecraft Update".to_string(),
            webhook_icon:
                "https://resources.download.minecraft.net/df/df274fe57c49ef1af6d218703d805db76a5c8af9"
                    .to_string(),
            liveness_url: None,
            marker_file: "prev_mc_snapshot.txt".to_string(),
            interval_seconds: 180,
        }
    );
}

#[test]
fn settings_with_a_liveness_address() {
    let settings = Settings::new(
        Some("https://chat.example/hook".to_string()),
        Some("https://hc.example/ping".to_string()),
    )
    .unwrap();
    assert_eq!(settings.webhook_url, "https://chat.example/hook");
    assert_eq!(settings.liveness_url, Some("https://hc.example/ping".to_string()));
}

#[test]
fn the_fixed_values() {
    assert_eq!(MANIFEST_URL, "https://piston-meta.mojang.com/mc/game/version_manifest_v2.json");
    assert_eq!(
        ICON_URL,
        "https://resources.download.minecraft.net/df/df274fe57c49ef1af6d218703d805db76a5c8af9"
    );
    assert_eq!(PUSH_URL, "https://ntfy.sh/");
    assert_eq!(PUSH_TOPIC, "mcupdate");
    assert_eq!(WEBHOOK_NAME, "Minecraft Update");
    assert_eq!(MARKER_FILE, "prev_mc_snapshot.txt");
    assert_eq!(INTERVAL_SECONDS, 3 * 60);
}
