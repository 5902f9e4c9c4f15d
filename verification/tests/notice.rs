use mc_update_watcher::notice::{
    Embed, Footer, PushNotice, Release, PUSH_PRIORITY, WEBHOOK_COLOR,
};

fn release() -> Release {
    Release {
        snapshot: "24w14a".to_string(),
        kind: "snapshot".to_string(),
        release_time: "2024-04-03T12:00:00+00:00".to_string(),
        detail_url: "https://example.org/24w14a.json".to_string(),
        elapsed: "2 hours ago".to_string(),
    }
}

#[test]
fn the_push_notice_of_a_release() {
    assert_eq!(
        PushNotice::compose("mcupdate", &release()),
        PushNotice {
            topic: "mcupdate".to_string(),
            message: "snapshot 24w14a 2 hours ago".to_string(),
            title: "New Minecraft snapshot".to_string(),
            tags: vec!["minecraft".to_string(), "update".to_string(), "snapshot".to_string()],
            priority: 4,
            click: "https://example.org/24w14a.json".to_string(),
        }
    );
}

#[test]
fn the_tags_do_not_follow_the_kind() {
    let mut full = release();
    full.kind = "release".to_string();
    full.snapshot = "1.21".to_string();
    full.elapsed = "1 hour ago".to_string();
    let notice = PushNotice::compose("other", &full);
    assert_eq!(notice.topic, "other");
    assert_eq!(notice.message, "release 1.21 1 hour ago");
    assert_eq!(notice.title, "New Minecraft release");
    assert_eq!(notice.tags, vec!["minecraft", "update", "snapshot"]);
}

#[test]
fn the_chat_announcement_of_a_release() {
    assert_eq!(
        Embed::compose("Minecraft Update", "https://example.org/icon", &release()),
        Embed {
            title: "New Minecraft snapshot: 24w14a".to_string(),
            timestamp: "2024-04-03T12:00:00+00:00".to_string(),
            color: 16776960,
            footer: Footer {
                text: "Minecraft Update".to_string(),
                icon_url: "https://example.org/icon".to_string(),
            },
        }
    );
}

#[test]
fn empty_texts_are_kept() {
    let bare = Release {
        snapshot: String::new(),
        kind: String::new(),
        release_time: String::new(),
        detail_url: String::new(),
        elapsed: String::new(),
    };
    let notice = PushNotice::compose("", &bare);
    assert_eq!(notice.message, "  ");
    assert_eq!(notice.title, "New Minecraft ");
    assert_eq!(notice.click, "");
    let embed = Embed::compose("", "", &bare);
    assert_eq!(embed.title, "New Minecraft : ");
    assert_eq!(embed.timestamp, "");
    assert_eq!(embed.footer, Footer { text: String::new(), icon_url: String::new() });
}

#[test]
fn the_fixed_priority_and_colour() {
    assert_eq!(PUSH_PRIORITY, 4);
    assert_eq!(WEBHOOK_COLOR, 0xFFFF00);
}
