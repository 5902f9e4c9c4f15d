//! The two announcements of a new release: what each of them says.

use crate::views::texts_of;
use vstd::prelude::*;
use vstd::string::*;

verus! {

/// The priority of every push notice.
pub const PUSH_PRIORITY: u8 = 4;

/// The colour of every chat announcement.
pub const WEBHOOK_COLOR: u32 = 16776960;

/// What is known of a release that is to be announced.
#[derive(Debug, PartialEq, Eq)]
pub struct Release {
    /// The snapshot identifier from the manifest.
    pub snapshot: String,
    /// The kind of the version, such as `snapshot` or `release`.
    pub kind: String,
    /// The release timestamp, as the detail document spells it.
    pub release_time: String,
    /// The address of the detail document.
    pub detail_url: String,
    /// How long ago the release was, in words.
    pub elapsed: String,
}

/// A release as contracts speak of it.
pub ghost struct ReleaseView {
    pub snapshot: Seq<char>,
    pub kind: Seq<char>,
    pub release_time: Seq<char>,
    pub detail_url: Seq<char>,
    pub elapsed: Seq<char>,
}

impl View for Release {
    type V = ReleaseView;

    open spec fn view(&self) -> ReleaseView {
        ReleaseView {
            snapshot: self.snapshot@,
            kind: self.kind@,
            release_time: self.release_time@,
            detail_url: self.detail_url@,
            elapsed: self.elapsed@,
        }
    }
}

/// The body of a push notification.
#[derive(Debug, PartialEq, Eq)]
pub struct PushNotice {
    pub topic: String,
    pub message: String,
    pub title: String,
    pub tags: Vec<String>,
    pub priority: u8,
    /// The address that a click on the notification opens.
    pub click: String,
}

/// A push notice as contracts speak of it.
pub ghost struct PushNoticeView {
    pub topic: Seq<char>,
    pub message: Seq<char>,
    pub title: Seq<char>,
    pub tags: Seq<Seq<char>>,
    pub priority: u8,
    pub click: Seq<char>,
}

impl View for PushNotice {
    type V = PushNoticeView;

    open spec fn view(&self) -> PushNoticeView {
        PushNoticeView {
            topic: self.topic@,
            message: self.message@,
            title: self.title@,
            tags: texts_of(self.tags@),
            priority: self.priority,
            click: self.click@,
        }
    }
}

/// The line under a chat announcement.
#[derive(Debug, PartialEq, Eq)]
pub struct Footer {
    pub text: String,
    pub icon_url: String,
}

/// A footer as contracts speak of it.
pub ghost struct FooterView {
    pub text: Seq<char>,
    pub icon_url: Seq<char>,
}

impl View for Footer {
    type V = FooterView;

    open spec fn view(&self) -> FooterView {
        FooterView { text: self.text@, icon_url: self.icon_url@ }
    }
}

/// The one embed that a chat announcement consists of.
#[derive(Debug, PartialEq, Eq)]
pub struct Embed {
    pub title: String,
    /// The release timestamp, unchanged.
    pub timestamp: String,
    pub color: u32,
    pub footer: Footer,
}

/// An embed as contracts speak of it.
pub ghost struct EmbedView {
    pub title: Seq<char>,
    pub timestamp: Seq<char>,
    pub color: u32,
    pub footer: FooterView,
}

impl View for Embed {
    type V = EmbedView;

    open spec fn view(&self) -> EmbedView {
        EmbedView {
            title: self.title@,
            timestamp: self.timestamp@,
            color: self.color,
            footer: self.footer@,
        }
    }
}

/// The tags of every push notice.
pub open spec fn push_tags() -> Seq<Seq<char>> {
    seq!["minecraft"@, "update"@, "snapshot"@]
}

/// The push notice for `release` under `topic`: the message is the kind,
/// the snapshot and the elapsed time with a blank between them, the title is
/// `New Minecraft ` and the kind, and a click leads to the detail document.
pub open spec fn push_notice(topic: Seq<char>, release: ReleaseView) -> PushNoticeView {
    PushNoticeView {
        topic,
        message: release.kind + " "@ + release.snapshot + " "@ + release.elapsed,
        title: "New Minecraft "@ + release.kind,
        tags: push_tags(),
        priority: PUSH_PRIORITY,
        click: release.detail_url,
    }
}

/// The chat announcement for `release`, signed with `name` and `icon`: the
/// title is `New Minecraft `, the kind, `: ` and the snapshot, and the
/// timestamp is the release timestamp as it was read.
pub open spec fn embed(name: Seq<char>, icon: Seq<char>, release: ReleaseView) -> EmbedView {
    EmbedView {
        title: "New Minecraft "@ + release.kind + ": "@ + release.snapshot,
        timestamp: release.release_time,
        color: WEBHOOK_COLOR,
        footer: FooterView { text: name, icon_url: icon },
    }
}

impl PushNotice {
    /// Composes the push notice for `release` under `topic`.
    pub fn compose(topic: &str, release: &Release) -> (notice: PushNotice)
        ensures
            notice@ == push_notice(topic@, release@),
    {
        let mut message = release.kind.clone();
        message.append(" ");
        message.append(release.snapshot.as_str());
        message.append(" ");
        message.append(release.elapsed.as_str());
        let mut title = "New Minecraft ".to_owned();
        title.append(release.kind.as_str());
        let mut tags: Vec<String> = Vec::new();
        tags.push("minecraft".to_owned());
        tags.push("update".to_owned());
        tags.push("snapshot".to_owned());
        assert(texts_of(tags@) =~= push_tags());
        PushNotice {
            topic: topic.to_owned(),
            message,
            title,
            tags,
            priority: PUSH_PRIORITY,
            click: release.detail_url.clone(),
        }
    }
}

impl Embed {
    /// Composes the chat announcement for `release`, signed with `name` and
    /// `icon`.
    pub fn compose(name: &str, icon: &str, release: &Release) -> (message: Embed)
        ensures
            message@ == embed(name@, icon@, release@),
    {
        let mut title = "New Minecraft ".to_owned();
        title.append(release.kind.as_str());
        title.append(": ");
        title.append(release.snapshot.as_str());
        Embed {
            title,
            timestamp: release.release_time.clone(),
            color: WEBHOOK_COLOR,
            footer: Footer { text: name.to_owned(), icon_url: icon.to_owned() },
        }
    }
}

} // verus!
