//! The vocabulary in which the watcher and its surroundings talk: the watcher
//! names an [`Action`], the surroundings perform it and answer with an
//! [`Event`], and between the two the watcher remembers a [`Stage`].

use crate::notice::{Embed, EmbedView, PushNotice, PushNoticeView, Release, ReleaseView};
use crate::views::text_of;
use vstd::prelude::*;

verus! {

/// Why the watcher gives up for good.
#[derive(Clone, Copy, Debug, PartialEq, Eq, Structural)]
pub enum Failure {
    /// The liveness ping could not be delivered.
    PingFailed,
    /// The manifest holds no string at `latest.snapshot`.
    SnapshotMissing,
    /// A marker is stored but could not be read.
    MarkerUnreadable,
    /// The manifest holds no string at `versions[0].url`.
    DetailUrlMissing,
    /// The detail document could not be fetched or is not JSON.
    DetailUnavailable,
    /// The detail document holds no string at `releaseTime`.
    ReleaseTimeMissing,
    /// The detail document holds no string at `type`.
    KindMissing,
    /// The release timestamp is not an RFC 3339 date and time.
    ReleaseTimeInvalid,
    /// The push notice could not be delivered.
    PushFailed,
    /// The chat announcement could not be delivered.
    WebhookFailed,
    /// The marker could not be stored.
    MarkerNotSaved,
    /// An event arrived that does not answer the last action.
    OutOfTurn,
}

/// How a cycle that ran to its end went.
#[derive(Debug, PartialEq, Eq)]
pub enum Outcome {
    /// The manifest could not be fetched or is not JSON; nothing was done.
    ManifestUnavailable,
    /// The latest snapshot is the one that the marker names.
    Unchanged { snapshot: String },
    /// The snapshot was announced twice over, and the marker names it now.
    Announced { snapshot: String },
}

/// An outcome as contracts speak of it.
pub ghost enum OutcomeView {
    ManifestUnavailable,
    Unchanged { snapshot: Seq<char> },
    Announced { snapshot: Seq<char> },
}

impl View for Outcome {
    type V = OutcomeView;

    open spec fn view(&self) -> OutcomeView {
        match *self {
            Outcome::ManifestUnavailable => OutcomeView::ManifestUnavailable,
            Outcome::Unchanged { snapshot } => OutcomeView::Unchanged { snapshot: snapshot@ },
            Outcome::Announced { snapshot } => OutcomeView::Announced { snapshot: snapshot@ },
        }
    }
}

/// What the watcher asks its surroundings to do next.
#[derive(Debug, PartialEq, Eq)]
pub enum Action {
    /// Send a GET request to the liveness address.
    Ping { url: String },
    /// Fetch the manifest with a GET request.
    FetchManifest { url: String },
    /// Read the stored marker.
    ReadMarker,
    /// Fetch the detail document with a GET request, and read the clock.
    FetchDetail { url: String },
    /// Post the push notice, with `icon` in the request's icon header.
    Push { url: String, icon: String, notice: PushNotice },
    /// Post the chat announcement.
    PostWebhook { url: String, embed: Embed },
    /// Store `snapshot` as the marker, in place of any earlier one.
    SaveMarker { snapshot: String },
    /// The cycle is over: pause, then wake the watcher again.
    Rest { outcome: Outcome },
    /// The watcher has given up: end the process.
    Halt { failure: Failure },
}

/// An action as contracts speak of it.
pub ghost enum ActionView {
    Ping { url: Seq<char> },
    FetchManifest { url: Seq<char> },
    ReadMarker,
    FetchDetail { url: Seq<char> },
    Push { url: Seq<char>, icon: Seq<char>, notice: PushNoticeView },
    PostWebhook { url: Seq<char>, embed: EmbedView },
    SaveMarker { snapshot: Seq<char> },
    Rest { outcome: OutcomeView },
    Halt { failure: Failure },
}

impl View for Action {
    type V = ActionView;

    open spec fn view(&self) -> ActionView {
        match *self {
            Action::Ping { url } => ActionView::Ping { url: url@ },
            Action::FetchManifest { url } => ActionView::FetchManifest { url: url@ },
            Action::ReadMarker => ActionView::ReadMarker,
            Action::FetchDetail { url } => ActionView::FetchDetail { url: url@ },
            Action::Push { url, icon, notice } => ActionView::Push {
                url: url@,
                icon: icon@,
                notice: notice@,
            },
            Action::PostWebhook { url, embed } => ActionView::PostWebhook {
                url: url@,
                embed: embed@,
            },
            Action::SaveMarker { snapshot } => ActionView::SaveMarker { snapshot: snapshot@ },
            Action::Rest { outcome } => ActionView::Rest { outcome: outcome@ },
            Action::Halt { failure } => ActionView::Halt { failure },
        }
    }
}

/// With what the surroundings answer an action.
#[derive(Debug, PartialEq, Eq)]
pub enum Event {
    /// The pause is over, or the process has just started.
    Woken,
    /// The liveness ping was sent; `delivered` says whether a response came.
    Pinged { delivered: bool },
    /// The manifest was asked for; `body` is the response's text, or `None`
    /// where the request or the reading of its body failed.
    ManifestFetched { body: Option<String> },
    /// The marker was looked up; `marker` is `None` where none is stored.
    MarkerRead { marker: Option<String> },
    /// A marker is stored, but reading it failed.
    MarkerUnreadable,
    /// The detail document was asked for; `body` is as for the manifest, and
    /// `now` is the clock's time in Unix seconds.
    DetailFetched { body: Option<String>, now: i64 },
    /// The push notice was posted; `delivered` says whether a response came,
    /// whatever its status.
    PushSent { delivered: bool },
    /// The chat announcement was posted; `delivered` is as for the push.
    WebhookSent { delivered: bool },
    /// The marker was written; `stored` says whether the write succeeded.
    MarkerSaved { stored: bool },
}

/// An event as contracts speak of it.
pub ghost enum EventView {
    Woken,
    Pinged { delivered: bool },
    ManifestFetched { body: Option<Seq<char>> },
    MarkerRead { marker: Option<Seq<char>> },
    MarkerUnreadable,
    DetailFetched { body: Option<Seq<char>>, now: i64 },
    PushSent { delivered: bool },
    WebhookSent { delivered: bool },
    MarkerSaved { stored: bool },
}

impl View for Event {
    type V = EventView;

    open spec fn view(&self) -> EventView {
        match *self {
            Event::Woken => EventView::Woken,
            Event::Pinged { delivered } => EventView::Pinged { delivered },
            Event::ManifestFetched { body } => EventView::ManifestFetched { body: text_of(body) },
            Event::MarkerRead { marker } => EventView::MarkerRead { marker: text_of(marker) },
            Event::MarkerUnreadable => EventView::MarkerUnreadable,
            Event::DetailFetched { body, now } => EventView::DetailFetched {
                body: text_of(body),
                now,
            },
            Event::PushSent { delivered } => EventView::PushSent { delivered },
            Event::WebhookSent { delivered } => EventView::WebhookSent { delivered },
            Event::MarkerSaved { stored } => EventView::MarkerSaved { stored },
        }
    }
}

/// What the watcher remembers between an action and the event that answers
/// it.
#[derive(Debug, PartialEq, Eq)]
pub enum Stage {
    /// No cycle is under way.
    Idle,
    /// The liveness ping is out.
    Pinging,
    /// The manifest is being fetched.
    FetchingManifest,
    /// The manifest names `snapshot`; the marker is being read.
    ReadingMarker { snapshot: String, detail_url: Option<String> },
    /// `snapshot` is new; its detail document is being fetched.
    FetchingDetail { snapshot: String, url: String },
    /// The push notice for `release` is out.
    Pushing { release: Release },
    /// The chat announcement for `snapshot` is out.
    Posting { snapshot: String },
    /// `snapshot` is being stored as the marker.
    Saving { snapshot: String },
    /// The watcher has given up.
    Halted,
}

/// A stage as contracts speak of it.
pub ghost enum StageView {
    Idle,
    Pinging,
    FetchingManifest,
    ReadingMarker { snapshot: Seq<char>, detail_url: Option<Seq<char>> },
    FetchingDetail { snapshot: Seq<char>, url: Seq<char> },
    Pushing { release: ReleaseView },
    Posting { snapshot: Seq<char> },
    Saving { snapshot: Seq<char> },
    Halted,
}

impl View for Stage {
    type V = StageView;

    open spec fn view(&self) -> StageView {
        match *self {
            Stage::Idle => StageView::Idle,
            Stage::Pinging => StageView::Pinging,
            Stage::FetchingManifest => StageView::FetchingManifest,
            Stage::ReadingMarker { snapshot, detail_url } => StageView::ReadingMarker {
                snapshot: snapshot@,
                detail_url: text_of(detail_url),
            },
            Stage::FetchingDetail { snapshot, url } => StageView::FetchingDetail {
                snapshot: snapshot@,
                url: url@,
            },
            Stage::Pushing { release } => StageView::Pushing { release: release@ },
            Stage::Posting { snapshot } => StageView::Posting { snapshot: snapshot@ },
            Stage::Saving { snapshot } => StageView::Saving { snapshot: snapshot@ },
            Stage::Halted => StageView::Halted,
        }
    }
}

/// A stage and the action that goes with it, as contracts speak of them.
pub open spec fn turn_view(turn: (Stage, Action)) -> (StageView, ActionView) {
    (turn.0@, turn.1@)
}

} // verus!
