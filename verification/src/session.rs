//! The widget itself: what it knows of the player, and how it reacts to
//! wake-ups, bus replies and clicks.
//!
//! An update is a short exchange. [`Music::update`] looks at the clock; where
//! the marquee moved, the update is over, and the bus is left alone. Else it
//! asks for the player's metadata, and [`Music::metadata_reply`] takes the
//! answer. Where a play button is configured, the playback status is asked
//! for next, and [`Music::playback_reply`] takes that answer. Each step says
//! what is to be read next, or after which delay the widget wants to be
//! woken again.

use vstd::prelude::*;
use vstd::string::*;
use crate::bus::{call, spec_call, Method, MethodCall, Property};
use crate::config::{all_known, asks_for, first_unknown, kind_at, MusicConfig};
use crate::decoder::{decoded, title_and_artist};
use crate::error::{MusicError, MusicErrorView};
use crate::ident::{fresh_id, is_fresh_id};
use crate::rotation::{millis, RotatingText, RotationView, POLL_MS};
use crate::value::Value;
use crate::widget::{
    button_elements,
    element_views,
    Button,
    ButtonKind,
    Element,
    ElementView,
    Icon,
};

verus! {

/// How long a new text rests before it starts to scroll, in milliseconds.
pub const HOLD_MS: u64 = 10000;

/// How long a scrolling text rests between two movements, in milliseconds.
pub const STEP_MS: u64 = 500;

/// What an update does next.
#[derive(Clone, Copy, Debug, PartialEq, Eq, Structural)]
pub enum Step {
    /// The property is to be read from the player, and the answer handed in.
    Read(Property),
    /// The update is over. The widget is to be woken after the delay, in
    /// milliseconds, or with no delay given only when the player signals a
    /// change.
    Done(Option<u64>),
}

/// Title and artist as they are displayed.
pub open spec fn joined(title: Seq<char>, artist: Seq<char>) -> Seq<char> {
    title + " | "@ + artist
}

/// The text that a player's metadata puts on display. Metadata that is no
/// dictionary gives an empty title and an empty artist.
pub open spec fn text_of_metadata(metadata: Value) -> Seq<char> {
    match decoded(metadata) {
        Ok(found) => joined(found.0, found.1),
        Err(_) => joined(Seq::empty(), Seq::empty()),
    }
}

/// The picture of the play button for a playback status: the offer to pause
/// while the player reports `Playing`, the offer to play otherwise, also
/// where the status could not be read.
pub open spec fn status_icon(reply: Option<Value>) -> Icon {
    match reply {
        Some(status) => if status.spec_text() == Some("Playing"@) {
            Icon::Pause
        } else {
            Icon::Play
        },
        None => Icon::Play,
    }
}

/// The button of the given kind if `buttons` asks for it.
pub open spec fn configured(buttons: Seq<String>, kind: ButtonKind) -> Option<Button> {
    if asks_for(buttons, kind) {
        Some(Button::spec_new(kind))
    } else {
        None
    }
}

/// The mathematical state of a [`Music`] widget.
pub ghost struct MusicView {
    /// The identifier under which the host knows the widget.
    pub id: Seq<char>,
    /// The player's name.
    pub player: Seq<char>,
    /// The text and its window.
    pub song: RotationView,
    /// Whether the player answered when it was last asked.
    pub available: bool,
    /// The three controls, each present or absent.
    pub prev: Option<Button>,
    pub play: Option<Button>,
    pub next: Option<Button>,
}

impl MusicView {
    /// The state of a widget that has just been created.
    pub open spec fn initial(
        id: Seq<char>,
        player: Seq<char>,
        max_width: nat,
        marquee: bool,
        buttons: Seq<String>,
    ) -> MusicView {
        MusicView {
            id,
            player,
            song: RotationView {
                text: Seq::empty(),
                max_width,
                marquee,
                hold: HOLD_MS as nat,
                step: STEP_MS as nat,
                offset: 0,
                since: 0,
                advancing: false,
            },
            available: false,
            prev: configured(buttons, ButtonKind::Prev),
            play: configured(buttons, ButtonKind::Play),
            next: configured(buttons, ButtonKind::Next),
        }
    }

    /// What holds of a widget at all times: while the player does not answer,
    /// there is no text.
    pub open spec fn wf(self) -> bool {
        !self.available ==> self.song.text.len() == 0
    }

    /// The state after a wake-up at `now`.
    pub open spec fn after_wake(self, now: nat) -> MusicView {
        MusicView { song: self.song.tick(now), ..self }
    }

    /// The state after the player's metadata has been asked for at `now`:
    /// `reply` is the answer, or nothing where the player gave none.
    pub open spec fn after_metadata(self, reply: Option<Value>, now: nat) -> MusicView {
        match reply {
            Some(metadata) => MusicView {
                song: self.song.with_text(text_of_metadata(metadata), now),
                available: true,
                ..self
            },
            None => MusicView {
                song: self.song.with_text(Seq::empty(), now),
                available: false,
                ..self
            },
        }
    }

    /// The state after the player's playback status has been asked for.
    pub open spec fn after_playback(self, reply: Option<Value>) -> MusicView {
        match self.play {
            Some(button) => MusicView {
                play: Some(Button { icon: status_icon(reply), ..button }),
                ..self
            },
            None => self,
        }
    }

    /// The delay after which the widget wants to be woken when an update ends
    /// without a movement of the text.
    pub open spec fn wake_delay(self) -> Option<nat> {
        if self.song.rotates() {
            Some(POLL_MS as nat)
        } else {
            None
        }
    }

    /// The text element.
    pub open spec fn text_element(self) -> ElementView {
        ElementView::Text { content: self.song.window(), icon: Icon::Music }
    }

    /// The elements on display: the text, and behind it, while the player
    /// answers, the configured controls.
    pub open spec fn rendered(self) -> Seq<ElementView> {
        if self.available {
            seq![self.text_element()] + button_elements(self.prev) + button_elements(self.play)
                + button_elements(self.next)
        } else {
            seq![self.text_element()]
        }
    }
}

/// A widget that has just been created shows no text and no controls.
pub proof fn lemma_initial_state(
    id: Seq<char>,
    player: Seq<char>,
    max_width: nat,
    marquee: bool,
    buttons: Seq<String>,
)
    ensures
        MusicView::initial(id, player, max_width, marquee, buttons).wf(),
        MusicView::initial(id, player, max_width, marquee, buttons).rendered() == seq![
            ElementView::Text { content: Seq::empty(), icon: Icon::Music },
        ],
{
}

/// Every step of an update keeps what holds of a widget at all times: while
/// the player does not answer, there is no text, and the display is the empty
/// text element alone.
pub proof fn lemma_steps_keep_wf(m: MusicView, reply: Option<Value>, now: nat)
    requires
        m.wf(),
    ensures
        m.after_wake(now).wf(),
        m.after_metadata(reply, now).wf(),
        m.after_playback(reply).wf(),
        !m.available ==> m.rendered() == seq![
            ElementView::Text { content: Seq::empty(), icon: Icon::Music },
        ],
{
    if !m.available {
        assert(m.song.text =~= Seq::<char>::empty());
    }
}

/// When the player does not answer the question for its metadata, it counts
/// as unavailable, and the display is the empty text element alone, whatever
/// controls are configured and whatever the question for the playback status
/// brings.
pub proof fn lemma_unanswered_query_hides_controls(m: MusicView, now: nat, status: Option<Value>)
    ensures
        !m.after_metadata(None, now).available,
        m.after_metadata(None, now).song.text == Seq::<char>::empty(),
        m.after_metadata(None, now).rendered() == seq![
            ElementView::Text { content: Seq::empty(), icon: Icon::Music },
        ],
        m.after_metadata(None, now).after_playback(status).rendered() == seq![
            ElementView::Text { content: Seq::empty(), icon: Icon::Music },
        ],
{
}

/// When the player answers the question for its metadata, it counts as
/// available, the text is title and artist, and the display is the text
/// element followed by the configured ones of `prev`, `play` and `next`, in
/// this order. The answer to the question for the playback status then
/// decides the picture of the play button, and nothing else.
pub proof fn lemma_answered_query_shows_controls(
    m: MusicView,
    metadata: Value,
    now: nat,
    status: Option<Value>,
)
    ensures
        m.after_metadata(Some(metadata), now).available,
        m.after_metadata(Some(metadata), now).song.text == text_of_metadata(metadata),
        m.after_metadata(Some(metadata), now).rendered() == seq![
            m.after_metadata(Some(metadata), now).text_element(),
        ] + button_elements(m.prev) + button_elements(m.play) + button_elements(m.next),
        m.after_metadata(Some(metadata), now).rendered().len() == 1 + (if m.prev is Some {
            1int
        } else {
            0int
        }) + (if m.play is Some {
            1int
        } else {
            0int
        }) + (if m.next is Some {
            1int
        } else {
            0int
        }),
        m.after_metadata(Some(metadata), now).after_playback(status).rendered() == seq![
            m.after_metadata(Some(metadata), now).text_element(),
        ] + button_elements(m.prev) + button_elements(
            match m.play {
                Some(button) => Some(Button { icon: status_icon(status), ..button }),
                None => None,
            },
        ) + button_elements(m.next),
{
}


/// The widget.
pub struct Music {
    id: String,
    current_song: RotatingText,
    prev: Option<Button>,
    play: Option<Button>,
    next: Option<Button>,
    player_avail: bool,
    player: String,
}

impl Music {
    /// The widget's state.
    pub closed spec fn model(&self) -> MusicView {
        MusicView {
            id: self.id@,
            player: self.player@,
            song: self.current_song@,
            available: self.player_avail,
            prev: self.prev,
            play: self.play,
            next: self.next,
        }
    }

    /// Creates the widget under the identifier `id`.
    ///
    /// Fails on the first entry of `config.buttons` that names no control.
    pub fn with_id(config: MusicConfig, id: String) -> (r: Result<Music, MusicError>)
        ensures
            match r {
                Ok(music) => all_known(config.buttons@) && music.model() == MusicView::initial(
                    id@,
                    config.player@,
                    config.max_width as nat,
                    config.marquee,
                    config.buttons@,
                ),
                Err(e) => exists|i: int| #[trigger]
                    first_unknown(config.buttons@, i) && e@ == MusicErrorView::UnknownButton(
                        config.buttons@[i]@,
                    ),
            },
    {
        let mut prev: Option<Button> = None;
        let mut play: Option<Button> = None;
        let mut next: Option<Button> = None;
        let mut i: usize = 0;
        while i < config.buttons.len()
            invariant
                i <= config.buttons.len(),
                forall|j: int| 0 <= j < i ==> kind_at(config.buttons@, j) is Some,
                prev == configured(config.buttons@.take(i as int), ButtonKind::Prev),
                play == configured(config.buttons@.take(i as int), ButtonKind::Play),
                next == configured(config.buttons@.take(i as int), ButtonKind::Next),
            decreases config.buttons.len() - i,
        {
            let ghost before = config.buttons@.take(i as int);
            let ghost after = config.buttons@.take(i + 1);
            proof {
                assert forall|j: int| 0 <= j < i implies kind_at(after, j) == kind_at(
                    before,
                    j,
                ) by {}
                assert(kind_at(after, i as int) == kind_at(config.buttons@, i as int));
                assert forall|kind: ButtonKind| asks_for(after, kind) == (asks_for(before, kind)
                    || kind_at(config.buttons@, i as int) == Some(kind)) by {
                    if asks_for(before, kind) {
                        let j = choose|j: int|
                            0 <= j < before.len() && kind_at(before, j) == Some(kind);
                        assert(kind_at(after, j) == Some(kind));
                    }
                    if kind_at(config.buttons@, i as int) == Some(kind) {
                        assert(kind_at(after, i as int) == Some(kind));
                    }
                }
            }
            match ButtonKind::parse(config.buttons[i].as_str()) {
                Some(kind) => {
                    let button = Some(Button::new(kind));
                    match kind {
                        ButtonKind::Prev => {
                            prev = button;
                        },
                        ButtonKind::Play => {
                            play = button;
                        },
                        ButtonKind::Next => {
                            next = button;
                        },
                    }
                },
                None => {
                    proof {
                        assert(first_unknown(config.buttons@, i as int));
                    }
                    return Err(MusicError::UnknownButton(config.buttons[i].clone()));
                },
            }
            i = i + 1;
        }
        proof {
            assert(config.buttons@.take(i as int) =~= config.buttons@);
        }
        Ok(
            Music {
                id,
                current_song: RotatingText::new(HOLD_MS, STEP_MS, config.max_width, config.marquee),
                prev,
                play,
                next,
                player_avail: false,
                player: config.player,
            },
        )
    }

    /// Creates the widget under an identifier that is drawn at random.
    ///
    /// Fails on the first entry of `config.buttons` that names no control.
    pub fn new(config: MusicConfig) -> (r: Result<Music, MusicError>)
        ensures
            match r {
                Ok(music) => all_known(config.buttons@) && is_fresh_id(music.model().id)
                    && music.model() == MusicView::initial(
                    music.model().id,
                    config.player@,
                    config.max_width as nat,
                    config.marquee,
                    config.buttons@,
                ),
                Err(e) => exists|i: int| #[trigger]
                    first_unknown(config.buttons@, i) && e@ == MusicErrorView::UnknownButton(
                        config.buttons@[i]@,
                    ),
            },
    {
        Music::with_id(config, fresh_id())
    }

    /// The identifier under which the host knows the widget.
    pub fn id(&self) -> (r: &str)
        ensures
            r@ == self.model().id,
    {
        self.id.as_str()
    }

    /// The player's name.
    pub fn player(&self) -> (r: &str)
        ensures
            r@ == self.model().player,
    {
        self.player.as_str()
    }

    /// Whether the player answered when it was last asked.
    pub fn is_available(&self) -> (r: bool)
        ensures
            r == self.model().available,
    {
        self.player_avail
    }

    /// The whole text, of which the display shows a window.
    pub fn full_text(&self) -> (r: &String)
        ensures
            r@ == self.model().song.text,
    {
        self.current_song.text()
    }

    /// The characters of the text that are on display.
    pub fn visible_text(&self) -> (r: String)
        ensures
            r@ == self.model().song.window(),
    {
        self.current_song.visible()
    }

    /// The picture that the play button shows, if there is a play button.
    pub fn playback_icon(&self) -> (r: Option<Icon>)
        ensures
            match r {
                Some(icon) => self.model().play matches Some(button) && icon == button.icon,
                None => self.model().play is None,
            },
    {
        match self.play {
            Some(button) => Some(button.icon),
            None => None,
        }
    }

    /// The first step of an update, at a wake-up at `now`: the marquee looks
    /// at the clock. Where the text moved, the update is over and the next one
    /// is wanted after the step time. Where it did not, the player's metadata
    /// is to be read.
    pub fn update(&mut self, now: u64) -> (step: Step)
        ensures
            final(self).model() == old(self).model().after_wake(now as nat),
            match step {
                Step::Done(delay) => old(self).model().song.due(now as nat) && millis(delay)
                    == Some(old(self).model().song.step),
                Step::Read(property) => !old(self).model().song.due(now as nat) && property
                    == Property::Metadata,
            },
    {
        let (rotated, hint) = self.current_song.advance(now);
        if rotated {
            Step::Done(hint)
        } else {
            Step::Read(Property::Metadata)
        }
    }

    /// The second step of an update: takes the player's metadata, or nothing
    /// where the player gave no answer. Without an answer the text is cleared
    /// and the player counts as unavailable. With one, title and artist are
    /// displayed. Where a play button is configured, the playback status is to
    /// be read next; else the update is over.
    pub fn metadata_reply(&mut self, reply: Option<Value>, now: u64) -> (step: Step)
        ensures
            final(self).model() == old(self).model().after_metadata(reply, now as nat),
            match step {
                Step::Read(property) => final(self).model().play is Some && property
                    == Property::PlaybackStatus,
                Step::Done(delay) => final(self).model().play is None
                    && millis(delay) == final(self).model().wake_delay(),
            },
    {
        match reply {
            Some(metadata) => {
                let (title, artist) = title_and_artist(&metadata);
                let mut text = title;
                text.append(" | ");
                text.append(artist.as_str());
                self.player_avail = true;
                self.current_song.set_text(text, now);
            },
            None => {
                self.current_song.set_text(String::new(), now);
                self.player_avail = false;
            },
        }
        if self.play.is_some() {
            Step::Read(Property::PlaybackStatus)
        } else {
            Step::Done(self.wake_delay())
        }
    }

    /// The last step of an update: takes the player's playback status, or
    /// nothing where the player gave no answer, and sets the play button's
    /// picture by it.
    pub fn playback_reply(&mut self, reply: Option<Value>) -> (step: Step)
        ensures
            final(self).model() == old(self).model().after_playback(reply),
            step matches Step::Done(delay) && millis(delay) == final(self).model().wake_delay(),
    {
        let playing = match &reply {
            Some(status) => match status.as_text() {
                Some(text) => *text == String::from_str("Playing"),
                None => false,
            },
            None => false,
        };
        let icon = if playing {
            Icon::Pause
        } else {
            Icon::Play
        };
        match self.play {
            Some(button) => {
                self.play = Some(Button { kind: button.kind, icon });
            },
            None => {},
        }
        Step::Done(self.wake_delay())
    }

    /// The delay, if any, after which the widget wants to be woken when
    /// nothing has moved: a second while the text scrolls.
    pub fn wake_delay(&self) -> (r: Option<u64>)
        ensures
            millis(r) == self.model().wake_delay(),
    {
        if self.current_song.rotates() {
            Some(POLL_MS)
        } else {
            None
        }
    }

    /// The method call that a click sends to the player: `Previous`,
    /// `PlayPause` or `Next` for a click on `prev`, `play` or `next`, none for
    /// a click on anything else or on nothing.
    pub fn click(&self, name: Option<&str>) -> (r: Option<MethodCall>)
        ensures
            match r {
                Some(sent) => name matches Some(n) && ButtonKind::spec_parse(n@) matches Some(kind)
                    && sent@ == spec_call(self.model().player, Method::spec_of(kind)),
                None => name matches Some(n) ==> ButtonKind::spec_parse(n@) is None,
            },
    {
        match name {
            Some(n) => match ButtonKind::parse(n) {
                Some(kind) => Some(call(self.player.as_str(), Method::of(kind))),
                None => None,
            },
            None => None,
        }
    }

    /// The elements on display, in their order: the text, then, while the
    /// player answers, the configured ones of `prev`, `play` and `next`.
    pub fn view(&self) -> (r: Vec<Element>)
        ensures
            element_views(r@) == self.model().rendered(),
    {
        let mut elements: Vec<Element> = Vec::new();
        elements.push(Element::Text { content: self.current_song.visible(), icon: Icon::Music });
        if self.player_avail {
            if let Some(button) = self.prev {
                elements.push(Element::Button { name: button.kind, icon: button.icon });
            }
            if let Some(button) = self.play {
                elements.push(Element::Button { name: button.kind, icon: button.icon });
            }
            if let Some(button) = self.next {
                elements.push(Element::Button { name: button.kind, icon: button.icon });
            }
        }
        proof {
            assert(element_views(elements@) =~= self.model().rendered());
        }
        elements
    }
}

} // verus!
