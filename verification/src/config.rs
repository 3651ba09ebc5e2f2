//! The widget's configuration.

use vstd::prelude::*;
use crate::widget::ButtonKind;

verus! {

/// What the host configures of the widget.
#[derive(Clone, Debug)]
pub struct MusicConfig {
    /// The player's name: the last part of the name under which it is
    /// registered on the bus.
    pub player: String,
    /// The width of the text in characters, the buttons not counted.
    pub max_width: usize,
    /// Whether a text that is wider than `max_width` is scrolled.
    pub marquee: bool,
    /// The buttons to display, each `prev`, `play` or `next`.
    pub buttons: Vec<String>,
}

impl MusicConfig {
    /// The width where none is configured.
    pub fn default_max_width() -> (r: usize)
        ensures
            r == 21,
    {
        21
    }

    /// The marquee setting where none is configured: on.
    pub fn default_marquee() -> (r: bool)
        ensures
            r,
    {
        true
    }

    /// The buttons where none are configured: none.
    pub fn default_buttons() -> (r: Vec<String>)
        ensures
            r@.len() == 0,
    {
        Vec::new()
    }

    /// The configuration for `player` with every other setting at its default.
    pub fn for_player(player: String) -> (r: MusicConfig)
        ensures
            r.player == player,
            r.max_width == 21,
            r.marquee,
            r.buttons@.len() == 0,
    {
        MusicConfig {
            player,
            max_width: MusicConfig::default_max_width(),
            marquee: MusicConfig::default_marquee(),
            buttons: MusicConfig::default_buttons(),
        }
    }
}

/// The control that entry `i` of a list of button identifiers names.
pub open spec fn kind_at(buttons: Seq<String>, i: int) -> Option<ButtonKind> {
    ButtonKind::spec_parse(buttons[i]@)
}

/// Whether every entry of a list of button identifiers names a control.
pub open spec fn all_known(buttons: Seq<String>) -> bool {
    forall|i: int| 0 <= i < buttons.len() ==> kind_at(buttons, i) is Some
}

/// Whether entry `i` is the first of `buttons` that names no control.
pub open spec fn first_unknown(buttons: Seq<String>, i: int) -> bool {
    &&& 0 <= i < buttons.len()
    &&& kind_at(buttons, i) is None
    &&& forall|j: int| 0 <= j < i ==> kind_at(buttons, j) is Some
}

/// Whether a list of button identifiers asks for the control `kind`.
pub open spec fn asks_for(buttons: Seq<String>, kind: ButtonKind) -> bool {
    exists|i: int| 0 <= i < buttons.len() && kind_at(buttons, i) == Some(kind)
}

} // verus!
