//! Names and messages of the media player's bus interface.

use vstd::prelude::*;
use vstd::string::*;
use crate::widget::ButtonKind;

verus! {

/// The number of milliseconds after which a property read is given up.
pub const QUERY_TIMEOUT_MS: i32 = 1000;

/// The two properties of a player that the widget reads.
#[derive(Clone, Copy, Debug, PartialEq, Eq, Structural)]
pub enum Property {
    Metadata,
    PlaybackStatus,
}

impl Property {
    /// The property's name on the bus.
    pub open spec fn spec_name(self) -> Seq<char> {
        match self {
            Property::Metadata => "Metadata"@,
            Property::PlaybackStatus => "PlaybackStatus"@,
        }
    }

    /// The property's name on the bus.
    pub fn name(self) -> (r: &'static str)
        ensures
            r@ == self.spec_name(),
    {
        match self {
            Property::Metadata => "Metadata",
            Property::PlaybackStatus => "PlaybackStatus",
        }
    }
}

/// The commands that a click can send to the player.
#[derive(Clone, Copy, Debug, PartialEq, Eq, Structural)]
pub enum Method {
    Previous,
    PlayPause,
    Next,
}

impl Method {
    /// The command behind a control.
    pub open spec fn spec_of(kind: ButtonKind) -> Method {
        match kind {
            ButtonKind::Prev => Method::Previous,
            ButtonKind::Play => Method::PlayPause,
            ButtonKind::Next => Method::Next,
        }
    }

    /// The command's member name on the bus.
    pub open spec fn spec_member(self) -> Seq<char> {
        match self {
            Method::Previous => "Previous"@,
            Method::PlayPause => "PlayPause"@,
            Method::Next => "Next"@,
        }
    }

    /// The command behind a control.
    pub fn of(kind: ButtonKind) -> (r: Method)
        ensures
            r == Method::spec_of(kind),
    {
        match kind {
            ButtonKind::Prev => Method::Previous,
            ButtonKind::Play => Method::PlayPause,
            ButtonKind::Next => Method::Next,
        }
    }

    /// The command's member name on the bus.
    pub fn member(self) -> (r: &'static str)
        ensures
            r@ == self.spec_member(),
    {
        match self {
            Method::Previous => "Previous",
            Method::PlayPause => "PlayPause",
            Method::Next => "Next",
        }
    }
}

/// The object path under which every player offers its interface.
pub open spec fn spec_object_path() -> Seq<char> {
    "/org/mpris/MediaPlayer2"@
}

/// The interface that holds a player's properties and commands.
pub open spec fn spec_player_interface() -> Seq<char> {
    "org.mpris.MediaPlayer2.Player"@
}

/// The member name of the signal that announces changed properties.
pub open spec fn spec_change_signal() -> Seq<char> {
    "PropertiesChanged"@
}

/// The bus name of the player called `player`.
pub open spec fn spec_bus_name(player: Seq<char>) -> Seq<char> {
    "org.mpris.MediaPlayer2."@ + player
}

/// The object path under which every player offers its interface.
pub fn object_path() -> (r: &'static str)
    ensures
        r@ == spec_object_path(),
{
    "/org/mpris/MediaPlayer2"
}

/// The interface that holds a player's properties and commands.
pub fn player_interface() -> (r: &'static str)
    ensures
        r@ == spec_player_interface(),
{
    "org.mpris.MediaPlayer2.Player"
}

/// The rule by which a listener subscribes to changed properties.
pub fn change_match_rule() -> (r: &'static str)
    ensures
        r@ == "interface='org.freedesktop.DBus.Properties',member='PropertiesChanged'"@,
{
    "interface='org.freedesktop.DBus.Properties',member='PropertiesChanged'"
}

/// The bus name of the player called `player`.
pub fn bus_name(player: &str) -> (r: String)
    ensures
        r@ == spec_bus_name(player@),
{
    String::from_str("org.mpris.MediaPlayer2.").concat(player)
}

/// Whether a signal with the given object path and member name tells of a
/// player's changed properties, so that the widget is to be woken.
pub fn is_player_signal(path: &str, member: &str) -> (r: bool)
    ensures
        r == (path@ == spec_object_path() && member@ == spec_change_signal()),
{
    String::from_str(path) == String::from_str("/org/mpris/MediaPlayer2") && String::from_str(
        member,
    ) == String::from_str("PropertiesChanged")
}

/// A method call without arguments, ready to be sent.
#[derive(Clone, Debug, PartialEq, Eq)]
pub struct MethodCall {
    pub destination: String,
    pub path: String,
    pub interface: String,
    pub member: String,
}

/// The mathematical value of a [`MethodCall`].
pub ghost struct MethodCallView {
    pub destination: Seq<char>,
    pub path: Seq<char>,
    pub interface: Seq<char>,
    pub member: Seq<char>,
}

impl View for MethodCall {
    type V = MethodCallView;

    open spec fn view(&self) -> MethodCallView {
        MethodCallView {
            destination: self.destination@,
            path: self.path@,
            interface: self.interface@,
            member: self.member@,
        }
    }
}

/// The call that sends `method` to the player called `player`.
pub open spec fn spec_call(player: Seq<char>, method: Method) -> MethodCallView {
    MethodCallView {
        destination: spec_bus_name(player),
        path: spec_object_path(),
        interface: spec_player_interface(),
        member: method.spec_member(),
    }
}

/// The call that sends `method` to the player called `player`.
pub fn call(player: &str, method: Method) -> (r: MethodCall)
    ensures
        r@ == spec_call(player@, method),
{
    MethodCall {
        destination: bus_name(player),
        path: String::from_str(object_path()),
        interface: String::from_str(player_interface()),
        member: String::from_str(method.member()),
    }
}

} // verus!
