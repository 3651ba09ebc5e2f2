use now_playing::bus::{
    bus_name, call, change_match_rule, is_player_signal, object_path, player_interface, Method,
    Property, QUERY_TIMEOUT_MS,
};
use now_playing::config::MusicConfig;
use now_playing::rotation::POLL_MS;
use now_playing::session::{HOLD_MS, STEP_MS};
use now_playing::widget::{Button, ButtonKind, Icon};

#[test]
fn the_defaults_of_the_configuration() {
    assert_eq!(MusicConfig::default_max_width(), 21);
    assert!(MusicConfig::default_marquee());
    assert_eq!(MusicConfig::default_buttons(), Vec::<String>::new());
    let config = MusicConfig::for_player("mpd".to_string());
    assert_eq!(config.player, "mpd");
    assert_eq!(config.max_width, 21);
    assert!(config.marquee);
    assert!(config.buttons.is_empty());
}

#[test]
fn the_times_of_the_widget() {
    assert_eq!(HOLD_MS, 10_000);
    assert_eq!(STEP_MS, 500);
    assert_eq!(POLL_MS, 1_000);
    assert_eq!(QUERY_TIMEOUT_MS, 1_000);
}

#[test]
fn the_bus_name_ends_in_the_player() {
    assert_eq!(bus_name("spotify"), "org.mpris.MediaPlayer2.spotify");
    assert_eq!(bus_name("vlc.instance7"), "org.mpris.MediaPlayer2.vlc.instance7");
    assert_eq!(bus_name(""), "org.mpris.MediaPlayer2.");
}

#[test]
fn the_names_of_the_interface() {
    assert_eq!(object_path(), "/org/mpris/MediaPlayer2");
    assert_eq!(player_interface(), "org.mpris.MediaPlayer2.Player");
    assert_eq!(
        change_match_rule(),
        "interface='org.freedesktop.DBus.Properties',member='PropertiesChanged'"
    );
    assert_eq!(Property::Metadata.name(), "Metadata");
    assert_eq!(Property::PlaybackStatus.name(), "PlaybackStatus");
}

#[test]
fn the_commands_behind_the_buttons() {
    assert_eq!(Method::of(ButtonKind::Prev), Method::Previous);
    assert_eq!(Method::of(ButtonKind::Play), Method::PlayPause);
    assert_eq!(Method::of(ButtonKind::Next), Method::Next);
    assert_eq!(Method::Previous.member(), "Previous");
    assert_eq!(Method::PlayPause.member(), "PlayPause");
    assert_eq!(Method::Next.member(), "Next");
}

#[test]
fn a_call_names_player_path_interface_and_member() {
    let sent = call("mpd", Method::PlayPause);
    assert_eq!(sent.destination, "org.mpris.MediaPlayer2.mpd");
    assert_eq!(sent.path, "/org/mpris/MediaPlayer2");
    assert_eq!(sent.interface, "org.mpris.MediaPlayer2.Player");
    assert_eq!(sent.member, "PlayPause");
}

#[test]
fn only_changed_properties_of_a_player_wake_the_widget() {
    assert!(is_player_signal("/org/mpris/MediaPlayer2", "PropertiesChanged"));
    assert!(!is_player_signal("/org/mpris/MediaPlayer2", "Seeked"));
    assert!(!is_player_signal("/org/mpris/MediaPlayer2", ""));
    assert!(!is_player_signal("/org/freedesktop/NetworkManager", "PropertiesChanged"));
    assert!(!is_player_signal("/org/mpris/MediaPlayer2/", "PropertiesChanged"));
    assert!(!is_player_signal("", ""));
}

#[test]
fn the_identifiers_of_the_buttons() {
    assert_eq!(ButtonKind::parse("prev"), Some(ButtonKind::Prev));
    assert_eq!(ButtonKind::parse("play"), Some(ButtonKind::Play));
    assert_eq!(ButtonKind::parse("next"), Some(ButtonKind::Next));
    for other in ["", "Prev", "pause", "previous", " play", "next\n"] {
        assert_eq!(ButtonKind::parse(other), None);
    }
    for kind in [ButtonKind::Prev, ButtonKind::Play, ButtonKind::Next] {
        assert_eq!(ButtonKind::parse(kind.name()), Some(kind));
    }
    assert_eq!(ButtonKind::Prev.name(), "prev");
    assert_eq!(ButtonKind::Play.name(), "play");
    assert_eq!(ButtonKind::Next.name(), "next");
}

#[test]
fn the_pictures_of_the_elements() {
    assert_eq!(Icon::Music.name(), "music");
    assert_eq!(Icon::Play.name(), "music_play");
    assert_eq!(Icon::Pause.name(), "music_pause");
    assert_eq!(Icon::Next.name(), "music_next");
    assert_eq!(Icon::Prev.name(), "music_prev");
    assert_eq!(ButtonKind::Prev.icon(), Icon::Prev);
    assert_eq!(ButtonKind::Play.icon(), Icon::Play);
    assert_eq!(ButtonKind::Next.icon(), Icon::Next);
    assert_eq!(Button::new(ButtonKind::Play), Button { kind: ButtonKind::Play, icon: Icon::Play });
}
