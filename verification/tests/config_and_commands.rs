//! Configuration color lookup and the gateway command builders.

use lyra::config::Config;
use lyra::lms::playlist_command;
use lyra::lms::serverstatus_command;
use lyra::lms::status_command;
use lyra::lms::time_command;
use lyra::lms::RpcArg;

#[test]
fn defaults_cover_every_role() {
    let config = Config::default();
    assert_eq!(config.color("Banner"), 2);
    assert_eq!(config.color("PlayerName"), 1);
    assert_eq!(config.color("PlayingIndicator"), 2);
    assert_eq!(config.color("PausedIndicator"), 3);
    assert_eq!(config.color("StoppedIndicator"), 1);
    assert_eq!(config.color("RepeatIndicator"), 5);
    assert_eq!(config.color("ShuffleIndicator"), 6);
    assert_eq!(config.color("TrackIndex"), 5);
    assert_eq!(config.color("TrackTitle"), 3);
    assert_eq!(config.color("TrackArtist"), 4);
    assert_eq!(config.color("TrackAlbum"), 1);
    assert_eq!(config.color("TrackDuration"), 6);
    assert_eq!(config.color("PlaybarGauge"), 2);
    assert_eq!(config.lms_ip, "127.0.0.1");
    assert_eq!(config.lms_port, "9000");
}

#[test]
fn user_table_overrides_one_role_and_falls_back_for_the_rest() {
    let config = Config::from_parts(
        "192.168.0.10".to_string(),
        "9001".to_string(),
        vec![("TrackTitle".to_string(), 9)],
    );
    assert_eq!(config.color("TrackTitle"), 9);
    // every other role comes from the baked-in table
    assert_eq!(config.color("Banner"), 2);
    assert_eq!(config.color("PlaybarGauge"), 2);
}

#[test]
fn enumeration_command_is_server_scoped() {
    let c = serverstatus_command();
    assert_eq!(c.scope, "-");
    assert_eq!(c.args, vec![RpcArg::Text("serverstatus".to_string()), RpcArg::Uint(0)]);
}

#[test]
fn status_command_scopes_to_the_player() {
    let c = status_command("aa:bb:cc");
    assert_eq!(c.scope, "aa:bb:cc");
    assert_eq!(
        c.args,
        vec![RpcArg::Text("status".to_string()), RpcArg::Uint(0), RpcArg::Uint(9999)]
    );
}

#[test]
fn playlist_command_adds_the_tag_filter() {
    let c = playlist_command("aa:bb:cc");
    assert_eq!(c.scope, "aa:bb:cc");
    assert_eq!(
        c.args,
        vec![
            RpcArg::Text("status".to_string()),
            RpcArg::Uint(0),
            RpcArg::Uint(9999),
            RpcArg::Text("tags:adl".to_string()),
        ]
    );
}

#[test]
fn time_command_queries_the_position() {
    let c = time_command("aa:bb:cc");
    assert_eq!(c.scope, "aa:bb:cc");
    assert_eq!(
        c.args,
        vec![RpcArg::Text("time".to_string()), RpcArg::Text("?".to_string())]
    );
}
