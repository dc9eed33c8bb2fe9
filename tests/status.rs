use mcpe_motd::{parse_server_id_string, split_server_id_string, MotdErrorCode, DEFAULT_PORT};

fn err_of(s: &str) -> MotdErrorCode {
    parse_server_id_string(s).unwrap_err().code
}

#[test]
fn split_drops_empty_tokens() {
    let t = split_server_id_string("a;;b;c");
    assert_eq!(t, vec!["a".to_string(), "b".to_string(), "c".to_string()]);
}

#[test]
fn split_edges() {
    assert!(split_server_id_string("").is_empty());
    assert!(split_server_id_string(";;;").is_empty());
    assert_eq!(split_server_id_string(";x;"), vec!["x".to_string()]);
    assert_eq!(split_server_id_string("é;ü"), vec!["é".to_string(), "ü".to_string()]);
}

#[test]
fn four_tokens_take_defaults() {
    let (s, complete) = parse_server_id_string("MCPE;hello;100;1.0").unwrap();
    assert_eq!(s.edition, "MCPE");
    assert_eq!(s.motd, "hello");
    assert_eq!(s.protocol_version, 100);
    assert_eq!(s.version_name, "1.0");
    assert_eq!(s.player_count, -1);
    assert_eq!(s.max_player_count, -1);
    assert_eq!(s.server_unique_id, "");
    assert_eq!(s.level_name, "");
    assert_eq!(s.gamemode, "Survival");
    assert_eq!(s.gamemode_numeric, 0);
    assert_eq!(s.port_v4, 19132);
    assert_eq!(s.port_v6, 19132);
    assert_eq!(DEFAULT_PORT, 19132);
    assert!(!complete);
}

#[test]
fn six_tokens_parse_player_counts() {
    let (s, complete) = parse_server_id_string("MCPE;My Server;618;1.20.40;5;20").unwrap();
    assert_eq!(s.edition, "MCPE");
    assert_eq!(s.motd, "My Server");
    assert_eq!(s.protocol_version, 618);
    assert_eq!(s.version_name, "1.20.40");
    assert_eq!(s.player_count, 5);
    assert_eq!(s.max_player_count, 20);
    assert_eq!(s.gamemode, "Survival");
    assert!(!complete);
}

#[test]
fn twelve_tokens_are_complete() {
    let (s, complete) =
        parse_server_id_string("MCEE;m;-7;v;+0;2147483647;id;lvl;Creative;255;65535;0").unwrap();
    assert_eq!(s.edition, "MCEE");
    assert_eq!(s.protocol_version, -7);
    assert_eq!(s.player_count, 0);
    assert_eq!(s.max_player_count, 2147483647);
    assert_eq!(s.server_unique_id, "id");
    assert_eq!(s.level_name, "lvl");
    assert_eq!(s.gamemode, "Creative");
    assert_eq!(s.gamemode_numeric, 255);
    assert_eq!(s.port_v4, 65535);
    assert_eq!(s.port_v6, 0);
    assert!(complete);
}

#[test]
fn eleven_tokens_are_incomplete() {
    let (s, complete) = parse_server_id_string("MCPE;m;1;v;1;2;id;lvl;Adventure;2;19000").unwrap();
    assert_eq!(s.port_v4, 19000);
    assert_eq!(s.port_v6, 19132);
    assert!(!complete);
}

#[test]
fn too_few_tokens() {
    assert_eq!(err_of(""), MotdErrorCode::ServerIdStringTooSmall);
    assert_eq!(err_of("MCPE;m;1"), MotdErrorCode::ServerIdStringTooSmall);
    assert_eq!(err_of("MCPE;;m;;1;"), MotdErrorCode::ServerIdStringTooSmall);
}

#[test]
fn bad_protocol_version() {
    assert_eq!(err_of("MCPE;x;abc;1.0"), MotdErrorCode::CantParseProtocolVersion);
    assert_eq!(err_of("MCPE;x;abc;1.0;q;q;a;b;c;q;q;q"), MotdErrorCode::CantParseProtocolVersion);
    assert_eq!(err_of("MCPE;x;32768;1.0"), MotdErrorCode::CantParseProtocolVersion);
    assert_eq!(err_of("MCPE;x; 1;1.0"), MotdErrorCode::CantParseProtocolVersion);
    assert_eq!(err_of("MCPE;x;-;1.0"), MotdErrorCode::CantParseProtocolVersion);
}

#[test]
fn protocol_version_bounds() {
    let (s, _) = parse_server_id_string("MCPE;x;-32768;1.0").unwrap();
    assert_eq!(s.protocol_version, -32768);
    let (s, _) = parse_server_id_string("MCPE;x;+32767;1.0").unwrap();
    assert_eq!(s.protocol_version, 32767);
    let (s, _) = parse_server_id_string("MCPE;x;007;1.0").unwrap();
    assert_eq!(s.protocol_version, 7);
}

#[test]
fn bad_optional_numbers() {
    assert_eq!(err_of("MCPE;m;1;v;five"), MotdErrorCode::CantParsePlayerCount);
    assert_eq!(err_of("MCPE;m;1;v;5;2147483648"), MotdErrorCode::CantParsePlayerMaxCount);
    assert_eq!(err_of("MCPE;m;1;v;5;6;id;lvl;S;256"), MotdErrorCode::CantParseGameModeNum);
    assert_eq!(err_of("MCPE;m;1;v;5;6;id;lvl;S;-0"), MotdErrorCode::CantParseGameModeNum);
    assert_eq!(err_of("MCPE;m;1;v;5;6;id;lvl;S;1;65536"), MotdErrorCode::CantParsePort4);
    assert_eq!(err_of("MCPE;m;1;v;5;6;id;lvl;S;1;2;-1"), MotdErrorCode::CantParsePort6);
}

#[test]
fn first_malformed_field_wins() {
    assert_eq!(err_of("MCPE;m;x;v;y;z"), MotdErrorCode::CantParseProtocolVersion);
    assert_eq!(err_of("MCPE;m;1;v;y;z"), MotdErrorCode::CantParsePlayerCount);
    assert_eq!(err_of("MCPE;m;1;v;1;z;a;b;c;q;r;s"), MotdErrorCode::CantParsePlayerMaxCount);
}

#[test]
fn error_messages_name_the_field() {
    let e = parse_server_id_string("MCPE;m;1;v;5;6;id;lvl;S;1;x").unwrap_err();
    assert_eq!(e.code, MotdErrorCode::CantParsePort4);
    assert!(e.message.contains("port_v4"));
}
