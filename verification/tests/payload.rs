use rmtfar::payload::{
    from_array_wrapper, from_string_wrapper,
    normalize_single_string_arg, normalize_v1_payload, parse_player_state, parse_player_state_v1,
    PayloadError, V1Field, V1Payload,
};

/// Reads the line-of-sight factor as the extension does: 1.0 when absent,
/// else the number clamped to 0..1.
fn los(p: &V1Payload) -> f32 {
    p.los_text.as_deref().map_or(1.0, |t| t.parse::<f32>().unwrap().clamp(0.0, 1.0))
}

/// Reads a range override as the extension does: positive numbers only.
fn range(t: &Option<String>) -> Option<f32> {
    t.as_deref().map(|t| t.parse::<f32>().unwrap()).filter(|v| *v > 0.0)
}

#[test]
fn v1_18_fields_defaults_los() {
    let s = "v1|76561198000000000|srv|1000|0|0|0|0|1|1||0|0|0|152.000|1||1";
    let p = parse_player_state_v1(s).unwrap();
    assert!((los(&p) - 1.0).abs() < f32::EPSILON);
    assert!(p.radio_lr.is_none());
    assert_eq!(p.radio_sr.freq, "152.000");
}

#[test]
fn v1_19_fields_parses_los() {
    let s = "v1|76561198000000000|srv|1000|0|0|0|0|1|1||0|0|0|152.000|1||1|0.35";
    let p = parse_player_state_v1(s).unwrap();
    assert!((los(&p) - 0.35).abs() < 1e-5);
    assert!(range(&p.radio_sr.range_text).is_none());
}

#[test]
fn v1_21_fields_parses_ranges() {
    let s = "v1|76561198000000000|srv|1000|0|0|0|0|1|1||0|0|0|152.000|1|30.0|1|1|3000|12000";
    let p = parse_player_state_v1(s).unwrap();
    assert!((range(&p.radio_sr.range_text).unwrap() - 3000.0).abs() < 1e-3);
    assert!((range(&p.radio_lr.as_ref().unwrap().range_text).unwrap() - 12000.0).abs() < 1e-3);
}

#[test]
fn v1_23_fields_parses_stereo() {
    let s = "v1|76561198000000000|srv|1000|0|0|0|0|1|1||0|0|0|152.000|1|30.0|1|1|3000|12000|1|2";
    let p = parse_player_state_v1(s).unwrap();
    assert_eq!(p.radio_sr.stereo, 1);
    assert_eq!(p.radio_lr.as_ref().unwrap().stereo, 2);
}

#[test]
fn v1_25_fields_parses_codes() {
    let s = "v1|76561198000000000|srv|1000|0|0|0|0|1|1||0|1|0|152.000|1||1|1|3000|0|1|0|ALFA|";
    let p = parse_player_state_v1(s).unwrap();
    assert_eq!(p.radio_sr.code, "ALFA");
    assert!(p.radio_lr.is_none());
}

#[test]
fn v1_28_fields_parses_intercom_vehicle_id() {
    let s = "v1|id|srv|0|0|0|0|0|1|1|B_MRAP_01_F|1|0|0|43.0|1||1|1|0|0|0|0|||1|2|1:2";
    let p = parse_player_state_v1(s).unwrap();
    assert!(p.intercom_enabled);
    assert_eq!(p.intercom_channel, 2);
    assert_eq!(p.intercom_vehicle_id, "1:2");
}

#[test]
fn v1_alive_conscious_flags() {
    let alive_dead = "v1|id|srv|0|0|0|0|0|0|1||0|0|0|43.0|1||1";
    let p = parse_player_state_v1(alive_dead).unwrap();
    assert!(!p.alive);
    assert!(p.conscious);

    let alive_unconscious = "v1|id|srv|0|0|0|0|0|1|0||0|0|0|43.0|1||1";
    let p2 = parse_player_state_v1(alive_unconscious).unwrap();
    assert!(p2.alive);
    assert!(!p2.conscious);
}

#[test]
fn v1_vehicle_field() {
    let s = "v1|id|srv|0|0|0|0|0|1|1|B_MRAP_01_F|0|0|0|43.0|1||1";
    let p = parse_player_state_v1(s).unwrap();
    assert_eq!(p.vehicle, "B_MRAP_01_F");
}

#[test]
fn v1_ptt_flags() {
    let s = "v1|id|srv|0|0|0|0|0|1|1||1|1|0|43.0|1||1";
    let p = parse_player_state_v1(s).unwrap();
    assert!(p.ptt_local);
    assert!(p.ptt_radio_sr);
    assert!(!p.ptt_radio_lr);
}

#[test]
fn v1_lr_radio_present() {
    let s = "v1|id|srv|0|0|0|0|0|1|1||0|0|1|43.0|1|30.0|2|1";
    let p = parse_player_state_v1(s).unwrap();
    let lr = p.radio_lr.as_ref().unwrap();
    assert_eq!(lr.freq, "30.0");
    assert_eq!(lr.channel, 2);
}

#[test]
fn v1_zero_range_treated_as_none() {
    let s = "v1|id|srv|0|0|0|0|0|1|1||0|0|0|43.0|1||1|1|0|0";
    let p = parse_player_state_v1(s).unwrap();
    assert!(p.radio_sr.range_text.is_none());
}

#[test]
fn v1_bad_field_count_errors() {
    let s = "v1|only|three";
    assert!(parse_player_state_v1(s).is_err());
}

#[test]
fn v1_bad_prefix_errors() {
    let s = "v2|id|srv|0|0|0|0|0|1|1||0|0|0|43.0|1||1";
    assert!(parse_player_state_v1(s).is_err());
}

#[test]
fn normalize_bare_v1() {
    let result = normalize_v1_payload("v1|a|b").unwrap();
    assert_eq!(result, "v1|a|b");
}

#[test]
fn normalize_json_string_wrapper() {
    let result = normalize_v1_payload(r#""v1|a|b""#).unwrap();
    assert_eq!(result, "v1|a|b");
}

#[test]
fn normalize_json_array_wrapper() {
    let result = normalize_v1_payload(r#"["v1|a|b"]"#).unwrap();
    assert_eq!(result, "v1|a|b");
}

#[test]
fn normalize_unknown_format_errors() {
    assert!(normalize_v1_payload("{}").is_err());
    assert!(normalize_v1_payload("not_v1|x").is_err());
}

#[test]
fn normalize_single_string_bare() {
    let result = normalize_single_string_arg("Jugador1").unwrap();
    assert_eq!(result, "Jugador1");
}

#[test]
fn normalize_single_string_json_string() {
    let result = normalize_single_string_arg(r#""Jugador1""#).unwrap();
    assert_eq!(result, "Jugador1");
}

#[test]
fn normalize_single_string_json_array() {
    let result = normalize_single_string_arg(r#"["Jugador1"]"#).unwrap();
    assert_eq!(result, "Jugador1");
}

#[test]
fn parse_bytes_accepts_bare_v1() {
    let s = "v1|id|srv|0|0|0|0|0|1|1||0|0|0|43.0|1||1";
    assert!(parse_player_state(s.as_bytes()).is_ok());
}

#[test]
fn parse_bytes_rejects_empty() {
    assert!(parse_player_state(b"").is_err());
}

// ── errors, one input for each ─────────────────────────────────────────────

#[test]
fn error_variants() {
    assert_eq!(parse_player_state(&[0xff, 0xfe]).err(), Some(PayloadError::NotUtf8));
    assert_eq!(normalize_v1_payload("{}").err(), Some(PayloadError::UnsupportedFormat));
    assert_eq!(normalize_v1_payload("\"v1|a").err(), Some(PayloadError::UnsupportedFormat));
    assert_eq!(normalize_v1_payload(r#""v1|\q""#).err(), Some(PayloadError::WrapperString));
    assert_eq!(normalize_v1_payload("[1, 2]").err(), Some(PayloadError::WrapperArray));
    assert_eq!(normalize_v1_payload(r#"["a", "b"]"#).err(), Some(PayloadError::UnsupportedFormat));
    assert_eq!(normalize_single_string_arg("  \t ").err(), Some(PayloadError::EmptyArgument));
    assert_eq!(normalize_single_string_arg(r#"["a", "b"]"#).err(), Some(PayloadError::ArrayWrapperLength));
    assert_eq!(normalize_single_string_arg("[nope]").err(), Some(PayloadError::WrapperArray));
    assert_eq!(normalize_single_string_arg(r#""open"#).unwrap(), "\"open");
    assert_eq!(parse_player_state_v1("x|y").err(), Some(PayloadError::MissingPrefix));
    assert_eq!(parse_player_state_v1("v1|only|three").err(), Some(PayloadError::FieldCount(3)));
    assert_eq!(
        parse_player_state_v1("v1|id|srv|t|0|0|0|0|1|1||0|0|0|43.0|1||1").err(),
        Some(PayloadError::BadField(V1Field::Tick))
    );
    assert_eq!(
        parse_player_state_v1("v1|id|srv|0|0|0|0|0|1|1||0|0|0|43.0|300||1").err(),
        Some(PayloadError::BadField(V1Field::SrChannel))
    );
    assert_eq!(
        parse_player_state_v1("v1|id|srv|0|0|0|0|0|1|1||0|0|0|43.0|1||x").err(),
        Some(PayloadError::BadField(V1Field::LrChannel))
    );
    assert_eq!(
        parse_player_state_v1("v1|id|srv|0|0|0|0|0|1|1||0|0|0|43.0|1||1|1|0|0|9|x").err(),
        Some(PayloadError::BadField(V1Field::LrStereo))
    );
    assert_eq!(
        parse_player_state_v1("v1|id|srv|0|0|0|0|0|1|1||0|0|0|43.0|1||1|1|0|0|-|0").err(),
        Some(PayloadError::BadField(V1Field::SrStereo))
    );
    assert_eq!(
        parse_player_state_v1("v1|id|srv|0|0|0|0|0|1|1||0|0|0|43.0|1||1|1|0|0|0|0|||1|c").err(),
        Some(PayloadError::BadField(V1Field::IntercomChannel))
    );
    assert_eq!(
        parse_player_state(b"\"v2|a\"").err(),
        Some(PayloadError::UnsupportedFormat)
    );
}

#[test]
fn v1_exact_fields_and_clamps() {
    let s = r"v1|Ju\\\|gador|Serv\|idor|123456|1234.5|567.8|12.3|145.0|1|1|veh|0|1|0|43.0|1|30.0|4|0.5|0|250|7|9|A\\\|B||0|0|x\\\|y";
    let p = parse_player_state_v1(s).unwrap();
    assert_eq!(p.player_id, "Ju|gador");
    assert_eq!(p.server_id, "Serv|idor");
    assert_eq!(p.tick, 123456);
    assert_eq!(p.x_text, "1234.5");
    assert_eq!(p.y_text, "567.8");
    assert_eq!(p.z_text, "12.3");
    assert_eq!(p.dir_text, "145.0");
    assert_eq!(p.vehicle, "veh");
    assert!(!p.ptt_local && p.ptt_radio_sr && !p.ptt_radio_lr);
    assert_eq!(p.radio_sr.stereo, 2);
    assert_eq!(p.radio_lr.as_ref().unwrap().stereo, 2);
    assert_eq!(p.radio_sr.code, "A|B");
    assert_eq!(p.radio_sr.range_text, None);
    assert_eq!(p.radio_lr.as_ref().unwrap().range_text.as_deref(), Some("250"));
    assert_eq!(p.radio_lr.as_ref().unwrap().channel, 4);
    assert_eq!(p.los_text.as_deref(), Some("0.5"));
    assert!(!p.intercom_enabled);
    assert_eq!(p.intercom_channel, 1);
    assert_eq!(p.intercom_vehicle_id, "x|y");
}

#[test]
fn parse_bytes_unwraps_json_array() {
    let p = parse_player_state(br#" ["v1|id|srv|7|0|0|0|0|1|1||0|0|0|43.0|1||1"] "#).unwrap();
    assert_eq!(p.player_id, "id");
    assert_eq!(p.tick, 7);
}

#[test]
fn string_wrapper_result_is_unwrapped() {
    let ok = from_string_wrapper(serde_json::from_str::<String>("\"v1|a\\\"b\""));
    assert_eq!(ok, Ok("v1|a\"b".to_string()));
    let bad = from_string_wrapper(serde_json::from_str::<String>("\"open"));
    assert_eq!(bad, Err(PayloadError::WrapperString));
}

#[test]
fn array_wrapper_result_is_unwrapped() {
    let one = from_array_wrapper(serde_json::from_str::<Vec<String>>("[\"x\"]"), PayloadError::ArrayWrapperLength);
    assert_eq!(one, Ok("x".to_string()));
    let two = from_array_wrapper(serde_json::from_str::<Vec<String>>("[\"x\",\"y\"]"), PayloadError::ArrayWrapperLength);
    assert_eq!(two, Err(PayloadError::ArrayWrapperLength));
    let none = from_array_wrapper(serde_json::from_str::<Vec<String>>("[]"), PayloadError::UnsupportedFormat);
    assert_eq!(none, Err(PayloadError::UnsupportedFormat));
    let bad = from_array_wrapper(serde_json::from_str::<Vec<String>>("[1]"), PayloadError::UnsupportedFormat);
    assert_eq!(bad, Err(PayloadError::WrapperArray));
}

#[test]
fn decimal_field_errors_in_field_order() {
    let base = ["v1", "id", "srv", "0", "0", "0", "0", "0", "1", "1", "", "0", "0", "0", "43.0", "1", "", "1", "1", "0", "0"];
    let with = |i: usize, t: &str| {
        let mut f: Vec<&str> = base.to_vec();
        f[i] = t;
        f.join("|")
    };
    assert_eq!(parse_player_state_v1(&with(4, "1,5")).err(), Some(PayloadError::BadField(V1Field::X)));
    assert_eq!(parse_player_state_v1(&with(5, "")).err(), Some(PayloadError::BadField(V1Field::Y)));
    assert_eq!(parse_player_state_v1(&with(6, "1e")).err(), Some(PayloadError::BadField(V1Field::Z)));
    assert_eq!(parse_player_state_v1(&with(7, ".")).err(), Some(PayloadError::BadField(V1Field::Dir)));
    assert_eq!(parse_player_state_v1(&with(18, "high")).err(), Some(PayloadError::BadField(V1Field::RadioLos)));
    assert_eq!(parse_player_state_v1(&with(19, "5km")).err(), Some(PayloadError::BadField(V1Field::SrRange)));
    assert_eq!(parse_player_state_v1(&with(20, "1.2.3")).err(), Some(PayloadError::BadField(V1Field::LrRange)));
    // Line of sight is read before the tick, the position before the SR channel.
    let mut f: Vec<&str> = base.to_vec();
    f[3] = "t";
    f[18] = "x";
    assert_eq!(parse_player_state_v1(&f.join("|")).err(), Some(PayloadError::BadField(V1Field::RadioLos)));
    let mut f: Vec<&str> = base.to_vec();
    f[4] = "x";
    f[15] = "300";
    assert_eq!(parse_player_state_v1(&f.join("|")).err(), Some(PayloadError::BadField(V1Field::X)));
    // Accepted spellings of numbers.
    for t in ["-1.5", "+2", "3.", ".5", "1e3", "1E-3", "inf", "-Infinity", "NaN"] {
        assert!(parse_player_state_v1(&with(4, t)).is_ok(), "{t}");
    }
}

#[test]
fn parse_gives_back_escaped_fields() {
    let e = |x: &str| x.replace('|', r"\|");
    for (id, srv, veh, sf, lf) in [
        ("a|b", "srv|1", "B_MRAP|01", "43.0", ""),
        ("Jugador1", "", "", "152|000", "30.0"),
    ] {
        let s = format!(
            "v1|{}|{}|0|0|0|0|0|1|1|{}|0|0|0|{}|1|{}|1",
            e(id),
            e(srv),
            e(veh),
            e(sf),
            e(lf)
        );
        let p = parse_player_state_v1(&s).unwrap();
        assert_eq!(p.player_id, id);
        assert_eq!(p.server_id, srv);
        assert_eq!(p.vehicle, veh);
        assert_eq!(p.radio_sr.freq, sf);
        if lf.is_empty() {
            assert!(p.radio_lr.is_none());
        } else {
            assert_eq!(p.radio_lr.unwrap().freq, lf);
        }
    }
}
