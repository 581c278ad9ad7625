use current_weather::compass::Compass16;
use current_weather::error::RecordError;

#[test]
fn display_test() {
    let ene = Compass16::ENE;

    assert_eq!(ene.to_string(), String::from("ENE"));
}

#[test]
fn compass_from_string_ref_valid() {
    // check several variants (case-insensitive)
    assert_eq!(Compass16::from_string_ref("N").unwrap(), Compass16::N);
    assert_eq!(Compass16::from_string_ref("nne").unwrap(), Compass16::NNE);
    assert_eq!(Compass16::from_string_ref("Ne").unwrap(), Compass16::NE);
    assert_eq!(Compass16::from_string_ref("ENE").unwrap(), Compass16::ENE);
    assert_eq!(Compass16::from_string_ref("w").unwrap(), Compass16::W);
    assert_eq!(Compass16::from_string_ref("NnW").unwrap(), Compass16::NNW);
}

#[test]
fn compass_from_string_ref_invalid() {
    let err = Compass16::from_string_ref("not-a-direction").unwrap_err();
    match err {
        RecordError::CompassError(s) => {
            assert!(s.contains("Cannot recognize wind direction"));
        }
        _ => panic!("expected CompassError variant"),
    }
}

const ALL: [Compass16; 16] = [
    Compass16::N,
    Compass16::NNE,
    Compass16::NE,
    Compass16::ENE,
    Compass16::E,
    Compass16::ESE,
    Compass16::SE,
    Compass16::SSE,
    Compass16::S,
    Compass16::SSW,
    Compass16::SW,
    Compass16::WSW,
    Compass16::W,
    Compass16::WNW,
    Compass16::NW,
    Compass16::NNW,
];

#[test]
fn compass_display_round_trip_all() {
    for c in ALL {
        let name = c.to_string();
        assert_eq!(Compass16::from_string_ref(&name).unwrap(), c);
        assert_eq!(Compass16::from_string_ref(&name.to_lowercase()).unwrap(), c);
    }
}

#[test]
fn compass_names_are_distinct() {
    for (i, a) in ALL.iter().enumerate() {
        for (j, b) in ALL.iter().enumerate() {
            assert_eq!(i == j, a.to_string() == b.to_string());
        }
    }
}

#[test]
fn compass_display_names() {
    let names: Vec<String> = ALL.iter().map(|c| c.to_string()).collect();
    assert_eq!(
        names,
        vec![
            "N", "NNE", "NE", "ENE", "E", "ESE", "SE", "SSE", "S", "SSW", "SW", "WSW", "W", "WNW",
            "NW", "NNW"
        ]
    );
}

#[test]
fn compass_case_mix_same_result() {
    assert_eq!(Compass16::from_string_ref("wSw").unwrap(), Compass16::WSW);
    assert_eq!(Compass16::from_string_ref("WSW").unwrap(), Compass16::WSW);
    assert_eq!(Compass16::from_string_ref("sse").unwrap(), Compass16::SSE);
    assert_eq!(Compass16::from_string_ref("Se").unwrap(), Compass16::SE);
    assert_eq!(Compass16::from_string_ref("s").unwrap(), Compass16::S);
    assert_eq!(Compass16::from_string_ref("E").unwrap(), Compass16::E);
}

#[test]
fn compass_rejects_other_texts() {
    for text in ["", " N", "N ", "NNNE", "north", "NEE", "SN", "x", "ÑE", "nnee", "ew"] {
        match Compass16::from_string_ref(text) {
            Err(RecordError::CompassError(m)) => {
                assert_eq!(m, format!("Cannot recognize wind direction from value {}", text));
            }
            other => panic!("expected a compass error for {:?}, got {:?}", text, other),
        }
    }
}
