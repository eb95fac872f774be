use convlog::codec::{decode, encode, DecodeError};
use convlog::consumed::{Consumed, Consumed2, Consumed3, Consumed4};
use convlog::event::Event;
use convlog::pai::Pai;
use convlog::wire::{Entry, Key, Kind, Record, Value};

fn p(s: &str) -> Pai {
    Pai::parse(s).unwrap()
}

fn st(s: &str) -> Value {
    Value::Str(s.to_string())
}

fn strs(v: &[&str]) -> Value {
    Value::Strs(v.iter().map(|s| s.to_string()).collect())
}

fn rec(entries: Vec<(Key, Value)>) -> Record {
    Record { entries: entries.into_iter().map(|(key, value)| Entry { key, value }).collect() }
}

fn keys(r: &Record) -> Vec<Key> {
    r.entries.iter().map(|e| e.key).collect()
}

fn hand(tiles: &[&str]) -> [Pai; 13] {
    let mut h = [p("?"); 13];
    for (i, t) in tiles.iter().enumerate() {
        h[i] = p(t);
    }
    h
}

#[test]
fn tile_text_forms() {
    for s in ["1m", "9m", "5p", "7s", "E", "S", "W", "N", "P", "F", "C", "5mr", "5pr", "5sr", "?"] {
        assert_eq!(p(s).to_text(), s);
    }
    assert_eq!(p("1m").id, 0);
    assert_eq!(p("9s").id, 26);
    assert_eq!(p("C").id, 33);
    assert_eq!(p("5sr").id, 36);
    assert_eq!(p("?").id, 37);
}

#[test]
fn tile_parse_rejects() {
    for s in ["", "0m", "10m", "5x", "m5", "4mr", "5mrr", "e", "EE", "??"] {
        assert_eq!(Pai::parse(s), None, "{}", s);
    }
}

#[test]
fn tile_order_places_red_five_after_five() {
    assert!(p("5m").as_ord() < p("5mr").as_ord());
    assert!(p("5mr").as_ord() < p("6m").as_ord());
    assert!(p("9m").as_ord() < p("1p").as_ord());
    assert_eq!(p("5pr").as_ord(), 27);
    assert_eq!(p("3m").as_ord(), 4);
}

#[test]
fn tile_from_id() {
    assert_eq!(Pai::from_id(3), Some(p("4m")));
    assert_eq!(Pai::from_id(38), None);
}

#[test]
fn meld_order_independent() {
    let a = Consumed::new([p("6m"), p("4m"), p("5mr")]);
    let b = Consumed::new([p("5mr"), p("6m"), p("4m")]);
    let c = Consumed::new([p("4m"), p("5mr"), p("6m")]);
    assert_eq!(a, b);
    assert_eq!(b, c);
    assert_eq!(a.as_array(), [p("4m"), p("5mr"), p("6m")]);
    assert_eq!(a.to_texts(), b.to_texts());
    assert_eq!(a.to_texts(), vec!["4m", "5mr", "6m"]);
}

#[test]
fn meld_keeps_duplicates() {
    let a: Consumed4 = Consumed::new([p("E"), p("E"), p("E"), p("E")]);
    assert_eq!(a.as_array(), [p("E"); 4]);
    let b: Consumed2 = Consumed::new([p("5p"), p("5pr")]);
    let c: Consumed2 = Consumed::new([p("5pr"), p("5p")]);
    assert_eq!(b, c);
    assert_eq!(b.as_array(), [p("5p"), p("5pr")]);
}

#[test]
fn meld_from_texts() {
    let texts = vec!["C".to_string(), "1s".to_string(), "9p".to_string()];
    let m: Consumed3 = Consumed::from_texts(&texts).unwrap();
    assert_eq!(m.as_array(), [p("9p"), p("1s"), p("C")]);
    let bad = vec!["1s".to_string(), "zz".to_string(), "qq".to_string()];
    assert_eq!(Consumed::<3>::from_texts(&bad), Err(1));
}

#[test]
fn pon_scenario() {
    let r = rec(vec![
        (Key::Type, st("pon")),
        (Key::Actor, Value::Int(2)),
        (Key::Target, Value::Int(0)),
        (Key::Pai, st("5p")),
        (Key::Consumed, strs(&["5p", "5p"])),
    ]);
    let e = decode(&r).unwrap();
    assert_eq!(
        e,
        Event::Pon { actor: 2, target: 0, pai: p("5p"), consumed: Consumed::new([p("5p"), p("5p")]) }
    );
    assert_eq!(encode(&e), r);
}

#[test]
fn chi_scenario() {
    let r = rec(vec![
        (Key::Type, st("chi")),
        (Key::Actor, Value::Int(1)),
        (Key::Target, Value::Int(0)),
        (Key::Pai, st("5m")),
        (Key::Consumed, strs(&["6m", "4m"])),
    ]);
    let e = decode(&r).unwrap();
    match &e {
        Event::Chi { consumed, .. } => assert_eq!(consumed.as_array(), [p("4m"), p("6m")]),
        _ => panic!("not a chi"),
    }
    assert_eq!(e.naki_info(), Some((0, p("5m"))));
    assert_eq!(e.naki_to_ord(), 0);
    let out = encode(&e);
    assert_eq!(out.entries[4].value, strs(&["4m", "6m"]));
}

#[test]
fn actor_scenarios() {
    let sk = Event::StartKyoku {
        bakaze: p("E"),
        dora_marker: p("3s"),
        kyoku: 1,
        honba: 0,
        kyotaku: 0,
        oya: 0,
        scores: [25000; 4],
        tehais: [hand(&[]); 4],
    };
    assert_eq!(sk.actor(), None);
    assert_eq!(Event::Dora { dora_marker: p("7p") }.actor(), None);
    assert_eq!(Event::Reach { actor: 1 }.actor(), Some(1));
    assert_eq!(Event::Hora { actor: 3, target: 1, deltas: None, ura_markers: None }.actor(), Some(3));
    assert_eq!(Event::Ankan { actor: 2, consumed: Consumed::new([p("N"); 4]) }.actor(), Some(2));
    assert_eq!(Event::EndGame.actor(), None);
}

#[test]
fn naki_queries() {
    let dk = Event::Daiminkan { actor: 0, target: 3, pai: p("2s"), consumed: Consumed::new([p("2s"); 3]) };
    assert_eq!(dk.naki_info(), Some((3, p("2s"))));
    assert_eq!(dk.naki_to_ord(), -1);
    let pon = Event::Pon { actor: 1, target: 2, pai: p("F"), consumed: Consumed::new([p("F"); 2]) };
    assert_eq!(pon.naki_to_ord(), 1);
    let kk = Event::Kakan { actor: 1, pai: p("F"), consumed: Consumed::new([p("F"); 3]) };
    assert_eq!(kk.naki_info(), None);
    assert_eq!(kk.naki_to_ord(), -1);
    assert_eq!(Event::Tsumo { actor: 0, pai: p("1m") }.naki_info(), None);
}

#[test]
fn bad_tag_is_refused() {
    let r = rec(vec![(Key::Type, st("not_a_real_event"))]);
    assert_eq!(decode(&r), Err(DecodeError::UnknownTag));
    let r = rec(vec![(Key::Type, st("none"))]);
    assert_eq!(decode(&r), Ok(Event::Nothing));
}

#[test]
fn bad_tile_is_refused() {
    let r = rec(vec![(Key::Type, st("tsumo")), (Key::Actor, Value::Int(0)), (Key::Pai, st("xx"))]);
    assert_eq!(decode(&r), Err(DecodeError::BadTile(Key::Pai, 0)));
}

#[test]
fn shape_errors() {
    assert_eq!(decode(&rec(vec![])), Err(DecodeError::MissingField(Key::Type)));
    assert_eq!(decode(&rec(vec![(Key::Type, Value::Int(3))])), Err(DecodeError::WrongShape(Key::Type)));
    let r = rec(vec![(Key::Type, st("tsumo")), (Key::Pai, st("1m"))]);
    assert_eq!(decode(&r), Err(DecodeError::MissingField(Key::Actor)));
    let r = rec(vec![(Key::Type, st("reach")), (Key::Actor, Value::Int(256))]);
    assert_eq!(decode(&r), Err(DecodeError::WrongShape(Key::Actor)));
    let r = rec(vec![(Key::Type, st("reach")), (Key::Actor, Value::Int(-1))]);
    assert_eq!(decode(&r), Err(DecodeError::WrongShape(Key::Actor)));
    let r = rec(vec![
        (Key::Type, st("ankan")),
        (Key::Actor, Value::Int(0)),
        (Key::Consumed, strs(&["1m", "1m", "1m"])),
    ]);
    assert_eq!(decode(&r), Err(DecodeError::WrongShape(Key::Consumed)));
    let r = rec(vec![
        (Key::Type, st("kakan")),
        (Key::Actor, Value::Int(0)),
        (Key::Pai, st("1m")),
        (Key::Consumed, strs(&["1m", "1m", "1x"])),
    ]);
    assert_eq!(decode(&r), Err(DecodeError::BadTile(Key::Consumed, 2)));
    let r = rec(vec![(Key::Type, st("ryukyoku")), (Key::Deltas, Value::Ints(vec![0, 0, 0]))]);
    assert_eq!(decode(&r), Err(DecodeError::WrongShape(Key::Deltas)));
    let r = rec(vec![(Key::Type, st("ryukyoku")), (Key::Deltas, Value::Ints(vec![0, 0, 0, 1 << 40]))]);
    assert_eq!(decode(&r), Err(DecodeError::WrongShape(Key::Deltas)));
    let r = rec(vec![(Key::Type, st("dahai")), (Key::Actor, Value::Int(0)), (Key::Pai, st("1m")), (Key::Tsumogiri, Value::Int(1))]);
    assert_eq!(decode(&r), Err(DecodeError::WrongShape(Key::Tsumogiri)));
}

#[test]
fn first_field_gives_the_error() {
    let r = rec(vec![(Key::Type, st("chi")), (Key::Pai, st("bad"))]);
    assert_eq!(decode(&r), Err(DecodeError::MissingField(Key::Actor)));
}

#[test]
fn first_entry_wins_and_extra_fields_ignored() {
    let r = rec(vec![
        (Key::Type, st("reach")),
        (Key::Actor, Value::Int(3)),
        (Key::Actor, Value::Int(1)),
        (Key::Pai, st("1m")),
    ]);
    assert_eq!(decode(&r), Ok(Event::Reach { actor: 3 }));
}

#[test]
fn hora_optional_fields_omitted() {
    let e = Event::Hora { actor: 1, target: 2, deltas: None, ura_markers: None };
    let r = encode(&e);
    assert_eq!(keys(&r), vec![Key::Type, Key::Actor, Key::Target]);
    assert_eq!(decode(&r), Ok(e));
    let r = rec(vec![(Key::Type, st("ryukyoku"))]);
    assert_eq!(decode(&r), Ok(Event::Ryukyoku { deltas: None }));
}

#[test]
fn hora_optional_fields_present() {
    let e = Event::Hora {
        actor: 1,
        target: 2,
        deltas: Some([-8000, 8000, 0, 0]),
        ura_markers: Some(vec![p("9s"), p("1m")]),
    };
    let r = encode(&e);
    assert_eq!(keys(&r), vec![Key::Type, Key::Actor, Key::Target, Key::Deltas, Key::UraMarkers]);
    assert_eq!(r.entries[3].value, Value::Ints(vec![-8000, 8000, 0, 0]));
    assert_eq!(r.entries[4].value, strs(&["9s", "1m"]));
    assert_eq!(decode(&r), Ok(e));
    let r = rec(vec![(Key::Type, st("hora")), (Key::Actor, Value::Int(0)), (Key::Target, Value::Int(0)), (Key::UraMarkers, strs(&["1m", "q"]))]);
    assert_eq!(decode(&r), Err(DecodeError::BadTile(Key::UraMarkers, 1)));
}

#[test]
fn round_trip_every_kind() {
    let mut tehais = [hand(&[]); 4];
    tehais[1] = hand(&["1m", "2m", "3m", "5mr", "E", "E", "C", "9s", "9s", "1p", "2p", "3p", "N"]);
    let events = vec![
        Event::Nothing,
        Event::StartGame {
            kyoku_first: 4,
            aka_flag: true,
            names: ["a".to_string(), "b".to_string(), "c".to_string(), "d".to_string()],
        },
        Event::StartKyoku {
            bakaze: p("S"),
            dora_marker: p("5sr"),
            kyoku: 2,
            honba: 1,
            kyotaku: 3,
            oya: 1,
            scores: [24000, 26000, -1000, 51000],
            tehais,
        },
        Event::Tsumo { actor: 3, pai: p("P") },
        Event::Dahai { actor: 3, pai: p("P"), tsumogiri: true },
        Event::Chi { actor: 1, target: 0, pai: p("3s"), consumed: Consumed::new([p("4s"), p("2s")]) },
        Event::Pon { actor: 1, target: 0, pai: p("3s"), consumed: Consumed::new([p("3s"), p("3s")]) },
        Event::Daiminkan { actor: 1, target: 0, pai: p("5m"), consumed: Consumed::new([p("5m"), p("5mr"), p("5m")]) },
        Event::Kakan { actor: 1, pai: p("W"), consumed: Consumed::new([p("W"); 3]) },
        Event::Ankan { actor: 2, consumed: Consumed::new([p("9p"); 4]) },
        Event::Dora { dora_marker: p("1s") },
        Event::Reach { actor: 0 },
        Event::ReachAccepted { actor: 0 },
        Event::Hora { actor: 0, target: 0, deltas: Some([0, 1, 2, 3]), ura_markers: None },
        Event::Ryukyoku { deltas: Some([1500, -1500, 1500, -1500]) },
        Event::EndKyoku,
        Event::EndGame,
    ];
    for e in events {
        let r = encode(&e);
        assert_eq!(decode(&r), Ok(e));
    }
}

#[test]
fn start_kyoku_hand_errors() {
    let row: Vec<String> = (0..13).map(|_| "1m".to_string()).collect();
    let mut rows = vec![row.clone(), row.clone(), row.clone(), row.clone()];
    rows[1][4] = "bad".to_string();
    let mut r = rec(vec![
        (Key::Type, st("start_kyoku")),
        (Key::Bakaze, st("E")),
        (Key::DoraMarker, st("1m")),
        (Key::Kyoku, Value::Int(1)),
        (Key::Honba, Value::Int(0)),
        (Key::Kyotaku, Value::Int(0)),
        (Key::Oya, Value::Int(0)),
        (Key::Scores, Value::Ints(vec![25000; 4])),
        (Key::Tehais, Value::Rows(rows.clone())),
    ]);
    assert_eq!(decode(&r), Err(DecodeError::BadTile(Key::Tehais, 17)));
    rows[1][4] = "1m".to_string();
    rows[3].pop();
    r.entries[8].value = Value::Rows(rows);
    assert_eq!(decode(&r), Err(DecodeError::WrongShape(Key::Tehais)));
}

#[test]
fn names_and_tags() {
    assert_eq!(Key::UraMarkers.name(), "ura_markers");
    assert_eq!(Key::from_name("dora_marker"), Some(Key::DoraMarker));
    assert_eq!(Key::from_name("unknown"), None);
    assert_eq!(Kind::ReachAccepted.tag(), "reach_accepted");
    assert_eq!(Kind::from_tag("end_kyoku"), Some(Kind::EndKyoku));
    assert_eq!(Kind::from_tag("Pon"), None);
    let e = Event::StartGame { kyoku_first: 0, aka_flag: false, names: Default::default() };
    assert_eq!(encode(&e).entries[0].value, st("start_game"));
}

#[test]
fn decoded_meld_independent_of_text_order() {
    let mk = |texts: &[&str]| {
        rec(vec![
            (Key::Type, st("daiminkan")),
            (Key::Actor, Value::Int(0)),
            (Key::Target, Value::Int(2)),
            (Key::Pai, st("5s")),
            (Key::Consumed, strs(texts)),
        ])
    };
    let a = decode(&mk(&["5sr", "5s", "5s"])).unwrap();
    let b = decode(&mk(&["5s", "5s", "5sr"])).unwrap();
    assert_eq!(a, b);
    assert_eq!(encode(&a), encode(&b));
    assert_eq!(encode(&a).entries[4].value, strs(&["5s", "5s", "5sr"]));
    assert!(a.is_well_formed());
    let unsorted = Event::Chi { actor: 0, target: 3, pai: p("2m"), consumed: Consumed { pais: [p("3m"), p("1m")] } };
    assert!(!unsorted.is_well_formed());
    assert!(!Event::Tsumo { actor: 0, pai: Pai { id: 38 } }.is_well_formed());
}
