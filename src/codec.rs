//! Writing events as records and reading them back.
use vstd::prelude::*;
use crate::consumed::{Consumed, lemma_sorted_is_sort, pai_order};
use crate::event::{Event, EventView, deltas_view, names_view, opt_pais_view, tehais_view, tehais_wf};
use crate::pai::{
    Pai, all_pai_text, all_wf, array_texts, first_bad, format_pais, is_pai_text, lemma_pai_of_text,
    pai_of, pai_text, pais_of, pais_text, parse_pais,
};
use crate::wire::{Entry, Key, Kind, Record, Value, ValueView, lookup, tag_text};

verus! {

/// Why a record does not decode to an event.
#[derive(Clone, Copy, Debug, PartialEq, Eq, Hash, Structural)]
pub enum DecodeError {
    /// A required field is absent.
    MissingField(Key),
    /// A field holds a value of the wrong shape: another type, an integer out
    /// of range, or a list of the wrong length.
    WrongShape(Key),
    /// The `type` field names no kind of event.
    UnknownTag,
    /// The text at this position of the field names no tile (position 0 for a
    /// single tile; hands count row by row).
    BadTile(Key, usize),
}

pub open spec fn tag_entry(k: Kind) -> (Key, ValueView) {
    (Key::Type, ValueView::Str(tag_text(k)))
}

pub open spec fn pai_value(p: Pai) -> ValueView {
    ValueView::Str(pai_text(p.id))
}

pub open spec fn pais_value(s: Seq<Pai>) -> ValueView {
    ValueView::Strs(pais_text(s))
}

pub open spec fn ints_value(s: Seq<i32>) -> ValueView {
    ValueView::Ints(s.map_values(|x: i32| x as i64))
}

pub open spec fn rows_value(t: Seq<Seq<Pai>>) -> ValueView {
    ValueView::Rows(t.map_values(|row: Seq<Pai>| pais_text(row)))
}

pub open spec fn opt_ints_value(d: Option<Seq<i32>>) -> Option<ValueView> {
    match d {
        Some(d) => Some(ints_value(d)),
        None => None,
    }
}

pub open spec fn opt_pais_value(u: Option<Seq<Pai>>) -> Option<ValueView> {
    match u {
        Some(u) => Some(pais_value(u)),
        None => None,
    }
}

/// A field that is written only when present.
pub open spec fn opt_entry(k: Key, v: Option<ValueView>) -> Seq<(Key, ValueView)> {
    match v {
        Some(v) => seq![(k, v)],
        None => Seq::empty(),
    }
}

pub open spec fn dec_u8(r: Seq<(Key, ValueView)>, k: Key) -> Result<u8, DecodeError> {
    match lookup(r, k) {
        Some(ValueView::Int(n)) => if 0 <= n <= 255 {
            Ok(n as u8)
        } else {
            Err(DecodeError::WrongShape(k))
        },
        Some(_) => Err(DecodeError::WrongShape(k)),
        None => Err(DecodeError::MissingField(k)),
    }
}

pub open spec fn dec_bool(r: Seq<(Key, ValueView)>, k: Key) -> Result<bool, DecodeError> {
    match lookup(r, k) {
        Some(ValueView::Bool(b)) => Ok(b),
        Some(_) => Err(DecodeError::WrongShape(k)),
        None => Err(DecodeError::MissingField(k)),
    }
}

pub open spec fn dec_pai(r: Seq<(Key, ValueView)>, k: Key) -> Result<Pai, DecodeError> {
    match lookup(r, k) {
        Some(ValueView::Str(t)) => if is_pai_text(t) {
            Ok(pai_of(t))
        } else {
            Err(DecodeError::BadTile(k, 0))
        },
        Some(_) => Err(DecodeError::WrongShape(k)),
        None => Err(DecodeError::MissingField(k)),
    }
}

/// The tiles a list of texts names, or the first text that names none.
pub open spec fn dec_texts(k: Key, s: Seq<Seq<char>>) -> Result<Seq<Pai>, DecodeError> {
    if all_pai_text(s) {
        Ok(pais_of(s))
    } else {
        Err(DecodeError::BadTile(k, first_bad(s) as usize))
    }
}

/// A meld of `n` tiles, given in any order and sorted.
pub open spec fn dec_meld(r: Seq<(Key, ValueView)>, k: Key, n: nat) -> Result<Seq<Pai>, DecodeError> {
    match lookup(r, k) {
        Some(ValueView::Strs(s)) => if s.len() != n {
            Err(DecodeError::WrongShape(k))
        } else {
            match dec_texts(k, s) {
                Ok(p) => Ok(p.sort_by(pai_order())),
                Err(e) => Err(e),
            }
        },
        Some(_) => Err(DecodeError::WrongShape(k)),
        None => Err(DecodeError::MissingField(k)),
    }
}

pub open spec fn dec_names(r: Seq<(Key, ValueView)>, k: Key) -> Result<Seq<Seq<char>>, DecodeError> {
    match lookup(r, k) {
        Some(ValueView::Strs(s)) => if s.len() == 4 {
            Ok(s)
        } else {
            Err(DecodeError::WrongShape(k))
        },
        Some(_) => Err(DecodeError::WrongShape(k)),
        None => Err(DecodeError::MissingField(k)),
    }
}

/// Four integers that each fit in an `i32`.
pub open spec fn dec_i32s(k: Key, s: Seq<i64>) -> Result<Seq<i32>, DecodeError> {
    if s.len() == 4 && forall|i: int| 0 <= i < 4 ==> i32::MIN <= #[trigger] s[i] <= i32::MAX {
        Ok(s.map_values(|x: i64| x as i32))
    } else {
        Err(DecodeError::WrongShape(k))
    }
}

pub open spec fn dec_ints4(r: Seq<(Key, ValueView)>, k: Key) -> Result<Seq<i32>, DecodeError> {
    match lookup(r, k) {
        Some(ValueView::Ints(s)) => dec_i32s(k, s),
        Some(_) => Err(DecodeError::WrongShape(k)),
        None => Err(DecodeError::MissingField(k)),
    }
}

pub open spec fn dec_opt_ints4(r: Seq<(Key, ValueView)>, k: Key) -> Result<Option<Seq<i32>>, DecodeError> {
    match lookup(r, k) {
        Some(ValueView::Ints(s)) => match dec_i32s(k, s) {
            Ok(d) => Ok(Some(d)),
            Err(e) => Err(e),
        },
        Some(_) => Err(DecodeError::WrongShape(k)),
        None => Ok(None),
    }
}

pub open spec fn dec_opt_pais(r: Seq<(Key, ValueView)>, k: Key) -> Result<Option<Seq<Pai>>, DecodeError> {
    match lookup(r, k) {
        Some(ValueView::Strs(s)) => match dec_texts(k, s) {
            Ok(p) => Ok(Some(p)),
            Err(e) => Err(e),
        },
        Some(_) => Err(DecodeError::WrongShape(k)),
        None => Ok(None),
    }
}

/// Four rows of thirteen.
pub open spec fn rows_shape(rows: Seq<Seq<Seq<char>>>) -> bool {
    rows.len() == 4 && forall|i: int| 0 <= i < 4 ==> (#[trigger] rows[i]).len() == 13
}

/// The texts of four hands, row by row.
pub open spec fn flat_rows(rows: Seq<Seq<Seq<char>>>) -> Seq<Seq<char>> {
    Seq::new(52, |i: int| rows[i / 13][i % 13])
}

/// Fifty-two tiles cut into four hands.
pub open spec fn rows_of(p: Seq<Pai>) -> Seq<Seq<Pai>> {
    Seq::new(4, |i: int| p.subrange(13 * i, 13 * i + 13))
}

pub open spec fn dec_tehais(r: Seq<(Key, ValueView)>, k: Key) -> Result<Seq<Seq<Pai>>, DecodeError> {
    match lookup(r, k) {
        Some(ValueView::Rows(rows)) => if !rows_shape(rows) {
            Err(DecodeError::WrongShape(k))
        } else {
            match dec_texts(k, flat_rows(rows)) {
                Ok(p) => Ok(rows_of(p)),
                Err(e) => Err(e),
            }
        },
        Some(_) => Err(DecodeError::WrongShape(k)),
        None => Err(DecodeError::MissingField(k)),
    }
}

/// The kind a tag names, if any.
pub open spec fn kind_of_tag(t: Seq<char>) -> Option<Kind> {
    if exists|k: Kind| tag_text(k) == t {
        Some(choose|k: Kind| tag_text(k) == t)
    } else {
        None
    }
}

/// The event a record decodes to, or why it does not.
pub open spec fn event_of(r: Seq<(Key, ValueView)>) -> Result<EventView, DecodeError> {
    match lookup(r, Key::Type) {
        Some(ValueView::Str(t)) => match kind_of_tag(t) {
            Some(k) => decode_kind(r, k),
            None => Err(DecodeError::UnknownTag),
        },
        Some(_) => Err(DecodeError::WrongShape(Key::Type)),
        None => Err(DecodeError::MissingField(Key::Type)),
    }
}

/// The record an event is written as: the tag first, then the fields in
/// declaration order, leaving out an optional field that is absent.
pub open spec fn record_of(e: EventView) -> Seq<(Key, ValueView)> {
    match e {
        EventView::Nothing => seq![tag_entry(Kind::Nothing)],
        EventView::StartGame { kyoku_first, aka_flag, names } => seq![
            tag_entry(Kind::StartGame),
            (Key::KyokuFirst, ValueView::Int(kyoku_first as i64)),
            (Key::AkaFlag, ValueView::Bool(aka_flag)),
            (Key::Names, ValueView::Strs(names)),
        ],
        EventView::StartKyoku { bakaze, dora_marker, kyoku, honba, kyotaku, oya, scores, tehais } => seq![
            tag_entry(Kind::StartKyoku),
            (Key::Bakaze, pai_value(bakaze)),
            (Key::DoraMarker, pai_value(dora_marker)),
            (Key::Kyoku, ValueView::Int(kyoku as i64)),
            (Key::Honba, ValueView::Int(honba as i64)),
            (Key::Kyotaku, ValueView::Int(kyotaku as i64)),
            (Key::Oya, ValueView::Int(oya as i64)),
            (Key::Scores, ints_value(scores)),
            (Key::Tehais, rows_value(tehais)),
        ],
        EventView::Tsumo { actor, pai } => seq![
            tag_entry(Kind::Tsumo),
            (Key::Actor, ValueView::Int(actor as i64)),
            (Key::Pai, pai_value(pai)),
        ],
        EventView::Dahai { actor, pai, tsumogiri } => seq![
            tag_entry(Kind::Dahai),
            (Key::Actor, ValueView::Int(actor as i64)),
            (Key::Pai, pai_value(pai)),
            (Key::Tsumogiri, ValueView::Bool(tsumogiri)),
        ],
        EventView::Chi { actor, target, pai, consumed } => seq![
            tag_entry(Kind::Chi),
            (Key::Actor, ValueView::Int(actor as i64)),
            (Key::Target, ValueView::Int(target as i64)),
            (Key::Pai, pai_value(pai)),
            (Key::Consumed, pais_value(consumed)),
        ],
        EventView::Pon { actor, target, pai, consumed } => seq![
            tag_entry(Kind::Pon),
            (Key::Actor, ValueView::Int(actor as i64)),
            (Key::Target, ValueView::Int(target as i64)),
            (Key::Pai, pai_value(pai)),
            (Key::Consumed, pais_value(consumed)),
        ],
        EventView::Daiminkan { actor, target, pai, consumed } => seq![
            tag_entry(Kind::Daiminkan),
            (Key::Actor, ValueView::Int(actor as i64)),
            (Key::Target, ValueView::Int(target as i64)),
            (Key::Pai, pai_value(pai)),
            (Key::Consumed, pais_value(consumed)),
        ],
        EventView::Kakan { actor, pai, consumed } => seq![
            tag_entry(Kind::Kakan),
            (Key::Actor, ValueView::Int(actor as i64)),
            (Key::Pai, pai_value(pai)),
            (Key::Consumed, pais_value(consumed)),
        ],
        EventView::Ankan { actor, consumed } => seq![
            tag_entry(Kind::Ankan),
            (Key::Actor, ValueView::Int(actor as i64)),
            (Key::Consumed, pais_value(consumed)),
        ],
        EventView::Dora { dora_marker } => seq![
            tag_entry(Kind::Dora),
            (Key::DoraMarker, pai_value(dora_marker)),
        ],
        EventView::Reach { actor } => seq![
            tag_entry(Kind::Reach),
            (Key::Actor, ValueView::Int(actor as i64)),
        ],
        EventView::ReachAccepted { actor } => seq![
            tag_entry(Kind::ReachAccepted),
            (Key::Actor, ValueView::Int(actor as i64)),
        ],
        EventView::Hora { actor, target, deltas, ura_markers } => seq![
            tag_entry(Kind::Hora),
            (Key::Actor, ValueView::Int(actor as i64)),
            (Key::Target, ValueView::Int(target as i64)),
        ] + opt_entry(Key::Deltas, opt_ints_value(deltas))
            + opt_entry(Key::UraMarkers, opt_pais_value(ura_markers)),
        EventView::Ryukyoku { deltas } => seq![
            tag_entry(Kind::Ryukyoku),
        ] + opt_entry(Key::Deltas, opt_ints_value(deltas)),
        EventView::EndKyoku => seq![tag_entry(Kind::EndKyoku)],
        EventView::EndGame => seq![tag_entry(Kind::EndGame)],
    }
}

/// The event a record of the given kind decodes to: the fields are read in
/// declaration order and the first one that fails gives the error.
pub open spec fn decode_kind(r: Seq<(Key, ValueView)>, k: Kind) -> Result<EventView, DecodeError> {
    match k {
        Kind::Nothing => Ok(EventView::Nothing),
        Kind::StartGame => {
            let kyoku_first = dec_u8(r, Key::KyokuFirst);
            let aka_flag = dec_bool(r, Key::AkaFlag);
            let names = dec_names(r, Key::Names);
            if kyoku_first is Err {
                Err(kyoku_first->Err_0)
            } else if aka_flag is Err {
                Err(aka_flag->Err_0)
            } else if names is Err {
                Err(names->Err_0)
            } else {
                Ok(EventView::StartGame { kyoku_first: kyoku_first->Ok_0, aka_flag: aka_flag->Ok_0, names: names->Ok_0 })
            }
        },
        Kind::StartKyoku => {
            let bakaze = dec_pai(r, Key::Bakaze);
            let dora_marker = dec_pai(r, Key::DoraMarker);
            let kyoku = dec_u8(r, Key::Kyoku);
            let honba = dec_u8(r, Key::Honba);
            let kyotaku = dec_u8(r, Key::Kyotaku);
            let oya = dec_u8(r, Key::Oya);
            let scores = dec_ints4(r, Key::Scores);
            let tehais = dec_tehais(r, Key::Tehais);
            if bakaze is Err {
                Err(bakaze->Err_0)
            } else if dora_marker is Err {
                Err(dora_marker->Err_0)
            } else if kyoku is Err {
                Err(kyoku->Err_0)
            } else if honba is Err {
                Err(honba->Err_0)
            } else if kyotaku is Err {
                Err(kyotaku->Err_0)
            } else if oya is Err {
                Err(oya->Err_0)
            } else if scores is Err {
                Err(scores->Err_0)
            } else if tehais is Err {
                Err(tehais->Err_0)
            } else {
                Ok(EventView::StartKyoku { bakaze: bakaze->Ok_0, dora_marker: dora_marker->Ok_0, kyoku: kyoku->Ok_0, honba: honba->Ok_0, kyotaku: kyotaku->Ok_0, oya: oya->Ok_0, scores: scores->Ok_0, tehais: tehais->Ok_0 })
            }
        },
        Kind::Tsumo => {
            let actor = dec_u8(r, Key::Actor);
            let pai = dec_pai(r, Key::Pai);
            if actor is Err {
                Err(actor->Err_0)
            } else if pai is Err {
                Err(pai->Err_0)
            } else {
                Ok(EventView::Tsumo { actor: actor->Ok_0, pai: pai->Ok_0 })
            }
        },
        Kind::Dahai => {
            let actor = dec_u8(r, Key::Actor);
            let pai = dec_pai(r, Key::Pai);
            let tsumogiri = dec_bool(r, Key::Tsumogiri);
            if actor is Err {
                Err(actor->Err_0)
            } else if pai is Err {
                Err(pai->Err_0)
            } else if tsumogiri is Err {
                Err(tsumogiri->Err_0)
            } else {
                Ok(EventView::Dahai { actor: actor->Ok_0, pai: pai->Ok_0, tsumogiri: tsumogiri->Ok_0 })
            }
        },
        Kind::Chi => {
            let actor = dec_u8(r, Key::Actor);
            let target = dec_u8(r, Key::Target);
            let pai = dec_pai(r, Key::Pai);
            let consumed = dec_meld(r, Key::Consumed, 2);
            if actor is Err {
                Err(actor->Err_0)
            } else if target is Err {
                Err(target->Err_0)
            } else if pai is Err {
                Err(pai->Err_0)
            } else if consumed is Err {
                Err(consumed->Err_0)
            } else {
                Ok(EventView::Chi { actor: actor->Ok_0, target: target->Ok_0, pai: pai->Ok_0, consumed: consumed->Ok_0 })
            }
        },
        Kind::Pon => {
            let actor = dec_u8(r, Key::Actor);
            let target = dec_u8(r, Key::Target);
            let pai = dec_pai(r, Key::Pai);
            let consumed = dec_meld(r, Key::Consumed, 2);
            if actor is Err {
                Err(actor->Err_0)
            } else if target is Err {
                Err(target->Err_0)
            } else if pai is Err {
                Err(pai->Err_0)
            } else if consumed is Err {
                Err(consumed->Err_0)
            } else {
                Ok(EventView::Pon { actor: actor->Ok_0, target: target->Ok_0, pai: pai->Ok_0, consumed: consumed->Ok_0 })
            }
        },
        Kind::Daiminkan => {
            let actor = dec_u8(r, Key::Actor);
            let target = dec_u8(r, Key::Target);
            let pai = dec_pai(r, Key::Pai);
            let consumed = dec_meld(r, Key::Consumed, 3);
            if actor is Err {
                Err(actor->Err_0)
            } else if target is Err {
                Err(target->Err_0)
            } else if pai is Err {
                Err(pai->Err_0)
            } else if consumed is Err {
                Err(consumed->Err_0)
            } else {
                Ok(EventView::Daiminkan { actor: actor->Ok_0, target: target->Ok_0, pai: pai->Ok_0, consumed: consumed->Ok_0 })
            }
        },
        Kind::Kakan => {
            let actor = dec_u8(r, Key::Actor);
            let pai = dec_pai(r, Key::Pai);
            let consumed = dec_meld(r, Key::Consumed, 3);
            if actor is Err {
                Err(actor->Err_0)
            } else if pai is Err {
                Err(pai->Err_0)
            } else if consumed is Err {
                Err(consumed->Err_0)
            } else {
                Ok(EventView::Kakan { actor: actor->Ok_0, pai: pai->Ok_0, consumed: consumed->Ok_0 })
            }
        },
        Kind::Ankan => {
            let actor = dec_u8(r, Key::Actor);
            let consumed = dec_meld(r, Key::Consumed, 4);
            if actor is Err {
                Err(actor->Err_0)
            } else if consumed is Err {
                Err(consumed->Err_0)
            } else {
                Ok(EventView::Ankan { actor: actor->Ok_0, consumed: consumed->Ok_0 })
            }
        },
        Kind::Dora => {
            let dora_marker = dec_pai(r, Key::DoraMarker);
            if dora_marker is Err {
                Err(dora_marker->Err_0)
            } else {
                Ok(EventView::Dora { dora_marker: dora_marker->Ok_0 })
            }
        },
        Kind::Reach => {
            let actor = dec_u8(r, Key::Actor);
            if actor is Err {
                Err(actor->Err_0)
            } else {
                Ok(EventView::Reach { actor: actor->Ok_0 })
            }
        },
        Kind::ReachAccepted => {
            let actor = dec_u8(r, Key::Actor);
            if actor is Err {
                Err(actor->Err_0)
            } else {
                Ok(EventView::ReachAccepted { actor: actor->Ok_0 })
            }
        },
        Kind::Hora => {
            let actor = dec_u8(r, Key::Actor);
            let target = dec_u8(r, Key::Target);
            let deltas = dec_opt_ints4(r, Key::Deltas);
            let ura_markers = dec_opt_pais(r, Key::UraMarkers);
            if actor is Err {
                Err(actor->Err_0)
            } else if target is Err {
                Err(target->Err_0)
            } else if deltas is Err {
                Err(deltas->Err_0)
            } else if ura_markers is Err {
                Err(ura_markers->Err_0)
            } else {
                Ok(EventView::Hora { actor: actor->Ok_0, target: target->Ok_0, deltas: deltas->Ok_0, ura_markers: ura_markers->Ok_0 })
            }
        },
        Kind::Ryukyoku => {
            let deltas = dec_opt_ints4(r, Key::Deltas);
            if deltas is Err {
                Err(deltas->Err_0)
            } else {
                Ok(EventView::Ryukyoku { deltas: deltas->Ok_0 })
            }
        },
        Kind::EndKyoku => Ok(EventView::EndKyoku),
        Kind::EndGame => Ok(EventView::EndGame),
    }
}

fn tag_entry_exec(k: Kind) -> (r: Entry)
    ensures
        (r.key, r.value@) == tag_entry(k),
{
    Entry { key: Key::Type, value: Value::Str(String::from_str(k.tag())) }
}

fn pai_value_exec(p: Pai) -> (r: Value)
    requires
        p.wf(),
    ensures
        r@ == pai_value(p),
{
    Value::Str(p.to_text())
}

fn names_value_exec(names: &[String; 4]) -> (r: Value)
    ensures
        r@ == ValueView::Strs(names_view(*names)),
{
    let mut v: Vec<String> = Vec::new();
    let mut i: usize = 0;
    while i < 4
        invariant
            i <= 4,
            v@.len() == i,
            forall|k: int| 0 <= k < i ==> (#[trigger] v@[k])@ == names[k]@,
        decreases 4 - i,
    {
        v.push(names[i].clone());
        i += 1;
    }
    assert(v.deep_view() =~= names_view(*names));
    Value::Strs(v)
}

fn ints_value_exec(a: &[i32; 4]) -> (r: Value)
    ensures
        r@ == ints_value(a@),
{
    let mut v: Vec<i64> = Vec::new();
    let mut i: usize = 0;
    while i < 4
        invariant
            i <= 4,
            v@.len() == i,
            forall|k: int| 0 <= k < i ==> #[trigger] v@[k] == a@[k] as i64,
        decreases 4 - i,
    {
        v.push(a[i] as i64);
        i += 1;
    }
    assert(v@ =~= a@.map_values(|x: i32| x as i64));
    Value::Ints(v)
}

fn rows_value_exec(t: &[[Pai; 13]; 4]) -> (r: Value)
    requires
        tehais_wf(tehais_view(*t)),
    ensures
        r@ == rows_value(tehais_view(*t)),
{
    let mut v: Vec<Vec<String>> = Vec::new();
    let mut i: usize = 0;
    while i < 4
        invariant
            i <= 4,
            tehais_wf(tehais_view(*t)),
            v@.len() == i,
            forall|k: int| 0 <= k < i ==> (#[trigger] v@[k]).deep_view() == pais_text(t[k]@),
        decreases 4 - i,
    {
        assert(all_wf(tehais_view(*t)[i as int]));
        v.push(array_texts(&t[i]));
        i += 1;
    }
    assert(v.deep_view() =~= tehais_view(*t).map_values(|row: Seq<Pai>| pais_text(row)));
    Value::Rows(v)
}

/// Writes an event as a record: the tag first, then each field in
/// declaration order, leaving out an optional field that is absent.
#[verifier::spinoff_prover]
#[verifier::rlimit(100)]
pub fn encode(e: &Event) -> (r: Record)
    requires
        e.wf(),
    ensures
        r@ == record_of(e@),
{
    match e {
            Event::Nothing => {
                let mut entries: Vec<Entry> = Vec::new();
                entries.push(tag_entry_exec(Kind::Nothing));
                let r = Record { entries };
                assert(r@ =~= record_of(e@));
                r
            },
            Event::StartGame { kyoku_first, aka_flag, names } => {
                let mut entries: Vec<Entry> = Vec::new();
                entries.push(tag_entry_exec(Kind::StartGame));
                entries.push(Entry { key: Key::KyokuFirst, value: Value::Int(*kyoku_first as i64) });
                entries.push(Entry { key: Key::AkaFlag, value: Value::Bool(*aka_flag) });
                entries.push(Entry { key: Key::Names, value: names_value_exec(names) });
                let r = Record { entries };
                assert(r@ =~= record_of(e@));
                r
            },
            Event::StartKyoku { bakaze, dora_marker, kyoku, honba, kyotaku, oya, scores, tehais } => {
                let mut entries: Vec<Entry> = Vec::new();
                entries.push(tag_entry_exec(Kind::StartKyoku));
                entries.push(Entry { key: Key::Bakaze, value: pai_value_exec(*bakaze) });
                entries.push(Entry { key: Key::DoraMarker, value: pai_value_exec(*dora_marker) });
                entries.push(Entry { key: Key::Kyoku, value: Value::Int(*kyoku as i64) });
                entries.push(Entry { key: Key::Honba, value: Value::Int(*honba as i64) });
                entries.push(Entry { key: Key::Kyotaku, value: Value::Int(*kyotaku as i64) });
                entries.push(Entry { key: Key::Oya, value: Value::Int(*oya as i64) });
                entries.push(Entry { key: Key::Scores, value: ints_value_exec(scores) });
                entries.push(Entry { key: Key::Tehais, value: rows_value_exec(tehais) });
                let r = Record { entries };
                assert(r@ =~= record_of(e@));
                r
            },
            Event::Tsumo { actor, pai } => {
                let mut entries: Vec<Entry> = Vec::new();
                entries.push(tag_entry_exec(Kind::Tsumo));
                entries.push(Entry { key: Key::Actor, value: Value::Int(*actor as i64) });
                entries.push(Entry { key: Key::Pai, value: pai_value_exec(*pai) });
                let r = Record { entries };
                assert(r@ =~= record_of(e@));
                r
            },
            Event::Dahai { actor, pai, tsumogiri } => {
                let mut entries: Vec<Entry> = Vec::new();
                entries.push(tag_entry_exec(Kind::Dahai));
                entries.push(Entry { key: Key::Actor, value: Value::Int(*actor as i64) });
                entries.push(Entry { key: Key::Pai, value: pai_value_exec(*pai) });
                entries.push(Entry { key: Key::Tsumogiri, value: Value::Bool(*tsumogiri) });
                let r = Record { entries };
                assert(r@ =~= record_of(e@));
                r
            },
            Event::Chi { actor, target, pai, consumed } => {
                let mut entries: Vec<Entry> = Vec::new();
                entries.push(tag_entry_exec(Kind::Chi));
                entries.push(Entry { key: Key::Actor, value: Value::Int(*actor as i64) });
                entries.push(Entry { key: Key::Target, value: Value::Int(*target as i64) });
                entries.push(Entry { key: Key::Pai, value: pai_value_exec(*pai) });
                entries.push(Entry { key: Key::Consumed, value: Value::Strs(consumed.to_texts()) });
                let r = Record { entries };
                assert(r@ =~= record_of(e@));
                r
            },
            Event::Pon { actor, target, pai, consumed } => {
                let mut entries: Vec<Entry> = Vec::new();
                entries.push(tag_entry_exec(Kind::Pon));
                entries.push(Entry { key: Key::Actor, value: Value::Int(*actor as i64) });
                entries.push(Entry { key: Key::Target, value: Value::Int(*target as i64) });
                entries.push(Entry { key: Key::Pai, value: pai_value_exec(*pai) });
                entries.push(Entry { key: Key::Consumed, value: Value::Strs(consumed.to_texts()) });
                let r = Record { entries };
                assert(r@ =~= record_of(e@));
                r
            },
            Event::Daiminkan { actor, target, pai, consumed } => {
                let mut entries: Vec<Entry> = Vec::new();
                entries.push(tag_entry_exec(Kind::Daiminkan));
                entries.push(Entry { key: Key::Actor, value: Value::Int(*actor as i64) });
                entries.push(Entry { key: Key::Target, value: Value::Int(*target as i64) });
                entries.push(Entry { key: Key::Pai, value: pai_value_exec(*pai) });
                entries.push(Entry { key: Key::Consumed, value: Value::Strs(consumed.to_texts()) });
                let r = Record { entries };
                assert(r@ =~= record_of(e@));
                r
            },
            Event::Kakan { actor, pai, consumed } => {
                let mut entries: Vec<Entry> = Vec::new();
                entries.push(tag_entry_exec(Kind::Kakan));
                entries.push(Entry { key: Key::Actor, value: Value::Int(*actor as i64) });
                entries.push(Entry { key: Key::Pai, value: pai_value_exec(*pai) });
                entries.push(Entry { key: Key::Consumed, value: Value::Strs(consumed.to_texts()) });
                let r = Record { entries };
                assert(r@ =~= record_of(e@));
                r
            },
            Event::Ankan { actor, consumed } => {
                let mut entries: Vec<Entry> = Vec::new();
                entries.push(tag_entry_exec(Kind::Ankan));
                entries.push(Entry { key: Key::Actor, value: Value::Int(*actor as i64) });
                entries.push(Entry { key: Key::Consumed, value: Value::Strs(consumed.to_texts()) });
                let r = Record { entries };
                assert(r@ =~= record_of(e@));
                r
            },
            Event::Dora { dora_marker } => {
                let mut entries: Vec<Entry> = Vec::new();
                entries.push(tag_entry_exec(Kind::Dora));
                entries.push(Entry { key: Key::DoraMarker, value: pai_value_exec(*dora_marker) });
                let r = Record { entries };
                assert(r@ =~= record_of(e@));
                r
            },
            Event::Reach { actor } => {
                let mut entries: Vec<Entry> = Vec::new();
                entries.push(tag_entry_exec(Kind::Reach));
                entries.push(Entry { key: Key::Actor, value: Value::Int(*actor as i64) });
                let r = Record { entries };
                assert(r@ =~= record_of(e@));
                r
            },
            Event::ReachAccepted { actor } => {
                let mut entries: Vec<Entry> = Vec::new();
                entries.push(tag_entry_exec(Kind::ReachAccepted));
                entries.push(Entry { key: Key::Actor, value: Value::Int(*actor as i64) });
                let r = Record { entries };
                assert(r@ =~= record_of(e@));
                r
            },
            Event::Hora { actor, target, deltas, ura_markers } => {
                let mut entries: Vec<Entry> = Vec::new();
                entries.push(tag_entry_exec(Kind::Hora));
                entries.push(Entry { key: Key::Actor, value: Value::Int(*actor as i64) });
                entries.push(Entry { key: Key::Target, value: Value::Int(*target as i64) });
                if let Some(d) = deltas {
                    entries.push(Entry { key: Key::Deltas, value: ints_value_exec(d) });
                }
                if let Some(u) = ura_markers {
                    entries.push(Entry { key: Key::UraMarkers, value: Value::Strs(format_pais(u)) });
                }
                let r = Record { entries };
                assert(r@ =~= record_of(e@));
                r
            },
            Event::Ryukyoku { deltas } => {
                let mut entries: Vec<Entry> = Vec::new();
                entries.push(tag_entry_exec(Kind::Ryukyoku));
                if let Some(d) = deltas {
                    entries.push(Entry { key: Key::Deltas, value: ints_value_exec(d) });
                }
                let r = Record { entries };
                assert(r@ =~= record_of(e@));
                r
            },
            Event::EndKyoku => {
                let mut entries: Vec<Entry> = Vec::new();
                entries.push(tag_entry_exec(Kind::EndKyoku));
                let r = Record { entries };
                assert(r@ =~= record_of(e@));
                r
            },
            Event::EndGame => {
                let mut entries: Vec<Entry> = Vec::new();
                entries.push(tag_entry_exec(Kind::EndGame));
                let r = Record { entries };
                assert(r@ =~= record_of(e@));
                r
            },
    }
}


fn read_u8(rec: &Record, k: Key) -> (r: Result<u8, DecodeError>)
    ensures
        r == dec_u8(rec@, k),
{
    match rec.get(k) {
        Some(Value::Int(n)) => if 0 <= *n && *n <= 255 {
            Ok(*n as u8)
        } else {
            Err(DecodeError::WrongShape(k))
        },
        Some(_) => Err(DecodeError::WrongShape(k)),
        None => Err(DecodeError::MissingField(k)),
    }
}

fn read_bool(rec: &Record, k: Key) -> (r: Result<bool, DecodeError>)
    ensures
        r == dec_bool(rec@, k),
{
    match rec.get(k) {
        Some(Value::Bool(b)) => Ok(*b),
        Some(_) => Err(DecodeError::WrongShape(k)),
        None => Err(DecodeError::MissingField(k)),
    }
}

fn read_pai(rec: &Record, k: Key) -> (r: Result<Pai, DecodeError>)
    ensures
        r == dec_pai(rec@, k),
        r matches Ok(p) ==> p.wf(),
{
    match rec.get(k) {
        Some(Value::Str(s)) => match Pai::parse(s.as_str()) {
            Some(p) => {
                proof {
                    lemma_pai_of_text(p);
                }
                Ok(p)
            },
            None => Err(DecodeError::BadTile(k, 0)),
        },
        Some(_) => Err(DecodeError::WrongShape(k)),
        None => Err(DecodeError::MissingField(k)),
    }
}

fn read_texts(texts: &Vec<String>, k: Key) -> (r: Result<Vec<Pai>, DecodeError>)
    ensures
        match r {
            Ok(v) => dec_texts(k, texts.deep_view()) == Ok::<Seq<Pai>, DecodeError>(v@) && all_wf(v@),
            Err(e) => dec_texts(k, texts.deep_view()) == Err::<Seq<Pai>, DecodeError>(e),
        },
{
    match parse_pais(texts) {
        Ok(v) => Ok(v),
        Err(i) => Err(DecodeError::BadTile(k, i)),
    }
}

fn read_meld<const N: usize>(rec: &Record, k: Key) -> (r: Result<Consumed<N>, DecodeError>)
    ensures
        match r {
            Ok(c) => dec_meld(rec@, k, N as nat) == Ok::<Seq<Pai>, DecodeError>(c.pais@) && c.wf(),
            Err(e) => dec_meld(rec@, k, N as nat) == Err::<Seq<Pai>, DecodeError>(e),
        },
{
    match rec.get(k) {
        Some(Value::Strs(v)) => if v.len() != N {
            Err(DecodeError::WrongShape(k))
        } else {
            match Consumed::<N>::from_texts(v) {
                Ok(c) => {
                    proof {
                        lemma_sorted_is_sort(c.pais@, pais_of(v.deep_view()));
                    }
                    Ok(c)
                },
                Err(i) => Err(DecodeError::BadTile(k, i)),
            }
        },
        Some(_) => Err(DecodeError::WrongShape(k)),
        None => Err(DecodeError::MissingField(k)),
    }
}

fn read_names(rec: &Record, k: Key) -> (r: Result<[String; 4], DecodeError>)
    ensures
        match r {
            Ok(a) => dec_names(rec@, k) == Ok::<Seq<Seq<char>>, DecodeError>(names_view(a)),
            Err(e) => dec_names(rec@, k) == Err::<Seq<Seq<char>>, DecodeError>(e),
        },
{
    match rec.get(k) {
        Some(Value::Strs(v)) => if v.len() == 4 {
            let a = [v[0].clone(), v[1].clone(), v[2].clone(), v[3].clone()];
            assert(names_view(a) =~= v.deep_view());
            Ok(a)
        } else {
            Err(DecodeError::WrongShape(k))
        },
        Some(_) => Err(DecodeError::WrongShape(k)),
        None => Err(DecodeError::MissingField(k)),
    }
}

fn read_i32s(v: &Vec<i64>, k: Key) -> (r: Result<[i32; 4], DecodeError>)
    ensures
        match r {
            Ok(a) => dec_i32s(k, v@) == Ok::<Seq<i32>, DecodeError>(a@),
            Err(e) => dec_i32s(k, v@) == Err::<Seq<i32>, DecodeError>(e),
        },
{
    if v.len() != 4 {
        return Err(DecodeError::WrongShape(k));
    }
    let mut i: usize = 0;
    while i < 4
        invariant
            i <= 4,
            v@.len() == 4,
            forall|j: int| 0 <= j < i ==> i32::MIN <= #[trigger] v@[j] <= i32::MAX,
        decreases 4 - i,
    {
        if v[i] < i32::MIN as i64 || v[i] > i32::MAX as i64 {
            return Err(DecodeError::WrongShape(k));
        }
        i += 1;
    }
    let a = [v[0] as i32, v[1] as i32, v[2] as i32, v[3] as i32];
    assert(a@ =~= v@.map_values(|x: i64| x as i32));
    Ok(a)
}

fn read_ints4(rec: &Record, k: Key) -> (r: Result<[i32; 4], DecodeError>)
    ensures
        match r {
            Ok(a) => dec_ints4(rec@, k) == Ok::<Seq<i32>, DecodeError>(a@),
            Err(e) => dec_ints4(rec@, k) == Err::<Seq<i32>, DecodeError>(e),
        },
{
    match rec.get(k) {
        Some(Value::Ints(v)) => read_i32s(v, k),
        Some(_) => Err(DecodeError::WrongShape(k)),
        None => Err(DecodeError::MissingField(k)),
    }
}

fn read_opt_ints4(rec: &Record, k: Key) -> (r: Result<Option<[i32; 4]>, DecodeError>)
    ensures
        match r {
            Ok(d) => dec_opt_ints4(rec@, k) == Ok::<Option<Seq<i32>>, DecodeError>(deltas_view(d)),
            Err(e) => dec_opt_ints4(rec@, k) == Err::<Option<Seq<i32>>, DecodeError>(e),
        },
{
    match rec.get(k) {
        Some(Value::Ints(v)) => match read_i32s(v, k) {
            Ok(a) => Ok(Some(a)),
            Err(e) => Err(e),
        },
        Some(_) => Err(DecodeError::WrongShape(k)),
        None => Ok(None),
    }
}

fn read_opt_pais(rec: &Record, k: Key) -> (r: Result<Option<Vec<Pai>>, DecodeError>)
    ensures
        match r {
            Ok(u) => dec_opt_pais(rec@, k) == Ok::<Option<Seq<Pai>>, DecodeError>(opt_pais_view(u))
                && (u matches Some(u) ==> all_wf(u@)),
            Err(e) => dec_opt_pais(rec@, k) == Err::<Option<Seq<Pai>>, DecodeError>(e),
        },
{
    match rec.get(k) {
        Some(Value::Strs(v)) => match read_texts(v, k) {
            Ok(p) => Ok(Some(p)),
            Err(e) => Err(e),
        },
        Some(_) => Err(DecodeError::WrongShape(k)),
        None => Ok(None),
    }
}

#[verifier::loop_isolation(false)]
fn read_tehais(rec: &Record, k: Key) -> (r: Result<[[Pai; 13]; 4], DecodeError>)
    ensures
        match r {
            Ok(t) => dec_tehais(rec@, k) == Ok::<Seq<Seq<Pai>>, DecodeError>(tehais_view(t))
                && tehais_wf(tehais_view(t)),
            Err(e) => dec_tehais(rec@, k) == Err::<Seq<Seq<Pai>>, DecodeError>(e),
        },
{
    let rows = match rec.get(k) {
        Some(Value::Rows(rows)) => rows,
        Some(_) => return Err(DecodeError::WrongShape(k)),
        None => return Err(DecodeError::MissingField(k)),
    };
    if rows.len() != 4 {
        return Err(DecodeError::WrongShape(k));
    }
    let mut i: usize = 0;
    while i < 4
        invariant
            i <= 4,
            rows@.len() == 4,
            forall|j: int| 0 <= j < i ==> (#[trigger] rows@[j])@.len() == 13,
        decreases 4 - i,
    {
        if rows[i].len() != 13 {
            assert(rows.deep_view()[i as int].len() == rows@[i as int]@.len());
            assert(!rows_shape(rows.deep_view()));
            return Err(DecodeError::WrongShape(k));
        }
        i += 1;
    }
    let ghost rv = rows.deep_view();
    assert forall|j: int| 0 <= j < 4 implies (#[trigger] rv[j]).len() == 13 by {
        assert(rv[j].len() == rows@[j]@.len());
    }
    assert(rows_shape(rv));
    let mut flat: Vec<String> = Vec::new();
    let mut r: usize = 0;
    while r < 4
        invariant
            r <= 4,
            rv == rows.deep_view(),
            rows_shape(rv),
            flat@.len() == 13 * r,
            forall|j: int| 0 <= j < 13 * r ==> (#[trigger] flat@[j])@ == rv[j / 13][j % 13],
        decreases 4 - r,
    {
        let mut c: usize = 0;
        while c < 13
            invariant
                r < 4,
                c <= 13,
                rv == rows.deep_view(),
                rows_shape(rv),
                flat@.len() == 13 * r + c,
                forall|j: int| 0 <= j < 13 * r + c ==> (#[trigger] flat@[j])@ == rv[j / 13][j % 13],
            decreases 13 - c,
        {
            assert(rv[r as int].len() == 13);
            assert(rv[r as int] == rows@[r as int].deep_view());
            assert(rows@[r as int]@.len() == 13);
            flat.push(rows[r][c].clone());
            assert(flat@[13 * r + c]@ == rv[r as int][c as int]);
            c += 1;
        }
        r += 1;
    }
    assert(flat.deep_view() =~= flat_rows(rv));
    let v = match read_texts(&flat, k) {
        Ok(v) => v,
        Err(e) => return Err(e),
    };
    let mut t: [[Pai; 13]; 4] = [[Pai { id: 0 }; 13]; 4];
    let mut r: usize = 0;
    while r < 4
        invariant
            r <= 4,
            v@.len() == 52,
            forall|j: int, c: int| 0 <= j < r && 0 <= c < 13 ==> (#[trigger] t[j]@[c]) == v@[13 * j + c],
        decreases 4 - r,
    {
        let mut row: [Pai; 13] = [Pai { id: 0 }; 13];
        let mut c: usize = 0;
        while c < 13
            invariant
                r < 4,
                c <= 13,
                v@.len() == 52,
                forall|x: int| 0 <= x < c ==> (#[trigger] row@[x]) == v@[13 * r + x],
            decreases 13 - c,
        {
            row[c] = v[13 * r + c];
            c += 1;
        }
        t[r] = row;
        r += 1;
    }
    proof {
        assert forall|j: int| 0 <= j < 4 implies #[trigger] tehais_view(t)[j] == rows_of(v@)[j] by {
            assert(tehais_view(t)[j] =~= rows_of(v@)[j]);
        }
        assert(tehais_view(t) =~= rows_of(v@));
        assert forall|j: int| 0 <= j < 4 implies (#[trigger] tehais_view(t)[j]).len() == 13
            && all_wf(tehais_view(t)[j]) by {
            assert forall|c: int| 0 <= c < tehais_view(t)[j].len() implies #[trigger] tehais_view(t)[j][c].wf() by {
                assert(tehais_view(t)[j][c] == v@[13 * j + c]);
            }
        }
    }
    Ok(t)
}

/// Reads an event from a record: the `type` field picks the kind, then each
/// field of that kind is read in declaration order, and the first that is
/// missing, of the wrong shape or not a tile gives the error.
pub fn decode(rec: &Record) -> (r: Result<Event, DecodeError>)
    ensures
        match r {
            Ok(e) => event_of(rec@) == Ok::<EventView, DecodeError>(e@) && e.wf(),
            Err(x) => event_of(rec@) == Err::<EventView, DecodeError>(x),
        },
{
    let kind = match rec.get(Key::Type) {
        Some(Value::Str(t)) => match Kind::from_tag(t.as_str()) {
            Some(k) => {
                proof {
                    let c = choose|c: Kind| tag_text(c) == t@;
                    crate::wire::lemma_tag_injective(c, k);
                }
                k
            },
            None => return Err(DecodeError::UnknownTag),
        },
        Some(_) => return Err(DecodeError::WrongShape(Key::Type)),
        None => return Err(DecodeError::MissingField(Key::Type)),
    };
    assert(event_of(rec@) == decode_kind(rec@, kind));
    match kind {
            Kind::Nothing => {
                Ok(Event::Nothing)
            },
            Kind::StartGame => {
                let kyoku_first = match read_u8(rec, Key::KyokuFirst) {
                    Ok(v) => v,
                    Err(e) => return Err(e),
                };
                let aka_flag = match read_bool(rec, Key::AkaFlag) {
                    Ok(v) => v,
                    Err(e) => return Err(e),
                };
                let names = match read_names(rec, Key::Names) {
                    Ok(v) => v,
                    Err(e) => return Err(e),
                };
                Ok(Event::StartGame { kyoku_first, aka_flag, names })
            },
            Kind::StartKyoku => {
                let bakaze = match read_pai(rec, Key::Bakaze) {
                    Ok(v) => v,
                    Err(e) => return Err(e),
                };
                let dora_marker = match read_pai(rec, Key::DoraMarker) {
                    Ok(v) => v,
                    Err(e) => return Err(e),
                };
                let kyoku = match read_u8(rec, Key::Kyoku) {
                    Ok(v) => v,
                    Err(e) => return Err(e),
                };
                let honba = match read_u8(rec, Key::Honba) {
                    Ok(v) => v,
                    Err(e) => return Err(e),
                };
                let kyotaku = match read_u8(rec, Key::Kyotaku) {
                    Ok(v) => v,
                    Err(e) => return Err(e),
                };
                let oya = match read_u8(rec, Key::Oya) {
                    Ok(v) => v,
                    Err(e) => return Err(e),
                };
                let scores = match read_ints4(rec, Key::Scores) {
                    Ok(v) => v,
                    Err(e) => return Err(e),
                };
                let tehais = match read_tehais(rec, Key::Tehais) {
                    Ok(v) => v,
                    Err(e) => return Err(e),
                };
                Ok(Event::StartKyoku { bakaze, dora_marker, kyoku, honba, kyotaku, oya, scores, tehais })
            },
            Kind::Tsumo => {
                let actor = match read_u8(rec, Key::Actor) {
                    Ok(v) => v,
                    Err(e) => return Err(e),
                };
                let pai = match read_pai(rec, Key::Pai) {
                    Ok(v) => v,
                    Err(e) => return Err(e),
                };
                Ok(Event::Tsumo { actor, pai })
            },
            Kind::Dahai => {
                let actor = match read_u8(rec, Key::Actor) {
                    Ok(v) => v,
                    Err(e) => return Err(e),
                };
                let pai = match read_pai(rec, Key::Pai) {
                    Ok(v) => v,
                    Err(e) => return Err(e),
                };
                let tsumogiri = match read_bool(rec, Key::Tsumogiri) {
                    Ok(v) => v,
                    Err(e) => return Err(e),
                };
                Ok(Event::Dahai { actor, pai, tsumogiri })
            },
            Kind::Chi => {
                let actor = match read_u8(rec, Key::Actor) {
                    Ok(v) => v,
                    Err(e) => return Err(e),
                };
                let target = match read_u8(rec, Key::Target) {
                    Ok(v) => v,
                    Err(e) => return Err(e),
                };
                let pai = match read_pai(rec, Key::Pai) {
                    Ok(v) => v,
                    Err(e) => return Err(e),
                };
                let consumed = match read_meld::<2>(rec, Key::Consumed) {
                    Ok(v) => v,
                    Err(e) => return Err(e),
                };
                Ok(Event::Chi { actor, target, pai, consumed })
            },
            Kind::Pon => {
                let actor = match read_u8(rec, Key::Actor) {
                    Ok(v) => v,
                    Err(e) => return Err(e),
                };
                let target = match read_u8(rec, Key::Target) {
                    Ok(v) => v,
                    Err(e) => return Err(e),
                };
                let pai = match read_pai(rec, Key::Pai) {
                    Ok(v) => v,
                    Err(e) => return Err(e),
                };
                let consumed = match read_meld::<2>(rec, Key::Consumed) {
                    Ok(v) => v,
                    Err(e) => return Err(e),
                };
                Ok(Event::Pon { actor, target, pai, consumed })
            },
            Kind::Daiminkan => {
                let actor = match read_u8(rec, Key::Actor) {
                    Ok(v) => v,
                    Err(e) => return Err(e),
                };
                let target = match read_u8(rec, Key::Target) {
                    Ok(v) => v,
                    Err(e) => return Err(e),
                };
                let pai = match read_pai(rec, Key::Pai) {
                    Ok(v) => v,
                    Err(e) => return Err(e),
                };
                let consumed = match read_meld::<3>(rec, Key::Consumed) {
                    Ok(v) => v,
                    Err(e) => return Err(e),
                };
                Ok(Event::Daiminkan { actor, target, pai, consumed })
            },
            Kind::Kakan => {
                let actor = match read_u8(rec, Key::Actor) {
                    Ok(v) => v,
                    Err(e) => return Err(e),
                };
                let pai = match read_pai(rec, Key::Pai) {
                    Ok(v) => v,
                    Err(e) => return Err(e),
                };
                let consumed = match read_meld::<3>(rec, Key::Consumed) {
                    Ok(v) => v,
                    Err(e) => return Err(e),
                };
                Ok(Event::Kakan { actor, pai, consumed })
            },
            Kind::Ankan => {
                let actor = match read_u8(rec, Key::Actor) {
                    Ok(v) => v,
                    Err(e) => return Err(e),
                };
                let consumed = match read_meld::<4>(rec, Key::Consumed) {
                    Ok(v) => v,
                    Err(e) => return Err(e),
                };
                Ok(Event::Ankan { actor, consumed })
            },
            Kind::Dora => {
                let dora_marker = match read_pai(rec, Key::DoraMarker) {
                    Ok(v) => v,
                    Err(e) => return Err(e),
                };
                Ok(Event::Dora { dora_marker })
            },
            Kind::Reach => {
                let actor = match read_u8(rec, Key::Actor) {
                    Ok(v) => v,
                    Err(e) => return Err(e),
                };
                Ok(Event::Reach { actor })
            },
            Kind::ReachAccepted => {
                let actor = match read_u8(rec, Key::Actor) {
                    Ok(v) => v,
                    Err(e) => return Err(e),
                };
                Ok(Event::ReachAccepted { actor })
            },
            Kind::Hora => {
                let actor = match read_u8(rec, Key::Actor) {
                    Ok(v) => v,
                    Err(e) => return Err(e),
                };
                let target = match read_u8(rec, Key::Target) {
                    Ok(v) => v,
                    Err(e) => return Err(e),
                };
                let deltas = match read_opt_ints4(rec, Key::Deltas) {
                    Ok(v) => v,
                    Err(e) => return Err(e),
                };
                let ura_markers = match read_opt_pais(rec, Key::UraMarkers) {
                    Ok(v) => v,
                    Err(e) => return Err(e),
                };
                Ok(Event::Hora { actor, target, deltas, ura_markers })
            },
            Kind::Ryukyoku => {
                let deltas = match read_opt_ints4(rec, Key::Deltas) {
                    Ok(v) => v,
                    Err(e) => return Err(e),
                };
                Ok(Event::Ryukyoku { deltas })
            },
            Kind::EndKyoku => {
                Ok(Event::EndKyoku)
            },
            Kind::EndGame => {
                Ok(Event::EndGame)
            },
    }
}

proof fn lemma_kind_of_tag(k: Kind)
    ensures
        kind_of_tag(tag_text(k)) == Some(k),
{
    assert(tag_text(k) == tag_text(k));
    let c = choose|c: Kind| tag_text(c) == tag_text(k);
    crate::wire::lemma_tag_injective(c, k);
}

proof fn lemma_dec_pai_text(p: Pai)
    requires
        p.wf(),
    ensures
        is_pai_text(pai_text(p.id)),
        pai_of(pai_text(p.id)) == p,
{
    lemma_pai_of_text(p);
}

proof fn lemma_dec_texts(k: Key, s: Seq<Pai>)
    requires
        all_wf(s),
    ensures
        dec_texts(k, pais_text(s)) == Ok::<Seq<Pai>, DecodeError>(s),
{
    let t = pais_text(s);
    assert forall|i: int| 0 <= i < t.len() implies is_pai_text(#[trigger] t[i]) by {
        lemma_dec_pai_text(s[i]);
    }
    assert forall|i: int| 0 <= i < s.len() implies #[trigger] pais_of(t)[i] == s[i] by {
        lemma_dec_pai_text(s[i]);
    }
    assert(pais_of(t) =~= s);
}

proof fn lemma_dec_meld(k: Key, s: Seq<Pai>)
    requires
        sorted_pais_and_wf(s),
    ensures
        dec_texts(k, pais_text(s)) == Ok::<Seq<Pai>, DecodeError>(s),
        s.sort_by(pai_order()) == s,
{
    lemma_dec_texts(k, s);
    lemma_sorted_is_sort(s, s);
}

spec fn sorted_pais_and_wf(s: Seq<Pai>) -> bool {
    crate::consumed::sorted_pais(s) && all_wf(s)
}

proof fn lemma_dec_i32s(k: Key, s: Seq<i32>)
    requires
        s.len() == 4,
    ensures
        dec_i32s(k, s.map_values(|x: i32| x as i64)) == Ok::<Seq<i32>, DecodeError>(s),
{
    let w = s.map_values(|x: i32| x as i64);
    assert(w.map_values(|x: i64| x as i32) =~= s);
}

proof fn lemma_dec_rows(k: Key, t: Seq<Seq<Pai>>)
    requires
        tehais_wf(t),
    ensures
        rows_shape(t.map_values(|row: Seq<Pai>| pais_text(row))),
        dec_texts(k, flat_rows(t.map_values(|row: Seq<Pai>| pais_text(row))))
            == Ok::<Seq<Pai>, DecodeError>(Seq::new(52, |i: int| t[i / 13][i % 13])),
        rows_of(Seq::new(52, |i: int| t[i / 13][i % 13])) == t,
{
    let rows = t.map_values(|row: Seq<Pai>| pais_text(row));
    let flat = Seq::new(52, |i: int| t[i / 13][i % 13]);
    assert forall|i: int| 0 <= i < 4 implies (#[trigger] rows[i]).len() == 13 by {
        assert(t[i].len() == 13);
    }
    assert forall|i: int| 0 <= i < 52 implies #[trigger] flat[i].wf() by {
        assert(all_wf(t[i / 13]));
        assert(t[i / 13].len() == 13);
    }
    assert(pais_text(flat) =~= flat_rows(rows));
    lemma_dec_texts(k, flat);
    assert forall|i: int| 0 <= i < 4 implies #[trigger] rows_of(flat)[i] == t[i] by {
        assert(t[i].len() == 13);
        assert(rows_of(flat)[i] =~= t[i]);
    }
    assert(rows_of(flat) =~= t);
}

/// Decoding the record that a well-formed event is written as gives that
/// event back, tiles, melds and optional fields included.
#[verifier::rlimit(100)]
#[verifier::spinoff_prover]
pub proof fn lemma_round_trip(e: EventView)
    requires
        e.wf(),
    ensures
        event_of(record_of(e)) == Ok::<EventView, DecodeError>(e),
{
    reveal_with_fuel(crate::wire::lookup_from, 10);
    match e {
        EventView::Nothing => lemma_kind_of_tag(Kind::Nothing),
        EventView::StartGame { .. } => lemma_kind_of_tag(Kind::StartGame),
        EventView::StartKyoku { bakaze, dora_marker, scores, tehais, .. } => {
            lemma_kind_of_tag(Kind::StartKyoku);
            lemma_dec_pai_text(bakaze);
            lemma_dec_pai_text(dora_marker);
            lemma_dec_i32s(Key::Scores, scores);
            lemma_dec_rows(Key::Tehais, tehais);
        },
        EventView::Tsumo { pai, .. } => {
            lemma_kind_of_tag(Kind::Tsumo);
            lemma_dec_pai_text(pai);
        },
        EventView::Dahai { pai, .. } => {
            lemma_kind_of_tag(Kind::Dahai);
            lemma_dec_pai_text(pai);
        },
        EventView::Chi { pai, consumed, .. } => {
            lemma_kind_of_tag(Kind::Chi);
            lemma_dec_pai_text(pai);
            lemma_dec_meld(Key::Consumed, consumed);
        },
        EventView::Pon { pai, consumed, .. } => {
            lemma_kind_of_tag(Kind::Pon);
            lemma_dec_pai_text(pai);
            lemma_dec_meld(Key::Consumed, consumed);
        },
        EventView::Daiminkan { pai, consumed, .. } => {
            lemma_kind_of_tag(Kind::Daiminkan);
            lemma_dec_pai_text(pai);
            lemma_dec_meld(Key::Consumed, consumed);
        },
        EventView::Kakan { pai, consumed, .. } => {
            lemma_kind_of_tag(Kind::Kakan);
            lemma_dec_pai_text(pai);
            lemma_dec_meld(Key::Consumed, consumed);
        },
        EventView::Ankan { consumed, .. } => {
            lemma_kind_of_tag(Kind::Ankan);
            lemma_dec_meld(Key::Consumed, consumed);
        },
        EventView::Dora { dora_marker } => {
            lemma_kind_of_tag(Kind::Dora);
            lemma_dec_pai_text(dora_marker);
        },
        EventView::Reach { .. } => lemma_kind_of_tag(Kind::Reach),
        EventView::ReachAccepted { .. } => lemma_kind_of_tag(Kind::ReachAccepted),
        EventView::Hora { deltas, ura_markers, .. } => {
            lemma_kind_of_tag(Kind::Hora);
            if let Some(d) = deltas {
                lemma_dec_i32s(Key::Deltas, d);
            }
            if let Some(u) = ura_markers {
                lemma_dec_texts(Key::UraMarkers, u);
            }
        },
        EventView::Ryukyoku { deltas } => {
            lemma_kind_of_tag(Kind::Ryukyoku);
            if let Some(d) = deltas {
                lemma_dec_i32s(Key::Deltas, d);
            }
        },
        EventView::EndKyoku => lemma_kind_of_tag(Kind::EndKyoku),
        EventView::EndGame => lemma_kind_of_tag(Kind::EndGame),
    }
}

/// A hora without deltas or ura markers is written without those fields.
pub proof fn lemma_absent_optionals_omitted(actor: u8, target: u8)
    ensures
        lookup(record_of(EventView::Hora { actor, target, deltas: None, ura_markers: None }), Key::Deltas) is None,
        lookup(record_of(EventView::Hora { actor, target, deltas: None, ura_markers: None }), Key::UraMarkers) is None,
{
    reveal_with_fuel(crate::wire::lookup_from, 4);
}

/// A hora record without deltas or ura markers reads back with neither.
pub proof fn lemma_absent_optionals_read_none(r: Seq<(Key, ValueView)>, e: EventView)
    requires
        lookup(r, Key::Deltas) is None,
        lookup(r, Key::UraMarkers) is None,
        event_of(r) == Ok::<EventView, DecodeError>(e),
    ensures
        match e {
            EventView::Hora { deltas, ura_markers, .. } => deltas is None && ura_markers is None,
            _ => true,
        },
{
}

/// A record whose tag names no kind of event is refused as such.
pub proof fn lemma_unknown_tag(r: Seq<(Key, ValueView)>, t: Seq<char>)
    requires
        lookup(r, Key::Type) == Some(ValueView::Str(t)),
        forall|k: Kind| tag_text(k) != t,
    ensures
        event_of(r) == Err::<EventView, DecodeError>(DecodeError::UnknownTag),
{
}

/// A tsumo record with a valid actor whose tile text names no tile is
/// refused with an error on the tile field.
pub proof fn lemma_tsumo_bad_tile(r: Seq<(Key, ValueView)>, actor: i64, t: Seq<char>)
    requires
        lookup(r, Key::Type) == Some(ValueView::Str(tag_text(Kind::Tsumo))),
        lookup(r, Key::Actor) == Some(ValueView::Int(actor)),
        0 <= actor <= 255,
        lookup(r, Key::Pai) == Some(ValueView::Str(t)),
        !is_pai_text(t),
    ensures
        event_of(r) == Err::<EventView, DecodeError>(DecodeError::BadTile(Key::Pai, 0)),
{
    lemma_kind_of_tag(Kind::Tsumo);
}

} // verus!
