//! Match events and the facts derived from them.
use vstd::prelude::*;
use crate::consumed::{Consumed, Consumed2, Consumed3, Consumed4, sorted_pais};
use crate::pai::{PAI_COUNT, ord_key};
use crate::pai::{Pai, all_wf};

verus! {

/// One event of a match log.
#[derive(Clone, Debug, PartialEq, Eq)]
pub enum Event {
    Nothing,
    StartGame { kyoku_first: u8, aka_flag: bool, names: [String; 4] },
    StartKyoku {
        bakaze: Pai,
        dora_marker: Pai,
        /// Counts from 1.
        kyoku: u8,
        honba: u8,
        kyotaku: u8,
        oya: u8,
        scores: [i32; 4],
        tehais: [[Pai; 13]; 4],
    },
    Tsumo { actor: u8, pai: Pai },
    Dahai { actor: u8, pai: Pai, tsumogiri: bool },
    Chi { actor: u8, target: u8, pai: Pai, consumed: Consumed2 },
    Pon { actor: u8, target: u8, pai: Pai, consumed: Consumed2 },
    Daiminkan { actor: u8, target: u8, pai: Pai, consumed: Consumed3 },
    Kakan { actor: u8, pai: Pai, consumed: Consumed3 },
    Ankan { actor: u8, consumed: Consumed4 },
    Dora { dora_marker: Pai },
    Reach { actor: u8 },
    ReachAccepted { actor: u8 },
    Hora { actor: u8, target: u8, deltas: Option<[i32; 4]>, ura_markers: Option<Vec<Pai>> },
    Ryukyoku { deltas: Option<[i32; 4]> },
    EndKyoku,
    EndGame,
}

/// An event as a mathematical value: names are character sequences and the
/// ura markers a sequence of tiles.
pub enum EventView {
    Nothing,
    StartGame { kyoku_first: u8, aka_flag: bool, names: Seq<Seq<char>> },
    StartKyoku {
        bakaze: Pai,
        dora_marker: Pai,
        kyoku: u8,
        honba: u8,
        kyotaku: u8,
        oya: u8,
        scores: Seq<i32>,
        tehais: Seq<Seq<Pai>>,
    },
    Tsumo { actor: u8, pai: Pai },
    Dahai { actor: u8, pai: Pai, tsumogiri: bool },
    Chi { actor: u8, target: u8, pai: Pai, consumed: Seq<Pai> },
    Pon { actor: u8, target: u8, pai: Pai, consumed: Seq<Pai> },
    Daiminkan { actor: u8, target: u8, pai: Pai, consumed: Seq<Pai> },
    Kakan { actor: u8, pai: Pai, consumed: Seq<Pai> },
    Ankan { actor: u8, consumed: Seq<Pai> },
    Dora { dora_marker: Pai },
    Reach { actor: u8 },
    ReachAccepted { actor: u8 },
    Hora { actor: u8, target: u8, deltas: Option<Seq<i32>>, ura_markers: Option<Seq<Pai>> },
    Ryukyoku { deltas: Option<Seq<i32>> },
    EndKyoku,
    EndGame,
}

pub open spec fn names_view(names: [String; 4]) -> Seq<Seq<char>> {
    Seq::new(4, |i: int| names[i]@)
}

pub open spec fn tehais_view(t: [[Pai; 13]; 4]) -> Seq<Seq<Pai>> {
    Seq::new(4, |i: int| t[i]@)
}

pub open spec fn deltas_view(d: Option<[i32; 4]>) -> Option<Seq<i32>> {
    match d {
        Some(d) => Some(d@),
        None => None,
    }
}

pub open spec fn opt_pais_view(v: Option<Vec<Pai>>) -> Option<Seq<Pai>> {
    match v {
        Some(v) => Some(v@),
        None => None,
    }
}

/// Four hands of thirteen tiles that all exist.
pub open spec fn tehais_wf(t: Seq<Seq<Pai>>) -> bool {
    t.len() == 4 && forall|i: int| 0 <= i < 4 ==> (#[trigger] t[i]).len() == 13 && all_wf(t[i])
}

/// A meld of `n` tiles that exist, in canonical order.
pub open spec fn meld_wf(c: Seq<Pai>, n: nat) -> bool {
    c.len() == n && sorted_pais(c) && all_wf(c)
}

impl View for Event {
    type V = EventView;

    open spec fn view(&self) -> EventView {
        match *self {
            Event::Nothing => EventView::Nothing,
            Event::StartGame { kyoku_first, aka_flag, names } => EventView::StartGame {
                kyoku_first,
                aka_flag,
                names: names_view(names),
            },
            Event::StartKyoku { bakaze, dora_marker, kyoku, honba, kyotaku, oya, scores, tehais } =>
                EventView::StartKyoku {
                    bakaze,
                    dora_marker,
                    kyoku,
                    honba,
                    kyotaku,
                    oya,
                    scores: scores@,
                    tehais: tehais_view(tehais),
                },
            Event::Tsumo { actor, pai } => EventView::Tsumo { actor, pai },
            Event::Dahai { actor, pai, tsumogiri } => EventView::Dahai { actor, pai, tsumogiri },
            Event::Chi { actor, target, pai, consumed } => EventView::Chi { actor, target, pai, consumed: consumed.pais@ },
            Event::Pon { actor, target, pai, consumed } => EventView::Pon { actor, target, pai, consumed: consumed.pais@ },
            Event::Daiminkan { actor, target, pai, consumed } =>
                EventView::Daiminkan { actor, target, pai, consumed: consumed.pais@ },
            Event::Kakan { actor, pai, consumed } => EventView::Kakan { actor, pai, consumed: consumed.pais@ },
            Event::Ankan { actor, consumed } => EventView::Ankan { actor, consumed: consumed.pais@ },
            Event::Dora { dora_marker } => EventView::Dora { dora_marker },
            Event::Reach { actor } => EventView::Reach { actor },
            Event::ReachAccepted { actor } => EventView::ReachAccepted { actor },
            Event::Hora { actor, target, deltas, ura_markers } => EventView::Hora {
                actor,
                target,
                deltas: deltas_view(deltas),
                ura_markers: opt_pais_view(ura_markers),
            },
            Event::Ryukyoku { deltas } => EventView::Ryukyoku { deltas: deltas_view(deltas) },
            Event::EndKyoku => EventView::EndKyoku,
            Event::EndGame => EventView::EndGame,
        }
    }
}

pub open spec fn deltas_wf(d: Option<Seq<i32>>) -> bool {
    match d {
        Some(d) => d.len() == 4,
        None => true,
    }
}

impl EventView {
    /// Every tile exists and every meld is in canonical order.
    pub open spec fn wf(self) -> bool {
        match self {
            EventView::StartGame { names, .. } => names.len() == 4,
            EventView::StartKyoku { bakaze, dora_marker, scores, tehais, .. } =>
                bakaze.wf() && dora_marker.wf() && scores.len() == 4 && tehais_wf(tehais),
            EventView::Tsumo { pai, .. } => pai.wf(),
            EventView::Dahai { pai, .. } => pai.wf(),
            EventView::Chi { pai, consumed, .. } => pai.wf() && meld_wf(consumed, 2),
            EventView::Pon { pai, consumed, .. } => pai.wf() && meld_wf(consumed, 2),
            EventView::Daiminkan { pai, consumed, .. } => pai.wf() && meld_wf(consumed, 3),
            EventView::Kakan { pai, consumed, .. } => pai.wf() && meld_wf(consumed, 3),
            EventView::Ankan { consumed, .. } => meld_wf(consumed, 4),
            EventView::Dora { dora_marker } => dora_marker.wf(),
            EventView::Hora { deltas, ura_markers, .. } => deltas_wf(deltas) && match ura_markers {
                Some(u) => all_wf(u),
                None => true,
            },
            EventView::Ryukyoku { deltas } => deltas_wf(deltas),
            _ => true,
        }
    }

    /// The seat that acts in this event, for the kinds that have one.
    pub open spec fn actor(self) -> Option<u8> {
        match self {
            EventView::Tsumo { actor, .. } => Some(actor),
            EventView::Dahai { actor, .. } => Some(actor),
            EventView::Chi { actor, .. } => Some(actor),
            EventView::Pon { actor, .. } => Some(actor),
            EventView::Daiminkan { actor, .. } => Some(actor),
            EventView::Kakan { actor, .. } => Some(actor),
            EventView::Ankan { actor, .. } => Some(actor),
            EventView::Reach { actor } => Some(actor),
            EventView::ReachAccepted { actor } => Some(actor),
            EventView::Hora { actor, .. } => Some(actor),
            _ => None,
        }
    }

    /// The seat called from and the tile called, for chi, pon and daiminkan.
    pub open spec fn naki_info(self) -> Option<(u8, Pai)> {
        match self {
            EventView::Chi { target, pai, .. } => Some((target, pai)),
            EventView::Pon { target, pai, .. } => Some((target, pai)),
            EventView::Daiminkan { target, pai, .. } => Some((target, pai)),
            _ => None,
        }
    }

    /// The priority of a call: 0 for chi, 1 for pon, -1 for everything else.
    pub open spec fn naki_to_ord(self) -> int {
        match self {
            EventView::Chi { .. } => 0,
            EventView::Pon { .. } => 1,
            _ => -1,
        }
    }
}

impl Event {
    pub open spec fn wf(&self) -> bool {
        self@.wf()
    }

    /// The seat that acts in this event: set for tsumo, dahai, the calls,
    /// reach, reach_accepted and hora (never the hora's target).
    pub fn actor(&self) -> (r: Option<u8>)
        ensures
            r == self@.actor(),
    {
        match self {
            Event::Tsumo { actor, .. } => Some(*actor),
            Event::Dahai { actor, .. } => Some(*actor),
            Event::Chi { actor, .. } => Some(*actor),
            Event::Pon { actor, .. } => Some(*actor),
            Event::Daiminkan { actor, .. } => Some(*actor),
            Event::Kakan { actor, .. } => Some(*actor),
            Event::Ankan { actor, .. } => Some(*actor),
            Event::Reach { actor } => Some(*actor),
            Event::ReachAccepted { actor } => Some(*actor),
            Event::Hora { actor, .. } => Some(*actor),
            _ => None,
        }
    }

    /// The seat a tile was called from and that tile, for chi, pon and
    /// daiminkan.
    pub fn naki_info(&self) -> (r: Option<(u8, Pai)>)
        ensures
            r == self@.naki_info(),
    {
        match self {
            Event::Chi { target, pai, .. } => Some((*target, *pai)),
            Event::Pon { target, pai, .. } => Some((*target, *pai)),
            Event::Daiminkan { target, pai, .. } => Some((*target, *pai)),
            _ => None,
        }
    }

    /// The priority of a call: 0 for chi, 1 for pon, and -1 for every other
    /// kind, daiminkan included.
    pub fn naki_to_ord(&self) -> (r: isize)
        ensures
            r as int == self@.naki_to_ord(),
    {
        match self {
            Event::Chi { .. } => 0,
            Event::Pon { .. } => 1,
            _ => -1,
        }
    }
}

fn array_wf<const N: usize>(a: &[Pai; N]) -> (r: bool)
    ensures
        r == all_wf(a@),
{
    let mut i: usize = 0;
    while i < N
        invariant
            i <= N,
            a@.len() == N,
            forall|k: int| 0 <= k < i ==> (#[trigger] a@[k]).wf(),
        decreases N - i,
    {
        if a[i].id >= PAI_COUNT {
            assert(!a@[i as int].wf());
            return false;
        }
        i += 1;
    }
    true
}

fn vec_wf(v: &Vec<Pai>) -> (r: bool)
    ensures
        r == all_wf(v@),
{
    let mut i: usize = 0;
    while i < v.len()
        invariant
            i <= v@.len(),
            forall|k: int| 0 <= k < i ==> (#[trigger] v@[k]).wf(),
        decreases v@.len() - i,
    {
        if v[i].id >= PAI_COUNT {
            assert(!v@[i as int].wf());
            return false;
        }
        i += 1;
    }
    true
}

fn meld_ok<const N: usize>(c: &Consumed<N>) -> (r: bool)
    ensures
        r == meld_wf(c.pais@, N as nat),
{
    let mut i: usize = 0;
    while i < N
        invariant
            i <= N,
            c.pais@.len() == N,
            forall|x: int, y: int| 0 <= x < y < N && x < i ==> ord_key(#[trigger] c.pais@[x].id) <= ord_key(#[trigger] c.pais@[y].id),
        decreases N - i,
    {
        let mut j: usize = i + 1;
        while j < N
            invariant
                i < j <= N,
                c.pais@.len() == N,
                forall|x: int, y: int| 0 <= x < y < N && x < i ==> ord_key(#[trigger] c.pais@[x].id) <= ord_key(#[trigger] c.pais@[y].id),
                forall|y: int| i < y < j ==> ord_key(c.pais@[i as int].id) <= ord_key(#[trigger] c.pais@[y].id),
            decreases N - j,
        {
            if c.pais[i].as_ord() > c.pais[j].as_ord() {
                assert(!(ord_key(c.pais@[i as int].id) <= ord_key(c.pais@[j as int].id)));
                assert(!sorted_pais(c.pais@)) by {
                    assert(0 <= i < j < c.pais@.len());
                }
                return false;
            }
            j += 1;
        }
        i += 1;
    }
    array_wf(&c.pais)
}

impl Event {
    /// Whether every tile exists and every meld is in canonical order: what
    /// writing an event asks of it.
    pub fn is_well_formed(&self) -> (r: bool)
        ensures
            r == self.wf(),
    {
        match self {
            Event::StartKyoku { bakaze, dora_marker, tehais, .. } => {
                let mut ok = bakaze.id < PAI_COUNT && dora_marker.id < PAI_COUNT;
                let mut i: usize = 0;
                while i < 4
                    invariant
                        i <= 4,
                        ok == (bakaze.wf() && dora_marker.wf() && forall|k: int| 0 <= k < i ==> all_wf(#[trigger] tehais_view(*tehais)[k])),
                    decreases 4 - i,
                {
                    let row_ok = array_wf(&tehais[i]);
                    proof {
                        assert(tehais_view(*tehais)[i as int] == tehais[i as int]@);
                    }
                    ok = ok && row_ok;
                    i += 1;
                }
                ok
            },
            Event::Tsumo { pai, .. } => pai.id < PAI_COUNT,
            Event::Dahai { pai, .. } => pai.id < PAI_COUNT,
            Event::Chi { pai, consumed, .. } => pai.id < PAI_COUNT && meld_ok(consumed),
            Event::Pon { pai, consumed, .. } => pai.id < PAI_COUNT && meld_ok(consumed),
            Event::Daiminkan { pai, consumed, .. } => pai.id < PAI_COUNT && meld_ok(consumed),
            Event::Kakan { pai, consumed, .. } => pai.id < PAI_COUNT && meld_ok(consumed),
            Event::Ankan { consumed, .. } => meld_ok(consumed),
            Event::Dora { dora_marker } => dora_marker.id < PAI_COUNT,
            Event::Hora { ura_markers, .. } => match ura_markers {
                Some(u) => vec_wf(u),
                None => true,
            },
            _ => true,
        }
    }
}

} // verus!
