//! The wire form of an event: a keyed record whose values are integers,
//! booleans, strings and lists of them.
use vstd::prelude::*;

verus! {

/// The field names a record can carry.
#[derive(Clone, Copy, Debug, PartialEq, Eq, Hash, Structural)]
pub enum Key {
    Type,
    Actor,
    Target,
    Pai,
    Consumed,
    Tsumogiri,
    KyokuFirst,
    AkaFlag,
    Names,
    Bakaze,
    DoraMarker,
    Kyoku,
    Honba,
    Kyotaku,
    Oya,
    Scores,
    Tehais,
    Deltas,
    UraMarkers,
}

/// The text of a field name.
pub open spec fn key_text(k: Key) -> Seq<char> {
    match k {
        Key::Type => seq!['t', 'y', 'p', 'e'],
        Key::Actor => seq!['a', 'c', 't', 'o', 'r'],
        Key::Target => seq!['t', 'a', 'r', 'g', 'e', 't'],
        Key::Pai => seq!['p', 'a', 'i'],
        Key::Consumed => seq!['c', 'o', 'n', 's', 'u', 'm', 'e', 'd'],
        Key::Tsumogiri => seq!['t', 's', 'u', 'm', 'o', 'g', 'i', 'r', 'i'],
        Key::KyokuFirst => seq!['k', 'y', 'o', 'k', 'u', '_', 'f', 'i', 'r', 's', 't'],
        Key::AkaFlag => seq!['a', 'k', 'a', '_', 'f', 'l', 'a', 'g'],
        Key::Names => seq!['n', 'a', 'm', 'e', 's'],
        Key::Bakaze => seq!['b', 'a', 'k', 'a', 'z', 'e'],
        Key::DoraMarker => seq!['d', 'o', 'r', 'a', '_', 'm', 'a', 'r', 'k', 'e', 'r'],
        Key::Kyoku => seq!['k', 'y', 'o', 'k', 'u'],
        Key::Honba => seq!['h', 'o', 'n', 'b', 'a'],
        Key::Kyotaku => seq!['k', 'y', 'o', 't', 'a', 'k', 'u'],
        Key::Oya => seq!['o', 'y', 'a'],
        Key::Scores => seq!['s', 'c', 'o', 'r', 'e', 's'],
        Key::Tehais => seq!['t', 'e', 'h', 'a', 'i', 's'],
        Key::Deltas => seq!['d', 'e', 'l', 't', 'a', 's'],
        Key::UraMarkers => seq!['u', 'r', 'a', '_', 'm', 'a', 'r', 'k', 'e', 'r', 's'],
    }
}

/// The kinds of event, named on the wire by the `type` field.
#[derive(Clone, Copy, Debug, PartialEq, Eq, Hash, Structural)]
pub enum Kind {
    Nothing,
    StartGame,
    StartKyoku,
    Tsumo,
    Dahai,
    Chi,
    Pon,
    Daiminkan,
    Kakan,
    Ankan,
    Dora,
    Reach,
    ReachAccepted,
    Hora,
    Ryukyoku,
    EndKyoku,
    EndGame,
}

/// The tag that names a kind of event.
pub open spec fn tag_text(k: Kind) -> Seq<char> {
    match k {
        Kind::Nothing => seq!['n', 'o', 'n', 'e'],
        Kind::StartGame => seq!['s', 't', 'a', 'r', 't', '_', 'g', 'a', 'm', 'e'],
        Kind::StartKyoku => seq!['s', 't', 'a', 'r', 't', '_', 'k', 'y', 'o', 'k', 'u'],
        Kind::Tsumo => seq!['t', 's', 'u', 'm', 'o'],
        Kind::Dahai => seq!['d', 'a', 'h', 'a', 'i'],
        Kind::Chi => seq!['c', 'h', 'i'],
        Kind::Pon => seq!['p', 'o', 'n'],
        Kind::Daiminkan => seq!['d', 'a', 'i', 'm', 'i', 'n', 'k', 'a', 'n'],
        Kind::Kakan => seq!['k', 'a', 'k', 'a', 'n'],
        Kind::Ankan => seq!['a', 'n', 'k', 'a', 'n'],
        Kind::Dora => seq!['d', 'o', 'r', 'a'],
        Kind::Reach => seq!['r', 'e', 'a', 'c', 'h'],
        Kind::ReachAccepted => seq!['r', 'e', 'a', 'c', 'h', '_', 'a', 'c', 'c', 'e', 'p', 't', 'e', 'd'],
        Kind::Hora => seq!['h', 'o', 'r', 'a'],
        Kind::Ryukyoku => seq!['r', 'y', 'u', 'k', 'y', 'o', 'k', 'u'],
        Kind::EndKyoku => seq!['e', 'n', 'd', '_', 'k', 'y', 'o', 'k', 'u'],
        Kind::EndGame => seq!['e', 'n', 'd', '_', 'g', 'a', 'm', 'e'],
    }
}

/// The length and first letter of each tag: no two kinds share both.
spec fn tag_sig(k: Kind) -> (int, char) {
    match k {
        Kind::Nothing => (4, 'n'),
        Kind::StartGame => (10, 's'),
        Kind::StartKyoku => (11, 's'),
        Kind::Tsumo => (5, 't'),
        Kind::Dahai => (5, 'd'),
        Kind::Chi => (3, 'c'),
        Kind::Pon => (3, 'p'),
        Kind::Daiminkan => (9, 'd'),
        Kind::Kakan => (5, 'k'),
        Kind::Ankan => (5, 'a'),
        Kind::Dora => (4, 'd'),
        Kind::Reach => (5, 'r'),
        Kind::ReachAccepted => (14, 'r'),
        Kind::Hora => (4, 'h'),
        Kind::Ryukyoku => (8, 'r'),
        Kind::EndKyoku => (9, 'e'),
        Kind::EndGame => (8, 'e'),
    }
}

proof fn lemma_tag_sig(k: Kind)
    ensures
        tag_text(k).len() == tag_sig(k).0,
        tag_text(k)[0] == tag_sig(k).1,
{
    match k {
        Kind::Nothing => assert(tag_text(k) == seq!['n', 'o', 'n', 'e']),
        Kind::StartGame => assert(tag_text(k) == seq!['s', 't', 'a', 'r', 't', '_', 'g', 'a', 'm', 'e']),
        Kind::StartKyoku => assert(tag_text(k) == seq!['s', 't', 'a', 'r', 't', '_', 'k', 'y', 'o', 'k', 'u']),
        Kind::Tsumo => assert(tag_text(k) == seq!['t', 's', 'u', 'm', 'o']),
        Kind::Dahai => assert(tag_text(k) == seq!['d', 'a', 'h', 'a', 'i']),
        Kind::Chi => assert(tag_text(k) == seq!['c', 'h', 'i']),
        Kind::Pon => assert(tag_text(k) == seq!['p', 'o', 'n']),
        Kind::Daiminkan => assert(tag_text(k) == seq!['d', 'a', 'i', 'm', 'i', 'n', 'k', 'a', 'n']),
        Kind::Kakan => assert(tag_text(k) == seq!['k', 'a', 'k', 'a', 'n']),
        Kind::Ankan => assert(tag_text(k) == seq!['a', 'n', 'k', 'a', 'n']),
        Kind::Dora => assert(tag_text(k) == seq!['d', 'o', 'r', 'a']),
        Kind::Reach => assert(tag_text(k) == seq!['r', 'e', 'a', 'c', 'h']),
        Kind::ReachAccepted => assert(tag_text(k) == seq!['r', 'e', 'a', 'c', 'h', '_', 'a', 'c', 'c', 'e', 'p', 't', 'e', 'd']),
        Kind::Hora => assert(tag_text(k) == seq!['h', 'o', 'r', 'a']),
        Kind::Ryukyoku => assert(tag_text(k) == seq!['r', 'y', 'u', 'k', 'y', 'o', 'k', 'u']),
        Kind::EndKyoku => assert(tag_text(k) == seq!['e', 'n', 'd', '_', 'k', 'y', 'o', 'k', 'u']),
        Kind::EndGame => assert(tag_text(k) == seq!['e', 'n', 'd', '_', 'g', 'a', 'm', 'e']),
    }
}

/// Distinct kinds have distinct tags.
pub proof fn lemma_tag_injective(a: Kind, b: Kind)
    requires
        tag_text(a) == tag_text(b),
    ensures
        a == b,
{
    lemma_tag_sig(a);
    lemma_tag_sig(b);
    assert(tag_sig(a) == tag_sig(b));
}

/// Whether two strings hold the same characters.
fn str_eq(a: &str, b: &str) -> (r: bool)
    ensures
        r == (a@ == b@),
{
    String::from_str(a) == String::from_str(b)
}

impl Key {
    /// The field name as it stands in a record.
    pub fn name(self) -> (r: &'static str)
        ensures
            r@ == key_text(self),
    {
        match self {
            Key::Type => {
                proof {
                    reveal_strlit("type");
                }
                assert("type"@ =~= seq!['t', 'y', 'p', 'e']);
                "type"
            },
            Key::Actor => {
                proof {
                    reveal_strlit("actor");
                }
                assert("actor"@ =~= seq!['a', 'c', 't', 'o', 'r']);
                "actor"
            },
            Key::Target => {
                proof {
                    reveal_strlit("target");
                }
                assert("target"@ =~= seq!['t', 'a', 'r', 'g', 'e', 't']);
                "target"
            },
            Key::Pai => {
                proof {
                    reveal_strlit("pai");
                }
                assert("pai"@ =~= seq!['p', 'a', 'i']);
                "pai"
            },
            Key::Consumed => {
                proof {
                    reveal_strlit("consumed");
                }
                assert("consumed"@ =~= seq!['c', 'o', 'n', 's', 'u', 'm', 'e', 'd']);
                "consumed"
            },
            Key::Tsumogiri => {
                proof {
                    reveal_strlit("tsumogiri");
                }
                assert("tsumogiri"@ =~= seq!['t', 's', 'u', 'm', 'o', 'g', 'i', 'r', 'i']);
                "tsumogiri"
            },
            Key::KyokuFirst => {
                proof {
                    reveal_strlit("kyoku_first");
                }
                assert("kyoku_first"@ =~= seq!['k', 'y', 'o', 'k', 'u', '_', 'f', 'i', 'r', 's', 't']);
                "kyoku_first"
            },
            Key::AkaFlag => {
                proof {
                    reveal_strlit("aka_flag");
                }
                assert("aka_flag"@ =~= seq!['a', 'k', 'a', '_', 'f', 'l', 'a', 'g']);
                "aka_flag"
            },
            Key::Names => {
                proof {
                    reveal_strlit("names");
                }
                assert("names"@ =~= seq!['n', 'a', 'm', 'e', 's']);
                "names"
            },
            Key::Bakaze => {
                proof {
                    reveal_strlit("bakaze");
                }
                assert("bakaze"@ =~= seq!['b', 'a', 'k', 'a', 'z', 'e']);
                "bakaze"
            },
            Key::DoraMarker => {
                proof {
                    reveal_strlit("dora_marker");
                }
                assert("dora_marker"@ =~= seq!['d', 'o', 'r', 'a', '_', 'm', 'a', 'r', 'k', 'e', 'r']);
                "dora_marker"
            },
            Key::Kyoku => {
                proof {
                    reveal_strlit("kyoku");
                }
                assert("kyoku"@ =~= seq!['k', 'y', 'o', 'k', 'u']);
                "kyoku"
            },
            Key::Honba => {
                proof {
                    reveal_strlit("honba");
                }
                assert("honba"@ =~= seq!['h', 'o', 'n', 'b', 'a']);
                "honba"
            },
            Key::Kyotaku => {
                proof {
                    reveal_strlit("kyotaku");
                }
                assert("kyotaku"@ =~= seq!['k', 'y', 'o', 't', 'a', 'k', 'u']);
                "kyotaku"
            },
            Key::Oya => {
                proof {
                    reveal_strlit("oya");
                }
                assert("oya"@ =~= seq!['o', 'y', 'a']);
                "oya"
            },
            Key::Scores => {
                proof {
                    reveal_strlit("scores");
                }
                assert("scores"@ =~= seq!['s', 'c', 'o', 'r', 'e', 's']);
                "scores"
            },
            Key::Tehais => {
                proof {
                    reveal_strlit("tehais");
                }
                assert("tehais"@ =~= seq!['t', 'e', 'h', 'a', 'i', 's']);
                "tehais"
            },
            Key::Deltas => {
                proof {
                    reveal_strlit("deltas");
                }
                assert("deltas"@ =~= seq!['d', 'e', 'l', 't', 'a', 's']);
                "deltas"
            },
            Key::UraMarkers => {
                proof {
                    reveal_strlit("ura_markers");
                }
                assert("ura_markers"@ =~= seq!['u', 'r', 'a', '_', 'm', 'a', 'r', 'k', 'e', 'r', 's']);
                "ura_markers"
            },
        }
    }

    /// The key with the given field name, if any.
    pub fn from_name(s: &str) -> (r: Option<Key>)
        ensures
            r matches Some(k) ==> key_text(k) == s@,
            r is None ==> forall|k: Key| key_text(k) != s@,
    {
        if str_eq(s, Key::Type.name()) {
            Some(Key::Type)
        } else if str_eq(s, Key::Actor.name()) {
            Some(Key::Actor)
        } else if str_eq(s, Key::Target.name()) {
            Some(Key::Target)
        } else if str_eq(s, Key::Pai.name()) {
            Some(Key::Pai)
        } else if str_eq(s, Key::Consumed.name()) {
            Some(Key::Consumed)
        } else if str_eq(s, Key::Tsumogiri.name()) {
            Some(Key::Tsumogiri)
        } else if str_eq(s, Key::KyokuFirst.name()) {
            Some(Key::KyokuFirst)
        } else if str_eq(s, Key::AkaFlag.name()) {
            Some(Key::AkaFlag)
        } else if str_eq(s, Key::Names.name()) {
            Some(Key::Names)
        } else if str_eq(s, Key::Bakaze.name()) {
            Some(Key::Bakaze)
        } else if str_eq(s, Key::DoraMarker.name()) {
            Some(Key::DoraMarker)
        } else if str_eq(s, Key::Kyoku.name()) {
            Some(Key::Kyoku)
        } else if str_eq(s, Key::Honba.name()) {
            Some(Key::Honba)
        } else if str_eq(s, Key::Kyotaku.name()) {
            Some(Key::Kyotaku)
        } else if str_eq(s, Key::Oya.name()) {
            Some(Key::Oya)
        } else if str_eq(s, Key::Scores.name()) {
            Some(Key::Scores)
        } else if str_eq(s, Key::Tehais.name()) {
            Some(Key::Tehais)
        } else if str_eq(s, Key::Deltas.name()) {
            Some(Key::Deltas)
        } else if str_eq(s, Key::UraMarkers.name()) {
            Some(Key::UraMarkers)
        } else {
            proof {
                assert forall|k: Key| key_text(k) != s@ by {
                    match k {
                        Key::Type => {},
                        Key::Actor => {},
                        Key::Target => {},
                        Key::Pai => {},
                        Key::Consumed => {},
                        Key::Tsumogiri => {},
                        Key::KyokuFirst => {},
                        Key::AkaFlag => {},
                        Key::Names => {},
                        Key::Bakaze => {},
                        Key::DoraMarker => {},
                        Key::Kyoku => {},
                        Key::Honba => {},
                        Key::Kyotaku => {},
                        Key::Oya => {},
                        Key::Scores => {},
                        Key::Tehais => {},
                        Key::Deltas => {},
                        Key::UraMarkers => {},
                    }
                }
            }
            None
        }
    }
}

impl Kind {
    /// The tag of this kind.
    pub fn tag(self) -> (r: &'static str)
        ensures
            r@ == tag_text(self),
    {
        match self {
            Kind::Nothing => {
                proof {
                    reveal_strlit("none");
                }
                assert("none"@ =~= seq!['n', 'o', 'n', 'e']);
                "none"
            },
            Kind::StartGame => {
                proof {
                    reveal_strlit("start_game");
                }
                assert("start_game"@ =~= seq!['s', 't', 'a', 'r', 't', '_', 'g', 'a', 'm', 'e']);
                "start_game"
            },
            Kind::StartKyoku => {
                proof {
                    reveal_strlit("start_kyoku");
                }
                assert("start_kyoku"@ =~= seq!['s', 't', 'a', 'r', 't', '_', 'k', 'y', 'o', 'k', 'u']);
                "start_kyoku"
            },
            Kind::Tsumo => {
                proof {
                    reveal_strlit("tsumo");
                }
                assert("tsumo"@ =~= seq!['t', 's', 'u', 'm', 'o']);
                "tsumo"
            },
            Kind::Dahai => {
                proof {
                    reveal_strlit("dahai");
                }
                assert("dahai"@ =~= seq!['d', 'a', 'h', 'a', 'i']);
                "dahai"
            },
            Kind::Chi => {
                proof {
                    reveal_strlit("chi");
                }
                assert("chi"@ =~= seq!['c', 'h', 'i']);
                "chi"
            },
            Kind::Pon => {
                proof {
                    reveal_strlit("pon");
                }
                assert("pon"@ =~= seq!['p', 'o', 'n']);
                "pon"
            },
            Kind::Daiminkan => {
                proof {
                    reveal_strlit("daiminkan");
                }
                assert("daiminkan"@ =~= seq!['d', 'a', 'i', 'm', 'i', 'n', 'k', 'a', 'n']);
                "daiminkan"
            },
            Kind::Kakan => {
                proof {
                    reveal_strlit("kakan");
                }
                assert("kakan"@ =~= seq!['k', 'a', 'k', 'a', 'n']);
                "kakan"
            },
            Kind::Ankan => {
                proof {
                    reveal_strlit("ankan");
                }
                assert("ankan"@ =~= seq!['a', 'n', 'k', 'a', 'n']);
                "ankan"
            },
            Kind::Dora => {
                proof {
                    reveal_strlit("dora");
                }
                assert("dora"@ =~= seq!['d', 'o', 'r', 'a']);
                "dora"
            },
            Kind::Reach => {
                proof {
                    reveal_strlit("reach");
                }
                assert("reach"@ =~= seq!['r', 'e', 'a', 'c', 'h']);
                "reach"
            },
            Kind::ReachAccepted => {
                proof {
                    reveal_strlit("reach_accepted");
                }
                assert("reach_accepted"@ =~= seq!['r', 'e', 'a', 'c', 'h', '_', 'a', 'c', 'c', 'e', 'p', 't', 'e', 'd']);
                "reach_accepted"
            },
            Kind::Hora => {
                proof {
                    reveal_strlit("hora");
                }
                assert("hora"@ =~= seq!['h', 'o', 'r', 'a']);
                "hora"
            },
            Kind::Ryukyoku => {
                proof {
                    reveal_strlit("ryukyoku");
                }
                assert("ryukyoku"@ =~= seq!['r', 'y', 'u', 'k', 'y', 'o', 'k', 'u']);
                "ryukyoku"
            },
            Kind::EndKyoku => {
                proof {
                    reveal_strlit("end_kyoku");
                }
                assert("end_kyoku"@ =~= seq!['e', 'n', 'd', '_', 'k', 'y', 'o', 'k', 'u']);
                "end_kyoku"
            },
            Kind::EndGame => {
                proof {
                    reveal_strlit("end_game");
                }
                assert("end_game"@ =~= seq!['e', 'n', 'd', '_', 'g', 'a', 'm', 'e']);
                "end_game"
            },
        }
    }

    /// The kind with the given tag, if any.
    pub fn from_tag(s: &str) -> (r: Option<Kind>)
        ensures
            r matches Some(k) ==> tag_text(k) == s@,
            r is None ==> forall|k: Kind| tag_text(k) != s@,
    {
        if str_eq(s, Kind::Nothing.tag()) {
            Some(Kind::Nothing)
        } else if str_eq(s, Kind::StartGame.tag()) {
            Some(Kind::StartGame)
        } else if str_eq(s, Kind::StartKyoku.tag()) {
            Some(Kind::StartKyoku)
        } else if str_eq(s, Kind::Tsumo.tag()) {
            Some(Kind::Tsumo)
        } else if str_eq(s, Kind::Dahai.tag()) {
            Some(Kind::Dahai)
        } else if str_eq(s, Kind::Chi.tag()) {
            Some(Kind::Chi)
        } else if str_eq(s, Kind::Pon.tag()) {
            Some(Kind::Pon)
        } else if str_eq(s, Kind::Daiminkan.tag()) {
            Some(Kind::Daiminkan)
        } else if str_eq(s, Kind::Kakan.tag()) {
            Some(Kind::Kakan)
        } else if str_eq(s, Kind::Ankan.tag()) {
            Some(Kind::Ankan)
        } else if str_eq(s, Kind::Dora.tag()) {
            Some(Kind::Dora)
        } else if str_eq(s, Kind::Reach.tag()) {
            Some(Kind::Reach)
        } else if str_eq(s, Kind::ReachAccepted.tag()) {
            Some(Kind::ReachAccepted)
        } else if str_eq(s, Kind::Hora.tag()) {
            Some(Kind::Hora)
        } else if str_eq(s, Kind::Ryukyoku.tag()) {
            Some(Kind::Ryukyoku)
        } else if str_eq(s, Kind::EndKyoku.tag()) {
            Some(Kind::EndKyoku)
        } else if str_eq(s, Kind::EndGame.tag()) {
            Some(Kind::EndGame)
        } else {
            proof {
                assert forall|k: Kind| tag_text(k) != s@ by {
                    match k {
                        Kind::Nothing => {},
                        Kind::StartGame => {},
                        Kind::StartKyoku => {},
                        Kind::Tsumo => {},
                        Kind::Dahai => {},
                        Kind::Chi => {},
                        Kind::Pon => {},
                        Kind::Daiminkan => {},
                        Kind::Kakan => {},
                        Kind::Ankan => {},
                        Kind::Dora => {},
                        Kind::Reach => {},
                        Kind::ReachAccepted => {},
                        Kind::Hora => {},
                        Kind::Ryukyoku => {},
                        Kind::EndKyoku => {},
                        Kind::EndGame => {},
                    }
                }
            }
            None
        }
    }
}

/// A field value.
#[derive(Clone, Debug, PartialEq, Eq)]
pub enum Value {
    Int(i64),
    Bool(bool),
    Str(String),
    Strs(Vec<String>),
    Ints(Vec<i64>),
    Rows(Vec<Vec<String>>),
}

pub enum ValueView {
    Int(i64),
    Bool(bool),
    Str(Seq<char>),
    Strs(Seq<Seq<char>>),
    Ints(Seq<i64>),
    Rows(Seq<Seq<Seq<char>>>),
}

impl View for Value {
    type V = ValueView;

    open spec fn view(&self) -> ValueView {
        match self {
            Value::Int(n) => ValueView::Int(*n),
            Value::Bool(b) => ValueView::Bool(*b),
            Value::Str(s) => ValueView::Str(s@),
            Value::Strs(v) => ValueView::Strs(v.deep_view()),
            Value::Ints(v) => ValueView::Ints(v@),
            Value::Rows(v) => ValueView::Rows(v.deep_view()),
        }
    }
}

/// One field of a record.
#[derive(Clone, Debug, PartialEq, Eq)]
pub struct Entry {
    pub key: Key,
    pub value: Value,
}

/// A record: fields in the order they were written or read.
#[derive(Clone, Debug, PartialEq, Eq)]
pub struct Record {
    pub entries: Vec<Entry>,
}

impl View for Record {
    type V = Seq<(Key, ValueView)>;

    open spec fn view(&self) -> Seq<(Key, ValueView)> {
        Seq::new(self.entries@.len(), |i: int| (self.entries@[i].key, self.entries@[i].value@))
    }
}

/// The value of the first field named `k` at or after position `i`.
pub open spec fn lookup_from(r: Seq<(Key, ValueView)>, k: Key, i: int) -> Option<ValueView>
    decreases r.len() - i,
{
    if i < 0 || i >= r.len() {
        None
    } else if r[i].0 == k {
        Some(r[i].1)
    } else {
        lookup_from(r, k, i + 1)
    }
}

/// The value of the first field named `k`.
pub open spec fn lookup(r: Seq<(Key, ValueView)>, k: Key) -> Option<ValueView> {
    lookup_from(r, k, 0)
}

impl Record {
    /// The value of the first field named `k`.
    pub fn get(&self, k: Key) -> (r: Option<&Value>)
        ensures
            match r {
                Some(v) => lookup(self@, k) == Some(v@),
                None => lookup(self@, k) is None,
            },
    {
        let mut i: usize = 0;
        while i < self.entries.len()
            invariant
                i <= self.entries@.len(),
                lookup(self@, k) == lookup_from(self@, k, i as int),
            decreases self.entries@.len() - i,
        {
            if self.entries[i].key == k {
                return Some(&self.entries[i].value);
            }
            i += 1;
        }
        None
    }
}

} // verus!
