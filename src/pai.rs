//! Tiles: their text form, the order that melds are sorted by, and parsing.
use vstd::prelude::*;

verus! {

/// Number of distinct tile values: 27 suited, 7 honors, 3 red fives, one unknown.
pub const PAI_COUNT: u8 = 38;

/// One tile, identified by its index.
///
/// Indices 0..27 are the suited tiles (man, pin, sou; 1 to 9 each), 27..34 the
/// honors (E S W N P F C), 34..37 the red fives of man, pin and sou, and 37 the
/// unknown tile.
#[derive(Clone, Copy, Debug, PartialEq, Eq, Hash, Structural)]
pub struct Pai {
    pub id: u8,
}

pub open spec fn digit_char(n: int) -> char {
    if n == 1 {
        '1'
    } else if n == 2 {
        '2'
    } else if n == 3 {
        '3'
    } else if n == 4 {
        '4'
    } else if n == 5 {
        '5'
    } else if n == 6 {
        '6'
    } else if n == 7 {
        '7'
    } else if n == 8 {
        '8'
    } else {
        '9'
    }
}

pub open spec fn suit_char(k: int) -> char {
    if k == 0 {
        'm'
    } else if k == 1 {
        'p'
    } else {
        's'
    }
}

pub open spec fn honor_char(k: int) -> char {
    if k == 0 {
        'E'
    } else if k == 1 {
        'S'
    } else if k == 2 {
        'W'
    } else if k == 3 {
        'N'
    } else if k == 4 {
        'P'
    } else if k == 5 {
        'F'
    } else {
        'C'
    }
}

/// The text form of the tile with index `id`: "3p", "E", "5sr", "?".
pub open spec fn pai_text(id: u8) -> Seq<char> {
    if id < 27 {
        seq![digit_char(id % 9 + 1), suit_char(id as int / 9)]
    } else if id < 34 {
        seq![honor_char(id - 27)]
    } else if id < 37 {
        seq!['5', suit_char(id - 34), 'r']
    } else {
        seq!['?']
    }
}

/// The sorting key of a tile index: twice the index, except that a red five
/// sits just after the plain five of its suit.
pub open spec fn ord_key(id: u8) -> int {
    if 34 <= id < 37 {
        2 * (4 + 9 * (id - 34)) + 1
    } else {
        2 * id
    }
}

/// The order melds are sorted by.
pub open spec fn pai_leq(a: Pai, b: Pai) -> bool {
    ord_key(a.id) <= ord_key(b.id)
}

impl Pai {
    pub open spec fn wf(self) -> bool {
        self.id < PAI_COUNT
    }

    /// The tile with index `id`, if there is one.
    pub fn from_id(id: u8) -> (r: Option<Pai>)
        ensures
            r == (if id < PAI_COUNT { Some(Pai { id }) } else { None::<Pai> }),
    {
        if id < PAI_COUNT {
            Some(Pai { id })
        } else {
            None
        }
    }

    /// The key that melds are sorted by.
    pub fn as_ord(self) -> (r: u16)
        ensures
            r as int == ord_key(self.id),
    {
        if 34 <= self.id && self.id < 37 {
            2 * (4 + 9 * (self.id as u16 - 34)) + 1
        } else {
            2 * self.id as u16
        }
    }

    /// The text form of the tile.
    pub fn to_text(self) -> (r: String)
        requires
            self.wf(),
        ensures
            r@ == pai_text(self.id),
    {
        let id = self.id;
        if id < 27 {
            let d = digit_str(id % 9 + 1);
            let s = suit_str(id / 9);
            let r = String::from_str(d).concat(s);
            assert(r@ =~= pai_text(id));
            r
        } else if id < 34 {
            let r = String::from_str(honor_str(id - 27));
            assert(r@ =~= pai_text(id));
            r
        } else if id < 37 {
            let r = String::from_str(five_str()).concat(suit_str(id - 34)).concat(red_str());
            assert(r@ =~= pai_text(id));
            r
        } else {
            let r = String::from_str(unknown_str());
            assert(r@ =~= pai_text(id));
            r
        }
    }

    /// Parses the text form of a tile.
    pub fn parse(s: &str) -> (r: Option<Pai>)
        ensures
            r matches Some(p) ==> p.wf() && pai_text(p.id) == s@,
            r is None ==> forall|id: u8| id < PAI_COUNT ==> pai_text(id) != s@,
    {
        let len = s.unicode_len();
        if len == 1 {
            let c = s.get_char(0);
            if c == '?' {
                let r = Pai { id: 37 };
                assert(pai_text(37) =~= s@);
                return Some(r);
            }
            match honor_index(c) {
                Some(k) => {
                    assert(pai_text((27 + k) as u8) =~= s@);
                    Some(Pai { id: 27 + k })
                },
                None => None,
            }
        } else if len == 2 {
            let c0 = s.get_char(0);
            let c1 = s.get_char(1);
            match (digit_value(c0), suit_index(c1)) {
                (Some(n), Some(k)) => {
                    let id: u8 = k * 9 + n - 1;
                    assert(id % 9 + 1 == n && id / 9 == k);
                    assert(pai_text(id) =~= s@);
                    Some(Pai { id })
                },
                _ => None,
            }
        } else if len == 3 {
            let c0 = s.get_char(0);
            let c1 = s.get_char(1);
            let c2 = s.get_char(2);
            if c0 == '5' && c2 == 'r' {
                match suit_index(c1) {
                    Some(k) => {
                        assert(pai_text((34 + k) as u8) =~= s@);
                        Some(Pai { id: 34 + k })
                    },
                    None => None,
                }
            } else {
                None
            }
        } else {
            None
        }
    }
}

proof fn lemma_text_len(id: u8)
    ensures
        id < 27 ==> pai_text(id).len() == 2,
        27 <= id < 34 || id >= 37 ==> pai_text(id).len() == 1,
        34 <= id < 37 ==> pai_text(id).len() == 3,
{
    if id < 27 {
        assert(pai_text(id) == seq![digit_char(id % 9 + 1), suit_char(id as int / 9)]);
    } else if id < 34 {
        assert(pai_text(id) == seq![honor_char(id - 27)]);
    } else if id < 37 {
        assert(pai_text(id) == seq!['5', suit_char(id - 34), 'r']);
    } else {
        assert(pai_text(id) == seq!['?']);
    }
}

/// Distinct tiles have distinct text forms.
pub proof fn lemma_text_injective(a: u8, b: u8)
    requires
        a < PAI_COUNT,
        b < PAI_COUNT,
        pai_text(a) == pai_text(b),
    ensures
        a == b,
{
    lemma_text_len(a);
    lemma_text_len(b);
    assert(pai_text(a)[0] == pai_text(b)[0]);
    assert(a == 37 <==> b == 37) by {
        if a == 37 && b != 37 {
            assert(27 <= b < 34);
            assert(pai_text(b) == seq![honor_char(b - 27)]);
            assert(pai_text(a) == seq!['?']);
            assert(seq![honor_char(b - 27)][0] == honor_char(b - 27));
            assert(seq!['?'][0] == '?');
        }
        if b == 37 && a != 37 {
            assert(27 <= a < 34);
            assert(pai_text(a) == seq![honor_char(a - 27)]);
            assert(pai_text(b) == seq!['?']);
            assert(seq![honor_char(a - 27)][0] == honor_char(a - 27));
            assert(seq!['?'][0] == '?');
        }
    }
    if a < 27 && b < 27 {
        assert(pai_text(a)[1] == pai_text(b)[1]);
        assert(a % 9 == b % 9);
        assert(a / 9 == b / 9);
        assert(a == 9 * (a / 9) + a % 9);
        assert(b == 9 * (b / 9) + b % 9);
    } else if 27 <= a < 34 && 27 <= b < 34 {
        let (i, j) = (a - 27, b - 27);
        assert(pai_text(a) == seq![honor_char(i)]);
        assert(pai_text(b) == seq![honor_char(j)]);
        assert(seq![honor_char(i)][0] == honor_char(i));
        assert(seq![honor_char(j)][0] == honor_char(j));
        assert(i == j) by {
            if i != j {
                assert(0 <= i < 7 && 0 <= j < 7);
                if i == 0 {} else if i == 1 {} else if i == 2 {} else if i == 3 {} else if i == 4 {} else if i == 5 {} else {}
            }
        }
    } else if 34 <= a < 37 && 34 <= b < 37 {
        assert(pai_text(a)[1] == pai_text(b)[1]);
    }
}

fn digit_value(c: char) -> (r: Option<u8>)
    ensures
        r matches Some(n) ==> 1 <= n <= 9 && digit_char(n as int) == c,
        r is None ==> forall|n: int| 1 <= n <= 9 ==> digit_char(n) != c,
{
    if c == '1' {
        Some(1)
    } else if c == '2' {
        Some(2)
    } else if c == '3' {
        Some(3)
    } else if c == '4' {
        Some(4)
    } else if c == '5' {
        Some(5)
    } else if c == '6' {
        Some(6)
    } else if c == '7' {
        Some(7)
    } else if c == '8' {
        Some(8)
    } else if c == '9' {
        Some(9)
    } else {
        None
    }
}

fn suit_index(c: char) -> (r: Option<u8>)
    ensures
        r matches Some(k) ==> k < 3 && suit_char(k as int) == c,
        r is None ==> forall|k: int| 0 <= k < 3 ==> suit_char(k) != c,
{
    if c == 'm' {
        Some(0)
    } else if c == 'p' {
        Some(1)
    } else if c == 's' {
        Some(2)
    } else {
        None
    }
}

fn honor_index(c: char) -> (r: Option<u8>)
    ensures
        r matches Some(k) ==> k < 7 && honor_char(k as int) == c,
        r is None ==> forall|k: int| 0 <= k < 7 ==> honor_char(k) != c,
{
    if c == 'E' {
        Some(0)
    } else if c == 'S' {
        Some(1)
    } else if c == 'W' {
        Some(2)
    } else if c == 'N' {
        Some(3)
    } else if c == 'P' {
        Some(4)
    } else if c == 'F' {
        Some(5)
    } else if c == 'C' {
        Some(6)
    } else {
        None
    }
}

fn digit_str(n: u8) -> (r: &'static str)
    requires
        1 <= n <= 9,
    ensures
        r@ =~= seq![digit_char(n as int)],
{
    proof {
        reveal_strlit("1");
        reveal_strlit("2");
        reveal_strlit("3");
        reveal_strlit("4");
        reveal_strlit("5");
        reveal_strlit("6");
        reveal_strlit("7");
        reveal_strlit("8");
        reveal_strlit("9");
    }
    if n == 1 {
        "1"
    } else if n == 2 {
        "2"
    } else if n == 3 {
        "3"
    } else if n == 4 {
        "4"
    } else if n == 5 {
        "5"
    } else if n == 6 {
        "6"
    } else if n == 7 {
        "7"
    } else if n == 8 {
        "8"
    } else {
        "9"
    }
}

fn suit_str(k: u8) -> (r: &'static str)
    requires
        k < 3,
    ensures
        r@ =~= seq![suit_char(k as int)],
{
    proof {
        reveal_strlit("m");
        reveal_strlit("p");
        reveal_strlit("s");
    }
    if k == 0 {
        "m"
    } else if k == 1 {
        "p"
    } else {
        "s"
    }
}

fn honor_str(k: u8) -> (r: &'static str)
    requires
        k < 7,
    ensures
        r@ =~= seq![honor_char(k as int)],
{
    proof {
        reveal_strlit("E");
        reveal_strlit("S");
        reveal_strlit("W");
        reveal_strlit("N");
        reveal_strlit("P");
        reveal_strlit("F");
        reveal_strlit("C");
    }
    if k == 0 {
        "E"
    } else if k == 1 {
        "S"
    } else if k == 2 {
        "W"
    } else if k == 3 {
        "N"
    } else if k == 4 {
        "P"
    } else if k == 5 {
        "F"
    } else {
        "C"
    }
}

fn five_str() -> (r: &'static str)
    ensures
        r@ =~= seq!['5'],
{
    proof {
        reveal_strlit("5");
    }
    "5"
}

fn red_str() -> (r: &'static str)
    ensures
        r@ =~= seq!['r'],
{
    proof {
        reveal_strlit("r");
    }
    "r"
}

fn unknown_str() -> (r: &'static str)
    ensures
        r@ =~= seq!['?'],
{
    proof {
        reveal_strlit("?");
    }
    "?"
}

/// Whether `t` is the text form of some tile.
pub open spec fn is_pai_text(t: Seq<char>) -> bool {
    exists|id: u8| id < PAI_COUNT && #[trigger] pai_text(id) == t
}

/// The tile whose text form is `t`, where there is one.
pub open spec fn pai_of(t: Seq<char>) -> Pai {
    Pai { id: choose|id: u8| id < PAI_COUNT && #[trigger] pai_text(id) == t }
}

/// A tile's text form names that tile.
pub proof fn lemma_pai_of_text(p: Pai)
    requires
        p.wf(),
    ensures
        pai_of(pai_text(p.id)) == p,
{
    let q = pai_of(pai_text(p.id));
    assert(q.id < PAI_COUNT && pai_text(q.id) == pai_text(p.id));
    lemma_text_injective(q.id, p.id);
}

/// The tiles that a sequence of texts names.
pub open spec fn pais_of(t: Seq<Seq<char>>) -> Seq<Pai> {
    t.map_values(|x: Seq<char>| pai_of(x))
}

/// The text forms of a sequence of tiles, in order.
pub open spec fn pais_text(s: Seq<Pai>) -> Seq<Seq<char>> {
    s.map_values(|p: Pai| pai_text(p.id))
}

pub open spec fn all_wf(s: Seq<Pai>) -> bool {
    forall|i: int| 0 <= i < s.len() ==> #[trigger] s[i].wf()
}

/// Whether every text of `s` names a tile.
pub open spec fn all_pai_text(s: Seq<Seq<char>>) -> bool {
    forall|i: int| 0 <= i < s.len() ==> is_pai_text(#[trigger] s[i])
}

/// The position of the first text of `s` that names no tile.
pub open spec fn first_bad(s: Seq<Seq<char>>) -> int {
    choose|i: int| is_first_bad(s, i)
}

pub open spec fn is_first_bad(s: Seq<Seq<char>>, i: int) -> bool {
    &&& 0 <= i < s.len()
    &&& !is_pai_text(s[i])
    &&& forall|k: int| 0 <= k < i ==> is_pai_text(#[trigger] s[k])
}

/// Only one position is the first that names no tile.
pub proof fn lemma_first_bad(s: Seq<Seq<char>>, i: int)
    requires
        is_first_bad(s, i),
    ensures
        first_bad(s) == i,
{
    let j = first_bad(s);
    assert(is_first_bad(s, j));
    if j < i {
        assert(is_pai_text(s[j]));
    } else if i < j {
        assert(is_pai_text(s[i]));
    }
}

/// Parses a list of tile texts; on failure, gives the position of the first
/// text that names no tile.
pub fn parse_pais(texts: &Vec<String>) -> (r: Result<Vec<Pai>, usize>)
    ensures
        r matches Ok(v) ==> all_wf(v@) && pais_text(v@) == texts.deep_view() && v@ == pais_of(texts.deep_view())
            && all_pai_text(texts.deep_view()),
        r matches Err(i) ==> i < texts.len() && i == first_bad(texts.deep_view()) && !all_pai_text(texts.deep_view()),
{
    let mut out: Vec<Pai> = Vec::new();
    let mut i: usize = 0;
    while i < texts.len()
        invariant
            i <= texts.len(),
            out@.len() == i,
            all_wf(out@),
            forall|k: int| 0 <= k < i ==> pai_text(#[trigger] out@[k].id) == texts[k]@,
        decreases texts.len() - i,
    {
        match Pai::parse(texts[i].as_str()) {
            Some(p) => {
                out.push(p);
            },
            None => {
                proof {
                    let t = texts.deep_view();
                    assert forall|k: int| 0 <= k < i implies is_pai_text(#[trigger] t[k]) by {
                        assert(out@[k].wf());
                        assert(pai_text(out@[k].id) == texts[k]@);
                    }
                    assert(is_first_bad(t, i as int));
                    lemma_first_bad(t, i as int);
                }
                return Err(i);
            },
        }
        i += 1;
    }
    assert(pais_text(out@) =~= texts.deep_view());
    proof {
        assert forall|k: int| 0 <= k < out@.len() implies #[trigger] out@[k] == pai_of(texts[k]@) by {
            lemma_pai_of_text(out@[k]);
        }
        assert(out@ =~= pais_of(texts.deep_view()));
        let t = texts.deep_view();
        assert forall|k: int| 0 <= k < t.len() implies is_pai_text(#[trigger] t[k]) by {
            assert(out@[k].wf());
            assert(pai_text(out@[k].id) == t[k]);
        }
    }
    Ok(out)
}

/// The text forms of a list of tiles.
pub fn format_pais(pais: &Vec<Pai>) -> (r: Vec<String>)
    requires
        all_wf(pais@),
    ensures
        r.deep_view() == pais_text(pais@),
{
    let mut out: Vec<String> = Vec::new();
    let mut i: usize = 0;
    while i < pais.len()
        invariant
            i <= pais.len(),
            all_wf(pais@),
            out@.len() == i,
            forall|k: int| 0 <= k < i ==> (#[trigger] out@[k])@ == pai_text(pais@[k].id),
        decreases pais.len() - i,
    {
        out.push(pais[i].to_text());
        i += 1;
    }
    assert(out.deep_view() =~= pais_text(pais@));
    out
}

/// The text forms of the tiles of an array.
pub fn array_texts<const N: usize>(a: &[Pai; N]) -> (r: Vec<String>)
    requires
        all_wf(a@),
    ensures
        r.deep_view() == pais_text(a@),
{
    let mut out: Vec<String> = Vec::new();
    let mut i: usize = 0;
    while i < N
        invariant
            i <= N,
            a@.len() == N,
            all_wf(a@),
            out@.len() == i,
            forall|k: int| 0 <= k < i ==> (#[trigger] out@[k])@ == pai_text(a@[k].id),
        decreases N - i,
    {
        out.push(a[i].to_text());
        i += 1;
    }
    assert(out.deep_view() =~= pais_text(a@));
    out
}

} // verus!
