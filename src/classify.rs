use vstd::prelude::*;
use std::collections::HashMap;
use crate::color::{Color, packed, sq_dist, lemma_packed_injective};
use crate::tile::BlockType;

verus! {

broadcast use vstd::std_specs::hash::group_hash_axioms;

/// One palette entry: a color and the tile kind it stands for.
#[derive(Clone, Copy, Debug, PartialEq, Eq, Structural)]
pub struct PaletteEntry {
    pub color: Color,
    pub class: BlockType,
}

/// The class of the last entry of `p` whose color is `c`, if any.
pub open spec fn last_match(p: Seq<PaletteEntry>, c: Color) -> Option<BlockType>
    decreases p.len(),
{
    if p.len() == 0 {
        None
    } else if p.last().color == c {
        Some(p.last().class)
    } else {
        last_match(p.drop_last(), c)
    }
}

/// Exact classification: the last entry with that very color wins, and a
/// color absent from the palette is empty.
pub open spec fn exact_class(p: Seq<PaletteEntry>, c: Color) -> BlockType {
    match last_match(p, c) {
        Some(k) => k,
        None => BlockType::Empty,
    }
}

/// The key table that inserting the entries of `p` in order builds.
pub open spec fn table_of(p: Seq<PaletteEntry>) -> Map<u32, BlockType>
    decreases p.len(),
{
    if p.len() == 0 {
        Map::empty()
    } else {
        table_of(p.drop_last()).insert(packed(p.last().color), p.last().class)
    }
}

proof fn lemma_table_lookup(p: Seq<PaletteEntry>, c: Color)
    ensures
        table_of(p).contains_key(packed(c)) == last_match(p, c).is_some(),
        last_match(p, c).is_some() ==> table_of(p)[packed(c)] == last_match(p, c).unwrap(),
    decreases p.len(),
{
    if p.len() > 0 {
        lemma_table_lookup(p.drop_last(), c);
        if packed(p.last().color) == packed(c) {
            lemma_packed_injective(p.last().color, c);
        }
    }
}

/// Exact classification of an entry's color gives that entry's class when no
/// later entry has the same color: the last inserted entry wins.
pub proof fn lemma_exact_finds_entry(p: Seq<PaletteEntry>, i: int)
    requires
        0 <= i < p.len(),
        forall|j: int| i < j < p.len() ==> (#[trigger] p[j]).color != p[i].color,
    ensures
        exact_class(p, p[i].color) == p[i].class,
    decreases p.len(),
{
    if i < p.len() - 1 {
        let q = p.drop_last();
        assert forall|j: int| i < j < q.len() implies (#[trigger] q[j]).color != q[i].color by {
            assert(q[j] == p[j]);
        }
        lemma_exact_finds_entry(q, i);
    }
}

/// Exact classification of a color that no palette entry has is empty.
pub proof fn lemma_exact_absent_is_empty(p: Seq<PaletteEntry>, c: Color)
    requires
        forall|j: int| 0 <= j < p.len() ==> (#[trigger] p[j]).color != c,
    ensures
        exact_class(p, c) == BlockType::Empty,
    decreases p.len(),
{
    if p.len() > 0 {
        let q = p.drop_last();
        assert forall|j: int| 0 <= j < q.len() implies (#[trigger] q[j]).color != c by {
            assert(q[j] == p[j]);
        }
        lemma_exact_absent_is_empty(q, c);
    }
}

/// Index of the first entry of `p` at least as near to `c` as every entry.
pub open spec fn first_nearest(p: Seq<PaletteEntry>, c: Color) -> int
    decreases p.len(),
{
    if p.len() <= 1 {
        0
    } else {
        let k = first_nearest(p.drop_last(), c);
        if sq_dist(p.last().color, c) < sq_dist(p[k].color, c) {
            p.len() - 1
        } else {
            k
        }
    }
}

/// Nearest classification: the class of the first nearest entry; empty for
/// an empty palette.
pub open spec fn nearest_class(p: Seq<PaletteEntry>, c: Color) -> BlockType {
    if p.len() == 0 {
        BlockType::Empty
    } else {
        p[first_nearest(p, c)].class
    }
}

/// The entry that nearest classification picks is at least as near to the
/// query as every palette entry, and every entry before it is strictly
/// farther: of equally near entries, the first inserted wins.
pub proof fn lemma_first_nearest(p: Seq<PaletteEntry>, c: Color)
    requires
        p.len() > 0,
    ensures
        0 <= first_nearest(p, c) < p.len(),
        forall|j: int|
            0 <= j < p.len() ==> sq_dist(p[first_nearest(p, c)].color, c) <= sq_dist(
                #[trigger] p[j].color,
                c,
            ),
        forall|j: int|
            0 <= j < first_nearest(p, c) ==> sq_dist(p[first_nearest(p, c)].color, c) < sq_dist(
                #[trigger] p[j].color,
                c,
            ),
    decreases p.len(),
{
    if p.len() > 1 {
        let q = p.drop_last();
        lemma_first_nearest(q, c);
        let k = first_nearest(q, c);
        let n = p.len() - 1;
        assert(q[k] == p[k]);
        assert forall|j: int| 0 <= j < p.len() implies sq_dist(p[first_nearest(p, c)].color, c)
            <= sq_dist(#[trigger] p[j].color, c) by {
            if j < n {
                assert(q[j] == p[j]);
            }
        }
        assert forall|j: int| 0 <= j < first_nearest(p, c) implies sq_dist(
            p[first_nearest(p, c)].color,
            c,
        ) < sq_dist(#[trigger] p[j].color, c) by {
            assert(q[j] == p[j]);
        }
    }
}

/// Nearest classification returns the class of a palette entry at minimal
/// distance from the query, the first such entry in palette order.
pub proof fn lemma_nearest_class_minimizes(p: Seq<PaletteEntry>, c: Color)
    requires
        p.len() > 0,
    ensures
        exists|k: int|
            0 <= k < p.len() && nearest_class(p, c) == p[k].class && (forall|j: int|
                0 <= j < p.len() ==> sq_dist(p[k].color, c) <= sq_dist(#[trigger] p[j].color, c))
                && (forall|j: int|
                0 <= j < k ==> sq_dist(p[k].color, c) < sq_dist(#[trigger] p[j].color, c)),
{
    lemma_first_nearest(p, c);
    let k = first_nearest(p, c);
    assert(0 <= k < p.len() && nearest_class(p, c) == p[k].class);
}

/// A query equal to a palette color is at distance zero, so nearest
/// classification returns the class of the first entry of that color.
pub proof fn lemma_nearest_exact_color(p: Seq<PaletteEntry>, i: int)
    requires
        0 <= i < p.len(),
        forall|j: int| 0 <= j < i ==> (#[trigger] p[j]).color != p[i].color,
    ensures
        nearest_class(p, p[i].color) == p[i].class,
{
    let c = p[i].color;
    lemma_first_nearest(p, c);
    let k = first_nearest(p, c);
    assert(sq_dist(p[i].color, c) == 0);
    let x = p[k].color;
    assert(sq_dist(x, c) >= 0 && (sq_dist(x, c) == 0 ==> x == c)) by (nonlinear_arith)
        requires
            sq_dist(x, c) == (x.r - c.r) * (x.r - c.r) + (x.g - c.g) * (x.g - c.g) + (x.b - c.b) * (x.b - c.b) + (x.a - c.a) * (x.a - c.a),
    ;
    if k < i {
        assert(sq_dist(p[k].color, c) < sq_dist(p[i].color, c));
    } else if k > i {
        assert(sq_dist(p[i].color, c) >= 0);
        assert(sq_dist(p[k].color, c) <= sq_dist(p[i].color, c));
        assert(p[k].color == c);
        assert(sq_dist(p[k].color, c) < sq_dist(p[i].color, c)) by {
            assert(0 <= i < k);
        }
    }
}

/// Classifies colors by exact lookup in a hash table.
pub struct ExactClassifier {
    table: HashMap<u32, BlockType>,
    palette: Ghost<Seq<PaletteEntry>>,
}

impl View for ExactClassifier {
    type V = Seq<PaletteEntry>;

    /// The palette the classifier was built from.
    closed spec fn view(&self) -> Seq<PaletteEntry> {
        self.palette@
    }
}

impl ExactClassifier {
    pub closed spec fn wf(&self) -> bool {
        self.table@ == table_of(self.palette@)
    }

    /// Builds the table from the palette, later entries replacing earlier
    /// entries of the same color.
    pub fn new(palette: &Vec<PaletteEntry>) -> (r: ExactClassifier)
        ensures
            r.wf(),
            r@ == palette@,
    {
        let mut table: HashMap<u32, BlockType> = HashMap::new();
        let mut i: usize = 0;
        while i < palette.len()
            invariant
                i <= palette@.len(),
                table@ == table_of(palette@.take(i as int)),
            decreases palette@.len() - i,
        {
            let e = palette[i];
            table.insert(e.color.pack(), e.class);
            assert(palette@.take(i as int + 1).drop_last() == palette@.take(i as int));
            i = i + 1;
        }
        assert(palette@.take(i as int) == palette@);
        ExactClassifier { table, palette: Ghost(palette@) }
    }

    /// The class of the last palette entry of color `c`, or empty.
    pub fn classify(&self, c: Color) -> (r: BlockType)
        requires
            self.wf(),
        ensures
            r == exact_class(self@, c),
    {
        proof {
            lemma_table_lookup(self.palette@, c);
        }
        match self.table.get(&c.pack()) {
            Some(k) => *k,
            None => BlockType::Empty,
        }
    }
}

/// Classifies colors by the nearest palette entry, scanning the palette in
/// order so that of equally near entries the first one wins.
pub struct NearestClassifier {
    entries: Vec<PaletteEntry>,
}

impl View for NearestClassifier {
    type V = Seq<PaletteEntry>;

    closed spec fn view(&self) -> Seq<PaletteEntry> {
        self.entries@
    }
}

impl NearestClassifier {
    pub fn new(palette: &Vec<PaletteEntry>) -> (r: NearestClassifier)
        ensures
            r@ == palette@,
    {
        NearestClassifier { entries: palette.clone() }
    }

    /// Index of the first palette entry nearest to `c`.
    pub fn nearest_index(&self, c: Color) -> (r: Option<usize>)
        ensures
            self@.len() == 0 <==> r is None,
            r matches Some(k) ==> k == first_nearest(self@, c),
    {
        let n = self.entries.len();
        if n == 0 {
            return None;
        }
        let mut best: usize = 0;
        let mut best_d: u32 = self.entries[0].color.distance(c);
        let mut i: usize = 1;
        while i < n
            invariant
                n == self@.len(),
                1 <= i <= n,
                best < i,
                best == first_nearest(self@.take(i as int), c),
                best_d == sq_dist(self@[best as int].color, c),
            decreases n - i,
        {
            let d = self.entries[i].color.distance(c);
            proof {
                let q = self@.take(i as int + 1);
                assert(q.drop_last() == self@.take(i as int));
                assert(q.last() == self@[i as int]);
                assert(q[best as int] == self@[best as int]);
            }
            if d < best_d {
                best = i;
                best_d = d;
            }
            i = i + 1;
        }
        assert(self@.take(n as int) == self@);
        Some(best)
    }

    /// The class of the first palette entry nearest to `c`, or empty for an
    /// empty palette.
    pub fn classify(&self, c: Color) -> (r: BlockType)
        ensures
            r == nearest_class(self@, c),
    {
        match self.nearest_index(c) {
            Some(k) => {
                proof {
                    lemma_first_nearest(self@, c);
                }
                self.entries[k].class
            },
            None => BlockType::Empty,
        }
    }
}

/// A classifier with the strategy chosen when it is built.
pub enum Classifier {
    Exact(ExactClassifier),
    Nearest(NearestClassifier),
}

impl Classifier {
    pub open spec fn wf(&self) -> bool {
        match self {
            Classifier::Exact(e) => e.wf(),
            Classifier::Nearest(_) => true,
        }
    }

    /// What `classify` returns for `c`.
    pub open spec fn class_of(&self, c: Color) -> BlockType {
        match self {
            Classifier::Exact(e) => exact_class(e@, c),
            Classifier::Nearest(n) => nearest_class(n@, c),
        }
    }

    /// An exact-match classifier over the palette.
    pub fn exact(palette: &Vec<PaletteEntry>) -> (r: Classifier)
        ensures
            r.wf(),
            forall|c: Color| #[trigger] r.class_of(c) == exact_class(palette@, c),
    {
        Classifier::Exact(ExactClassifier::new(palette))
    }

    /// A nearest-color classifier over the palette.
    pub fn nearest(palette: &Vec<PaletteEntry>) -> (r: Classifier)
        ensures
            r.wf(),
            forall|c: Color| #[trigger] r.class_of(c) == nearest_class(palette@, c),
    {
        Classifier::Nearest(NearestClassifier::new(palette))
    }

    pub fn classify(&self, c: Color) -> (r: BlockType)
        requires
            self.wf(),
        ensures
            r == self.class_of(c),
    {
        match self {
            Classifier::Exact(e) => e.classify(c),
            Classifier::Nearest(n) => n.classify(c),
        }
    }
}

} // verus!
