//! The opening book: an index from positions to the continuations that a
//! repertoire of opening lines knows for them.

use crate::chess::{canonical_of, played, Move, Position};
use crate::text::{chars_of, contains_text, has_prefix, occurs_in, starts_with, texts};
use rand::seq::IndexedRandom;
use vstd::prelude::*;

verus! {

/// What an opening line is to the contracts of this module.
pub struct LineView {
    pub code: Seq<char>,
    pub name: Seq<char>,
    pub moves: Seq<Move>,
}

/// One line of a repertoire: its classification code, its name and its
/// moves from the starting position.
#[derive(Debug)]
pub struct OpeningLine {
    pub code: String,
    pub name: String,
    pub moves: Vec<Move>,
}

impl View for OpeningLine {
    type V = LineView;

    open spec fn view(&self) -> LineView {
        LineView { code: self.code@, name: self.name@, moves: self.moves@ }
    }
}

impl Clone for OpeningLine {
    fn clone(&self) -> (r: OpeningLine)
        ensures
            r@ == self@,
    {
        OpeningLine { code: self.code.clone(), name: self.name.clone(), moves: self.moves.clone() }
    }
}

/// One entry of the book: at the position with this key, the line with this
/// label goes on with these moves.
pub struct EntryView {
    pub key: Seq<char>,
    pub continuation: Seq<Move>,
    pub label: Seq<char>,
}

/// The views of a sequence of lines.
pub open spec fn line_views(lines: Seq<OpeningLine>) -> Seq<LineView> {
    Seq::new(lines.len(), |i: int| lines[i]@)
}

/// The lines whose name holds the pattern, in the order of the table.
pub open spec fn named(table: Seq<LineView>, pattern: Seq<char>) -> Seq<LineView> {
    table.filter(|line: LineView| occurs_in(line.name, pattern))
}

/// The lines whose classification code starts with the given code, in the
/// order of the table.
pub open spec fn coded(table: Seq<LineView>, code: Seq<char>) -> Seq<LineView> {
    table.filter(|line: LineView| starts_with(line.code, code))
}

/// The lines for the first `n` of the given codes: those for the first
/// code, then those for the second, and so on.
pub open spec fn coded_by(table: Seq<LineView>, codes: Seq<Seq<char>>, n: nat) -> Seq<LineView>
    decreases n,
{
    if n == 0 {
        Seq::empty()
    } else {
        coded_by(table, codes, (n - 1) as nat) + coded(table, codes[n - 1])
    }
}

/// The repertoire that the settings ask for: the lines with a name that
/// holds the pattern, where one is given; else the lines with one of the
/// given codes, where any is given; else the whole table.
pub open spec fn selection(
    table: Seq<LineView>,
    opening: Option<Seq<char>>,
    codes: Seq<Seq<char>>,
) -> Seq<LineView> {
    match opening {
        Some(pattern) => named(table, pattern),
        None => if codes.len() > 0 {
            coded_by(table, codes, codes.len())
        } else {
            table
        },
    }
}

/// The lines of a table whose name holds a pattern.
pub fn lookup_eco_from_name(table: &Vec<OpeningLine>, pattern: &str) -> (r: Vec<OpeningLine>)
    ensures
        line_views(r@) == named(line_views(table@), pattern@),
{
    let ghost pred = |line: LineView| occurs_in(line.name, pattern@);
    let ghost all = line_views(table@);
    let wanted = chars_of(pattern);
    let mut found: Vec<OpeningLine> = Vec::new();
    let mut i: usize = 0;
    proof {
        reveal(Seq::filter);
        assert(line_views(found@) =~= all.take(0).filter(pred));
    }
    while i < table.len()
        invariant
            i <= table@.len(),
            all == line_views(table@),
            wanted@ == pattern@,
            pred == |line: LineView| occurs_in(line.name, pattern@),
            line_views(found@) == all.take(i as int).filter(pred),
        decreases table.len() - i,
    {
        proof {
            reveal(Seq::filter);
            assert(all.take(i + 1).drop_last() =~= all.take(i as int));
            assert(all.take(i + 1).last() == table@[i as int]@);
        }
        let name = chars_of(table[i].name.as_str());
        if contains_text(&name, &wanted) {
            let ghost before = found@;
            found.push(table[i].clone());
            proof {
                assert(line_views(found@) =~= line_views(before).push(table@[i as int]@));
            }
        }
        i += 1;
    }
    proof {
        assert(all.take(i as int) =~= all);
    }
    found
}

/// The lines of a table whose classification code starts with a code.
pub fn lookup_eco_from_code(table: &Vec<OpeningLine>, code: &str) -> (r: Vec<OpeningLine>)
    ensures
        line_views(r@) == coded(line_views(table@), code@),
{
    let ghost pred = |line: LineView| starts_with(line.code, code@);
    let ghost all = line_views(table@);
    let wanted = chars_of(code);
    let mut found: Vec<OpeningLine> = Vec::new();
    let mut i: usize = 0;
    proof {
        reveal(Seq::filter);
        assert(line_views(found@) =~= all.take(0).filter(pred));
    }
    while i < table.len()
        invariant
            i <= table@.len(),
            all == line_views(table@),
            wanted@ == code@,
            pred == |line: LineView| starts_with(line.code, code@),
            line_views(found@) == all.take(i as int).filter(pred),
        decreases table.len() - i,
    {
        proof {
            reveal(Seq::filter);
            assert(all.take(i + 1).drop_last() =~= all.take(i as int));
            assert(all.take(i + 1).last() == table@[i as int]@);
        }
        let own = chars_of(table[i].code.as_str());
        if has_prefix(&own, &wanted) {
            let ghost before = found@;
            found.push(table[i].clone());
            proof {
                assert(line_views(found@) =~= line_views(before).push(table@[i as int]@));
            }
        }
        i += 1;
    }
    proof {
        assert(all.take(i as int) =~= all);
    }
    found
}

/// The repertoire that the settings ask for.
pub fn select_openings(
    table: Vec<OpeningLine>,
    opening: &Option<String>,
    eco_codes: &Vec<String>,
) -> (r: Vec<OpeningLine>)
    ensures
        line_views(r@) == selection(
            line_views(table@),
            match *opening {
                Some(pattern) => Some(pattern@),
                None => None,
            },
            texts(eco_codes@),
        ),
{
    match opening {
        Some(pattern) => lookup_eco_from_name(&table, pattern.as_str()),
        None => {
            if eco_codes.len() > 0 {
                let ghost all = line_views(table@);
                let ghost codes = texts(eco_codes@);
                let mut variants: Vec<OpeningLine> = Vec::new();
                let mut i: usize = 0;
                assert(line_views(variants@) =~= coded_by(all, codes, 0));
                while i < eco_codes.len()
                    invariant
                        i <= eco_codes@.len(),
                        all == line_views(table@),
                        codes == texts(eco_codes@),
                        line_views(variants@) == coded_by(all, codes, i as nat),
                    decreases eco_codes.len() - i,
                {
                    let mut more = lookup_eco_from_code(&table, eco_codes[i].as_str());
                    let ghost before = variants@;
                    let ghost added = more@;
                    variants.append(&mut more);
                    proof {
                        assert(codes[i as int] == eco_codes@[i as int]@);
                        assert(line_views(variants@) =~= line_views(before) + line_views(added));
                    }
                    i += 1;
                }
                variants
            } else {
                table
            }
        },
    }
}

/// The position after the first `j` moves of a line, as long as each of them
/// is legal where it is played.
pub open spec fn line_position(moves: Seq<Move>, j: nat) -> Option<Seq<char>>
    decreases j,
{
    if j == 0 {
        Some(Position::initial())
    } else {
        match line_position(moves, (j - 1) as nat) {
            Some(p) => played(p, moves[j - 1]),
            None => None,
        }
    }
}

/// The entry that a line gives for the position after its first `j` moves:
/// the rest of the line, under the key of that position. There is none where
/// the line does not reach that position, or its next move is not legal
/// there.
pub open spec fn entry_at(line: LineView, j: nat) -> Option<EntryView> {
    match line_position(line.moves, j) {
        Some(p) => match (played(p, line.moves[j as int]), canonical_of(p)) {
            (Some(_), Some(key)) => Some(
                EntryView { key, continuation: line.moves.skip(j as int), label: line.name },
            ),
            _ => None,
        },
        None => None,
    }
}

/// The entries that a line gives for the positions before its first `k`
/// moves, in the order of the line.
pub open spec fn line_entries(line: LineView, k: nat) -> Seq<EntryView>
    decreases k,
{
    if k == 0 {
        Seq::empty()
    } else {
        let before = line_entries(line, (k - 1) as nat);
        match entry_at(line, (k - 1) as nat) {
            Some(e) => before.push(e),
            None => before,
        }
    }
}

/// The entries of the first `n` lines of a repertoire, line after line.
pub open spec fn book(lines: Seq<LineView>, n: nat) -> Seq<EntryView>
    decreases n,
{
    if n == 0 {
        Seq::empty()
    } else {
        book(lines, (n - 1) as nat) + line_entries(lines[n - 1], lines[n - 1].moves.len())
    }
}

/// The entries of a book for one key, in the order of the book.
pub open spec fn candidates(index: Seq<EntryView>, key: Seq<char>) -> Seq<EntryView> {
    index.filter(|e: EntryView| e.key == key)
}

/// Once a line has left the legal moves, it does not come back: no later
/// position is reached.
pub proof fn lemma_line_ends(moves: Seq<Move>, j: nat, k: nat)
    requires
        line_position(moves, j) is None,
        j <= k,
    ensures
        line_position(moves, k) is None,
    decreases k,
{
    if j < k {
        lemma_line_ends(moves, j, (k - 1) as nat);
    }
}

/// A line gives no entry from its first illegal move on.
pub proof fn lemma_no_entries_after(line: LineView, j: nat, k: nat)
    requires
        line_position(line.moves, j + 1) is None,
        j <= k,
    ensures
        line_entries(line, k) == line_entries(line, j),
    decreases k,
{
    if j < k {
        lemma_no_entries_after(line, j, (k - 1) as nat);
        if j + 1 <= k - 1 {
            lemma_line_ends(line.moves, j + 1, (k - 1) as nat);
        }
        assert(line_position(line.moves, k) is None) by {
            lemma_line_ends(line.moves, j + 1, k);
        }
    }
}

struct Entry {
    key: String,
    line: usize,
    ply: usize,
}

/// The opening book of a session. It is built once and never changes.
pub struct Openings {
    lines: Vec<OpeningLine>,
    index: Vec<Entry>,
}

impl View for Openings {
    type V = Seq<EntryView>;

    closed spec fn view(&self) -> Seq<EntryView> {
        Seq::new(self.index@.len(), |i: int| self.entry_view(i))
    }
}

impl Openings {
    spec fn entry_view(&self, i: int) -> EntryView {
        let e = self.index@[i];
        let line = self.lines@[e.line as int];
        EntryView { key: e.key@, continuation: line.moves@.skip(e.ply as int), label: line.name@ }
    }

    #[verifier::type_invariant]
    spec fn well_formed(&self) -> bool {
        forall|i: int|
            0 <= i < self.index@.len() ==> (#[trigger] self.index@[i]).line < self.lines@.len()
                && self.index@[i].ply < self.lines@[self.index@[i].line as int].moves@.len()
    }

    /// The book of a repertoire. Each line is played from the starting
    /// position; before each of its moves, the rest of the line is entered
    /// under the key of the position. A line stops at its first move that is
    /// not legal, and the lines after it are entered all the same.
    pub fn new(variants: Vec<OpeningLine>) -> (r: Openings)
        ensures
            r@ == book(line_views(variants@), variants@.len()),
    {
        let ghost lines = line_views(variants@);
        let mut index: Vec<Entry> = Vec::new();
        let ghost mut entries: Seq<EntryView> = Seq::empty();
        let mut li: usize = 0;
        while li < variants.len()
            invariant
                li <= variants@.len(),
                lines == line_views(variants@),
                entries == book(lines, li as nat),
                index@.len() == entries.len(),
                forall|i: int|
                    0 <= i < index@.len() ==> {
                        let e = #[trigger] index@[i];
                        &&& e.line < li
                        &&& e.ply < variants@[e.line as int].moves@.len()
                        &&& entries[i] == (EntryView {
                            key: e.key@,
                            continuation: variants@[e.line as int].moves@.skip(e.ply as int),
                            label: variants@[e.line as int].name@,
                        })
                    },
            decreases variants.len() - li,
        {
            let variant = &variants[li];
            let ghost line = lines[li as int];
            let ghost before = entries;
            let mut game = Position::new();
            let mut ply: usize = 0;
            let mut legal = true;
            while legal && ply < variant.moves.len()
                invariant
                    li < variants@.len(),
                    variant == variants@[li as int],
                    line == variant@,
                    ply <= variant.moves@.len(),
                    legal ==> line_position(line.moves, ply as nat) == Some(game@),
                    !legal ==> line_position(line.moves, (ply + 1) as nat) is None,
                    entries == before + line_entries(line, ply as nat),
                    index@.len() == entries.len(),
                    forall|i: int|
                        0 <= i < index@.len() ==> {
                            let e = #[trigger] index@[i];
                            &&& e.line <= li
                            &&& e.ply < variants@[e.line as int].moves@.len()
                            &&& entries[i] == (EntryView {
                                key: e.key@,
                                continuation: variants@[e.line as int].moves@.skip(e.ply as int),
                                label: variants@[e.line as int].name@,
                            })
                        },
                decreases variant.moves.len() - ply + (if legal { 1int } else { 0int }),
            {
                let key = game.canonical();
                match game.play(&variant.moves[ply]) {
                    Some(next) => {
                        match key {
                            Some(key) => {
                                proof {
                                    let e = entry_at(line, ply as nat)->0;
                                    assert(before + line_entries(line, (ply + 1) as nat) =~= (
                                    before + line_entries(line, ply as nat)).push(e));
                                    entries = entries.push(e);
                                }
                                index.push(Entry { key, line: li, ply });
                            },
                            None => {},
                        }
                        game = next;
                        ply += 1;
                    },
                    None => {
                        legal = false;
                    },
                }
            }
            proof {
                if !legal {
                    lemma_no_entries_after(line, ply as nat, line.moves.len());
                }
            }
            li += 1;
        }
        let r = Openings { lines: variants, index };
        proof {
            assert(r@ =~= entries);
        }
        r
    }

    /// The number of entries of the book.
    pub fn len(&self) -> (r: usize)
        ensures
            r == self@.len(),
    {
        self.index.len()
    }

    /// The places in the book of the entries for a key, in the order of the
    /// book.
    fn matching(&self, key: &String) -> (r: Vec<usize>)
        ensures
            forall|k: int| 0 <= k < r@.len() ==> (#[trigger] r@[k]) < self@.len(),
            Seq::new(r@.len(), |k: int| self@[r@[k] as int]) == candidates(self@, key@),
    {
        let ghost pred = |e: EntryView| e.key == key@;
        let mut found: Vec<usize> = Vec::new();
        let mut i: usize = 0;
        proof {
            reveal(Seq::filter);
            assert(Seq::new(found@.len(), |k: int| self@[found@[k] as int]) =~= self@.take(
                0,
            ).filter(pred));
        }
        while i < self.index.len()
            invariant
                i <= self.index@.len(),
                self.index@.len() == self@.len(),
                pred == |e: EntryView| e.key == key@,
                forall|k: int| 0 <= k < found@.len() ==> (#[trigger] found@[k]) < i,
                Seq::new(found@.len(), |k: int| self@[found@[k] as int]) == self@.take(
                    i as int,
                ).filter(pred),
            decreases self.index.len() - i,
        {
            proof {
                reveal(Seq::filter);
                assert(self@.take(i + 1).drop_last() =~= self@.take(i as int));
                assert(self@.take(i + 1).last() == self@[i as int]);
            }
            if self.index[i].key == *key {
                let ghost before = found@;
                found.push(i);
                proof {
                    assert(Seq::new(found@.len(), |k: int| self@[found@[k] as int]) =~= Seq::new(
                        before.len(),
                        |k: int| self@[before[k] as int],
                    ).push(self@[i as int]));
                }
            }
            i += 1;
        }
        proof {
            assert(self@.take(i as int) =~= self@);
        }
        found
    }

    /// The first move and the label of the entry at a place of the book.
    fn item(&self, place: usize) -> (r: (Move, String))
        requires
            place < self@.len(),
        ensures
            self@[place as int].continuation.len() > 0,
            r.0 == self@[place as int].continuation[0],
            r.1@ == self@[place as int].label,
    {
        proof {
            use_type_invariant(self);
        }
        let entry = &self.index[place];
        let line = &self.lines[entry.line];
        (line.moves[entry.ply], line.name.clone())
    }

    /// The number of continuations that the book knows for a position.
    pub fn count(&self, game: &Position) -> (r: usize)
        ensures
            r == match canonical_of(game@) {
                Some(key) => candidates(self@, key).len(),
                None => 0,
            },
    {
        match game.canonical() {
            Some(key) => {
                let found = self.matching(&key);
                found.len()
            },
            None => 0,
        }
    }

    /// The first move and the label of one continuation for a position: the
    /// one with the number `choice` among those that the book knows for it,
    /// in the order of the book.
    pub fn find_move_at(&self, game: &Position, choice: usize) -> (r: Option<(Move, String)>)
        ensures
            r is Some <==> (canonical_of(game@) matches Some(key) && choice < candidates(
                self@,
                key,
            ).len()),
            r matches Some((m, label)) ==> {
                let entry = candidates(self@, canonical_of(game@)->0)[choice as int];
                entry.continuation.len() > 0 && m == entry.continuation[0] && label@ == entry.label
            },
    {
        match game.canonical() {
            Some(key) => {
                let found = self.matching(&key);
                if choice < found.len() {
                    let ghost by_place = Seq::new(found@.len(), |k: int| self@[found@[k] as int]);
                    assert(by_place[choice as int] == self@[found@[choice as int] as int]);
                    Some(self.item(found[choice]))
                } else {
                    None
                }
            },
            None => None,
        }
    }

    /// The first move and the label of a continuation for a position, drawn
    /// at random among those that the book knows for it. A position that
    /// the book does not know has none.
    pub fn find_move(&self, game: &Position) -> (r: Option<(Move, String)>)
        ensures
            r is Some <==> (canonical_of(game@) matches Some(key) && candidates(self@, key).len()
                > 0),
            r matches Some((m, label)) ==> exists|n: int|
                {
                    let entry = #[trigger] candidates(self@, canonical_of(game@)->0)[n];
                    &&& 0 <= n < candidates(self@, canonical_of(game@)->0).len()
                    &&& entry.continuation.len() > 0
                    &&& m == entry.continuation[0]
                    &&& label@ == entry.label
                },
    {
        match game.canonical() {
            Some(key) => {
                let found = self.matching(&key);
                let ghost by_place = Seq::new(found@.len(), |k: int| self@[found@[k] as int]);
                match pick_one(&found) {
                    Some(place) => {
                        let ghost n = choose|n: int| 0 <= n < found@.len() && found@[n] == place;
                        assert(by_place[n] == self@[place as int]);
                        Some(self.item(place))
                    },
                    None => None,
                }
            },
            None => None,
        }
    }
}

/// `rand::seq::IndexedRandom::choose` on the items, with the generator of
/// `rand::rng`. Trusted: what comes back is one of the items, whichever, and
/// nothing comes back only where there is no item.
#[verifier::external_body]
fn pick_one(items: &Vec<usize>) -> (r: Option<usize>)
    ensures
        r is None <==> items@.len() == 0,
        r matches Some(x) ==> items@.contains(x),
{
    items.choose(&mut rand::rng()).copied()
}

} // verus!
